use crate::errors::{AnnotationError, AnnotationErrorView};
use vstd::prelude::*;
use vstd::std_specs::cmp::PartialEqSpecImpl;
use vstd::std_specs::convert::TryFromSpecImpl;

verus! {

/// A value that can check itself.
pub trait Validate {
    /// Whether the value is fit for use.
    fn validate(&self) -> bool;
}

/// Whether `tag` reads exactly `text`.
fn reads(tag: &String, text: &str) -> (r: bool)
    ensures
        r == (tag@ == text@),
{
    *tag == text.to_owned()
}

/// Names the digest algorithm behind an attested value. Any string can stand in
/// it; only some are known tags.
#[derive(Debug, Hash)]
pub struct HashType(pub String);

impl View for HashType {
    type V = Seq<char>;

    open spec fn view(&self) -> Seq<char> {
        self.0@
    }
}

impl Clone for HashType {
    fn clone(&self) -> (r: Self)
        ensures
            r == *self,
    {
        HashType(self.0.clone())
    }
}

impl PartialEq for HashType {
    fn eq(&self, other: &Self) -> (r: bool) {
        self.0 == other.0
    }
}

impl Eq for HashType {
}

impl PartialEqSpecImpl for HashType {
    open spec fn obeys_eq_spec() -> bool {
        true
    }

    open spec fn eq_spec(&self, other: &Self) -> bool {
        self@ == other@
    }
}

impl HashType {
    /// The tags of the known digest algorithms.
    pub open spec fn canonical(tag: Seq<char>) -> bool {
        ||| tag == "md5"@
        ||| tag == "sha256"@
        ||| tag == "none"@
    }

    /// Whether this is one of the known digest algorithms.
    pub fn is_base_hash_type(&self) -> (r: bool)
        ensures
            r == Self::canonical(self@),
    {
        reads(&self.0, "md5")
            || reads(&self.0, "sha256")
            || reads(&self.0, "none")
    }
}

/// MD5.
pub fn md5_hash() -> (r: HashType)
    ensures
        r@ == "md5"@,
{
    HashType("md5".to_owned())
}

/// SHA-256.
pub fn sha256_hash() -> (r: HashType)
    ensures
        r@ == "sha256"@,
{
    HashType("sha256".to_owned())
}

/// No digest at all.
pub fn no_hash() -> (r: HashType)
    ensures
        r@ == "none"@,
{
    HashType("none".to_owned())
}

/// Names the signature scheme that a key belongs to. Any string can stand in
/// it; only some are known tags.
#[derive(Debug, Hash)]
pub struct KeyAlgorithm(pub String);

impl View for KeyAlgorithm {
    type V = Seq<char>;

    open spec fn view(&self) -> Seq<char> {
        self.0@
    }
}

impl Clone for KeyAlgorithm {
    fn clone(&self) -> (r: Self)
        ensures
            r == *self,
    {
        KeyAlgorithm(self.0.clone())
    }
}

impl PartialEq for KeyAlgorithm {
    fn eq(&self, other: &Self) -> (r: bool) {
        self.0 == other.0
    }
}

impl Eq for KeyAlgorithm {
}

impl PartialEqSpecImpl for KeyAlgorithm {
    open spec fn obeys_eq_spec() -> bool {
        true
    }

    open spec fn eq_spec(&self, other: &Self) -> bool {
        self@ == other@
    }
}

impl KeyAlgorithm {
    /// The tags of the known signature schemes.
    pub open spec fn canonical(tag: Seq<char>) -> bool {
        ||| tag == "ed25519"@
        ||| tag == "custom"@
    }

    /// Whether this is one of the known signature schemes.
    pub fn is_base_key_algorithm(&self) -> (r: bool)
        ensures
            r == Self::canonical(self@),
    {
        reads(&self.0, "ed25519")
            || reads(&self.0, "custom")
    }
}

/// Ed25519.
pub fn ed25519_key() -> (r: KeyAlgorithm)
    ensures
        r@ == "ed25519"@,
{
    KeyAlgorithm("ed25519".to_owned())
}

/// A scheme that the caller brings along.
pub fn custom_key() -> (r: KeyAlgorithm)
    ensures
        r@ == "custom"@,
{
    KeyAlgorithm("custom".to_owned())
}

/// Names the kind of message stream that records are published to. Any string can stand in
/// it; only some are known tags.
#[derive(Debug, Hash)]
pub struct StreamType(pub String);

impl View for StreamType {
    type V = Seq<char>;

    open spec fn view(&self) -> Seq<char> {
        self.0@
    }
}

impl Clone for StreamType {
    fn clone(&self) -> (r: Self)
        ensures
            r == *self,
    {
        StreamType(self.0.clone())
    }
}

impl PartialEq for StreamType {
    fn eq(&self, other: &Self) -> (r: bool) {
        self.0 == other.0
    }
}

impl Eq for StreamType {
}

impl PartialEqSpecImpl for StreamType {
    open spec fn obeys_eq_spec() -> bool {
        true
    }

    open spec fn eq_spec(&self, other: &Self) -> bool {
        self@ == other@
    }
}

impl StreamType {
    /// The tags of the known stream kinds.
    pub open spec fn canonical(tag: Seq<char>) -> bool {
        ||| tag == "demia"@
        ||| tag == "mock"@
        ||| tag == "mqtt"@
        ||| tag == "custom"@
    }

    /// Whether this is one of the known stream kinds.
    pub fn is_base_stream_type(&self) -> (r: bool)
        ensures
            r == Self::canonical(self@),
    {
        reads(&self.0, "demia")
            || reads(&self.0, "mock")
            || reads(&self.0, "mqtt")
            || reads(&self.0, "custom")
    }
}

/// A Demia stream.
pub fn demia_stream() -> (r: StreamType)
    ensures
        r@ == "demia"@,
{
    StreamType("demia".to_owned())
}

/// A stream that goes nowhere, for trials.
pub fn mock_stream() -> (r: StreamType)
    ensures
        r@ == "mock"@,
{
    StreamType("mock".to_owned())
}

/// An MQTT broker.
pub fn mqtt_stream() -> (r: StreamType)
    ensures
        r@ == "mqtt"@,
{
    StreamType("mqtt".to_owned())
}

/// A stream that the caller brings along.
pub fn custom_stream() -> (r: StreamType)
    ensures
        r@ == "custom"@,
{
    StreamType("custom".to_owned())
}

/// Names what a record asserts. Any string can stand in
/// it; only some are known tags.
#[derive(Debug, Hash)]
pub struct AnnotationType(pub String);

impl View for AnnotationType {
    type V = Seq<char>;

    open spec fn view(&self) -> Seq<char> {
        self.0@
    }
}

impl Clone for AnnotationType {
    fn clone(&self) -> (r: Self)
        ensures
            r == *self,
    {
        AnnotationType(self.0.clone())
    }
}

impl PartialEq for AnnotationType {
    fn eq(&self, other: &Self) -> (r: bool) {
        self.0 == other.0
    }
}

impl Eq for AnnotationType {
}

impl PartialEqSpecImpl for AnnotationType {
    open spec fn obeys_eq_spec() -> bool {
        true
    }

    open spec fn eq_spec(&self, other: &Self) -> bool {
        self@ == other@
    }
}

impl AnnotationType {
    /// The tags of the known annotation kinds.
    pub open spec fn canonical(tag: Seq<char>) -> bool {
        ||| tag == "tpm"@
        ||| tag == "mock"@
        ||| tag == "tls"@
        ||| tag == "pki"@
        ||| tag == "pki-http"@
        ||| tag == "source-code"@
        ||| tag == "checksum"@
        ||| tag == "vulnerability"@
        ||| tag == "src"@
        ||| tag == "sbom"@
    }

    /// What parsing makes of `text`: a known tag is taken as it is, and any
    /// other string is handed back inside the error.
    pub open spec fn parse(text: Seq<char>) -> Result<Seq<char>, AnnotationErrorView> {
        if Self::canonical(text) {
            Ok(text)
        } else {
            Err(AnnotationErrorView::UnknownAnnotation(text))
        }
    }

    /// The tag as text.
    pub fn kind(&self) -> (text: &str)
        ensures
            text@ == self@,
    {
        self.0.as_str()
    }

    /// Whether this is one of the known annotation kinds.
    pub fn is_base_annotation_type(&self) -> (r: bool)
        ensures
            r == Self::canonical(self@),
    {
        reads(&self.0, "tpm")
            || reads(&self.0, "mock")
            || reads(&self.0, "tls")
            || reads(&self.0, "pki")
            || reads(&self.0, "pki-http")
            || reads(&self.0, "source-code")
            || reads(&self.0, "checksum")
            || reads(&self.0, "vulnerability")
            || reads(&self.0, "src")
            || reads(&self.0, "sbom")
    }
}

impl TryFrom<&str> for AnnotationType {
    type Error = AnnotationError;

    /// Parses a known annotation kind. There is no partial match and no change of
    /// case: the string is one of the known tags, or it is refused.
    fn try_from(kind: &str) -> (r: Result<Self, AnnotationError>)
        ensures
            (match r {
                Ok(tag) => Self::parse(kind@) == Ok::<Seq<char>, AnnotationErrorView>(tag@),
                Err(err) => Self::parse(kind@) == Err::<Seq<char>, AnnotationErrorView>(err@),
            }),
    {
        let tag = AnnotationType(kind.to_owned());
        if tag.is_base_annotation_type() {
            Ok(tag)
        } else {
            Err(AnnotationError::UnknownAnnotation(tag.0))
        }
    }
}

impl TryFromSpecImpl<&str> for AnnotationType {
    /// The result is stated on `try_from` itself, over views.
    open spec fn obeys_try_from_spec() -> bool {
        false
    }

    open spec fn try_from_spec(kind: &str) -> Result<Self, AnnotationError> {
        arbitrary()
    }
}

/// A trusted platform module was present.
pub fn annotation_tpm() -> (r: AnnotationType)
    ensures
        r@ == "tpm"@,
{
    AnnotationType("tpm".to_owned())
}

/// Nothing real, for trials.
pub fn annotation_mock() -> (r: AnnotationType)
    ensures
        r@ == "mock"@,
{
    AnnotationType("mock".to_owned())
}

/// The content came over TLS.
pub fn annotation_tls() -> (r: AnnotationType)
    ensures
        r@ == "tls"@,
{
    AnnotationType("tls".to_owned())
}

/// The content carried a valid signature.
pub fn annotation_pki() -> (r: AnnotationType)
    ensures
        r@ == "pki"@,
{
    AnnotationType("pki".to_owned())
}

/// An HTTP message carried a valid signature.
pub fn annotation_pki_http() -> (r: AnnotationType)
    ensures
        r@ == "pki-http"@,
{
    AnnotationType("pki-http".to_owned())
}

/// The source code matched its checksum.
pub fn annotation_source_code() -> (r: AnnotationType)
    ensures
        r@ == "source-code"@,
{
    AnnotationType("source-code".to_owned())
}

/// An artifact matched its checksum.
pub fn annotation_checksum() -> (r: AnnotationType)
    ensures
        r@ == "checksum"@,
{
    AnnotationType("checksum".to_owned())
}

/// A vulnerability scan came back clean.
pub fn annotation_vulnerability() -> (r: AnnotationType)
    ensures
        r@ == "vulnerability"@,
{
    AnnotationType("vulnerability".to_owned())
}

/// The origin of the content is known.
pub fn annotation_source() -> (r: AnnotationType)
    ensures
        r@ == "src"@,
{
    AnnotationType("src".to_owned())
}

/// A bill of materials was present.
pub fn annotation_sbom() -> (r: AnnotationType)
    ensures
        r@ == "sbom"@,
{
    AnnotationType("sbom".to_owned())
}

/// Names the layer of the stack that produced a record. Any string can stand in
/// it; only some are known tags.
#[derive(Debug, Hash)]
pub struct LayerType(pub String);

impl View for LayerType {
    type V = Seq<char>;

    open spec fn view(&self) -> Seq<char> {
        self.0@
    }
}

impl Clone for LayerType {
    fn clone(&self) -> (r: Self)
        ensures
            r == *self,
    {
        LayerType(self.0.clone())
    }
}

impl PartialEq for LayerType {
    fn eq(&self, other: &Self) -> (r: bool) {
        self.0 == other.0
    }
}

impl Eq for LayerType {
}

impl PartialEqSpecImpl for LayerType {
    open spec fn obeys_eq_spec() -> bool {
        true
    }

    open spec fn eq_spec(&self, other: &Self) -> bool {
        self@ == other@
    }
}

impl LayerType {
    /// The tags of the known layers.
    pub open spec fn canonical(tag: Seq<char>) -> bool {
        ||| tag == "app"@
        ||| tag == "cicd"@
        ||| tag == "os"@
        ||| tag == "host"@
    }

    /// What parsing makes of `text`: a known tag is taken as it is, and any
    /// other string is handed back inside the error.
    pub open spec fn parse(text: Seq<char>) -> Result<Seq<char>, AnnotationErrorView> {
        if Self::canonical(text) {
            Ok(text)
        } else {
            Err(AnnotationErrorView::UnknownLayer(text))
        }
    }

    /// The tag as text.
    pub fn kind(&self) -> (text: &str)
        ensures
            text@ == self@,
    {
        self.0.as_str()
    }

    /// Whether this is one of the known layers.
    pub fn is_base_layer_type(&self) -> (r: bool)
        ensures
            r == Self::canonical(self@),
    {
        reads(&self.0, "app")
            || reads(&self.0, "cicd")
            || reads(&self.0, "os")
            || reads(&self.0, "host")
    }
}

impl TryFrom<&str> for LayerType {
    type Error = AnnotationError;

    /// Parses a known layer. There is no partial match and no change of
    /// case: the string is one of the known tags, or it is refused.
    fn try_from(kind: &str) -> (r: Result<Self, AnnotationError>)
        ensures
            (match r {
                Ok(tag) => Self::parse(kind@) == Ok::<Seq<char>, AnnotationErrorView>(tag@),
                Err(err) => Self::parse(kind@) == Err::<Seq<char>, AnnotationErrorView>(err@),
            }),
    {
        let tag = LayerType(kind.to_owned());
        if tag.is_base_layer_type() {
            Ok(tag)
        } else {
            Err(AnnotationError::UnknownLayer(tag.0))
        }
    }
}

impl TryFromSpecImpl<&str> for LayerType {
    /// The result is stated on `try_from` itself, over views.
    open spec fn obeys_try_from_spec() -> bool {
        false
    }

    open spec fn try_from_spec(kind: &str) -> Result<Self, AnnotationError> {
        arbitrary()
    }
}

/// The application.
pub fn layer_app() -> (r: LayerType)
    ensures
        r@ == "app"@,
{
    LayerType("app".to_owned())
}

/// The build and delivery pipeline.
pub fn layer_cicd() -> (r: LayerType)
    ensures
        r@ == "cicd"@,
{
    LayerType("cicd".to_owned())
}

/// The operating system.
pub fn layer_os() -> (r: LayerType)
    ensures
        r@ == "os"@,
{
    LayerType("os".to_owned())
}

/// The host device.
pub fn layer_host() -> (r: LayerType)
    ensures
        r@ == "host"@,
{
    LayerType("host".to_owned())
}

/// Names what a published message does to the record it carries. Any string can stand in
/// it; only some are known tags.
#[derive(Debug, Hash)]
pub struct SdkAction(pub String);

impl View for SdkAction {
    type V = Seq<char>;

    open spec fn view(&self) -> Seq<char> {
        self.0@
    }
}

impl Clone for SdkAction {
    fn clone(&self) -> (r: Self)
        ensures
            r == *self,
    {
        SdkAction(self.0.clone())
    }
}

impl PartialEq for SdkAction {
    fn eq(&self, other: &Self) -> (r: bool) {
        self.0 == other.0
    }
}

impl Eq for SdkAction {
}

impl PartialEqSpecImpl for SdkAction {
    open spec fn obeys_eq_spec() -> bool {
        true
    }

    open spec fn eq_spec(&self, other: &Self) -> bool {
        self@ == other@
    }
}

impl SdkAction {
    /// The tags of the known actions.
    pub open spec fn canonical(tag: Seq<char>) -> bool {
        ||| tag == "create"@
        ||| tag == "mutate"@
        ||| tag == "transit"@
        ||| tag == "publish"@
    }

    /// Whether this is one of the known actions.
    pub fn is_base_action(&self) -> (r: bool)
        ensures
            r == Self::canonical(self@),
    {
        reads(&self.0, "create")
            || reads(&self.0, "mutate")
            || reads(&self.0, "transit")
            || reads(&self.0, "publish")
    }
}

/// The record was created.
pub fn action_create() -> (r: SdkAction)
    ensures
        r@ == "create"@,
{
    SdkAction("create".to_owned())
}

/// The record was derived from another.
pub fn action_mutate() -> (r: SdkAction)
    ensures
        r@ == "mutate"@,
{
    SdkAction("mutate".to_owned())
}

/// The record passed through.
pub fn action_transit() -> (r: SdkAction)
    ensures
        r@ == "transit"@,
{
    SdkAction("transit".to_owned())
}

/// The record was published.
pub fn action_publish() -> (r: SdkAction)
    ensures
        r@ == "publish"@,
{
    SdkAction("publish".to_owned())
}

/// Parsing accepts exactly the known annotation kinds and keeps each one's
/// text; every other string comes back inside the error.
pub proof fn annotation_type_parse_keeps_text(text: Seq<char>)
    ensures
        AnnotationType::canonical(text) ==> AnnotationType::parse(text) == Ok::<
            Seq<char>,
            AnnotationErrorView,
        >(text),
        !AnnotationType::canonical(text) ==> AnnotationType::parse(text) == Err::<
            Seq<char>,
            AnnotationErrorView,
        >(AnnotationErrorView::UnknownAnnotation(text)),
{
}

/// Parsing accepts exactly the known layers and keeps each one's text; every
/// other string comes back inside the error.
pub proof fn layer_type_parse_keeps_text(text: Seq<char>)
    ensures
        LayerType::canonical(text) ==> LayerType::parse(text) == Ok::<
            Seq<char>,
            AnnotationErrorView,
        >(text),
        !LayerType::canonical(text) ==> LayerType::parse(text) == Err::<
            Seq<char>,
            AnnotationErrorView,
        >(AnnotationErrorView::UnknownLayer(text)),
{
}

} // verus!
