use crate::constants::{
    annotation_source, layer_host, sha256_hash, AnnotationType, HashType, LayerType,
};
use vstd::prelude::*;
use vstd::std_specs::cmp::PartialEqSpecImpl;

verus! {

/// One provenance record: a fact about a piece of content, asserted by a host
/// at one layer of the stack.
#[derive(Debug)]
pub struct Annotation {
    /// Unique and sortable by time; set once, when the record is made.
    pub id: String,
    /// What is being attested, in words.
    pub key: String,
    /// The digest algorithm behind the attested value.
    pub hash: HashType,
    /// The device or process that asserts the record.
    pub host: String,
    /// Links this record to the record of another layer; empty unless set.
    pub tag: String,
    /// The layer that produced the record.
    pub layer: LayerType,
    /// What the record asserts.
    pub kind: AnnotationType,
    /// Empty until a provider has signed the record.
    pub signature: String,
    /// The outcome of the check behind the record.
    pub is_satisfied: bool,
    /// When the record was made, with the offset from UTC.
    pub timestamp: String,
}

/// An [`Annotation`] with its strings as sequences of characters.
pub struct AnnotationView {
    pub id: Seq<char>,
    pub key: Seq<char>,
    pub hash: Seq<char>,
    pub host: Seq<char>,
    pub tag: Seq<char>,
    pub layer: Seq<char>,
    pub kind: Seq<char>,
    pub signature: Seq<char>,
    pub is_satisfied: bool,
    pub timestamp: Seq<char>,
}

impl View for Annotation {
    type V = AnnotationView;

    open spec fn view(&self) -> AnnotationView {
        AnnotationView {
            id: self.id@,
            key: self.key@,
            hash: self.hash@,
            host: self.host@,
            tag: self.tag@,
            layer: self.layer@,
            kind: self.kind@,
            signature: self.signature@,
            is_satisfied: self.is_satisfied,
            timestamp: self.timestamp@,
        }
    }
}

impl Clone for Annotation {
    fn clone(&self) -> (r: Self)
        ensures
            r == *self,
    {
        Annotation {
            id: self.id.clone(),
            key: self.key.clone(),
            hash: self.hash.clone(),
            host: self.host.clone(),
            tag: self.tag.clone(),
            layer: self.layer.clone(),
            kind: self.kind.clone(),
            signature: self.signature.clone(),
            is_satisfied: self.is_satisfied,
            timestamp: self.timestamp.clone(),
        }
    }
}

impl PartialEq for Annotation {
    fn eq(&self, other: &Self) -> (r: bool) {
        self.id == other.id && self.key == other.key && self.hash == other.hash && self.host
            == other.host && self.tag == other.tag && self.layer == other.layer && self.kind
            == other.kind && self.signature == other.signature && self.is_satisfied
            == other.is_satisfied && self.timestamp == other.timestamp
    }
}

impl Eq for Annotation {
}

impl PartialEqSpecImpl for Annotation {
    open spec fn obeys_eq_spec() -> bool {
        true
    }

    open spec fn eq_spec(&self, other: &Self) -> bool {
        self@ == other@
    }
}

/// A chain of records. The order is that of insertion and carries meaning;
/// nothing keeps a record from standing in it twice.
#[derive(Debug)]
pub struct AnnotationList {
    pub items: Vec<Annotation>,
}

impl View for AnnotationList {
    type V = Seq<AnnotationView>;

    open spec fn view(&self) -> Seq<AnnotationView> {
        Seq::new(self.items@.len(), |i: int| self.items@[i]@)
    }
}

impl Default for AnnotationList {
    fn default() -> (r: Self)
        ensures
            r@ == Seq::<AnnotationView>::empty(),
    {
        AnnotationList { items: Vec::new() }
    }
}

impl Clone for AnnotationList {
    fn clone(&self) -> (r: Self)
        ensures
            r@ == self@,
    {
        let mut items: Vec<Annotation> = Vec::new();
        let mut i: usize = 0;
        while i < self.items.len()
            invariant
                i <= self.items.len(),
                items.len() == i,
                forall|j: int| 0 <= j < i ==> items@[j]@ == self.items@[j]@,
            decreases self.items.len() - i,
        {
            items.push(self.items[i].clone());
            i += 1;
        }
        AnnotationList { items }
    }
}

impl PartialEq for AnnotationList {
    fn eq(&self, other: &Self) -> (r: bool) {
        if self.items.len() != other.items.len() {
            assert(self@.len() != other@.len());
            return false;
        }
        let mut i: usize = 0;
        while i < self.items.len()
            invariant
                i <= self.items.len(),
                self.items.len() == other.items.len(),
                forall|j: int| 0 <= j < i ==> self.items@[j]@ == other.items@[j]@,
            decreases self.items.len() - i,
        {
            if self.items[i] != other.items[i] {
                assert(self@[i as int] != other@[i as int]);
                return false;
            }
            i += 1;
        }
        assert(self@ =~= other@);
        true
    }
}

impl Eq for AnnotationList {
}

impl PartialEqSpecImpl for AnnotationList {
    open spec fn obeys_eq_spec() -> bool {
        true
    }

    open spec fn eq_spec(&self, other: &Self) -> bool {
        self@ == other@
    }
}

/// Whether `c` is a digit of Crockford's base 32: a decimal digit, or a
/// capital letter other than I, L, O and U.
pub open spec fn is_crockford_digit(c: char) -> bool {
    ||| '0' <= c <= '9'
    ||| ('A' <= c <= 'Z' && c != 'I' && c != 'L' && c != 'O' && c != 'U')
}

/// Whether `text` has the shape of a ULID: 26 digits of Crockford's base 32.
pub open spec fn is_ulid_text(text: Seq<char>) -> bool {
    &&& text.len() == 26
    &&& forall|i: int| 0 <= i < text.len() ==> is_crockford_digit(#[trigger] text[i])
}

/// A new identifier from `ulid::Ulid::new`, in the text form that
/// `Ulid::to_string` gives it: 26 digits of Crockford's base 32. Which digits
/// depends on the clock and on chance, so no more is claimed. Where the
/// operating system has no randomness to give, the call does not return.
#[verifier::external_body]
fn fresh_id() -> (id: String)
    ensures
        is_ulid_text(id@),
{
    ulid::Ulid::new().to_string()
}

/// Whether `c` is a decimal digit.
pub open spec fn is_decimal_digit(c: char) -> bool {
    '0' <= c <= '9'
}

/// Whether `text` ends in an offset from UTC: a sign, two digits for the
/// hours, a colon, and two digits for the minutes.
pub open spec fn ends_in_offset(text: Seq<char>) -> bool {
    let end = text.len() as int;
    &&& end >= 6
    &&& (text[end - 6] == '+' || text[end - 6] == '-')
    &&& is_decimal_digit(text[end - 5])
    &&& is_decimal_digit(text[end - 4])
    &&& text[end - 3] == ':'
    &&& is_decimal_digit(text[end - 2])
    &&& is_decimal_digit(text[end - 1])
}

/// The local time from `chrono::Local::now`, written by
/// `chrono::DateTime::to_rfc3339`: a year of four digits or more, `-MM-DD`,
/// `T`, `HH:MM:SS`, a fraction of the second where there is one, and the
/// offset as a sign and `HH:MM`, which come to 25 characters or more. The
/// reading depends on the clock and the time zone, so no more is claimed.
/// On a machine whose clock reads a time before 1970, or whose time zone
/// cannot be read, the call does not return.
#[verifier::external_body]
fn local_timestamp() -> (text: String)
    ensures
        text@.len() >= 25,
        ends_in_offset(text@),
{
    chrono::Local::now().to_rfc3339()
}

/// The text that `source` stands for: its own, or none where it is absent.
pub open spec fn source_text(source: Option<&str>) -> Seq<char> {
    match source {
        Some(text) => text@,
        None => Seq::empty(),
    }
}

impl Annotation {
    /// The tag that a new record gets: the supplied one at the application
    /// layer, and none at every other layer.
    pub open spec fn derived_tag(layer: Seq<char>, supplied: Seq<char>) -> Seq<char> {
        if layer == "app"@ {
            supplied
        } else {
            Seq::empty()
        }
    }

    /// The record that is made from an identifier, a timestamp and the
    /// caller's values: unsigned, and tagged by its layer.
    pub open spec fn assembled(
        id: Seq<char>,
        timestamp: Seq<char>,
        key: Seq<char>,
        hash: Seq<char>,
        host: Seq<char>,
        layer: Seq<char>,
        kind: Seq<char>,
        is_satisfied: bool,
        supplied_tag: Seq<char>,
    ) -> AnnotationView {
        AnnotationView {
            id,
            key,
            hash,
            host,
            tag: Self::derived_tag(layer, supplied_tag),
            layer,
            kind,
            signature: Seq::empty(),
            is_satisfied,
            timestamp,
        }
    }

    /// Makes a record from an identifier and a timestamp that the caller
    /// already holds.
    pub fn assemble(
        id: String,
        timestamp: String,
        key: &str,
        hash: HashType,
        host: &str,
        layer: LayerType,
        kind: AnnotationType,
        is_satisfied: bool,
        tag_source: Option<&str>,
    ) -> (r: Self)
        ensures
            r@ == Self::assembled(
                id@,
                timestamp@,
                key@,
                hash@,
                host@,
                layer@,
                kind@,
                is_satisfied,
                source_text(tag_source),
            ),
    {
        let tag = match tag_source {
            Some(text) => {
                if layer.0 == "app".to_owned() {
                    text.to_owned()
                } else {
                    String::new()
                }
            },
            None => String::new(),
        };
        Annotation {
            id,
            key: key.to_owned(),
            hash,
            host: host.to_owned(),
            tag,
            layer,
            kind,
            signature: String::new(),
            is_satisfied,
            timestamp,
        }
    }

    /// Makes a record with a fresh identifier and the current local time,
    /// written with its offset from UTC. The tag is read from `tag_source`
    /// here and now, and only at the application layer; at every other
    /// layer it stays empty whatever was supplied. The identifier and the
    /// time come from the machine: where it has no randomness to give, or
    /// its clock or time zone cannot be read, the call does not return.
    pub fn new(
        key: &str,
        hash: HashType,
        host: &str,
        layer: LayerType,
        kind: AnnotationType,
        is_satisfied: bool,
        tag_source: Option<&str>,
    ) -> (r: Self)
        ensures
            r@ == Self::assembled(
                r@.id,
                r@.timestamp,
                key@,
                hash@,
                host@,
                layer@,
                kind@,
                is_satisfied,
                source_text(tag_source),
            ),
            is_ulid_text(r@.id),
            r@.timestamp.len() >= 25,
            ends_in_offset(r@.timestamp),
    {
        Self::assemble(
            fresh_id(),
            local_timestamp(),
            key,
            hash,
            host,
            layer,
            kind,
            is_satisfied,
            tag_source,
        )
    }

    /// Replaces the tag and nothing else.
    pub fn set_tag(&mut self, tag: String)
        ensures
            final(self)@ == (AnnotationView { tag: tag@, ..old(self)@ }),
    {
        self.tag = tag;
    }

    /// Replaces the signature and nothing else; an earlier one is overwritten.
    pub fn with_signature(&mut self, signature: &str)
        ensures
            final(self)@ == (AnnotationView { signature: signature@, ..old(self)@ }),
    {
        self.signature = signature.to_owned();
    }

    /// Whether both the digest algorithm and the kind are known tags.
    pub fn validate_base(&self) -> (r: bool)
        ensures
            r == (HashType::canonical(self.hash@) && AnnotationType::canonical(self.kind@)),
    {
        self.hash.is_base_hash_type() && self.kind.is_base_annotation_type()
    }
}

/// A new record carries the supplied tag at the application layer, and no tag
/// at any other layer, whatever was supplied.
pub proof fn tag_follows_layer(
    id: Seq<char>,
    timestamp: Seq<char>,
    key: Seq<char>,
    hash: Seq<char>,
    host: Seq<char>,
    layer: Seq<char>,
    kind: Seq<char>,
    is_satisfied: bool,
    supplied_tag: Seq<char>,
)
    ensures
        layer == "app"@ ==> Annotation::assembled(
            id,
            timestamp,
            key,
            hash,
            host,
            layer,
            kind,
            is_satisfied,
            supplied_tag,
        ).tag == supplied_tag,
        layer != "app"@ ==> Annotation::assembled(
            id,
            timestamp,
            key,
            hash,
            host,
            layer,
            kind,
            is_satisfied,
            supplied_tag,
        ).tag == Seq::<char>::empty(),
{
}

/// The layer of a record whose wire form names none: the host.
pub fn default_host() -> (r: LayerType)
    ensures
        r@ == "host"@,
{
    layer_host()
}

/// A record for trials: a satisfied source check on a SHA-256 digest, made
/// at the host layer, with a fresh identifier and the current time as
/// [`Annotation::new`] gives them.
pub fn mock_annotation() -> (r: Annotation)
    ensures
        r@ == Annotation::assembled(
            r@.id,
            r@.timestamp,
            "The hash of the contents"@,
            "sha256"@,
            "Host Device"@,
            "host"@,
            "src"@,
            true,
            Seq::empty(),
        ),
        is_ulid_text(r@.id),
        r@.timestamp.len() >= 25,
        ends_in_offset(r@.timestamp),
{
    let key = "The hash of the contents";
    let hash = sha256_hash();
    let host = "Host Device";
    let layer = layer_host();
    let kind = annotation_source();
    let satisfied = true;
    Annotation::new(key, hash, host, layer, kind, satisfied, None)
}

} // verus!
