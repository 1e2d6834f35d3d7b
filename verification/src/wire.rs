use crate::annotations::{default_host, Annotation, AnnotationList, AnnotationView};
use crate::constants::{AnnotationType, HashType, LayerType};
use crate::providers::{MessageView, MessageWrapper};
use vstd::prelude::*;

verus! {

/// `{`
pub const OBJECT_OPEN: u8 = 0x7b;

/// `}`
pub const OBJECT_CLOSE: u8 = 0x7d;

/// `[`
pub const ARRAY_OPEN: u8 = 0x5b;

/// `]`
pub const ARRAY_CLOSE: u8 = 0x5d;

/// `,`
pub const COMMA: u8 = 0x2c;

/// `:`
pub const COLON: u8 = 0x3a;

/// The JSON text of a string as `serde_json::to_vec` writes it: the string
/// between double quotes, with what JSON must escape escaped.
pub uninterp spec fn json_string(text: Seq<char>) -> Seq<u8>;

/// Writes `text` as a JSON string with `serde_json::to_vec`. The bytes depend
/// on the text alone. The call succeeds on every text: it writes into a
/// vector of its own, and the only failure that writing a string can meet is
/// a failure of what is written into, which a vector, growing as it is
/// appended to, never reports.
#[verifier::external_body]
fn json_text(text: &str) -> (r: Result<Vec<u8>, serde_json::Error>)
    ensures
        r is Ok,
        r matches Ok(bytes) ==> bytes@ == json_string(text@),
{
    serde_json::to_vec(text)
}

/// The JSON text of a boolean: `true` or `false`.
pub open spec fn flag_text(flag: bool) -> Seq<u8> {
    if flag {
        seq![0x74u8, 0x72u8, 0x75u8, 0x65u8]
    } else {
        seq![0x66u8, 0x61u8, 0x6cu8, 0x73u8, 0x65u8]
    }
}

/// One member of an object: the name's text, a colon, the value's text.
pub open spec fn member_text(name: Seq<u8>, value: Seq<u8>) -> Seq<u8> {
    name + seq![COLON] + value
}

/// The parts in their order, with a comma between each two.
pub open spec fn joined(parts: Seq<Seq<u8>>) -> Seq<u8>
    decreases parts.len(),
{
    if parts.len() == 0 {
        Seq::empty()
    } else if parts.len() == 1 {
        parts[0]
    } else {
        joined(parts.drop_last()) + seq![COMMA] + parts.last()
    }
}

/// The compact text of an object with these members.
pub open spec fn object_text(members: Seq<Seq<u8>>) -> Seq<u8> {
    seq![OBJECT_OPEN] + joined(members) + seq![OBJECT_CLOSE]
}

/// The compact text of an array with these items.
pub open spec fn array_text(items: Seq<Seq<u8>>) -> Seq<u8> {
    seq![ARRAY_OPEN] + joined(items) + seq![ARRAY_CLOSE]
}

/// The contents of each part.
pub open spec fn contents(parts: Seq<Vec<u8>>) -> Seq<Seq<u8>> {
    Seq::new(parts.len(), |i: int| parts[i]@)
}

/// Writes a boolean.
pub fn flag(value: bool) -> (r: Vec<u8>)
    ensures
        r@ == flag_text(value),
{
    let mut out: Vec<u8> = Vec::new();
    if value {
        out.push(0x74u8);
        out.push(0x72u8);
        out.push(0x75u8);
        out.push(0x65u8);
    } else {
        out.push(0x66u8);
        out.push(0x61u8);
        out.push(0x6cu8);
        out.push(0x73u8);
        out.push(0x65u8);
    }
    out
}

/// Writes one member of an object from the texts of its name and value.
pub fn member(name: &Vec<u8>, value: &Vec<u8>) -> (r: Vec<u8>)
    ensures
        r@ == member_text(name@, value@),
{
    let mut out: Vec<u8> = Vec::new();
    out.extend_from_slice(name.as_slice());
    out.push(COLON);
    out.extend_from_slice(value.as_slice());
    out
}

/// Appends the parts to `out`, with a comma between each two.
fn join_into(out: &mut Vec<u8>, parts: &Vec<Vec<u8>>)
    ensures
        final(out)@ == old(out)@ + joined(contents(parts@)),
{
    let ghost before = out@;
    let ghost all = contents(parts@);
    let mut i: usize = 0;
    while i < parts.len()
        invariant
            i <= parts.len(),
            all == contents(parts@),
            all.len() == parts.len(),
            out@ == before + joined(all.take(i as int)),
        decreases parts.len() - i,
    {
        if i > 0 {
            out.push(COMMA);
        }
        out.extend_from_slice(parts[i].as_slice());
        proof {
            let next = all.take(i as int + 1);
            assert(next.drop_last() =~= all.take(i as int));
            assert(next.last() == parts@[i as int]@);
        }
        i += 1;
    }
    assert(all.take(i as int) =~= all);
}

/// Writes an object from the texts of its members.
pub fn frame_object(members: &Vec<Vec<u8>>) -> (r: Vec<u8>)
    ensures
        r@ == object_text(contents(members@)),
{
    let mut out: Vec<u8> = Vec::new();
    out.push(OBJECT_OPEN);
    join_into(&mut out, members);
    out.push(OBJECT_CLOSE);
    out
}

/// Writes an array from the texts of its items.
pub fn frame_array(items: &Vec<Vec<u8>>) -> (r: Vec<u8>)
    ensures
        r@ == array_text(contents(items@)),
{
    let mut out: Vec<u8> = Vec::new();
    out.push(ARRAY_OPEN);
    join_into(&mut out, items);
    out.push(ARRAY_CLOSE);
    out
}

/// Writes a member whose value is a string.
fn text_member(name: &str, value: &str) -> (r: Result<Vec<u8>, serde_json::Error>)
    ensures
        r is Ok,
        r matches Ok(bytes) ==> bytes@ == member_text(json_string(name@), json_string(value@)),
{
    let name_text = json_text(name)?;
    let value_text = json_text(value)?;
    Ok(member(&name_text, &value_text))
}

/// Writes a member whose value is a boolean.
fn flag_member(name: &str, value: bool) -> (r: Result<Vec<u8>, serde_json::Error>)
    ensures
        r is Ok,
        r matches Ok(bytes) ==> bytes@ == member_text(json_string(name@), flag_text(value)),
{
    let name_text = json_text(name)?;
    Ok(member(&name_text, &flag(value)))
}

impl Annotation {
    /// The bytes that stand for a record on the wire: one compact JSON
    /// object whose members come in this order, each string member as its
    /// plain text, and `is_satisfied` under the name `isSatisfied`.
    pub open spec fn wire_form(record: AnnotationView) -> Seq<u8> {
        object_text(
            seq![
                member_text(json_string("id"@), json_string(record.id)),
                member_text(json_string("key"@), json_string(record.key)),
                member_text(json_string("hash"@), json_string(record.hash)),
                member_text(json_string("host"@), json_string(record.host)),
                member_text(json_string("tag"@), json_string(record.tag)),
                member_text(json_string("layer"@), json_string(record.layer)),
                member_text(json_string("kind"@), json_string(record.kind)),
                member_text(json_string("signature"@), json_string(record.signature)),
                member_text(json_string("isSatisfied"@), flag_text(record.is_satisfied)),
                member_text(json_string("timestamp"@), json_string(record.timestamp)),
            ],
        )
    }

    /// Brings the record into its wire form. Every record has one, so the
    /// result is never an error.
    pub fn to_wire(&self) -> (r: Result<Vec<u8>, serde_json::Error>)
        ensures
            r is Ok,
            r matches Ok(bytes) ==> bytes@ == Self::wire_form(self@),
    {
        let mut members: Vec<Vec<u8>> = Vec::new();
        members.push(text_member("id", self.id.as_str())?);
        members.push(text_member("key", self.key.as_str())?);
        members.push(text_member("hash", self.hash.0.as_str())?);
        members.push(text_member("host", self.host.as_str())?);
        members.push(text_member("tag", self.tag.as_str())?);
        members.push(text_member("layer", self.layer.0.as_str())?);
        members.push(text_member("kind", self.kind.0.as_str())?);
        members.push(text_member("signature", self.signature.as_str())?);
        members.push(flag_member("isSatisfied", self.is_satisfied)?);
        members.push(text_member("timestamp", self.timestamp.as_str())?);
        let out = frame_object(&members);
        assert(contents(members@) =~= seq![
            member_text(json_string("id"@), json_string(self@.id)),
            member_text(json_string("key"@), json_string(self@.key)),
            member_text(json_string("hash"@), json_string(self@.hash)),
            member_text(json_string("host"@), json_string(self@.host)),
            member_text(json_string("tag"@), json_string(self@.tag)),
            member_text(json_string("layer"@), json_string(self@.layer)),
            member_text(json_string("kind"@), json_string(self@.kind)),
            member_text(json_string("signature"@), json_string(self@.signature)),
            member_text(json_string("isSatisfied"@), flag_text(self@.is_satisfied)),
            member_text(json_string("timestamp"@), json_string(self@.timestamp)),
        ]);
        Ok(out)
    }
}

impl AnnotationList {
    /// The wire forms of the records, in the order of the chain.
    pub open spec fn wire_items(chain: Seq<AnnotationView>) -> Seq<Seq<u8>> {
        Seq::new(chain.len(), |i: int| Annotation::wire_form(chain[i]))
    }

    /// The bytes that stand for a chain on the wire: one compact JSON object
    /// whose only member, `items`, is the array of the records' wire forms.
    pub open spec fn wire_form(chain: Seq<AnnotationView>) -> Seq<u8> {
        object_text(
            seq![member_text(json_string("items"@), array_text(Self::wire_items(chain)))],
        )
    }

    /// Brings the chain into its wire form. Every chain has one, so the
    /// result is never an error.
    pub fn to_wire(&self) -> (r: Result<Vec<u8>, serde_json::Error>)
        ensures
            r is Ok,
            r matches Ok(bytes) ==> bytes@ == Self::wire_form(self@),
    {
        let mut items: Vec<Vec<u8>> = Vec::new();
        let mut i: usize = 0;
        while i < self.items.len()
            invariant
                i <= self.items.len(),
                items.len() == i,
                contents(items@) == Self::wire_items(self@.take(i as int)),
            decreases self.items.len() - i,
        {
            let item = self.items[i].to_wire()?;
            let ghost earlier = contents(items@);
            items.push(item);
            assert forall|k: int| 0 <= k <= i implies contents(items@)[k] == Annotation::wire_form(
                self@[k],
            ) by {
                if k < i {
                    assert(contents(items@)[k] == earlier[k]);
                    assert(self@.take(i as int)[k] == self@[k]);
                }
            }
            assert(contents(items@) =~= Self::wire_items(self@.take(i as int + 1)));
            i += 1;
        }
        assert(self@.take(i as int) =~= self@);
        let name = json_text("items")?;
        let mut members: Vec<Vec<u8>> = Vec::new();
        members.push(member(&name, &frame_array(&items)));
        let out = frame_object(&members);
        assert(contents(members@) =~= seq![
            member_text(json_string("items"@), array_text(Self::wire_items(self@))),
        ]);
        Ok(out)
    }
}

impl<'a> MessageWrapper<'a> {
    /// The bytes that stand for a message on the wire: one compact JSON
    /// object whose members come in this order, with `message_type` under
    /// the name `messageType`.
    pub open spec fn wire_form(message: MessageView) -> Seq<u8> {
        object_text(
            seq![
                member_text(json_string("action"@), json_string(message.action)),
                member_text(json_string("messageType"@), json_string(message.message_type)),
                member_text(json_string("content"@), json_string(message.content)),
            ],
        )
    }

    /// Brings the message into its wire form. Every message has one, so the
    /// result is never an error.
    pub fn to_wire(&self) -> (r: Result<Vec<u8>, serde_json::Error>)
        ensures
            r is Ok,
            r matches Ok(bytes) ==> bytes@ == Self::wire_form(self@),
    {
        let mut members: Vec<Vec<u8>> = Vec::new();
        members.push(text_member("action", self.action.0.as_str())?);
        members.push(text_member("messageType", self.message_type)?);
        members.push(text_member("content", self.content)?);
        let out = frame_object(&members);
        assert(contents(members@) =~= seq![
            member_text(json_string("action"@), json_string(self@.action)),
            member_text(json_string("messageType"@), json_string(self@.message_type)),
            member_text(json_string("content"@), json_string(self@.content)),
        ]);
        Ok(out)
    }
}

/// `serde_json::Value`: a JSON document as `serde_json` holds it once it is
/// parsed. It is read through [`document_members`] alone.
#[verifier::external_type_specification]
#[verifier::external_body]
pub struct ExJsonValue(serde_json::Value);

/// What a JSON document holds under a name. Of a number, an array or an
/// object only the kind is kept: no record has such a member.
#[derive(Debug)]
pub enum Member {
    Absent,
    Null,
    Flag(bool),
    Number,
    Text(String),
    Array,
    Object,
}

/// A [`Member`] with its string as a sequence of characters.
pub enum MemberView {
    Absent,
    Null,
    Flag(bool),
    Number,
    Text(Seq<char>),
    Array,
    Object,
}

impl View for Member {
    type V = MemberView;

    open spec fn view(&self) -> MemberView {
        match *self {
            Member::Absent => MemberView::Absent,
            Member::Null => MemberView::Null,
            Member::Flag(flag) => MemberView::Flag(flag),
            Member::Number => MemberView::Number,
            Member::Text(text) => MemberView::Text(text@),
            Member::Array => MemberView::Array,
            Member::Object => MemberView::Object,
        }
    }
}

/// The members of a parsed document, by name, as `serde_json::Value::get`
/// finds them: each name of an object with the kind of its value, and the
/// value itself where it is a string or a boolean. A document that is no
/// object has none.
pub uninterp spec fn document_members(document: serde_json::Value) -> Map<Seq<char>, MemberView>;

/// The members of the document that `serde_json::from_slice` reads from
/// `bytes`, by name, or nothing where it takes `bytes` for no JSON text. A
/// name that the bytes give twice has the value that comes last.
pub uninterp spec fn json_members(bytes: Seq<u8>) -> Option<Map<Seq<char>, MemberView>>;

/// What `members` hold under `name`.
pub open spec fn member_at(members: Map<Seq<char>, MemberView>, name: Seq<char>) -> MemberView {
    if members.contains_key(name) {
        members[name]
    } else {
        MemberView::Absent
    }
}

/// Parses `bytes` with `serde_json::from_slice`. Whether they parse, and to
/// which members, depends on the bytes alone; no more is claimed.
#[verifier::external_body]
fn parse_document(bytes: &[u8]) -> (r: Result<serde_json::Value, serde_json::Error>)
    ensures
        (match r {
            Ok(document) => json_members(bytes@) == Some(document_members(document)),
            Err(_) => json_members(bytes@) is None,
        }),
{
    serde_json::from_slice(bytes)
}

/// Looks `name` up with `serde_json::Value::get` and tells the variants of
/// what it finds apart: the answer is the member that the document holds
/// under `name`, or `Absent` where it holds none.
#[verifier::external_body]
fn lookup(document: &serde_json::Value, name: &str) -> (r: Member)
    ensures
        r@ == member_at(document_members(*document), name@),
{
    match document.get(name) {
        None => Member::Absent,
        Some(serde_json::Value::Null) => Member::Null,
        Some(serde_json::Value::Bool(flag)) => Member::Flag(*flag),
        Some(serde_json::Value::Number(_)) => Member::Number,
        Some(serde_json::Value::String(text)) => Member::Text(text.clone()),
        Some(serde_json::Value::Array(_)) => Member::Array,
        Some(serde_json::Value::Object(_)) => Member::Object,
    }
}

/// What a document holds under each of the names of a record's wire form.
#[derive(Debug)]
pub struct RecordMembers {
    pub id: Member,
    pub key: Member,
    pub hash: Member,
    pub host: Member,
    pub tag: Member,
    pub layer: Member,
    pub kind: Member,
    pub signature: Member,
    pub is_satisfied: Member,
    pub timestamp: Member,
}

/// [`RecordMembers`] with their strings as sequences of characters.
pub struct RecordMembersView {
    pub id: MemberView,
    pub key: MemberView,
    pub hash: MemberView,
    pub host: MemberView,
    pub tag: MemberView,
    pub layer: MemberView,
    pub kind: MemberView,
    pub signature: MemberView,
    pub is_satisfied: MemberView,
    pub timestamp: MemberView,
}

impl View for RecordMembers {
    type V = RecordMembersView;

    open spec fn view(&self) -> RecordMembersView {
        RecordMembersView {
            id: self.id@,
            key: self.key@,
            hash: self.hash@,
            host: self.host@,
            tag: self.tag@,
            layer: self.layer@,
            kind: self.kind@,
            signature: self.signature@,
            is_satisfied: self.is_satisfied@,
            timestamp: self.timestamp@,
        }
    }
}

/// Why bytes could not be read as a record.
#[derive(Debug)]
pub enum DecodeError {
    /// The bytes are no JSON text; the parser's error is attached.
    Malformed(serde_json::Error),
    /// A member without a default is missing; its wire name is attached.
    Missing(String),
    /// A member holds a value of the wrong type; its wire name is attached.
    Mistyped(String),
}

/// A [`DecodeError`] with its strings as sequences of characters, and
/// without the parser's error.
pub enum DecodeErrorView {
    Malformed,
    Missing(Seq<char>),
    Mistyped(Seq<char>),
}

impl View for DecodeError {
    type V = DecodeErrorView;

    open spec fn view(&self) -> DecodeErrorView {
        match *self {
            DecodeError::Malformed(_) => DecodeErrorView::Malformed,
            DecodeError::Missing(name) => DecodeErrorView::Missing(name@),
            DecodeError::Mistyped(name) => DecodeErrorView::Mistyped(name@),
        }
    }
}

/// The text of a member that every record has.
pub open spec fn required_text(member: MemberView, name: Seq<char>) -> Result<
    Seq<char>,
    DecodeErrorView,
> {
    match member {
        MemberView::Text(text) => Ok(text),
        MemberView::Absent => Err(DecodeErrorView::Missing(name)),
        _ => Err(DecodeErrorView::Mistyped(name)),
    }
}

/// The boolean of a member that every record has.
pub open spec fn required_flag(member: MemberView, name: Seq<char>) -> Result<
    bool,
    DecodeErrorView,
> {
    match member {
        MemberView::Flag(flag) => Ok(flag),
        MemberView::Absent => Err(DecodeErrorView::Missing(name)),
        _ => Err(DecodeErrorView::Mistyped(name)),
    }
}

/// The tag of a record: empty where the member is missing or null.
pub open spec fn tag_text(member: MemberView) -> Result<Seq<char>, DecodeErrorView> {
    match member {
        MemberView::Text(text) => Ok(text),
        MemberView::Absent | MemberView::Null => Ok(Seq::empty()),
        _ => Err(DecodeErrorView::Mistyped("tag"@)),
    }
}

/// The layer of a record: the host where the member is missing.
pub open spec fn layer_text(member: MemberView) -> Result<Seq<char>, DecodeErrorView> {
    match member {
        MemberView::Text(text) => Ok(text),
        MemberView::Absent => Ok("host"@),
        _ => Err(DecodeErrorView::Mistyped("layer"@)),
    }
}

/// What reading made of bytes, with strings as sequences of characters.
pub open spec fn reading(r: Result<Annotation, DecodeError>) -> Result<
    AnnotationView,
    DecodeErrorView,
> {
    match r {
        Ok(record) => Ok(record@),
        Err(cause) => Err(cause@),
    }
}

fn take_text(member: Member, name: &str) -> (r: Result<String, DecodeError>)
    ensures
        (match r {
            Ok(text) => required_text(member@, name@) == Ok::<Seq<char>, DecodeErrorView>(text@),
            Err(cause) => required_text(member@, name@) == Err::<Seq<char>, DecodeErrorView>(
                cause@,
            ),
        }),
{
    match member {
        Member::Text(text) => Ok(text),
        Member::Absent => Err(DecodeError::Missing(name.to_owned())),
        _ => Err(DecodeError::Mistyped(name.to_owned())),
    }
}

fn take_flag(member: Member, name: &str) -> (r: Result<bool, DecodeError>)
    ensures
        (match r {
            Ok(flag) => required_flag(member@, name@) == Ok::<bool, DecodeErrorView>(flag),
            Err(cause) => required_flag(member@, name@) == Err::<bool, DecodeErrorView>(cause@),
        }),
{
    match member {
        Member::Flag(flag) => Ok(flag),
        Member::Absent => Err(DecodeError::Missing(name.to_owned())),
        _ => Err(DecodeError::Mistyped(name.to_owned())),
    }
}

impl Annotation {
    /// The members that the wire form of `record` names, each with the value
    /// that it is written with.
    pub open spec fn wire_members(record: AnnotationView) -> RecordMembersView {
        RecordMembersView {
            id: MemberView::Text(record.id),
            key: MemberView::Text(record.key),
            hash: MemberView::Text(record.hash),
            host: MemberView::Text(record.host),
            tag: MemberView::Text(record.tag),
            layer: MemberView::Text(record.layer),
            kind: MemberView::Text(record.kind),
            signature: MemberView::Text(record.signature),
            is_satisfied: MemberView::Flag(record.is_satisfied),
            timestamp: MemberView::Text(record.timestamp),
        }
    }

    /// The members of a record's wire form as a document holds them.
    pub open spec fn named_members(members: Map<Seq<char>, MemberView>) -> RecordMembersView {
        RecordMembersView {
            id: member_at(members, "id"@),
            key: member_at(members, "key"@),
            hash: member_at(members, "hash"@),
            host: member_at(members, "host"@),
            tag: member_at(members, "tag"@),
            layer: member_at(members, "layer"@),
            kind: member_at(members, "kind"@),
            signature: member_at(members, "signature"@),
            is_satisfied: member_at(members, "isSatisfied"@),
            timestamp: member_at(members, "timestamp"@),
        }
    }

    /// The record that `members` stand for. Every member is required but the
    /// tag, which defaults to none, and the layer, which defaults to the
    /// host. The members are taken in the order of the wire form, and the
    /// first that is missing or of the wrong type decides the error. A tag
    /// of any text is taken as it is, known or not.
    pub open spec fn decoded(members: RecordMembersView) -> Result<
        AnnotationView,
        DecodeErrorView,
    > {
        if required_text(members.id, "id"@) is Err {
            Err(required_text(members.id, "id"@)->Err_0)
        } else if required_text(members.key, "key"@) is Err {
            Err(required_text(members.key, "key"@)->Err_0)
        } else if required_text(members.hash, "hash"@) is Err {
            Err(required_text(members.hash, "hash"@)->Err_0)
        } else if required_text(members.host, "host"@) is Err {
            Err(required_text(members.host, "host"@)->Err_0)
        } else if tag_text(members.tag) is Err {
            Err(tag_text(members.tag)->Err_0)
        } else if layer_text(members.layer) is Err {
            Err(layer_text(members.layer)->Err_0)
        } else if required_text(members.kind, "kind"@) is Err {
            Err(required_text(members.kind, "kind"@)->Err_0)
        } else if required_text(members.signature, "signature"@) is Err {
            Err(required_text(members.signature, "signature"@)->Err_0)
        } else if required_flag(members.is_satisfied, "isSatisfied"@) is Err {
            Err(required_flag(members.is_satisfied, "isSatisfied"@)->Err_0)
        } else if required_text(members.timestamp, "timestamp"@) is Err {
            Err(required_text(members.timestamp, "timestamp"@)->Err_0)
        } else {
            Ok(
                AnnotationView {
                    id: required_text(members.id, "id"@)->Ok_0,
                    key: required_text(members.key, "key"@)->Ok_0,
                    hash: required_text(members.hash, "hash"@)->Ok_0,
                    host: required_text(members.host, "host"@)->Ok_0,
                    tag: tag_text(members.tag)->Ok_0,
                    layer: layer_text(members.layer)->Ok_0,
                    kind: required_text(members.kind, "kind"@)->Ok_0,
                    signature: required_text(members.signature, "signature"@)->Ok_0,
                    is_satisfied: required_flag(members.is_satisfied, "isSatisfied"@)->Ok_0,
                    timestamp: required_text(members.timestamp, "timestamp"@)->Ok_0,
                },
            )
        }
    }

    /// What reading makes of bytes that spell `document`, or that spell none.
    pub open spec fn read(document: Option<Map<Seq<char>, MemberView>>) -> Result<
        AnnotationView,
        DecodeErrorView,
    > {
        match document {
            Some(members) => Self::decoded(Self::named_members(members)),
            None => Err(DecodeErrorView::Malformed),
        }
    }

    /// Makes the record that `members` stand for.
    pub fn from_members(members: RecordMembers) -> (r: Result<Self, DecodeError>)
        ensures
            reading(r) == Self::decoded(members@),
    {
        let id = take_text(members.id, "id")?;
        let key = take_text(members.key, "key")?;
        let hash = take_text(members.hash, "hash")?;
        let host = take_text(members.host, "host")?;
        let tag = match members.tag {
            Member::Text(text) => text,
            Member::Absent | Member::Null => String::new(),
            _ => {
                return Err(DecodeError::Mistyped("tag".to_owned()));
            },
        };
        let layer = match members.layer {
            Member::Text(text) => LayerType(text),
            Member::Absent => default_host(),
            _ => {
                return Err(DecodeError::Mistyped("layer".to_owned()));
            },
        };
        let kind = take_text(members.kind, "kind")?;
        let signature = take_text(members.signature, "signature")?;
        let is_satisfied = take_flag(members.is_satisfied, "isSatisfied")?;
        let timestamp = take_text(members.timestamp, "timestamp")?;
        Ok(
            Annotation {
                id,
                key,
                hash: HashType(hash),
                host,
                tag,
                layer,
                kind: AnnotationType(kind),
                signature,
                is_satisfied,
                timestamp,
            },
        )
    }

    /// Reads a record from its wire form. Members that the wire form does
    /// not name are passed over, and the members may come in any order. Of
    /// a member that the bytes name twice, the last value counts. Bytes that
    /// spell a JSON value other than an object, such as an array, are read
    /// as a document without members, so the `id` is reported missing.
    pub fn from_wire(bytes: &[u8]) -> (r: Result<Self, DecodeError>)
        ensures
            reading(r) == Self::read(json_members(bytes@)),
    {
        let document = match parse_document(bytes) {
            Ok(document) => document,
            Err(cause) => {
                return Err(DecodeError::Malformed(cause));
            },
        };
        let members = RecordMembers {
            id: lookup(&document, "id"),
            key: lookup(&document, "key"),
            hash: lookup(&document, "hash"),
            host: lookup(&document, "host"),
            tag: lookup(&document, "tag"),
            layer: lookup(&document, "layer"),
            kind: lookup(&document, "kind"),
            signature: lookup(&document, "signature"),
            is_satisfied: lookup(&document, "isSatisfied"),
            timestamp: lookup(&document, "timestamp"),
        };
        Self::from_members(members)
    }
}

/// The members that a record's wire form names, read back, give the record:
/// every field as it was, `is_satisfied` from under `isSatisfied` too.
pub proof fn reading_recovers_record(record: AnnotationView)
    ensures
        Annotation::decoded(Annotation::wire_members(record)) == Ok::<
            AnnotationView,
            DecodeErrorView,
        >(record),
{
}

} // verus!
