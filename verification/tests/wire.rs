use annotator::constants::{
    action_create, annotation_source, layer_app, layer_host, sha256_hash, AnnotationType,
    HashType, LayerType,
};
use annotator::wire::{
    flag, frame_array, frame_object, member, DecodeError, Member, RecordMembers,
};
use annotator::{Annotation, AnnotationList, MessageWrapper};

fn fixed() -> Annotation {
    Annotation::assemble(
        String::from("01D39ZY06FGSCTVN4T2V9PKHFZ"),
        String::from("1996-12-19T16:39:57-08:00"),
        "The hash of the contents",
        sha256_hash(),
        "Host Device",
        layer_host(),
        annotation_source(),
        true,
        None,
    )
}

const FIXED_WIRE: &str = "{\"id\":\"01D39ZY06FGSCTVN4T2V9PKHFZ\",\"key\":\"The hash of the contents\",\"hash\":\"sha256\",\"host\":\"Host Device\",\"tag\":\"\",\"layer\":\"host\",\"kind\":\"src\",\"signature\":\"\",\"isSatisfied\":true,\"timestamp\":\"1996-12-19T16:39:57-08:00\"}";

fn text(value: &str) -> Member {
    Member::Text(String::from(value))
}

fn full_members() -> RecordMembers {
    RecordMembers {
        id: text("01D39ZY06FGSCTVN4T2V9PKHFZ"),
        key: text("The hash of the contents"),
        hash: text("sha256"),
        host: text("Host Device"),
        tag: text(""),
        layer: text("host"),
        kind: text("src"),
        signature: text(""),
        is_satisfied: Member::Flag(true),
        timestamp: text("1996-12-19T16:39:57-08:00"),
    }
}

#[test]
fn a_flag_is_written_as_true_or_false() {
    assert_eq!(flag(true), b"true".to_vec());
    assert_eq!(flag(false), b"false".to_vec());
}

#[test]
fn a_member_is_name_colon_value() {
    assert_eq!(member(&b"\"a\"".to_vec(), &b"true".to_vec()), b"\"a\":true".to_vec());
    assert_eq!(member(&Vec::new(), &Vec::new()), b":".to_vec());
}

#[test]
fn an_object_is_framed_by_braces_and_split_by_commas() {
    assert_eq!(frame_object(&Vec::new()), b"{}".to_vec());
    assert_eq!(frame_object(&vec![b"\"a\":1".to_vec()]), b"{\"a\":1}".to_vec());
    assert_eq!(
        frame_object(&vec![b"\"a\":1".to_vec(), b"\"b\":2".to_vec(), b"\"c\":3".to_vec()]),
        b"{\"a\":1,\"b\":2,\"c\":3}".to_vec()
    );
}

#[test]
fn an_array_is_framed_by_brackets_and_split_by_commas() {
    assert_eq!(frame_array(&Vec::new()), b"[]".to_vec());
    assert_eq!(frame_array(&vec![b"1".to_vec()]), b"[1]".to_vec());
    assert_eq!(frame_array(&vec![b"1".to_vec(), b"{}".to_vec()]), b"[1,{}]".to_vec());
}

#[test]
fn the_wire_form_names_every_field_in_order() {
    let bytes = fixed().to_wire().unwrap();
    assert_eq!(String::from_utf8(bytes).unwrap(), FIXED_WIRE);
}

#[test]
fn the_wire_form_writes_is_satisfied_as_a_boolean_under_its_wire_name() {
    let mut record = fixed();
    record.is_satisfied = false;
    let wire = String::from_utf8(record.to_wire().unwrap()).unwrap();
    assert!(wire.contains("\"isSatisfied\":false"));
    assert!(!wire.contains("is_satisfied"));
}

#[test]
fn the_wire_form_escapes_what_json_must_escape() {
    let mut record = fixed();
    record.key = String::from("say \"hi\"\\\n\tto\u{1}\u{7f}/ caf\u{e9} \u{1F600}");
    record.signature = String::from("\u{8}\u{c}\r");
    let wire = String::from_utf8(record.to_wire().unwrap()).unwrap();
    assert!(wire.contains(
        "\"key\":\"say \\\"hi\\\"\\\\\\n\\tto\\u0001\u{7f}/ caf\u{e9} \u{1F600}\","
    ));
    assert!(wire.contains("\"signature\":\"\\b\\f\\r\","));
}

#[test]
fn the_wire_form_is_what_serde_json_reads_back() {
    let mut record = fixed();
    record.tag = String::from("abc123");
    record.layer = layer_app();
    record.signature = String::from("c2lnbmVk");
    let parsed: serde_json::Value = serde_json::from_slice(&record.to_wire().unwrap()).unwrap();
    let object = parsed.as_object().unwrap();
    assert_eq!(object.len(), 10);
    assert_eq!(object["id"].as_str(), Some("01D39ZY06FGSCTVN4T2V9PKHFZ"));
    assert_eq!(object["key"].as_str(), Some("The hash of the contents"));
    assert_eq!(object["hash"].as_str(), Some("sha256"));
    assert_eq!(object["host"].as_str(), Some("Host Device"));
    assert_eq!(object["tag"].as_str(), Some("abc123"));
    assert_eq!(object["layer"].as_str(), Some("app"));
    assert_eq!(object["kind"].as_str(), Some("src"));
    assert_eq!(object["signature"].as_str(), Some("c2lnbmVk"));
    assert_eq!(object["isSatisfied"].as_bool(), Some(true));
    assert_eq!(object["timestamp"].as_str(), Some("1996-12-19T16:39:57-08:00"));
}

#[test]
fn the_wire_form_and_back_gives_the_same_record() {
    let record = fixed();
    assert!(Annotation::from_wire(&record.to_wire().unwrap()).unwrap() == record);

    let mut record = fixed();
    record.tag = String::from("abc123");
    record.layer = layer_app();
    record.signature = String::from("c2lnbmVk");
    record.is_satisfied = false;
    assert!(Annotation::from_wire(&record.to_wire().unwrap()).unwrap() == record);

    let mut record = fixed();
    record.key = String::from("say \"hi\"\\\n\tto\u{1}\u{7f}/ caf\u{e9} \u{1F600}");
    record.host = String::new();
    record.hash = HashType(String::from("sha512"));
    record.kind = AnnotationType(String::from("home grown"));
    record.layer = LayerType(String::from("firmware"));
    assert!(Annotation::from_wire(&record.to_wire().unwrap()).unwrap() == record);
}

#[test]
fn a_new_record_survives_the_wire() {
    let record = annotator::mock_annotation();
    let back = Annotation::from_wire(&record.to_wire().unwrap()).unwrap();
    assert!(back == record);
    assert_eq!(back.id, record.id);
    assert_eq!(back.timestamp, record.timestamp);
}

#[test]
fn reading_the_fixed_wire_form_gives_the_fixed_record() {
    assert!(Annotation::from_wire(FIXED_WIRE.as_bytes()).unwrap() == fixed());
}

#[test]
fn a_missing_tag_reads_as_no_tag() {
    let wire = "{\"id\":\"i\",\"key\":\"k\",\"hash\":\"md5\",\"host\":\"h\",\"layer\":\"os\",\"kind\":\"tpm\",\"signature\":\"s\",\"isSatisfied\":false,\"timestamp\":\"t\"}";
    let record = Annotation::from_wire(wire.as_bytes()).unwrap();
    assert_eq!(record.tag, "");
    assert_eq!(record.layer.kind(), "os");
    assert_eq!(record.id, "i");
    assert_eq!(record.signature, "s");
    assert!(!record.is_satisfied);
}

#[test]
fn a_null_tag_reads_as_no_tag() {
    let wire = "{\"id\":\"i\",\"key\":\"k\",\"hash\":\"md5\",\"host\":\"h\",\"tag\":null,\"layer\":\"os\",\"kind\":\"tpm\",\"signature\":\"s\",\"isSatisfied\":false,\"timestamp\":\"t\"}";
    assert_eq!(Annotation::from_wire(wire.as_bytes()).unwrap().tag, "");
}

#[test]
fn a_missing_layer_reads_as_the_host() {
    let wire = "{\"id\":\"i\",\"key\":\"k\",\"hash\":\"md5\",\"host\":\"h\",\"tag\":\"x\",\"kind\":\"tpm\",\"signature\":\"s\",\"isSatisfied\":true,\"timestamp\":\"t\"}";
    let record = Annotation::from_wire(wire.as_bytes()).unwrap();
    assert!(record.layer == layer_host());
    assert_eq!(record.tag, "x");
}

#[test]
fn members_may_come_in_any_order_and_with_strangers_and_space() {
    let wire = " { \"timestamp\" : \"t\", \"extra\": [1, 2, {\"id\": \"no\"}], \"isSatisfied\": true,\n \"signature\": \"\", \"kind\": \"tpm\", \"host\": \"h\", \"hash\": \"md5\", \"key\": \"k\\u0041\", \"id\": \"i\" } ";
    let record = Annotation::from_wire(wire.as_bytes()).unwrap();
    assert_eq!(record.id, "i");
    assert_eq!(record.key, "kA");
    assert_eq!(record.timestamp, "t");
    assert_eq!(record.tag, "");
    assert!(record.layer == layer_host());
}

#[test]
fn of_a_member_named_twice_the_last_value_counts() {
    let wire = "{\"id\":\"first\",\"key\":\"k\",\"hash\":\"md5\",\"host\":\"h\",\"kind\":\"tpm\",\"signature\":\"s\",\"isSatisfied\":false,\"timestamp\":\"t\",\"id\":\"last\",\"isSatisfied\":true}";
    let record = Annotation::from_wire(wire.as_bytes()).unwrap();
    assert_eq!(record.id, "last");
    assert!(record.is_satisfied);
    let wire = "{\"id\":\"first\",\"key\":\"k\",\"hash\":\"md5\",\"host\":\"h\",\"kind\":\"tpm\",\"signature\":\"s\",\"isSatisfied\":false,\"timestamp\":\"t\",\"id\":7}";
    match Annotation::from_wire(wire.as_bytes()) {
        Err(DecodeError::Mistyped(name)) => assert_eq!(name, "id"),
        other => panic!("read as {:?}", other),
    }
}

#[test]
fn an_array_of_the_fields_is_read_as_a_document_without_members() {
    let wire = "[\"i\",\"k\",\"md5\",\"h\",\"\",\"host\",\"tpm\",\"s\",true,\"t\"]";
    match Annotation::from_wire(wire.as_bytes()) {
        Err(DecodeError::Missing(name)) => assert_eq!(name, "id"),
        other => panic!("read as {:?}", other),
    }
}

#[test]
fn every_record_has_a_wire_form() {
    let mut record = fixed();
    record.id = String::new();
    record.key = String::from("\u{0}\u{1f}\"\\\u{7f}\u{80}\u{ffff}\u{10ffff}");
    record.host = "x".repeat(10_000);
    record.hash = HashType(String::from("\n"));
    assert!(record.to_wire().is_ok());
    let mut chain = AnnotationList::default();
    chain.items.push(record.clone());
    chain.items.push(record);
    assert!(chain.to_wire().is_ok());
    let message = MessageWrapper { action: action_create(), message_type: "\u{0}", content: "\"" };
    assert!(message.to_wire().is_ok());
}

#[test]
fn bytes_that_are_no_json_are_malformed() {
    for wire in ["", "{", "{\"id\":\"i\"", "nonsense", "{\"id\":\"i\",}", "{} {}"] {
        assert!(matches!(
            Annotation::from_wire(wire.as_bytes()),
            Err(DecodeError::Malformed(_))
        ));
    }
    assert!(matches!(Annotation::from_wire(&[0xff, 0xfe]), Err(DecodeError::Malformed(_))));
}

#[test]
fn a_document_that_is_no_object_misses_the_id() {
    for wire in ["[]", "null", "true", "12", "\"id\"", "{}"] {
        match Annotation::from_wire(wire.as_bytes()) {
            Err(DecodeError::Missing(name)) => assert_eq!(name, "id"),
            other => panic!("{:?} was read as {:?}", wire, other),
        }
    }
}

fn missing_name(members: RecordMembers) -> String {
    match Annotation::from_members(members) {
        Err(DecodeError::Missing(name)) => name,
        other => panic!("read as {:?}", other),
    }
}

fn mistyped_name(members: RecordMembers) -> String {
    match Annotation::from_members(members) {
        Err(DecodeError::Mistyped(name)) => name,
        other => panic!("read as {:?}", other),
    }
}

#[test]
fn full_members_give_the_fixed_record() {
    assert!(Annotation::from_members(full_members()).unwrap() == fixed());
}

#[test]
fn each_required_member_is_missed_under_its_wire_name() {
    let mut members = full_members();
    members.id = Member::Absent;
    assert_eq!(missing_name(members), "id");
    let mut members = full_members();
    members.key = Member::Absent;
    assert_eq!(missing_name(members), "key");
    let mut members = full_members();
    members.hash = Member::Absent;
    assert_eq!(missing_name(members), "hash");
    let mut members = full_members();
    members.host = Member::Absent;
    assert_eq!(missing_name(members), "host");
    let mut members = full_members();
    members.kind = Member::Absent;
    assert_eq!(missing_name(members), "kind");
    let mut members = full_members();
    members.signature = Member::Absent;
    assert_eq!(missing_name(members), "signature");
    let mut members = full_members();
    members.is_satisfied = Member::Absent;
    assert_eq!(missing_name(members), "isSatisfied");
    let mut members = full_members();
    members.timestamp = Member::Absent;
    assert_eq!(missing_name(members), "timestamp");
}

#[test]
fn a_member_of_the_wrong_type_is_refused_under_its_wire_name() {
    let mut members = full_members();
    members.id = Member::Number;
    assert_eq!(mistyped_name(members), "id");
    let mut members = full_members();
    members.key = Member::Null;
    assert_eq!(mistyped_name(members), "key");
    let mut members = full_members();
    members.hash = Member::Flag(true);
    assert_eq!(mistyped_name(members), "hash");
    let mut members = full_members();
    members.host = Member::Array;
    assert_eq!(mistyped_name(members), "host");
    let mut members = full_members();
    members.tag = Member::Number;
    assert_eq!(mistyped_name(members), "tag");
    let mut members = full_members();
    members.layer = Member::Null;
    assert_eq!(mistyped_name(members), "layer");
    let mut members = full_members();
    members.kind = Member::Object;
    assert_eq!(mistyped_name(members), "kind");
    let mut members = full_members();
    members.signature = Member::Flag(false);
    assert_eq!(mistyped_name(members), "signature");
    let mut members = full_members();
    members.is_satisfied = text("true");
    assert_eq!(mistyped_name(members), "isSatisfied");
    let mut members = full_members();
    members.timestamp = Member::Number;
    assert_eq!(mistyped_name(members), "timestamp");
}

#[test]
fn the_first_bad_member_in_wire_order_decides() {
    let mut members = full_members();
    members.timestamp = Member::Absent;
    members.kind = Member::Number;
    members.host = Member::Absent;
    assert_eq!(missing_name(members), "host");
    let mut members = full_members();
    members.is_satisfied = Member::Absent;
    members.layer = Member::Flag(true);
    assert_eq!(mistyped_name(members), "layer");
}

#[test]
fn wrong_types_on_the_wire_are_refused() {
    let wire = "{\"id\":7,\"key\":\"k\",\"hash\":\"md5\",\"host\":\"h\",\"kind\":\"tpm\",\"signature\":\"s\",\"isSatisfied\":false,\"timestamp\":\"t\"}";
    match Annotation::from_wire(wire.as_bytes()) {
        Err(DecodeError::Mistyped(name)) => assert_eq!(name, "id"),
        other => panic!("read as {:?}", other),
    }
    let wire = "{\"id\":\"i\",\"key\":\"k\",\"hash\":\"md5\",\"host\":\"h\",\"kind\":\"tpm\",\"signature\":\"s\",\"isSatisfied\":\"yes\",\"timestamp\":\"t\"}";
    match Annotation::from_wire(wire.as_bytes()) {
        Err(DecodeError::Mistyped(name)) => assert_eq!(name, "isSatisfied"),
        other => panic!("read as {:?}", other),
    }
    let wire = "{\"id\":\"i\",\"key\":\"k\",\"hash\":\"md5\",\"host\":\"h\",\"kind\":\"tpm\",\"signature\":\"s\",\"is_satisfied\":true,\"timestamp\":\"t\"}";
    match Annotation::from_wire(wire.as_bytes()) {
        Err(DecodeError::Missing(name)) => assert_eq!(name, "isSatisfied"),
        other => panic!("read as {:?}", other),
    }
}

#[test]
fn a_chain_is_written_as_its_items() {
    let empty = AnnotationList::default();
    assert_eq!(String::from_utf8(empty.to_wire().unwrap()).unwrap(), "{\"items\":[]}");
    let mut chain = AnnotationList::default();
    chain.items.push(fixed());
    assert_eq!(
        String::from_utf8(chain.to_wire().unwrap()).unwrap(),
        format!("{{\"items\":[{}]}}", FIXED_WIRE)
    );
    let mut second = fixed();
    second.with_signature("c2lnbmVk");
    chain.items.push(second.clone());
    let wire = String::from_utf8(chain.to_wire().unwrap()).unwrap();
    assert_eq!(
        wire,
        format!(
            "{{\"items\":[{},{}]}}",
            FIXED_WIRE,
            String::from_utf8(second.to_wire().unwrap()).unwrap()
        )
    );
    let parsed: serde_json::Value = serde_json::from_str(&wire).unwrap();
    assert_eq!(parsed["items"].as_array().unwrap().len(), 2);
    assert_eq!(parsed["items"][1]["signature"].as_str(), Some("c2lnbmVk"));
}

#[test]
fn a_message_is_written_with_its_wire_names() {
    let content = String::from_utf8(fixed().to_wire().unwrap()).unwrap();
    let message = MessageWrapper {
        action: action_create(),
        message_type: "annotation \"v1\"",
        content: &content,
    };
    let wire = String::from_utf8(message.to_wire().unwrap()).unwrap();
    assert!(wire.starts_with(
        "{\"action\":\"create\",\"messageType\":\"annotation \\\"v1\\\"\",\"content\":\"{\\\"id\\\":"
    ));
    assert!(!wire.contains("message_type"));
    let parsed: serde_json::Value = serde_json::from_str(&wire).unwrap();
    assert_eq!(parsed.as_object().unwrap().len(), 3);
    assert_eq!(parsed["action"].as_str(), Some("create"));
    assert_eq!(parsed["messageType"].as_str(), Some("annotation \"v1\""));
    assert_eq!(parsed["content"].as_str(), Some(content.as_str()));
    assert!(Annotation::from_wire(parsed["content"].as_str().unwrap().as_bytes()).unwrap()
        == fixed());
}

#[test]
fn a_small_message_is_written_exactly() {
    let message = MessageWrapper { action: action_create(), message_type: "t", content: "" };
    assert_eq!(
        String::from_utf8(message.to_wire().unwrap()).unwrap(),
        "{\"action\":\"create\",\"messageType\":\"t\",\"content\":\"\"}"
    );
}

#[test]
fn messages_compare_field_by_field() {
    let message = MessageWrapper { action: action_create(), message_type: "t", content: "c" };
    assert!(message == message.clone());
    assert!(message != MessageWrapper { action: action_create(), message_type: "t", content: "d" });
    assert!(message != MessageWrapper { action: action_create(), message_type: "u", content: "c" });
}
