use annotator::constants::{
    annotation_source, annotation_tpm, layer_app, layer_cicd, layer_host, layer_os, md5_hash,
    sha256_hash, AnnotationType, HashType, LayerType,
};
use annotator::{default_host, mock_annotation, Annotation, AnnotationList};

const CROCKFORD: &str = "0123456789ABCDEFGHJKMNPQRSTVWXYZ";

fn fixed(layer: LayerType, tag_source: Option<&str>) -> Annotation {
    Annotation::assemble(
        String::from("01D39ZY06FGSCTVN4T2V9PKHFZ"),
        String::from("1996-12-19T16:39:57-08:00"),
        "The hash of the contents",
        sha256_hash(),
        "Host Device",
        layer,
        annotation_source(),
        true,
        tag_source,
    )
}

#[test]
fn a_new_record_keeps_what_it_was_given() {
    let record = Annotation::new(
        "a key",
        md5_hash(),
        "a host",
        layer_os(),
        annotation_tpm(),
        false,
        None,
    );
    assert_eq!(record.key, "a key");
    assert!(record.hash == md5_hash());
    assert_eq!(record.host, "a host");
    assert!(record.layer == layer_os());
    assert!(record.kind == annotation_tpm());
    assert!(!record.is_satisfied);
    assert_eq!(record.signature, "");
    assert_eq!(record.tag, "");
}

#[test]
fn a_new_record_has_a_ulid_for_its_id() {
    let record = mock_annotation();
    assert_eq!(record.id.chars().count(), 26);
    assert!(record.id.chars().all(|c| CROCKFORD.contains(c)));
    assert!(ulid::Ulid::from_string(&record.id).is_ok());
}

#[test]
fn two_new_records_differ_in_their_ids() {
    let first = mock_annotation();
    let second = mock_annotation();
    assert_ne!(first.id, second.id);
}

#[test]
fn a_new_record_carries_the_time_with_its_offset() {
    let before = chrono::Local::now();
    let record = mock_annotation();
    let after = chrono::Local::now();
    assert!(record.timestamp.chars().count() >= 25);
    let stamped = chrono::DateTime::parse_from_rfc3339(&record.timestamp).unwrap();
    assert!(before <= stamped && stamped <= after);
}

#[test]
fn a_new_record_ends_its_timestamp_in_the_offset() {
    let record = mock_annotation();
    let text: Vec<char> = record.timestamp.chars().collect();
    let offset = &text[text.len() - 6..];
    assert!(offset[0] == '+' || offset[0] == '-');
    assert!(offset[1].is_ascii_digit());
    assert!(offset[2].is_ascii_digit());
    assert_eq!(offset[3], ':');
    assert!(offset[4].is_ascii_digit());
    assert!(offset[5].is_ascii_digit());
}

#[test]
fn the_app_layer_takes_the_supplied_tag() {
    let record = Annotation::new(
        "k",
        sha256_hash(),
        "h",
        layer_app(),
        annotation_source(),
        true,
        Some("abc123"),
    );
    assert_eq!(record.tag, "abc123");
}

#[test]
fn the_host_layer_has_no_tag_whatever_is_supplied() {
    let record = Annotation::new(
        "k",
        sha256_hash(),
        "h",
        layer_host(),
        annotation_source(),
        true,
        Some("abc123"),
    );
    assert_eq!(record.tag, "");
}

#[test]
fn only_the_app_layer_is_tagged() {
    assert_eq!(fixed(layer_app(), Some("abc123")).tag, "abc123");
    assert_eq!(fixed(layer_app(), Some("")).tag, "");
    assert_eq!(fixed(layer_app(), None).tag, "");
    assert_eq!(fixed(layer_cicd(), Some("abc123")).tag, "");
    assert_eq!(fixed(layer_os(), Some("abc123")).tag, "");
    assert_eq!(fixed(layer_host(), Some("abc123")).tag, "");
    assert_eq!(fixed(LayerType(String::from("App")), Some("abc123")).tag, "");
    assert_eq!(fixed(LayerType(String::from("apps")), Some("abc123")).tag, "");
}

#[test]
fn assembling_keeps_the_id_and_the_timestamp() {
    let record = fixed(layer_host(), None);
    assert_eq!(record.id, "01D39ZY06FGSCTVN4T2V9PKHFZ");
    assert_eq!(record.timestamp, "1996-12-19T16:39:57-08:00");
    assert_eq!(record.key, "The hash of the contents");
    assert_eq!(record.host, "Host Device");
    assert_eq!(record.signature, "");
    assert!(record.is_satisfied);
}

#[test]
fn the_mock_record_is_a_satisfied_source_check_at_the_host() {
    let record = mock_annotation();
    assert_eq!(record.key, "The hash of the contents");
    assert!(record.hash == sha256_hash());
    assert_eq!(record.host, "Host Device");
    assert!(record.layer == layer_host());
    assert!(record.kind == annotation_source());
    assert_eq!(record.kind.kind(), "src");
    assert!(record.is_satisfied);
    assert_eq!(record.tag, "");
    assert_eq!(record.signature, "");
    assert!(record.validate_base());
}

#[test]
fn setting_the_tag_changes_the_tag_alone() {
    let before = fixed(layer_host(), None);
    let mut record = before.clone();
    record.set_tag(String::from("commit-4f2a"));
    assert_eq!(record.tag, "commit-4f2a");
    record.tag = before.tag.clone();
    assert!(record == before);
}

#[test]
fn signing_changes_the_signature_alone_and_overwrites() {
    let before = fixed(layer_host(), None);
    let mut record = before.clone();
    record.with_signature("first");
    assert_eq!(record.signature, "first");
    record.with_signature("second");
    assert_eq!(record.signature, "second");
    record.signature = String::new();
    assert!(record == before);
}

#[test]
fn a_record_is_valid_when_hash_and_kind_are_both_known() {
    let mut record = fixed(layer_host(), None);
    assert!(record.validate_base());
    record.hash = HashType(String::from("sha512"));
    assert!(!record.validate_base());
    record.kind = AnnotationType(String::from("homegrown"));
    assert!(!record.validate_base());
    record.hash = md5_hash();
    assert!(!record.validate_base());
    record.kind = annotation_tpm();
    assert!(record.validate_base());
}

#[test]
fn an_unknown_layer_does_not_make_a_record_invalid() {
    let record = fixed(LayerType(String::from("firmware")), None);
    assert!(record.validate_base());
}

#[test]
fn the_default_layer_is_the_host() {
    assert!(default_host() == layer_host());
    assert_eq!(default_host().kind(), "host");
}

#[test]
fn records_compare_field_by_field() {
    let record = fixed(layer_host(), None);
    assert!(record == record.clone());
    let mut other = record.clone();
    other.is_satisfied = false;
    assert!(record != other);
    let mut other = record.clone();
    other.id = String::from("01D39ZY06FGSCTVN4T2V9PKHG0");
    assert!(record != other);
    let mut other = record.clone();
    other.layer = layer_app();
    assert!(record != other);
}

#[test]
fn a_chain_keeps_its_order_and_may_repeat_a_record() {
    let mut chain = AnnotationList::default();
    assert!(chain.items.is_empty());
    let first = fixed(layer_host(), None);
    let second = fixed(layer_app(), Some("abc123"));
    chain.items.push(first.clone());
    chain.items.push(second.clone());
    chain.items.push(first.clone());
    assert_eq!(chain.items.len(), 3);
    assert!(chain.items[0] == first);
    assert!(chain.items[1] == second);
    assert!(chain.items[2] == first);
    let copy = chain.clone();
    assert!(copy == chain);
    let mut swapped = AnnotationList::default();
    swapped.items.push(second);
    swapped.items.push(first.clone());
    swapped.items.push(first);
    assert!(swapped != chain);
    let mut shorter = chain.clone();
    shorter.items.pop();
    assert!(shorter != chain);
}
