use activitystreams::codec::{
    CodecError, PropValue, PropertyDescriptor, Value, ValueKind,
};
use activitystreams::json::JsonValue;
use activitystreams::properties::PropertySet;

fn single(name: &str, k: ValueKind, functional: bool, required: bool) -> PropertyDescriptor {
    PropertyDescriptor::new(String::from(name), vec![k], functional, required).unwrap()
}

#[test]
fn duration_document_round_trips_exactly() {
    // A single-kind, functional, optional duration property: the wire
    // text decodes to 260 seconds and re-encodes to the same spelling.
    let table = vec![single("duration", ValueKind::Duration, true, false)];
    let wire = vec![(
        String::from("duration"),
        JsonValue::Str(String::from("PT4M20S")),
    )];
    let ps = PropertySet::decode_object(table, wire).unwrap();
    match ps.get("duration", ValueKind::Duration) {
        Some(Value::Duration(d)) => assert_eq!(d.seconds, 260),
        _ => panic!("the duration must be readable as a single value"),
    }
    let out = ps.encode_object();
    assert_eq!(out.len(), 1);
    assert_eq!(out[0].0, "duration");
    match &out[0].1 {
        JsonValue::Str(s) => assert_eq!(s, "PT4M20S"),
        _ => panic!("the duration must encode as its text"),
    }
}

#[test]
fn missing_required_key_fails_the_document() {
    let table = vec![
        single("id", ValueKind::AnyUri, true, false),
        single("inbox", ValueKind::AnyUri, true, true),
    ];
    let wire = vec![(
        String::from("id"),
        JsonValue::Str(String::from("https://example.com/a")),
    )];
    match PropertySet::decode_object(table, wire) {
        Err(CodecError::MissingRequiredProperty { name }) => assert_eq!(name, "inbox"),
        _ => panic!("a document without a required key must fail, naming it"),
    }
}

#[test]
fn absent_optional_fields_stay_absent_on_encode() {
    let table = vec![
        single("summary", ValueKind::Text, false, false),
        single("duration", ValueKind::Duration, true, false),
    ];
    let ps = PropertySet::decode_object(table, Vec::new()).unwrap();
    let out = ps.encode_object();
    assert!(out.is_empty(), "nothing was present, nothing may be emitted");
}

#[test]
fn alias_is_accepted_on_decode() {
    let table = vec![
        single("id", ValueKind::AnyUri, true, false).with_alias(String::from("@id")),
    ];
    let wire = vec![(
        String::from("@id"),
        JsonValue::Str(String::from("https://example.com/a")),
    )];
    let ps = PropertySet::decode_object(table, wire).unwrap();
    match ps.get("id", ValueKind::AnyUri) {
        Some(Value::AnyUri(u)) => assert_eq!(u.as_str(), "https://example.com/a"),
        _ => panic!("the alias must feed the canonical property"),
    }
    // Encoding always uses the canonical key.
    let out = ps.encode_object();
    assert_eq!(out[0].0, "id");
}

#[test]
fn canonical_key_wins_over_alias() {
    let table = vec![
        single("id", ValueKind::AnyUri, true, false).with_alias(String::from("@id")),
    ];
    let wire = vec![
        (String::from("@id"), JsonValue::Str(String::from("https://alias"))),
        (String::from("id"), JsonValue::Str(String::from("https://canonical"))),
    ];
    let ps = PropertySet::decode_object(table, wire).unwrap();
    match ps.get("id", ValueKind::AnyUri) {
        Some(Value::AnyUri(u)) => assert_eq!(u.as_str(), "https://canonical"),
        _ => panic!("the canonical key must win over any alias"),
    }
}

#[test]
fn rename_replaces_the_wire_key() {
    let table = vec![
        single("context", ValueKind::AnyUri, true, false)
            .with_rename(String::from("@context")),
    ];
    let wire = vec![(
        String::from("@context"),
        JsonValue::Str(String::from("https://www.w3.org/ns/activitystreams")),
    )];
    let ps = PropertySet::decode_object(table, wire).unwrap();
    assert!(ps.get("context", ValueKind::AnyUri).is_some());
    let out = ps.encode_object();
    assert_eq!(out[0].0, "@context");
}

#[test]
fn snake_case_names_take_camel_case_keys() {
    let table = vec![single("attributed_to", ValueKind::AnyUri, false, false)];
    let wire = vec![(
        String::from("attributedTo"),
        JsonValue::Str(String::from("https://example.com/actor")),
    )];
    let ps = PropertySet::decode_object(table, wire).unwrap();
    match ps.get("attributed_to", ValueKind::AnyUri) {
        Some(Value::AnyUri(_)) => {},
        _ => panic!("the camel-case key must reach the snake-case property"),
    }
    let out = ps.encode_object();
    assert_eq!(out[0].0, "attributedTo");
}

#[test]
fn unknown_fields_are_ignored() {
    let table = vec![single("summary", ValueKind::Text, false, false)];
    let wire = vec![
        (String::from("whatever"), JsonValue::Bool(true)),
        (String::from("summary"), JsonValue::Str(String::from("s"))),
    ];
    let ps = PropertySet::decode_object(table, wire).unwrap();
    assert!(ps.get("summary", ValueKind::Text).is_some());
}

#[test]
fn required_empty_collection_encodes_as_empty_array() {
    let table = vec![single("items", ValueKind::Text, false, true)];
    let ps = PropertySet::new(table).unwrap();
    let out = ps.encode_object();
    assert_eq!(out.len(), 1);
    assert_eq!(out[0].0, "items");
    match &out[0].1 {
        JsonValue::Arr(items) => assert!(items.is_empty()),
        _ => panic!("a required empty collection is emitted as an empty array"),
    }
}

#[test]
fn term_and_array_survive_a_document_round_trip() {
    let table = vec![
        single("to", ValueKind::AnyUri, false, false),
        single("cc", ValueKind::AnyUri, false, false),
    ];
    let wire = vec![
        (String::from("to"), JsonValue::Str(String::from("https://a"))),
        (
            String::from("cc"),
            JsonValue::Arr(vec![JsonValue::Str(String::from("https://b"))]),
        ),
    ];
    let ps = PropertySet::decode_object(table, wire).unwrap();
    match &ps.values[0] {
        PropValue::Term(_) => {},
        _ => panic!("a bare scalar stays a Term"),
    }
    match &ps.values[1] {
        PropValue::Array(vs) => assert_eq!(vs.len(), 1),
        _ => panic!("an array stays an Array"),
    }
    let out = ps.encode_object();
    match &out[0].1 {
        JsonValue::Str(_) => {},
        _ => panic!("a Term encodes bare"),
    }
    match &out[1].1 {
        JsonValue::Arr(items) => assert_eq!(items.len(), 1),
        _ => panic!("a one-element Array stays an array"),
    }
}
