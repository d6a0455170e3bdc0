use activitystreams::codec::{CodecError, PropertyDescriptor, Value, ValueKind};
use activitystreams::properties::PropertySet;

fn single(name: &str, k: ValueKind, functional: bool, required: bool) -> PropertyDescriptor {
    PropertyDescriptor::new(String::from(name), vec![k], functional, required).unwrap()
}

fn fresh() -> PropertySet {
    PropertySet::new(vec![
        single("summary", ValueKind::Text, false, false),
        single("media_type", ValueKind::Text, true, false),
        single("inbox", ValueKind::AnyUri, true, true),
    ])
    .unwrap()
}

#[test]
fn get_sees_term_only() {
    let mut ps = fresh();
    // Fresh non-functional property: empty collection, so no single value
    // and no collection surprise either.
    assert!(ps.get("summary", ValueKind::Text).is_none());
    assert_eq!(ps.get_many("summary").map(|v| v.len()), Some(0));

    ps.set("summary", ValueKind::Text, Value::text_from("hi")).unwrap();
    match ps.get("summary", ValueKind::Text) {
        Some(Value::Text(s)) => assert_eq!(s.as_str(), "hi"),
        _ => panic!("a single write must be readable as a single value"),
    }
    // A Term is not a collection.
    assert!(ps.get_many("summary").is_none());
}

#[test]
fn get_many_sees_array_only() {
    let mut ps = fresh();
    ps.set_many(
        "summary",
        ValueKind::Text,
        vec![Value::text_from("a"), Value::text_from("b")],
    )
    .unwrap();
    assert_eq!(ps.get_many("summary").map(|v| v.len()), Some(2));
    // An Array — even a one-element one — yields no single value.
    ps.set_many("summary", ValueKind::Text, vec![Value::text_from("a")]).unwrap();
    assert!(ps.get("summary", ValueKind::Text).is_none());
    assert_eq!(ps.get_many("summary").map(|v| v.len()), Some(1));
}

#[test]
fn get_requires_the_stored_kind() {
    let mut ps = fresh();
    ps.set("summary", ValueKind::Text, Value::text_from("hi")).unwrap();
    assert!(ps.get("summary", ValueKind::LangString).is_none());
}

#[test]
fn set_of_wrong_kind_is_conversion_failure_and_keeps_state() {
    let mut ps = fresh();
    ps.set("summary", ValueKind::Text, Value::text_from("before")).unwrap();
    match ps.set("summary", ValueKind::Text, Value::integer_from(3)) {
        Err(CodecError::ConversionFailed { source, target }) => {
            assert_eq!(source, ValueKind::NonNegativeInteger);
            assert_eq!(target, ValueKind::Text);
        },
        _ => panic!("a value of the wrong kind must fail conversion"),
    }
    match ps.get("summary", ValueKind::Text) {
        Some(Value::Text(s)) => assert_eq!(s.as_str(), "before"),
        _ => panic!("a failed write must leave the prior state"),
    }
}

#[test]
fn set_of_undeclared_kind_is_rejected() {
    let mut ps = fresh();
    match ps.set("summary", ValueKind::NonNegativeInteger, Value::integer_from(3)) {
        Err(CodecError::NoMatchingKind { name, candidates }) => {
            assert_eq!(name, "summary");
            assert_eq!(candidates, vec![ValueKind::Text]);
        },
        _ => panic!("an undeclared kind must be rejected"),
    }
}

#[test]
fn set_unknown_property_is_rejected() {
    let mut ps = fresh();
    assert!(ps.set("nothing", ValueKind::Text, Value::text_from("x")).is_err());
}

#[test]
fn set_many_is_all_or_nothing() {
    let mut ps = fresh();
    ps.set_many("summary", ValueKind::Text, vec![Value::text_from("keep")]).unwrap();
    let bad = vec![Value::text_from("a"), Value::integer_from(1)];
    match ps.set_many("summary", ValueKind::Text, bad) {
        Err(CodecError::ConversionFailed { target, .. }) => {
            assert_eq!(target, ValueKind::Text);
        },
        _ => panic!("one bad element must fail the whole write"),
    }
    let vs = ps.get_many("summary").unwrap();
    assert_eq!(vs.len(), 1);
    match &vs[0] {
        Value::Text(s) => assert_eq!(s.as_str(), "keep"),
        _ => panic!("a failed collection write must leave the prior state"),
    }
}

#[test]
fn set_many_on_functional_property_is_shape_mismatch() {
    let mut ps = fresh();
    match ps.set_many("media_type", ValueKind::Text, vec![Value::text_from("a")]) {
        Err(CodecError::ShapeMismatch { .. }) => {},
        _ => panic!("a functional property holds no collection"),
    }
}

#[test]
fn delete_resets_optional_properties_only() {
    let mut ps = fresh();
    ps.set("summary", ValueKind::Text, Value::text_from("hi")).unwrap();
    assert!(ps.delete("summary"));
    assert!(ps.get("summary", ValueKind::Text).is_none());
    assert_eq!(ps.get_many("summary").map(|v| v.len()), Some(0));
    // Deleting again is a harmless no-op.
    assert!(ps.delete("summary"));
    // A required property cannot be deleted; an unknown one does nothing.
    assert!(!ps.delete("inbox"));
    assert!(!ps.delete("nothing"));
}

#[test]
fn functional_delete_leaves_absence() {
    let mut ps = fresh();
    ps.set("media_type", ValueKind::Text, Value::text_from("text/html")).unwrap();
    assert!(ps.delete("media_type"));
    assert!(ps.get("media_type", ValueKind::Text).is_none());
    assert!(ps.get_many("media_type").is_none());
}
