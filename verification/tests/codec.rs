use activitystreams::codec::{
    decode_property, encode_property, CodecError, PropValue, PropertyDescriptor, Value,
    ValueKind, WireShape,
};
use activitystreams::json::{JsonNum, JsonValue};

fn single(name: &str, k: ValueKind, functional: bool, required: bool) -> PropertyDescriptor {
    PropertyDescriptor::new(String::from(name), vec![k], functional, required).unwrap()
}

#[test]
fn empty_collection_encodes_as_absence() {
    // An optional non-functional property: field absence and the empty
    // collection are the same state, in both directions.
    let d = single("tag", ValueKind::Text, false, false);
    assert!(encode_property(&d, PropValue::Array(Vec::new())).is_none());
    match decode_property(&d, None).unwrap() {
        PropValue::Array(vs) => assert!(vs.is_empty()),
        _ => panic!("absence must decode to the empty collection"),
    }
}

#[test]
fn scalar_decodes_as_term_and_singleton_as_array() {
    let d = single("summary", ValueKind::Text, false, false);
    let term = decode_property(&d, Some(JsonValue::Str(String::from("hi")))).unwrap();
    match &term {
        PropValue::Term(Value::Text(s)) => assert_eq!(s.as_str(), "hi"),
        _ => panic!("a bare scalar must decode as Term"),
    }
    let arr = decode_property(
        &d,
        Some(JsonValue::Arr(vec![JsonValue::Str(String::from("hi"))])),
    )
    .unwrap();
    match &arr {
        PropValue::Array(vs) => assert_eq!(vs.len(), 1),
        _ => panic!("a one-element array must decode as Array"),
    }
}

#[test]
fn one_element_array_encodes_as_array() {
    let d = single("summary", ValueKind::Text, false, false);
    let one = PropValue::Array(vec![Value::text_from("hi")]);
    match encode_property(&d, one).unwrap() {
        JsonValue::Arr(items) => assert_eq!(items.len(), 1),
        _ => panic!("a one-element collection must stay an array on the wire"),
    }
}

#[test]
fn union_commits_to_first_declared_kind() {
    // Both kinds accept a bare string; declaration order decides.
    let d1 = PropertyDescriptor::new_with_overlap(
        String::from("name"),
        vec![ValueKind::Text, ValueKind::AnyUri],
        false,
        false,
    )
    .unwrap();
    match decode_property(&d1, Some(JsonValue::Str(String::from("x")))).unwrap() {
        PropValue::Term(Value::Text(_)) => {},
        _ => panic!("first declared kind must win"),
    }
    let d2 = PropertyDescriptor::new_with_overlap(
        String::from("name"),
        vec![ValueKind::AnyUri, ValueKind::Text],
        false,
        false,
    )
    .unwrap();
    match decode_property(&d2, Some(JsonValue::Str(String::from("x")))).unwrap() {
        PropValue::Term(Value::AnyUri(_)) => {},
        _ => panic!("first declared kind must win"),
    }
}

#[test]
fn overlapping_kinds_need_acknowledgement() {
    assert!(PropertyDescriptor::new(
        String::from("name"),
        vec![ValueKind::Text, ValueKind::AnyUri],
        false,
        false,
    )
    .is_none());
    assert!(PropertyDescriptor::new(
        String::from("name"),
        vec![ValueKind::Text, ValueKind::LangString],
        false,
        false,
    )
    .is_some());
    assert!(PropertyDescriptor::new(String::from("name"), vec![], false, false).is_none());
}

#[test]
fn missing_required_property_is_reported() {
    let d = single("inbox", ValueKind::AnyUri, true, true);
    match decode_property(&d, None) {
        Err(CodecError::MissingRequiredProperty { name }) => assert_eq!(name, "inbox"),
        _ => panic!("a missing required property must be reported by name"),
    }
}

#[test]
fn array_for_functional_property_is_shape_mismatch() {
    let d = single("end_time", ValueKind::DateTime, true, false);
    match decode_property(&d, Some(JsonValue::Arr(Vec::new()))) {
        Err(CodecError::ShapeMismatch { name, expected, found }) => {
            assert_eq!(name, "end_time");
            assert_eq!(expected, WireShape::Text);
            assert_eq!(found, WireShape::Array);
        },
        _ => panic!("an array for a functional property must be a shape mismatch"),
    }
}

#[test]
fn wrong_scalar_for_single_kind_is_shape_mismatch() {
    let d = single("media_type", ValueKind::Text, true, false);
    match decode_property(&d, Some(JsonValue::Num(JsonNum::Uint(3)))) {
        Err(CodecError::ShapeMismatch { expected, found, .. }) => {
            assert_eq!(expected, WireShape::Text);
            assert_eq!(found, WireShape::Number);
        },
        _ => panic!("a wrong shape for a single kind must be a shape mismatch"),
    }
}

#[test]
fn no_union_kind_matching_is_reported_with_candidates() {
    let d = PropertyDescriptor::new(
        String::from("content"),
        vec![ValueKind::Text, ValueKind::LangString],
        false,
        false,
    )
    .unwrap();
    match decode_property(&d, Some(JsonValue::Bool(true))) {
        Err(CodecError::NoMatchingKind { name, candidates }) => {
            assert_eq!(name, "content");
            assert_eq!(candidates, vec![ValueKind::Text, ValueKind::LangString]);
        },
        _ => panic!("a union with no matching kind must list its candidates"),
    }
}

#[test]
fn lang_string_round_trips() {
    let d = PropertyDescriptor::new(
        String::from("content"),
        vec![ValueKind::Text, ValueKind::LangString],
        false,
        false,
    )
    .unwrap();
    let wire = JsonValue::Obj(vec![
        (String::from("@value"), JsonValue::Str(String::from("hello"))),
        (String::from("@language"), JsonValue::Str(String::from("en"))),
    ]);
    let got = decode_property(&d, Some(wire)).unwrap();
    match &got {
        PropValue::Term(Value::LangString(l)) => {
            assert_eq!(l.value.as_str(), "hello");
            assert_eq!(l.language.as_str(), "en");
        },
        _ => panic!("a tagged object must decode as a language-tagged string"),
    }
    match encode_property(&d, got).unwrap() {
        JsonValue::Obj(fields) => {
            assert_eq!(fields.len(), 2);
            assert_eq!(fields[0].0, "@value");
            assert_eq!(fields[1].0, "@language");
        },
        _ => panic!("a language-tagged string must encode as an object"),
    }
}

#[test]
fn duration_value_decodes_to_seconds() {
    let d = single("duration", ValueKind::Duration, true, false);
    match decode_property(&d, Some(JsonValue::Str(String::from("PT4M20S")))).unwrap() {
        PropValue::Term(Value::Duration(dur)) => assert_eq!(dur.seconds, 260),
        _ => panic!("duration text must decode through the duration codec"),
    }
}

#[test]
fn float_numbers_round_trip_bit_for_bit() {
    let d = single("radius", ValueKind::Float, true, false);
    let bits = (15.25f64).to_bits();
    let got = decode_property(&d, Some(JsonValue::Num(JsonNum::Bits(bits)))).unwrap();
    match encode_property(&d, got).unwrap() {
        JsonValue::Num(JsonNum::Bits(b)) => assert_eq!(f64::from_bits(b), 15.25),
        _ => panic!("a float must re-encode as the same number"),
    }
}

#[test]
fn non_negative_integer_rejects_negative() {
    let d = single("total_items", ValueKind::NonNegativeInteger, true, false);
    assert!(decode_property(&d, Some(JsonValue::Num(JsonNum::Int(-3)))).is_err());
    match decode_property(&d, Some(JsonValue::Num(JsonNum::Uint(7)))).unwrap() {
        PropValue::Term(Value::NonNegativeInteger(n)) => assert_eq!(n.into_inner(), 7),
        _ => panic!("a non-negative integer must decode"),
    }
}

#[test]
fn boxed_document_keeps_raw_json() {
    let d = PropertyDescriptor::new(
        String::from("object"),
        vec![ValueKind::AnyUri, ValueKind::Document],
        false,
        false,
    )
    .unwrap();
    let wire = JsonValue::Obj(vec![(
        String::from("type"),
        JsonValue::Str(String::from("Note")),
    )]);
    let got = decode_property(&d, Some(wire)).unwrap();
    match encode_property(&d, got).unwrap() {
        JsonValue::Obj(fields) => {
            assert_eq!(fields.len(), 1);
            assert_eq!(fields[0].0, "type");
        },
        _ => panic!("a boxed document must re-encode unchanged"),
    }
}

#[test]
fn malformed_duration_conversion_names_the_text() {
    match Value::duration_from_text("4 days") {
        Err(CodecError::MalformedDuration { text }) => assert_eq!(text, "4 days"),
        _ => panic!("bad duration text must be reported"),
    }
}

#[test]
fn malformed_timestamp_conversion_names_the_text() {
    match Value::datetime_from_text("tomorrow") {
        Err(CodecError::MalformedTimestamp { text }) => assert_eq!(text, "tomorrow"),
        _ => panic!("bad timestamp text must be reported"),
    }
}

#[test]
fn union_picks_the_kind_whose_shape_matches() {
    let d = PropertyDescriptor::new(
        String::from("object"),
        vec![ValueKind::AnyUri, ValueKind::Document],
        false,
        false,
    )
    .unwrap();
    match decode_property(&d, Some(JsonValue::Str(String::from("https://a")))).unwrap() {
        PropValue::Term(Value::AnyUri(_)) => {},
        _ => panic!("a string decodes as the reference kind"),
    }
    let obj = JsonValue::Obj(vec![(
        String::from("type"),
        JsonValue::Str(String::from("Note")),
    )]);
    match decode_property(&d, Some(obj)).unwrap() {
        PropValue::Term(Value::Document(_)) => {},
        _ => panic!("an object decodes as the boxed document kind"),
    }
}
