use activitystreams::activity::{Follow, Question, ViewActivity};
use activitystreams::actor::Person;
use activitystreams::codec::{Value, ValueKind};
use activitystreams::collection::{
    Collection, CollectionBox, CollectionPage, CollectionPageBox, OrderedCollection,
    OrderedCollectionPage, UnorderedCollection, UnorderedCollectionPage,
};
use activitystreams::json::JsonValue;
use activitystreams::properties::PropertySet;
use activitystreams::object::object_descriptors;
use activitystreams::text::{camel_key, camelize, snakize};
use activitystreams::{context, public, security};

#[test]
fn well_known_uris() {
    assert_eq!(context().as_str(), "https://www.w3.org/ns/activitystreams");
    assert_eq!(security().as_str(), "https://w3id.org/security/v1");
    assert_eq!(public().as_str(), "https://www.w3.org/ns/activitystreams#Public");
}

#[test]
fn kind_names() {
    assert_eq!(Person::new().kind(), "Person");
    assert_eq!(Follow::new().kind(), "Follow");
    assert_eq!(Question::new().kind(), "Question");
    assert_eq!(ViewActivity::new().kind(), "View");
    assert_eq!(UnorderedCollection::new().kind(), "Collection");
    assert_eq!(OrderedCollection::new().kind(), "OrderedCollection");
}

#[test]
fn casing_helpers() {
    assert_eq!(camelize("object_props"), "ObjectProps");
    assert_eq!(camelize("xsd_any_uri"), "XsdAnyUri");
    assert_eq!(camel_key("attributed_to"), "attributedTo");
    assert_eq!(camel_key("id"), "id");
    assert_eq!(snakize("XsdString"), "xsd_string");
    assert_eq!(snakize("ObjectBox"), "object_box");
}

#[test]
fn object_table_decodes_a_video_like_document() {
    let wire = vec![
        (
            String::from("id"),
            JsonValue::Str(String::from("https://example.com/@example/lions")),
        ),
        (
            String::from("name"),
            JsonValue::Str(String::from("My Cool Video")),
        ),
        (
            String::from("duration"),
            JsonValue::Str(String::from("PT4M20S")),
        ),
    ];
    let ps = PropertySet::decode_object(object_descriptors(), wire).unwrap();
    match ps.get("id", ValueKind::AnyUri) {
        Some(Value::AnyUri(u)) => assert_eq!(u.as_str(), "https://example.com/@example/lions"),
        _ => panic!("the id must be readable"),
    }
    match ps.get("name", ValueKind::Text) {
        Some(Value::Text(s)) => assert_eq!(s.as_str(), "My Cool Video"),
        _ => panic!("the name must be readable"),
    }
    match ps.get("duration", ValueKind::Duration) {
        Some(Value::Duration(d)) => assert_eq!(d.seconds, 260),
        _ => panic!("the duration must be readable"),
    }
    let out = ps.encode_object();
    assert_eq!(out.len(), 3);
}

#[test]
fn person_document_sets_and_reads() {
    let mut p = Person::new();
    p.object_props
        .set("id", ValueKind::AnyUri, Value::uri_from("https://example.com/me"))
        .unwrap();
    p.object_props
        .set("summary", ValueKind::Text, Value::text_from("hey"))
        .unwrap();
    assert!(p.object_props.get("summary", ValueKind::Text).is_some());
}

#[test]
fn collection_box_downcasts() {
    let b: CollectionBox = UnorderedCollection::new().into_box();
    assert!(b.is::<UnorderedCollection>());
    assert!(!b.is::<OrderedCollection>());
    assert!(!b.is::<UnorderedCollectionPage>());
    assert!(b.downcast_ref::<UnorderedCollection>().is_some());
    assert!(b.downcast_ref::<OrderedCollection>().is_none());
}

#[test]
fn collection_page_box_downcasts() {
    let b: CollectionPageBox = OrderedCollectionPage::new().into_page_box();
    assert!(b.is::<OrderedCollectionPage>());
    assert!(!b.is::<UnorderedCollectionPage>());
    assert!(b.downcast_ref::<OrderedCollectionPage>().is_some());
}

#[test]
fn collection_box_downcast_mut_writes_through() {
    let mut b: CollectionBox = UnorderedCollection::new().into_box();
    {
        let inner: &mut UnorderedCollection = b.downcast_mut().unwrap();
        inner
            .collection_props
            .set("total_items", ValueKind::NonNegativeInteger, Value::integer_from(9))
            .unwrap();
    }
    let inner = b.downcast_ref::<UnorderedCollection>().unwrap();
    match inner.collection_props.get("total_items", ValueKind::NonNegativeInteger) {
        Some(Value::NonNegativeInteger(n)) => assert_eq!(n.into_inner(), 9),
        _ => panic!("the write through the box must be visible"),
    }
    assert!(b.downcast_mut::<OrderedCollection>().is_none());
}
