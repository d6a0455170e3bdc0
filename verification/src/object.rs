//! The base object vocabulary: the marker trait for object types and the
//! table of properties every object carries.

use vstd::prelude::*;

use crate::codec::{PropertyDescriptor, ValueKind};
use crate::properties::{desc_default, pair_kind, single_kind, PropertySet};
use crate::Base;

verus! {

/// The marker of object types.
pub trait Object: Base {

}

/// The properties of the base object type: a reference or nested
/// document where the vocabulary says `Object | Link`, plain or
/// language-tagged text where it says `xsd:string | rdf:langString`,
/// and the timestamp and duration leaves. All are optional.
#[verifier::rlimit(100)]
pub fn object_descriptors() -> (r: Vec<PropertyDescriptor>)
    ensures
        forall|i: int| 0 <= i < r@.len()
            ==> (#[trigger] r@[i])@.wf() && desc_default(r@[i]@) is Some,
        r@.len() == 27,
        r@[0]@.name == "id"@ && r@[0]@.functional && r@[0]@.kinds == seq![ValueKind::AnyUri]
            && r@[0]@.aliases == seq!["@id"@],
        r@[1]@.name == "attachment"@ && r@[2]@.name == "attributed_to"@
            && r@[3]@.name == "audience"@,
        r@[4]@.name == "content"@ && !r@[4]@.functional && r@[4]@.kinds == seq![
            ValueKind::Text,
            ValueKind::LangString,
        ],
        r@[5]@.name == "context"@,
        r@[6]@.name == "name"@ && !r@[6]@.functional && r@[6]@.kinds == seq![
            ValueKind::Text,
            ValueKind::LangString,
        ] && r@[6]@.aliases == seq!["displayName"@],
        r@[7]@.name == "end_time"@ && r@[7]@.functional && r@[7]@.kinds == seq![
            ValueKind::DateTime,
        ],
        r@[8]@.name == "generator"@ && r@[9]@.name == "icon"@ && r@[10]@.name == "image"@
            && r@[11]@.name == "in_reply_to"@ && r@[12]@.name == "location"@
            && r@[13]@.name == "preview"@,
        r@[14]@.name == "published"@ && r@[14]@.functional && r@[14]@.kinds == seq![
            ValueKind::DateTime,
        ],
        r@[15]@.name == "replies"@,
        r@[16]@.name == "start_time"@ && r@[16]@.functional && r@[16]@.kinds == seq![
            ValueKind::DateTime,
        ],
        r@[17]@.name == "summary"@ && !r@[17]@.functional && r@[17]@.kinds == seq![
            ValueKind::Text,
            ValueKind::LangString,
        ],
        r@[18]@.name == "tag"@,
        r@[19]@.name == "updated"@ && r@[19]@.functional && r@[19]@.kinds == seq![
            ValueKind::DateTime,
        ],
        r@[20]@.name == "url"@ && r@[21]@.name == "to"@ && r@[22]@.name == "bto"@
            && r@[23]@.name == "cc"@ && r@[24]@.name == "bcc"@,
        r@[25]@.name == "media_type"@ && r@[25]@.functional && r@[25]@.kinds == seq![
            ValueKind::Text,
        ],
        r@[26]@.name == "duration"@ && r@[26]@.functional && r@[26]@.kinds == seq![
            ValueKind::Duration,
        ],
        forall|i: int| 0 <= i < r@.len() ==> !(#[trigger] r@[i])@.required,
{
    let mut t: Vec<PropertyDescriptor> = Vec::new();
    t.push(single_kind("id", ValueKind::AnyUri, true, false).with_alias(
        String::from_str("@id"),
    ));
    t.push(pair_kind("attachment", ValueKind::AnyUri, ValueKind::Document, false, false));
    t.push(pair_kind("attributed_to", ValueKind::AnyUri, ValueKind::Document, false, false));
    t.push(pair_kind("audience", ValueKind::AnyUri, ValueKind::Document, false, false));
    t.push(pair_kind("content", ValueKind::Text, ValueKind::LangString, false, false));
    t.push(pair_kind("context", ValueKind::AnyUri, ValueKind::Document, false, false));
    t.push(pair_kind("name", ValueKind::Text, ValueKind::LangString, false, false).with_alias(
        String::from_str("displayName"),
    ));
    t.push(single_kind("end_time", ValueKind::DateTime, true, false));
    t.push(pair_kind("generator", ValueKind::AnyUri, ValueKind::Document, false, false));
    t.push(pair_kind("icon", ValueKind::AnyUri, ValueKind::Document, false, false));
    t.push(pair_kind("image", ValueKind::AnyUri, ValueKind::Document, false, false));
    t.push(pair_kind("in_reply_to", ValueKind::AnyUri, ValueKind::Document, false, false));
    t.push(pair_kind("location", ValueKind::AnyUri, ValueKind::Document, false, false));
    t.push(pair_kind("preview", ValueKind::AnyUri, ValueKind::Document, false, false));
    t.push(single_kind("published", ValueKind::DateTime, true, false));
    t.push(pair_kind("replies", ValueKind::AnyUri, ValueKind::Document, false, false));
    t.push(single_kind("start_time", ValueKind::DateTime, true, false));
    t.push(pair_kind("summary", ValueKind::Text, ValueKind::LangString, false, false));
    t.push(pair_kind("tag", ValueKind::AnyUri, ValueKind::Document, false, false));
    t.push(single_kind("updated", ValueKind::DateTime, true, false));
    t.push(pair_kind("url", ValueKind::AnyUri, ValueKind::Document, false, false));
    t.push(pair_kind("to", ValueKind::AnyUri, ValueKind::Document, false, false));
    t.push(pair_kind("bto", ValueKind::AnyUri, ValueKind::Document, false, false));
    t.push(pair_kind("cc", ValueKind::AnyUri, ValueKind::Document, false, false));
    t.push(pair_kind("bcc", ValueKind::AnyUri, ValueKind::Document, false, false));
    t.push(single_kind("media_type", ValueKind::Text, true, false));
    t.push(single_kind("duration", ValueKind::Duration, true, false));
    t
}

/// A fresh property set over the base object table.
pub fn object_properties() -> (r: PropertySet)
    ensures
        r.wf(),
{
    PropertySet::fresh(object_descriptors())
}

} // verus!
