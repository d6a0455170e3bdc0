//! The actor vocabulary: the five concrete actor types, each carrying
//! the base object properties, and the actor-specific property table.

use vstd::prelude::*;

use crate::codec::{PropertyDescriptor, ValueKind};
use crate::object::{object_descriptors, object_properties, Object};
use crate::properties::{desc_default, pair_kind, single_kind, PropertySet};
use crate::Base;

verus! {

/// The marker of actor types.
pub trait Actor: Object {

}

/// The actor-specific properties: the actor's collections and
/// endpoints. The inbox and outbox are required.
pub fn ap_actor_descriptors() -> (r: Vec<PropertyDescriptor>)
    ensures
        forall|i: int| 0 <= i < r@.len()
            ==> (#[trigger] r@[i])@.wf() && desc_default(r@[i]@) is Some,
        r@.len() == 8,
        r@[0]@.name == "inbox"@ && r@[0]@.functional && r@[0]@.required
            && r@[0]@.kinds == seq![ValueKind::AnyUri],
        r@[1]@.name == "outbox"@ && r@[1]@.functional && r@[1]@.required
            && r@[1]@.kinds == seq![ValueKind::AnyUri],
        r@[2]@.name == "following"@ && r@[2]@.functional && !r@[2]@.required,
        r@[3]@.name == "followers"@ && r@[3]@.functional && !r@[3]@.required,
        r@[4]@.name == "liked"@ && r@[4]@.functional && !r@[4]@.required,
        r@[5]@.name == "streams"@ && !r@[5]@.functional && !r@[5]@.required,
        r@[6]@.name == "preferred_username"@ && r@[6]@.functional && !r@[6]@.required,
        r@[7]@.name == "endpoints"@ && r@[7]@.functional && !r@[7]@.required
            && r@[7]@.kinds == seq![ValueKind::AnyUri, ValueKind::Document],
{
    let mut t: Vec<PropertyDescriptor> = Vec::new();
    t.push(single_kind("inbox", ValueKind::AnyUri, true, true));
    t.push(single_kind("outbox", ValueKind::AnyUri, true, true));
    t.push(single_kind("following", ValueKind::AnyUri, true, false));
    t.push(single_kind("followers", ValueKind::AnyUri, true, false));
    t.push(single_kind("liked", ValueKind::AnyUri, true, false));
    t.push(single_kind("streams", ValueKind::AnyUri, false, false));
    t.push(single_kind("preferred_username", ValueKind::AnyUri, true, false));
    t.push(pair_kind("endpoints", ValueKind::AnyUri, ValueKind::Document, true, false));
    t
}

/// Describes a software application.
pub struct Application {
    /// The base object properties.
    pub object_props: PropertySet,
}

/// Represents a formal or informal collective of actors.
pub struct Group {
    /// The base object properties.
    pub object_props: PropertySet,
}

/// Represents an organization.
pub struct Organization {
    /// The base object properties.
    pub object_props: PropertySet,
}

/// Represents an individual person.
pub struct Person {
    /// The base object properties.
    pub object_props: PropertySet,
}

/// Represents a service of any kind.
pub struct Service {
    /// The base object properties.
    pub object_props: PropertySet,
}

impl Application {
    /// A fresh value with every property in its initial state.
    pub fn new() -> (r: Application)
        ensures
            r.object_props.wf(),
    {
        Application { object_props: object_properties() }
    }

    /// The value of this type's `type` field on the wire.
    pub fn kind(&self) -> (r: &'static str)
        ensures
            r@ == "Application"@,
    {
        "Application"
    }
}

impl Group {
    /// A fresh value with every property in its initial state.
    pub fn new() -> (r: Group)
        ensures
            r.object_props.wf(),
    {
        Group { object_props: object_properties() }
    }

    /// The value of this type's `type` field on the wire.
    pub fn kind(&self) -> (r: &'static str)
        ensures
            r@ == "Group"@,
    {
        "Group"
    }
}

impl Organization {
    /// A fresh value with every property in its initial state.
    pub fn new() -> (r: Organization)
        ensures
            r.object_props.wf(),
    {
        Organization { object_props: object_properties() }
    }

    /// The value of this type's `type` field on the wire.
    pub fn kind(&self) -> (r: &'static str)
        ensures
            r@ == "Organization"@,
    {
        "Organization"
    }
}

impl Person {
    /// A fresh value with every property in its initial state.
    pub fn new() -> (r: Person)
        ensures
            r.object_props.wf(),
    {
        Person { object_props: object_properties() }
    }

    /// The value of this type's `type` field on the wire.
    pub fn kind(&self) -> (r: &'static str)
        ensures
            r@ == "Person"@,
    {
        "Person"
    }
}

impl Service {
    /// A fresh value with every property in its initial state.
    pub fn new() -> (r: Service)
        ensures
            r.object_props.wf(),
    {
        Service { object_props: object_properties() }
    }

    /// The value of this type's `type` field on the wire.
    pub fn kind(&self) -> (r: &'static str)
        ensures
            r@ == "Service"@,
    {
        "Service"
    }
}

impl Base for Application {

}

impl Object for Application {

}

impl Actor for Application {

}

impl Base for Group {

}

impl Object for Group {

}

impl Actor for Group {

}

impl Base for Organization {

}

impl Object for Organization {

}

impl Actor for Organization {

}

impl Base for Person {

}

impl Object for Person {

}

impl Actor for Person {

}

impl Base for Service {

}

impl Object for Service {

}

impl Actor for Service {

}

} // verus!
