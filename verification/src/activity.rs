//! The activity vocabulary: the concrete activity types, each carrying
//! the base object properties and the shared activity properties.

use vstd::prelude::*;

use crate::codec::{PropertyDescriptor, ValueKind};
use crate::object::{object_properties, Object};
use crate::properties::{desc_default, pair_kind, PropertySet};
use crate::Base;

verus! {

/// The marker of activity types: actions that may happen, are
/// happening, or have happened.
pub trait Activity: Object {

}

/// The marker of intransitive activities, which carry no object.
pub trait IntransitiveActivity: Activity {

}

/// The properties shared by activities: who acts, on what, towards
/// what, from where, with what outcome and instrument. Each is a
/// reference or a nested document, and none is functional or required.
pub fn activity_descriptors() -> (r: Vec<PropertyDescriptor>)
    ensures
        forall|i: int| 0 <= i < r@.len()
            ==> (#[trigger] r@[i])@.wf() && desc_default(r@[i]@) is Some,
        r@.len() == 6,
        r@[0]@.name == "actor"@ && r@[1]@.name == "object"@ && r@[2]@.name == "target"@
            && r@[3]@.name == "origin"@ && r@[4]@.name == "result"@
            && r@[5]@.name == "instrument"@,
        forall|i: int| 0 <= i < r@.len() ==> (#[trigger] r@[i])@.kinds == seq![
            ValueKind::AnyUri,
            ValueKind::Document,
        ] && !r@[i]@.functional && !r@[i]@.required,
{
    let mut t: Vec<PropertyDescriptor> = Vec::new();
    t.push(pair_kind("actor", ValueKind::AnyUri, ValueKind::Document, false, false));
    t.push(pair_kind("object", ValueKind::AnyUri, ValueKind::Document, false, false));
    t.push(pair_kind("target", ValueKind::AnyUri, ValueKind::Document, false, false));
    t.push(pair_kind("origin", ValueKind::AnyUri, ValueKind::Document, false, false));
    t.push(pair_kind("result", ValueKind::AnyUri, ValueKind::Document, false, false));
    t.push(pair_kind("instrument", ValueKind::AnyUri, ValueKind::Document, false, false));
    t
}

/// A fresh property set over the activity table.
pub fn activity_properties() -> (r: PropertySet)
    ensures
        r.wf(),
{
    PropertySet::fresh(activity_descriptors())
}

} // verus!

verus! {

/// Indicates that the actor accepts the object.
pub struct Accept {
    /// The base object properties.
    pub object_props: PropertySet,
    /// The shared activity properties.
    pub activity_props: PropertySet,
}

impl Accept {
    /// A fresh value with every property in its initial state.
    pub fn new() -> (r: Accept)
        ensures
            r.object_props.wf(),
            r.activity_props.wf(),
    {
        Accept {
            object_props: object_properties(),
            activity_props: activity_properties(),
        }
    }

    /// The value of this type's `type` field on the wire.
    pub fn kind(&self) -> (r: &'static str)
        ensures
            r@ == "Accept"@,
    {
        "Accept"
    }
}

impl Base for Accept {

}

impl Object for Accept {

}

impl Activity for Accept {

}

} // verus!

verus! {

/// Indicates that the actor has added the object to the target.
pub struct Add {
    /// The base object properties.
    pub object_props: PropertySet,
    /// The shared activity properties.
    pub activity_props: PropertySet,
}

impl Add {
    /// A fresh value with every property in its initial state.
    pub fn new() -> (r: Add)
        ensures
            r.object_props.wf(),
            r.activity_props.wf(),
    {
        Add {
            object_props: object_properties(),
            activity_props: activity_properties(),
        }
    }

    /// The value of this type's `type` field on the wire.
    pub fn kind(&self) -> (r: &'static str)
        ensures
            r@ == "Add"@,
    {
        "Add"
    }
}

impl Base for Add {

}

impl Object for Add {

}

impl Activity for Add {

}

} // verus!

verus! {

/// Indicates that the actor has moved the object from origin to target.
pub struct AMove {
    /// The base object properties.
    pub object_props: PropertySet,
    /// The shared activity properties.
    pub activity_props: PropertySet,
}

impl AMove {
    /// A fresh value with every property in its initial state.
    pub fn new() -> (r: AMove)
        ensures
            r.object_props.wf(),
            r.activity_props.wf(),
    {
        AMove {
            object_props: object_properties(),
            activity_props: activity_properties(),
        }
    }

    /// The value of this type's `type` field on the wire.
    pub fn kind(&self) -> (r: &'static str)
        ensures
            r@ == "Move"@,
    {
        "Move"
    }
}

impl Base for AMove {

}

impl Object for AMove {

}

impl Activity for AMove {

}

} // verus!

verus! {

/// Indicates that the actor is calling the target's attention to the object.
pub struct Announce {
    /// The base object properties.
    pub object_props: PropertySet,
    /// The shared activity properties.
    pub activity_props: PropertySet,
}

impl Announce {
    /// A fresh value with every property in its initial state.
    pub fn new() -> (r: Announce)
        ensures
            r.object_props.wf(),
            r.activity_props.wf(),
    {
        Announce {
            object_props: object_properties(),
            activity_props: activity_properties(),
        }
    }

    /// The value of this type's `type` field on the wire.
    pub fn kind(&self) -> (r: &'static str)
        ensures
            r@ == "Announce"@,
    {
        "Announce"
    }
}

impl Base for Announce {

}

impl Object for Announce {

}

impl Activity for Announce {

}

} // verus!

verus! {

/// Indicates that the actor has arrived at the location.
pub struct Arrive {
    /// The base object properties.
    pub object_props: PropertySet,
    /// The shared activity properties.
    pub activity_props: PropertySet,
}

impl Arrive {
    /// A fresh value with every property in its initial state.
    pub fn new() -> (r: Arrive)
        ensures
            r.object_props.wf(),
            r.activity_props.wf(),
    {
        Arrive {
            object_props: object_properties(),
            activity_props: activity_properties(),
        }
    }

    /// The value of this type's `type` field on the wire.
    pub fn kind(&self) -> (r: &'static str)
        ensures
            r@ == "Arrive"@,
    {
        "Arrive"
    }
}

impl Base for Arrive {

}

impl Object for Arrive {

}

impl Activity for Arrive {

}

impl IntransitiveActivity for Arrive {

}

} // verus!

verus! {

/// Indicates that the actor is blocking the object.
pub struct Block {
    /// The base object properties.
    pub object_props: PropertySet,
    /// The shared activity properties.
    pub activity_props: PropertySet,
}

impl Block {
    /// A fresh value with every property in its initial state.
    pub fn new() -> (r: Block)
        ensures
            r.object_props.wf(),
            r.activity_props.wf(),
    {
        Block {
            object_props: object_properties(),
            activity_props: activity_properties(),
        }
    }

    /// The value of this type's `type` field on the wire.
    pub fn kind(&self) -> (r: &'static str)
        ensures
            r@ == "Block"@,
    {
        "Block"
    }
}

impl Base for Block {

}

impl Object for Block {

}

impl Activity for Block {

}

} // verus!

verus! {

/// Indicates that the actor has created the object.
pub struct Create {
    /// The base object properties.
    pub object_props: PropertySet,
    /// The shared activity properties.
    pub activity_props: PropertySet,
}

impl Create {
    /// A fresh value with every property in its initial state.
    pub fn new() -> (r: Create)
        ensures
            r.object_props.wf(),
            r.activity_props.wf(),
    {
        Create {
            object_props: object_properties(),
            activity_props: activity_properties(),
        }
    }

    /// The value of this type's `type` field on the wire.
    pub fn kind(&self) -> (r: &'static str)
        ensures
            r@ == "Create"@,
    {
        "Create"
    }
}

impl Base for Create {

}

impl Object for Create {

}

impl Activity for Create {

}

} // verus!

verus! {

/// Indicates that the actor has deleted the object.
pub struct Delete {
    /// The base object properties.
    pub object_props: PropertySet,
    /// The shared activity properties.
    pub activity_props: PropertySet,
}

impl Delete {
    /// A fresh value with every property in its initial state.
    pub fn new() -> (r: Delete)
        ensures
            r.object_props.wf(),
            r.activity_props.wf(),
    {
        Delete {
            object_props: object_properties(),
            activity_props: activity_properties(),
        }
    }

    /// The value of this type's `type` field on the wire.
    pub fn kind(&self) -> (r: &'static str)
        ensures
            r@ == "Delete"@,
    {
        "Delete"
    }
}

impl Base for Delete {

}

impl Object for Delete {

}

impl Activity for Delete {

}

} // verus!

verus! {

/// Indicates that the actor dislikes the object.
pub struct Dislike {
    /// The base object properties.
    pub object_props: PropertySet,
    /// The shared activity properties.
    pub activity_props: PropertySet,
}

impl Dislike {
    /// A fresh value with every property in its initial state.
    pub fn new() -> (r: Dislike)
        ensures
            r.object_props.wf(),
            r.activity_props.wf(),
    {
        Dislike {
            object_props: object_properties(),
            activity_props: activity_properties(),
        }
    }

    /// The value of this type's `type` field on the wire.
    pub fn kind(&self) -> (r: &'static str)
        ensures
            r@ == "Dislike"@,
    {
        "Dislike"
    }
}

impl Base for Dislike {

}

impl Object for Dislike {

}

impl Activity for Dislike {

}

} // verus!

verus! {

/// Indicates that the actor is flagging the object.
pub struct Flag {
    /// The base object properties.
    pub object_props: PropertySet,
    /// The shared activity properties.
    pub activity_props: PropertySet,
}

impl Flag {
    /// A fresh value with every property in its initial state.
    pub fn new() -> (r: Flag)
        ensures
            r.object_props.wf(),
            r.activity_props.wf(),
    {
        Flag {
            object_props: object_properties(),
            activity_props: activity_properties(),
        }
    }

    /// The value of this type's `type` field on the wire.
    pub fn kind(&self) -> (r: &'static str)
        ensures
            r@ == "Flag"@,
    {
        "Flag"
    }
}

impl Base for Flag {

}

impl Object for Flag {

}

impl Activity for Flag {

}

} // verus!

verus! {

/// Indicates that the actor is following the object.
pub struct Follow {
    /// The base object properties.
    pub object_props: PropertySet,
    /// The shared activity properties.
    pub activity_props: PropertySet,
}

impl Follow {
    /// A fresh value with every property in its initial state.
    pub fn new() -> (r: Follow)
        ensures
            r.object_props.wf(),
            r.activity_props.wf(),
    {
        Follow {
            object_props: object_properties(),
            activity_props: activity_properties(),
        }
    }

    /// The value of this type's `type` field on the wire.
    pub fn kind(&self) -> (r: &'static str)
        ensures
            r@ == "Follow"@,
    {
        "Follow"
    }
}

impl Base for Follow {

}

impl Object for Follow {

}

impl Activity for Follow {

}

} // verus!

verus! {

/// Indicates that the actor is ignoring the object.
pub struct Ignore {
    /// The base object properties.
    pub object_props: PropertySet,
    /// The shared activity properties.
    pub activity_props: PropertySet,
}

impl Ignore {
    /// A fresh value with every property in its initial state.
    pub fn new() -> (r: Ignore)
        ensures
            r.object_props.wf(),
            r.activity_props.wf(),
    {
        Ignore {
            object_props: object_properties(),
            activity_props: activity_properties(),
        }
    }

    /// The value of this type's `type` field on the wire.
    pub fn kind(&self) -> (r: &'static str)
        ensures
            r@ == "Ignore"@,
    {
        "Ignore"
    }
}

impl Base for Ignore {

}

impl Object for Ignore {

}

impl Activity for Ignore {

}

} // verus!

verus! {

/// Indicates that the actor is inviting the object to the target.
pub struct Invite {
    /// The base object properties.
    pub object_props: PropertySet,
    /// The shared activity properties.
    pub activity_props: PropertySet,
}

impl Invite {
    /// A fresh value with every property in its initial state.
    pub fn new() -> (r: Invite)
        ensures
            r.object_props.wf(),
            r.activity_props.wf(),
    {
        Invite {
            object_props: object_properties(),
            activity_props: activity_properties(),
        }
    }

    /// The value of this type's `type` field on the wire.
    pub fn kind(&self) -> (r: &'static str)
        ensures
            r@ == "Invite"@,
    {
        "Invite"
    }
}

impl Base for Invite {

}

impl Object for Invite {

}

impl Activity for Invite {

}

} // verus!

verus! {

/// Indicates that the actor has joined the object.
pub struct Join {
    /// The base object properties.
    pub object_props: PropertySet,
    /// The shared activity properties.
    pub activity_props: PropertySet,
}

impl Join {
    /// A fresh value with every property in its initial state.
    pub fn new() -> (r: Join)
        ensures
            r.object_props.wf(),
            r.activity_props.wf(),
    {
        Join {
            object_props: object_properties(),
            activity_props: activity_properties(),
        }
    }

    /// The value of this type's `type` field on the wire.
    pub fn kind(&self) -> (r: &'static str)
        ensures
            r@ == "Join"@,
    {
        "Join"
    }
}

impl Base for Join {

}

impl Object for Join {

}

impl Activity for Join {

}

} // verus!

verus! {

/// Indicates that the actor has left the object.
pub struct Leave {
    /// The base object properties.
    pub object_props: PropertySet,
    /// The shared activity properties.
    pub activity_props: PropertySet,
}

impl Leave {
    /// A fresh value with every property in its initial state.
    pub fn new() -> (r: Leave)
        ensures
            r.object_props.wf(),
            r.activity_props.wf(),
    {
        Leave {
            object_props: object_properties(),
            activity_props: activity_properties(),
        }
    }

    /// The value of this type's `type` field on the wire.
    pub fn kind(&self) -> (r: &'static str)
        ensures
            r@ == "Leave"@,
    {
        "Leave"
    }
}

impl Base for Leave {

}

impl Object for Leave {

}

impl Activity for Leave {

}

} // verus!

verus! {

/// Indicates that the actor likes the object.
pub struct Like {
    /// The base object properties.
    pub object_props: PropertySet,
    /// The shared activity properties.
    pub activity_props: PropertySet,
}

impl Like {
    /// A fresh value with every property in its initial state.
    pub fn new() -> (r: Like)
        ensures
            r.object_props.wf(),
            r.activity_props.wf(),
    {
        Like {
            object_props: object_properties(),
            activity_props: activity_properties(),
        }
    }

    /// The value of this type's `type` field on the wire.
    pub fn kind(&self) -> (r: &'static str)
        ensures
            r@ == "Like"@,
    {
        "Like"
    }
}

impl Base for Like {

}

impl Object for Like {

}

impl Activity for Like {

}

} // verus!

verus! {

/// Indicates that the actor has listened to the object.
pub struct Listen {
    /// The base object properties.
    pub object_props: PropertySet,
    /// The shared activity properties.
    pub activity_props: PropertySet,
}

impl Listen {
    /// A fresh value with every property in its initial state.
    pub fn new() -> (r: Listen)
        ensures
            r.object_props.wf(),
            r.activity_props.wf(),
    {
        Listen {
            object_props: object_properties(),
            activity_props: activity_properties(),
        }
    }

    /// The value of this type's `type` field on the wire.
    pub fn kind(&self) -> (r: &'static str)
        ensures
            r@ == "Listen"@,
    {
        "Listen"
    }
}

impl Base for Listen {

}

impl Object for Listen {

}

impl Activity for Listen {

}

} // verus!

verus! {

/// Indicates that the actor is offering the object.
pub struct Offer {
    /// The base object properties.
    pub object_props: PropertySet,
    /// The shared activity properties.
    pub activity_props: PropertySet,
}

impl Offer {
    /// A fresh value with every property in its initial state.
    pub fn new() -> (r: Offer)
        ensures
            r.object_props.wf(),
            r.activity_props.wf(),
    {
        Offer {
            object_props: object_properties(),
            activity_props: activity_properties(),
        }
    }

    /// The value of this type's `type` field on the wire.
    pub fn kind(&self) -> (r: &'static str)
        ensures
            r@ == "Offer"@,
    {
        "Offer"
    }
}

impl Base for Offer {

}

impl Object for Offer {

}

impl Activity for Offer {

}

} // verus!

verus! {

/// Represents a question being asked.
pub struct Question {
    /// The base object properties.
    pub object_props: PropertySet,
    /// The shared activity properties.
    pub activity_props: PropertySet,
}

impl Question {
    /// A fresh value with every property in its initial state.
    pub fn new() -> (r: Question)
        ensures
            r.object_props.wf(),
            r.activity_props.wf(),
    {
        Question {
            object_props: object_properties(),
            activity_props: activity_properties(),
        }
    }

    /// The value of this type's `type` field on the wire.
    pub fn kind(&self) -> (r: &'static str)
        ensures
            r@ == "Question"@,
    {
        "Question"
    }
}

impl Base for Question {

}

impl Object for Question {

}

impl Activity for Question {

}

impl IntransitiveActivity for Question {

}

} // verus!

verus! {

/// Indicates that the actor has read the object.
pub struct Read {
    /// The base object properties.
    pub object_props: PropertySet,
    /// The shared activity properties.
    pub activity_props: PropertySet,
}

impl Read {
    /// A fresh value with every property in its initial state.
    pub fn new() -> (r: Read)
        ensures
            r.object_props.wf(),
            r.activity_props.wf(),
    {
        Read {
            object_props: object_properties(),
            activity_props: activity_properties(),
        }
    }

    /// The value of this type's `type` field on the wire.
    pub fn kind(&self) -> (r: &'static str)
        ensures
            r@ == "Read"@,
    {
        "Read"
    }
}

impl Base for Read {

}

impl Object for Read {

}

impl Activity for Read {

}

} // verus!

verus! {

/// Indicates that the actor is rejecting the object.
pub struct Reject {
    /// The base object properties.
    pub object_props: PropertySet,
    /// The shared activity properties.
    pub activity_props: PropertySet,
}

impl Reject {
    /// A fresh value with every property in its initial state.
    pub fn new() -> (r: Reject)
        ensures
            r.object_props.wf(),
            r.activity_props.wf(),
    {
        Reject {
            object_props: object_properties(),
            activity_props: activity_properties(),
        }
    }

    /// The value of this type's `type` field on the wire.
    pub fn kind(&self) -> (r: &'static str)
        ensures
            r@ == "Reject"@,
    {
        "Reject"
    }
}

impl Base for Reject {

}

impl Object for Reject {

}

impl Activity for Reject {

}

} // verus!

verus! {

/// Indicates that the actor is removing the object.
pub struct Remove {
    /// The base object properties.
    pub object_props: PropertySet,
    /// The shared activity properties.
    pub activity_props: PropertySet,
}

impl Remove {
    /// A fresh value with every property in its initial state.
    pub fn new() -> (r: Remove)
        ensures
            r.object_props.wf(),
            r.activity_props.wf(),
    {
        Remove {
            object_props: object_properties(),
            activity_props: activity_properties(),
        }
    }

    /// The value of this type's `type` field on the wire.
    pub fn kind(&self) -> (r: &'static str)
        ensures
            r@ == "Remove"@,
    {
        "Remove"
    }
}

impl Base for Remove {

}

impl Object for Remove {

}

impl Activity for Remove {

}

} // verus!

verus! {

/// A tentative acceptance of the object.
pub struct TentativeAccept {
    /// The base object properties.
    pub object_props: PropertySet,
    /// The shared activity properties.
    pub activity_props: PropertySet,
}

impl TentativeAccept {
    /// A fresh value with every property in its initial state.
    pub fn new() -> (r: TentativeAccept)
        ensures
            r.object_props.wf(),
            r.activity_props.wf(),
    {
        TentativeAccept {
            object_props: object_properties(),
            activity_props: activity_properties(),
        }
    }

    /// The value of this type's `type` field on the wire.
    pub fn kind(&self) -> (r: &'static str)
        ensures
            r@ == "TentativeAccept"@,
    {
        "TentativeAccept"
    }
}

impl Base for TentativeAccept {

}

impl Object for TentativeAccept {

}

impl Activity for TentativeAccept {

}

} // verus!

verus! {

/// A tentative rejection of the object.
pub struct TentativeReject {
    /// The base object properties.
    pub object_props: PropertySet,
    /// The shared activity properties.
    pub activity_props: PropertySet,
}

impl TentativeReject {
    /// A fresh value with every property in its initial state.
    pub fn new() -> (r: TentativeReject)
        ensures
            r.object_props.wf(),
            r.activity_props.wf(),
    {
        TentativeReject {
            object_props: object_properties(),
            activity_props: activity_properties(),
        }
    }

    /// The value of this type's `type` field on the wire.
    pub fn kind(&self) -> (r: &'static str)
        ensures
            r@ == "TentativeReject"@,
    {
        "TentativeReject"
    }
}

impl Base for TentativeReject {

}

impl Object for TentativeReject {

}

impl Activity for TentativeReject {

}

} // verus!

verus! {

/// Indicates that the actor is travelling to the target from the origin.
pub struct Travel {
    /// The base object properties.
    pub object_props: PropertySet,
    /// The shared activity properties.
    pub activity_props: PropertySet,
}

impl Travel {
    /// A fresh value with every property in its initial state.
    pub fn new() -> (r: Travel)
        ensures
            r.object_props.wf(),
            r.activity_props.wf(),
    {
        Travel {
            object_props: object_properties(),
            activity_props: activity_properties(),
        }
    }

    /// The value of this type's `type` field on the wire.
    pub fn kind(&self) -> (r: &'static str)
        ensures
            r@ == "Travel"@,
    {
        "Travel"
    }
}

impl Base for Travel {

}

impl Object for Travel {

}

impl Activity for Travel {

}

impl IntransitiveActivity for Travel {

}

} // verus!

verus! {

/// Indicates that the actor is undoing the object.
pub struct Undo {
    /// The base object properties.
    pub object_props: PropertySet,
    /// The shared activity properties.
    pub activity_props: PropertySet,
}

impl Undo {
    /// A fresh value with every property in its initial state.
    pub fn new() -> (r: Undo)
        ensures
            r.object_props.wf(),
            r.activity_props.wf(),
    {
        Undo {
            object_props: object_properties(),
            activity_props: activity_properties(),
        }
    }

    /// The value of this type's `type` field on the wire.
    pub fn kind(&self) -> (r: &'static str)
        ensures
            r@ == "Undo"@,
    {
        "Undo"
    }
}

impl Base for Undo {

}

impl Object for Undo {

}

impl Activity for Undo {

}

} // verus!

verus! {

/// Indicates that the actor has updated the object.
pub struct Update {
    /// The base object properties.
    pub object_props: PropertySet,
    /// The shared activity properties.
    pub activity_props: PropertySet,
}

impl Update {
    /// A fresh value with every property in its initial state.
    pub fn new() -> (r: Update)
        ensures
            r.object_props.wf(),
            r.activity_props.wf(),
    {
        Update {
            object_props: object_properties(),
            activity_props: activity_properties(),
        }
    }

    /// The value of this type's `type` field on the wire.
    pub fn kind(&self) -> (r: &'static str)
        ensures
            r@ == "Update"@,
    {
        "Update"
    }
}

impl Base for Update {

}

impl Object for Update {

}

impl Activity for Update {

}

} // verus!

verus! {

/// Indicates that the actor has viewed the object. Its wire name is
/// `View`; that word names the view trait of the verification library,
/// so the type carries a longer name here.
pub struct ViewActivity {
    /// The base object properties.
    pub object_props: PropertySet,
    /// The shared activity properties.
    pub activity_props: PropertySet,
}

impl ViewActivity {
    /// A fresh value with every property in its initial state.
    pub fn new() -> (r: ViewActivity)
        ensures
            r.object_props.wf(),
            r.activity_props.wf(),
    {
        ViewActivity {
            object_props: object_properties(),
            activity_props: activity_properties(),
        }
    }

    /// The value of this type's `type` field on the wire.
    pub fn kind(&self) -> (r: &'static str)
        ensures
            r@ == "View"@,
    {
        "View"
    }
}

impl Base for ViewActivity {

}

impl Object for ViewActivity {

}

impl Activity for ViewActivity {

}

} // verus!
