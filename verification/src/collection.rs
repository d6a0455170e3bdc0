//! The collection vocabulary: ordered and unordered collections and
//! their pages, the property tables they carry, and closed boxed forms
//! that stand for "any collection" with checked downcasts.

use vstd::prelude::*;

use crate::codec::{PropertyDescriptor, ValueKind};
use crate::object::{object_properties, Object};
use crate::properties::{desc_default, pair_kind, single_kind, PropertySet};
use crate::Base;

verus! {

/// The properties of a collection: its items, their count, and the
/// current, first and last page. The items are required; an empty
/// collection materializes as the empty list.
pub fn collection_descriptors() -> (r: Vec<PropertyDescriptor>)
    ensures
        forall|i: int| 0 <= i < r@.len()
            ==> (#[trigger] r@[i])@.wf() && desc_default(r@[i]@) is Some,
        r@.len() == 5,
        r@[0]@.name == "items"@ && !r@[0]@.functional && r@[0]@.required
            && r@[0]@.kinds == seq![ValueKind::Text, ValueKind::Document],
        r@[1]@.name == "total_items"@ && r@[1]@.functional && !r@[1]@.required
            && r@[1]@.kinds == seq![ValueKind::NonNegativeInteger],
        r@[2]@.name == "current"@ && r@[2]@.functional && !r@[2]@.required,
        r@[3]@.name == "first"@ && r@[3]@.functional && !r@[3]@.required,
        r@[4]@.name == "last"@ && !r@[4]@.functional && !r@[4]@.required,
{
    let mut t: Vec<PropertyDescriptor> = Vec::new();
    t.push(pair_kind("items", ValueKind::Text, ValueKind::Document, false, true));
    t.push(single_kind("total_items", ValueKind::NonNegativeInteger, true, false));
    t.push(pair_kind("current", ValueKind::AnyUri, ValueKind::Document, true, false));
    t.push(pair_kind("first", ValueKind::AnyUri, ValueKind::Document, true, false));
    t.push(pair_kind("last", ValueKind::AnyUri, ValueKind::Document, false, false));
    t
}

/// The properties of a collection page: the collection it belongs to
/// and its neighbours.
pub fn collection_page_descriptors() -> (r: Vec<PropertyDescriptor>)
    ensures
        forall|i: int| 0 <= i < r@.len()
            ==> (#[trigger] r@[i])@.wf() && desc_default(r@[i]@) is Some,
        r@.len() == 3,
        r@[0]@.name == "part_of"@ && r@[1]@.name == "next"@ && r@[2]@.name == "prev"@,
        forall|i: int| 0 <= i < r@.len() ==> (#[trigger] r@[i])@.functional
            && !r@[i]@.required && r@[i]@.kinds == seq![
            ValueKind::AnyUri,
            ValueKind::Document,
        ],
{
    let mut t: Vec<PropertyDescriptor> = Vec::new();
    t.push(pair_kind("part_of", ValueKind::AnyUri, ValueKind::Document, true, false));
    t.push(pair_kind("next", ValueKind::AnyUri, ValueKind::Document, true, false));
    t.push(pair_kind("prev", ValueKind::AnyUri, ValueKind::Document, true, false));
    t
}

/// The properties of a strictly ordered collection page.
pub fn ordered_collection_page_descriptors() -> (r: Vec<PropertyDescriptor>)
    ensures
        forall|i: int| 0 <= i < r@.len()
            ==> (#[trigger] r@[i])@.wf() && desc_default(r@[i]@) is Some,
        r@.len() == 1,
        r@[0]@.name == "start_index"@ && r@[0]@.functional && !r@[0]@.required
            && r@[0]@.kinds == seq![ValueKind::NonNegativeInteger],
{
    let mut t: Vec<PropertyDescriptor> = Vec::new();
    t.push(single_kind("start_index", ValueKind::NonNegativeInteger, true, false));
    t
}

/// The default collection type.
pub struct UnorderedCollection {
    /// The base object properties.
    pub object_props: PropertySet,
    /// The collection properties.
    pub collection_props: PropertySet,
}

/// A collection whose items are always strictly ordered.
pub struct OrderedCollection {
    /// The base object properties.
    pub object_props: PropertySet,
    /// The collection properties.
    pub collection_props: PropertySet,
}

/// A distinct subset of items from a collection.
pub struct UnorderedCollectionPage {
    /// The base object properties.
    pub object_props: PropertySet,
    /// The collection properties.
    pub collection_props: PropertySet,
    /// The page properties.
    pub collection_page_props: PropertySet,
}

/// An ordered subset of items from an ordered collection.
pub struct OrderedCollectionPage {
    /// The base object properties.
    pub object_props: PropertySet,
    /// The collection properties.
    pub collection_props: PropertySet,
    /// The page properties.
    pub collection_page_props: PropertySet,
    /// The strictly ordered page properties.
    pub ordered_collection_page_props: PropertySet,
}

/// Any collection, as one closed value.
pub enum CollectionBox {
    Unordered(UnorderedCollection),
    Ordered(OrderedCollection),
    UnorderedPage(UnorderedCollectionPage),
    OrderedPage(OrderedCollectionPage),
}

/// Any collection page, as one closed value.
pub enum CollectionPageBox {
    Unordered(UnorderedCollectionPage),
    Ordered(OrderedCollectionPage),
}

/// The marker of collection types, with their boxed form.
pub trait Collection: Object + Sized {
    /// The boxed form of this value.
    spec fn boxed(self) -> CollectionBox;

    /// Boxes this value.
    fn into_box(self) -> (r: CollectionBox)
        ensures
            r == self.boxed(),
    ;

    /// The value in `b`, when `b` holds this type.
    fn box_ref(b: &CollectionBox) -> (r: Option<&Self>)
        ensures
            match r {
                Some(t) => (*t).boxed() == *b,
                None => forall|t: Self| #[trigger] t.boxed() != *b,
            },
    ;

    /// The value in `b`, for writing, when `b` holds this type.
    fn box_mut(b: &mut CollectionBox) -> (r: Option<&mut Self>)
        ensures
            match r {
                Some(t) => (*t).boxed() == *old(b) && *final(b) == (*final(t)).boxed(),
                None => *final(b) == *old(b) && forall|t: Self| #[trigger] t.boxed()
                    != *old(b),
            },
    ;
}

/// The marker of collection page types, with their boxed form.
pub trait CollectionPage: Collection {
    /// The boxed page form of this value.
    spec fn page_boxed(self) -> CollectionPageBox;

    /// Boxes this value as a page.
    fn into_page_box(self) -> (r: CollectionPageBox)
        ensures
            r == self.page_boxed(),
    ;

    /// The value in `b`, when `b` holds this type.
    fn page_box_ref(b: &CollectionPageBox) -> (r: Option<&Self>)
        ensures
            match r {
                Some(t) => (*t).page_boxed() == *b,
                None => forall|t: Self| #[trigger] t.page_boxed() != *b,
            },
    ;

    /// The value in `b`, for writing, when `b` holds this type.
    fn page_box_mut(b: &mut CollectionPageBox) -> (r: Option<&mut Self>)
        ensures
            match r {
                Some(t) => (*t).page_boxed() == *old(b) && *final(b)
                    == (*final(t)).page_boxed(),
                None => *final(b) == *old(b) && forall|t: Self| #[trigger] t.page_boxed()
                    != *old(b),
            },
    ;
}

impl CollectionBox {
    /// Whether this box holds a `T`.
    pub fn is<T: Collection>(&self) -> (r: bool)
        ensures
            r == exists|t: T| #[trigger] t.boxed() == *self,
    {
        let d: Option<&T> = T::box_ref(self);
        match d {
            Some(t) => {
                proof {
                    assert((*t).boxed() == *self);
                }
                true
            },
            None => false,
        }
    }

    /// The held `T`, if this box holds one.
    pub fn downcast_ref<T: Collection>(&self) -> (r: Option<&T>)
        ensures
            match r {
                Some(t) => (*t).boxed() == *self,
                None => forall|t: T| #[trigger] t.boxed() != *self,
            },
    {
        T::box_ref(self)
    }

    /// The held `T`, for writing, if this box holds one.
    pub fn downcast_mut<T: Collection>(&mut self) -> (r: Option<&mut T>)
        ensures
            match r {
                Some(t) => (*t).boxed() == *old(self) && *final(self)
                    == (*final(t)).boxed(),
                None => *final(self) == *old(self) && forall|t: T| #[trigger] t.boxed()
                    != *old(self),
            },
    {
        T::box_mut(self)
    }
}

impl CollectionPageBox {
    /// Whether this box holds a `T`.
    pub fn is<T: CollectionPage>(&self) -> (r: bool)
        ensures
            r == exists|t: T| #[trigger] t.page_boxed() == *self,
    {
        let d: Option<&T> = T::page_box_ref(self);
        match d {
            Some(t) => {
                proof {
                    assert((*t).page_boxed() == *self);
                }
                true
            },
            None => false,
        }
    }

    /// The held `T`, if this box holds one.
    pub fn downcast_ref<T: CollectionPage>(&self) -> (r: Option<&T>)
        ensures
            match r {
                Some(t) => (*t).page_boxed() == *self,
                None => forall|t: T| #[trigger] t.page_boxed() != *self,
            },
    {
        T::page_box_ref(self)
    }

    /// The held `T`, for writing, if this box holds one.
    pub fn downcast_mut<T: CollectionPage>(&mut self) -> (r: Option<&mut T>)
        ensures
            match r {
                Some(t) => (*t).page_boxed() == *old(self) && *final(self)
                    == (*final(t)).page_boxed(),
                None => *final(self) == *old(self) && forall|t: T| #[trigger]
                    t.page_boxed() != *old(self),
            },
    {
        T::page_box_mut(self)
    }
}

impl UnorderedCollection {
    /// A fresh value with every property in its initial state.
    pub fn new() -> (r: UnorderedCollection)
        ensures
            r.object_props.wf(),
            r.collection_props.wf(),
    {
        UnorderedCollection {
            object_props: object_properties(),
            collection_props: PropertySet::fresh(collection_descriptors()),
        }
    }

    /// The value of this type's `type` field on the wire.
    pub fn kind(&self) -> (r: &'static str)
        ensures
            r@ == "Collection"@,
    {
        "Collection"
    }
}

impl OrderedCollection {
    /// A fresh value with every property in its initial state.
    pub fn new() -> (r: OrderedCollection)
        ensures
            r.object_props.wf(),
            r.collection_props.wf(),
    {
        OrderedCollection {
            object_props: object_properties(),
            collection_props: PropertySet::fresh(collection_descriptors()),
        }
    }

    /// The value of this type's `type` field on the wire.
    pub fn kind(&self) -> (r: &'static str)
        ensures
            r@ == "OrderedCollection"@,
    {
        "OrderedCollection"
    }
}

impl UnorderedCollectionPage {
    /// A fresh value with every property in its initial state.
    pub fn new() -> (r: UnorderedCollectionPage)
        ensures
            r.object_props.wf(),
            r.collection_props.wf(),
            r.collection_page_props.wf(),
    {
        UnorderedCollectionPage {
            object_props: object_properties(),
            collection_props: PropertySet::fresh(collection_descriptors()),
            collection_page_props: PropertySet::fresh(collection_page_descriptors()),
        }
    }

    /// The value of this type's `type` field on the wire.
    pub fn kind(&self) -> (r: &'static str)
        ensures
            r@ == "CollectionPage"@,
    {
        "CollectionPage"
    }
}

impl OrderedCollectionPage {
    /// A fresh value with every property in its initial state.
    pub fn new() -> (r: OrderedCollectionPage)
        ensures
            r.object_props.wf(),
            r.collection_props.wf(),
            r.collection_page_props.wf(),
            r.ordered_collection_page_props.wf(),
    {
        OrderedCollectionPage {
            object_props: object_properties(),
            collection_props: PropertySet::fresh(collection_descriptors()),
            collection_page_props: PropertySet::fresh(collection_page_descriptors()),
            ordered_collection_page_props: PropertySet::fresh(
                ordered_collection_page_descriptors(),
            ),
        }
    }

    /// The value of this type's `type` field on the wire.
    pub fn kind(&self) -> (r: &'static str)
        ensures
            r@ == "OrderedCollectionPage"@,
    {
        "OrderedCollectionPage"
    }
}

impl Base for UnorderedCollection {

}

impl Object for UnorderedCollection {

}

impl Collection for UnorderedCollection {
    open spec fn boxed(self) -> CollectionBox {
        CollectionBox::Unordered(self)
    }

    fn into_box(self) -> (r: CollectionBox) {
        CollectionBox::Unordered(self)
    }

    fn box_ref(b: &CollectionBox) -> (r: Option<&Self>) {
        match b {
            CollectionBox::Unordered(t) => Some(t),
            _ => None,
        }
    }

    fn box_mut(b: &mut CollectionBox) -> (r: Option<&mut Self>) {
        match b {
            CollectionBox::Unordered(t) => Some(t),
            _ => None,
        }
    }
}

impl Base for OrderedCollection {

}

impl Object for OrderedCollection {

}

impl Collection for OrderedCollection {
    open spec fn boxed(self) -> CollectionBox {
        CollectionBox::Ordered(self)
    }

    fn into_box(self) -> (r: CollectionBox) {
        CollectionBox::Ordered(self)
    }

    fn box_ref(b: &CollectionBox) -> (r: Option<&Self>) {
        match b {
            CollectionBox::Ordered(t) => Some(t),
            _ => None,
        }
    }

    fn box_mut(b: &mut CollectionBox) -> (r: Option<&mut Self>) {
        match b {
            CollectionBox::Ordered(t) => Some(t),
            _ => None,
        }
    }
}

impl Base for UnorderedCollectionPage {

}

impl Object for UnorderedCollectionPage {

}

impl Collection for UnorderedCollectionPage {
    open spec fn boxed(self) -> CollectionBox {
        CollectionBox::UnorderedPage(self)
    }

    fn into_box(self) -> (r: CollectionBox) {
        CollectionBox::UnorderedPage(self)
    }

    fn box_ref(b: &CollectionBox) -> (r: Option<&Self>) {
        match b {
            CollectionBox::UnorderedPage(t) => Some(t),
            _ => None,
        }
    }

    fn box_mut(b: &mut CollectionBox) -> (r: Option<&mut Self>) {
        match b {
            CollectionBox::UnorderedPage(t) => Some(t),
            _ => None,
        }
    }
}

impl CollectionPage for UnorderedCollectionPage {
    open spec fn page_boxed(self) -> CollectionPageBox {
        CollectionPageBox::Unordered(self)
    }

    fn into_page_box(self) -> (r: CollectionPageBox) {
        CollectionPageBox::Unordered(self)
    }

    fn page_box_ref(b: &CollectionPageBox) -> (r: Option<&Self>) {
        match b {
            CollectionPageBox::Unordered(t) => Some(t),
            _ => None,
        }
    }

    fn page_box_mut(b: &mut CollectionPageBox) -> (r: Option<&mut Self>) {
        match b {
            CollectionPageBox::Unordered(t) => Some(t),
            _ => None,
        }
    }
}

impl Base for OrderedCollectionPage {

}

impl Object for OrderedCollectionPage {

}

impl Collection for OrderedCollectionPage {
    open spec fn boxed(self) -> CollectionBox {
        CollectionBox::OrderedPage(self)
    }

    fn into_box(self) -> (r: CollectionBox) {
        CollectionBox::OrderedPage(self)
    }

    fn box_ref(b: &CollectionBox) -> (r: Option<&Self>) {
        match b {
            CollectionBox::OrderedPage(t) => Some(t),
            _ => None,
        }
    }

    fn box_mut(b: &mut CollectionBox) -> (r: Option<&mut Self>) {
        match b {
            CollectionBox::OrderedPage(t) => Some(t),
            _ => None,
        }
    }
}

impl CollectionPage for OrderedCollectionPage {
    open spec fn page_boxed(self) -> CollectionPageBox {
        CollectionPageBox::Ordered(self)
    }

    fn into_page_box(self) -> (r: CollectionPageBox) {
        CollectionPageBox::Ordered(self)
    }

    fn page_box_ref(b: &CollectionPageBox) -> (r: Option<&Self>) {
        match b {
            CollectionPageBox::Ordered(t) => Some(t),
            _ => None,
        }
    }

    fn page_box_mut(b: &mut CollectionPageBox) -> (r: Option<&mut Self>) {
        match b {
            CollectionPageBox::Ordered(t) => Some(t),
            _ => None,
        }
    }
}

} // verus!
