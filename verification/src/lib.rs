//! A statically typed model of the ActivityStreams vocabulary.
//!
//! Documents carry a set of named properties whose wire form is JSON. Each
//! property declares the value kinds it admits, whether it is functional
//! (at most one value) and whether it is required. The codec in [`codec`]
//! maps every declaration to the minimal JSON shape the vocabulary allows
//! and back, and the accessors read and write properties against exactly
//! that shape.

pub mod codec;
pub mod json;
pub mod text;
pub mod primitives;
pub mod properties;
pub mod xsd_datetime;
pub mod xsd_duration;

pub mod object;
pub mod actor;
pub mod activity;
pub mod collection;

use vstd::prelude::*;

use crate::primitives::XsdAnyUri;

verus! {

/// The lowermost marker of the document type hierarchy. It exists so
/// that object and link types can carry impls that never conflict.
pub trait Base {

}

/// The context associated with all of the vocabulary's document types.
pub fn context() -> (r: XsdAnyUri)
    ensures
        r@ == "https://www.w3.org/ns/activitystreams"@,
{
    XsdAnyUri(String::from_str("https://www.w3.org/ns/activitystreams"))
}

/// The security extension context used by some implementations.
pub fn security() -> (r: XsdAnyUri)
    ensures
        r@ == "https://w3id.org/security/v1"@,
{
    XsdAnyUri(String::from_str("https://w3id.org/security/v1"))
}

/// The public addressing marker: no real actor, but the address of
/// anything publicly available.
pub fn public() -> (r: XsdAnyUri)
    ensures
        r@ == "https://www.w3.org/ns/activitystreams#Public"@,
{
    XsdAnyUri(String::from_str("https://www.w3.org/ns/activitystreams#Public"))
}

} // verus!
