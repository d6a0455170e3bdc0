//! The simple leaf value types: plain text, language-tagged text,
//! URI-valued text, non-negative integers, and floating point numbers
//! carried as the wire number they arrived as.

use vstd::prelude::*;

use crate::json::JsonNum;

verus! {

/// A string value, `xsd:string`.
#[derive(Clone, Debug, Default)]
pub struct XsdString(pub String);

/// A language-tagged string, `rdf:langString`.
#[derive(Clone, Debug, Default)]
pub struct RdfLangString {
    /// The content of the string.
    pub value: XsdString,
    /// The language identifier.
    pub language: XsdString,
}

/// A URI value, carried as its text; `xsd:anyURI`.
#[derive(Clone, Debug, Default)]
pub struct XsdAnyUri(pub String);

/// A non-negative integer, `xsd:nonNegativeInteger`.
#[derive(Clone, Copy, Debug, Default, PartialEq, Eq, Structural)]
pub struct XsdNonNegativeInteger(pub u64);

/// A floating point value, `xsd:float`. The wire number is kept exactly
/// as it arrived — integral or by its 64-bit float bit pattern — so that
/// re-encoding reproduces it bit for bit.
#[derive(Clone, Copy, Debug, PartialEq, Eq, Structural)]
pub struct XsdFloat(pub JsonNum);

impl View for XsdString {
    type V = Seq<char>;

    open spec fn view(&self) -> Seq<char> {
        self.0@
    }
}

impl View for XsdAnyUri {
    type V = Seq<char>;

    open spec fn view(&self) -> Seq<char> {
        self.0@
    }
}

impl XsdString {
    /// A string value holding `s`.
    pub fn from_string(s: String) -> (r: XsdString)
        ensures
            r@ == s@,
    {
        XsdString(s)
    }

    /// The text of this value.
    pub fn as_str(&self) -> (r: &str)
        ensures
            r@ == self@,
    {
        self.0.as_str()
    }
}

impl XsdAnyUri {
    /// A URI value holding `s`.
    pub fn from_string(s: String) -> (r: XsdAnyUri)
        ensures
            r@ == s@,
    {
        XsdAnyUri(s)
    }

    /// The text of this value.
    pub fn as_str(&self) -> (r: &str)
        ensures
            r@ == self@,
    {
        self.0.as_str()
    }
}

impl XsdNonNegativeInteger {
    /// The integer value `n`.
    pub fn new(n: u64) -> (r: XsdNonNegativeInteger)
        ensures
            r.0 == n,
    {
        XsdNonNegativeInteger(n)
    }

    /// The value as an integer.
    pub fn into_inner(self) -> (r: u64)
        ensures
            r == self.0,
    {
        self.0
    }
}

} // verus!
