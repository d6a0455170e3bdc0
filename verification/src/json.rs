//! A plain model of JSON wire values.
//!
//! The codec never reads wire text itself: a caller hands it a tree of
//! [`JsonValue`] nodes, built from whatever JSON reader it uses. Numbers
//! keep the distinction a JSON reader makes between non-negative integers,
//! negative integers and other (fractional or out-of-range) numbers; the
//! last are carried by their bit pattern so that re-encoding reproduces
//! them exactly.

use vstd::prelude::*;

verus! {

/// A JSON number, as a JSON reader classifies it.
#[derive(Clone, Copy, PartialEq, Eq, Structural, Debug)]
pub enum JsonNum {
    /// A non-negative integer.
    Uint(u64),
    /// A negative integer.
    Int(i64),
    /// Any other number, by the bit pattern of its 64-bit float form.
    Bits(u64),
}

/// A JSON wire value. Objects keep their fields in wire order.
pub enum JsonValue {
    Null,
    Bool(bool),
    Num(JsonNum),
    Str(String),
    Arr(Vec<JsonValue>),
    Obj(Vec<(String, JsonValue)>),
}

/// The mathematical value of a [`JsonValue`] tree.
pub enum JsonData {
    Null,
    Bool(bool),
    Num(JsonNum),
    Str(Seq<char>),
    Arr(Seq<JsonData>),
    Obj(Seq<(Seq<char>, JsonData)>),
}

impl JsonValue {
    /// The mathematical value of this node.
    pub open spec fn deep(self) -> JsonData
        decreases self,
    {
        match self {
            JsonValue::Null => JsonData::Null,
            JsonValue::Bool(b) => JsonData::Bool(b),
            JsonValue::Num(n) => JsonData::Num(n),
            JsonValue::Str(s) => JsonData::Str(s@),
            JsonValue::Arr(items) => JsonData::Arr(deep_list(items@)),
            JsonValue::Obj(fields) => JsonData::Obj(deep_fields(fields@)),
        }
    }
}

/// The mathematical values of a list of nodes, in order.
pub open spec fn deep_list(s: Seq<JsonValue>) -> Seq<JsonData>
    decreases s,
{
    if s.len() == 0 {
        Seq::empty()
    } else {
        seq![s[0].deep()] + deep_list(s.subrange(1, s.len() as int))
    }
}

/// The mathematical values of a list of object fields, in order.
pub open spec fn deep_fields(s: Seq<(String, JsonValue)>) -> Seq<(Seq<char>, JsonData)>
    decreases s,
{
    if s.len() == 0 {
        Seq::empty()
    } else {
        seq![(s[0].0@, s[0].1.deep())] + deep_fields(s.subrange(1, s.len() as int))
    }
}

/// `deep_list` maps each node to its value, in place.
pub proof fn lemma_deep_list_index(s: Seq<JsonValue>)
    ensures
        deep_list(s).len() == s.len(),
        forall|i: int| 0 <= i < s.len() ==> deep_list(s)[i] == s[i].deep(),
    decreases s.len(),
{
    if s.len() > 0 {
        let t = s.subrange(1, s.len() as int);
        lemma_deep_list_index(t);
        assert(deep_list(s) == seq![s[0].deep()] + deep_list(t));
        assert(forall|i: int| 0 < i < s.len() ==> t[i - 1] == s[i]);
    }
}

/// `deep_fields` maps each field to its name and value, in place.
pub proof fn lemma_deep_fields_index(s: Seq<(String, JsonValue)>)
    ensures
        deep_fields(s).len() == s.len(),
        forall|i: int| 0 <= i < s.len() ==> deep_fields(s)[i] == (s[i].0@, s[i].1.deep()),
    decreases s.len(),
{
    if s.len() > 0 {
        let t = s.subrange(1, s.len() as int);
        lemma_deep_fields_index(t);
        assert(deep_fields(s) == seq![(s[0].0@, s[0].1.deep())] + deep_fields(t));
        assert(forall|i: int| 0 < i < s.len() ==> t[i - 1] == s[i]);
    }
}

impl View for JsonValue {
    type V = JsonData;

    open spec fn view(&self) -> JsonData {
        self.deep()
    }
}

} // verus!
