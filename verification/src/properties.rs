//! Property sets: the table of declared properties of one document type,
//! with the stored value of each, and the generated accessors.
//!
//! Reads and writes follow the declaration exactly: a single read sees a
//! value only in the single-value state of the right kind, a collection
//! read only in the collection state; a write converts first and commits
//! only as a whole, leaving the prior state untouched on any failure; a
//! delete resets an optional property to its empty default.

use vstd::prelude::*;

use crate::codec::{
    empty_default, get_many_spec, get_spec, kind_of, kind_shape, kind_shape_of, kinds_overlap,
    kinds_wf, values_view,
    wf_prop, CodecError, CodecErrorData, DescData, PropData, PropValue, PropertyDescriptor,
    Value, ValueData, ValueKind,
};
use crate::json::{deep_fields, JsonData, JsonNum, JsonValue};
use crate::text::camel_seq;
use crate::primitives::{RdfLangString, XsdAnyUri, XsdFloat, XsdNonNegativeInteger, XsdString};
use crate::xsd_duration::XsdDuration;

verus! {

/// The declarations of a table, by value.
pub open spec fn descs_view(descs: Seq<PropertyDescriptor>) -> Seq<DescData> {
    Seq::new(descs.len(), |i: int| descs[i]@)
}

/// The index of the first declaration named `name`, or `-1`.
pub open spec fn find_name(descs: Seq<DescData>, name: Seq<char>) -> int
    decreases descs.len(),
{
    if descs.len() == 0 {
        -1
    } else if descs[0].name == name {
        0
    } else {
        let r = find_name(descs.subrange(1, descs.len() as int), name);
        if r == -1 {
            -1
        } else {
            r + 1
        }
    }
}

/// If `name` first appears at `f`, the search returns `f`.
proof fn lemma_find_name_is(descs: Seq<DescData>, name: Seq<char>, f: int)
    requires
        0 <= f < descs.len(),
        descs[f].name == name,
        forall|i: int| 0 <= i < f ==> (#[trigger] descs[i]).name != name,
    ensures
        find_name(descs, name) == f,
    decreases descs.len(),
{
    if f > 0 {
        let t = descs.subrange(1, descs.len() as int);
        assert(forall|i: int| 0 <= i < f - 1 ==> t[i] == descs[i + 1]);
        lemma_find_name_is(t, name, f - 1);
    }
}

/// If no declaration is named `name`, the search misses.
proof fn lemma_find_name_none(descs: Seq<DescData>, name: Seq<char>)
    requires
        forall|i: int| 0 <= i < descs.len() ==> (#[trigger] descs[i]).name != name,
    ensures
        find_name(descs, name) == -1,
    decreases descs.len(),
{
    if descs.len() > 0 {
        let t = descs.subrange(1, descs.len() as int);
        assert(forall|i: int| 0 <= i < t.len() ==> t[i] == descs[i + 1]);
        lemma_find_name_none(t, name);
    }
}

/// The stored values of a list, by value.
pub open spec fn values_data_of(vs: Seq<PropValue>) -> Seq<PropData> {
    Seq::new(vs.len(), |i: int| vs[i]@)
}

/// The wire key of a declaration: its explicit rename, or else its name
/// in camel case.
pub open spec fn wire_key(d: DescData) -> Seq<char> {
    match d.rename {
        Some(r) => r,
        None => camel_seq(d.name, false),
    }
}

/// The index of the first field stored under `key`, or `-1`.
pub open spec fn find_field(fields: Seq<(Seq<char>, JsonData)>, key: Seq<char>) -> int
    decreases fields.len(),
{
    if fields.len() == 0 {
        -1
    } else if fields[0].0 == key {
        0
    } else {
        let r = find_field(fields.subrange(1, fields.len() as int), key);
        if r == -1 {
            -1
        } else {
            r + 1
        }
    }
}

/// The field matched by the first alias that is present, in declared
/// order, or `-1`.
pub open spec fn alias_find(aliases: Seq<Seq<char>>, fields: Seq<(Seq<char>, JsonData)>) -> int
    decreases aliases.len(),
{
    if aliases.len() == 0 {
        -1
    } else {
        let f = find_field(fields, aliases[0]);
        if f != -1 {
            f
        } else {
            alias_find(aliases.subrange(1, aliases.len() as int), fields)
        }
    }
}

/// The field a declaration reads from: the first occurrence of its
/// canonical wire key, or else the field of its first present alias.
pub open spec fn match_index(d: DescData, fields: Seq<(Seq<char>, JsonData)>) -> int {
    let f = find_field(fields, wire_key(d));
    if f != -1 {
        f
    } else {
        alias_find(d.aliases, fields)
    }
}

/// What a document object decodes to against a table: each declaration
/// in turn takes its matched field (consuming it) or absence, and the
/// first failure aborts the whole decode.
pub open spec fn doc_decode(
    descs: Seq<DescData>,
    fields: Seq<(Seq<char>, JsonData)>,
) -> Result<Seq<PropData>, CodecErrorData>
    decreases descs.len(),
{
    if descs.len() == 0 {
        Ok(Seq::empty())
    } else {
        let m = match_index(descs[0], fields);
        let j = if m == -1 {
            None
        } else {
            Some(fields[m].1)
        };
        let rest_fields = if m == -1 {
            fields
        } else {
            fields.remove(m)
        };
        match crate::codec::prop_decode(descs[0], j) {
            Err(e) => Err(e),
            Ok(p) => match doc_decode(descs.subrange(1, descs.len() as int), rest_fields) {
                Err(e) => Err(e),
                Ok(ps) => Ok(seq![p] + ps),
            },
        }
    }
}

/// What a table of stored properties encodes to: one field per property
/// that encodes, under its canonical wire key, in table order.
pub open spec fn doc_encode(descs: Seq<DescData>, ps: Seq<PropData>) -> Seq<
    (Seq<char>, JsonData),
>
    decreases descs.len(),
{
    if descs.len() == 0 || ps.len() == 0 {
        Seq::empty()
    } else {
        let rest = doc_encode(
            descs.subrange(1, descs.len() as int),
            ps.subrange(1, ps.len() as int),
        );
        match crate::codec::prop_encode(descs[0], ps[0]) {
            None => rest,
            Some(j) => seq![(wire_key(descs[0]), j)] + rest,
        }
    }
}

/// Law: a document that lacks every wire key of a required property
/// fails to decode, naming that property.
pub proof fn lemma_doc_missing_required(
    descs: Seq<DescData>,
    fields: Seq<(Seq<char>, JsonData)>,
)
    requires
        descs.len() > 0,
        descs[0].required,
        match_index(descs[0], fields) == -1,
    ensures
        doc_decode(descs, fields) == Err::<Seq<PropData>, CodecErrorData>(
            CodecErrorData::MissingRequiredProperty { name: descs[0].name },
        ),
{
}

/// If `key` first appears at `f`, the field search returns `f`.
proof fn lemma_find_field_is(fields: Seq<(Seq<char>, JsonData)>, key: Seq<char>, f: int)
    requires
        0 <= f < fields.len(),
        fields[f].0 == key,
        forall|i: int| 0 <= i < f ==> (#[trigger] fields[i]).0 != key,
    ensures
        find_field(fields, key) == f,
    decreases fields.len(),
{
    if f > 0 {
        let t = fields.subrange(1, fields.len() as int);
        assert(forall|i: int| 0 <= i < f - 1 ==> t[i] == fields[i + 1]);
        lemma_find_field_is(t, key, f - 1);
    }
}

/// If no field bears `key`, the field search misses.
proof fn lemma_find_field_none(fields: Seq<(Seq<char>, JsonData)>, key: Seq<char>)
    requires
        forall|i: int| 0 <= i < fields.len() ==> (#[trigger] fields[i]).0 != key,
    ensures
        find_field(fields, key) == -1,
    decreases fields.len(),
{
    if fields.len() > 0 {
        let t = fields.subrange(1, fields.len() as int);
        assert(forall|i: int| 0 <= i < t.len() ==> t[i] == fields[i + 1]);
        lemma_find_field_none(t, key);
    }
}

/// A found field index is in range.
proof fn lemma_find_field_range(fields: Seq<(Seq<char>, JsonData)>, key: Seq<char>)
    ensures
        find_field(fields, key) == -1 || (0 <= find_field(fields, key) < fields.len()),
    decreases fields.len(),
{
    if fields.len() > 0 {
        lemma_find_field_range(fields.subrange(1, fields.len() as int), key);
    }
}

/// Removing a field removes its value: the values of a document with a
/// field taken out are the values with that entry taken out.
proof fn lemma_deep_fields_remove(s: Seq<(String, JsonValue)>, i: int)
    requires
        0 <= i < s.len(),
    ensures
        deep_fields(s.remove(i)) == deep_fields(s).remove(i),
{
    crate::json::lemma_deep_fields_index(s);
    s.remove_ensures(i);
    deep_fields(s).remove_ensures(i);
    crate::json::lemma_deep_fields_index(s.remove(i));
    assert(deep_fields(s.remove(i)) =~= deep_fields(s).remove(i));
}

/// The default value of a kind, where one exists: the kind's empty or
/// zero value. A timestamp or boxed document has none.
pub open spec fn default_value_data(k: ValueKind) -> Option<ValueData> {
    match k {
        ValueKind::Text => Some(ValueData::Text(Seq::empty())),
        ValueKind::LangString => Some(
            ValueData::LangString { value: Seq::empty(), language: Seq::empty() },
        ),
        ValueKind::AnyUri => Some(ValueData::AnyUri(Seq::empty())),
        ValueKind::NonNegativeInteger => Some(ValueData::NonNegativeInteger(0)),
        ValueKind::Float => Some(ValueData::Float(JsonNum::Uint(0))),
        ValueKind::Duration => Some(ValueData::Duration(0)),
        ValueKind::DateTime => None,
        ValueKind::Document => None,
    }
}

/// The initial state a declaration materializes with: the empty
/// collection for a non-functional property, absence for an optional
/// functional one, and the first kind's default for a required
/// functional one — or nothing, when that kind has no default or the
/// declaration is unusable.
pub open spec fn desc_default(d: DescData) -> Option<PropData> {
    if !d.wf() {
        None
    } else if !d.functional {
        Some(PropData::Array(Seq::empty()))
    } else if !d.required {
        Some(PropData::Absent)
    } else {
        match default_value_data(d.kinds[0]) {
            Some(v) => Some(PropData::Term(v)),
            None => None,
        }
    }
}

/// The default value of a kind, where one exists.
fn default_value(k: ValueKind) -> (r: Option<Value>)
    ensures
        match r {
            Some(v) => default_value_data(k) == Some(v@),
            None => default_value_data(k) is None,
        },
{
    match k {
        ValueKind::Text => Some(Value::Text(XsdString(String::new()))),
        ValueKind::LangString => Some(Value::LangString(RdfLangString {
            value: XsdString(String::new()),
            language: XsdString(String::new()),
        })),
        ValueKind::AnyUri => Some(Value::AnyUri(XsdAnyUri(String::new()))),
        ValueKind::NonNegativeInteger => Some(Value::NonNegativeInteger(
            XsdNonNegativeInteger(0),
        )),
        ValueKind::Float => Some(Value::Float(XsdFloat(JsonNum::Uint(0)))),
        ValueKind::Duration => Some(Value::Duration(XsdDuration { seconds: 0 })),
        ValueKind::DateTime => None,
        ValueKind::Document => None,
    }
}

/// A declaration of one kind. A required functional declaration must
/// use a kind with a default, so that a fresh document materializes.
pub fn single_kind(name: &str, k: ValueKind, functional: bool, required: bool) -> (r:
    PropertyDescriptor)
    requires
        functional && required ==> default_value_data(k) is Some,
    ensures
        r@.name == name@ && r@.kinds == seq![k] && r@.functional == functional
            && r@.required == required && r@.rename is None && r@.aliases.len() == 0,
        r@.wf(),
        desc_default(r@) is Some,
{
    let mut kinds: Vec<ValueKind> = Vec::new();
    kinds.push(k);
    proof {
        assert(kinds@ =~= seq![k]);
        assert(kinds_wf(kinds@));
        assert(!kinds_overlap(kinds@));
    }
    match PropertyDescriptor::new(String::from_str(name), kinds, functional, required) {
        Some(d) => d,
        None => vstd::pervasive::unreached(),
    }
}

/// A declaration of two kinds, tried in this order on decode. The two
/// must not share a wire shape, so the order decides nothing ambiguous.
pub fn pair_kind(name: &str, k1: ValueKind, k2: ValueKind, functional: bool, required: bool)
    -> (r: PropertyDescriptor)
    requires
        k1 != k2,
        kind_shape(k1) != kind_shape(k2),
        functional && required ==> default_value_data(k1) is Some,
    ensures
        r@.name == name@ && r@.kinds == seq![k1, k2] && r@.functional == functional
            && r@.required == required && r@.rename is None && r@.aliases.len() == 0,
        r@.wf(),
        desc_default(r@) is Some,
{
    let mut kinds: Vec<ValueKind> = Vec::new();
    kinds.push(k1);
    kinds.push(k2);
    proof {
        assert(kinds@ =~= seq![k1, k2]);
        assert(kinds_wf(kinds@));
        assert forall|i: int, j: int| !(0 <= i < j < kinds@.len() && kind_shape(
            #[trigger] kinds@[i],
        ) == kind_shape(#[trigger] kinds@[j])) by {
            if 0 <= i < j < kinds@.len() {
                assert(i == 0 && j == 1);
            }
        }
        assert(!kinds_overlap(kinds@));
    }
    match PropertyDescriptor::new(String::from_str(name), kinds, functional, required) {
        Some(d) => d,
        None => vstd::pervasive::unreached(),
    }
}

/// The declared properties of one document type, with their values.
pub struct PropertySet {
    /// The declarations, in table order.
    pub descs: Vec<PropertyDescriptor>,
    /// The stored value of each declared property, in the same order.
    pub values: Vec<PropValue>,
}

impl PropertySet {
    /// The declarations, by value.
    pub open spec fn descs_data(&self) -> Seq<DescData> {
        descs_view(self.descs@)
    }

    /// The stored values, by value.
    pub open spec fn values_data(&self) -> Seq<PropData> {
        Seq::new(self.values@.len(), |i: int| self.values@[i]@)
    }

    /// Every declaration usable, one value per declaration, each value
    /// fitting its declaration.
    pub open spec fn wf(&self) -> bool {
        &&& self.descs@.len() == self.values@.len()
        &&& forall|i: int| 0 <= i < self.descs@.len() ==> (#[trigger] self.descs_data()[i]).wf()
            && wf_prop(self.descs_data()[i], self.values_data()[i])
    }

    /// The index of the property named `name`, or `-1`.
    pub open spec fn spec_find(&self, name: Seq<char>) -> int {
        find_name(self.descs_data(), name)
    }

    /// A fresh set over `descs`, each property in its initial state.
    /// Fails when a declaration is unusable or a required functional
    /// property's first kind has no default.
    pub fn new(descs: Vec<PropertyDescriptor>) -> (r: Option<PropertySet>)
        ensures
            match r {
                Some(ps) => ps.descs@ == descs@ && ps.wf() && ps.values@.len() == descs@.len()
                    && forall|i: int| 0 <= i < descs@.len()
                        ==> Some(#[trigger] ps.values_data()[i]) == desc_default(descs@[i]@),
                None => exists|i: int| 0 <= i < descs@.len()
                    && desc_default((#[trigger] descs@[i])@) is None,
            },
    {
        let n = descs.len();
        let mut values: Vec<PropValue> = Vec::new();
        let mut i: usize = 0;
        while i < n
            invariant
                n == descs@.len(),
                0 <= i <= n,
                values@.len() == i,
                forall|k: int| 0 <= k < i
                    ==> Some((#[trigger] values@[k])@) == desc_default(descs@[k]@),
            decreases n - i,
        {
            let d = &descs[i];
            if !d.usable() {
                return None;
            }
            let v: PropValue = if !d.functional {
                let empty: Vec<Value> = Vec::new();
                proof {
                    assert(values_view(empty@) =~= Seq::<ValueData>::empty());
                }
                PropValue::Array(empty)
            } else if !d.required {
                PropValue::Absent
            } else {
                match default_value(d.kinds[0]) {
                    Some(v) => PropValue::Term(v),
                    None => {
                        return None;
                    },
                }
            };
            values.push(v);
            i = i + 1;
        }
        let ps = PropertySet { descs, values };
        proof {
            assert forall|i: int| 0 <= i < ps.descs@.len() implies (#[trigger] ps.descs_data()[
                i
            ]).wf() && wf_prop(ps.descs_data()[i], ps.values_data()[i]) by {
                assert(Some(ps.values_data()[i]) == desc_default(ps.descs@[i]@));
                let d = ps.descs_data()[i];
                if d.functional && d.required {
                    assert(d.kinds.contains(d.kinds[0]));
                }
            }
        }
        Some(ps)
    }

    /// A single read: the value, exactly when this property is in the
    /// single-value state and holds the requested kind; no value in
    /// every other state, and for an unknown property name.
    pub fn get(&self, name: &str, kind: ValueKind) -> (r: Option<&Value>)
        ensures
            match r {
                Some(v) => self.spec_find(name@) >= 0 && get_spec(
                    self.values_data()[self.spec_find(name@)],
                    kind,
                ) == Some(v@),
                None => self.spec_find(name@) == -1 || self.descs@.len() != self.values@.len()
                    || get_spec(self.values_data()[self.spec_find(name@)], kind) is None,
            },
    {
        let i = match self.find(name) {
            Some(i) => i,
            None => {
                return None;
            },
        };
        if i >= self.values.len() {
            return None;
        }
        match &self.values[i] {
            PropValue::Term(v) => {
                if v.kind() == kind {
                    Some(v)
                } else {
                    None
                }
            },
            _ => None,
        }
    }

    /// A collection read: the stored list, exactly when this property is
    /// in the collection state; no value in every other state, and for
    /// an unknown property name.
    pub fn get_many(&self, name: &str) -> (r: Option<&Vec<Value>>)
        ensures
            match r {
                Some(vs) => self.spec_find(name@) >= 0 && get_many_spec(
                    self.values_data()[self.spec_find(name@)],
                ) == Some(values_view(vs@)),
                None => self.spec_find(name@) == -1 || self.descs@.len() != self.values@.len()
                    || get_many_spec(self.values_data()[self.spec_find(name@)]) is None,
            },
    {
        let i = match self.find(name) {
            Some(i) => i,
            None => {
                return None;
            },
        };
        if i >= self.values.len() {
            return None;
        }
        match &self.values[i] {
            PropValue::Array(vs) => Some(vs),
            _ => None,
        }
    }

    /// A single write. The value must carry the requested kind and the
    /// kind must be declared; then the property becomes exactly that
    /// single value. Any failure leaves the set untouched: an unknown
    /// property or an undeclared kind is reported as no matching kind,
    /// a value of the wrong kind as a failed conversion.
    pub fn set(&mut self, name: &str, kind: ValueKind, item: Value) -> (r: Result<
        (),
        CodecError,
    >)
        requires
            old(self).wf(),
        ensures
            final(self).wf(),
            match r {
                Ok(_) => {
                    let i = old(self).spec_find(name@);
                    &&& i >= 0
                    &&& i < old(self).values@.len()
                    &&& old(self).descs_data()[i].kinds.contains(kind)
                    &&& kind_of(item@) == kind
                    &&& final(self).descs@ == old(self).descs@
                    &&& final(self).values@.len() == old(self).values@.len()
                    &&& final(self).values_data() == old(self).values_data().update(
                        i,
                        PropData::Term(item@),
                    )
                },
                Err(e) => *final(self) == *old(self) && {
                    let i = old(self).spec_find(name@);
                    if i == -1 || i >= old(self).values@.len() {
                        e@ == (CodecErrorData::NoMatchingKind {
                            name: name@,
                            candidates: Seq::empty(),
                        })
                    } else if kind_of(item@) != kind {
                        e@ == (CodecErrorData::ConversionFailed {
                            source: kind_of(item@),
                            target: kind,
                        })
                    } else {
                        !old(self).descs_data()[i].kinds.contains(kind) && e@
                            == (CodecErrorData::NoMatchingKind {
                            name: name@,
                            candidates: old(self).descs_data()[i].kinds,
                        })
                    }
                },
            },
    {
        let i = match self.find(name) {
            Some(i) => i,
            None => {
                return Err(CodecError::NoMatchingKind {
                    name: String::from_str(name),
                    candidates: Vec::new(),
                });
            },
        };
        if i >= self.values.len() {
            return Err(CodecError::NoMatchingKind {
                name: String::from_str(name),
                candidates: Vec::new(),
            });
        }
        if item.kind() != kind {
            return Err(CodecError::ConversionFailed { source: item.kind(), target: kind });
        }
        if !self.descs[i].declares(kind) {
            return Err(CodecError::NoMatchingKind {
                name: String::from_str(name),
                candidates: crate::codec::copy_kinds(&self.descs[i].kinds),
            });
        }
        self.values[i] = PropValue::Term(item);
        proof {
            assert(final(self).values_data() =~= old(self).values_data().update(
                i as int,
                PropData::Term(item@),
            ));
            assert forall|k: int| 0 <= k < final(self).descs@.len() implies (
                #[trigger] final(self).descs_data()[k]).wf() && wf_prop(
                final(self).descs_data()[k],
                final(self).values_data()[k],
            ) by {
                assert(old(self).descs_data()[k].wf());
                if k != i {
                    assert(final(self).values_data()[k] == old(self).values_data()[k]);
                }
            }
        }
        Ok(())
    }

    /// A collection write. Every element must carry the requested kind,
    /// which must be declared, and the property must not be functional;
    /// then the property becomes exactly that collection. Any failure
    /// leaves the set untouched.
    #[verifier::loop_isolation(false)]
    pub fn set_many(&mut self, name: &str, kind: ValueKind, items: Vec<Value>) -> (r: Result<
        (),
        CodecError,
    >)
        requires
            old(self).wf(),
        ensures
            final(self).wf(),
            match r {
                Ok(_) => {
                    let i = old(self).spec_find(name@);
                    &&& i >= 0
                    &&& i < old(self).values@.len()
                    &&& !old(self).descs_data()[i].functional
                    &&& old(self).descs_data()[i].kinds.contains(kind)
                    &&& forall|k: int| 0 <= k < items@.len()
                        ==> kind_of((#[trigger] items@[k])@) == kind
                    &&& final(self).descs@ == old(self).descs@
                    &&& final(self).values@.len() == old(self).values@.len()
                    &&& final(self).values_data() == old(self).values_data().update(
                        i,
                        PropData::Array(values_view(items@)),
                    )
                },
                Err(e) => *final(self) == *old(self) && {
                    let i = old(self).spec_find(name@);
                    if i == -1 || i >= old(self).values@.len() {
                        e@ == (CodecErrorData::NoMatchingKind {
                            name: name@,
                            candidates: Seq::empty(),
                        })
                    } else if old(self).descs_data()[i].functional {
                        e@ == (CodecErrorData::ShapeMismatch {
                            name: name@,
                            expected: kind_shape(old(self).descs_data()[i].kinds[0]),
                            found: crate::codec::WireShape::Array,
                        })
                    } else if exists|k: int| 0 <= k < items@.len()
                        && kind_of((#[trigger] items@[k])@) != kind {
                        e@ matches CodecErrorData::ConversionFailed { source: _, target }
                            && target == kind
                    } else {
                        !old(self).descs_data()[i].kinds.contains(kind) && e@
                            == (CodecErrorData::NoMatchingKind {
                            name: name@,
                            candidates: old(self).descs_data()[i].kinds,
                        })
                    }
                },
            },
    {
        let i = match self.find(name) {
            Some(i) => i,
            None => {
                return Err(CodecError::NoMatchingKind {
                    name: String::from_str(name),
                    candidates: Vec::new(),
                });
            },
        };
        if i >= self.values.len() {
            return Err(CodecError::NoMatchingKind {
                name: String::from_str(name),
                candidates: Vec::new(),
            });
        }
        if self.descs[i].functional {
            return Err(CodecError::ShapeMismatch {
                name: String::from_str(name),
                expected: kind_shape_of(self.descs[i].kinds[0]),
                found: crate::codec::WireShape::Array,
            });
        }
        let n = items.len();
        let mut k: usize = 0;
        while k < n
            invariant
                n == items@.len(),
                0 <= k <= n,
                forall|m: int| 0 <= m < k ==> kind_of((#[trigger] items@[m])@) == kind,
            decreases n - k,
        {
            if items[k].kind() != kind {
                return Err(CodecError::ConversionFailed {
                    source: items[k].kind(),
                    target: kind,
                });
            }
            k = k + 1;
        }
        if !self.descs[i].declares(kind) {
            return Err(CodecError::NoMatchingKind {
                name: String::from_str(name),
                candidates: crate::codec::copy_kinds(&self.descs[i].kinds),
            });
        }
        self.values[i] = PropValue::Array(items);
        proof {
            assert(final(self).values_data() =~= old(self).values_data().update(
                i as int,
                PropData::Array(values_view(items@)),
            ));
            assert forall|m: int| 0 <= m < final(self).descs@.len() implies (
                #[trigger] final(self).descs_data()[m]).wf() && wf_prop(
                final(self).descs_data()[m],
                final(self).values_data()[m],
            ) by {
                assert(old(self).descs_data()[m].wf());
                if m != i {
                    assert(final(self).values_data()[m] == old(self).values_data()[m]);
                }
            }
        }
        Ok(())
    }

    /// Resets an optional property to its empty default; reports whether
    /// anything could be reset. A required or unknown property is left
    /// alone.
    pub fn delete(&mut self, name: &str) -> (r: bool)
        requires
            old(self).wf(),
        ensures
            final(self).wf(),
            ({
                let i = old(self).spec_find(name@);
                if i >= 0 && i < old(self).values@.len() && !old(self).descs_data()[i].required {
                    r && final(self).descs@ == old(self).descs@ && final(self).values_data()
                        == old(self).values_data().update(
                        i,
                        empty_default(old(self).descs_data()[i]),
                    )
                } else {
                    !r && *final(self) == *old(self)
                }
            }),
    {
        let i = match self.find(name) {
            Some(i) => i,
            None => {
                return false;
            },
        };
        if i >= self.values.len() {
            return false;
        }
        if self.descs[i].required {
            return false;
        }
        if self.descs[i].functional {
            self.values[i] = PropValue::Absent;
        } else {
            let empty: Vec<Value> = Vec::new();
            proof {
                assert(values_view(empty@) =~= Seq::<ValueData>::empty());
            }
            self.values[i] = PropValue::Array(empty);
        }
        proof {
            assert(final(self).values_data() =~= old(self).values_data().update(
                i as int,
                empty_default(old(self).descs_data()[i as int]),
            ));
            assert forall|k: int| 0 <= k < final(self).descs@.len() implies (
                #[trigger] final(self).descs_data()[k]).wf() && wf_prop(
                final(self).descs_data()[k],
                final(self).values_data()[k],
            ) by {
                assert(old(self).descs_data()[k].wf());
                if k != i {
                    assert(final(self).values_data()[k] == old(self).values_data()[k]);
                }
            }
        }
        true
    }

    /// Decodes a whole document object against a property table: each
    /// declared property takes its value from the first present wire key
    /// among its canonical key and its aliases, in that order, consuming
    /// the field; unknown fields are ignored. Decoding aborts on the
    /// first property that fails.
    #[verifier::loop_isolation(false)]
    pub fn decode_object(descs: Vec<PropertyDescriptor>, fields: Vec<(String, JsonValue)>) -> (r:
        Result<PropertySet, CodecError>)
        requires
            forall|i: int| 0 <= i < descs@.len() ==> (#[trigger] descs@[i])@.wf(),
        ensures
            match r {
                Ok(ps) => ps.descs@ == descs@ && ps.wf() && doc_decode(
                    descs_view(descs@),
                    deep_fields(fields@),
                ) == Ok::<Seq<PropData>, CodecErrorData>(ps.values_data()),
                Err(e) => doc_decode(descs_view(descs@), deep_fields(fields@))
                    == Err::<Seq<PropData>, CodecErrorData>(e@),
            },
    {
        let ghost all = descs_view(descs@);
        let ghost orig_fields = deep_fields(fields@);
        let mut wire = fields;
        let mut values: Vec<PropValue> = Vec::new();
        let n = descs.len();
        let mut i: usize = 0;
        proof {
            assert(all.subrange(0, n as int) =~= all);
            assert(values_data_of(values@) =~= Seq::<PropData>::empty());
        }
        while i < n
            invariant
                n == descs@.len(),
                0 <= i <= n,
                all == descs_view(descs@),
                forall|k: int| 0 <= k < n ==> (#[trigger] descs@[k])@.wf(),
                values@.len() == i,
                forall|k: int| 0 <= k < i ==> wf_prop(
                    descs@[k]@,
                    (#[trigger] values@[k])@,
                ),
                doc_decode(all, orig_fields) == (match doc_decode(
                    all.subrange(i as int, n as int),
                    deep_fields(wire@),
                ) {
                    Ok(ps) => Ok::<Seq<PropData>, CodecErrorData>(values_data_of(values@) + ps),
                    Err(e) => Err::<Seq<PropData>, CodecErrorData>(e),
                }),
            decreases n - i,
        {
            let ghost pending = all.subrange(i as int, n as int);
            proof {
                assert(pending[0] == descs@[i as int]@);
                assert(pending.subrange(1, pending.len() as int)
                    =~= all.subrange(i + 1, n as int));
            }
            let d = &descs[i];
            let m = find_match(d, &wire);
            let taken: Option<JsonValue> = match m {
                Some(mi) => {
                    let ghost before = wire@;
                    let pair = wire.remove(mi);
                    proof {
                        assert(wire@ =~= before.remove(mi as int));
                        lemma_deep_fields_remove(before, mi as int);
                        crate::json::lemma_deep_fields_index(before);
                        assert(deep_fields(before)[mi as int]
                            == (before[mi as int].0@, before[mi as int].1.deep()));
                        assert(pair.1@ == deep_fields(before)[mi as int].1);
                    }
                    Some(pair.1)
                },
                None => None,
            };
            let decoded = match crate::codec::decode_property(d, taken) {
                Ok(p) => p,
                Err(e) => {
                    return Err(e);
                },
            };
            let ghost vd0 = values_data_of(values@);
            values.push(decoded);
            i = i + 1;
            proof {
                assert(values_data_of(values@) =~= vd0.push(decoded@));
                match doc_decode(all.subrange(i as int, n as int), deep_fields(wire@)) {
                    Ok(ps) => {
                        assert(vd0 + (seq![decoded@] + ps) =~= vd0.push(decoded@) + ps);
                    },
                    Err(_) => {},
                }
            }
        }
        proof {
            assert(all.subrange(n as int, n as int) =~= Seq::<DescData>::empty());
            assert(values_data_of(values@) + Seq::<PropData>::empty()
                =~= values_data_of(values@));
        }
        let ps = PropertySet { descs, values };
        Ok(ps)
    }

    /// Encodes the whole set as a document object: each property's field
    /// under its canonical wire key, in table order, with omitted fields
    /// left out entirely.
    #[verifier::loop_isolation(false)]
    pub fn encode_object(self) -> (r: Vec<(String, JsonValue)>)
        requires
            self.wf(),
        ensures
            deep_fields(r@) == doc_encode(self.descs_data(), self.values_data()),
    {
        let ghost all = self.descs_data();
        let ghost vals = self.values_data();
        let mut descs = self.descs;
        let mut values = self.values;
        let mut out: Vec<(String, JsonValue)> = Vec::new();
        proof {
            assert(descs_view(descs@) =~= all);
            assert(values_data_of(values@) =~= vals);
            assert(deep_fields(out@) =~= Seq::<(Seq<char>, JsonData)>::empty());
            assert(Seq::<(Seq<char>, JsonData)>::empty() + doc_encode(all, vals)
                =~= doc_encode(all, vals));
        }
        while descs.len() > 0
            invariant
                descs@.len() == values@.len(),
                doc_encode(all, vals) == deep_fields(out@) + doc_encode(
                    descs_view(descs@),
                    values_data_of(values@),
                ),
            decreases descs@.len(),
        {
            let ghost dv0 = descs_view(descs@);
            let ghost vv0 = values_data_of(values@);
            let d = descs.remove(0);
            let v = values.remove(0);
            proof {
                assert(descs_view(descs@) =~= dv0.subrange(1, dv0.len() as int));
                assert(values_data_of(values@) =~= vv0.subrange(1, vv0.len() as int));
                assert(dv0[0] == d@);
                assert(vv0[0] == v@);
            }
            let key = d.canonical_wire_key();
            match crate::codec::encode_property(&d, v) {
                Some(jv) => {
                    let ghost out0 = out@;
                    out.push((key, jv));
                    proof {
                        crate::json::lemma_deep_fields_index(out@);
                        crate::json::lemma_deep_fields_index(out0);
                        assert(deep_fields(out@) =~= deep_fields(out0).push((key@, jv@)));
                        assert(deep_fields(out0) + (seq![(wire_key(d@), jv@)] + doc_encode(
                            descs_view(descs@),
                            values_data_of(values@),
                        )) =~= deep_fields(out0).push((key@, jv@)) + doc_encode(
                            descs_view(descs@),
                            values_data_of(values@),
                        ));
                    }
                },
                None => {},
            }
        }
        proof {
            assert(descs_view(descs@) =~= Seq::<DescData>::empty());
            assert(values_data_of(values@) =~= Seq::<PropData>::empty());
            assert(deep_fields(out@) + Seq::<(Seq<char>, JsonData)>::empty()
                =~= deep_fields(out@));
        }
        out
    }

    /// A fresh set over a table whose every declaration materializes.
    pub fn fresh(descs: Vec<PropertyDescriptor>) -> (r: PropertySet)
        requires
            forall|i: int| 0 <= i < descs@.len()
                ==> desc_default((#[trigger] descs@[i])@) is Some,
        ensures
            r.descs@ == descs@ && r.wf() && r.values@.len() == descs@.len(),
            forall|i: int| 0 <= i < descs@.len()
                ==> Some(#[trigger] r.values_data()[i]) == desc_default(descs@[i]@),
    {
        match PropertySet::new(descs) {
            Some(ps) => ps,
            None => vstd::pervasive::unreached(),
        }
    }

    /// The index of the property named `name`, if any.
    fn find(&self, name: &str) -> (r: Option<usize>)
        ensures
            match r {
                Some(i) => self.spec_find(name@) == i as int && i < self.descs@.len(),
                None => self.spec_find(name@) == -1,
            },
    {
        let n = self.descs.len();
        let mut i: usize = 0;
        while i < n
            invariant
                n == self.descs@.len(),
                0 <= i <= n,
                forall|j: int| 0 <= j < i ==> (#[trigger] self.descs_data()[j]).name != name@,
            decreases n - i,
        {
            if crate::codec::str_eq_string(&self.descs[i].name, name) {
                proof {
                    lemma_find_name_is(self.descs_data(), name@, i as int);
                }
                return Some(i);
            }
            i = i + 1;
        }
        proof {
            lemma_find_name_none(self.descs_data(), name@);
        }
        None
    }
}

} // verus!

verus! {

impl PropertyDescriptor {
    /// The canonical wire key of this declaration.
    pub fn canonical_wire_key(&self) -> (r: String)
        ensures
            r@ == wire_key(self@),
    {
        match &self.rename {
            Some(r) => r.clone(),
            None => crate::text::camel_key(self.name.as_str()),
        }
    }
}

/// The index of the first field stored under `key`, if any.
fn find_field_idx(fields: &Vec<(String, JsonValue)>, key: &str) -> (r: Option<usize>)
    ensures
        match r {
            Some(i) => find_field(deep_fields(fields@), key@) == i as int
                && i < fields@.len(),
            None => find_field(deep_fields(fields@), key@) == -1,
        },
{
    proof {
        crate::json::lemma_deep_fields_index(fields@);
    }
    let n = fields.len();
    let mut i: usize = 0;
    while i < n
        invariant
            n == fields@.len(),
            0 <= i <= n,
            forall|j: int| 0 <= j < i ==> (#[trigger] fields@[j]).0@ != key@,
        decreases n - i,
    {
        if crate::codec::str_eq_string(&fields[i].0, key) {
            proof {
                crate::json::lemma_deep_fields_index(fields@);
                assert(forall|j: int| 0 <= j < i
                    ==> (#[trigger] deep_fields(fields@)[j]).0 != key@);
                lemma_find_field_is(deep_fields(fields@), key@, i as int);
            }
            return Some(i);
        }
        i = i + 1;
    }
    proof {
        crate::json::lemma_deep_fields_index(fields@);
        assert(forall|j: int| 0 <= j < fields@.len()
            ==> (#[trigger] deep_fields(fields@)[j]).0 != key@);
        lemma_find_field_none(deep_fields(fields@), key@);
    }
    None
}

/// The field a declaration reads from, if any is present.
#[verifier::loop_isolation(false)]
fn find_match(d: &PropertyDescriptor, fields: &Vec<(String, JsonValue)>) -> (r: Option<usize>)
    ensures
        match r {
            Some(i) => match_index(d@, deep_fields(fields@)) == i as int && i < fields@.len(),
            None => match_index(d@, deep_fields(fields@)) == -1,
        },
{
    let key = d.canonical_wire_key();
    match find_field_idx(fields, key.as_str()) {
        Some(i) => {
            return Some(i);
        },
        None => {},
    }
    let n = d.aliases.len();
    let mut t: usize = 0;
    proof {
        assert(d@.aliases.subrange(0, n as int) =~= d@.aliases);
    }
    while t < n
        invariant
            0 <= t <= n,
            n == d@.aliases.len(),
            alias_find(d@.aliases, deep_fields(fields@)) == alias_find(
                d@.aliases.subrange(t as int, n as int),
                deep_fields(fields@),
            ),
        decreases n - t,
    {
        let ghost pend = d@.aliases.subrange(t as int, n as int);
        proof {
            assert(pend[0] == d@.aliases[t as int]);
            assert(pend.subrange(1, pend.len() as int)
                =~= d@.aliases.subrange(t + 1, n as int));
        }
        match find_field_idx(fields, alias_at(d, t).as_str()) {
            Some(i) => {
                return Some(i);
            },
            None => {},
        }
        t = t + 1;
    }
    proof {
        assert(d@.aliases.subrange(n as int, n as int) =~= Seq::<Seq<char>>::empty());
    }
    None
}

/// The alias of `d` at `t`.
fn alias_at(d: &PropertyDescriptor, t: usize) -> (r: &String)
    requires
        t < d.aliases@.len(),
    ensures
        r@ == d@.aliases[t as int],
{
    &d.aliases[t]
}

} // verus!
