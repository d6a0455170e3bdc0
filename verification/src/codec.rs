//! The property cardinality/type codec.
//!
//! A property descriptor names a property, the value kinds it admits (in
//! declaration order), and its `functional` and `required` flags. From
//! those the codec fixes the wire shape: a functional property is a bare
//! value; a non-functional one is either a bare value (`Term`) or a JSON
//! array (`Array`); a missing optional property is the empty default; a
//! missing required one is an error. Decoding accepts every shape the
//! vocabulary permits, and encoding emits the minimal one: a `Term`
//! encodes bare, an empty optional collection is omitted entirely, and a
//! one-element array stays an array. A poly-typed property commits to the
//! first declared kind that matches, so declaration order is contract.

use vstd::prelude::*;

use crate::json::{deep_fields, deep_list, JsonData, JsonNum, JsonValue};
use crate::primitives::{RdfLangString, XsdAnyUri, XsdFloat, XsdNonNegativeInteger, XsdString};
use crate::xsd_datetime::{rfc3339_instant, rfc3339_text, XsdDateTime};
use crate::xsd_duration::{fits_i64, fmt_duration, parse_duration, XsdDuration};

verus! {

/// The closed set of leaf value kinds a property may admit.
#[derive(Clone, Copy, Debug, PartialEq, Eq, Structural)]
pub enum ValueKind {
    /// Plain text, `xsd:string`.
    Text,
    /// Language-tagged text, `rdf:langString`.
    LangString,
    /// URI text, `xsd:anyURI`.
    AnyUri,
    /// A non-negative integer.
    NonNegativeInteger,
    /// A floating point number.
    Float,
    /// A zone-aware timestamp, `xsd:dateTime`.
    DateTime,
    /// A duration, `xsd:duration`.
    Duration,
    /// A boxed document: a nested object or link, kept as raw JSON.
    Document,
}

/// A typed property value of one kind.
pub enum Value {
    Text(XsdString),
    LangString(RdfLangString),
    AnyUri(XsdAnyUri),
    NonNegativeInteger(XsdNonNegativeInteger),
    Float(XsdFloat),
    DateTime(XsdDateTime),
    Duration(XsdDuration),
    Document(JsonValue),
}

/// The mathematical value of a [`Value`].
pub enum ValueData {
    Text(Seq<char>),
    LangString { value: Seq<char>, language: Seq<char> },
    AnyUri(Seq<char>),
    NonNegativeInteger(u64),
    Float(JsonNum),
    DateTime { nanos: i128, offset_seconds: i32, text: Seq<char> },
    Duration(i64),
    Document(JsonData),
}

impl View for Value {
    type V = ValueData;

    open spec fn view(&self) -> ValueData {
        match self {
            Value::Text(s) => ValueData::Text(s@),
            Value::LangString(l) => ValueData::LangString {
                value: l.value@,
                language: l.language@,
            },
            Value::AnyUri(u) => ValueData::AnyUri(u@),
            Value::NonNegativeInteger(n) => ValueData::NonNegativeInteger(n.0),
            Value::Float(f) => ValueData::Float(f.0),
            Value::DateTime(d) => ValueData::DateTime {
                nanos: d.nanos,
                offset_seconds: d.offset_seconds,
                text: d.text@,
            },
            Value::Duration(d) => ValueData::Duration(d.seconds),
            Value::Document(j) => ValueData::Document(j@),
        }
    }
}

/// The kind a value belongs to.
pub open spec fn kind_of(v: ValueData) -> ValueKind {
    match v {
        ValueData::Text(_) => ValueKind::Text,
        ValueData::LangString { .. } => ValueKind::LangString,
        ValueData::AnyUri(_) => ValueKind::AnyUri,
        ValueData::NonNegativeInteger(_) => ValueKind::NonNegativeInteger,
        ValueData::Float(_) => ValueKind::Float,
        ValueData::DateTime { .. } => ValueKind::DateTime,
        ValueData::Duration(_) => ValueKind::Duration,
        ValueData::Document(_) => ValueKind::Document,
    }
}

/// Whether a value is internally consistent: a timestamp's text is the
/// rendering of its instant; everything else carries no obligation.
pub open spec fn wf_value(v: ValueData) -> bool {
    match v {
        ValueData::DateTime { nanos, offset_seconds, text } => rfc3339_text(
            nanos,
            offset_seconds,
        ) == Some(text),
        _ => true,
    }
}

/// The top-level shape of a JSON value, for error reports.
#[derive(Clone, Copy, Debug, PartialEq, Eq, Structural)]
pub enum WireShape {
    Null,
    Boolean,
    Number,
    Text,
    Array,
    Object,
}

/// The shape of a JSON value.
pub open spec fn wire_shape(j: JsonData) -> WireShape {
    match j {
        JsonData::Null => WireShape::Null,
        JsonData::Bool(_) => WireShape::Boolean,
        JsonData::Num(_) => WireShape::Number,
        JsonData::Str(_) => WireShape::Text,
        JsonData::Arr(_) => WireShape::Array,
        JsonData::Obj(_) => WireShape::Object,
    }
}

/// The wire shape a kind decodes from.
pub open spec fn kind_shape(k: ValueKind) -> WireShape {
    match k {
        ValueKind::Text => WireShape::Text,
        ValueKind::LangString => WireShape::Object,
        ValueKind::AnyUri => WireShape::Text,
        ValueKind::NonNegativeInteger => WireShape::Number,
        ValueKind::Float => WireShape::Number,
        ValueKind::DateTime => WireShape::Text,
        ValueKind::Duration => WireShape::Text,
        ValueKind::Document => WireShape::Object,
    }
}

/// A decode or accessor failure.
#[derive(Debug)]
pub enum CodecError {
    /// A required property was absent.
    MissingRequiredProperty { name: String },
    /// The wire shape cannot represent the property at all.
    ShapeMismatch { name: String, expected: WireShape, found: WireShape },
    /// No declared kind of a poly-typed property matched the wire value.
    NoMatchingKind { name: String, candidates: Vec<ValueKind> },
    /// A write supplied a value of an undeclared kind.
    ConversionFailed { source: ValueKind, target: ValueKind },
    /// Duration text did not parse.
    MalformedDuration { text: String },
    /// Timestamp text did not parse.
    MalformedTimestamp { text: String },
}

/// The mathematical value of a [`CodecError`].
pub enum CodecErrorData {
    MissingRequiredProperty { name: Seq<char> },
    ShapeMismatch { name: Seq<char>, expected: WireShape, found: WireShape },
    NoMatchingKind { name: Seq<char>, candidates: Seq<ValueKind> },
    ConversionFailed { source: ValueKind, target: ValueKind },
    MalformedDuration { text: Seq<char> },
    MalformedTimestamp { text: Seq<char> },
}

impl View for CodecError {
    type V = CodecErrorData;

    open spec fn view(&self) -> CodecErrorData {
        match self {
            CodecError::MissingRequiredProperty { name } =>
                CodecErrorData::MissingRequiredProperty { name: name@ },
            CodecError::ShapeMismatch { name, expected, found } =>
                CodecErrorData::ShapeMismatch { name: name@, expected: *expected, found: *found },
            CodecError::NoMatchingKind { name, candidates } =>
                CodecErrorData::NoMatchingKind { name: name@, candidates: candidates@ },
            CodecError::ConversionFailed { source, target } =>
                CodecErrorData::ConversionFailed { source: *source, target: *target },
            CodecError::MalformedDuration { text } =>
                CodecErrorData::MalformedDuration { text: text@ },
            CodecError::MalformedTimestamp { text } =>
                CodecErrorData::MalformedTimestamp { text: text@ },
        }
    }
}

/// The first value stored under `key`, if any.
pub open spec fn obj_get(fields: Seq<(Seq<char>, JsonData)>, key: Seq<char>) -> Option<JsonData>
    decreases fields.len(),
{
    if fields.len() == 0 {
        None
    } else if fields[0].0 == key {
        Some(fields[0].1)
    } else {
        obj_get(fields.subrange(1, fields.len() as int), key)
    }
}

/// What one kind decodes a wire value to, if it matches.
pub open spec fn kind_decode(k: ValueKind, j: JsonData) -> Option<ValueData> {
    match k {
        ValueKind::Text => match j {
            JsonData::Str(s) => Some(ValueData::Text(s)),
            _ => None,
        },
        ValueKind::AnyUri => match j {
            JsonData::Str(s) => Some(ValueData::AnyUri(s)),
            _ => None,
        },
        ValueKind::LangString => match j {
            JsonData::Obj(fields) => match (obj_get(fields, "@value"@), obj_get(
                fields,
                "@language"@,
            )) {
                (Some(JsonData::Str(v)), Some(JsonData::Str(l))) => Some(
                    ValueData::LangString { value: v, language: l },
                ),
                _ => None,
            },
            _ => None,
        },
        ValueKind::NonNegativeInteger => match j {
            JsonData::Num(JsonNum::Uint(n)) => Some(ValueData::NonNegativeInteger(n)),
            _ => None,
        },
        ValueKind::Float => match j {
            JsonData::Num(n) => Some(ValueData::Float(n)),
            _ => None,
        },
        ValueKind::DateTime => match j {
            JsonData::Str(s) => match rfc3339_instant(s) {
                Some(p) => match rfc3339_text(p.0, p.1) {
                    Some(t) => Some(
                        ValueData::DateTime { nanos: p.0, offset_seconds: p.1, text: t },
                    ),
                    None => None,
                },
                None => None,
            },
            _ => None,
        },
        ValueKind::Duration => match j {
            JsonData::Str(s) => match parse_duration(s) {
                Some(v) => if fits_i64(v) {
                    Some(ValueData::Duration(v as i64))
                } else {
                    None
                },
                None => None,
            },
            _ => None,
        },
        ValueKind::Document => match j {
            JsonData::Obj(_) => Some(ValueData::Document(j)),
            _ => None,
        },
    }
}

/// What a poly-typed property decodes a wire value to: the first declared
/// kind that matches wins.
pub open spec fn union_decode(kinds: Seq<ValueKind>, j: JsonData) -> Option<ValueData>
    decreases kinds.len(),
{
    if kinds.len() == 0 {
        None
    } else {
        match kind_decode(kinds[0], j) {
            Some(v) => Some(v),
            None => union_decode(kinds.subrange(1, kinds.len() as int), j),
        }
    }
}

/// Elementwise union decode of an array; fails if any element fails.
pub open spec fn list_decode(kinds: Seq<ValueKind>, items: Seq<JsonData>) -> Option<
    Seq<ValueData>,
>
    decreases items.len(),
{
    if items.len() == 0 {
        Some(Seq::empty())
    } else {
        match union_decode(kinds, items[0]) {
            None => None,
            Some(v) => match list_decode(kinds, items.subrange(1, items.len() as int)) {
                None => None,
                Some(rest) => Some(seq![v] + rest),
            },
        }
    }
}

/// The wire value a typed value encodes as.
pub open spec fn value_encode(v: ValueData) -> JsonData {
    match v {
        ValueData::Text(s) => JsonData::Str(s),
        ValueData::AnyUri(s) => JsonData::Str(s),
        ValueData::LangString { value, language } => JsonData::Obj(
            seq![("@value"@, JsonData::Str(value)), ("@language"@, JsonData::Str(language))],
        ),
        ValueData::NonNegativeInteger(n) => JsonData::Num(JsonNum::Uint(n)),
        ValueData::Float(n) => JsonData::Num(n),
        ValueData::DateTime { text, .. } => JsonData::Str(text),
        ValueData::Duration(secs) => JsonData::Str(fmt_duration(secs as int)),
        ValueData::Document(j) => j,
    }
}

/// Elementwise encode of an array.
pub open spec fn list_encode(vs: Seq<ValueData>) -> Seq<JsonData>
    decreases vs.len(),
{
    if vs.len() == 0 {
        Seq::empty()
    } else {
        seq![value_encode(vs[0])] + list_encode(vs.subrange(1, vs.len() as int))
    }
}

/// If `key` first appears at `f`, the lookup returns that field's value.
proof fn lemma_obj_get_at(fields: Seq<(Seq<char>, JsonData)>, key: Seq<char>, f: int)
    requires
        0 <= f < fields.len(),
        fields[f].0 == key,
        forall|i: int| 0 <= i < f ==> (#[trigger] fields[i]).0 != key,
    ensures
        obj_get(fields, key) == Some(fields[f].1),
    decreases fields.len(),
{
    if f > 0 {
        let t = fields.subrange(1, fields.len() as int);
        assert(forall|i: int| 0 <= i < f - 1 ==> t[i] == fields[i + 1]);
        lemma_obj_get_at(t, key, f - 1);
    }
}

/// If no field is named `key`, the lookup misses.
proof fn lemma_obj_get_none(fields: Seq<(Seq<char>, JsonData)>, key: Seq<char>)
    requires
        forall|i: int| 0 <= i < fields.len() ==> (#[trigger] fields[i]).0 != key,
    ensures
        obj_get(fields, key) is None,
    decreases fields.len(),
{
    if fields.len() > 0 {
        let t = fields.subrange(1, fields.len() as int);
        assert(forall|i: int| 0 <= i < t.len() ==> t[i] == fields[i + 1]);
        lemma_obj_get_none(t, key);
    }
}

/// Whether two strings hold the same text.
pub fn str_eq_string(a: &String, b: &str) -> (r: bool)
    ensures
        r == (a@ == b@),
{
    let bs = String::from_str(b);
    a.eq(&bs)
}

/// The index of the first field named `key`, if any.
fn find_key(fields: &Vec<(String, JsonValue)>, key: &str) -> (r: Option<usize>)
    ensures
        match r {
            Some(i) => i < fields@.len()
                && obj_get(deep_fields(fields@), key@) == Some(fields@[i as int].1@)
                && fields@[i as int].0@ == key@,
            None => obj_get(deep_fields(fields@), key@) is None,
        },
{
    proof {
        crate::json::lemma_deep_fields_index(fields@);
    }
    let n = fields.len();
    let mut i: usize = 0;
    while i < n
        invariant
            n == fields@.len(),
            0 <= i <= n,
            forall|j: int| 0 <= j < i ==> (#[trigger] fields@[j]).0@ != key@,
        decreases n - i,
    {
        if str_eq_string(&fields[i].0, key) {
            proof {
                crate::json::lemma_deep_fields_index(fields@);
                assert(forall|j: int| 0 <= j < i
                    ==> (#[trigger] deep_fields(fields@)[j]).0 != key@);
                lemma_obj_get_at(deep_fields(fields@), key@, i as int);
            }
            return Some(i);
        }
        i = i + 1;
    }
    proof {
        crate::json::lemma_deep_fields_index(fields@);
        assert(forall|j: int| 0 <= j < fields@.len()
            ==> (#[trigger] deep_fields(fields@)[j]).0 != key@);
        lemma_obj_get_none(deep_fields(fields@), key@);
    }
    None
}

/// Decodes a wire value as one kind, or hands the value back untouched.
pub fn try_kind(k: ValueKind, v: JsonValue) -> (r: Result<Value, JsonValue>)
    ensures
        match r {
            Ok(val) => kind_decode(k, v@) == Some(val@) && wf_value(val@),
            Err(back) => back@ == v@ && kind_decode(k, v@) is None,
        },
{
    match k {
        ValueKind::Text => match v {
            JsonValue::Str(s) => Ok(Value::Text(XsdString(s))),
            other => Err(other),
        },
        ValueKind::AnyUri => match v {
            JsonValue::Str(s) => Ok(Value::AnyUri(XsdAnyUri(s))),
            other => Err(other),
        },
        ValueKind::LangString => {
            match &v {
                JsonValue::Obj(fields) => {
                    let value: Option<String> = match find_key(fields, "@value") {
                        Some(i) => match &fields[i].1 {
                            JsonValue::Str(s) => Some(s.clone()),
                            _ => None,
                        },
                        None => None,
                    };
                    let language: Option<String> = match find_key(fields, "@language") {
                        Some(i) => match &fields[i].1 {
                            JsonValue::Str(s) => Some(s.clone()),
                            _ => None,
                        },
                        None => None,
                    };
                    match (value, language) {
                        (Some(val), Some(lang)) => Ok(Value::LangString(RdfLangString {
                            value: XsdString(val),
                            language: XsdString(lang),
                        })),
                        _ => Err(v),
                    }
                },
                _ => Err(v),
            }
        },
        ValueKind::NonNegativeInteger => match v {
            JsonValue::Num(JsonNum::Uint(n)) => Ok(Value::NonNegativeInteger(
                XsdNonNegativeInteger(n),
            )),
            other => Err(other),
        },
        ValueKind::Float => match v {
            JsonValue::Num(n) => Ok(Value::Float(XsdFloat(n))),
            other => Err(other),
        },
        ValueKind::DateTime => match v {
            JsonValue::Str(s) => match XsdDateTime::parse(s.as_str()) {
                Ok(d) => Ok(Value::DateTime(d)),
                Err(_) => Err(JsonValue::Str(s)),
            },
            other => Err(other),
        },
        ValueKind::Duration => match v {
            JsonValue::Str(s) => match XsdDuration::parse(s.as_str()) {
                Ok(d) => Ok(Value::Duration(d)),
                Err(_) => Err(JsonValue::Str(s)),
            },
            other => Err(other),
        },
        ValueKind::Document => match &v {
            JsonValue::Obj(_) => Ok(Value::Document(v)),
            _ => Err(v),
        },
    }
}

/// Decodes a wire value as the first declared kind that matches, or
/// hands the value back untouched.
pub fn try_union(kinds: &Vec<ValueKind>, v: JsonValue) -> (r: Result<Value, JsonValue>)
    ensures
        match r {
            Ok(val) => union_decode(kinds@, v@) == Some(val@) && wf_value(val@),
            Err(back) => back@ == v@ && union_decode(kinds@, v@) is None,
        },
{
    let n = kinds.len();
    let mut i: usize = 0;
    let mut cur = v;
    proof {
        assert(kinds@.subrange(0, n as int) =~= kinds@);
    }
    while i < n
        invariant
            n == kinds@.len(),
            0 <= i <= n,
            cur@ == v@,
            union_decode(kinds@, v@) == union_decode(
                kinds@.subrange(i as int, n as int),
                v@,
            ),
        decreases n - i,
    {
        let ghost pending = kinds@.subrange(i as int, n as int);
        cur = match try_kind(kinds[i], cur) {
            Ok(val) => {
                proof {
                    assert(pending[0] == kinds@[i as int]);
                }
                return Ok(val);
            },
            Err(back) => back,
        };
        i = i + 1;
        proof {
            assert(pending[0] == kinds@[i - 1]);
            assert(pending.subrange(1, pending.len() as int)
                =~= kinds@.subrange(i as int, n as int));
        }
    }
    proof {
        assert(kinds@.subrange(n as int, n as int) =~= Seq::<ValueKind>::empty());
    }
    Err(cur)
}

/// The wire value a typed value encodes as.
pub fn value_to_json(v: Value) -> (r: JsonValue)
    ensures
        r@ == value_encode(v@),
{
    match v {
        Value::Text(s) => JsonValue::Str(s.0),
        Value::AnyUri(u) => JsonValue::Str(u.0),
        Value::LangString(l) => {
            let mut fields: Vec<(String, JsonValue)> = Vec::new();
            fields.push((String::from_str("@value"), JsonValue::Str(l.value.0)));
            fields.push((String::from_str("@language"), JsonValue::Str(l.language.0)));
            let r = JsonValue::Obj(fields);
            proof {
                crate::json::lemma_deep_fields_index(fields@);
                assert(deep_fields(fields@) =~= seq![
                    ("@value"@, JsonData::Str(l.value@)),
                    ("@language"@, JsonData::Str(l.language@)),
                ]);
            }
            r
        },
        Value::NonNegativeInteger(n) => JsonValue::Num(JsonNum::Uint(n.0)),
        Value::Float(f) => JsonValue::Num(f.0),
        Value::DateTime(d) => JsonValue::Str(d.text),
        Value::Duration(d) => JsonValue::Str(d.format()),
        Value::Document(j) => j,
    }
}

/// One declared property: its name, the value kinds it admits in
/// declaration order, its cardinality flags, and its wire naming.
#[derive(Debug)]
pub struct PropertyDescriptor {
    /// The property name, as declared.
    pub name: String,
    /// The admissible value kinds, in declaration order.
    pub kinds: Vec<ValueKind>,
    /// Whether the property has at most one value.
    pub functional: bool,
    /// Whether the property must be present.
    pub required: bool,
    /// An explicit wire key overriding the derived one.
    pub rename: Option<String>,
    /// Alternative wire keys accepted on decode, in declared order.
    pub aliases: Vec<String>,
}

/// The mathematical value of a [`PropertyDescriptor`].
pub struct DescData {
    pub name: Seq<char>,
    pub kinds: Seq<ValueKind>,
    pub functional: bool,
    pub required: bool,
    pub rename: Option<Seq<char>>,
    pub aliases: Seq<Seq<char>>,
}

impl View for PropertyDescriptor {
    type V = DescData;

    open spec fn view(&self) -> DescData {
        DescData {
            name: self.name@,
            kinds: self.kinds@,
            functional: self.functional,
            required: self.required,
            rename: match self.rename {
                Some(ref r) => Some(r@),
                None => None,
            },
            aliases: Seq::new(self.aliases@.len(), |i: int| self.aliases@[i]@),
        }
    }
}

/// Whether a kind list is a usable declaration: non-empty and free of
/// repeats.
pub open spec fn kinds_wf(kinds: Seq<ValueKind>) -> bool {
    &&& kinds.len() > 0
    &&& forall|i: int, j: int| 0 <= i < j < kinds.len() ==> kinds[i] != kinds[j]
}

/// Whether two declared kinds share a wire shape, so that the first
/// declared one shadows the other on decode.
pub open spec fn kinds_overlap(kinds: Seq<ValueKind>) -> bool {
    exists|i: int, j: int| 0 <= i < j < kinds.len()
        && kind_shape(#[trigger] kinds[i]) == kind_shape(#[trigger] kinds[j])
}

impl DescData {
    /// A usable declaration.
    pub open spec fn wf(self) -> bool {
        kinds_wf(self.kinds)
    }
}

impl PropertyDescriptor {
    /// A descriptor for `name` admitting `kinds`. Rejects a declaration
    /// with no kinds or a repeated kind, and — because decoding commits
    /// to the first declared kind that matches — also one where two
    /// declared kinds share a wire shape. Use
    /// [`Self::new_with_overlap`] to accept that ambiguity knowingly.
    pub fn new(name: String, kinds: Vec<ValueKind>, functional: bool, required: bool) -> (r:
        Option<PropertyDescriptor>)
        ensures
            match r {
                Some(d) => kinds_wf(kinds@) && !kinds_overlap(kinds@) && d@.name == name@
                    && d@.kinds == kinds@ && d@.functional == functional
                    && d@.required == required && d@.rename is None
                    && d@.aliases.len() == 0 && d@.wf(),
                None => !kinds_wf(kinds@) || kinds_overlap(kinds@),
            },
    {
        if Self::check_kinds(&kinds, true) {
            Some(PropertyDescriptor {
                name,
                kinds,
                functional,
                required,
                rename: None,
                aliases: Vec::new(),
            })
        } else {
            None
        }
    }

    /// A descriptor whose declared kinds may share a wire shape; the
    /// declaration-order tie-break then decides every ambiguous value.
    pub fn new_with_overlap(
        name: String,
        kinds: Vec<ValueKind>,
        functional: bool,
        required: bool,
    ) -> (r: Option<PropertyDescriptor>)
        ensures
            match r {
                Some(d) => kinds_wf(kinds@) && d@.name == name@ && d@.kinds == kinds@
                    && d@.functional == functional && d@.required == required
                    && d@.rename is None && d@.aliases.len() == 0 && d@.wf(),
                None => !kinds_wf(kinds@),
            },
    {
        if Self::check_kinds(&kinds, false) {
            Some(PropertyDescriptor {
                name,
                kinds,
                functional,
                required,
                rename: None,
                aliases: Vec::new(),
            })
        } else {
            None
        }
    }

    /// Whether `kinds` is non-empty, free of repeats and, when
    /// `no_overlap` is asked, free of shared wire shapes.
    fn check_kinds(kinds: &Vec<ValueKind>, no_overlap: bool) -> (r: bool)
        ensures
            r == (kinds_wf(kinds@) && (no_overlap ==> !kinds_overlap(kinds@))),
    {
        let n = kinds.len();
        if n == 0 {
            return false;
        }
        let mut i: usize = 0;
        while i < n
            invariant
                n == kinds@.len(),
                0 <= i <= n,
                forall|a: int, b: int| 0 <= a < b < n && a < i ==> kinds@[a] != kinds@[b],
                no_overlap ==> forall|a: int, b: int| 0 <= a < b < n && a < i
                    ==> kind_shape(#[trigger] kinds@[a]) != kind_shape(#[trigger] kinds@[b]),
            decreases n - i,
        {
            let mut j: usize = i + 1;
            while j < n
                invariant
                    n == kinds@.len(),
                    0 <= i < j <= n,
                    forall|b: int| i < b < j ==> kinds@[i as int] != kinds@[b],
                    no_overlap ==> forall|b: int| i < b < j
                        ==> kind_shape(kinds@[i as int]) != kind_shape(#[trigger] kinds@[b]),
                decreases n - j,
            {
                if kinds[i] == kinds[j] {
                    return false;
                }
                if no_overlap && kind_shape_of(kinds[i]) == kind_shape_of(kinds[j]) {
                    return false;
                }
                j = j + 1;
            }
            i = i + 1;
        }
        true
    }

    /// This descriptor with an explicit wire key.
    pub fn with_rename(self, rename: String) -> (r: PropertyDescriptor)
        ensures
            r@.rename == Some(rename@),
            r@.name == self@.name && r@.kinds == self@.kinds
                && r@.functional == self@.functional && r@.required == self@.required
                && r@.aliases == self@.aliases,
    {
        PropertyDescriptor { rename: Some(rename), ..self }
    }

    /// This descriptor with one more accepted wire key.
    pub fn with_alias(self, alias: String) -> (r: PropertyDescriptor)
        ensures
            r@.aliases == self@.aliases.push(alias@),
            r@.name == self@.name && r@.kinds == self@.kinds
                && r@.functional == self@.functional && r@.required == self@.required
                && r@.rename == self@.rename,
    {
        let mut d = self;
        d.aliases.push(alias);
        proof {
            assert(d@.aliases =~= self@.aliases.push(alias@));
        }
        d
    }
}

/// The wire shape of a kind.
pub fn kind_shape_of(k: ValueKind) -> (r: WireShape)
    ensures
        r == kind_shape(k),
{
    match k {
        ValueKind::Text => WireShape::Text,
        ValueKind::LangString => WireShape::Object,
        ValueKind::AnyUri => WireShape::Text,
        ValueKind::NonNegativeInteger => WireShape::Number,
        ValueKind::Float => WireShape::Number,
        ValueKind::DateTime => WireShape::Text,
        ValueKind::Duration => WireShape::Text,
        ValueKind::Document => WireShape::Object,
    }
}

impl Value {
    /// The kind this value carries.
    pub fn kind(&self) -> (r: ValueKind)
        ensures
            r == kind_of(self@),
    {
        match self {
            Value::Text(_) => ValueKind::Text,
            Value::LangString(_) => ValueKind::LangString,
            Value::AnyUri(_) => ValueKind::AnyUri,
            Value::NonNegativeInteger(_) => ValueKind::NonNegativeInteger,
            Value::Float(_) => ValueKind::Float,
            Value::DateTime(_) => ValueKind::DateTime,
            Value::Duration(_) => ValueKind::Duration,
            Value::Document(_) => ValueKind::Document,
        }
    }
}

impl Value {
    /// A text value.
    pub fn text_from(s: &str) -> (r: Value)
        ensures
            r@ == ValueData::Text(s@),
    {
        Value::Text(XsdString(String::from_str(s)))
    }

    /// A URI value.
    pub fn uri_from(s: &str) -> (r: Value)
        ensures
            r@ == ValueData::AnyUri(s@),
    {
        Value::AnyUri(XsdAnyUri(String::from_str(s)))
    }

    /// A language-tagged text value.
    pub fn lang_from(value: &str, language: &str) -> (r: Value)
        ensures
            r@ == (ValueData::LangString { value: value@, language: language@ }),
    {
        Value::LangString(RdfLangString {
            value: XsdString(String::from_str(value)),
            language: XsdString(String::from_str(language)),
        })
    }

    /// A non-negative integer value.
    pub fn integer_from(n: u64) -> (r: Value)
        ensures
            r@ == ValueData::NonNegativeInteger(n),
    {
        Value::NonNegativeInteger(XsdNonNegativeInteger(n))
    }

    /// A duration value converted from its text form; the failed text is
    /// reported when it does not parse or does not fit.
    pub fn duration_from_text(s: &str) -> (r: Result<Value, CodecError>)
        ensures
            match r {
                Ok(v) => match parse_duration(s@) {
                    Some(n) => fits_i64(n) && v@ == ValueData::Duration(n as i64),
                    None => false,
                },
                Err(e) => (parse_duration(s@) is None || !fits_i64(
                    match parse_duration(s@) {
                        Some(n) => n,
                        None => 0,
                    },
                )) && e@ == (CodecErrorData::MalformedDuration { text: s@ }),
            },
    {
        match XsdDuration::parse(s) {
            Ok(d) => Ok(Value::Duration(d)),
            Err(_) => Err(CodecError::MalformedDuration { text: String::from_str(s) }),
        }
    }

    /// A timestamp value converted from its RFC 3339 text form; the
    /// failed text is reported when it does not parse or cannot be
    /// rendered back.
    pub fn datetime_from_text(s: &str) -> (r: Result<Value, CodecError>)
        ensures
            match r {
                Ok(v) => match rfc3339_instant(s@) {
                    Some(p) => v@ == (ValueData::DateTime {
                        nanos: p.0,
                        offset_seconds: p.1,
                        text: match rfc3339_text(p.0, p.1) {
                            Some(t) => t,
                            None => Seq::empty(),
                        },
                    }) && rfc3339_text(p.0, p.1) is Some,
                    None => false,
                },
                Err(e) => e@ == (CodecErrorData::MalformedTimestamp { text: s@ }),
            },
    {
        match crate::xsd_datetime::XsdDateTime::parse(s) {
            Ok(d) => Ok(Value::DateTime(d)),
            Err(_) => Err(CodecError::MalformedTimestamp { text: String::from_str(s) }),
        }
    }
}

impl PropertyDescriptor {
    /// Whether this declaration admits `k`.
    pub fn declares(&self, k: ValueKind) -> (r: bool)
        ensures
            r == self@.kinds.contains(k),
    {
        let n = self.kinds.len();
        let mut i: usize = 0;
        while i < n
            invariant
                n == self.kinds@.len(),
                0 <= i <= n,
                forall|j: int| 0 <= j < i ==> self.kinds@[j] != k,
            decreases n - i,
        {
            if self.kinds[i] == k {
                return true;
            }
            i = i + 1;
        }
        false
    }

    /// Whether this declaration is usable: at least one kind, none
    /// repeated.
    pub fn usable(&self) -> (r: bool)
        ensures
            r == self@.wf(),
    {
        Self::check_kinds(&self.kinds, false)
    }
}

/// The stored representation of one property.
pub enum PropValue {
    /// No value. Only an optional functional property is ever absent;
    /// an empty collection stands for an absent non-functional one.
    Absent,
    /// Exactly one value.
    Term(Value),
    /// Zero or more values.
    Array(Vec<Value>),
}

/// The mathematical value of a [`PropValue`].
pub enum PropData {
    Absent,
    Term(ValueData),
    Array(Seq<ValueData>),
}

/// The mathematical values of a list of typed values, in order.
pub open spec fn values_view(vs: Seq<Value>) -> Seq<ValueData> {
    Seq::new(vs.len(), |i: int| vs[i]@)
}

impl View for PropValue {
    type V = PropData;

    open spec fn view(&self) -> PropData {
        match self {
            PropValue::Absent => PropData::Absent,
            PropValue::Term(v) => PropData::Term(v@),
            PropValue::Array(vs) => PropData::Array(values_view(vs@)),
        }
    }
}

/// Whether a stored value fits its declaration: absence only for an
/// optional functional property, an array never for a functional one,
/// and every held value of a declared kind.
pub open spec fn wf_prop(d: DescData, p: PropData) -> bool {
    match p {
        PropData::Absent => d.functional && !d.required,
        PropData::Term(v) => d.kinds.contains(kind_of(v)),
        PropData::Array(vs) => !d.functional && forall|i: int| 0 <= i < vs.len()
            ==> d.kinds.contains(kind_of(#[trigger] vs[i])),
    }
}

/// The empty default of an optional property: no value for a functional
/// one, the empty collection otherwise.
pub open spec fn empty_default(d: DescData) -> PropData {
    if d.functional {
        PropData::Absent
    } else {
        PropData::Array(Seq::empty())
    }
}

/// What a property decodes from its wire field — or from the field's
/// absence — under declaration `d`.
pub open spec fn prop_decode(d: DescData, j: Option<JsonData>) -> Result<
    PropData,
    CodecErrorData,
> {
    match j {
        None => if d.required {
            Err(CodecErrorData::MissingRequiredProperty { name: d.name })
        } else {
            Ok(empty_default(d))
        },
        Some(JsonData::Arr(items)) => if d.functional {
            Err(CodecErrorData::ShapeMismatch {
                name: d.name,
                expected: kind_shape(d.kinds[0]),
                found: WireShape::Array,
            })
        } else {
            match list_decode(d.kinds, items) {
                Some(vs) => Ok(PropData::Array(vs)),
                None => Err(CodecErrorData::NoMatchingKind { name: d.name, candidates: d.kinds }),
            }
        },
        Some(other) => match union_decode(d.kinds, other) {
            Some(v) => Ok(PropData::Term(v)),
            None => if d.kinds.len() == 1 {
                Err(CodecErrorData::ShapeMismatch {
                    name: d.name,
                    expected: kind_shape(d.kinds[0]),
                    found: wire_shape(other),
                })
            } else {
                Err(CodecErrorData::NoMatchingKind { name: d.name, candidates: d.kinds })
            },
        },
    }
}

/// What a stored property encodes to on the wire: `None` means the field
/// is omitted entirely. A single value encodes bare; a collection stays
/// an array even with one element; an empty optional collection and an
/// absent value are omitted, but a required empty collection is emitted
/// as `[]`.
pub open spec fn prop_encode(d: DescData, p: PropData) -> Option<JsonData> {
    match p {
        PropData::Absent => None,
        PropData::Term(v) => Some(value_encode(v)),
        PropData::Array(vs) => if vs.len() == 0 && !d.required {
            None
        } else {
            Some(JsonData::Arr(list_encode(vs)))
        },
    }
}

/// A matched kind is the one the value carries, and the value is
/// internally consistent.
proof fn lemma_kind_decode_kind(k: ValueKind, j: JsonData)
    ensures
        match kind_decode(k, j) {
            Some(v) => kind_of(v) == k && wf_value(v),
            None => true,
        },
{
}

/// A union-decoded value carries one of the declared kinds.
proof fn lemma_union_decode_kind(kinds: Seq<ValueKind>, j: JsonData)
    ensures
        match union_decode(kinds, j) {
            Some(v) => kinds.contains(kind_of(v)) && wf_value(v),
            None => true,
        },
    decreases kinds.len(),
{
    if kinds.len() > 0 {
        lemma_kind_decode_kind(kinds[0], j);
        match kind_decode(kinds[0], j) {
            Some(v) => {
                assert(kinds[0] == kind_of(v));
            },
            None => {
                let t = kinds.subrange(1, kinds.len() as int);
                lemma_union_decode_kind(t, j);
                match union_decode(t, j) {
                    Some(v) => {
                        let i = choose|i: int| 0 <= i < t.len() && t[i] == kind_of(v);
                        assert(kinds[i + 1] == kind_of(v));
                    },
                    None => {},
                }
            },
        }
    }
}

/// Every element of a decoded collection carries a declared kind.
proof fn lemma_list_decode_kinds(kinds: Seq<ValueKind>, items: Seq<JsonData>)
    ensures
        match list_decode(kinds, items) {
            Some(vs) => vs.len() == items.len() && forall|i: int| 0 <= i < vs.len()
                ==> kinds.contains(kind_of(#[trigger] vs[i])) && wf_value(vs[i]),
            None => true,
        },
    decreases items.len(),
{
    if items.len() > 0 {
        lemma_union_decode_kind(kinds, items[0]);
        let t = items.subrange(1, items.len() as int);
        lemma_list_decode_kinds(kinds, t);
        match union_decode(kinds, items[0]) {
            Some(v) => {
                match list_decode(kinds, t) {
                    Some(rest) => {
                        let vs = seq![v] + rest;
                        assert(forall|i: int| 0 < i < vs.len() ==> vs[i] == rest[i - 1]);
                    },
                    None => {},
                }
            },
            None => {},
        }
    }
}

/// A copy of a kind list.
pub(crate) fn copy_kinds(ks: &Vec<ValueKind>) -> (r: Vec<ValueKind>)
    ensures
        r@ == ks@,
{
    let n = ks.len();
    let mut r: Vec<ValueKind> = Vec::new();
    let mut i: usize = 0;
    while i < n
        invariant
            n == ks@.len(),
            0 <= i <= n,
            r@ =~= ks@.subrange(0, i as int),
        decreases n - i,
    {
        r.push(ks[i]);
        i = i + 1;
        proof {
            assert(r@ =~= ks@.subrange(0, i as int));
        }
    }
    proof {
        assert(ks@.subrange(0, n as int) =~= ks@);
    }
    r
}

/// Decodes a collection of wire elements, committing only if every
/// element decodes.
#[verifier::loop_isolation(false)]
fn decode_elems(name: &String, kinds: &Vec<ValueKind>, items: Vec<JsonValue>) -> (r: Result<
    Vec<Value>,
    CodecError,
>)
    ensures
        match r {
            Ok(vs) => list_decode(kinds@, deep_list(items@)) == Some(values_view(vs@)),
            Err(e) => list_decode(kinds@, deep_list(items@)) is None
                && e@ == (CodecErrorData::NoMatchingKind { name: name@, candidates: kinds@ }),
        },
{
    let ghost orig = deep_list(items@);
    let mut pending = items;
    let mut out: Vec<Value> = Vec::new();
    proof {
        assert(values_view(out@) =~= Seq::<ValueData>::empty());
    }
    while pending.len() > 0
        invariant
            list_decode(kinds@, orig) == (match list_decode(kinds@, deep_list(pending@)) {
                Some(rest) => Some(values_view(out@) + rest),
                None => None::<Seq<ValueData>>,
            }),
        decreases pending@.len(),
    {
        let ghost before = pending@;
        let first = pending.remove(0);
        proof {
            assert(pending@ =~= before.subrange(1, before.len() as int));
            crate::json::lemma_deep_list_index(before);
            crate::json::lemma_deep_list_index(pending@);
            assert(deep_list(before)[0] == first@);
            assert(deep_list(before).subrange(1, deep_list(before).len() as int)
                =~= deep_list(pending@));
        }
        match try_union(kinds, first) {
            Ok(val) => {
                let ghost out_before = out@;
                out.push(val);
                proof {
                    assert(values_view(out@) =~= values_view(out_before) + seq![val@]);
                    assert(values_view(out_before) + (seq![val@] + (match list_decode(
                        kinds@,
                        deep_list(pending@),
                    ) {
                        Some(rest) => rest,
                        None => Seq::empty(),
                    })) =~= (values_view(out_before) + seq![val@]) + (match list_decode(
                        kinds@,
                        deep_list(pending@),
                    ) {
                        Some(rest) => rest,
                        None => Seq::empty(),
                    }));
                }
            },
            Err(_) => {
                proof {
                    assert(deep_list(before).len() > 0);
                    assert(list_decode(kinds@, deep_list(before)) is None);
                    assert(list_decode(kinds@, orig) is None);
                }
                let err = CodecError::NoMatchingKind {
                    name: name.clone(),
                    candidates: copy_kinds(kinds),
                };
                proof {
                    assert(err@ == (CodecErrorData::NoMatchingKind {
                        name: name@,
                        candidates: kinds@,
                    }));
                }
                return Err(err);
            },
        }
    }
    proof {
        assert(deep_list(pending@).len() == 0) by {
            crate::json::lemma_deep_list_index(pending@);
        }
        assert(values_view(out@) + Seq::<ValueData>::empty() =~= values_view(out@));
    }
    Ok(out)
}

/// Decodes one property from its wire field, or from the field's
/// absence.
pub fn decode_property(desc: &PropertyDescriptor, j: Option<JsonValue>) -> (r: Result<
    PropValue,
    CodecError,
>)
    requires
        desc@.wf(),
    ensures
        match r {
            Ok(p) => prop_decode(desc@, match j {
                Some(v) => Some(v@),
                None => None,
            }) == Ok::<PropData, CodecErrorData>(p@) && wf_prop(desc@, p@),
            Err(e) => prop_decode(desc@, match j {
                Some(v) => Some(v@),
                None => None,
            }) == Err::<PropData, CodecErrorData>(e@),
        },
{
    match j {
        None => {
            if desc.required {
                Err(CodecError::MissingRequiredProperty { name: desc.name.clone() })
            } else if desc.functional {
                Ok(PropValue::Absent)
            } else {
                let empty: Vec<Value> = Vec::new();
                proof {
                    assert(values_view(empty@) =~= Seq::<ValueData>::empty());
                }
                Ok(PropValue::Array(empty))
            }
        },
        Some(JsonValue::Arr(items)) => {
            if desc.functional {
                return Err(CodecError::ShapeMismatch {
                    name: desc.name.clone(),
                    expected: kind_shape_of(desc.kinds[0]),
                    found: WireShape::Array,
                });
            }
            let ghost items0 = items@;
            match decode_elems(&desc.name, &desc.kinds, items) {
                Ok(vs) => {
                    proof {
                        lemma_list_decode_kinds(desc@.kinds, deep_list(items@));
                    }
                    Ok(PropValue::Array(vs))
                },
                Err(e) => Err(e),
            }
        },
        Some(other) => {
            let ghost jd = other@;
            match try_union(&desc.kinds, other) {
                Ok(val) => {
                    proof {
                        lemma_union_decode_kind(desc@.kinds, jd);
                    }
                    Ok(PropValue::Term(val))
                },
                Err(back) => {
                    if desc.kinds.len() == 1 {
                        Err(CodecError::ShapeMismatch {
                            name: desc.name.clone(),
                            expected: kind_shape_of(desc.kinds[0]),
                            found: wire_shape_of(&back),
                        })
                    } else {
                        Err(CodecError::NoMatchingKind {
                            name: desc.name.clone(),
                            candidates: copy_kinds(&desc.kinds),
                        })
                    }
                },
            }
        },
    }
}

/// Appending a value to a collection appends its encoding.
proof fn lemma_list_encode_snoc(vs: Seq<ValueData>, v: ValueData)
    ensures
        list_encode(vs.push(v)) == list_encode(vs) + seq![value_encode(v)],
    decreases vs.len(),
{
    let w = vs.push(v);
    if vs.len() == 0 {
        assert(w.subrange(1, w.len() as int) =~= Seq::<ValueData>::empty());
        assert(w[0] == v);
        assert(list_encode(w) == seq![value_encode(v)] + list_encode(
            w.subrange(1, w.len() as int),
        ));
        assert(seq![value_encode(v)] + Seq::<JsonData>::empty() =~= seq![value_encode(v)]);
        assert(list_encode(vs) + seq![value_encode(v)] =~= seq![value_encode(v)]);
    } else {
        assert(w.subrange(1, w.len() as int) =~= vs.subrange(1, vs.len() as int).push(v));
        lemma_list_encode_snoc(vs.subrange(1, vs.len() as int), v);
        assert(seq![value_encode(w[0])] + (list_encode(vs.subrange(1, vs.len() as int))
            + seq![value_encode(v)]) =~= (seq![value_encode(vs[0])] + list_encode(
            vs.subrange(1, vs.len() as int),
        )) + seq![value_encode(v)]);
    }
}

/// Encodes one stored property to its wire field; `None` means the
/// field is omitted.
pub fn encode_property(desc: &PropertyDescriptor, p: PropValue) -> (r: Option<JsonValue>)
    ensures
        match r {
            Some(jv) => prop_encode(desc@, p@) == Some(jv@),
            None => prop_encode(desc@, p@) is None,
        },
{
    match p {
        PropValue::Absent => None,
        PropValue::Term(v) => Some(value_to_json(v)),
        PropValue::Array(vs) => {
            if vs.len() == 0 && !desc.required {
                return None;
            }
            let ghost vsd = values_view(vs@);
            let mut vs = vs;
            let mut out: Vec<JsonValue> = Vec::new();
            let mut i: usize = 0;
            let ghost n = vs@.len();
            proof {
                crate::json::lemma_deep_list_index(out@);
                assert(deep_list(out@) =~= Seq::<JsonData>::empty());
                assert(vsd.subrange(0, 0) =~= Seq::<ValueData>::empty());
                assert(list_encode(vsd.subrange(0, 0)) =~= Seq::<JsonData>::empty());
            }
            proof {
                assert(n <= usize::MAX);
            }
            while vs.len() > 0
                invariant
                    vs@.len() + i == n,
                    n <= usize::MAX,
                    vsd.len() == n,
                    forall|k: int| 0 <= k < vs@.len() ==> (#[trigger] vs@[k])@ == vsd[i + k],
                    deep_list(out@) == list_encode(vsd.subrange(0, i as int)),
                    out@.len() == i,
                decreases vs@.len(),
            {
                let ghost before = vs@;
                let first = vs.remove(0);
                let jv = value_to_json(first);
                let ghost out_before = out@;
                out.push(jv);
                i = i + 1;
                proof {
                    assert(vs@ =~= before.subrange(1, before.len() as int));
                    crate::json::lemma_deep_list_index(out@);
                    crate::json::lemma_deep_list_index(out_before);
                    assert(out@ =~= out_before.push(jv));
                    assert(deep_list(out@) =~= deep_list(out_before).push(jv@));
                    assert(vsd.subrange(0, i as int) =~= vsd.subrange(0, i - 1).push(first@));
                    lemma_list_encode_snoc(vsd.subrange(0, i - 1), first@);
                    assert(deep_list(out_before).push(jv@) =~= deep_list(out_before)
                        + seq![value_encode(first@)]);
                }
            }
            proof {
                assert(vsd.subrange(0, n as int) =~= vsd);
            }
            Some(JsonValue::Arr(out))
        },
    }
}

/// Law: an optional collection and field absence are one state. Encoding
/// the empty collection omits the field, and decoding an absent field
/// yields the empty collection.
pub proof fn lemma_empty_collection_round_trip(d: DescData)
    requires
        !d.functional,
        !d.required,
    ensures
        prop_encode(d, PropData::Array(Seq::empty())) is None,
        prop_decode(d, None) == Ok::<PropData, CodecErrorData>(PropData::Array(Seq::empty())),
{
}

/// Law: a bare scalar and a one-element array are distinct states. The
/// scalar decodes as `Term`, the array as `Array`, and a single read
/// sees the value in the `Term` state only.
pub proof fn lemma_scalar_vs_singleton(d: DescData, j: JsonData, v: ValueData)
    requires
        !d.functional,
        wire_shape(j) != WireShape::Array,
        union_decode(d.kinds, j) == Some(v),
    ensures
        prop_decode(d, Some(j)) == Ok::<PropData, CodecErrorData>(PropData::Term(v)),
        prop_decode(d, Some(JsonData::Arr(seq![j]))) == Ok::<PropData, CodecErrorData>(
            PropData::Array(seq![v]),
        ),
        get_spec(PropData::Term(v), kind_of(v)) == Some(v),
        get_spec(PropData::Array(seq![v]), kind_of(v)) is None,
{
    let items = seq![j];
    assert(items[0] == j);
    assert(items.subrange(1, items.len() as int) =~= Seq::<JsonData>::empty());
    assert(list_decode(d.kinds, items.subrange(1, items.len() as int))
        == Some(Seq::<ValueData>::empty()));
    assert(list_decode(d.kinds, items) == Some(seq![v] + Seq::<ValueData>::empty()));
    assert(seq![v] + Seq::<ValueData>::empty() =~= seq![v]);
}

/// Law: a poly-typed property commits to the first declared kind that
/// matches; a later kind that would also match is never consulted.
pub proof fn lemma_union_first_match(
    a: ValueKind,
    b: ValueKind,
    j: JsonData,
    va: ValueData,
)
    requires
        kind_decode(a, j) == Some(va),
    ensures
        union_decode(seq![a, b], j) == Some(va),
{
    assert(seq![a, b][0] == a);
}

/// Law: decoding an absent required property fails, naming the property.
pub proof fn lemma_missing_required(d: DescData)
    requires
        d.required,
    ensures
        prop_decode(d, None) == Err::<PropData, CodecErrorData>(
            CodecErrorData::MissingRequiredProperty { name: d.name },
        ),
{
}

/// What a single read returns: the stored value exactly when the state
/// is a single value of the requested kind.
pub open spec fn get_spec(p: PropData, k: ValueKind) -> Option<ValueData> {
    match p {
        PropData::Term(v) => if kind_of(v) == k {
            Some(v)
        } else {
            None
        },
        _ => None,
    }
}

/// What a collection read returns: the stored list exactly when the
/// state is a collection.
pub open spec fn get_many_spec(p: PropData) -> Option<Seq<ValueData>> {
    match p {
        PropData::Array(vs) => Some(vs),
        _ => None,
    }
}

/// The shape of a wire value.
pub fn wire_shape_of(j: &JsonValue) -> (r: WireShape)
    ensures
        r == wire_shape(j@),
{
    match j {
        JsonValue::Null => WireShape::Null,
        JsonValue::Bool(_) => WireShape::Boolean,
        JsonValue::Num(_) => WireShape::Number,
        JsonValue::Str(_) => WireShape::Text,
        JsonValue::Arr(_) => WireShape::Array,
        JsonValue::Obj(_) => WireShape::Object,
    }
}

} // verus!
