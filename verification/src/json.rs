//! A JSON document as plain values, and the lookups that proposal analysis
//! performs on it.
use vstd::prelude::*;

use crate::text::{owned, str_eq, str_trim, trim_seq};

verus! {

#[verifier::external_type_specification]
#[verifier::external_body]
pub struct ExSerdeJsonValue(serde_json::Value);

/// The document that `serde_json::from_str::<serde_json::Value>` reads from a
/// text, as a `JsonValue`, or the text of the parse error (its `Display`).
pub uninterp spec fn json_document(text: Seq<char>) -> Result<JsonValue, Seq<char>>;

/// Converts a `serde_json::Value` into a `JsonValue`, variant by variant,
/// keeping the members in the order in which the map yields them (sorted by
/// key: serde_json's map is ordered by key unless its `preserve_order`
/// feature is on, and it is not here) and each value's compact text. Nothing
/// is stated of the result: the input is opaque.
#[verifier::external_body]
fn json_value_from(v: serde_json::Value) -> JsonValue {
    let rendered = v.to_string();
    let kind = match v {
        serde_json::Value::Null => JsonKind::Null,
        serde_json::Value::Bool(b) => JsonKind::Bool(b),
        serde_json::Value::Number(n) => JsonKind::Number(n.as_i64()),
        serde_json::Value::String(s) => JsonKind::Str(s),
        serde_json::Value::Array(a) => JsonKind::Array(a.into_iter().map(json_value_from).collect()),
        serde_json::Value::Object(o) => JsonKind::Object(o.into_iter().map(|(k, x)| (k, json_value_from(x))).collect()),
    };
    JsonValue { kind, rendered }
}

/// `serde_json::from_str::<serde_json::Value>`: parses a JSON text. The
/// result, converted to a `JsonValue` (or the error's message), depends on the
/// text alone.
#[verifier::external_body]
pub(crate) fn parse_json(text: &str) -> (r: Result<JsonValue, String>)
    ensures
        crate::text::result_view(r) == json_document(text@),
{
    match serde_json::from_str::<serde_json::Value>(text) {
        Ok(v) => Ok(json_value_from(v)),
        Err(e) => Err(e.to_string()),
    }
}

/// One JSON value. `rendered` is its compact JSON text (as `Display` of a
/// JSON value prints it), used when a value is quoted in a message.
#[derive(Debug, PartialEq, Eq)]
pub struct JsonValue {
    pub kind: JsonKind,
    pub rendered: String,
}

/// The shape of a JSON value. Numbers keep their `i64` value when they are
/// integers that fit; object members come in the order of the parsed map,
/// which is sorted by key.
#[derive(Debug, PartialEq, Eq)]
pub enum JsonKind {
    Null,
    Bool(bool),
    Number(Option<i64>),
    Str(String),
    Array(Vec<JsonValue>),
    Object(Vec<(String, JsonValue)>),
}

/// Members of an object, in order.
pub type JsonMembers = Vec<(String, JsonValue)>;

/// The members of an object value.
pub open spec fn as_object(v: JsonValue) -> Option<Seq<(String, JsonValue)>> {
    match v.kind {
        JsonKind::Object(m) => Some(m@),
        _ => None,
    }
}

/// The elements of an array value.
pub open spec fn as_array(v: JsonValue) -> Option<Seq<JsonValue>> {
    match v.kind {
        JsonKind::Array(a) => Some(a@),
        _ => None,
    }
}

/// The text of a string value.
pub open spec fn as_str(v: JsonValue) -> Option<Seq<char>> {
    match v.kind {
        JsonKind::Str(s) => Some(s@),
        _ => None,
    }
}

/// The value of a boolean.
pub open spec fn as_bool(v: JsonValue) -> Option<bool> {
    match v.kind {
        JsonKind::Bool(b) => Some(b),
        _ => None,
    }
}

/// The value of an integer number that fits in `i64`.
pub open spec fn as_i64(v: JsonValue) -> Option<i64> {
    match v.kind {
        JsonKind::Number(n) => n,
        _ => None,
    }
}

pub open spec fn is_null(v: JsonValue) -> bool {
    v.kind is Null
}

/// The value of the first member named `key`.
pub open spec fn member(m: Seq<(String, JsonValue)>, key: Seq<char>) -> Option<JsonValue>
    decreases m.len(),
{
    if m.len() == 0 {
        None
    } else if m[0].0@ == key {
        Some(m[0].1)
    } else {
        member(m.drop_first(), key)
    }
}

pub open spec fn has_member(m: Seq<(String, JsonValue)>, key: Seq<char>) -> bool {
    member(m, key) is Some
}

/// The member `key` of an object value (none for other values).
pub open spec fn value_member(v: Option<JsonValue>, key: Seq<char>) -> Option<JsonValue> {
    match v {
        Some(x) => match as_object(x) {
            Some(m) => member(m, key),
            None => None,
        },
        None => None,
    }
}

/// A string value trimmed, when it is not blank.
pub open spec fn non_empty_text(v: Option<JsonValue>) -> Option<Seq<char>> {
    match v {
        Some(x) => match as_str(x) {
            Some(s) => if trim_seq(s).len() > 0 {
                Some(trim_seq(s))
            } else {
                None
            },
            None => None,
        },
        None => None,
    }
}

/// Whether the value is an array with at least one element.
pub open spec fn non_empty_array(v: Option<JsonValue>) -> bool {
    match v {
        Some(x) => match as_array(x) {
            Some(a) => a.len() > 0,
            None => false,
        },
        None => false,
    }
}

/// Whether the value is an array (of any length).
pub open spec fn is_array(v: Option<JsonValue>) -> bool {
    match v {
        Some(x) => as_array(x) is Some,
        None => false,
    }
}

/// Whether the value is an object.
pub open spec fn is_object(v: Option<JsonValue>) -> bool {
    match v {
        Some(x) => as_object(x) is Some,
        None => false,
    }
}

/// The string elements of an array value, in order (other elements skipped).
pub open spec fn string_elements(a: Seq<JsonValue>) -> Seq<Seq<char>>
    decreases a.len(),
{
    if a.len() == 0 {
        Seq::empty()
    } else {
        string_elements(a.drop_last()) + match as_str(a.last()) {
            Some(s) => seq![s],
            None => Seq::empty(),
        }
    }
}

/// The strings of an array value (empty for anything else).
pub open spec fn string_array_of(v: Option<JsonValue>) -> Seq<Seq<char>> {
    match v {
        Some(x) => match as_array(x) {
            Some(a) => string_elements(a),
            None => Seq::empty(),
        },
        None => Seq::empty(),
    }
}

pub open spec fn opt_ref_view<'a>(r: Option<&'a JsonValue>) -> Option<JsonValue> {
    match r {
        Some(v) => Some(*v),
        None => None,
    }
}

/// The members of an object value.
pub fn json_object(v: &JsonValue) -> (r: Option<&JsonMembers>)
    ensures
        match r {
            Some(m) => as_object(*v) == Some(m@),
            None => as_object(*v) is None,
        },
{
    match &v.kind {
        JsonKind::Object(m) => Some(m),
        _ => None,
    }
}

/// The value of the first member named `key`.
pub fn get_member<'a>(m: &'a JsonMembers, key: &str) -> (r: Option<&'a JsonValue>)
    ensures
        opt_ref_view(r) == member(m@, key@),
{
    let mut i: usize = 0;
    assert(m@.skip(0) =~= m@);
    while i < m.len()
        invariant
            i <= m@.len(),
            member(m@, key@) == member(m@.skip(i as int), key@),
        decreases m@.len() - i,
    {
        assert(m@.skip(i as int).drop_first() =~= m@.skip(i + 1));
        assert(m@.skip(i as int)[0] == m@[i as int]);
        if str_eq(m[i].0.as_str(), key) {
            return Some(&m[i].1);
        }
        i = i + 1;
    }
    assert(m@.skip(i as int).len() == 0);
    None
}

/// Whether the object has a member named `key`.
pub fn contains_key(m: &JsonMembers, key: &str) -> (r: bool)
    ensures
        r == has_member(m@, key@),
{
    get_member(m, key).is_some()
}

/// The member `key` of an optional object value.
pub fn get_value_member<'a>(v: Option<&'a JsonValue>, key: &str) -> (r: Option<&'a JsonValue>)
    ensures
        opt_ref_view(r) == value_member(opt_ref_view(v), key@),
{
    match v {
        Some(x) => match json_object(x) {
            Some(m) => get_member(m, key),
            None => None,
        },
        None => None,
    }
}

/// A string value trimmed, when it is not blank.
pub fn non_empty_string(v: Option<&JsonValue>) -> (r: Option<String>)
    ensures
        crate::text::opt_view(r) == non_empty_text(opt_ref_view(v)),
{
    match v {
        Some(x) => match &x.kind {
            JsonKind::Str(s) => {
                let t = str_trim(s.as_str());
                if t.is_empty() {
                    None
                } else {
                    Some(owned(t))
                }
            },
            _ => None,
        },
        None => None,
    }
}

/// Whether the value is an array with at least one element.
pub fn is_non_empty_array(v: Option<&JsonValue>) -> (r: bool)
    ensures
        r == non_empty_array(opt_ref_view(v)),
{
    match v {
        Some(x) => match &x.kind {
            JsonKind::Array(a) => a.len() > 0,
            _ => false,
        },
        None => false,
    }
}

/// Whether the value is an array.
pub fn is_array_value(v: Option<&JsonValue>) -> (r: bool)
    ensures
        r == is_array(opt_ref_view(v)),
{
    match v {
        Some(x) => match &x.kind {
            JsonKind::Array(_) => true,
            _ => false,
        },
        None => false,
    }
}

/// Whether the value is an object.
pub fn is_object_value(v: Option<&JsonValue>) -> (r: bool)
    ensures
        r == is_object(opt_ref_view(v)),
{
    match v {
        Some(x) => match &x.kind {
            JsonKind::Object(_) => true,
            _ => false,
        },
        None => false,
    }
}

/// The strings of an array value, in order (empty for anything else).
pub fn string_array(v: Option<&JsonValue>) -> (r: Vec<String>)
    ensures
        crate::text::strings_view(r@) == string_array_of(opt_ref_view(v)),
{
    let mut out: Vec<String> = Vec::new();
    assert(crate::text::strings_view(out@) =~= Seq::empty());
    match v {
        Some(x) => match &x.kind {
            JsonKind::Array(a) => {
                let mut i: usize = 0;
                while i < a.len()
                    invariant
                        i <= a@.len(),
                        crate::text::strings_view(out@) == string_elements(a@.subrange(0, i as int)),
                    decreases a@.len() - i,
                {
                    assert(a@.subrange(0, i + 1).drop_last() =~= a@.subrange(0, i as int));
                    match &a[i].kind {
                        JsonKind::Str(s) => {
                            crate::text::push_string(&mut out, owned(s.as_str()));
                        },
                        _ => {},
                    }
                    i = i + 1;
                }
                assert(a@.subrange(0, a@.len() as int) =~= a@);
                out
            },
            _ => out,
        },
        None => out,
    }
}

/// Two JSON values hold the same document (strings compared by their text).
pub open spec fn same_json(a: JsonValue, b: JsonValue) -> bool
    decreases a,
{
    &&& a.rendered@ == b.rendered@
    &&& match (a.kind, b.kind) {
        (JsonKind::Null, JsonKind::Null) => true,
        (JsonKind::Bool(x), JsonKind::Bool(y)) => x == y,
        (JsonKind::Number(x), JsonKind::Number(y)) => x == y,
        (JsonKind::Str(x), JsonKind::Str(y)) => x@ == y@,
        (JsonKind::Array(x), JsonKind::Array(y)) => {
            &&& x@.len() == y@.len()
            &&& forall|i: int| 0 <= i < x@.len() ==> same_json(#[trigger] x@[i], y@[i])
        },
        (JsonKind::Object(x), JsonKind::Object(y)) => {
            &&& x@.len() == y@.len()
            &&& forall|i: int| 0 <= i < x@.len() ==> (#[trigger] x@[i]).0@ == y@[i].0@ && same_json(x@[i].1, y@[i].1)
        },
        _ => false,
    }
}

/// A copy of a JSON value.
pub fn copy_json(v: &JsonValue) -> (r: JsonValue)
    ensures
        same_json(*v, r),
    decreases v,
{
    let kind = match &v.kind {
        JsonKind::Null => JsonKind::Null,
        JsonKind::Bool(b) => JsonKind::Bool(*b),
        JsonKind::Number(n) => JsonKind::Number(*n),
        JsonKind::Str(t) => JsonKind::Str(t.clone()),
        JsonKind::Array(a) => {
            let mut out: Vec<JsonValue> = Vec::new();
            let mut i: usize = 0;
            while i < a.len()
                invariant
                    i <= a@.len(),
                    out@.len() == i,
                    v.kind == JsonKind::Array(*a),
                    forall|j: int| 0 <= j < i ==> same_json(#[trigger] a@[j], out@[j]),
                decreases a@.len() - i,
            {
                proof {
                    vstd::std_specs::vec::axiom_vec_index_decreases(*a, i as int);
                    assert(decreases_to!(*v => v.kind));
                    assert(decreases_to!(v.kind => v.kind->Array_0));
                    assert(v.kind->Array_0 == *a);
                    assert(decreases_to!(*v => a[i as int]));
                }
                let c = copy_json(&a[i]);
                out.push(c);
                i = i + 1;
            }
            JsonKind::Array(out)
        },
        JsonKind::Object(m) => {
            let mut out: Vec<(String, JsonValue)> = Vec::new();
            let mut i: usize = 0;
            while i < m.len()
                invariant
                    i <= m@.len(),
                    out@.len() == i,
                    v.kind == JsonKind::Object(*m),
                    forall|j: int| 0 <= j < i ==> (#[trigger] m@[j]).0@ == out@[j].0@ && same_json(m@[j].1, out@[j].1),
                decreases m@.len() - i,
            {
                proof {
                    vstd::std_specs::vec::axiom_vec_index_decreases(*m, i as int);
                    assert(decreases_to!(*v => v.kind));
                    assert(decreases_to!(v.kind => v.kind->Object_0));
                    assert(v.kind->Object_0 == *m);
                    assert(decreases_to!(*m => m[i as int]));
                    assert(decreases_to!(m[i as int] => m[i as int].1));
                    assert(decreases_to!(*v => m[i as int].1));
                }
                let c = copy_json(&m[i].1);
                out.push((m[i].0.clone(), c));
                i = i + 1;
            }
            JsonKind::Object(out)
        },
    };
    JsonValue { kind, rendered: v.rendered.clone() }
}

} // verus!
