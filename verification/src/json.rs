//! A plain model of JSON values, the trusted parse that produces it,
//! and verified accessors over it.

use vstd::prelude::*;

verus! {

/// A JSON value as plain data, the shape the config grammar reads.
/// Numbers are kept only where they are integers: a number representable
/// as `u64` is `UInt`, one representable only as `i64` is `Int`; any
/// other number maps to `Null`.
pub enum JsonValue {
    Null,
    Bool(bool),
    UInt(u64),
    Int(i64),
    Str(String),
    Arr(Vec<JsonValue>),
    Obj(Vec<(String, JsonValue)>),
}

/// What `serde_json` parses a given text to, lifted into `JsonValue`:
/// a function of the text alone. `None` where the text is not valid JSON.
pub uninterp spec fn spec_parse_json(s: Seq<char>) -> Option<JsonValue>;

#[verifier::external_type_specification]
#[verifier::external_body]
pub struct ExValue(serde_json::Value);

/// Relies on the variants of `serde_json::Value`: rebuilds the parsed
/// value as plain data, one arm per variant, moving the fields; numbers
/// that are neither `u64` nor `i64` become `Null`.
#[verifier::external_body]
fn lift_value(v: &serde_json::Value) -> JsonValue {
    match v {
        serde_json::Value::Null => JsonValue::Null,
        serde_json::Value::Bool(b) => JsonValue::Bool(*b),
        serde_json::Value::Number(n) => match (n.as_u64(), n.as_i64()) {
            (Some(u), _) => JsonValue::UInt(u),
            (None, Some(i)) => JsonValue::Int(i),
            _ => JsonValue::Null,
        },
        serde_json::Value::String(s) => JsonValue::Str(s.clone()),
        serde_json::Value::Array(a) => JsonValue::Arr(a.iter().map(lift_value).collect()),
        serde_json::Value::Object(m) => JsonValue::Obj(
            m.iter().map(|(k, x)| (k.clone(), lift_value(x))).collect(),
        ),
    }
}

/// Relies on `serde_json::from_str`: whether a text parses, and what it
/// parses to, depend on the text alone.
#[verifier::external_body]
pub(crate) fn parse_json(s: &str) -> (r: Option<JsonValue>)
    ensures
        r == spec_parse_json(s@),
{
    match serde_json::from_str::<serde_json::Value>(s) {
        Ok(v) => Some(lift_value(&v)),
        Err(_) => None,
    }
}

/// The value under the first member of `m` whose key has the characters
/// of `key`; `None` where no member has.
pub open spec fn spec_obj_get(m: Seq<(String, JsonValue)>, key: Seq<char>) -> Option<
    JsonValue,
>
    decreases m.len(),
{
    if m.len() == 0 {
        None
    } else if m[0].0@ == key {
        Some(m[0].1)
    } else {
        spec_obj_get(m.skip(1), key)
    }
}

proof fn lemma_obj_get_skip(m: Seq<(String, JsonValue)>, key: Seq<char>, i: int)
    requires
        0 <= i <= m.len(),
        forall|j: int| 0 <= j < i ==> m[j].0@ != key,
    ensures
        spec_obj_get(m, key) == spec_obj_get(m.skip(i), key),
    decreases i,
{
    if i > 0 {
        lemma_obj_get_skip(m.skip(1), key, i - 1);
        assert(m.skip(1).skip(i - 1) =~= m.skip(i));
    } else {
        assert(m.skip(0) =~= m);
    }
}

/// Looks a key up in an object's member list, first match wins.
pub fn obj_get<'a>(m: &'a Vec<(String, JsonValue)>, key: &str) -> (r: Option<
    &'a JsonValue,
>)
    ensures
        match r {
            Some(v) => spec_obj_get(m@, key@) == Some(*v),
            None => spec_obj_get(m@, key@) is None,
        },
{
    let mut i: usize = 0;
    while i < m.len()
        invariant
            i <= m.len(),
            forall|j: int| 0 <= j < i ==> m@[j].0@ != key@,
        decreases m.len() - i,
    {
        if crate::strutil::str_eq(m[i].0.as_str(), key) {
            proof {
                lemma_obj_get_skip(m@, key@, i as int);
            }
            return Some(&m[i].1);
        }
        i = i + 1;
    }
    proof {
        lemma_obj_get_skip(m@, key@, m@.len() as int);
    }
    None
}

/// Whether every element of `a` is a JSON string.
pub open spec fn all_strings(a: Seq<JsonValue>) -> bool {
    forall|i: int| 0 <= i < a.len() ==> a[i] is Str
}

/// The strings of an all-string array, in order.
pub open spec fn spec_str_items(a: Seq<JsonValue>) -> Seq<String> {
    a.map_values(|v: JsonValue| v->Str_0)
}

/// The strings of `a` where `a` is all strings, `None` otherwise.
pub fn str_items(a: &Vec<JsonValue>) -> (r: Option<Vec<String>>)
    ensures
        match r {
            Some(ss) => all_strings(a@) && ss@ == spec_str_items(a@),
            None => !all_strings(a@),
        },
{
    let mut out: Vec<String> = Vec::new();
    let mut i: usize = 0;
    while i < a.len()
        invariant
            i <= a.len(),
            out@.len() == i,
            forall|j: int| 0 <= j < i ==> a@[j] is Str,
            forall|j: int| 0 <= j < i ==> out@[j] == a@[j]->Str_0,
        decreases a.len() - i,
    {
        match &a[i] {
            JsonValue::Str(s) => {
                out.push(s.clone());
            },
            _ => {
                return None;
            },
        }
        i = i + 1;
    }
    proof {
        assert(out@ =~= spec_str_items(a@));
    }
    Some(out)
}

} // verus!
