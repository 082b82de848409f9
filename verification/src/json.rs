//! A plain JSON value tree and the trusted bridge that fills it from
//! `serde_json`. The rest of the library reads envelopes and payloads out
//! of this tree with verified code.

use vstd::prelude::*;
use vstd::string::*;
use serde_json::Value;

verus! {

/// A parsed JSON document held as plain values. A number keeps its raw
/// source token: the platform's identifiers are large integers that must
/// be preserved exactly, never routed through a lossy numeric type.
#[derive(Debug, PartialEq, Eq)]
pub enum Json {
    Null,
    Bool(bool),
    Num(String),
    Str(String),
    Arr(Vec<Json>),
    Obj(Vec<(String, Json)>),
}

#[verifier::external_type_specification]
#[verifier::external_body]
pub struct ExValue(serde_json::Value);

/// What `serde_json::from_str` yields on a given text, carried over into
/// the plain `Json` tree: `None` where the text is not well-formed JSON.
/// The result is a function of the text alone.
pub uninterp spec fn spec_parse_json(s: Seq<char>) -> Option<Json>;

/// Relies on `serde_json::from_str::<serde_json::Value>`: whether a text is
/// well-formed JSON and the value tree it denotes are functions of the text
/// alone, so the result is named by `spec_parse_json`.
#[verifier::external_body]
pub fn parse_json(s: &str) -> (r: Option<Json>)
    ensures
        r == spec_parse_json(s@),
{
    serde_json::from_str::<serde_json::Value>(s).ok().map(json_of_value)
}

/// Relies on the variants of `serde_json::Value`: moves each variant of the
/// parsed tree into the library's own `Json`, keeping a number's source
/// token (`serde_json::Number` displays as the token it was parsed from).
#[verifier::external_body]
fn json_of_value(v: Value) -> Json {
    match v {
        Value::Null => Json::Null,
        Value::Bool(b) => Json::Bool(b),
        Value::Number(n) => Json::Num(n.to_string()),
        Value::String(s) => Json::Str(s),
        Value::Array(a) => Json::Arr(a.into_iter().map(json_of_value).collect()),
        Value::Object(m) => Json::Obj(m.into_iter().map(|(k, w)| (k, json_of_value(w))).collect()),
    }
}

/// The value of the first field named `key`, if any.
pub open spec fn spec_obj_get(fields: Seq<(String, Json)>, key: Seq<char>) -> Option<Json>
    decreases fields.len(),
{
    if fields.len() == 0 {
        None
    } else if fields[0].0@ == key {
        Some(fields[0].1)
    } else {
        spec_obj_get(fields.skip(1), key)
    }
}

/// Whether two string slices hold the same characters.
pub fn str_eq(a: &str, b: &str) -> (r: bool)
    ensures
        r == (a@ == b@),
{
    let sa = String::from_str(a);
    let sb = String::from_str(b);
    sa == sb
}

/// Position of the first field named `key`, if any.
pub fn obj_get_index(fields: &Vec<(String, Json)>, key: &str) -> (r: Option<usize>)
    ensures
        match r {
            Some(i) => i < fields@.len() && spec_obj_get(fields@, key@) == Some(
                fields@[i as int].1,
            ),
            None => spec_obj_get(fields@, key@) is None,
        },
{
    let mut i: usize = 0;
    assert(fields@.skip(0) =~= fields@);
    while i < fields.len()
        invariant
            i <= fields.len(),
            spec_obj_get(fields@, key@) == spec_obj_get(fields@.skip(i as int), key@),
        decreases fields.len() - i,
    {
        assert(fields@.skip(i as int)[0] == fields@[i as int]);
        if str_eq(fields[i].0.as_str(), key) {
            return Some(i);
        }
        assert(fields@.skip(i as int).skip(1) =~= fields@.skip(i as int + 1));
        i = i + 1;
    }
    assert(fields@.skip(i as int).len() == 0);
    None
}

/// Field lookup in an object's field list: the first binding of `key`.
pub fn obj_get<'a>(fields: &'a Vec<(String, Json)>, key: &str) -> (r: Option<&'a Json>)
    ensures
        match r {
            Some(j) => spec_obj_get(fields@, key@) == Some(*j),
            None => spec_obj_get(fields@, key@) is None,
        },
{
    match obj_get_index(fields, key) {
        Some(i) => Some(&fields[i].1),
        None => None,
    }
}

} // verus!
