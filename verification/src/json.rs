//! JSON documents, read and written by `serde_json`, held as a value of the
//! library's own, on which the field reads are verified.

use vstd::prelude::*;
use crate::text::str_eq;

verus! {

#[verifier::external_type_specification]
#[verifier::external_body]
pub struct ExJsonNumber(serde_json::Number);

#[verifier::external_type_specification]
#[verifier::external_body]
pub struct ExJsonValue(serde_json::Value);

/// A JSON value, one for one with `serde_json::Value`: numbers are kept as
/// `serde_json` holds them, object members in the order `serde_json::Map`
/// keeps them (by key).
#[derive(Debug, PartialEq)]
pub enum JsonValue {
    Null,
    Bool(bool),
    Number(serde_json::Number),
    Str(String),
    Array(Vec<JsonValue>),
    Object(Vec<(String, JsonValue)>),
}

/// The value that `serde_json::from_str` reads from the text `body`; `None`
/// where `body` is no JSON.
pub uninterp spec fn json_parse(body: Seq<char>) -> Option<JsonValue>;

/// The text that `serde_json` writes for `v` (`Display` of `Value`:
/// compact, strings quoted and escaped).
pub uninterp spec fn json_text(v: JsonValue) -> Seq<char>;

/// Turns a `serde_json::Value` into a `JsonValue`, variant for variant.
#[verifier::external_body]
fn from_serde(v: serde_json::Value) -> JsonValue {
    match v {
        serde_json::Value::Null => JsonValue::Null,
        serde_json::Value::Bool(b) => JsonValue::Bool(b),
        serde_json::Value::Number(n) => JsonValue::Number(n),
        serde_json::Value::String(s) => JsonValue::Str(s),
        serde_json::Value::Array(a) => JsonValue::Array(a.into_iter().map(from_serde).collect()),
        serde_json::Value::Object(o) => JsonValue::Object(
            o.into_iter().map(|(k, x)| (k, from_serde(x))).collect(),
        ),
    }
}

/// Turns a `JsonValue` into a `serde_json::Value`, variant for variant.
#[verifier::external_body]
fn to_serde(v: &JsonValue) -> serde_json::Value {
    match v {
        JsonValue::Null => serde_json::Value::Null,
        JsonValue::Bool(b) => serde_json::Value::Bool(*b),
        JsonValue::Number(n) => serde_json::Value::Number(n.clone()),
        JsonValue::Str(s) => serde_json::Value::String(s.clone()),
        JsonValue::Array(a) => serde_json::Value::Array(a.iter().map(to_serde).collect()),
        JsonValue::Object(o) => serde_json::Value::Object(
            o.iter().map(|(k, x)| (k.clone(), to_serde(x))).collect(),
        ),
    }
}

/// `serde_json::from_str` into a `serde_json::Value`, turned into a
/// `JsonValue`: what is read is the name `json_parse`; nothing more is
/// claimed of it.
#[verifier::external_body]
pub(crate) fn parse_json(body: &str) -> (r: Option<JsonValue>)
    ensures
        r == json_parse(body@),
{
    match serde_json::from_str::<serde_json::Value>(body) {
        Ok(v) => Some(from_serde(v)),
        Err(_) => None,
    }
}

/// `Display` of the `serde_json::Value` that `v` stands for: what is written
/// is the name `json_text`; nothing more is claimed of it.
#[verifier::external_body]
pub(crate) fn json_to_text(v: &JsonValue) -> (r: String)
    ensures
        r@ == json_text(*v),
{
    to_serde(v).to_string()
}

/// The value of the first member of `fields` named `key`.
pub open spec fn field_value(fields: Seq<(String, JsonValue)>, key: Seq<char>) -> Option<JsonValue>
    decreases fields.len(),
{
    if fields.len() == 0 {
        None
    } else if fields[0].0@ == key {
        Some(fields[0].1)
    } else {
        field_value(fields.drop_first(), key)
    }
}

/// The member `key` of `v`, where `v` is an object that has one.
pub open spec fn json_get(v: JsonValue, key: Seq<char>) -> Option<JsonValue> {
    match v {
        JsonValue::Object(fields) => field_value(fields@, key),
        _ => None,
    }
}

/// The string that `v` is, where it is one.
pub open spec fn json_str(v: Option<JsonValue>) -> Option<Seq<char>> {
    match v {
        Some(JsonValue::Str(s)) => Some(s@),
        _ => None,
    }
}

/// The member `key` of `v`, where `v` is an object that has one.
pub fn object_get<'a>(v: &'a JsonValue, key: &str) -> (r: Option<&'a JsonValue>)
    ensures
        r is None <==> json_get(*v, key@) is None,
        r matches Some(x) ==> json_get(*v, key@) == Some(*x),
{
    match v {
        JsonValue::Object(fields) => {
            let mut i: usize = 0;
            assert(fields@.skip(0) =~= fields@);
            while i < fields.len()
                invariant
                    i <= fields.len(),
                    json_get(*v, key@) == field_value(fields@, key@),
                    field_value(fields@, key@) == field_value(fields@.skip(i as int), key@),
                decreases fields.len() - i,
            {
                assert(fields@.skip(i as int).drop_first() =~= fields@.skip(i + 1));
                assert(fields@.skip(i as int)[0] == fields@[i as int]);
                if str_eq(fields[i].0.as_str(), key) {
                    return Some(&fields[i].1);
                }
                i = i + 1;
            }
            None
        },
        _ => None,
    }
}

/// The string that `v` is, where it is one.
pub fn as_str(v: Option<&JsonValue>) -> (r: Option<&String>)
    ensures
        r is None <==> json_str(match v {
            Some(x) => Some(*x),
            None => None,
        }) is None,
        r matches Some(s) ==> json_str(match v {
            Some(x) => Some(*x),
            None => None,
        }) == Some(s@),
{
    match v {
        Some(JsonValue::Str(s)) => Some(s),
        _ => None,
    }
}

} // verus!
