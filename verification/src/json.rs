//! A mathematical model of decoded JSON documents.
//!
//! Decoded response pages arrive as `serde_json::Value` trees, which the
//! verifier treats as opaque. `JsonRep` gives each such tree a mathematical
//! value, named by `json_rep`; the small wrappers below state what parsing
//! and the navigation methods of `serde_json::Value` yield in terms of it.

use vstd::prelude::*;

verus! {

/// The mathematical value of a JSON document.
///
/// A number is recorded as its `u64` value when it is a non-negative integer
/// that fits in one, and as `Num(None)` otherwise; the comment listings read
/// only non-negative integer counts.
pub enum JsonRep {
    Null,
    Bool(bool),
    Num(Option<u64>),
    Str(Seq<char>),
    Arr(Seq<JsonRep>),
    Obj(Map<Seq<char>, JsonRep>),
}

#[verifier::external_type_specification]
#[verifier::external_body]
pub struct ExJsonValue(serde_json::Value);

/// What a `serde_json::Value` tree holds, as a mathematical JSON value.
pub uninterp spec fn json_rep(v: serde_json::Value) -> JsonRep;

/// What `serde_json::from_str` yields on a given string: `None` when the
/// string is not a JSON document, otherwise the document's value.
pub uninterp spec fn json_of(s: Seq<char>) -> Option<JsonRep>;

/// Relies on `serde_json::from_str`: parsing is a function of the input
/// string alone, and its outcome is named `json_of`.
#[verifier::external_body]
pub(crate) fn parse_json(s: &str) -> (r: Option<serde_json::Value>)
    ensures
        match r {
            Some(v) => json_of(s@) == Some(json_rep(v)),
            None => json_of(s@) is None,
        },
{
    serde_json::from_str(s).ok()
}

/// Relies on `serde_json::Value::get` with a string index: on an object it
/// looks the key up, on anything else it returns `None`.
#[verifier::external_body]
pub(crate) fn json_get<'a>(v: &'a serde_json::Value, key: &str) -> (r: Option<&'a serde_json::Value>)
    ensures
        match json_rep(*v) {
            JsonRep::Obj(m) => match r {
                Some(x) => m.dom().contains(key@) && json_rep(*x) == m[key@],
                None => !m.dom().contains(key@),
            },
            _ => r is None,
        },
{
    v.get(key)
}

/// Relies on `serde_json::Value::as_array`: the elements of an array, in
/// order, and `None` on any other value.
#[verifier::external_body]
pub(crate) fn json_as_array<'a>(v: &'a serde_json::Value) -> (r: Option<&'a Vec<serde_json::Value>>)
    ensures
        match json_rep(*v) {
            JsonRep::Arr(s) => match r {
                Some(a) => a@.len() == s.len() && (forall|i: int|
                    0 <= i < s.len() ==> json_rep(a@[i]) == s[i]),
                None => false,
            },
            _ => r is None,
        },
{
    v.as_array()
}

/// Relies on `serde_json::Value::as_str`: the characters of a string value,
/// and `None` on any other value.
#[verifier::external_body]
pub(crate) fn json_as_str<'a>(v: &'a serde_json::Value) -> (r: Option<&'a str>)
    ensures
        match json_rep(*v) {
            JsonRep::Str(s) => r matches Some(x) && x@ == s,
            _ => r is None,
        },
{
    v.as_str()
}

/// Relies on `serde_json::Value::as_u64`: the value of a number stored as a
/// non-negative integer that fits in a `u64`, and `None` otherwise.
#[verifier::external_body]
pub(crate) fn json_as_u64(v: &serde_json::Value) -> (r: Option<u64>)
    ensures
        match json_rep(*v) {
            JsonRep::Num(o) => r == o,
            _ => r is None,
        },
{
    v.as_u64()
}

/// The value of `key` in a JSON object, when `j` is an object that has it.
pub open spec fn field(j: JsonRep, key: Seq<char>) -> Option<JsonRep> {
    match j {
        JsonRep::Obj(m) => if m.dom().contains(key) {
            Some(m[key])
        } else {
            None
        },
        _ => None,
    }
}

/// The characters of the string under `key`, when `j` is an object whose
/// `key` field is a string.
pub open spec fn str_field(j: JsonRep, key: Seq<char>) -> Option<Seq<char>> {
    match field(j, key) {
        Some(JsonRep::Str(s)) => Some(s),
        _ => None,
    }
}

/// The value of the number under `key`, when `j` is an object whose `key`
/// field is a number with a `u64` value.
pub open spec fn u64_field(j: JsonRep, key: Seq<char>) -> Option<u64> {
    match field(j, key) {
        Some(JsonRep::Num(o)) => o,
        _ => None,
    }
}

/// Look a field up, as `field` describes.
pub(crate) fn get_field<'a>(v: &'a serde_json::Value, key: &str) -> (r: Option<&'a serde_json::Value>)
    ensures
        match r {
            Some(x) => field(json_rep(*v), key@) == Some(json_rep(*x)),
            None => field(json_rep(*v), key@) is None,
        },
{
    json_get(v, key)
}

} // verus!
