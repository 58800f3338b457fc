//! JSON documents, read through serde_json, and the model that contracts use
//! to speak of them.
use vstd::prelude::*;

verus! {

/// serde_json's parsed value; what it holds is `json_content`.
#[verifier::external_type_specification]
#[verifier::external_body]
pub struct ExJsonValue(serde_json::Value);

/// serde_json's number, carried from a document into a reading unchanged.
#[verifier::external_type_specification]
#[verifier::external_body]
pub struct ExJsonNumber(serde_json::Number);

/// serde_json's error for a text that is not JSON, carried to the caller.
#[verifier::external_type_specification]
#[verifier::external_body]
pub struct ExJsonError(serde_json::Error);

/// A JSON number: the number itself, carried unchanged, and its reading as
/// a non-negative integer where it is one.
pub struct JsonNumber {
    pub value: serde_json::Number,
    pub unsigned: Option<u64>,
}

/// A JSON value as a mathematical object. An object maps each member name
/// to the value it holds.
pub enum Json {
    Null,
    Bool(bool),
    Number(JsonNumber),
    Text(Seq<char>),
    Array(Seq<Json>),
    Object(Map<Seq<char>, Json>),
}

/// The document that serde_json reads from `text`, or `None` where serde_json
/// refuses the text.
pub uninterp spec fn json_document(text: Seq<char>) -> Option<Json>;

/// What a parsed `serde_json::Value` holds.
pub uninterp spec fn json_content(v: serde_json::Value) -> Json;

/// The member named `key` of `j`, where `j` is an object that has one.
pub open spec fn json_member(j: Option<Json>, key: Seq<char>) -> Option<Json> {
    match j {
        Some(Json::Object(members)) => if members.contains_key(key) {
            Some(members[key])
        } else {
            None
        },
        _ => None,
    }
}

/// The characters of `j`, where `j` is a string.
pub open spec fn json_text(j: Option<Json>) -> Option<Seq<char>> {
    match j {
        Some(Json::Text(s)) => Some(s),
        _ => None,
    }
}

/// The number `j`, where `j` is a number.
pub open spec fn json_number(j: Option<Json>) -> Option<serde_json::Number> {
    match j {
        Some(Json::Number(n)) => Some(n.value),
        _ => None,
    }
}

/// The non-negative integer `j`, where `j` is one.
pub open spec fn json_unsigned(j: Option<Json>) -> Option<u64> {
    match j {
        Some(Json::Number(n)) => n.unsigned,
        _ => None,
    }
}

/// Relies on `serde_json::from_str`: reads `text` as one JSON document, or
/// fails with serde_json's error.
#[verifier::external_body]
pub(crate) fn parse_document(text: &str) -> (r: Result<serde_json::Value, serde_json::Error>)
    ensures
        r is Ok <==> json_document(text@) is Some,
        r matches Ok(v) ==> json_document(text@) == Some(json_content(v)),
{
    serde_json::from_str(text)
}

/// Relies on `serde_json::Value::get` with a string key: the member of an
/// object under that name; `None` for any other value.
#[verifier::external_body]
pub(crate) fn member<'a>(v: &'a serde_json::Value, key: &str) -> (r: Option<&'a serde_json::Value>)
    ensures
        r is Some <==> json_member(Some(json_content(*v)), key@) is Some,
        r matches Some(m) ==> json_member(Some(json_content(*v)), key@) == Some(json_content(*m)),
{
    v.get(key)
}

/// Relies on `serde_json::Value::as_str`: the text of a string value.
pub assume_specification[ serde_json::Value::as_str ](v: &serde_json::Value) -> (r: Option<&str>)
    ensures
        r is Some <==> json_text(Some(json_content(*v))) is Some,
        r matches Some(s) ==> json_text(Some(json_content(*v))) == Some(s@),
;

/// Relies on `serde_json::Value::as_u64`: a number that is a non-negative
/// integer, read as one.
pub assume_specification[ serde_json::Value::as_u64 ](v: &serde_json::Value) -> (r: Option<u64>)
    ensures
        r == json_unsigned(Some(json_content(*v))),
;

/// Relies on `serde_json::Value::as_number`: the number that a number value
/// holds.
pub assume_specification[ serde_json::Value::as_number ](v: &serde_json::Value) -> (r: Option<&serde_json::Number>)
    ensures
        r is Some <==> json_number(Some(json_content(*v))) is Some,
        r matches Some(n) ==> json_number(Some(json_content(*v))) == Some(*n),
;

/// Relies on the `Clone` of `serde_json::Number`: an equal number.
pub assume_specification[ <serde_json::Number as Clone>::clone ](n: &serde_json::Number) -> (r: serde_json::Number)
    ensures
        r == *n,
;

/// The member named `key` of the value `v`, if `v` is present and is an
/// object that has one.
pub fn member_in<'a>(v: Option<&'a serde_json::Value>, key: &str) -> (r: Option<&'a serde_json::Value>)
    ensures
        r is Some <==> json_member(content_of(v), key@) is Some,
        r matches Some(m) ==> json_member(content_of(v), key@) == Some(json_content(*m)),
{
    match v {
        Some(x) => member(x, key),
        None => None,
    }
}

/// What an optional value holds.
pub open spec fn content_of(v: Option<&serde_json::Value>) -> Option<Json> {
    match v {
        Some(x) => Some(json_content(*x)),
        None => None,
    }
}

} // verus!
