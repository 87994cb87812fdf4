//! The trusted boundary around serde_json: the JSON value and error types,
//! the line decoder, field access, and the two encoders that the formatting
//! logic calls. Each name below stands for the result of one serde_json
//! function, which depends on its arguments alone.

use vstd::prelude::*;

verus! {

#[verifier::external_type_specification]
#[verifier::external_body]
pub struct ExValue(serde_json::Value);

#[verifier::external_type_specification]
#[verifier::external_body]
pub struct ExJsonError(serde_json::Error);

/// The value that `serde_json::from_str::<Value>` decodes a line to, or
/// `None` where the line is not valid JSON.
pub uninterp spec fn parsed_json(s: Seq<char>) -> Option<serde_json::Value>;

/// The member stored under `key` in `v`, as square-bracket indexing on
/// `serde_json::Value` reads it: JSON null where `v` is not an object or
/// holds no such key.
pub uninterp spec fn field_of(v: serde_json::Value, key: Seq<char>) -> serde_json::Value;

/// The characters of `v` where `v` is a JSON string, `None` otherwise, as
/// `serde_json::Value::as_str` reads them.
pub uninterp spec fn str_of(v: serde_json::Value) -> Option<Seq<char>>;

/// The elements of `v` where `v` is a JSON array, `None` otherwise, as
/// `serde_json::Value::as_array` reads them.
pub uninterp spec fn arr_of(v: serde_json::Value) -> Option<Seq<serde_json::Value>>;

/// The compact JSON text of `v` as `serde_json::to_string` renders it, or
/// `None` where serialization fails.
pub uninterp spec fn compact_of(v: serde_json::Value) -> Option<Seq<char>>;

/// The indented JSON text of `v` as `serde_json::to_string_pretty` renders
/// it, or `None` where serialization fails.
pub uninterp spec fn pretty_of(v: serde_json::Value) -> Option<Seq<char>>;

/// Relies on serde_json::from_str: decodes one line of text into a JSON
/// value tree, and fails exactly on text that is not valid JSON.
#[verifier::external_body]
pub fn parse_value(line: &str) -> (r: Result<serde_json::Value, serde_json::Error>)
    ensures
        r is Ok <==> parsed_json(line@) is Some,
        r is Ok ==> r->Ok_0 == parsed_json(line@)->0,
{
    serde_json::from_str(line)
}

/// Relies on square-bracket indexing on serde_json::Value with a string
/// key: it returns the member under the key, or JSON null where `v` is not
/// an object or the key is absent, and does not panic.
#[verifier::external_body]
pub fn get_field<'a>(v: &'a serde_json::Value, key: &str) -> (r: &'a serde_json::Value)
    ensures
        *r == field_of(*v, key@),
{
    &v[key]
}

/// Relies on serde_json::Value::as_str: `Some` of the borrowed text exactly
/// where the value is a JSON string.
#[verifier::external_body]
pub fn value_as_str<'a>(v: &'a serde_json::Value) -> (r: Option<&'a str>)
    ensures
        r is Some <==> str_of(*v) is Some,
        r is Some ==> r->0@ == str_of(*v)->0,
{
    v.as_str()
}

/// Relies on serde_json::Value::as_array: `Some` of the borrowed element
/// vector exactly where the value is a JSON array.
#[verifier::external_body]
pub fn value_as_array<'a>(v: &'a serde_json::Value) -> (r: Option<&'a Vec<serde_json::Value>>)
    ensures
        r is Some <==> arr_of(*v) is Some,
        r is Some ==> r->0@ == arr_of(*v)->0,
{
    v.as_array()
}

/// Relies on serde_json::to_string: the compact JSON rendering of the
/// value, with no added whitespace.
#[verifier::external_body]
pub fn to_compact(v: &serde_json::Value) -> (r: Result<String, serde_json::Error>)
    ensures
        r is Ok <==> compact_of(*v) is Some,
        r is Ok ==> r->Ok_0@ == compact_of(*v)->0,
{
    serde_json::to_string(v)
}

/// Relies on serde_json::to_string_pretty: the indented JSON rendering of
/// the value.
#[verifier::external_body]
pub fn to_pretty(v: &serde_json::Value) -> (r: Result<String, serde_json::Error>)
    ensures
        r is Ok <==> pretty_of(*v) is Some,
        r is Ok ==> r->Ok_0@ == pretty_of(*v)->0,
{
    serde_json::to_string_pretty(v)
}

} // verus!
