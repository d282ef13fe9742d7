//! What this library takes on trust of `serde_json`, which reads the JSON
//! that events carry.

use serde_json::Value;
use vstd::prelude::*;

verus! {

/// A JSON value of `serde_json`. Nothing of its inside is known here: it is
/// read through the functions below.
#[verifier::external_type_specification]
#[verifier::external_body]
pub struct ExValue(serde_json::Value);

/// The JSON value that a byte string spells, if it spells one.
pub uninterp spec fn json_parsed(bytes: Seq<u8>) -> Option<Value>;

/// The member of a JSON object under a key. A value that is no object has
/// no members.
pub uninterp spec fn json_member(value: Value, key: Seq<char>) -> Option<Value>;

/// The text of a JSON string. A value that is no string has none.
pub uninterp spec fn json_text(value: Value) -> Option<Seq<char>>;

/// Parses a byte string as one JSON document with `serde_json::from_slice`;
/// why a text was refused is dropped. The contract claims only that the
/// outcome is a function of the bytes: the same bytes give the same value,
/// or are refused, every time.
#[verifier::external_body]
pub(crate) fn parse(bytes: &[u8]) -> (result: Option<Value>)
    ensures
        result == json_parsed(bytes@),
{
    serde_json::from_slice(bytes).ok()
}

/// Looks a key up in a JSON value with `serde_json::Value::get`, which
/// gives the member of an object under that key, and nothing for a value
/// that is no object or an object without the key.
#[verifier::external_body]
pub(crate) fn member<'a>(value: &'a Value, key: &str) -> (found: Option<&'a Value>)
    ensures
        match found {
            Some(inner) => json_member(*value, key@) == Some(*inner),
            None => json_member(*value, key@) is None,
        },
{
    value.get(key)
}

/// Reads a JSON value as a string with `serde_json::Value::as_str`, which
/// gives the text of a string and nothing for any other value.
#[verifier::external_body]
pub(crate) fn text(value: &Value) -> (found: Option<&str>)
    ensures
        match found {
            Some(s) => json_text(*value) == Some(s@),
            None => json_text(*value) is None,
        },
{
    value.as_str()
}

} // verus!
