//! The JSON reader that frames are parsed with. Its values are opaque here:
//! what it finds in a text is named, not described.

use vstd::prelude::*;

verus! {

/// `serde_json::Value`, a parsed JSON value, carried through as it is.
#[verifier::external_type_specification]
#[verifier::external_body]
pub struct ExJsonValue(serde_json::Value);

/// `serde_json::Error`, why a text could not be read. Nothing reads it.
#[verifier::external_type_specification]
#[verifier::external_body]
pub struct ExJsonError(serde_json::Error);

/// The items of the JSON array that a text holds; `None` where the text is
/// no JSON array.
pub uninterp spec fn json_array(text: Seq<char>) -> Option<Seq<serde_json::Value>>;

/// The JSON value that a text holds; `None` where the text is no JSON.
pub uninterp spec fn json_value(text: Seq<char>) -> Option<serde_json::Value>;

/// The member of a JSON object under a key; `None` where the value is no
/// object or has no such member.
pub uninterp spec fn json_member(value: serde_json::Value, key: Seq<char>) -> Option<
    serde_json::Value,
>;

/// The text of a JSON string; `None` where the value is no string.
pub uninterp spec fn json_text(value: serde_json::Value) -> Option<Seq<char>>;

/// `serde_json::from_str` at the type `Vec<Value>`: reads a text as a JSON
/// array. What it gives for a text is `json_array` of that text, and it
/// fails exactly where that is `None`.
#[verifier::external_body]
pub(crate) fn parse_array(text: &str) -> (parsed: Result<Vec<serde_json::Value>, serde_json::Error>)
    ensures
        match parsed {
            Ok(items) => json_array(text@) == Some(items@),
            Err(_) => json_array(text@) is None,
        },
{
    serde_json::from_str::<Vec<serde_json::Value>>(text)
}

/// `serde_json::from_str` at the type `Value`: reads a text as any JSON
/// value. What it gives for a text is `json_value` of that text, and it
/// fails exactly where that is `None`.
#[verifier::external_body]
pub(crate) fn parse_value(text: &str) -> (parsed: Result<serde_json::Value, serde_json::Error>)
    ensures
        match parsed {
            Ok(value) => json_value(text@) == Some(value),
            Err(_) => json_value(text@) is None,
        },
{
    serde_json::from_str::<serde_json::Value>(text)
}

/// `serde_json::Value::get` with a string key: the member of an object under
/// that key, which is `json_member` of the value and the key.
#[verifier::external_body]
pub(crate) fn member<'a>(value: &'a serde_json::Value, key: &str) -> (found: Option<
    &'a serde_json::Value,
>)
    ensures
        match found {
            Some(inner) => json_member(*value, key@) == Some(*inner),
            None => json_member(*value, key@) is None,
        },
{
    value.get(key)
}

/// `serde_json::Value::as_str`: the text of a JSON string, copied, which is
/// `json_text` of the value.
#[verifier::external_body]
pub(crate) fn text_of(value: &serde_json::Value) -> (text: Option<String>)
    ensures
        match text {
            Some(s) => json_text(*value) == Some(s@),
            None => json_text(*value) is None,
        },
{
    match value.as_str() {
        Some(s) => Some(s.to_string()),
        None => None,
    }
}

} // verus!
