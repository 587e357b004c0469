//! JSON as the engine sees it.
//!
//! Payloads travel through the engine as `serde_json::Value`, which the
//! verifier cannot look into. What the wire format needs to know of a value
//! has a name here, and each name is tied to the function of `serde_json`
//! that computes it.

use vstd::prelude::*;

verus! {

/// `serde_json::Value`: a JSON document.
#[verifier::external_type_specification]
#[verifier::external_body]
pub struct ExValue(serde_json::Value);

/// `serde_json::Error`: why a text is no JSON, or a value could not be
/// written as JSON.
#[verifier::external_type_specification]
#[verifier::external_body]
pub struct ExJsonError(serde_json::Error);

/// The document that a text is parsed as; `None` where the text is not one
/// JSON document.
pub uninterp spec fn json_parse(text: Seq<char>) -> Option<serde_json::Value>;

/// The compact text that a document is written as.
pub uninterp spec fn json_text(value: serde_json::Value) -> Option<Seq<char>>;

/// The members of an object, by key. Any other value has none.
pub uninterp spec fn json_members(value: serde_json::Value) -> Map<Seq<char>, serde_json::Value>;

/// Whether a value is `null`.
pub uninterp spec fn json_is_null(value: serde_json::Value) -> bool;

/// The number that a value is, where it is an integer from 0 to `u64::MAX`.
pub uninterp spec fn json_u64(value: serde_json::Value) -> Option<u64>;

/// The truth value that a value is, where it is `true` or `false`.
pub uninterp spec fn json_bool(value: serde_json::Value) -> Option<bool>;

/// The text that a value is, where it is a string.
pub uninterp spec fn json_str(value: serde_json::Value) -> Option<Seq<char>>;

/// The span of time that a value is, where it is a number of seconds that a
/// `Duration` can hold: finite, not negative and not too large.
pub uninterp spec fn json_seconds(value: serde_json::Value) -> Option<std::time::Duration>;

/// The text that a string is written as in JSON: quoted and escaped.
pub uninterp spec fn json_quote(text: Seq<char>) -> Option<Seq<char>>;

/// The text that a span of time is written as: its seconds as a JSON number.
pub uninterp spec fn json_seconds_text(span: std::time::Duration) -> Option<Seq<char>>;

/// The member of an object under a key, if there is one.
pub open spec fn member(value: serde_json::Value, key: Seq<char>) -> Option<serde_json::Value> {
    if json_members(value).dom().contains(key) {
        Some(json_members(value)[key])
    } else {
        None
    }
}

/// `serde_json::from_str` for a `Value`: the document that the text holds.
/// The reason for which a text is refused is dropped.
#[verifier::external_body]
pub(crate) fn parse(text: &str) -> (value: Option<serde_json::Value>)
    ensures
        value == json_parse(text@),
{
    serde_json::from_str::<serde_json::Value>(text).ok()
}

/// `serde_json::to_string` for a `Value`: the document as compact text.
#[verifier::external_body]
pub(crate) fn to_text(value: &serde_json::Value) -> (text: Result<String, serde_json::Error>)
    ensures
        match text {
            Ok(written) => json_text(*value) == Some(written@),
            Err(_) => json_text(*value) is None,
        },
{
    serde_json::to_string(value)
}

/// `serde_json::Value::get` with a string as the index: the member of an
/// object under that key; nothing for a key that the object lacks and for a
/// value that is no object.
#[verifier::external_body]
pub(crate) fn get<'a>(value: &'a serde_json::Value, key: &str) -> (found: Option<
    &'a serde_json::Value,
>)
    ensures
        match found {
            Some(inner) => json_members(*value).dom().contains(key@) && json_members(
                *value,
            )[key@] == *inner,
            None => !json_members(*value).dom().contains(key@),
        },
{
    value.get(key)
}

/// `serde_json::Value::is_null`: true exactly for the variant `Null`.
pub assume_specification[ serde_json::Value::is_null ](value: &serde_json::Value) -> (b: bool)
    ensures
        b == json_is_null(*value),
;

/// `serde_json::Value::as_u64`: the number, where the value is an integer
/// that fits.
pub assume_specification[ serde_json::Value::as_u64 ](value: &serde_json::Value) -> (number:
    Option<u64>)
    ensures
        number == json_u64(*value),
;

/// `serde_json::Value::as_bool`: the truth value, where the value is one.
pub assume_specification[ serde_json::Value::as_bool ](value: &serde_json::Value) -> (flag:
    Option<bool>)
    ensures
        flag == json_bool(*value),
;

/// `serde_json::Value::as_str`: the text, where the value is a string.
#[verifier::external_body]
pub(crate) fn as_text(value: &serde_json::Value) -> (text: Option<String>)
    ensures
        match text {
            Some(content) => json_str(*value) == Some(content@),
            None => json_str(*value) is None,
        },
{
    value.as_str().map(String::from)
}

/// `serde_json::Value::as_f64` followed by `Duration::try_from_secs_f64`: the
/// span of time for a number of seconds. A value that is no number, and a
/// number that is negative or too large for a `Duration`, give nothing.
#[verifier::external_body]
pub(crate) fn as_seconds(value: &serde_json::Value) -> (span: Option<std::time::Duration>)
    ensures
        span == json_seconds(*value),
{
    match value.as_f64() {
        Some(seconds) => std::time::Duration::try_from_secs_f64(seconds).ok(),
        None => None,
    }
}

/// `serde_json::to_string` for a string: the text in quotes, with what JSON
/// asks to be escaped written as an escape.
#[verifier::external_body]
pub(crate) fn quote(text: &str) -> (quoted: Result<String, serde_json::Error>)
    ensures
        match quoted {
            Ok(written) => json_quote(text@) == Some(written@),
            Err(_) => json_quote(text@) is None,
        },
{
    serde_json::to_string(text)
}

/// `Duration::as_secs_f64` followed by `serde_json::to_string`: the seconds
/// of a span of time as a JSON number.
#[verifier::external_body]
pub(crate) fn seconds_text(span: &std::time::Duration) -> (text: Result<String, serde_json::Error>)
    ensures
        match text {
            Ok(written) => json_seconds_text(*span) == Some(written@),
            Err(_) => json_seconds_text(*span) is None,
        },
{
    serde_json::to_string(&span.as_secs_f64())
}

/// `Clone` for `serde_json::Value`: the copy is the same document.
pub assume_specification[ <serde_json::Value as Clone>::clone ](
    value: &serde_json::Value,
) -> (copy: serde_json::Value)
    ensures
        copy == *value,
;

/// `Default` for `serde_json::Value`, which is `Value::Null`.
pub assume_specification[ <serde_json::Value as Default>::default ]() -> (value: serde_json::Value)
    ensures
        json_is_null(value),
;

} // verus!
