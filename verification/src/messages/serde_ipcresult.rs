//! How the result of a command is written on the wire.
//!
//! The wire has no separate field for success. The field `error` holds the
//! word `success` where the command succeeded, and the player's message where
//! it failed; the value of a success travels in the field `data`, which is
//! left out where the value is `null`.

use vstd::prelude::*;
use vstd::string::StringExecFns;
use crate::json::json_is_null;

verus! {

/// The two fields that carry a result on the wire.
#[derive(Debug, PartialEq, Eq)]
pub struct WireMessage {
    pub error: String,
    /// `None` where the line has no `data` field.
    pub data: Option<serde_json::Value>,
}

pub type WireResult = Result<serde_json::Value, String>;

/// The content of `error` that marks a success.
pub open spec fn success_marker() -> Seq<char> {
    "success"@
}

/// What the field `error` holds for a result: the success marker, or the
/// message of the error.
pub open spec fn wire_error_of(result: WireResult) -> Seq<char> {
    match result {
        Ok(_) => success_marker(),
        Err(message) => message@,
    }
}

/// What the field `data` holds for a result: the value of a success, unless
/// it is `null`.
pub open spec fn wire_data_of(result: WireResult) -> Option<serde_json::Value> {
    match result {
        Ok(value) => if json_is_null(value) {
            None
        } else {
            Some(value)
        },
        Err(_) => None,
    }
}

/// `wire` is how `result` is written.
pub open spec fn encodes(result: WireResult, wire: WireMessage) -> bool {
    wire.error@ == wire_error_of(result) && wire.data == wire_data_of(result)
}

/// `result` is what the two fields are read as: with the success marker, the
/// value in `data`, or `null` where there is none; with anything else, the
/// error with that message.
pub open spec fn reads_as(
    error: Seq<char>,
    data: Option<serde_json::Value>,
    result: WireResult,
) -> bool {
    if error == success_marker() {
        &&& result is Ok
        &&& match data {
            Some(value) => result->Ok_0 == value,
            None => json_is_null(result->Ok_0),
        }
    } else {
        result is Err && result->Err_0@ == error
    }
}

/// `result` is what `wire` is read as.
pub open spec fn decodes(wire: WireMessage, result: WireResult) -> bool {
    reads_as(wire.error@, wire.data, result)
}

/// Writes a result as its two wire fields.
pub fn serialize(result: &WireResult) -> (wire: WireMessage)
    ensures
        encodes(*result, wire),
{
    match result {
        Ok(value) => {
            let data = if value.is_null() {
                None
            } else {
                Some(value.clone())
            };
            WireMessage { error: String::from_str("success"), data }
        },
        Err(message) => WireMessage { error: message.clone(), data: None },
    }
}

/// Reads the two wire fields as a result. A success without `data` is the
/// value `null`, not an error.
pub fn deserialize(wire: WireMessage) -> (result: WireResult)
    ensures
        decodes(wire, result),
{
    let marker = String::from_str("success");
    if wire.error == marker {
        match wire.data {
            Some(value) => Ok(value),
            None => Ok(serde_json::Value::default()),
        }
    } else {
        Err(wire.error)
    }
}

/// Reading what was written gives the result back: an error with its
/// message, a value as it was, and `null` as `null`. The one result that does
/// not come back is an error whose message is the success marker itself.
pub proof fn lemma_round_trip(result: WireResult, wire: WireMessage, back: WireResult)
    requires
        encodes(result, wire),
        decodes(wire, back),
        result is Err ==> result->Err_0@ != success_marker(),
    ensures
        result is Err ==> back is Err && back->Err_0@ == result->Err_0@,
        result is Ok ==> back is Ok,
        result is Ok && !json_is_null(result->Ok_0) ==> back == result,
        result is Ok && json_is_null(result->Ok_0) ==> json_is_null(back->Ok_0),
{
}

/// Whatever the `data` field holds, a line whose `error` is not the success
/// marker is read as that error.
pub proof fn lemma_error_wins(wire: WireMessage, result: WireResult)
    requires
        decodes(wire, result),
        wire.error@ != success_marker(),
    ensures
        result is Err,
        result->Err_0@ == wire.error@,
{
}

} // verus!
