//! The messages of the wire protocol.
//!
//! A line from the player is an [`MPVEnvelope`]: an event or the response to a
//! command. A line to the player is a [`Command`].

use vstd::prelude::*;

pub mod serde_ipcresult;

verus! {

/// `Clone` for `std::time::Duration`, a `Copy` type: the copy is the same
/// span of time.
pub assume_specification[ <std::time::Duration as Clone>::clone ](
    span: &std::time::Duration,
) -> (copy: std::time::Duration)
    ensures
        copy == *span,
;

/// A change of a property that the engine observes, told apart by the
/// property's name.
#[derive(Debug, Clone, PartialEq, Eq)]
pub enum PropertyChange {
    /// `time-pos`: how far playback has come.
    TimePos { seconds: std::time::Duration },
}

/// What an event reports, told apart by the event's name.
#[derive(Debug, Clone, PartialEq, Eq)]
pub enum MPVEventKind {
    /// `start-file`: the player begins to load an entry of its playlist.
    StartFile { playlist_entry_id: u64 },
    /// `property-change`: an observed property has a new value.
    PropertyChange(PropertyChange),
}

/// A message that the player sends on its own.
#[derive(Debug, Clone, PartialEq, Eq)]
pub struct MPVEvent {
    /// The id of the observation that the event belongs to, 0 where the
    /// player names none.
    pub id: u64,
    pub error: Option<String>,
    pub event: MPVEventKind,
}

/// The player's answer to the command with the same `request_id`.
#[derive(Debug, PartialEq, Eq)]
pub struct Response {
    pub request_id: u64,
    /// Either the value that the command produced or the player's error
    /// message, never both.
    pub result: Result<serde_json::Value, String>,
}

/// One line from the player.
#[derive(Debug, PartialEq, Eq)]
pub enum MPVEnvelope {
    Event(MPVEvent),
    Response(Response),
}

/// One line to the player.
#[derive(Debug, PartialEq, Eq)]
pub struct Command {
    /// The correlation id; 0 means that no response is expected.
    pub request_id: u64,
    /// The player's own command and its arguments.
    pub command: serde_json::Value,
    pub async_: bool,
}

/// Whether a correlation or observation id is the sentinel 0, which is left
/// out of the wire encoding.
pub fn is_zero(num: &u64) -> (zero: bool)
    ensures
        zero == (*num == 0),
{
    *num == 0
}

/// Whether a flag is unset, in which case it is left out of the wire encoding.
pub fn is_false(b: &bool) -> (unset: bool)
    ensures
        unset == !*b,
{
    !*b
}

impl Command {
    /// The command that the engine sends for a payload under a correlation id:
    /// it is always marked asynchronous.
    pub fn new(request_id: u64, command: serde_json::Value) -> (wire: Command)
        ensures
            wire == (Command { request_id, command, async_: true }),
    {
        Command { request_id, command, async_: true }
    }
}

} // verus!
