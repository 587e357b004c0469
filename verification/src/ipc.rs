//! Results of commands, and the decisions of the two sides of the connection:
//! the reader, which routes each line that the player sends, and the caller,
//! which registers a command, sends it and waits for its result.

use vstd::prelude::*;
use vstd::string::StringExecFns;
use futures_channel::oneshot;
use crate::codec::{command_text, envelope_decodes, is_event, is_response};
use crate::json::{json_parse, json_text};
use crate::messages::{Command, MPVEnvelope, MPVEvent};
use crate::pending::Pending;

verus! {

/// `std::io::Error`: carried from the socket to the caller.
#[verifier::external_type_specification]
#[verifier::external_body]
pub struct ExIoError(std::io::Error);

/// Why a command did not yield a value.
#[derive(Debug)]
pub enum IPCError {
    /// The player answered with an error message.
    FromMPV(String),
    /// The command could not be written as JSON; nothing was sent.
    JSONSerialize(serde_json::Error),
    /// Writing to the socket failed.
    Network(std::io::Error),
    /// The connection ended before the response arrived.
    Disconnected,
}

pub type IPCResult = Result<serde_json::Value, IPCError>;

/// `oneshot::Sender::send`: hands the value to the waiting half. Where that
/// half is gone the value comes back as the error.
pub assume_specification<T>[ oneshot::Sender::<T>::send ](
    sender: oneshot::Sender<T>,
    t: T,
) -> (sent: Result<(), T>)
    ensures
        sent is Err ==> sent->Err_0 == t,
;

/// What the reader does with one line from the player.
#[derive(Debug)]
pub enum Routed {
    /// The line is an event: it goes to the subscribers.
    Publish(MPVEvent),
    /// The line answers an outstanding command, whose waiter now has the
    /// result.
    Delivered { request_id: u64 },
    /// The line answers an outstanding command whose waiter has gone away;
    /// the result comes back undelivered.
    Abandoned { request_id: u64, result: IPCResult },
    /// The line answers no outstanding command; it is dropped.
    Unmatched { request_id: u64 },
    /// The line is no message that the engine knows; it is dropped.
    Malformed,
}

/// The result that a waiter gets for what the player answered.
pub open spec fn player_result_spec(answer: Result<serde_json::Value, String>) -> IPCResult {
    match answer {
        Ok(value) => Ok(value),
        Err(message) => Err(IPCError::FromMPV(message)),
    }
}

/// Turns the player's answer into the result of the command: the value as it
/// is, an error message as an error from the player.
pub fn player_result(answer: Result<serde_json::Value, String>) -> (result: IPCResult)
    ensures
        result == player_result_spec(answer),
{
    match answer {
        Ok(value) => Ok(value),
        Err(message) => Err(IPCError::FromMPV(message)),
    }
}

/// How the table and the routing relate for one message.
pub open spec fn routes(pre: Pending, post: Pending, envelope: MPVEnvelope, routed: Routed) -> bool {
    match envelope {
        MPVEnvelope::Event(event) => routed == Routed::Publish(event) && post == pre,
        MPVEnvelope::Response(response) => {
            let request_id = response.request_id;
            &&& Pending::resolves(pre, post, request_id, pre.outstanding().contains(request_id))
            &&& if pre.outstanding().contains(request_id) {
                ||| routed == (Routed::Delivered { request_id })
                ||| routed == (Routed::Abandoned {
                    request_id,
                    result: player_result_spec(response.result),
                })
            } else {
                routed == (Routed::Unmatched { request_id }) && post == pre
            }
        },
    }
}

/// Routes one message from the player. An event is handed back for
/// publishing and the table is left alone. A response resolves the entry of
/// its `request_id`, exactly where that id is outstanding, and the waiter is
/// sent the player's result; where the waiter is gone that result comes back.
/// A response to any other id changes nothing. No message is an error.
pub fn route(pending: &mut Pending, envelope: MPVEnvelope) -> (routed: Routed)
    ensures
        routes(*old(pending), *final(pending), envelope, routed),
{
    match envelope {
        MPVEnvelope::Event(event) => Routed::Publish(event),
        MPVEnvelope::Response(response) => {
            let request_id = response.request_id;
            match pending.get(request_id) {
                None => Routed::Unmatched { request_id },
                Some(sender) => {
                    let result = player_result(response.result);
                    match sender.send(result) {
                        Ok(()) => Routed::Delivered { request_id },
                        Err(result) => Routed::Abandoned { request_id, result },
                    }
                },
            }
        },
    }
}

/// How the table and the routing relate for one line of text: a line that
/// holds a message is routed as that message, any other line is dropped and
/// changes nothing.
pub open spec fn routes_line(pre: Pending, post: Pending, line: Seq<char>, routed: Routed) -> bool {
    match json_parse(line) {
        Some(value) => if is_event(value) || is_response(value) {
            exists|envelope: MPVEnvelope|
                envelope_decodes(value, Some(envelope)) && routes(pre, post, envelope, routed)
        } else {
            routed == Routed::Malformed && post == pre
        },
        None => routed == Routed::Malformed && post == pre,
    }
}

/// Reads one line from the player and routes it. No line stops the reader:
/// what is not a message is dropped.
pub fn route_line(pending: &mut Pending, line: &str) -> (routed: Routed)
    ensures
        routes_line(*old(pending), *final(pending), line@, routed),
{
    match MPVEnvelope::from_line(line) {
        Some(envelope) => {
            let routed = route(pending, envelope);
            assert(routes_line(*old(pending), *final(pending), line@, routed)) by {
                let value = json_parse(line@)->Some_0;
                assert(envelope_decodes(value, Some(envelope)) && routes(
                    *old(pending),
                    *final(pending),
                    envelope,
                    routed,
                ));
            }
            routed
        },
        None => Routed::Malformed,
    }
}

/// What the reader does after one read from the socket.
#[derive(Debug)]
pub enum ReaderStep {
    /// A line was read and routed; the reader reads on.
    Continue(Routed),
    /// The stream is over, or reading failed. The table is closed, so every
    /// waiter learns that no response will come; the reader closes the event
    /// stream next and ends with this result.
    Stop(Result<(), std::io::Error>),
}

/// How the table and the reader's step relate for one read.
pub open spec fn reads(
    pre: Pending,
    post: Pending,
    read: Result<Option<String>, std::io::Error>,
    step: ReaderStep,
) -> bool {
    match read {
        Ok(Some(line)) => step is Continue && routes_line(pre, post, line@, step->Continue_0),
        Ok(None) => step == ReaderStep::Stop(Ok(())) && Pending::closes(post),
        Err(error) => step == ReaderStep::Stop(Err(error)) && Pending::closes(post),
    }
}

/// Decides what follows one read from the socket. A line is routed, whatever
/// it holds, and the reader goes on. The end of the stream ends the reader
/// without an error; a failure to read ends it with that error. Either way
/// the table is closed before anything else happens.
pub fn on_read(pending: &mut Pending, read: Result<Option<String>, std::io::Error>) -> (step:
    ReaderStep)
    ensures
        reads(*old(pending), *final(pending), read, step),
{
    match read {
        Ok(Some(line)) => ReaderStep::Continue(route_line(pending, line.as_str())),
        Ok(None) => {
            pending.close();
            ReaderStep::Stop(Ok(()))
        },
        Err(error) => {
            pending.close();
            ReaderStep::Stop(Err(error))
        },
    }
}

/// Registers a command. On an open table the payload becomes the command to
/// send, under the id that the waiter was given and marked asynchronous. On a
/// closed table there is nothing to send, and the waiter is cancelled
/// already.
pub fn reserve(pending: &mut Pending, payload: serde_json::Value) -> (reserved: (
    Option<Command>,
    oneshot::Receiver<IPCResult>,
))
    ensures
        old(pending).is_closed() <==> reserved.0 is None,
        Pending::registers(
            *old(pending),
            *final(pending),
            match reserved.0 {
                Some(command) => Some(command.request_id),
                None => None,
            },
        ),
        reserved.0 is Some ==> reserved.0->Some_0.command == payload
            && reserved.0->Some_0.async_,
{
    let (issued, receiver) = pending.insert();
    match issued {
        Some(request_id) => (Some(Command::new(request_id, payload)), receiver),
        None => (None, receiver),
    }
}

/// The line to write for a command: its text and a newline. Where the
/// payload cannot be written as JSON the caller gives up before anything is
/// sent; the entry of the command stays in the table until it is closed.
pub fn outgoing(command: &Command) -> (line: Result<String, IPCError>)
    ensures
        match json_text(command.command) {
            Some(payload) => line is Ok && line->Ok_0@ == command_text(
                command.request_id,
                payload,
                command.async_,
            ) + "\n"@,
            None => line is Err && line->Err_0 is JSONSerialize,
        },
{
    match command.to_text() {
        Ok(mut line) => {
            line.append("\n");
            Ok(line)
        },
        Err(error) => Err(IPCError::JSONSerialize(error)),
    }
}

/// What the caller does once the line is written: it goes on to wait, or
/// gives up with the error of the socket.
pub fn written(outcome: Result<(), std::io::Error>) -> (next: Result<(), IPCError>)
    ensures
        match outcome {
            Ok(()) => next is Ok,
            Err(error) => next == Err::<(), IPCError>(IPCError::Network(error)),
        },
{
    match outcome {
        Ok(()) => Ok(()),
        Err(error) => Err(IPCError::Network(error)),
    }
}

/// The result of a command once its waiter has resolved: what the reader
/// delivered, or `Disconnected` where the waiter was cancelled.
pub fn settle(outcome: Result<IPCResult, oneshot::Canceled>) -> (result: IPCResult)
    ensures
        match outcome {
            Ok(delivered) => result == delivered,
            Err(_) => result == Err::<serde_json::Value, IPCError>(IPCError::Disconnected),
        },
{
    match outcome {
        Ok(delivered) => delivered,
        Err(_) => Err(IPCError::Disconnected),
    }
}

/// The reader stops exactly where the stream is over or reading failed, and
/// then the table is closed: whoever registers a command afterwards gets no
/// id and has nothing to send.
pub proof fn lemma_stop_closes_table(
    pre: Pending,
    post: Pending,
    read: Result<Option<String>, std::io::Error>,
    step: ReaderStep,
    later: Pending,
    issued: Option<u64>,
)
    requires
        reads(pre, post, read, step),
        step is Stop,
        Pending::registers(post, later, issued),
    ensures
        !(read is Ok && read->Ok_0 is Some),
        step->Stop_0 is Err <==> read is Err,
        post.is_closed(),
        post.outstanding() == Set::<u64>::empty(),
        issued is None,
{
}

/// A line is never routed as `Malformed` where it holds a message, and a
/// line that is routed as `Malformed` leaves the table as it was.
pub proof fn lemma_malformed_changes_nothing(
    pre: Pending,
    post: Pending,
    line: Seq<char>,
    routed: Routed,
)
    requires
        routes_line(pre, post, line, routed),
        routed is Malformed,
    ensures
        post == pre,
        json_parse(line) is Some ==> !is_event(json_parse(line)->Some_0) && !is_response(
            json_parse(line)->Some_0,
        ),
{
}

/// A response to an id that is not outstanding is dropped: it reaches no
/// waiter and leaves the table as it was.
pub proof fn lemma_stray_response_ignored(
    pre: Pending,
    post: Pending,
    envelope: MPVEnvelope,
    routed: Routed,
)
    requires
        envelope is Response,
        !pre.outstanding().contains(envelope->Response_0.request_id),
        routes(pre, post, envelope, routed),
    ensures
        routed == (Routed::Unmatched { request_id: envelope->Response_0.request_id }),
        post == pre,
{
}

/// Of two responses to one id at most the first is delivered.
pub proof fn lemma_second_response_unmatched(
    pre: Pending,
    mid: Pending,
    post: Pending,
    first: MPVEnvelope,
    second: MPVEnvelope,
    routed_first: Routed,
    routed_second: Routed,
)
    requires
        first is Response,
        second is Response,
        first->Response_0.request_id == second->Response_0.request_id,
        routes(pre, mid, first, routed_first),
        routes(mid, post, second, routed_second),
    ensures
        routed_second == (Routed::Unmatched { request_id: second->Response_0.request_id }),
        post == mid,
{
}

/// After the table is closed no response is delivered. 
pub proof fn lemma_route_after_close(
    closed: Pending,
    post: Pending,
    envelope: MPVEnvelope,
    routed: Routed,
)
    requires
        Pending::closes(closed),
        routes(closed, post, envelope, routed),
    ensures
        post == closed,
        envelope is Response ==> routed == (Routed::Unmatched {
            request_id: envelope->Response_0.request_id,
        }),
        envelope is Event ==> routed == Routed::Publish(envelope->Event_0),
{
}

} // verus!
