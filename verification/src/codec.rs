//! Reading and writing the lines of the wire protocol.
//!
//! A line is one JSON object. What kind of message it is shows in its fields
//! alone: an event names its kind under `event`; a response has a
//! `request_id` and an `error`. A line that is neither is no message, which
//! is not a failure: the player may say things that the engine does not know.

use vstd::prelude::*;
use vstd::string::StringExecFns;
use crate::json::{
    as_seconds, as_text, get, json_bool, json_is_null, json_parse, json_quote, json_seconds,
    json_seconds_text, json_str, json_text, json_u64, member, parse, quote, seconds_text, to_text,
};
use crate::messages::serde_ipcresult::{
    deserialize, reads_as, serialize, wire_data_of, wire_error_of, WireMessage,
};
use crate::messages::{Command, MPVEnvelope, MPVEvent, MPVEventKind, PropertyChange, Response};

verus! {

/// The views of an optional text.
pub open spec fn text_of(text: Option<String>) -> Option<Seq<char>> {
    match text {
        Some(content) => Some(content@),
        None => None,
    }
}

/// An integer field that may be left out: what it holds, `default` where it
/// is absent, and nothing where it holds anything but such an integer.
pub open spec fn u64_or(value: serde_json::Value, key: Seq<char>, default: u64) -> Option<u64> {
    match member(value, key) {
        Some(field) => json_u64(field),
        None => Some(default),
    }
}

/// An integer field that must be there.
pub open spec fn u64_at(value: serde_json::Value, key: Seq<char>) -> Option<u64> {
    match member(value, key) {
        Some(field) => json_u64(field),
        None => None,
    }
}

/// A text field that must be there.
pub open spec fn str_at(value: serde_json::Value, key: Seq<char>) -> Option<Seq<char>> {
    match member(value, key) {
        Some(field) => json_str(field),
        None => None,
    }
}

/// The `error` of an event: none where the field is absent or `null`, the
/// text where it is a string; the outer `None` stands for any other content.
pub open spec fn event_error_of(value: serde_json::Value) -> Option<Option<Seq<char>>> {
    match member(value, "error"@) {
        None => Some(None),
        Some(field) => if json_is_null(field) {
            Some(None)
        } else {
            match json_str(field) {
                Some(text) => Some(Some(text)),
                None => None,
            }
        },
    }
}

/// The property change that an object tells of: the property is named under
/// `name`, and its new value stands under `data` in the shape that belongs to
/// the property. For `time-pos` that is a number of seconds.
pub open spec fn property_change_of(value: serde_json::Value) -> Option<PropertyChange> {
    if str_at(value, "name"@) == Some("time-pos"@) {
        match member(value, "data"@) {
            Some(data) => match json_seconds(data) {
                Some(seconds) => Some(PropertyChange::TimePos { seconds }),
                None => None,
            },
            None => None,
        }
    } else {
        None
    }
}

/// What an object reports as an event, by the name under `event`.
pub open spec fn event_kind_of(value: serde_json::Value) -> Option<MPVEventKind> {
    if str_at(value, "event"@) == Some("start-file"@) {
        match u64_at(value, "playlist_entry_id"@) {
            Some(playlist_entry_id) => Some(MPVEventKind::StartFile { playlist_entry_id }),
            None => None,
        }
    } else if str_at(value, "event"@) == Some("property-change"@) {
        match property_change_of(value) {
            Some(change) => Some(MPVEventKind::PropertyChange(change)),
            None => None,
        }
    } else {
        None
    }
}

/// Whether an object has the shape of an event.
pub open spec fn is_event(value: serde_json::Value) -> bool {
    &&& event_kind_of(value) is Some
    &&& u64_or(value, "id"@, 0) is Some
    &&& event_error_of(value) is Some
}

/// `event` is the event that the object holds.
pub open spec fn event_decodes(value: serde_json::Value, event: MPVEvent) -> bool {
    &&& is_event(value)
    &&& Some(event.event) == event_kind_of(value)
    &&& Some(event.id) == u64_or(value, "id"@, 0)
    &&& Some(text_of(event.error)) == event_error_of(value)
}

/// Whether an object has the shape of a response.
pub open spec fn is_response(value: serde_json::Value) -> bool {
    &&& u64_at(value, "request_id"@) is Some
    &&& str_at(value, "error"@) is Some
}

/// `response` is the response that the object holds.
pub open spec fn response_decodes(value: serde_json::Value, response: Response) -> bool {
    &&& is_response(value)
    &&& Some(response.request_id) == u64_at(value, "request_id"@)
    &&& reads_as(str_at(value, "error"@)->Some_0, member(value, "data"@), response.result)
}

/// `envelope` is what the object is read as: an event where it has the shape
/// of one, else a response where it has the shape of one, else nothing.
pub open spec fn envelope_decodes(value: serde_json::Value, envelope: Option<MPVEnvelope>) -> bool {
    if is_event(value) {
        &&& envelope is Some
        &&& envelope->Some_0 is Event
        &&& event_decodes(value, envelope->Some_0->Event_0)
    } else if is_response(value) {
        &&& envelope is Some
        &&& envelope->Some_0 is Response
        &&& response_decodes(value, envelope->Some_0->Response_0)
    } else {
        envelope is None
    }
}

/// What the result of a response is, by its fields: with the success marker
/// and no `data` it is the value `null`; with the success marker and `data`
/// it is that value; with any other `error` it is the error with that
/// message, whatever else the object holds.
pub proof fn lemma_response_result(value: serde_json::Value, response: Response)
    requires
        response_decodes(value, response),
    ensures
        str_at(value, "error"@) == Some("success"@) && member(value, "data"@) is None ==> {
            &&& response.result is Ok
            &&& json_is_null(response.result->Ok_0)
        },
        str_at(value, "error"@) == Some("success"@) && member(value, "data"@) is Some
            ==> response.result == Ok::<serde_json::Value, String>(
            member(value, "data"@)->Some_0,
        ),
        str_at(value, "error"@) != Some("success"@) ==> {
            &&& response.result is Err
            &&& Some(response.result->Err_0@) == str_at(value, "error"@)
        },
{
}

/// An object is read as one message at most, and as an event where it has
/// the shape of one: the fields of a response beside those of an event do not
/// make it a response.
pub proof fn lemma_shapes_do_not_overlap(
    value: serde_json::Value,
    first: Option<MPVEnvelope>,
    second: Option<MPVEnvelope>,
)
    requires
        envelope_decodes(value, first),
        envelope_decodes(value, second),
    ensures
        first is Some == second is Some,
        first is Some ==> (first->Some_0 is Event) == (second->Some_0 is Event),
        is_event(value) ==> first is Some && first->Some_0 is Event,
        first is Some && first->Some_0 is Response ==> !is_event(value) && is_response(value),
{
}

fn same_text(left: &str, right: &str) -> (same: bool)
    ensures
        same == (left@ == right@),
{
    String::from_str(left) == String::from_str(right)
}

fn read_u64_or(value: &serde_json::Value, key: &str, default: u64) -> (number: Option<u64>)
    ensures
        number == u64_or(*value, key@, default),
{
    match get(value, key) {
        Some(field) => field.as_u64(),
        None => Some(default),
    }
}

fn read_u64(value: &serde_json::Value, key: &str) -> (number: Option<u64>)
    ensures
        number == u64_at(*value, key@),
{
    match get(value, key) {
        Some(field) => field.as_u64(),
        None => None,
    }
}

fn read_str(value: &serde_json::Value, key: &str) -> (text: Option<String>)
    ensures
        text_of(text) == str_at(*value, key@),
{
    match get(value, key) {
        Some(field) => as_text(field),
        None => None,
    }
}

fn read_event_error(value: &serde_json::Value) -> (error: Option<Option<String>>)
    ensures
        match error {
            Some(text) => event_error_of(*value) == Some(text_of(text)),
            None => event_error_of(*value) is None,
        },
{
    match get(value, "error") {
        None => Some(None),
        Some(field) => {
            if field.is_null() {
                Some(None)
            } else {
                match as_text(field) {
                    Some(text) => Some(Some(text)),
                    None => None,
                }
            }
        },
    }
}

fn read_property_change(value: &serde_json::Value) -> (change: Option<PropertyChange>)
    ensures
        change == property_change_of(*value),
{
    let name = read_str(value, "name");
    match name {
        Some(name) => {
            if same_text(name.as_str(), "time-pos") {
                match get(value, "data") {
                    Some(data) => match as_seconds(data) {
                        Some(seconds) => Some(PropertyChange::TimePos { seconds }),
                        None => None,
                    },
                    None => None,
                }
            } else {
                None
            }
        },
        None => None,
    }
}

fn read_event_kind(value: &serde_json::Value) -> (kind: Option<MPVEventKind>)
    ensures
        kind == event_kind_of(*value),
{
    let tag = read_str(value, "event");
    match tag {
        Some(tag) => {
            if same_text(tag.as_str(), "start-file") {
                match read_u64(value, "playlist_entry_id") {
                    Some(playlist_entry_id) => Some(MPVEventKind::StartFile { playlist_entry_id }),
                    None => None,
                }
            } else if same_text(tag.as_str(), "property-change") {
                match read_property_change(value) {
                    Some(change) => Some(MPVEventKind::PropertyChange(change)),
                    None => None,
                }
            } else {
                None
            }
        },
        None => None,
    }
}

impl MPVEvent {
    /// Reads an object as an event. The `id` is 0 where the player leaves it
    /// out.
    pub fn from_value(value: &serde_json::Value) -> (event: Option<MPVEvent>)
        ensures
            event is Some <==> is_event(*value),
            event is Some ==> event_decodes(*value, event->Some_0),
    {
        let kind = read_event_kind(value);
        let id = read_u64_or(value, "id", 0);
        let error = read_event_error(value);
        match (kind, id, error) {
            (Some(event), Some(id), Some(error)) => Some(MPVEvent { id, error, event }),
            _ => None,
        }
    }
}

impl Response {
    /// Reads an object as a response.
    pub fn from_value(value: &serde_json::Value) -> (response: Option<Response>)
        ensures
            response is Some <==> is_response(*value),
            response is Some ==> response_decodes(*value, response->Some_0),
    {
        let request_id = read_u64(value, "request_id");
        let error = read_str(value, "error");
        match (request_id, error) {
            (Some(request_id), Some(error)) => {
                let data = match get(value, "data") {
                    Some(data) => Some(data.clone()),
                    None => None,
                };
                let result = deserialize(WireMessage { error, data });
                Some(Response { request_id, result })
            },
            _ => None,
        }
    }
}

impl MPVEnvelope {
    /// Reads an object as an event or, failing that, as a response.
    pub fn from_value(value: &serde_json::Value) -> (envelope: Option<MPVEnvelope>)
        ensures
            envelope_decodes(*value, envelope),
    {
        match MPVEvent::from_value(value) {
            Some(event) => Some(MPVEnvelope::Event(event)),
            None => match Response::from_value(value) {
                Some(response) => Some(MPVEnvelope::Response(response)),
                None => None,
            },
        }
    }

    /// Reads one line from the player. A line that is no JSON, or no message
    /// that the engine knows, yields nothing.
    pub fn from_line(line: &str) -> (envelope: Option<MPVEnvelope>)
        ensures
            match json_parse(line@) {
                Some(value) => envelope_decodes(value, envelope),
                None => envelope is None,
            },
    {
        match parse(line) {
            Some(value) => MPVEnvelope::from_value(&value),
            None => None,
        }
    }
}

/// The character of a decimal digit.
pub open spec fn digit(d: nat) -> char {
    if d == 0 {
        '0'
    } else if d == 1 {
        '1'
    } else if d == 2 {
        '2'
    } else if d == 3 {
        '3'
    } else if d == 4 {
        '4'
    } else if d == 5 {
        '5'
    } else if d == 6 {
        '6'
    } else if d == 7 {
        '7'
    } else if d == 8 {
        '8'
    } else {
        '9'
    }
}

/// A number in decimal digits, without leading zeros.
pub open spec fn decimal(n: nat) -> Seq<char>
    decreases n,
{
    if n < 10 {
        seq![digit(n)]
    } else {
        decimal(n / 10).push(digit(n % 10))
    }
}

fn digit_text(d: u64) -> (text: &'static str)
    requires
        d < 10,
    ensures
        text@ == seq![digit(d as nat)],
{
    proof {
        reveal_strlit("0");
        reveal_strlit("1");
        reveal_strlit("2");
        reveal_strlit("3");
        reveal_strlit("4");
        reveal_strlit("5");
        reveal_strlit("6");
        reveal_strlit("7");
        reveal_strlit("8");
        reveal_strlit("9");
    }
    let text = if d == 0 {
        "0"
    } else if d == 1 {
        "1"
    } else if d == 2 {
        "2"
    } else if d == 3 {
        "3"
    } else if d == 4 {
        "4"
    } else if d == 5 {
        "5"
    } else if d == 6 {
        "6"
    } else if d == 7 {
        "7"
    } else if d == 8 {
        "8"
    } else {
        "9"
    };
    assert(text@ =~= seq![digit(d as nat)]);
    text
}

/// Writes a number in decimal digits.
pub fn decimal_text(n: u64) -> (text: String)
    ensures
        text@ == decimal(n as nat),
    decreases n,
{
    if n < 10 {
        String::from_str(digit_text(n))
    } else {
        let mut text = decimal_text(n / 10);
        text.append(digit_text(n % 10));
        assert(text@ =~= decimal((n / 10) as nat).push(digit((n % 10) as nat)));
        text
    }
}

/// The line of a command, without its newline: an object with the fields
/// `request_id`, `command` and `async`, in this order and without spaces.
/// The id is left out where it is the sentinel 0, the flag where it is
/// unset. `payload` is the text of the command's arguments.
pub open spec fn command_text(request_id: u64, payload: Seq<char>, async_: bool) -> Seq<char> {
    let opened = "{"@;
    let with_id = if request_id != 0 {
        opened + "\"request_id\":"@ + decimal(request_id as nat) + ","@
    } else {
        opened
    };
    let with_command = with_id + "\"command\":"@ + payload;
    let with_flag = if async_ {
        with_command + ",\"async\":true"@
    } else {
        with_command
    };
    with_flag + "}"@
}

/// Whether an object has the shape of a command.
pub open spec fn is_command(value: serde_json::Value) -> bool {
    &&& u64_or(value, "request_id"@, 0) is Some
    &&& member(value, "command"@) is Some
    &&& match member(value, "async"@) {
        Some(flag) => json_bool(flag) is Some,
        None => true,
    }
}

/// The command that an object holds: an id that is left out is the sentinel
/// 0, a flag that is left out is unset.
pub open spec fn command_of(value: serde_json::Value) -> Command {
    Command {
        request_id: u64_or(value, "request_id"@, 0)->Some_0,
        command: member(value, "command"@)->Some_0,
        async_: match member(value, "async"@) {
            Some(flag) => json_bool(flag)->Some_0,
            None => false,
        },
    }
}

impl Command {
    /// Writes the command as its line, without the newline. It fails only
    /// where the payload cannot be written as JSON.
    pub fn to_text(&self) -> (line: Result<String, serde_json::Error>)
        ensures
            match json_text(self.command) {
                Some(payload) => line is Ok && line->Ok_0@ == command_text(
                    self.request_id,
                    payload,
                    self.async_,
                ),
                None => line is Err,
            },
    {
        let payload = match to_text(&self.command) {
            Ok(payload) => payload,
            Err(error) => {
                return Err(error);
            },
        };
        let mut line = String::from_str("{");
        if !crate::messages::is_zero(&self.request_id) {
            line.append("\"request_id\":");
            line.append(decimal_text(self.request_id).as_str());
            line.append(",");
        }
        line.append("\"command\":");
        line.append(payload.as_str());
        if !crate::messages::is_false(&self.async_) {
            line.append(",\"async\":true");
        }
        line.append("}");
        Ok(line)
    }

    /// Reads an object as a command.
    pub fn from_value(value: &serde_json::Value) -> (command: Option<Command>)
        ensures
            command is Some <==> is_command(*value),
            command is Some ==> command->Some_0 == command_of(*value),
    {
        let request_id = read_u64_or(value, "request_id", 0);
        let payload = get(value, "command");
        let async_ = match get(value, "async") {
            Some(flag) => flag.as_bool(),
            None => Some(false),
        };
        match (request_id, payload, async_) {
            (Some(request_id), Some(payload), Some(async_)) => Some(
                Command { request_id, command: payload.clone(), async_ },
            ),
            _ => None,
        }
    }
}

/// The text of what an event reports, as the fields of its object: the name
/// of the kind under `event`, then what belongs to the kind. `seconds` is the
/// text of the position, which only a change of `time-pos` has.
pub open spec fn kind_text(kind: MPVEventKind, seconds: Seq<char>) -> Seq<char> {
    match kind {
        MPVEventKind::StartFile { playlist_entry_id } => {
            "\"event\":\"start-file\",\"playlist_entry_id\":"@ + decimal(playlist_entry_id as nat)
        },
        MPVEventKind::PropertyChange(PropertyChange::TimePos { seconds: _ }) => {
            "\"event\":\"property-change\",\"name\":\"time-pos\",\"data\":"@ + seconds
        },
    }
}

/// The line of an event, without its newline: an object with the fields `id`
/// and `error`, then those of the kind. The id is left out where it is 0, the
/// error where there is none. `error` is the quoted text of the error.
pub open spec fn event_text(id: u64, error: Option<Seq<char>>, kind: Seq<char>) -> Seq<char> {
    let opened = "{"@;
    let with_id = if id != 0 {
        opened + "\"id\":"@ + decimal(id as nat) + ","@
    } else {
        opened
    };
    let with_error = match error {
        Some(quoted) => with_id + "\"error\":"@ + quoted + ","@,
        None => with_id,
    };
    with_error + kind + "}"@
}

/// The line of a response, without its newline: an object with the fields
/// `request_id`, `error` and `data`. The data is left out where there is
/// none. `error` is the quoted text of the field, `data` the text of the
/// value.
pub open spec fn response_text(request_id: u64, error: Seq<char>, data: Option<Seq<char>>) -> Seq<
    char,
> {
    let with_error = "{\"request_id\":"@ + decimal(request_id as nat) + ",\"error\":"@ + error;
    let with_data = match data {
        Some(text) => with_error + ",\"data\":"@ + text,
        None => with_error,
    };
    with_data + "}"@
}

/// The span of time that a kind of event holds, if it holds one.
pub open spec fn seconds_of(kind: MPVEventKind) -> Option<std::time::Duration> {
    match kind {
        MPVEventKind::StartFile { playlist_entry_id: _ } => None,
        MPVEventKind::PropertyChange(PropertyChange::TimePos { seconds }) => Some(seconds),
    }
}

/// The line that an event is written as, where every part of it can be
/// written.
pub open spec fn event_line(event: MPVEvent) -> Option<Seq<char>> {
    let error = match event.error {
        Some(message) => json_quote(message@),
        None => None,
    };
    let seconds = match seconds_of(event.event) {
        Some(span) => json_seconds_text(span),
        None => Some(Seq::<char>::empty()),
    };
    if (event.error is Some && error is None) || seconds is None {
        None
    } else {
        Some(event_text(event.id, error, kind_text(event.event, seconds->Some_0)))
    }
}

/// The line that a response is written as, where every part of it can be
/// written.
pub open spec fn response_line(response: Response) -> Option<Seq<char>> {
    let error = json_quote(wire_error_of(response.result));
    let data = match wire_data_of(response.result) {
        Some(value) => json_text(value),
        None => None,
    };
    if error is None || (wire_data_of(response.result) is Some && data is None) {
        None
    } else {
        Some(response_text(response.request_id, error->Some_0, data))
    }
}

fn write_kind(kind: &MPVEventKind) -> (text: Result<String, serde_json::Error>)
    ensures
        match seconds_of(*kind) {
            Some(span) => match json_seconds_text(span) {
                Some(seconds) => text is Ok && text->Ok_0@ == kind_text(*kind, seconds),
                None => text is Err,
            },
            None => text is Ok && text->Ok_0@ == kind_text(*kind, Seq::<char>::empty()),
        },
{
    match kind {
        MPVEventKind::StartFile { playlist_entry_id } => {
            let mut text = String::from_str("\"event\":\"start-file\",\"playlist_entry_id\":");
            text.append(decimal_text(*playlist_entry_id).as_str());
            Ok(text)
        },
        MPVEventKind::PropertyChange(PropertyChange::TimePos { seconds }) => {
            match seconds_text(seconds) {
                Ok(written) => {
                    let mut text = String::from_str(
                        "\"event\":\"property-change\",\"name\":\"time-pos\",\"data\":",
                    );
                    text.append(written.as_str());
                    Ok(text)
                },
                Err(error) => Err(error),
            }
        },
    }
}

impl MPVEvent {
    /// Writes the event as its line, without the newline.
    pub fn to_text(&self) -> (line: Result<String, serde_json::Error>)
        ensures
            match event_line(*self) {
                Some(text) => line is Ok && line->Ok_0@ == text,
                None => line is Err,
            },
    {
        let mut line = String::from_str("{");
        if !crate::messages::is_zero(&self.id) {
            line.append("\"id\":");
            line.append(decimal_text(self.id).as_str());
            line.append(",");
        }
        match &self.error {
            Some(message) => {
                match quote(message.as_str()) {
                    Ok(quoted) => {
                        line.append("\"error\":");
                        line.append(quoted.as_str());
                        line.append(",");
                    },
                    Err(error) => {
                        return Err(error);
                    },
                }
            },
            None => {},
        }
        match write_kind(&self.event) {
            Ok(kind) => {
                line.append(kind.as_str());
            },
            Err(error) => {
                return Err(error);
            },
        }
        line.append("}");
        Ok(line)
    }
}

impl Response {
    /// Writes the response as its line, without the newline.
    pub fn to_text(&self) -> (line: Result<String, serde_json::Error>)
        ensures
            match response_line(*self) {
                Some(text) => line is Ok && line->Ok_0@ == text,
                None => line is Err,
            },
    {
        let wire = serialize(&self.result);
        let mut line = String::from_str("{\"request_id\":");
        line.append(decimal_text(self.request_id).as_str());
        line.append(",\"error\":");
        match quote(wire.error.as_str()) {
            Ok(quoted) => {
                line.append(quoted.as_str());
            },
            Err(error) => {
                return Err(error);
            },
        }
        match &wire.data {
            Some(value) => {
                match to_text(value) {
                    Ok(text) => {
                        line.append(",\"data\":");
                        line.append(text.as_str());
                    },
                    Err(error) => {
                        return Err(error);
                    },
                }
            },
            None => {},
        }
        line.append("}");
        Ok(line)
    }
}

impl MPVEnvelope {
    /// Writes the envelope as its line, without the newline: the line of the
    /// event or of the response that it holds, with nothing to tell the two
    /// apart but their fields.
    pub fn to_text(&self) -> (line: Result<String, serde_json::Error>)
        ensures
            match *self {
                MPVEnvelope::Event(event) => match event_line(event) {
                    Some(text) => line is Ok && line->Ok_0@ == text,
                    None => line is Err,
                },
                MPVEnvelope::Response(response) => match response_line(response) {
                    Some(text) => line is Ok && line->Ok_0@ == text,
                    None => line is Err,
                },
            },
    {
        match self {
            MPVEnvelope::Event(event) => event.to_text(),
            MPVEnvelope::Response(response) => response.to_text(),
        }
    }
}

} // verus!
