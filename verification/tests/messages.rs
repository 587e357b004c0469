use mpv_remote::messages::serde_ipcresult::{deserialize, serialize, WireMessage};
use mpv_remote::messages::{
    is_false, is_zero, Command, MPVEnvelope, MPVEvent, MPVEventKind, PropertyChange, Response,
};
use serde_json::Value;
use std::time;

fn json(text: &str) -> Value {
    serde_json::from_str(text).expect("the test's JSON must parse")
}

fn check(json: Value, env: MPVEnvelope) {
    // serialize
    let output = env.to_text().unwrap();
    let value: Value = output.parse().unwrap();
    assert_eq!(value, json, "serialize");

    // deserialize
    let parsed: MPVEnvelope = MPVEnvelope::from_line(&output).unwrap();
    assert_eq!(env, parsed, "deserialize");
}

#[test]
fn event_start_file() {
    check(
        json(r#"{
            "event": "start-file",
            "playlist_entry_id": 123
        }"#),
        MPVEnvelope::Event(MPVEvent {
            id: 0,
            error: None,
            event: MPVEventKind::StartFile {
                playlist_entry_id: 123,
            },
        }),
    );
}

#[test]
fn event_property_time_pos() {
    check(
        json(r#"{
            "event":"property-change",
            "id":42,
            "name":"time-pos",
            "data":39.489450
        }"#),
        MPVEnvelope::Event(MPVEvent {
            id: 42,
            error: None,
            event: MPVEventKind::PropertyChange(PropertyChange::TimePos {
                seconds: time::Duration::from_secs_f64(39.489450),
            }),
        }),
    );
}

#[test]
fn response_success_bare() {
    check(
        json(r#"{"request_id":1,"error":"success"}"#),
        MPVEnvelope::Response(Response {
            request_id: 1,
            result: Ok(Value::Null),
        }),
    )
}

#[test]
fn response_success_data() {
    check(
        json(r#"{"data":32.649283,"request_id":0,"error":"success"}"#),
        MPVEnvelope::Response(Response {
            request_id: 0,
            result: Ok(Value::from(32.649283)),
        }),
    )
}

fn check_command(json: Value, command: Command) {
    // serialize
    let output = command.to_text().unwrap();
    let value: Value = output.parse().unwrap();
    assert_eq!(value, json, "serialize");

    // deserialize
    let parsed: Command = Command::from_value(&json).expect("must parse");
    assert_eq!(command, parsed, "deserialize");
    let reparsed: Command = Command::from_value(&value).expect("must parse");
    assert_eq!(command, reparsed, "deserialize");
}

#[test]
fn command() {
    check_command(
        json(r#"{"command":["observe_property",42,"playback-time"]}"#),
        Command {
            request_id: 0,
            command: json(r#"["observe_property", 42, "playback-time"]"#),
            async_: false,
        },
    )
}

#[test]
fn command_lines_are_exact() {
    let payload = json(r#"["client_name"]"#);
    assert_eq!(
        Command::new(1, payload.clone()).to_text().unwrap(),
        r#"{"request_id":1,"command":["client_name"],"async":true}"#
    );
    assert_eq!(
        Command::new(0, payload.clone()).to_text().unwrap(),
        r#"{"command":["client_name"],"async":true}"#
    );
    assert_eq!(
        Command {
            request_id: 18446744073709551615,
            command: payload.clone(),
            async_: false
        }
        .to_text()
        .unwrap(),
        r#"{"request_id":18446744073709551615,"command":["client_name"]}"#
    );
    assert_eq!(
        Command {
            request_id: 1090,
            command: Value::Null,
            async_: true
        }
        .to_text()
        .unwrap(),
        r#"{"request_id":1090,"command":null,"async":true}"#
    );
    let made = Command::new(7, payload.clone());
    assert!(made.async_);
    assert_eq!(made.request_id, 7);
    assert_eq!(made.command, payload);
}

#[test]
fn command_reading_applies_defaults() {
    let full = Command::from_value(&json(r#"{"request_id":5,"command":["stop"],"async":true}"#));
    assert_eq!(
        full,
        Some(Command {
            request_id: 5,
            command: json(r#"["stop"]"#),
            async_: true
        })
    );
    assert_eq!(Command::from_value(&json(r#"{"request_id":5}"#)), None);
    assert_eq!(
        Command::from_value(&json(r#"{"request_id":-5,"command":[]}"#)),
        None
    );
    assert_eq!(
        Command::from_value(&json(r#"{"command":[],"async":"yes"}"#)),
        None
    );
    assert_eq!(Command::from_value(&json(r#"[1,2]"#)), None);
}

#[test]
fn sentinels() {
    assert!(is_zero(&0));
    assert!(!is_zero(&1));
    assert!(!is_zero(&u64::MAX));
    assert!(is_false(&false));
    assert!(!is_false(&true));
}

#[test]
fn result_round_trips() {
    // success without data
    let wire = serialize(&Ok(Value::Null));
    assert_eq!(
        wire,
        WireMessage {
            error: "success".to_string(),
            data: None
        }
    );
    assert_eq!(deserialize(wire), Ok(Value::Null));
    // success with data
    let wire = serialize(&Ok(Value::from(32.5)));
    assert_eq!(
        wire,
        WireMessage {
            error: "success".to_string(),
            data: Some(Value::from(32.5))
        }
    );
    assert_eq!(deserialize(wire), Ok(Value::from(32.5)));
    // any other error string
    let wire = serialize(&Err("property unavailable".to_string()));
    assert_eq!(
        wire,
        WireMessage {
            error: "property unavailable".to_string(),
            data: None
        }
    );
    assert_eq!(deserialize(wire), Err("property unavailable".to_string()));
    // an empty message is still an error
    assert_eq!(deserialize(serialize(&Err(String::new()))), Err(String::new()));
}

#[test]
fn result_reading_goes_by_the_marker() {
    // an explicit null is the same as no data
    assert_eq!(
        deserialize(WireMessage {
            error: "success".to_string(),
            data: Some(Value::Null)
        }),
        Ok(Value::Null)
    );
    // data beside an error message is dropped
    assert_eq!(
        deserialize(WireMessage {
            error: "invalid parameter".to_string(),
            data: Some(Value::from(1))
        }),
        Err("invalid parameter".to_string())
    );
    // the marker is exact
    assert_eq!(
        deserialize(WireMessage {
            error: "Success".to_string(),
            data: None
        }),
        Err("Success".to_string())
    );
    // the one result that does not come back
    assert_eq!(
        deserialize(serialize(&Err("success".to_string()))),
        Ok(Value::Null)
    );
}

#[test]
fn response_lines() {
    let line = r#"{"request_id":1,"error":"success","data":"mpv"}"#;
    let envelope = MPVEnvelope::from_line(line);
    assert_eq!(
        envelope,
        Some(MPVEnvelope::Response(Response {
            request_id: 1,
            result: Ok(Value::from("mpv")),
        }))
    );
    assert_eq!(envelope.unwrap().to_text().unwrap(), line);

    let line = r#"{"request_id":3,"error":"property \"x\" not found"}"#;
    let envelope = MPVEnvelope::from_line(line);
    assert_eq!(
        envelope,
        Some(MPVEnvelope::Response(Response {
            request_id: 3,
            result: Err("property \"x\" not found".to_string()),
        }))
    );
    assert_eq!(envelope.unwrap().to_text().unwrap(), line);

    assert_eq!(
        Response {
            request_id: 0,
            result: Ok(Value::Null)
        }
        .to_text()
        .unwrap(),
        r#"{"request_id":0,"error":"success"}"#
    );
}

#[test]
fn event_lines() {
    let event = MPVEvent {
        id: 42,
        error: Some("a \"quoted\" word".to_string()),
        event: MPVEventKind::StartFile {
            playlist_entry_id: 7,
        },
    };
    let line = event.to_text().unwrap();
    assert_eq!(
        line,
        r#"{"id":42,"error":"a \"quoted\" word","event":"start-file","playlist_entry_id":7}"#
    );
    assert_eq!(
        MPVEnvelope::from_line(&line),
        Some(MPVEnvelope::Event(event))
    );

    let event = MPVEvent {
        id: 0,
        error: None,
        event: MPVEventKind::PropertyChange(PropertyChange::TimePos {
            seconds: time::Duration::from_millis(1500),
        }),
    };
    assert_eq!(
        event.to_text().unwrap(),
        r#"{"event":"property-change","name":"time-pos","data":1.5}"#
    );
    assert_eq!(
        MPVEvent::from_value(&json(
            r#"{"event":"property-change","name":"time-pos","data":2}"#
        )),
        Some(MPVEvent {
            id: 0,
            error: None,
            event: MPVEventKind::PropertyChange(PropertyChange::TimePos {
                seconds: time::Duration::from_secs(2),
            }),
        })
    );
    // a null error is no error
    assert_eq!(
        MPVEvent::from_value(&json(
            r#"{"event":"start-file","playlist_entry_id":1,"error":null}"#
        )),
        Some(MPVEvent {
            id: 0,
            error: None,
            event: MPVEventKind::StartFile {
                playlist_entry_id: 1
            },
        })
    );
}

#[test]
fn events_are_copied_whole() {
    let event = MPVEvent {
        id: 42,
        error: Some("note".to_string()),
        event: MPVEventKind::PropertyChange(PropertyChange::TimePos {
            seconds: time::Duration::new(39, 489_450_000),
        }),
    };
    let copy = event.clone();
    assert_eq!(copy, event);
    assert_eq!(copy.id, 42);
    assert_eq!(copy.error.as_deref(), Some("note"));
    assert_eq!(
        copy.event,
        MPVEventKind::PropertyChange(PropertyChange::TimePos {
            seconds: time::Duration::new(39, 489_450_000),
        })
    );
}

#[test]
fn events_and_responses_are_told_apart_by_shape() {
    // an event may carry fields of a response and stays an event
    let both = r#"{"event":"start-file","playlist_entry_id":2,"request_id":9,"error":"success"}"#;
    assert_eq!(
        MPVEnvelope::from_line(both),
        Some(MPVEnvelope::Event(MPVEvent {
            id: 0,
            error: Some("success".to_string()),
            event: MPVEventKind::StartFile {
                playlist_entry_id: 2
            },
        }))
    );
    // an event of a kind that is not known, with the fields of a response, is a response
    let unknown_kind = r#"{"event":"seek","request_id":9,"error":"success"}"#;
    assert_eq!(
        MPVEnvelope::from_line(unknown_kind),
        Some(MPVEnvelope::Response(Response {
            request_id: 9,
            result: Ok(Value::Null),
        }))
    );
    assert_eq!(Response::from_value(&json(r#"{"request_id":9}"#)), None);
    assert_eq!(Response::from_value(&json(r#"{"error":"success"}"#)), None);
    assert_eq!(
        Response::from_value(&json(r#"{"request_id":"9","error":"success"}"#)),
        None
    );
}

#[test]
fn malformed_lines_are_no_message() {
    assert_eq!(MPVEnvelope::from_line(""), None);
    assert_eq!(MPVEnvelope::from_line("not json"), None);
    assert_eq!(MPVEnvelope::from_line("{"), None);
    assert_eq!(MPVEnvelope::from_line("42"), None);
    assert_eq!(MPVEnvelope::from_line("[]"), None);
    assert_eq!(MPVEnvelope::from_line("{}"), None);
    assert_eq!(MPVEnvelope::from_line(r#"{"event":"seek"}"#), None);
    assert_eq!(MPVEnvelope::from_line(r#"{"event":"start-file"}"#), None);
    assert_eq!(
        MPVEnvelope::from_line(r#"{"event":"start-file","playlist_entry_id":1,"id":"x"}"#),
        None
    );
    assert_eq!(
        MPVEnvelope::from_line(r#"{"event":"start-file","playlist_entry_id":1,"error":5}"#),
        None
    );
    assert_eq!(
        MPVEnvelope::from_line(r#"{"event":"property-change","name":"volume","data":50}"#),
        None
    );
    assert_eq!(
        MPVEnvelope::from_line(r#"{"event":"property-change","name":"time-pos"}"#),
        None
    );
}

#[test]
fn positions_that_no_duration_holds_are_refused() {
    let negative = r#"{"event":"property-change","name":"time-pos","data":-1.5}"#;
    assert_eq!(MPVEnvelope::from_line(negative), None);
    let huge = r#"{"event":"property-change","name":"time-pos","data":1e300}"#;
    assert_eq!(MPVEnvelope::from_line(huge), None);
    let infinite = r#"{"event":"property-change","name":"time-pos","data":Infinity}"#;
    assert_eq!(MPVEnvelope::from_line(infinite), None);
    let minus_infinite = r#"{"event":"property-change","name":"time-pos","data":-Infinity}"#;
    assert_eq!(MPVEnvelope::from_line(minus_infinite), None);
    let overflowing = r#"{"event":"property-change","name":"time-pos","data":1e999}"#;
    assert_eq!(MPVEnvelope::from_line(overflowing), None);
    let text = r#"{"event":"property-change","name":"time-pos","data":"12"}"#;
    assert_eq!(MPVEnvelope::from_line(text), None);
    let zero = r#"{"event":"property-change","name":"time-pos","data":0.0}"#;
    assert_eq!(
        MPVEnvelope::from_line(zero),
        Some(MPVEnvelope::Event(MPVEvent {
            id: 0,
            error: None,
            event: MPVEventKind::PropertyChange(PropertyChange::TimePos {
                seconds: time::Duration::from_secs(0),
            }),
        }))
    );
}
