use futures_channel::oneshot;
use mpv_remote::ipc::{
    on_read, outgoing, player_result, reserve, route, route_line, settle, written, IPCError,
    ReaderStep, Routed,
};
use mpv_remote::messages::{Command, MPVEnvelope, MPVEvent, MPVEventKind, Response};
use mpv_remote::pending::Pending;
use mpv_remote::supervisor::{step, Action, CloseError, Event, ExitReport, Phase};
use serde_json::Value;
use tokio::sync::broadcast;

fn json(text: &str) -> Value {
    serde_json::from_str(text).expect("the test's JSON must parse")
}

#[test]
fn command_resolves_to_the_players_answer() {
    let mut pending = Pending::new();
    let (command, mut waiter) = reserve(&mut pending, json(r#"["client_name"]"#));
    let command = command.expect("an open table lets the command through");
    assert_eq!(command.request_id, 1);
    assert_eq!(
        outgoing(&command).unwrap(),
        "{\"request_id\":1,\"command\":[\"client_name\"],\"async\":true}\n"
    );
    assert!(matches!(waiter.try_recv(), Ok(None)));

    let envelope = MPVEnvelope::from_line(r#"{"request_id":1,"error":"success","data":"mpv"}"#)
        .expect("the response must parse");
    let routed = route(&mut pending, envelope);
    assert!(matches!(routed, Routed::Delivered { request_id: 1 }));

    let delivered = waiter.try_recv().map(|got| got.expect("a result waits"));
    let result = settle(delivered);
    assert!(matches!(result, Ok(Value::String(ref name)) if name == "mpv"));
}

#[test]
fn command_fails_with_the_players_error() {
    let mut pending = Pending::new();
    let (command, mut waiter) = reserve(&mut pending, json(r#"["get_property","nope"]"#));
    assert_eq!(command.map(|c| c.request_id), Some(1));
    let envelope =
        MPVEnvelope::from_line(r#"{"request_id":1,"error":"property not found"}"#).unwrap();
    assert!(matches!(
        route(&mut pending, envelope),
        Routed::Delivered { request_id: 1 }
    ));
    let result = settle(waiter.try_recv().map(|got| got.unwrap()));
    assert!(matches!(result, Err(IPCError::FromMPV(ref m)) if m == "property not found"));
}

#[test]
fn disconnect_before_response_and_exit_status() {
    let mut pending = Pending::new();
    let (command, mut waiter) = reserve(&mut pending, json(r#"["client_name"]"#));
    assert!(outgoing(&command.unwrap()).is_ok());

    // the socket closes: the reader closes the table first
    pending.close();
    let outcome = match waiter.try_recv() {
        Ok(Some(result)) => Ok(result),
        Ok(None) => panic!("the waiter must be cancelled"),
        Err(canceled) => Err(canceled),
    };
    assert!(matches!(settle(outcome), Err(IPCError::Disconnected)));

    // the exit status comes out when the supervisor closes
    let (phase, action) = step(Phase::Running, Event::CloseRequested);
    assert_eq!(phase, Phase::Signalling);
    assert!(matches!(action, Action::SendTerminate));
    let (phase, action) = step(phase, Event::Signalled { delivered: true });
    assert_eq!(phase, Phase::Joining);
    assert!(matches!(action, Action::JoinReader));
    let (phase, action) = step(phase, Event::ReaderJoined(Ok(Ok(()))));
    assert_eq!(phase, Phase::Reaping);
    assert!(matches!(action, Action::WaitExit));
    let report = ExitReport {
        success: false,
        code: Some(4),
    };
    let (phase, action) = step(phase, Event::Exited(Ok(report)));
    assert_eq!(phase, Phase::Closed);
    assert!(matches!(
        action,
        Action::Report(Err(CloseError::MPVExitStatus(ExitReport {
            success: false,
            code: Some(4)
        })))
    ));
}

#[test]
fn late_subscriber_sees_no_backlog() {
    let (sender, mut standing) = broadcast::channel::<MPVEvent>(100);
    let mut pending = Pending::new();
    let mut publish = |line: &str, standing: &mut broadcast::Receiver<MPVEvent>| {
        let envelope = MPVEnvelope::from_line(line).expect("the event must parse");
        match route(&mut pending, envelope) {
            Routed::Publish(event) => {
                sender.send(event).expect("the standing receiver keeps the channel open");
                while standing.try_recv().is_ok() {}
            }
            other => panic!("an event must be published, not {:?}", other),
        }
    };
    publish(r#"{"event":"start-file","playlist_entry_id":1}"#, &mut standing);
    publish(r#"{"event":"start-file","playlist_entry_id":2}"#, &mut standing);
    assert_eq!(sender.len(), 0);

    let mut subscriber = sender.subscribe();
    publish(r#"{"event":"start-file","playlist_entry_id":3}"#, &mut standing);

    let mut seen = Vec::new();
    while let Ok(event) = subscriber.try_recv() {
        seen.push(event);
    }
    assert!(seen.len() <= 100);
    assert_eq!(
        seen.last(),
        Some(&MPVEvent {
            id: 0,
            error: None,
            event: MPVEventKind::StartFile {
                playlist_entry_id: 3
            },
        })
    );
    assert_eq!(seen.len(), 1);
    assert!(matches!(
        subscriber.try_recv(),
        Err(broadcast::error::TryRecvError::Empty)
    ));
}

#[test]
fn events_leave_the_table_alone() {
    let mut pending = Pending::new();
    let (_, mut waiter) = pending.insert();
    let event = MPVEvent {
        id: 1,
        error: None,
        event: MPVEventKind::StartFile {
            playlist_entry_id: 9,
        },
    };
    let routed = route(&mut pending, MPVEnvelope::Event(event.clone()));
    assert!(matches!(routed, Routed::Publish(ref e) if *e == event));
    assert!(matches!(waiter.try_recv(), Ok(None)));
    assert!(pending.get(1).is_some());
}

#[test]
fn stray_and_repeated_responses_are_dropped() {
    let mut pending = Pending::new();
    let stray = || {
        MPVEnvelope::Response(Response {
            request_id: 5,
            result: Ok(Value::Null),
        })
    };
    assert!(matches!(
        route(&mut pending, stray()),
        Routed::Unmatched { request_id: 5 }
    ));
    let zero = MPVEnvelope::Response(Response {
        request_id: 0,
        result: Ok(Value::from(32.649283)),
    });
    assert!(matches!(
        route(&mut pending, zero),
        Routed::Unmatched { request_id: 0 }
    ));

    let (id, mut waiter) = pending.insert();
    assert_eq!(id, Some(1));
    let answer = |text: &str| {
        MPVEnvelope::Response(Response {
            request_id: 1,
            result: Ok(Value::from(text)),
        })
    };
    assert!(matches!(
        route(&mut pending, answer("first")),
        Routed::Delivered { request_id: 1 }
    ));
    assert!(matches!(
        route(&mut pending, answer("second")),
        Routed::Unmatched { request_id: 1 }
    ));
    assert!(matches!(waiter.try_recv(), Ok(Some(Ok(Value::String(ref s)))) if s == "first"));

    pending.close();
    assert!(matches!(
        route(&mut pending, answer("third")),
        Routed::Unmatched { request_id: 1 }
    ));
}

#[test]
fn response_for_a_waiter_that_left() {
    let mut pending = Pending::new();
    let (id, waiter) = pending.insert();
    assert_eq!(id, Some(1));
    drop(waiter);
    let answer = MPVEnvelope::Response(Response {
        request_id: 1,
        result: Ok(Value::Null),
    });
    assert!(matches!(
        route(&mut pending, answer),
        Routed::Abandoned {
            request_id: 1,
            result: Ok(Value::Null)
        }
    ));
    assert!(pending.get(1).is_none());
}

#[test]
fn reserve_on_a_closed_table_sends_nothing() {
    let mut pending = Pending::new();
    pending.close();
    let (command, mut waiter) = reserve(&mut pending, json(r#"["client_name"]"#));
    assert_eq!(command, None);
    let outcome = match waiter.try_recv() {
        Ok(Some(result)) => Ok(result),
        Ok(None) => panic!("the waiter must be cancelled"),
        Err(canceled) => Err(canceled),
    };
    assert!(matches!(settle(outcome), Err(IPCError::Disconnected)));
}

#[test]
fn reserve_marks_commands_asynchronous() {
    let mut pending = Pending::new();
    let payload = json(r#"["observe_property", 42, "time-pos"]"#);
    let (first, _w1) = reserve(&mut pending, payload.clone());
    let (second, _w2) = reserve(&mut pending, payload.clone());
    assert_eq!(
        first,
        Some(Command {
            request_id: 1,
            command: payload.clone(),
            async_: true
        })
    );
    assert_eq!(
        second,
        Some(Command {
            request_id: 2,
            command: payload,
            async_: true
        })
    );
}

#[test]
fn caller_steps() {
    assert!(matches!(written(Ok(())), Ok(())));
    let broken = std::io::Error::new(std::io::ErrorKind::BrokenPipe, "gone");
    assert!(matches!(
        written(Err(broken)),
        Err(IPCError::Network(ref e)) if e.kind() == std::io::ErrorKind::BrokenPipe
    ));
    assert!(matches!(
        settle(Ok(Ok(Value::from(3)))),
        Ok(Value::Number(ref n)) if n.as_u64() == Some(3)
    ));
    assert!(matches!(
        settle(Ok(Err(IPCError::FromMPV("no".to_string())))),
        Err(IPCError::FromMPV(ref m)) if m == "no"
    ));
    assert!(matches!(
        settle(Err(oneshot::Canceled)),
        Err(IPCError::Disconnected)
    ));
    assert!(matches!(
        player_result(Ok(Value::Bool(true))),
        Ok(Value::Bool(true))
    ));
    assert!(matches!(
        player_result(Err("bad".to_string())),
        Err(IPCError::FromMPV(ref m)) if m == "bad"
    ));
}

#[test]
fn reader_goes_on_after_any_line() {
    let mut pending = Pending::new();
    let (id, mut waiter) = pending.insert();
    assert_eq!(id, Some(1));
    for line in ["", "garbage", "{}", r#"{"event":"seek"}"#, r#"{"request_id":true}"#] {
        assert!(matches!(
            on_read(&mut pending, Ok(Some(line.to_string()))),
            ReaderStep::Continue(Routed::Malformed)
        ));
    }
    assert!(matches!(route_line(&mut pending, "]"), Routed::Malformed));
    assert!(matches!(
        on_read(
            &mut pending,
            Ok(Some(r#"{"event":"start-file","playlist_entry_id":1}"#.to_string()))
        ),
        ReaderStep::Continue(Routed::Publish(_))
    ));
    assert!(matches!(
        on_read(
            &mut pending,
            Ok(Some(r#"{"request_id":2,"error":"success"}"#.to_string()))
        ),
        ReaderStep::Continue(Routed::Unmatched { request_id: 2 })
    ));
    // nothing of this has touched the waiter
    assert!(matches!(waiter.try_recv(), Ok(None)));
    assert!(matches!(
        on_read(
            &mut pending,
            Ok(Some(r#"{"request_id":1,"error":"success","data":[1,2]}"#.to_string()))
        ),
        ReaderStep::Continue(Routed::Delivered { request_id: 1 })
    ));
    assert!(matches!(
        waiter.try_recv(),
        Ok(Some(Ok(Value::Array(ref items)))) if items.len() == 2
    ));
}

#[test]
fn reader_stops_at_the_end_of_the_stream() {
    let mut pending = Pending::new();
    let (_, mut waiter) = pending.insert();
    assert!(matches!(
        on_read(&mut pending, Ok(None)),
        ReaderStep::Stop(Ok(()))
    ));
    assert!(matches!(waiter.try_recv(), Err(oneshot::Canceled)));
    let (id, mut late) = pending.insert();
    assert_eq!(id, None);
    assert!(matches!(late.try_recv(), Err(oneshot::Canceled)));
}

#[test]
fn reader_stops_on_a_read_error_and_still_closes_the_table() {
    let mut pending = Pending::new();
    let (_, mut waiter) = pending.insert();
    let failure = std::io::Error::new(std::io::ErrorKind::ConnectionReset, "reset");
    assert!(matches!(
        on_read(&mut pending, Err(failure)),
        ReaderStep::Stop(Err(ref e)) if e.kind() == std::io::ErrorKind::ConnectionReset
    ));
    assert!(matches!(waiter.try_recv(), Err(oneshot::Canceled)));
    let (command, _late) = reserve(&mut pending, Value::Null);
    assert_eq!(command, None);
}
