//! Whole sessions, driven the way a caller drives them: every write and
//! every read is played by the test.

use ws_session::decode::Inbound;
use ws_session::error::ConnectError;
use ws_session::error::SendError;
use ws_session::event::Event;
use ws_session::frame::CloseFrame;
use ws_session::frame::Frame;
use ws_session::pump::PumpState;
use ws_session::pump::Reaction;
use ws_session::supervisor::ConnectionSupervisor;
use ws_session::supervisor::Teardown;

/// The write half of a test: a number that tells one connection from another.
type Sink = u32;

fn connected(sink: Sink) -> (ConnectionSupervisor<Sink>, ws_session::pump::InboundPump) {
    let mut supervisor: ConnectionSupervisor<Sink> = ConnectionSupervisor::new();
    let opening = supervisor.prepare_connect("ws://localhost:9000/socket");
    assert_eq!(opening.displaced, None);
    assert_eq!(opening.endpoint, Ok("ws://localhost:9000/socket".to_string()));
    let established = supervisor.complete_connect(Ok(sink), "secret").unwrap();
    assert_eq!(established.displaced, None);
    (supervisor, established.pump)
}

fn ack() -> serde_json::Value {
    let mut object = serde_json::Map::new();
    object.insert("type".to_string(), serde_json::Value::String("ack".to_string()));
    serde_json::Value::Object(object)
}

#[test]
fn send_before_any_connect_is_not_connected() {
    let mut supervisor: ConnectionSupervisor<Sink> = ConnectionSupervisor::new();
    assert_eq!(supervisor.send("x"), Err(SendError::NotConnected));
    assert!(!supervisor.is_active());
    assert_eq!(supervisor.write_half(), None);
}

#[test]
fn ack_from_the_endpoint_is_published_as_one_message() {
    let (mut supervisor, mut pump) = connected(1);
    let reaction = supervisor.inbound(
        &mut pump,
        Inbound::Frame(Frame::Text("{\"type\":\"ack\"}".to_string())),
    );
    assert_eq!(reaction, Reaction::Publish(Event::Message(ack())));
    assert_eq!(pump.state(), PumpState::Running);
    // The session goes on: the next send is accepted.
    assert_eq!(supervisor.send("next"), Ok(Frame::Text("next".to_string())));
}

#[test]
fn close_from_the_peer_is_published_and_ends_sending() {
    let (mut supervisor, mut pump) = connected(1);
    let close = Frame::Close(Some(CloseFrame { code: 1000, reason: "bye".to_string() }));
    let reaction = supervisor.inbound(&mut pump, Inbound::Frame(close));
    assert_eq!(
        reaction,
        Reaction::Stop(Some(Event::Closed {
            code: Some(1000),
            reason: Some("bye".to_string()),
        }))
    );
    assert_eq!(pump.state(), PumpState::Closing);
    assert_eq!(supervisor.send("x"), Err(SendError::NotConnected));
    // The pump leaves its loop and releases the write half.
    assert_eq!(supervisor.pump_finished(&mut pump), Some(1));
    assert_eq!(pump.state(), PumpState::Stopped);
    assert_eq!(supervisor.send("x"), Err(SendError::NotConnected));
}

#[test]
fn nothing_is_published_after_a_close_frame() {
    let (mut supervisor, mut pump) = connected(1);
    let first = supervisor.inbound(&mut pump, Inbound::Frame(Frame::Close(None)));
    assert_eq!(first, Reaction::Stop(Some(Event::Closed { code: None, reason: None })));
    let text = Inbound::Frame(Frame::Text("{\"late\":true}".to_string()));
    assert_eq!(supervisor.inbound(&mut pump, text), Reaction::Ignore);
    let ping = Inbound::Frame(Frame::Ping(vec![1, 2, 3]));
    assert_eq!(supervisor.inbound(&mut pump, ping), Reaction::Ignore);
    let again = Inbound::Frame(Frame::Close(None));
    assert_eq!(supervisor.inbound(&mut pump, again), Reaction::Ignore);
    let failure = Inbound::Failure("reset".to_string());
    assert_eq!(supervisor.inbound(&mut pump, failure), Reaction::Ignore);
    supervisor.pump_finished(&mut pump);
    let text = Inbound::Frame(Frame::Text("{\"later\":true}".to_string()));
    assert_eq!(supervisor.inbound(&mut pump, text), Reaction::Ignore);
    assert_eq!(supervisor.send("x"), Err(SendError::NotConnected));
}

#[test]
fn disconnect_twice_is_disconnect_once() {
    let (mut supervisor, _pump) = connected(7);
    assert_eq!(supervisor.disconnect(), Teardown::Disconnected(Some(7)));
    assert!(!supervisor.is_active());
    let serial = supervisor.serial();
    assert_eq!(supervisor.disconnect(), Teardown::Nothing);
    assert!(!supervisor.is_active());
    assert_eq!(supervisor.serial(), serial);
    assert_eq!(supervisor.disconnect(), Teardown::Nothing);
    assert_eq!(supervisor.send("x"), Err(SendError::NotConnected));
}

#[test]
fn disconnect_with_no_connection_has_nothing_to_do() {
    let mut supervisor: ConnectionSupervisor<Sink> = ConnectionSupervisor::new();
    assert_eq!(supervisor.disconnect(), Teardown::Nothing);
    assert!(!supervisor.is_active());
    assert_eq!(supervisor.serial(), 0);
}

#[test]
fn connect_tears_the_prior_connection_down_first() {
    let (mut supervisor, mut old_pump) = connected(1);
    let old_serial = supervisor.serial();
    assert!(supervisor.serves(&old_pump));

    // First half: the prior connection is gone before anything is opened.
    let opening = supervisor.prepare_connect("ws://localhost:9000/next");
    assert_eq!(opening.displaced, Some(1));
    assert_eq!(opening.endpoint, Ok("ws://localhost:9000/next".to_string()));
    assert!(!supervisor.is_active());
    assert!(!supervisor.serves(&old_pump));
    assert_eq!(supervisor.send("x"), Err(SendError::NotConnected));

    // Second half: the new connection is active under a new serial.
    let established = supervisor.complete_connect(Ok(2), "secret").unwrap();
    let mut new_pump = established.pump;
    assert_eq!(established.displaced, None);
    assert_ne!(supervisor.serial(), old_serial);
    assert_eq!(new_pump.connection(), supervisor.serial());
    assert!(supervisor.serves(&new_pump));
    assert!(!supervisor.serves(&old_pump));

    // What the old pump still reads is published, but it cannot touch the
    // new connection: no pong through its write half, no lowered flag.
    let ping = Inbound::Frame(Frame::Ping(vec![9]));
    assert_eq!(supervisor.inbound(&mut old_pump, ping), Reaction::Ignore);
    let close = Inbound::Frame(Frame::Close(None));
    assert_eq!(
        supervisor.inbound(&mut old_pump, close),
        Reaction::Stop(Some(Event::Closed { code: None, reason: None }))
    );
    assert_eq!(supervisor.pump_finished(&mut old_pump), None);
    assert_eq!(supervisor.write_half(), Some(&mut 2));
    assert_eq!(supervisor.send("still here"), Ok(Frame::Text("still here".to_string())));

    // The new pump serves the new connection.
    let ping = Inbound::Frame(Frame::Ping(vec![9]));
    assert_eq!(supervisor.inbound(&mut new_pump, ping), Reaction::Reply(Frame::Pong(vec![9])));
}

#[test]
fn connect_without_the_first_half_still_tears_down() {
    let (mut supervisor, old_pump) = connected(1);
    let established = supervisor.complete_connect(Ok(2), "secret").unwrap();
    assert_eq!(established.displaced, Some(1));
    assert!(supervisor.serves(&established.pump));
    assert!(!supervisor.serves(&old_pump));
    assert_eq!(supervisor.write_half(), Some(&mut 2));
}

#[test]
fn failed_opening_leaves_the_supervisor_as_it_was() {
    let mut supervisor: ConnectionSupervisor<Sink> = ConnectionSupervisor::new();
    let outcome = supervisor.complete_connect(Err("refused".to_string()), "secret");
    assert_eq!(
        outcome,
        Err(ConnectError::Unreachable("Connection failed: refused".to_string()))
    );
    assert!(!supervisor.is_active());
    assert_eq!(supervisor.serial(), 0);

    let (mut supervisor, pump) = connected(1);
    let serial = supervisor.serial();
    let outcome = supervisor.complete_connect(Err("refused".to_string()), "secret");
    assert_eq!(
        outcome,
        Err(ConnectError::Unreachable("Connection failed: refused".to_string()))
    );
    assert!(supervisor.is_active());
    assert_eq!(supervisor.serial(), serial);
    assert!(supervisor.serves(&pump));
    assert_eq!(supervisor.send("x"), Ok(Frame::Text("x".to_string())));
}

#[test]
fn malformed_address_is_refused_after_the_teardown() {
    let (mut supervisor, _pump) = connected(1);
    let opening = supervisor.prepare_connect("not an address");
    assert_eq!(opening.displaced, Some(1));
    assert_eq!(
        opening.endpoint,
        Err(ConnectError::MalformedAddress("relative URL without a base".to_string()))
    );
    assert!(!supervisor.is_active());
}

#[test]
fn connecting_hands_out_the_authentication_frame() {
    let mut supervisor: ConnectionSupervisor<Sink> = ConnectionSupervisor::new();
    let established = supervisor.complete_connect(Ok(1), "secret").unwrap();
    assert_eq!(
        established.authentication,
        Ok(Frame::Text("{\"type\":\"authenticate\",\"data\":{\"token\":\"secret\"}}".to_string()))
    );
    assert_eq!(established.pump.state(), PumpState::Running);
    assert_eq!(established.pump.connection(), 1);
    assert_eq!(supervisor.serial(), 1);
    assert!(supervisor.is_active());
}

#[test]
fn failed_authentication_write_does_not_end_the_connect() {
    let mut supervisor: ConnectionSupervisor<Sink> = ConnectionSupervisor::new();
    let established = supervisor.complete_connect(Ok(1), "secret").unwrap();
    assert!(established.authentication.is_ok());
    // The write of the authentication frame fails: the connection stays in
    // the slot, with its flag down.
    assert_eq!(
        supervisor.write_finished(Err("broken pipe".to_string())),
        Err(SendError::Transport("broken pipe".to_string()))
    );
    assert!(supervisor.is_active());
    assert!(supervisor.serves(&established.pump));
    assert_eq!(supervisor.send("x"), Err(SendError::NotConnected));
}

#[test]
fn a_hundred_pings_get_a_hundred_pongs() {
    let (mut supervisor, mut pump) = connected(1);
    let mut pongs: Vec<Frame> = Vec::new();
    for i in 0..100u8 {
        let payload = vec![i, i.wrapping_mul(3), 0xff];
        match supervisor.inbound(&mut pump, Inbound::Frame(Frame::Ping(payload))) {
            Reaction::Reply(frame) => pongs.push(frame),
            other => panic!("ping {} was not answered: {:?}", i, other),
        }
        assert_eq!(pump.state(), PumpState::Running);
    }
    assert_eq!(pongs.len(), 100);
    for i in 0..100u8 {
        assert_eq!(pongs[i as usize], Frame::Pong(vec![i, i.wrapping_mul(3), 0xff]));
    }
    assert_eq!(supervisor.write_half(), Some(&mut 1));
    assert_eq!(supervisor.send("x"), Ok(Frame::Text("x".to_string())));
}

#[test]
fn sends_go_out_whole_and_in_call_order() {
    let (mut supervisor, mut pump) = connected(1);
    let mut wire: Vec<Frame> = Vec::new();
    let messages = ["first", "{\"second\":2}", "", "fourth with \u{e9} and \u{1f600}"];
    for (i, message) in messages.iter().enumerate() {
        wire.push(supervisor.send(message).unwrap());
        assert_eq!(supervisor.write_finished(Ok(())), Ok(()));
        if i == 1 {
            // A ping in between is answered by a whole frame of its own.
            match supervisor.inbound(&mut pump, Inbound::Frame(Frame::Ping(vec![7]))) {
                Reaction::Reply(frame) => wire.push(frame),
                other => panic!("unexpected reaction {:?}", other),
            }
        }
    }
    assert_eq!(
        wire,
        vec![
            Frame::Text("first".to_string()),
            Frame::Text("{\"second\":2}".to_string()),
            Frame::Pong(vec![7]),
            Frame::Text("".to_string()),
            Frame::Text("fourth with \u{e9} and \u{1f600}".to_string()),
        ]
    );
}

#[test]
fn failed_write_refuses_later_sends() {
    let (mut supervisor, _pump) = connected(1);
    assert_eq!(supervisor.send("a"), Ok(Frame::Text("a".to_string())));
    assert_eq!(
        supervisor.write_finished(Err("connection reset".to_string())),
        Err(SendError::Transport("connection reset".to_string()))
    );
    assert_eq!(supervisor.send("b"), Err(SendError::NotConnected));
    assert_eq!(supervisor.send("c"), Err(SendError::NotConnected));
    // The write half is still there for the teardown.
    assert_eq!(supervisor.disconnect(), Teardown::Disconnected(Some(1)));
}

#[test]
fn transport_failure_while_reading_is_published_as_error() {
    let (mut supervisor, mut pump) = connected(1);
    let reaction = supervisor.inbound(&mut pump, Inbound::Failure("connection reset".to_string()));
    assert_eq!(reaction, Reaction::Stop(Some(Event::Error("connection reset".to_string()))));
    assert_eq!(pump.state(), PumpState::Closing);
    assert_eq!(supervisor.send("x"), Err(SendError::NotConnected));
    assert_eq!(supervisor.pump_finished(&mut pump), Some(1));
    assert_eq!(supervisor.disconnect(), Teardown::Disconnected(None));
    assert_eq!(supervisor.disconnect(), Teardown::Nothing);
}

#[test]
fn end_of_stream_stops_the_pump_without_an_event() {
    let (mut supervisor, mut pump) = connected(1);
    assert_eq!(supervisor.inbound(&mut pump, Inbound::End), Reaction::Stop(None));
    assert_eq!(pump.state(), PumpState::Closing);
    assert_eq!(supervisor.pump_finished(&mut pump), Some(1));
    assert_eq!(pump.state(), PumpState::Stopped);
    // The write half is gone, so the next send is refused.
    assert_eq!(supervisor.send("x"), Err(SendError::NotConnected));
    assert_eq!(supervisor.send("y"), Err(SendError::NotConnected));
}

#[test]
fn pump_of_a_disconnected_session_still_publishes_the_close() {
    let (mut supervisor, mut pump) = connected(1);
    assert_eq!(supervisor.disconnect(), Teardown::Disconnected(Some(1)));
    assert!(!supervisor.serves(&pump));
    let close = Frame::Close(Some(CloseFrame { code: 1001, reason: "going away".to_string() }));
    assert_eq!(
        supervisor.inbound(&mut pump, Inbound::Frame(close)),
        Reaction::Stop(Some(Event::Closed {
            code: Some(1001),
            reason: Some("going away".to_string()),
        }))
    );
    assert_eq!(supervisor.pump_finished(&mut pump), None);
    assert!(!supervisor.is_active());
}

#[test]
fn binary_request_goes_out_as_a_binary_frame() {
    let (mut supervisor, _pump) = connected(1);
    let request = ws_session::frame::OutboundRequest::Binary(vec![0, 159, 146, 150]);
    assert_eq!(supervisor.send_request(request), Ok(Frame::Binary(vec![0, 159, 146, 150])));
    let request = ws_session::frame::OutboundRequest::Text("t".to_string());
    assert_eq!(supervisor.send_request(request), Ok(Frame::Text("t".to_string())));
}

#[test]
fn each_connection_gets_the_next_serial() {
    let mut supervisor: ConnectionSupervisor<Sink> = ConnectionSupervisor::new();
    let first = supervisor.complete_connect(Ok(1), "t").unwrap();
    let second = supervisor.complete_connect(Ok(2), "t").unwrap();
    assert_eq!(first.pump.connection(), 1);
    assert_eq!(second.pump.connection(), 2);
    assert_eq!(second.displaced, Some(1));
    assert!(!supervisor.serves(&first.pump));
    assert!(supervisor.serves(&second.pump));
}

#[test]
fn events_come_out_in_the_order_of_the_frames() {
    let (mut supervisor, mut pump) = connected(1);
    let inputs = vec![
        Inbound::Frame(Frame::Text("{\"type\":\"ack\"}".to_string())),
        Inbound::Frame(Frame::Text("plain".to_string())),
        Inbound::Frame(Frame::Pong(vec![1])),
        Inbound::Frame(Frame::Binary(vec![0xff, 0x00])),
        Inbound::Frame(Frame::Ping(vec![2])),
        Inbound::Frame(Frame::Text("7".to_string())),
        Inbound::Failure("reset by peer".to_string()),
        Inbound::Frame(Frame::Text("too late".to_string())),
    ];
    let mut published: Vec<Event> = Vec::new();
    for input in inputs {
        match supervisor.inbound(&mut pump, input) {
            Reaction::Publish(event) => published.push(event),
            Reaction::Stop(Some(event)) => published.push(event),
            Reaction::Stop(None) | Reaction::Reply(_) | Reaction::Ignore => {}
        }
    }
    assert_eq!(
        published,
        vec![
            Event::Message(ack()),
            Event::RawMessage("plain".to_string()),
            Event::Binary(vec![0xff, 0x00]),
            Event::Message(serde_json::Value::Number(serde_json::Number::from(7u64))),
            Event::Error("reset by peer".to_string()),
        ]
    );
}
