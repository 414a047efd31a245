//! Connection lifecycle, join handshake and state-gated sending.

use ws_client::connection::{ConnState, SendError, WsClient};

#[test]
fn url_is_scheme_host_port_path_and_room_id() {
    let c = WsClient::new(String::from("room1"), String::from("bob"));
    assert_eq!(c.url, "ws://127.0.0.1:3000/ws/room1");
}

#[test]
fn scenario_connect_lobby_as_alice_first_frame_is_alice() {
    let mut c = WsClient::new(String::from("lobby"), String::from("alice"));
    assert_eq!(c.state, ConnState::Connecting);
    assert!(c.wire.is_empty());
    let frame = c.on_open();
    assert_eq!(frame, Some(String::from("alice")));
    assert_eq!(c.state, ConnState::Open);
    assert_eq!(c.wire, vec![String::from("alice")]);
}

#[test]
fn scenario_open_then_send_hi_wire_is_alice_hi() {
    let mut c = WsClient::new(String::from("lobby"), String::from("alice"));
    c.on_open();
    assert_eq!(c.send(String::from("hi")), Ok(()));
    assert_eq!(c.wire, vec![String::from("alice"), String::from("hi")]);
}

#[test]
fn scenario_send_while_connecting_fails_and_adds_no_frame() {
    let mut c = WsClient::new(String::from("lobby"), String::from("alice"));
    assert_eq!(c.send(String::from("x")), Err(SendError::NotOpen));
    assert!(c.wire.is_empty());
    assert_eq!(c.state, ConnState::Connecting);
}

#[test]
fn scenario_closed_connection_rejects_every_send() {
    let mut c = WsClient::new(String::from("lobby"), String::from("alice"));
    c.on_open();
    c.on_close();
    assert_eq!(c.state, ConnState::Closed);
    assert_eq!(c.send(String::from("a")), Err(SendError::NotOpen));
    assert_eq!(c.send(String::from("b")), Err(SendError::NotOpen));
    assert_eq!(c.wire, vec![String::from("alice")]);
}

#[test]
fn sends_outside_open_never_reach_the_wire() {
    let mut c = WsClient::new(String::from("r"), String::from("u"));
    for m in ["one", "two", "three"] {
        assert_eq!(c.send(String::from(m)), Err(SendError::NotOpen));
    }
    assert!(c.wire.is_empty());
    c.on_open();
    c.on_error();
    assert_eq!(c.state, ConnState::Errored);
    for m in ["four", "five"] {
        assert_eq!(c.send(String::from(m)), Err(SendError::NotOpen));
    }
    assert_eq!(c.wire, vec![String::from("u")]);
}

#[test]
fn second_open_event_does_not_resend_handshake() {
    let mut c = WsClient::new(String::from("lobby"), String::from("alice"));
    let first = c.on_open();
    let second = c.on_open();
    assert_eq!(first, Some(String::from("alice")));
    assert_eq!(second, None);
    assert_eq!(c.wire, vec![String::from("alice")]);
}

#[test]
fn error_while_connecting_is_terminal() {
    let mut c = WsClient::new(String::from("lobby"), String::from("alice"));
    c.on_error();
    assert_eq!(c.state, ConnState::Errored);
    assert!(c.wire.is_empty());
    assert_eq!(c.on_open(), None);
    assert_eq!(c.state, ConnState::Errored);
    c.on_close();
    assert_eq!(c.state, ConnState::Errored);
}

#[test]
fn close_event_before_open_leaves_client_connecting() {
    let mut c = WsClient::new(String::from("lobby"), String::from("alice"));
    c.on_close();
    assert_eq!(c.state, ConnState::Connecting);
}

#[test]
fn error_after_close_does_not_reopen_anything() {
    let mut c = WsClient::new(String::from("lobby"), String::from("alice"));
    c.on_open();
    c.on_close();
    c.on_error();
    assert_eq!(c.state, ConnState::Closed);
    assert_eq!(c.wire, vec![String::from("alice")]);
}

#[test]
fn username_frame_is_sent_verbatim_without_framing() {
    let mut c = WsClient::new(String::from("lobby"), String::from("alice in wonderland "));
    let frame = c.on_open();
    assert_eq!(frame, Some(String::from("alice in wonderland ")));
    assert_eq!(c.wire[0], "alice in wonderland ");
}
