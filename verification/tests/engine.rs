//! The session state machine and the heartbeat monitor, driven the way
//! the socket and timer loops drive them.

use thatcord::discord::DefaultEventHandler;
use thatcord::errors::DiscordError;
use thatcord::errors::GatewayError;
use thatcord::events::Client;
use thatcord::events::EventHandler;
use thatcord::gateway::heartbeat::heartbeat;
use thatcord::gateway::heartbeat::HeartbeatHandler;
use thatcord::gateway::redact_identify;
use thatcord::gateway::Gateway;
use thatcord::gateway::GatewayAction;
use thatcord::gateway::SessionState;
use thatcord::api::gateway::Payload;
use thatcord::json::JsonValue;

struct Noop;

impl EventHandler for Noop {
    fn handle(&mut self, _client: Client<'_>, _event: String, _data: JsonValue) -> Result<(), DiscordError> {
        Ok(())
    }
}

fn obj(entries: Vec<(&str, JsonValue)>) -> JsonValue {
    JsonValue::Object(entries.into_iter().map(|(k, v)| (k.to_string(), v)).collect())
}

fn engine() -> Gateway<Noop> {
    Gateway::new("example-token", "linux", DefaultEventHandler::new(), 0)
}

fn hello(interval: u64) -> Payload {
    Payload {
        op: 10,
        d: obj(vec![("heartbeat_interval", JsonValue::UInt(interval))]),
        s: None,
        t: None,
    }
}

#[test]
fn hello_enqueues_one_identify_and_starts_one_heartbeat() {
    let mut gw = engine();
    let action = gw.handle_payload(hello(41250), 0).unwrap();
    assert_eq!(action, GatewayAction::StartHeartbeat { interval_ms: 41250 });
    assert_eq!(gw.state, SessionState::AwaitingIdentify);
    assert_eq!(gw.client.outbound.len(), 1);
    let identify = &gw.client.outbound[0];
    assert_eq!(identify.op, 2);
    assert_eq!(identify.s, None);
    assert_eq!(identify.t, None);
    match &identify.d {
        JsonValue::Object(entries) => {
            assert_eq!(entries.len(), 2);
            assert_eq!(entries[0].0, "token");
            assert_eq!(entries[0].1, JsonValue::Text("example-token".to_string()));
            assert_eq!(entries[1].0, "properties");
            match &entries[1].1 {
                JsonValue::Object(props) => {
                    assert_eq!(props[0].0, "$os");
                    assert_eq!(props[0].1, JsonValue::Text("linux".to_string()));
                    assert_eq!(props[1].0, "$browser");
                    assert_eq!(props[1].1, JsonValue::Text("Thatcord".to_string()));
                    assert_eq!(props[2].0, "$device");
                    assert_eq!(props[2].1, JsonValue::Text("Thatcord".to_string()));
                }
                other => panic!("properties is not an object: {:?}", other),
            }
        }
        other => panic!("identify body is not an object: {:?}", other),
    }
}

#[test]
fn hello_without_interval_is_an_invalid_response() {
    let mut gw = engine();
    let r = gw.handle_payload(
        Payload { op: 10, d: obj(vec![]), s: None, t: None },
        0,
    );
    assert!(matches!(
        r,
        Err(DiscordError::GatewayError(
            GatewayError::InvalidResponseError { .. }
        ))
    ));
    assert_eq!(gw.client.outbound.len(), 0);
    assert_eq!(gw.state, SessionState::Initial);
}

#[test]
fn missed_ack_disconnects_once_and_stops_heartbeats() {
    let mut handler = HeartbeatHandler::new(0);
    let mut client = thatcord::gateway::Client::new();
    // First tick: the start instant counts as acknowledged, so it sends.
    assert!(!heartbeat(&mut handler, &mut client, 10));
    assert_eq!(client.outbound.len(), 1);
    // No ack arrives. The second tick signals disconnect, sends nothing.
    assert!(heartbeat(&mut handler, &mut client, 20));
    assert_eq!(client.outbound.len(), 1);
    assert!(handler.stopped);
    // Any further tick neither signals nor sends.
    assert!(!heartbeat(&mut handler, &mut client, 30));
    assert!(!heartbeat(&mut handler, &mut client, 40));
    assert_eq!(client.outbound.len(), 1);
}

#[test]
fn acknowledged_heartbeats_keep_flowing() {
    let mut gw = engine();
    assert!(!gw.heartbeat_tick(10));
    let ack = Payload { op: 11, d: JsonValue::Null, s: None, t: None };
    assert_eq!(gw.handle_payload(ack, 15), Ok(GatewayAction::Continue));
    assert_eq!(gw.heartbeat_handler.last_ack, 15);
    assert!(!gw.heartbeat_tick(20));
    assert_eq!(gw.client.outbound.len(), 2);
}

#[test]
fn heartbeat_carries_latest_dispatch_sequence() {
    let mut gw = engine();
    // Before any dispatch, the heartbeat body is null.
    assert!(!gw.heartbeat_tick(5));
    assert_eq!(gw.client.outbound[0].op, 1);
    assert_eq!(gw.client.outbound[0].d, JsonValue::Null);
    // After a dispatch with sequence 41, it carries 41.
    let dispatch = Payload {
        op: 0,
        d: JsonValue::Null,
        s: Some(41),
        t: Some("TYPING_START".to_string()),
    };
    gw.handle_payload(dispatch, 6).unwrap();
    gw.handle_payload(Payload { op: 11, d: JsonValue::Null, s: None, t: None }, 7)
        .unwrap();
    assert!(!gw.heartbeat_tick(8));
    assert_eq!(gw.client.outbound[1].op, 1);
    assert_eq!(gw.client.outbound[1].d, JsonValue::UInt(41));
}

#[test]
fn server_heartbeat_request_is_answered_on_demand() {
    let mut gw = engine();
    let dispatch = Payload {
        op: 0,
        d: JsonValue::Null,
        s: Some(9),
        t: Some("TYPING_START".to_string()),
    };
    gw.handle_payload(dispatch, 0).unwrap();
    let request = Payload { op: 1, d: JsonValue::Null, s: None, t: None };
    assert_eq!(gw.handle_payload(request, 0), Ok(GatewayAction::Continue));
    assert_eq!(gw.client.outbound.len(), 1);
    assert_eq!(gw.client.outbound[0].op, 1);
    assert_eq!(gw.client.outbound[0].d, JsonValue::UInt(9));
}

#[test]
fn ready_dispatch_reaches_ready_state() {
    let mut gw = engine();
    let user = obj(vec![
        ("id", JsonValue::Text("80351110224678912".to_string())),
        ("username", JsonValue::Text("Nelly".to_string())),
        ("discriminator", JsonValue::Text("1337".to_string())),
    ]);
    let guild = obj(vec![
        ("id", JsonValue::Text("41771983423143937".to_string())),
        ("unavailable", JsonValue::Bool(true)),
    ]);
    let ready = Payload {
        op: 0,
        d: obj(vec![
            ("session_id", JsonValue::Text("abc".to_string())),
            ("user", user),
            ("guilds", JsonValue::Array(vec![guild])),
        ]),
        s: Some(1),
        t: Some("READY".to_string()),
    };
    assert_eq!(gw.handle_payload(ready, 0), Ok(GatewayAction::Continue));
    assert_eq!(gw.state, SessionState::Ready);
    assert_eq!(gw.session_id, "abc");
    assert_eq!(gw.heartbeat_handler.last_seq, Some(1));
    let u = gw.event_handler.user.as_ref().expect("identity populated");
    assert_eq!(u.username, "Nelly");
    assert_eq!(u.discriminator, "1337");
    assert_eq!(gw.event_handler.guilds.len(), 1);
    assert_eq!(gw.event_handler.guilds[0].id, "41771983423143937");
    assert!(gw.event_handler.guilds[0].unavailable);
}

#[test]
fn ready_without_session_id_is_fatal() {
    let mut gw = engine();
    let ready = Payload {
        op: 0,
        d: obj(vec![("user", JsonValue::Null)]),
        s: Some(1),
        t: Some("READY".to_string()),
    };
    let r = gw.handle_payload(ready, 0);
    assert!(matches!(
        r,
        Err(DiscordError::GatewayError(
            GatewayError::InvalidResponseError { .. }
        ))
    ));
    assert_eq!(gw.state, SessionState::Initial);
    // The sequence number was still observed.
    assert_eq!(gw.heartbeat_handler.last_seq, Some(1));
}

#[test]
fn dispatch_without_event_name_is_fatal() {
    let mut gw = engine();
    let dispatch = Payload { op: 0, d: JsonValue::Null, s: Some(3), t: None };
    let r = gw.handle_payload(dispatch, 0);
    assert!(matches!(
        r,
        Err(DiscordError::GatewayError(
            GatewayError::InvalidResponseError { .. }
        ))
    ));
}

#[test]
fn reconnect_and_invalid_session_are_distinguishable() {
    let mut gw = engine();
    let r = gw.handle_payload(Payload { op: 7, d: JsonValue::Null, s: None, t: None }, 0);
    assert_eq!(
        r,
        Err(DiscordError::GatewayError(GatewayError::ReconnectRequested))
    );
    let r = gw.handle_payload(Payload { op: 9, d: JsonValue::Null, s: None, t: None }, 0);
    assert_eq!(
        r,
        Err(DiscordError::GatewayError(GatewayError::SessionInvalidated))
    );
}

#[test]
fn client_to_server_opcodes_are_refused_inbound() {
    for op in [2u8, 3, 4, 6, 8] {
        let mut gw = engine();
        let r = gw.handle_payload(Payload { op, d: JsonValue::Null, s: None, t: None }, 0);
        assert_eq!(
            r,
            Err(DiscordError::GatewayError(GatewayError::UnknownOpcode {
                opcode: op
            }))
        );
    }
}

#[test]
fn unknown_numeric_opcode_is_refused() {
    let mut gw = engine();
    let r = gw.handle_payload(Payload { op: 5, d: JsonValue::Null, s: None, t: None }, 0);
    assert_eq!(
        r,
        Err(DiscordError::GatewayError(GatewayError::UnknownOpcode {
            opcode: 5
        }))
    );
}

#[test]
fn close_marks_the_session_closed() {
    let mut gw = engine();
    gw.close();
    assert_eq!(gw.state, SessionState::Closed);
}

#[test]
fn identify_token_is_redacted_for_trace_output() {
    let identify = Payload {
        op: 2,
        d: obj(vec![
            ("token", JsonValue::Text("example-token".to_string())),
            ("properties", JsonValue::Null),
        ]),
        s: None,
        t: None,
    };
    let redacted = redact_identify(identify);
    assert_eq!(
        redacted.d,
        obj(vec![
            ("token", JsonValue::Text("<TOKEN REDACTED>".to_string())),
            ("properties", JsonValue::Null),
        ])
    );
}

#[test]
fn redaction_of_a_tokenless_identify_changes_nothing() {
    let p = Payload {
        op: 2,
        d: obj(vec![("properties", JsonValue::Null)]),
        s: None,
        t: None,
    };
    let r = redact_identify(p);
    assert_eq!(r.d, obj(vec![("properties", JsonValue::Null)]));
}

#[test]
fn redaction_leaves_other_payloads_alone() {
    let p = Payload {
        op: 1,
        d: obj(vec![("token", JsonValue::Text("keep".to_string()))]),
        s: None,
        t: None,
    };
    let r = redact_identify(p);
    assert_eq!(
        r.d,
        obj(vec![("token", JsonValue::Text("keep".to_string()))])
    );
}
