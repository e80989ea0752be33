//! The wire envelope codec: round trips over the closed opcode set, and
//! the refusal of every malformed envelope.

use thatcord::api::gateway::decode;
use thatcord::api::gateway::encode;
use thatcord::api::gateway::GatewayOpcode;
use thatcord::json::JsonValue;
use thatcord::api::gateway::Payload;
use thatcord::GatewayError;

fn obj(entries: Vec<(&str, JsonValue)>) -> JsonValue {
    JsonValue::Object(entries.into_iter().map(|(k, v)| (k.to_string(), v)).collect())
}

fn sample_payload(op: u8) -> Payload {
    Payload {
        op,
        d: obj(vec![
            ("a", JsonValue::UInt(7)),
            ("b", JsonValue::Text("seven".to_string())),
            ("c", JsonValue::Array(vec![JsonValue::Null, JsonValue::Bool(true)])),
        ]),
        s: Some(41),
        t: Some("SOMETHING".to_string()),
    }
}

#[test]
fn round_trip_every_opcode() {
    for op in [0u8, 1, 2, 3, 4, 6, 7, 8, 9, 10, 11] {
        let p = sample_payload(op);
        let again = decode(encode(sample_payload(op))).expect("closed-set opcode must decode");
        assert_eq!(again, p);
    }
}

#[test]
fn round_trip_null_fields() {
    let p = Payload { op: 11, d: JsonValue::Null, s: None, t: None };
    let encoded = encode(Payload { op: 11, d: JsonValue::Null, s: None, t: None });
    assert_eq!(decode(encoded), Ok(p));
}

#[test]
fn unknown_opcode_is_refused() {
    for op in [5u8, 12, 13, 200, 255] {
        let encoded = encode(sample_payload(op));
        assert_eq!(decode(encoded), Err(GatewayError::UnknownOpcode { opcode: op }));
    }
}

#[test]
fn opcode_try_from_covers_the_closed_set() {
    assert_eq!(GatewayOpcode::try_from(0), Ok(GatewayOpcode::Dispatch));
    assert_eq!(GatewayOpcode::try_from(1), Ok(GatewayOpcode::Heartbeat));
    assert_eq!(GatewayOpcode::try_from(2), Ok(GatewayOpcode::Identify));
    assert_eq!(GatewayOpcode::try_from(3), Ok(GatewayOpcode::StatusUpdate));
    assert_eq!(GatewayOpcode::try_from(4), Ok(GatewayOpcode::VoiceStateUpdate));
    assert_eq!(GatewayOpcode::try_from(6), Ok(GatewayOpcode::Resume));
    assert_eq!(GatewayOpcode::try_from(7), Ok(GatewayOpcode::Reconnect));
    assert_eq!(GatewayOpcode::try_from(8), Ok(GatewayOpcode::RequestGuildMembers));
    assert_eq!(GatewayOpcode::try_from(9), Ok(GatewayOpcode::InvalidSession));
    assert_eq!(GatewayOpcode::try_from(10), Ok(GatewayOpcode::Hello));
    assert_eq!(GatewayOpcode::try_from(11), Ok(GatewayOpcode::HeartbeatAck));
    assert_eq!(
        GatewayOpcode::try_from(5),
        Err(GatewayError::UnknownOpcode { opcode: 5 })
    );
    assert_eq!(
        GatewayOpcode::try_from(12),
        Err(GatewayError::UnknownOpcode { opcode: 12 })
    );
}

#[test]
fn encode_writes_the_envelope_in_wire_order() {
    let encoded = encode(Payload {
        op: 1,
        d: JsonValue::UInt(3),
        s: Some(9),
        t: None,
    });
    assert_eq!(
        encoded,
        obj(vec![
            ("op", JsonValue::UInt(1)),
            ("d", JsonValue::UInt(3)),
            ("s", JsonValue::UInt(9)),
            ("t", JsonValue::Null),
        ])
    );
}

#[test]
fn decode_requires_an_opcode() {
    let v = obj(vec![("d", JsonValue::Null)]);
    assert!(matches!(decode(v), Err(GatewayError::DecodeError { .. })));
}

#[test]
fn decode_refuses_a_textual_opcode() {
    let v = obj(vec![
        ("op", JsonValue::Text("0".to_string())),
        ("d", JsonValue::Null),
    ]);
    assert!(matches!(decode(v), Err(GatewayError::DecodeError { .. })));
}

#[test]
fn decode_refuses_an_oversized_opcode() {
    let v = obj(vec![("op", JsonValue::UInt(300)), ("d", JsonValue::Null)]);
    assert!(matches!(decode(v), Err(GatewayError::DecodeError { .. })));
}

#[test]
fn decode_requires_a_body() {
    let v = obj(vec![("op", JsonValue::UInt(0))]);
    assert!(matches!(decode(v), Err(GatewayError::DecodeError { .. })));
}

#[test]
fn decode_refuses_a_malformed_sequence() {
    let v = obj(vec![
        ("op", JsonValue::UInt(0)),
        ("d", JsonValue::Null),
        ("s", JsonValue::Text("one".to_string())),
    ]);
    assert!(matches!(decode(v), Err(GatewayError::DecodeError { .. })));
}

#[test]
fn decode_refuses_a_malformed_event_name() {
    let v = obj(vec![
        ("op", JsonValue::UInt(0)),
        ("d", JsonValue::Null),
        ("t", JsonValue::UInt(3)),
    ]);
    assert!(matches!(decode(v), Err(GatewayError::DecodeError { .. })));
}

#[test]
fn decode_takes_missing_sequence_and_name_as_absent() {
    let v = obj(vec![("op", JsonValue::UInt(10)), ("d", JsonValue::Null)]);
    let p = decode(v).unwrap();
    assert_eq!(p.op, 10);
    assert_eq!(p.s, None);
    assert_eq!(p.t, None);
}

#[test]
fn round_trip_keeps_non_integer_numbers_by_their_bits() {
    let p = Payload {
        op: 0,
        d: JsonValue::Float { bits: 0x400921fb54442d18 },
        s: Some(2),
        t: Some("E".to_string()),
    };
    let encoded = encode(Payload {
        op: 0,
        d: JsonValue::Float { bits: 0x400921fb54442d18 },
        s: Some(2),
        t: Some("E".to_string()),
    });
    assert_eq!(decode(encoded), Ok(p));
}

#[test]
fn decode_ignores_extra_members_and_field_order() {
    let v = obj(vec![
        ("t", JsonValue::Text("READY".to_string())),
        ("junk", JsonValue::Bool(false)),
        ("s", JsonValue::UInt(4)),
        ("op", JsonValue::UInt(0)),
        ("d", JsonValue::UInt(1)),
    ]);
    let p = decode(v).unwrap();
    assert_eq!(p.op, 0);
    assert_eq!(p.s, Some(4));
    assert_eq!(p.t, Some("READY".to_string()));
    assert_eq!(p.d, JsonValue::UInt(1));
}
