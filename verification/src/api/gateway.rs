//! The wire envelope of the gateway protocol and its codec.
//!
//! A payload is `{"op": <opcode>, "d": <body>, "s": <sequence|null>,
//! "t": <event name|null>}`. Decoding validates the envelope shape and maps
//! the numeric opcode into the closed enumeration; an unlisted value is a
//! protocol error carrying the raw number, never a silent default.

use vstd::prelude::*;
use vstd::string::StringExecFns;

use crate::errors::GatewayError;
use crate::json::value::entries_get;
use crate::json::value::find_key;
use crate::json::value::json_get;
use crate::json::value::spec_opt_str;
use crate::json::value::spec_opt_uint;
use crate::json::value::JsonValue;
use crate::json::value::opt_str;
use crate::json::value::opt_uint;

verus! {

/// A gateway payload, as carried on the wire.
#[derive(Debug, PartialEq, Eq)]
pub struct Payload {
    pub op: u8,
    pub d: JsonValue,
    pub s: Option<u64>,
    pub t: Option<String>,
}

/// The opcode of a gateway payload. The wire values form a closed set;
/// `try_from` is the only way in from a number.
#[derive(Copy, Clone, Debug, PartialEq, Eq, Structural)]
pub enum GatewayOpcode {
    Dispatch,
    Heartbeat,
    Identify,
    StatusUpdate,
    VoiceStateUpdate,
    Resume,
    Reconnect,
    RequestGuildMembers,
    InvalidSession,
    Hello,
    HeartbeatAck,
}

/// The wire value of an opcode.
pub open spec fn opcode_value(op: GatewayOpcode) -> u8 {
    match op {
        GatewayOpcode::Dispatch => 0,
        GatewayOpcode::Heartbeat => 1,
        GatewayOpcode::Identify => 2,
        GatewayOpcode::StatusUpdate => 3,
        GatewayOpcode::VoiceStateUpdate => 4,
        GatewayOpcode::Resume => 6,
        GatewayOpcode::Reconnect => 7,
        GatewayOpcode::RequestGuildMembers => 8,
        GatewayOpcode::InvalidSession => 9,
        GatewayOpcode::Hello => 10,
        GatewayOpcode::HeartbeatAck => 11,
    }
}

/// The opcode a wire value denotes, if any.
pub open spec fn spec_opcode_of(n: u8) -> Option<GatewayOpcode> {
    if n == 0 {
        Some(GatewayOpcode::Dispatch)
    } else if n == 1 {
        Some(GatewayOpcode::Heartbeat)
    } else if n == 2 {
        Some(GatewayOpcode::Identify)
    } else if n == 3 {
        Some(GatewayOpcode::StatusUpdate)
    } else if n == 4 {
        Some(GatewayOpcode::VoiceStateUpdate)
    } else if n == 6 {
        Some(GatewayOpcode::Resume)
    } else if n == 7 {
        Some(GatewayOpcode::Reconnect)
    } else if n == 8 {
        Some(GatewayOpcode::RequestGuildMembers)
    } else if n == 9 {
        Some(GatewayOpcode::InvalidSession)
    } else if n == 10 {
        Some(GatewayOpcode::Hello)
    } else if n == 11 {
        Some(GatewayOpcode::HeartbeatAck)
    } else {
        None
    }
}

pub open spec fn spec_opcode_known(n: u8) -> bool {
    spec_opcode_of(n) is Some
}

/// Translating an opcode to its wire value and back gives the opcode again.
pub proof fn lemma_opcode_round_trip(op: GatewayOpcode)
    ensures
        spec_opcode_of(opcode_value(op)) == Some(op),
{
}

impl GatewayOpcode {
    /// The wire value of this opcode.
    pub fn to_u8(self) -> (r: u8)
        ensures
            r == opcode_value(self),
    {
        match self {
            GatewayOpcode::Dispatch => 0,
            GatewayOpcode::Heartbeat => 1,
            GatewayOpcode::Identify => 2,
            GatewayOpcode::StatusUpdate => 3,
            GatewayOpcode::VoiceStateUpdate => 4,
            GatewayOpcode::Resume => 6,
            GatewayOpcode::Reconnect => 7,
            GatewayOpcode::RequestGuildMembers => 8,
            GatewayOpcode::InvalidSession => 9,
            GatewayOpcode::Hello => 10,
            GatewayOpcode::HeartbeatAck => 11,
        }
    }

    /// Maps a wire value into the closed set; an unlisted value is refused
    /// with the raw number, never mapped to a default.
    pub fn try_from(op: u8) -> (r: Result<GatewayOpcode, GatewayError>)
        ensures
            r is Ok <==> spec_opcode_known(op),
            r matches Ok(g) ==> Some(g) == spec_opcode_of(op),
            r matches Err(e) ==> e == (GatewayError::UnknownOpcode { opcode: op }),
    {
        match op {
            0 => Ok(GatewayOpcode::Dispatch),
            1 => Ok(GatewayOpcode::Heartbeat),
            2 => Ok(GatewayOpcode::Identify),
            3 => Ok(GatewayOpcode::StatusUpdate),
            4 => Ok(GatewayOpcode::VoiceStateUpdate),
            6 => Ok(GatewayOpcode::Resume),
            7 => Ok(GatewayOpcode::Reconnect),
            8 => Ok(GatewayOpcode::RequestGuildMembers),
            9 => Ok(GatewayOpcode::InvalidSession),
            10 => Ok(GatewayOpcode::Hello),
            11 => Ok(GatewayOpcode::HeartbeatAck),
            _ => Err(GatewayError::UnknownOpcode { opcode: op }),
        }
    }
}

/// The JSON value that carries an optional sequence number.
pub open spec fn json_of_opt_u64(s: Option<u64>) -> JsonValue {
    match s {
        None => JsonValue::Null,
        Some(n) => JsonValue::UInt(n),
    }
}

/// The JSON value that carries an optional event name.
pub open spec fn json_of_opt_text(t: Option<String>) -> JsonValue {
    match t {
        None => JsonValue::Null,
        Some(s) => JsonValue::Text(s),
    }
}

/// What encoding a payload produces: an object with exactly the four
/// envelope members, in wire order.
pub open spec fn is_encoded_payload(p: Payload, v: JsonValue) -> bool {
    &&& v matches JsonValue::Object(es)
    &&& es@.len() == 4
    &&& es@[0].0@ == "op"@ && es@[0].1 == JsonValue::UInt(p.op as u64)
    &&& es@[1].0@ == "d"@ && es@[1].1 == p.d
    &&& es@[2].0@ == "s"@ && es@[2].1 == json_of_opt_u64(p.s)
    &&& es@[3].0@ == "t"@ && es@[3].1 == json_of_opt_text(p.t)
}

/// The opcode member of an envelope, when it is an unsigned number.
pub open spec fn opcode_field(v: JsonValue) -> Option<u64> {
    match json_get(v, "op"@) {
        Some(JsonValue::UInt(n)) => Some(n),
        _ => None,
    }
}

/// A well-formed envelope: a known opcode, a body, and optional sequence
/// and event-name members of the right shape.
pub open spec fn envelope_wf(v: JsonValue) -> bool {
    &&& opcode_field(v) matches Some(n) && n <= 255 && spec_opcode_known(n as u8)
    &&& json_get(v, "d"@) is Some
    &&& spec_opt_uint(v, "s"@, u64::MAX) is Some
    &&& spec_opt_str(v, "t"@) is Some
}

/// The payload a well-formed envelope denotes.
pub open spec fn decoded_payload(v: JsonValue) -> Payload
    recommends
        envelope_wf(v),
{
    Payload {
        op: opcode_field(v)->Some_0 as u8,
        d: json_get(v, "d"@)->Some_0,
        s: spec_opt_uint(v, "s"@, u64::MAX)->Some_0,
        t: spec_opt_str(v, "t"@)->Some_0,
    }
}

/// Encodes a payload as its wire envelope. Encoding never fails for
/// payloads built by this library.
pub fn encode(p: Payload) -> (r: JsonValue)
    ensures
        is_encoded_payload(p, r),
{
    let mut entries: Vec<(String, JsonValue)> = Vec::new();
    entries.push(("op".to_owned(), JsonValue::UInt(p.op as u64)));
    entries.push(("d".to_owned(), p.d));
    entries.push((
        "s".to_owned(),
        match p.s {
            None => JsonValue::Null,
            Some(n) => JsonValue::UInt(n),
        },
    ));
    entries.push((
        "t".to_owned(),
        match p.t {
            None => JsonValue::Null,
            Some(name) => JsonValue::Text(name),
        },
    ));
    JsonValue::Object(entries)
}

/// Decodes a wire envelope.
///
/// Succeeds exactly on well-formed envelopes, yielding the denoted payload.
/// An opcode outside the closed set is refused as `UnknownOpcode` with the
/// raw value; any other shape fault is a `DecodeError`.
pub fn decode(v: JsonValue) -> (r: Result<Payload, GatewayError>)
    ensures
        r is Ok <==> envelope_wf(v),
        r matches Ok(p) ==> p == decoded_payload(v),
        r matches Err(e) ==> match opcode_field(v) {
            Some(n) => if n <= 255 && !spec_opcode_known(n as u8) {
                e == (GatewayError::UnknownOpcode { opcode: n as u8 })
            } else {
                e matches GatewayError::DecodeError { .. }
            },
            None => e matches GatewayError::DecodeError { .. },
        },
{
    let op_num: u64 = match v.get("op") {
        Some(x) => match x.as_u64() {
            Some(n) => n,
            None => {
                return Err(GatewayError::DecodeError { what: "op is not an integer".to_owned() });
            },
        },
        None => {
            return Err(GatewayError::DecodeError { what: "op is missing".to_owned() });
        },
    };
    if op_num > 255 {
        return Err(GatewayError::DecodeError { what: "op does not fit an opcode".to_owned() });
    }
    let op = op_num as u8;
    if let Err(e) = GatewayOpcode::try_from(op) {
        return Err(e);
    }
    let s: Option<u64> = match opt_uint(&v, "s", u64::MAX) {
        Ok(s) => s,
        Err(_) => {
            return Err(GatewayError::DecodeError { what: "s is not a sequence".to_owned() });
        },
    };
    let t: Option<String> = match opt_str(&v, "t") {
        Ok(t) => t,
        Err(_) => {
            return Err(GatewayError::DecodeError { what: "t is not an event name".to_owned() });
        },
    };
    match v {
        JsonValue::Object(mut entries) => {
            match find_key(&entries, "d") {
                Some(i) => {
                    let entry = entries.remove(i);
                    Ok(Payload { op, d: entry.1, s, t })
                },
                None => Err(GatewayError::DecodeError { what: "d is missing".to_owned() }),
            }
        },
        _ => Err(GatewayError::DecodeError { what: "payload is not an object".to_owned() }),
    }
}

/// Decoding an encoded payload gives the payload back, for every payload
/// whose opcode lies in the closed set.
pub proof fn lemma_payload_round_trip(p: Payload, v: JsonValue)
    requires
        spec_opcode_known(p.op),
        is_encoded_payload(p, v),
    ensures
        envelope_wf(v),
        decoded_payload(v) == p,
{
    reveal_strlit("op");
    reveal_strlit("d");
    reveal_strlit("s");
    reveal_strlit("t");
    assert("op"@.len() == 2 && "d"@.len() == 1 && "s"@.len() == 1 && "t"@.len() == 1);
    assert("d"@[0] == 'd' && "s"@[0] == 's' && "t"@[0] == 't');
    let es = v->Object_0@;
    assert(es[0].0@ != "d"@ && es[0].0@ != "s"@ && es[0].0@ != "t"@);
    assert(es[1].0@ != "s"@ && es[1].0@ != "t"@);
    assert(es[2].0@ != "t"@);
    let e1 = es.drop_first();
    let e2 = e1.drop_first();
    let e3 = e2.drop_first();
    assert(e1[0] == es[1] && e1[1] == es[2] && e1[2] == es[3] && e1.len() == 3);
    assert(e2[0] == es[2] && e2[1] == es[3] && e2.len() == 2);
    assert(e3[0] == es[3] && e3.len() == 1);
    assert(entries_get(es, "op"@) == Some(es[0].1));
    assert(entries_get(es, "d"@) == entries_get(e1, "d"@));
    assert(entries_get(e1, "d"@) == Some(es[1].1));
    assert(entries_get(es, "s"@) == entries_get(e1, "s"@));
    assert(entries_get(e1, "s"@) == entries_get(e2, "s"@));
    assert(entries_get(e2, "s"@) == Some(es[2].1));
    assert(entries_get(es, "t"@) == entries_get(e1, "t"@));
    assert(entries_get(e1, "t"@) == entries_get(e2, "t"@));
    assert(entries_get(e2, "t"@) == entries_get(e3, "t"@));
    assert(entries_get(e3, "t"@) == Some(es[3].1));
}

} // verus!
