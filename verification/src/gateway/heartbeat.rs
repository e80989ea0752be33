//! The heartbeat liveness monitor.
//!
//! The monitor owns the send timestamp; the session state machine publishes
//! the last dispatch sequence number and the acknowledgement timestamp into
//! the shared record. On each timer tick the monitor either finds the last
//! acknowledgement stale — then it signals disconnect once and stops — or
//! records the new send time and emits one heartbeat payload carrying the
//! last known sequence number.

use vstd::prelude::*;

use crate::api::gateway::json_of_opt_u64;
use crate::api::gateway::opcode_value;
use crate::api::gateway::GatewayOpcode;
use crate::api::gateway::Payload;
use crate::gateway::Client;
use crate::json::JsonValue;

verus! {

/// The liveness record shared between the monitor and the state machine.
/// `last_sequence` and `last_ack` are written by the state machine;
/// `last_send` and `stopped` by the monitor.
#[derive(Debug, Clone, Copy, PartialEq, Eq, Structural)]
pub struct HeartbeatHandler {
    /// The sequence number of the most recently observed Dispatch.
    pub last_seq: Option<u64>,
    /// When the monitor last sent a heartbeat, in milliseconds.
    pub last_send: u64,
    /// When the server last acknowledged one, in milliseconds.
    pub last_ack: u64,
    /// Set once the monitor found the connection dead; it then never
    /// sends or signals again.
    pub stopped: bool,
}

impl HeartbeatHandler {
    /// The record at connection start: no sequence seen, send and
    /// acknowledgement both at the start instant, monitor live.
    pub fn new(start_ms: u64) -> (r: HeartbeatHandler)
        ensures
            r == (HeartbeatHandler {
                last_seq: None,
                last_send: start_ms,
                last_ack: start_ms,
                stopped: false,
            }),
    {
        HeartbeatHandler { last_seq: None, last_send: start_ms, last_ack: start_ms, stopped: false }
    }
}

/// The heartbeat payload: opcode Heartbeat, the last known sequence number
/// as the body (null when none was observed), no sequence or event name of
/// its own.
pub open spec fn heartbeat_payload(last_seq: Option<u64>) -> Payload {
    Payload {
        op: opcode_value(GatewayOpcode::Heartbeat),
        d: json_of_opt_u64(last_seq),
        s: None,
        t: None,
    }
}

/// One timer tick of the monitor: the state afterwards, the payload sent
/// (if any), and whether disconnect was signalled.
pub open spec fn spec_heartbeat(h: HeartbeatHandler, now_ms: u64) -> (
    HeartbeatHandler,
    Option<Payload>,
    bool,
) {
    if h.stopped {
        (h, None, false)
    } else if h.last_ack < h.last_send {
        (HeartbeatHandler { stopped: true, ..h }, None, true)
    } else {
        (HeartbeatHandler { last_send: now_ms, ..h }, Some(heartbeat_payload(h.last_seq)), false)
    }
}

/// One timer tick. If no acknowledgement arrived since the previous
/// heartbeat was sent, the connection is dead: disconnect is signalled and
/// the monitor stops for good. Otherwise the send time is recorded and one
/// heartbeat payload carrying the last known sequence number is enqueued.
pub fn heartbeat(handler: &mut HeartbeatHandler, client: &mut Client, now_ms: u64) -> (disconnect:
    bool)
    ensures
        *final(handler) == spec_heartbeat(*old(handler), now_ms).0,
        disconnect == spec_heartbeat(*old(handler), now_ms).2,
        match spec_heartbeat(*old(handler), now_ms).1 {
            Some(p) => final(client).outbound@ == old(client).outbound@.push(p),
            None => final(client).outbound@ == old(client).outbound@,
        },
{
    if handler.stopped {
        return false;
    }
    if handler.last_ack < handler.last_send {
        handler.stopped = true;
        return true;
    }
    handler.last_send = now_ms;
    let value = match handler.last_seq {
        None => JsonValue::Null,
        Some(n) => JsonValue::UInt(n),
    };
    match client.send(GatewayOpcode::Heartbeat, value) {
        Ok(_) => {},
        Err(_) => {
            vstd::pervasive::unreached::<()>();
        },
    }
    false
}

/// Once an acknowledgement is overdue, the next tick signals disconnect
/// exactly once: the tick after it neither sends a heartbeat nor signals
/// again, whatever instants the timer supplies.
pub proof fn lemma_missed_ack_disconnects_once(h: HeartbeatHandler, t1: u64, t2: u64)
    requires
        !h.stopped,
        h.last_ack < h.last_send,
    ensures
        spec_heartbeat(h, t1).2,
        spec_heartbeat(h, t1).1 is None,
        !spec_heartbeat(spec_heartbeat(h, t1).0, t2).2,
        spec_heartbeat(spec_heartbeat(h, t1).0, t2).1 is None,
{
}

/// Whatever the monitor's other fields hold, a tick that sends at all
/// sends the heartbeat payload carrying exactly the published sequence
/// number — the one the state machine set at the most recent Dispatch, or
/// null when none was observed.
pub proof fn lemma_heartbeat_carries_sequence(h: HeartbeatHandler, now_ms: u64)
    ensures
        spec_heartbeat(h, now_ms).1 matches Some(p) ==> p == heartbeat_payload(h.last_seq)
            && p.d == json_of_opt_u64(h.last_seq),
{
}

} // verus!
