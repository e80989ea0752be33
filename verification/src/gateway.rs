//! The session state machine of the gateway protocol.
//!
//! The engine interprets every inbound payload, advances the handshake
//! (Hello, then Identify, then the READY dispatch), publishes sequence and
//! acknowledgement data to the heartbeat monitor, and delegates dispatched
//! events to the router. It is driven from outside: the socket loop hands
//! it decoded payloads, the timer loop calls the heartbeat tick, and both
//! read the outbound queue back out of `Client`.

pub mod heartbeat;

use vstd::prelude::*;

use crate::api::gateway::opcode_value;
use crate::api::gateway::spec_opcode_of;
use crate::api::gateway::GatewayOpcode;
use crate::api::gateway::Payload;
use crate::discord::bookkeeping_step;
use crate::discord::preprocess_wf;
use crate::discord::DefaultEventHandler;
use crate::errors::DiscordError;
use crate::errors::GatewayError;
use crate::events::EventHandler;
use crate::gateway::heartbeat::heartbeat;
use crate::gateway::heartbeat::heartbeat_payload;
use crate::gateway::heartbeat::spec_heartbeat;
use crate::gateway::heartbeat::HeartbeatHandler;
use crate::json::value::json_get;
use crate::json::value::spec_req_str;
use crate::json::value::JsonValue;
use crate::json::value::req_str;
use crate::text::str_eq;
use crate::LIBRARY_IDENTITY;

verus! {

/// Where the session stands: fresh, past Hello (Identify sent), past the
/// READY dispatch, or torn down.
#[derive(Debug, Clone, Copy, PartialEq, Eq, Structural)]
pub enum SessionState {
    Initial,
    AwaitingIdentify,
    Ready,
    Closed,
}

/// The engine's side of the transport: the queue of payloads waiting to be
/// written to the socket. The embedding code drains it in order.
#[derive(Debug)]
pub struct Client {
    pub outbound: Vec<Payload>,
}

impl Client {
    /// An empty outbound queue.
    pub fn new() -> (r: Client)
        ensures
            r.outbound@ == Seq::<Payload>::empty(),
    {
        Client { outbound: Vec::new() }
    }

    /// Enqueues one payload built from an opcode and a body, with no
    /// sequence number and no event name.
    pub fn send(&mut self, op: GatewayOpcode, value: JsonValue) -> (r: Result<(), DiscordError>)
        ensures
            r is Ok,
            final(self).outbound@ == old(self).outbound@.push(
                Payload { op: opcode_value(op), d: value, s: None, t: None },
            ),
    {
        let payload = Payload { op: op.to_u8(), d: value, s: None, t: None };
        self.outbound.push(payload);
        Ok(())
    }
}

/// What the embedding loop must do after a payload was handled: nothing
/// more, or start the heartbeat timer at the given interval.
#[derive(Debug, Clone, Copy, PartialEq, Eq, Structural)]
pub enum GatewayAction {
    Continue,
    StartHeartbeat { interval_ms: u64 },
}

/// The heartbeat interval a Hello body carries, if any.
pub open spec fn hello_interval(d: JsonValue) -> Option<u64> {
    match json_get(d, "heartbeat_interval"@) {
        Some(JsonValue::UInt(n)) => Some(n),
        _ => None,
    }
}

/// The fixed client-properties block of the Identify payload.
pub open spec fn is_identify_properties(v: JsonValue, os: String) -> bool {
    &&& v matches JsonValue::Object(ps)
    &&& ps@.len() == 3
    &&& ps@[0].0@ == "$os"@ && ps@[0].1 == JsonValue::Text(os)
    &&& ps@[1].0@ == "$browser"@
    &&& (ps@[1].1 matches JsonValue::Text(b) && b@ == LIBRARY_IDENTITY@)
    &&& ps@[2].0@ == "$device"@
    &&& (ps@[2].1 matches JsonValue::Text(d) && d@ == LIBRARY_IDENTITY@)
}

/// The Identify payload: the credential token and the client-properties
/// block, under the Identify opcode.
pub open spec fn is_identify_payload(p: Payload, token: String, os: String) -> bool {
    &&& p.op == opcode_value(GatewayOpcode::Identify)
    &&& p.s is None
    &&& p.t is None
    &&& p.d matches JsonValue::Object(es)
    &&& es@.len() == 2
    &&& es@[0].0@ == "token"@ && es@[0].1 == JsonValue::Text(token)
    &&& es@[1].0@ == "properties"@ && is_identify_properties(es@[1].1, os)
}

/// What the credential field reads after redaction.
pub open spec fn redacted_text() -> Seq<char> {
    "<TOKEN REDACTED>"@
}

/// A copy of an Identify body with some `token` entry blanked and every
/// other entry kept in place.
pub open spec fn token_redacted(d: JsonValue, r: JsonValue) -> bool {
    &&& d matches JsonValue::Object(es)
    &&& r matches JsonValue::Object(es2)
    &&& es2@.len() == es@.len()
    &&& (exists|i: int|
        {
            &&& 0 <= i < es@.len()
            &&& es@[i].0@ == "token"@
            &&& es2@ == es@.update(i, es2@[i])
            &&& es2@[i].0 == es@[i].0
            &&& (es2@[i].1 matches JsonValue::Text(s) && s@ == redacted_text())
        })
}

/// Blanks the credential token out of an Identify payload, for trace
/// output: the token must never reach a log. Any other payload, and an
/// Identify without a token entry, comes back unchanged.
pub fn redact_identify(p: Payload) -> (r: Payload)
    ensures
        r.op == p.op,
        r.s == p.s,
        r.t == p.t,
        p.op != opcode_value(GatewayOpcode::Identify) ==> r.d == p.d,
        (p.op == opcode_value(GatewayOpcode::Identify) && json_get(p.d, "token"@) is None) ==> r.d
            == p.d,
        (p.op == opcode_value(GatewayOpcode::Identify) && json_get(p.d, "token"@) is Some)
            ==> token_redacted(p.d, r.d),
{
    let Payload { op, d, s, t } = p;
    if op == GatewayOpcode::Identify.to_u8() {
        match d {
            JsonValue::Object(mut es) => {
                match crate::json::value::find_key(&es, "token") {
                    Some(i) => {
                        let key = es[i].0.clone();
                        es.set(i, (key, JsonValue::Text("<TOKEN REDACTED>".to_owned())));
                        Payload { op, d: JsonValue::Object(es), s, t }
                    },
                    None => Payload { op, d: JsonValue::Object(es), s, t },
                }
            },
            other => Payload { op, d: other, s, t },
        }
    } else {
        Payload { op, d, s, t }
    }
}

/// The gateway engine: session identity and state, the outbound queue, the
/// router, and the heartbeat record.
pub struct Gateway<H: EventHandler> {
    pub token: String,
    pub os: String,
    pub client: Client,
    pub session_id: String,
    pub state: SessionState,
    pub event_handler: DefaultEventHandler<H>,
    pub heartbeat_handler: HeartbeatHandler,
}

/// What handling a Dispatch payload does, besides its result: the sequence
/// number is published whatever else happens; READY (with its session id
/// present) moves the session to Ready and captures the id; the router's
/// bookkeeping advances exactly when the result is `Ok`; the outbound
/// queue, the credentials and the registered handler names stay.
pub open spec fn dispatch_effects<H: EventHandler>(
    pre: Gateway<H>,
    payload: Payload,
    post: Gateway<H>,
    ok: bool,
) -> bool {
    &&& post.token == pre.token
    &&& post.os == pre.os
    &&& post.client == pre.client
    &&& post.heartbeat_handler == (HeartbeatHandler {
        last_seq: payload.s,
        ..pre.heartbeat_handler
    })
    &&& post.event_handler.events@.len() == pre.event_handler.events@.len()
    &&& (forall|i: int|
        0 <= i < pre.event_handler.events@.len() ==> post.event_handler.events@[i].0
            == pre.event_handler.events@[i].0)
    &&& (ok <==> (payload.t matches Some(name) && (name@ == "READY"@ ==> spec_req_str(
        payload.d,
        "session_id"@,
    ) is Some) && preprocess_wf(name@, payload.d)))
    &&& payload.t matches Some(name) ==> (ok ==> bookkeeping_step(
        pre.event_handler.user,
        pre.event_handler.guilds@,
        name@,
        payload.d,
        post.event_handler.user,
        post.event_handler.guilds@,
    ))
    &&& !ok ==> post.event_handler.user == pre.event_handler.user && post.event_handler.guilds
        == pre.event_handler.guilds
    &&& (payload.t matches Some(name) && name@ == "READY"@ && spec_req_str(
        payload.d,
        "session_id"@,
    ) is Some) ==> (post.state is Ready && Some(post.session_id) == spec_req_str(
        payload.d,
        "session_id"@,
    ))
    &&& !(payload.t matches Some(name) && name@ == "READY"@ && spec_req_str(
        payload.d,
        "session_id"@,
    ) is Some) ==> (post.state == pre.state && post.session_id == pre.session_id)
}

/// Which error a failed Dispatch reports: a missing event name or a READY
/// without a session id violate the protocol; anything else is a malformed
/// body refused by the router's bookkeeping.
pub open spec fn dispatch_error(payload: Payload, e: DiscordError) -> bool {
    if payload.t is None {
        e matches DiscordError::GatewayError(GatewayError::InvalidResponseError { .. })
    } else if payload.t->Some_0@ == "READY"@ && spec_req_str(payload.d, "session_id"@) is None {
        e matches DiscordError::GatewayError(GatewayError::InvalidResponseError { .. })
    } else {
        e matches DiscordError::JsonError { .. }
    }
}

/// What handling a Hello payload does: with an interval present, the
/// session leaves `Initial`, exactly one Identify payload is enqueued and
/// the caller is told to start exactly one heartbeat task; without one,
/// nothing changes.
pub open spec fn hello_effects<H: EventHandler>(
    pre: Gateway<H>,
    payload: Payload,
    post: Gateway<H>,
    ok: bool,
) -> bool {
    &&& post.token == pre.token
    &&& post.os == pre.os
    &&& post.session_id == pre.session_id
    &&& post.heartbeat_handler == pre.heartbeat_handler
    &&& post.event_handler == pre.event_handler
    &&& (ok <==> hello_interval(payload.d) is Some)
    &&& ok ==> {
        &&& post.state == (if pre.state is Initial {
            SessionState::AwaitingIdentify
        } else {
            pre.state
        })
        &&& post.client.outbound@.len() == pre.client.outbound@.len() + 1
        &&& post.client.outbound@ == pre.client.outbound@.push(post.client.outbound@.last())
        &&& is_identify_payload(post.client.outbound@.last(), pre.token, pre.os)
    }
    &&& !ok ==> post.state == pre.state && post.client == pre.client
}

impl<H: EventHandler> Gateway<H> {
    /// A fresh engine over an established transport: empty outbound queue,
    /// no session identity, heartbeat record at the start instant. The
    /// socket itself lives with the embedding code.
    pub fn new(token: &str, os: &str, event_handler: DefaultEventHandler<H>, start_ms: u64) -> (r:
        Gateway<H>)
        ensures
            r.token@ == token@,
            r.os@ == os@,
            r.client.outbound@ == Seq::<Payload>::empty(),
            r.session_id@ == Seq::<char>::empty(),
            r.state is Initial,
            r.event_handler == event_handler,
            r.heartbeat_handler == (HeartbeatHandler {
                last_seq: None,
                last_send: start_ms,
                last_ack: start_ms,
                stopped: false,
            }),
    {
        Gateway {
            token: token.to_owned(),
            os: os.to_owned(),
            client: Client::new(),
            session_id: String::new(),
            state: SessionState::Initial,
            event_handler,
            heartbeat_handler: HeartbeatHandler::new(start_ms),
        }
    }

    /// The READY transition: capture the session id the body announces and
    /// move to `Ready`. A body without a session id violates the handshake
    /// contract and is fatal.
    fn ev_ready(&mut self, d: &JsonValue) -> (r: Result<(), DiscordError>)
        ensures
            r is Ok <==> spec_req_str(*d, "session_id"@) is Some,
            r is Ok ==> final(self).state is Ready && Some(final(self).session_id) == spec_req_str(
                *d,
                "session_id"@,
            ),
            r is Err ==> *final(self) == *old(self),
            r matches Err(e) ==> e matches DiscordError::GatewayError(
                GatewayError::InvalidResponseError { .. },
            ),
            final(self).token == old(self).token,
            final(self).os == old(self).os,
            final(self).client == old(self).client,
            final(self).event_handler == old(self).event_handler,
            final(self).heartbeat_handler == old(self).heartbeat_handler,
    {
        let session_id = match req_str(d, "session_id") {
            Ok(s) => s,
            Err(_) => {
                return Err(
                    DiscordError::GatewayError(
                        GatewayError::InvalidResponseError {
                            what: "READY has no session_id".to_owned(),
                        },
                    ),
                );
            },
        };
        self.state = SessionState::Ready;
        self.session_id = session_id;
        Ok(())
    }

    /// Handles a Dispatch payload: publish its sequence number to the
    /// heartbeat record, run the READY transition when the event is named
    /// READY, then route the event.
    fn op0_dispatch(&mut self, payload: Payload) -> (r: Result<(), DiscordError>)
        ensures
            dispatch_effects(*old(self), payload, *final(self), r is Ok),
            r matches Err(e) ==> dispatch_error(payload, e),
    {
        self.heartbeat_handler.last_seq = payload.s;
        let event = match payload.t {
            Some(name) => name,
            None => {
                return Err(
                    DiscordError::GatewayError(
                        GatewayError::InvalidResponseError {
                            what: "Dispatch has no event name".to_owned(),
                        },
                    ),
                );
            },
        };
        if str_eq(event.as_str(), "READY") {
            match self.ev_ready(&payload.d) {
                Ok(_) => {},
                Err(e) => {
                    return Err(e);
                },
            }
        }
        self.event_handler.handle(event, payload.d)
    }

    /// Answers the server's explicit heartbeat request with the current
    /// sequence number, on demand and apart from the periodic timer.
    fn op1_heartbeat(&mut self, _payload: Payload) -> (r: Result<(), DiscordError>)
        ensures
            r is Ok,
            final(self).client.outbound@ == old(self).client.outbound@.push(
                heartbeat_payload(old(self).heartbeat_handler.last_seq),
            ),
            final(self).token == old(self).token,
            final(self).os == old(self).os,
            final(self).session_id == old(self).session_id,
            final(self).state == old(self).state,
            final(self).event_handler == old(self).event_handler,
            final(self).heartbeat_handler == old(self).heartbeat_handler,
    {
        let value = match self.heartbeat_handler.last_seq {
            None => JsonValue::Null,
            Some(n) => JsonValue::UInt(n),
        };
        self.client.send(GatewayOpcode::Heartbeat, value)
    }

    /// The server asked for a reconnect. Resumption is not implemented;
    /// the condition is surfaced so the caller can close and decide.
    fn op7_reconnect(&mut self, _payload: Payload) -> (r: Result<(), DiscordError>)
        ensures
            r == Err::<(), DiscordError>(
                DiscordError::GatewayError(GatewayError::ReconnectRequested),
            ),
            *final(self) == *old(self),
    {
        Err(DiscordError::GatewayError(GatewayError::ReconnectRequested))
    }

    /// The server invalidated the session; surfaced so the caller can
    /// close and decide whether to start over.
    fn op9_invalid_session(&mut self, _payload: Payload) -> (r: Result<(), DiscordError>)
        ensures
            r == Err::<(), DiscordError>(
                DiscordError::GatewayError(GatewayError::SessionInvalidated),
            ),
            *final(self) == *old(self),
    {
        Err(DiscordError::GatewayError(GatewayError::SessionInvalidated))
    }

    /// Handles Hello: read the heartbeat interval, move a fresh session to
    /// `AwaitingIdentify`, and enqueue exactly one Identify payload. The
    /// returned interval tells the caller to start exactly one heartbeat
    /// task; a Hello without an interval is an invalid response.
    fn op10_hello(&mut self, payload: Payload) -> (r: Result<u64, DiscordError>)
        ensures
            hello_effects(*old(self), payload, *final(self), r is Ok),
            r matches Ok(iv) ==> Some(iv) == hello_interval(payload.d),
            r matches Err(e) ==> e matches DiscordError::GatewayError(
                GatewayError::InvalidResponseError { .. },
            ),
    {
        let interval = match payload.d.get("heartbeat_interval") {
            Some(x) => match x.as_u64() {
                Some(n) => n,
                None => {
                    return Err(
                        DiscordError::GatewayError(
                            GatewayError::InvalidResponseError {
                                what: "Hello does not have heartbeat_interval".to_owned(),
                            },
                        ),
                    );
                },
            },
            None => {
                return Err(
                    DiscordError::GatewayError(
                        GatewayError::InvalidResponseError {
                            what: "Hello does not have heartbeat_interval".to_owned(),
                        },
                    ),
                );
            },
        };
        if self.state == SessionState::Initial {
            self.state = SessionState::AwaitingIdentify;
        }
        let mut props: Vec<(String, JsonValue)> = Vec::new();
        props.push(("$os".to_owned(), JsonValue::Text(self.os.clone())));
        props.push(("$browser".to_owned(), JsonValue::Text(LIBRARY_IDENTITY.to_owned())));
        props.push(("$device".to_owned(), JsonValue::Text(LIBRARY_IDENTITY.to_owned())));
        let mut body: Vec<(String, JsonValue)> = Vec::new();
        body.push(("token".to_owned(), JsonValue::Text(self.token.clone())));
        body.push(("properties".to_owned(), JsonValue::Object(props)));
        match self.client.send(GatewayOpcode::Identify, JsonValue::Object(body)) {
            Ok(_) => {},
            Err(_) => {
                vstd::pervasive::unreached::<()>();
            },
        }
        Ok(interval)
    }

    /// Records the acknowledgement instant. Staleness is judged by the
    /// monitor on its next tick, not here.
    fn op11_heartbeat_ack(&mut self, _payload: Payload, now_ms: u64) -> (r: Result<
        (),
        DiscordError,
    >)
        ensures
            r is Ok,
            final(self).heartbeat_handler == (HeartbeatHandler {
                last_ack: now_ms,
                ..old(self).heartbeat_handler
            }),
            final(self).token == old(self).token,
            final(self).os == old(self).os,
            final(self).client == old(self).client,
            final(self).session_id == old(self).session_id,
            final(self).state == old(self).state,
            final(self).event_handler == old(self).event_handler,
    {
        self.heartbeat_handler.last_ack = now_ms;
        Ok(())
    }

    /// Interprets one inbound payload. Server-to-client opcodes are
    /// handled as above; an opcode outside the closed set, or one that
    /// only travels client-to-server, is a protocol error carrying the
    /// raw value. `now_ms` timestamps a heartbeat acknowledgement.
    pub fn handle_payload(&mut self, payload: Payload, now_ms: u64) -> (r: Result<
        GatewayAction,
        DiscordError,
    >)
        ensures
            match spec_opcode_of(payload.op) {
                None => r == Err::<GatewayAction, DiscordError>(
                    DiscordError::GatewayError(GatewayError::UnknownOpcode { opcode: payload.op }),
                ) && *final(self) == *old(self),
                Some(op) => match op {
                    GatewayOpcode::Dispatch => {
                        &&& dispatch_effects(*old(self), payload, *final(self), r is Ok)
                        &&& r matches Ok(a) ==> a is Continue
                        &&& r matches Err(e) ==> dispatch_error(payload, e)
                    },
                    GatewayOpcode::Heartbeat => {
                        &&& r == Ok::<GatewayAction, DiscordError>(GatewayAction::Continue)
                        &&& final(self).client.outbound@ == old(self).client.outbound@.push(
                            heartbeat_payload(old(self).heartbeat_handler.last_seq),
                        )
                        &&& final(self).token == old(self).token
                        &&& final(self).os == old(self).os
                        &&& final(self).session_id == old(self).session_id
                        &&& final(self).state == old(self).state
                        &&& final(self).event_handler == old(self).event_handler
                        &&& final(self).heartbeat_handler == old(self).heartbeat_handler
                    },
                    GatewayOpcode::Reconnect => {
                        &&& r == Err::<GatewayAction, DiscordError>(
                            DiscordError::GatewayError(GatewayError::ReconnectRequested),
                        )
                        &&& *final(self) == *old(self)
                    },
                    GatewayOpcode::InvalidSession => {
                        &&& r == Err::<GatewayAction, DiscordError>(
                            DiscordError::GatewayError(GatewayError::SessionInvalidated),
                        )
                        &&& *final(self) == *old(self)
                    },
                    GatewayOpcode::Hello => {
                        &&& hello_effects(*old(self), payload, *final(self), r is Ok)
                        &&& r matches Ok(a) ==> (a matches GatewayAction::StartHeartbeat {
                            interval_ms,
                        } && Some(interval_ms) == hello_interval(payload.d))
                        &&& r matches Err(e) ==> e matches DiscordError::GatewayError(
                            GatewayError::InvalidResponseError { .. },
                        )
                    },
                    GatewayOpcode::HeartbeatAck => {
                        &&& r == Ok::<GatewayAction, DiscordError>(GatewayAction::Continue)
                        &&& final(self).heartbeat_handler == (HeartbeatHandler {
                            last_ack: now_ms,
                            ..old(self).heartbeat_handler
                        })
                        &&& final(self).token == old(self).token
                        &&& final(self).os == old(self).os
                        &&& final(self).client == old(self).client
                        &&& final(self).session_id == old(self).session_id
                        &&& final(self).state == old(self).state
                        &&& final(self).event_handler == old(self).event_handler
                    },
                    _ => {
                        &&& r == Err::<GatewayAction, DiscordError>(
                            DiscordError::GatewayError(
                                GatewayError::UnknownOpcode { opcode: payload.op },
                            ),
                        )
                        &&& *final(self) == *old(self)
                    },
                },
            },
    {
        let op = match GatewayOpcode::try_from(payload.op) {
            Ok(op) => op,
            Err(e) => {
                return Err(DiscordError::from_gateway(e));
            },
        };
        match op {
            GatewayOpcode::Dispatch => match self.op0_dispatch(payload) {
                Ok(_) => Ok(GatewayAction::Continue),
                Err(e) => Err(e),
            },
            GatewayOpcode::Heartbeat => match self.op1_heartbeat(payload) {
                Ok(_) => Ok(GatewayAction::Continue),
                Err(e) => Err(e),
            },
            GatewayOpcode::Reconnect => match self.op7_reconnect(payload) {
                Ok(_) => Ok(GatewayAction::Continue),
                Err(e) => Err(e),
            },
            GatewayOpcode::InvalidSession => match self.op9_invalid_session(payload) {
                Ok(_) => Ok(GatewayAction::Continue),
                Err(e) => Err(e),
            },
            GatewayOpcode::Hello => match self.op10_hello(payload) {
                Ok(interval) => Ok(GatewayAction::StartHeartbeat { interval_ms: interval }),
                Err(e) => Err(e),
            },
            GatewayOpcode::HeartbeatAck => match self.op11_heartbeat_ack(payload, now_ms) {
                Ok(_) => Ok(GatewayAction::Continue),
                Err(e) => Err(e),
            },
            _ => Err(
                DiscordError::GatewayError(GatewayError::UnknownOpcode { opcode: payload.op }),
            ),
        }
    }

    /// One tick of the heartbeat monitor, driven by the embedding timer
    /// loop. Returns whether the connection must be torn down.
    pub fn heartbeat_tick(&mut self, now_ms: u64) -> (disconnect: bool)
        ensures
            final(self).heartbeat_handler == spec_heartbeat(
                old(self).heartbeat_handler,
                now_ms,
            ).0,
            disconnect == spec_heartbeat(old(self).heartbeat_handler, now_ms).2,
            match spec_heartbeat(old(self).heartbeat_handler, now_ms).1 {
                Some(p) => final(self).client.outbound@ == old(self).client.outbound@.push(p),
                None => final(self).client.outbound@ == old(self).client.outbound@,
            },
            final(self).token == old(self).token,
            final(self).os == old(self).os,
            final(self).session_id == old(self).session_id,
            final(self).state == old(self).state,
            final(self).event_handler == old(self).event_handler,
    {
        heartbeat(&mut self.heartbeat_handler, &mut self.client, now_ms)
    }

    /// Marks the session torn down, once the embedding code has closed the
    /// socket — after a liveness failure or a fatal protocol error.
    pub fn close(&mut self)
        ensures
            final(self).state is Closed,
            final(self).token == old(self).token,
            final(self).os == old(self).os,
            final(self).client == old(self).client,
            final(self).session_id == old(self).session_id,
            final(self).event_handler == old(self).event_handler,
            final(self).heartbeat_handler == old(self).heartbeat_handler,
    {
        self.state = SessionState::Closed;
    }
}

} // verus!
