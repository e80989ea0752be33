//! Error taxonomy of the library.
//!
//! Protocol conditions (unknown opcode, a missing handshake field) are fatal
//! to the connection and carry the offending value. Transport faults are
//! reported by the embedding code through the message-carrying variants.

use vstd::prelude::*;

verus! {

/// Errors raised by the gateway protocol engine itself.
#[derive(Debug, Clone, PartialEq, Eq)]
pub enum GatewayError {
    /// The connection URL could not be turned into a client.
    ClientBuildError { what: String },
    /// The socket connection could not be established.
    ConnectError,
    /// An opcode outside the closed set was met, either at decode time or
    /// when an inbound payload carried a client-to-server-only opcode.
    UnknownOpcode { opcode: u8 },
    /// A payload lacked a field that the protocol requires at that point.
    InvalidResponseError { what: String },
    /// An event name that the engine cannot route.
    UnknownEvent { event: String },
    /// A wire payload that does not have the shape of the envelope.
    DecodeError { what: String },
    /// The server asked the client to reconnect. Resumption is not
    /// implemented, so the connection is closed and the caller decides.
    ReconnectRequested,
    /// The server invalidated the session. The connection is closed and the
    /// caller decides whether to start a fresh one.
    SessionInvalidated,
}

/// Top-level error type of the library.
#[derive(Debug, Clone, PartialEq, Eq)]
pub enum DiscordError {
    /// A payload could not be read from or written to its wire form.
    JsonError { what: String },
    /// The socket layer failed.
    WebSocketError { what: String },
    /// An HTTP call failed.
    HttpError { what: String },
    /// An input/output fault outside the socket itself.
    IoError { what: String },
    /// The sequence number could not be published to the heartbeat monitor.
    HeartbeatSeqUpdateError { what: String },
    /// The socket task could not be reached.
    SocketThread { what: String },
    /// The acknowledgement timestamp could not be published.
    HeartbeatTimeError { what: String },
    /// The remote API answered with an error body.
    ApiError(crate::api::ApiError),
    /// A protocol condition from the gateway engine.
    GatewayError(GatewayError),
}

impl DiscordError {
    /// Wraps a gateway condition, as the `?` conversion of the embedding
    /// code does.
    pub fn from_gateway(e: GatewayError) -> (r: DiscordError)
        ensures
            r == DiscordError::GatewayError(e),
    {
        DiscordError::GatewayError(e)
    }
}

} // verus!
