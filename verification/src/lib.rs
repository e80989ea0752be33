//! A client library for a persistent "gateway" protocol: a long-lived duplex
//! connection that performs a Hello/Identify/Ready handshake, keeps the link
//! alive with periodic heartbeats, and routes named, sequenced events to
//! caller-registered handlers.
//!
//! The protocol engine (payload codec, session state machine, heartbeat
//! monitor and event router) is verified; the surrounding socket, timer and
//! HTTP plumbing lives outside this crate and drives the engine with plain
//! values.

pub mod api;
pub mod discord;
pub mod errors;
pub mod events;
pub mod gateway;
pub mod json;
pub mod text;

pub use api::guild::Guild;
pub use api::user::User;
pub use discord::Discord;
pub use errors::DiscordError;
pub use errors::GatewayError;

use vstd::prelude::*;

verus! {

/// Identity string reported to the server in the Identify payload.
pub const LIBRARY_IDENTITY: &'static str = "Thatcord";

} // verus!
