//! The capability interface through which the embedding application
//! receives events, and the read-only view of connection state handed to
//! each handler.

use vstd::prelude::*;

use crate::errors::DiscordError;
use crate::json::Guild;
use crate::json::JsonValue;
use crate::json::User;

verus! {

/// The name of the event that completes the handshake.
pub const READY: &'static str = "READY";

/// The name of the event that announces a guild.
pub const GUILD_CREATE: &'static str = "GUILD_CREATE";

/// The view of the connection handed to a handler: the authenticated user
/// once the handshake completed, and the guilds seen so far. Handlers hold
/// no reference back to the connection that invoked them.
pub struct Client<'a> {
    pub user: &'a Option<User>,
    pub guilds: &'a Vec<Guild>,
}

impl<'a> Client<'a> {
    /// The authenticated user. Valid only once READY has been processed;
    /// asking earlier is a usage error.
    pub fn get_current_user(&self) -> (r: User)
        requires
            *self.user is Some,
        ensures
            Some(r) == *self.user,
    {
        match self.user {
            Some(u) => u.clone(),
            None => vstd::pervasive::unreached(),
        }
    }
}

/// A handler for one named event. The router invokes `handle` with the
/// event's name and raw body; an error return is logged by the embedding
/// code and never terminates the connection.
pub trait EventHandler {
    fn handle(&mut self, client: Client<'_>, event: String, data: JsonValue) -> Result<
        (),
        DiscordError,
    >;
}

} // verus!
