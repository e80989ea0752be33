//! Snowflake identifiers for the HTTP API bindings, and one newtype per
//! kind of object so that ids cannot be mixed up.

use vstd::prelude::*;

use crate::text::dec_digits;
use crate::text::parse_u64;
use crate::text::parsed_u64;
use crate::text::u64_to_string;

verus! {

/// A snowflake id.
#[derive(Debug, Clone, Copy, PartialEq, Eq, Structural)]
pub struct Id(pub u64);

impl Id {
    /// The unix-epoch timestamp, in milliseconds, at which this id was
    /// minted.
    pub fn get_timestamp(self) -> (r: u64)
        ensures
            r == (self.0 >> 22) + crate::json::id::SNOWFLAKE_EPOCH_MS,
    {
        proof {
            let n = self.0;
            assert(n >> 22 <= 0x3ff_ffff_ffff) by (bit_vector);
        }
        (self.0 >> 22) + crate::json::id::SNOWFLAKE_EPOCH_MS
    }

    /// Reads an id from its decimal text.
    pub fn from_str(s: &str) -> (r: Option<Id>)
        ensures
            r == (match parsed_u64(s@) {
                Some(n) => Some(Id(n)),
                None => None::<Id>,
            }),
    {
        match parse_u64(s) {
            Some(n) => Some(Id(n)),
            None => None,
        }
    }

    /// The decimal text of this id, as it appears in request paths.
    pub fn to_text(self) -> (r: String)
        ensures
            r@ == dec_digits(self.0 as int),
    {
        u64_to_string(self.0)
    }
}

#[derive(Debug, Clone, Copy, PartialEq, Eq, Structural)]
pub struct ApplicationId(pub Id);

#[derive(Debug, Clone, Copy, PartialEq, Eq, Structural)]
pub struct GuildId(pub Id);

#[derive(Debug, Clone, Copy, PartialEq, Eq, Structural)]
pub struct RoleId(pub Id);

#[derive(Debug, Clone, Copy, PartialEq, Eq, Structural)]
pub struct UserId(pub Id);

#[derive(Debug, Clone, Copy, PartialEq, Eq, Structural)]
pub struct ChannelId(pub Id);

#[derive(Debug, Clone, Copy, PartialEq, Eq, Structural)]
pub struct MessageId(pub Id);

#[derive(Debug, Clone, Copy, PartialEq, Eq, Structural)]
pub struct EmojiId(pub Id);

#[derive(Debug, Clone, Copy, PartialEq, Eq, Structural)]
pub struct AttachmentId(pub Id);

#[derive(Debug, Clone, Copy, PartialEq, Eq, Structural)]
pub struct IntegrationId(pub Id);

#[derive(Debug, Clone, Copy, PartialEq, Eq, Structural)]
pub struct OverwriteId(pub Id);

} // verus!
