//! Guild, member, role and invite shapes of the HTTP API, the pure query
//! construction for bans and pruning, and the reading of a role record
//! out of a payload body.

use vstd::prelude::*;

use super::id::ApplicationId;
use super::id::ChannelId;
use super::id::GuildId;
use super::id::Id;
use super::id::IntegrationId;
use super::id::RoleId;
use super::id::UserId;
use crate::json::id::spec_id_field;
use crate::json::id::id_field;
use crate::json::value::spec_req_bool;
use crate::json::value::spec_req_str;
use crate::json::value::spec_req_uint;
use crate::json::value::req_bool;
use crate::json::value::req_str;
use crate::json::value::req_uint;
use crate::json::value::JsonValue;
use crate::text::bool_to_string;
use crate::text::dec_digits;
use crate::text::u64_to_string;

verus! {

#[derive(Debug, PartialEq, Eq)]
pub struct Guild {
    pub id: GuildId,
    pub unavailable: Option<bool>,
    pub name: Option<String>,
    pub discriminator: Option<String>,
    pub region: Option<String>,
    pub afk_timeout: Option<u64>,
    pub mfa_level: Option<u8>,
    pub premium_tier: Option<u8>,
    pub verification_level: Option<u8>,
    pub explicit_content_filter: Option<u8>,
    pub default_message_notifications: Option<u8>,
    pub member_count: Option<u64>,
    pub owner_id: Option<UserId>,
    pub application_id: Option<String>,
    pub afk_channel_id: Option<ChannelId>,
    pub embed_channel_id: Option<ChannelId>,
    pub system_channel_id: Option<ChannelId>,
    pub widget_channel_id: Option<ChannelId>,
    pub joined: Option<String>,
    pub icon: Option<String>,
    pub splash: Option<String>,
    pub description: Option<String>,
    pub banner: Option<String>,
    pub vanity_url_code: Option<String>,
    pub preferred_locale: Option<String>,
    pub permissions: Option<u64>,
    pub premium_subscription_count: Option<u64>,
    pub max_presences: Option<u64>,
    pub max_members: Option<u64>,
    pub features: Vec<String>,
    pub owner: bool,
    pub embed_enabled: bool,
    pub widget_enabled: bool,
    pub large: bool,
    pub presences: Option<Vec<PresenceUpdate>>,
    pub channels: Option<Vec<super::channel::Channel>>,
    pub members: Option<Vec<GuildMember>>,
    pub voice_states: Option<Vec<VoiceState>>,
    pub emojis: Vec<super::channel::Emoji>,
    pub roles: Vec<Role>,
}

#[derive(Debug, Clone, PartialEq, Eq)]
pub struct GuildMember {
    pub user: super::user::User,
    pub nick: Option<String>,
    pub roles: Vec<RoleId>,
    pub joined_at: String,
    pub premium_since: Option<String>,
    pub deaf: bool,
    pub mute: bool,
}

#[derive(Debug, Clone, PartialEq, Eq)]
pub struct Role {
    pub id: RoleId,
    pub name: String,
    pub color: u64,
    pub hoist: bool,
    pub position: u64,
    pub permissions: u64,
    pub managed: bool,
    pub mentionable: bool,
}

/// Whether a body carries every field of a role record.
pub open spec fn role_json_wf(v: JsonValue) -> bool {
    &&& spec_id_field(v, "id"@) is Some
    &&& spec_req_str(v, "name"@) is Some
    &&& spec_req_uint(v, "color"@, u64::MAX) is Some
    &&& spec_req_bool(v, "hoist"@) is Some
    &&& spec_req_uint(v, "position"@, u64::MAX) is Some
    &&& spec_req_uint(v, "permissions"@, u64::MAX) is Some
    &&& spec_req_bool(v, "managed"@) is Some
    &&& spec_req_bool(v, "mentionable"@) is Some
}

/// The role record a well-formed body denotes.
pub open spec fn spec_role_from_json(v: JsonValue) -> Role
    recommends
        role_json_wf(v),
{
    Role {
        id: RoleId(Id(spec_id_field(v, "id"@)->Some_0.0)),
        name: spec_req_str(v, "name"@)->Some_0,
        color: spec_req_uint(v, "color"@, u64::MAX)->Some_0,
        hoist: spec_req_bool(v, "hoist"@)->Some_0,
        position: spec_req_uint(v, "position"@, u64::MAX)->Some_0,
        permissions: spec_req_uint(v, "permissions"@, u64::MAX)->Some_0,
        managed: spec_req_bool(v, "managed"@)->Some_0,
        mentionable: spec_req_bool(v, "mentionable"@)->Some_0,
    }
}

impl Role {
    /// Reads a role record out of a payload body; every field is
    /// required, and the id may be a number or a decimal string.
    pub fn from_json(v: &JsonValue) -> (r: Result<Role, ()>)
        ensures
            r is Ok <==> role_json_wf(*v),
            r matches Ok(role) ==> role == spec_role_from_json(*v),
    {
        let id = match id_field(v, "id") {
            Ok(id) => RoleId(Id(id.0)),
            Err(_) => {
                return Err(());
            },
        };
        let name = match req_str(v, "name") {
            Ok(s) => s,
            Err(_) => {
                return Err(());
            },
        };
        let color = match req_uint(v, "color", u64::MAX) {
            Ok(n) => n,
            Err(_) => {
                return Err(());
            },
        };
        let hoist = match req_bool(v, "hoist") {
            Ok(b) => b,
            Err(_) => {
                return Err(());
            },
        };
        let position = match req_uint(v, "position", u64::MAX) {
            Ok(n) => n,
            Err(_) => {
                return Err(());
            },
        };
        let permissions = match req_uint(v, "permissions", u64::MAX) {
            Ok(n) => n,
            Err(_) => {
                return Err(());
            },
        };
        let managed = match req_bool(v, "managed") {
            Ok(b) => b,
            Err(_) => {
                return Err(());
            },
        };
        let mentionable = match req_bool(v, "mentionable") {
            Ok(b) => b,
            Err(_) => {
                return Err(());
            },
        };
        Ok(Role { id, name, color, hoist, position, permissions, managed, mentionable })
    }
}

#[derive(Debug, PartialEq, Eq)]
pub struct PresenceUpdate {
    pub user: JsonValue,
    pub roles: Vec<RoleId>,
    pub game: Option<Activity>,
    pub guild_id: GuildId,
    pub status: OnlineStatus,
    pub activities: Vec<Activity>,
}

#[derive(Debug, Clone, Copy, PartialEq, Eq, Structural)]
pub enum OnlineStatus {
    Online,
    Idle,
    Dnd,
    Offline,
}

#[derive(Debug, Clone, PartialEq, Eq)]
pub struct ClientStatus {
    pub desktop: Option<OnlineStatus>,
    pub mobile: Option<OnlineStatus>,
    pub web: Option<OnlineStatus>,
}

#[derive(Debug, PartialEq, Eq)]
pub struct Activity {
    pub name: String,
    pub kind: ActivityType,
    pub url: Option<String>,
    pub created_at: u64,
    pub timestamps: Option<Vec<ActivityTimestamp>>,
    pub application_id: Option<ApplicationId>,
    pub details: Option<String>,
    pub state: Option<String>,
    pub emoji: Option<super::channel::Emoji>,
    pub party: Option<JsonValue>,
    pub assets: Option<JsonValue>,
    pub secrets: Option<JsonValue>,
    pub instance: Option<bool>,
    pub flags: Option<u64>,
}

#[derive(Debug, Clone, Copy, PartialEq, Eq, Structural)]
pub enum ActivityType {
    Game,
    Streaming,
    Listening,
    Custom,
}

/// The wire value of an activity type.
pub open spec fn activity_type_value(t: ActivityType) -> u8 {
    match t {
        ActivityType::Game => 0,
        ActivityType::Streaming => 1,
        ActivityType::Listening => 2,
        ActivityType::Custom => 4,
    }
}

impl ActivityType {
    pub fn to_u8(self) -> (r: u8)
        ensures
            r == activity_type_value(self),
    {
        match self {
            ActivityType::Game => 0,
            ActivityType::Streaming => 1,
            ActivityType::Listening => 2,
            ActivityType::Custom => 4,
        }
    }
}

#[derive(Debug, Clone, PartialEq, Eq)]
pub struct ActivityTimestamp {
    pub start: Option<u64>,
    pub end: Option<u64>,
}

#[derive(Debug, Clone, PartialEq, Eq)]
pub struct VoiceState {
    pub guild_id: Option<GuildId>,
    pub channel_id: Option<ChannelId>,
    pub user_id: UserId,
    pub member: Option<GuildMember>,
    pub session_id: String,
    pub deaf: bool,
    pub mute: bool,
    pub self_deaf: bool,
    pub self_mute: bool,
    pub self_stream: Option<bool>,
    pub suppress: bool,
}

#[derive(Debug, PartialEq, Eq)]
pub struct Invite {
    pub code: String,
    pub guild: Option<Guild>,
    pub channel: Option<super::channel::Channel>,
    pub target_user: Option<super::user::User>,
    pub target_user_type: Option<u64>,
    pub approximate_presence_count: Option<u64>,
    pub approximate_member_count: Option<u64>,
}

#[derive(Debug, Clone, PartialEq, Eq)]
pub struct InviteMetadata {
    pub inviter: super::user::User,
    pub uses: u64,
    pub max_uses: u64,
    pub max_age: u64,
    pub temporary: bool,
    pub created_at: String,
}

#[derive(Debug, Clone, PartialEq, Eq)]
pub struct VoiceRegion {
    pub id: String,
    pub name: String,
    pub vip: bool,
    pub optimal: bool,
    pub deprecated: bool,
    pub custom: bool,
}

#[derive(Debug, Clone, PartialEq, Eq)]
pub struct Ban {
    pub reason: Option<String>,
    pub user: UserId,
}

#[derive(Debug, Clone, PartialEq, Eq)]
pub struct CreateGuild {
    pub name: String,
    pub region: String,
    pub icon: String,
    pub verification_level: u64,
    pub default_message_notifications: u64,
    pub explicit_content_filter: u64,
    pub roles: Vec<Role>,
    pub channels: Vec<super::channel::Channel>,
}

#[derive(Debug, Clone, PartialEq, Eq)]
pub struct ModifyGuild {
    pub name: Option<String>,
    pub region: Option<String>,
    pub verification_level: Option<u64>,
    pub default_message_notifications: Option<u64>,
    pub explicit_content_filter: Option<u64>,
    pub afk_channel_id: Option<ChannelId>,
    pub afk_timeout: Option<u64>,
    pub owner_id: Option<UserId>,
    pub system_channel_id: Option<ChannelId>,
    pub splash: Option<String>,
    pub banner: Option<String>,
    pub icon: Option<String>,
}

#[derive(Debug, Clone, PartialEq, Eq)]
pub struct CreateChannel {
    pub name: String,
    pub kind: Option<super::channel::ChannelType>,
    pub topic: Option<String>,
    pub bitrate: Option<u64>,
    pub user_limit: Option<u64>,
    pub rate_limit_per_user: Option<u64>,
    pub position: Option<u64>,
    pub permission_overwrites: Option<Vec<super::channel::PermissionOverwrite>>,
    pub parent_id: Option<ChannelId>,
    pub nsfw: Option<bool>,
}

#[derive(Debug, Clone, Copy, PartialEq, Eq, Structural)]
pub struct ChannelPosition {
    pub id: ChannelId,
    pub position: u64,
}

#[derive(Debug, Clone, PartialEq, Eq)]
pub struct GuildInvite {
    pub access_token: String,
    pub nick: Option<String>,
    pub roles: Option<Vec<RoleId>>,
    pub mute: Option<bool>,
    pub deaf: Option<bool>,
}

#[derive(Debug, Clone, PartialEq, Eq)]
pub struct ModifyMember {
    pub nick: Option<String>,
    pub roles: Option<Vec<RoleId>>,
    pub mute: Option<bool>,
    pub deaf: Option<bool>,
    /// Disconnects the member from voice when it is `Null`.
    pub channel_id: Optional<ChannelId>,
}

/// A field that can be left out of a request, sent as `null`, or sent
/// with a value.
#[derive(Debug, Clone, PartialEq, Eq)]
pub enum Optional<T> {
    Hide,
    Null,
    Value(T),
}

#[derive(Debug, Clone, PartialEq, Eq)]
pub struct CreateBan {
    pub delete_message_days: Option<u64>,
    pub reason: Option<String>,
}

impl CreateBan {
    /// The query parameters a ban creation sends: how many days of
    /// messages to delete, and the audit reason, each only when given.
    pub fn query_params(self) -> (r: Vec<(String, String)>)
        ensures
            r@.len() == (if self.delete_message_days is Some {
                1int
            } else {
                0int
            }) + (if self.reason is Some {
                1int
            } else {
                0int
            }),
            self.delete_message_days matches Some(d) ==> r@[0].0@ == "delete-message-days"@
                && r@[0].1@ == dec_digits(d as int),
            self.reason matches Some(why) ==> (self.delete_message_days is Some ==> r@[1].0@
                == "reason"@ && r@[1].1 == why),
            self.reason matches Some(why) ==> (self.delete_message_days is None ==> r@[0].0@
                == "reason"@ && r@[0].1 == why),
    {
        let mut r: Vec<(String, String)> = Vec::new();
        match self.delete_message_days {
            Some(d) => {
                r.push(("delete-message-days".to_owned(), u64_to_string(d)));
            },
            None => {},
        }
        match self.reason {
            Some(why) => {
                r.push(("reason".to_owned(), why));
            },
            None => {},
        }
        r
    }
}

#[derive(Debug, Clone, PartialEq, Eq)]
pub struct CreateRole {
    pub name: String,
    pub permissions: u64,
    pub color: u64,
    pub hoist: bool,
    pub mentionable: bool,
}

#[derive(Debug, Clone, Copy, PartialEq, Eq, Structural)]
pub struct RolePosition {
    pub id: RoleId,
    pub position: u64,
}

#[derive(Debug, Clone, PartialEq, Eq)]
pub struct ModifyRole {
    pub name: Option<String>,
    pub permissions: Option<u64>,
    pub color: Option<u64>,
    pub hoist: Option<bool>,
    pub mentionable: Option<bool>,
}

#[derive(Debug, Clone, Copy, PartialEq, Eq, Structural)]
pub struct Pruned {
    pub pruned: Option<u64>,
}

/// The query parameters of a prune count or a prune run: the day window,
/// and for a run, whether to compute the count.
pub fn prune_query_params(days: Option<u64>, compute_prune_count: Option<bool>) -> (r: Vec<
    (String, String),
>)
    ensures
        r@.len() == (if days is Some {
            1int
        } else {
            0int
        }) + (if compute_prune_count is Some {
            1int
        } else {
            0int
        }),
        days matches Some(d) ==> r@[0].0@ == "day"@ && r@[0].1@ == dec_digits(d as int),
        compute_prune_count matches Some(c) ==> (days is Some ==> r@[1].0@
            == "compute_prune_count"@ && r@[1].1@ == (if c {
            "true"@
        } else {
            "false"@
        })),
        compute_prune_count matches Some(c) ==> (days is None ==> r@[0].0@
            == "compute_prune_count"@ && r@[0].1@ == (if c {
            "true"@
        } else {
            "false"@
        })),
{
    let mut r: Vec<(String, String)> = Vec::new();
    match days {
        Some(d) => {
            r.push(("day".to_owned(), u64_to_string(d)));
        },
        None => {},
    }
    match compute_prune_count {
        Some(c) => {
            r.push(("compute_prune_count".to_owned(), bool_to_string(c)));
        },
        None => {},
    }
    r
}

#[derive(Debug, Clone, Copy, PartialEq, Eq, Structural)]
pub struct GuildEmbed {
    pub enabled: bool,
    pub channel_id: Option<ChannelId>,
}

#[derive(Debug, Clone, Copy, PartialEq, Eq, Structural)]
pub struct ModifyGuildEmbed {
    pub enabled: Option<bool>,
    pub channel_id: Option<ChannelId>,
}

#[derive(Debug, Clone, PartialEq, Eq)]
pub struct CreateGuildIntegration {
    pub id: IntegrationId,
    pub kind: String,
}

#[derive(Debug, Clone, Copy, PartialEq, Eq, Structural)]
pub struct ModifyGuildIntegration {
    pub expire_behavior: u64,
    pub expire_grace_period: u64,
    pub enable_emoticons: bool,
}

} // verus!
