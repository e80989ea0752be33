//! The guild record kept per connection: populated from the READY body's
//! guild list and upserted by GUILD_CREATE events.

use vstd::prelude::*;

use crate::json::value::spec_bool_or_false;
use crate::json::value::spec_opt_str;
use crate::json::value::spec_opt_uint;
use crate::json::value::spec_req_bool;
use crate::json::value::spec_req_str;
use crate::json::value::spec_str_list;
use crate::json::value::bool_or_false;
use crate::json::value::opt_str;
use crate::json::value::opt_uint;
use crate::json::value::req_bool;
use crate::json::value::req_str;
use crate::json::value::str_list_or_empty;
use crate::json::value::JsonValue;

verus! {

/// A guild, to the extent the gateway reports one. Only the identity and
/// availability are always present; the rest arrives with a full
/// GUILD_CREATE body.
#[derive(Debug, PartialEq, Eq)]
pub struct Guild {
    pub id: String,
    pub unavailable: bool,
    pub name: Option<String>,
    pub discriminator: Option<String>,
    pub region: Option<String>,
    pub afk_timeout: Option<u64>,
    pub mfa_level: Option<u8>,
    pub premium_tier: Option<u8>,
    pub verification_level: Option<u8>,
    pub explicit_content_filter: Option<u8>,
    pub default_message_notifications: Option<u8>,
    pub member_count: Option<u64>,
    pub owner_id: Option<String>,
    pub application_id: Option<String>,
    pub afk_channel_id: Option<String>,
    pub embed_channel_id: Option<String>,
    pub system_channel_id: Option<String>,
    pub widget_channel_id: Option<String>,
    pub joined: Option<String>,
    pub icon: Option<String>,
    pub splash: Option<String>,
    pub description: Option<String>,
    pub banner: Option<String>,
    pub vanity_url_code: Option<String>,
    pub preferred_locale: Option<String>,
    pub permissions: Option<u64>,
    pub premium_subscription_count: Option<u64>,
    pub max_presences: Option<u64>,
    pub max_members: Option<u64>,
    pub features: Vec<String>,
    pub owner: bool,
    pub embed_enabled: bool,
    pub widget_enabled: bool,
    pub large: bool,
}

/// The optional `u8` member a guild body carries under `key`.
pub open spec fn guild_u8_field(v: JsonValue, key: Seq<char>) -> Option<u8>
    recommends
        spec_opt_uint(v, key, 0xff) is Some,
{
    match spec_opt_uint(v, key, 0xff)->Some_0 {
        None => None,
        Some(n) => Some(n as u8),
    }
}

/// Whether a guild body has every member a guild record requires, each of
/// the right shape.
pub open spec fn guild_json_wf(v: JsonValue) -> bool {
    &&& spec_req_str(v, "id"@) is Some
    &&& spec_req_bool(v, "unavailable"@) is Some
    &&& spec_opt_str(v, "name"@) is Some
    &&& spec_opt_str(v, "discriminator"@) is Some
    &&& spec_opt_str(v, "region"@) is Some
    &&& spec_opt_uint(v, "afk_timeout"@, u64::MAX) is Some
    &&& spec_opt_uint(v, "mfa_level"@, 0xff) is Some
    &&& spec_opt_uint(v, "premium_tier"@, 0xff) is Some
    &&& spec_opt_uint(v, "verification_level"@, 0xff) is Some
    &&& spec_opt_uint(v, "explicit_content_filter"@, 0xff) is Some
    &&& spec_opt_uint(v, "default_message_notifications"@, 0xff) is Some
    &&& spec_opt_uint(v, "member_count"@, u64::MAX) is Some
    &&& spec_opt_str(v, "owner_id"@) is Some
    &&& spec_opt_str(v, "application_id"@) is Some
    &&& spec_opt_str(v, "afk_channel_id"@) is Some
    &&& spec_opt_str(v, "embed_channel_id"@) is Some
    &&& spec_opt_str(v, "system_channel_id"@) is Some
    &&& spec_opt_str(v, "widget_channel_id"@) is Some
    &&& spec_opt_str(v, "joined"@) is Some
    &&& spec_opt_str(v, "icon"@) is Some
    &&& spec_opt_str(v, "splash"@) is Some
    &&& spec_opt_str(v, "description"@) is Some
    &&& spec_opt_str(v, "banner"@) is Some
    &&& spec_opt_str(v, "vanity_url_code"@) is Some
    &&& spec_opt_str(v, "preferred_locale"@) is Some
    &&& spec_opt_uint(v, "permissions"@, u64::MAX) is Some
    &&& spec_opt_uint(v, "premium_subscription_count"@, u64::MAX) is Some
    &&& spec_opt_uint(v, "max_presences"@, u64::MAX) is Some
    &&& spec_opt_uint(v, "max_members"@, u64::MAX) is Some
    &&& spec_str_list(v, "features"@) is Some
    &&& spec_bool_or_false(v, "owner"@) is Some
    &&& spec_bool_or_false(v, "embed_enabled"@) is Some
    &&& spec_bool_or_false(v, "widget_enabled"@) is Some
    &&& spec_bool_or_false(v, "large"@) is Some
}

/// The guild record a well-formed body denotes. The features list of the
/// denoted record carries the same strings in the same order.
pub open spec fn guild_from_json_matches(v: JsonValue, g: Guild) -> bool {
    &&& Some(g.id) == spec_req_str(v, "id"@)
    &&& Some(g.unavailable) == spec_req_bool(v, "unavailable"@)
    &&& Some(g.name) == spec_opt_str(v, "name"@)
    &&& Some(g.discriminator) == spec_opt_str(v, "discriminator"@)
    &&& Some(g.region) == spec_opt_str(v, "region"@)
    &&& Some(g.afk_timeout) == spec_opt_uint(v, "afk_timeout"@, u64::MAX)
    &&& g.mfa_level == guild_u8_field(v, "mfa_level"@)
    &&& g.premium_tier == guild_u8_field(v, "premium_tier"@)
    &&& g.verification_level == guild_u8_field(v, "verification_level"@)
    &&& g.explicit_content_filter == guild_u8_field(v, "explicit_content_filter"@)
    &&& g.default_message_notifications == guild_u8_field(v, "default_message_notifications"@)
    &&& Some(g.member_count) == spec_opt_uint(v, "member_count"@, u64::MAX)
    &&& Some(g.owner_id) == spec_opt_str(v, "owner_id"@)
    &&& Some(g.application_id) == spec_opt_str(v, "application_id"@)
    &&& Some(g.afk_channel_id) == spec_opt_str(v, "afk_channel_id"@)
    &&& Some(g.embed_channel_id) == spec_opt_str(v, "embed_channel_id"@)
    &&& Some(g.system_channel_id) == spec_opt_str(v, "system_channel_id"@)
    &&& Some(g.widget_channel_id) == spec_opt_str(v, "widget_channel_id"@)
    &&& Some(g.joined) == spec_opt_str(v, "joined"@)
    &&& Some(g.icon) == spec_opt_str(v, "icon"@)
    &&& Some(g.splash) == spec_opt_str(v, "splash"@)
    &&& Some(g.description) == spec_opt_str(v, "description"@)
    &&& Some(g.banner) == spec_opt_str(v, "banner"@)
    &&& Some(g.vanity_url_code) == spec_opt_str(v, "vanity_url_code"@)
    &&& Some(g.preferred_locale) == spec_opt_str(v, "preferred_locale"@)
    &&& Some(g.permissions) == spec_opt_uint(v, "permissions"@, u64::MAX)
    &&& Some(g.premium_subscription_count) == spec_opt_uint(
        v,
        "premium_subscription_count"@,
        u64::MAX,
    )
    &&& Some(g.max_presences) == spec_opt_uint(v, "max_presences"@, u64::MAX)
    &&& Some(g.max_members) == spec_opt_uint(v, "max_members"@, u64::MAX)
    &&& Some(g.features@) == spec_str_list(v, "features"@)
    &&& Some(g.owner) == spec_bool_or_false(v, "owner"@)
    &&& Some(g.embed_enabled) == spec_bool_or_false(v, "embed_enabled"@)
    &&& Some(g.widget_enabled) == spec_bool_or_false(v, "widget_enabled"@)
    &&& Some(g.large) == spec_bool_or_false(v, "large"@)
}

impl Guild {
    /// Reads a guild record out of a payload body, refusing any body that
    /// lacks the identity or availability members or carries a field of
    /// the wrong shape.
    pub fn from_json(v: &JsonValue) -> (r: Result<Guild, ()>)
        ensures
            r is Ok <==> guild_json_wf(*v),
            r matches Ok(g) ==> guild_from_json_matches(*v, g),
    {
        let id = match req_str(v, "id") {
            Ok(s) => s,
            Err(_) => {
                return Err(());
            },
        };
        let unavailable = match req_bool(v, "unavailable") {
            Ok(b) => b,
            Err(_) => {
                return Err(());
            },
        };
        let name = match opt_str(v, "name") {
            Ok(o) => o,
            Err(_) => {
                return Err(());
            },
        };
        let discriminator = match opt_str(v, "discriminator") {
            Ok(o) => o,
            Err(_) => {
                return Err(());
            },
        };
        let region = match opt_str(v, "region") {
            Ok(o) => o,
            Err(_) => {
                return Err(());
            },
        };
        let afk_timeout = match opt_uint(v, "afk_timeout", u64::MAX) {
            Ok(o) => o,
            Err(_) => {
                return Err(());
            },
        };
        let mfa_level = match opt_uint(v, "mfa_level", 0xff) {
            Ok(None) => None,
            Ok(Some(n)) => Some(n as u8),
            Err(_) => {
                return Err(());
            },
        };
        let premium_tier = match opt_uint(v, "premium_tier", 0xff) {
            Ok(None) => None,
            Ok(Some(n)) => Some(n as u8),
            Err(_) => {
                return Err(());
            },
        };
        let verification_level = match opt_uint(v, "verification_level", 0xff) {
            Ok(None) => None,
            Ok(Some(n)) => Some(n as u8),
            Err(_) => {
                return Err(());
            },
        };
        let explicit_content_filter = match opt_uint(v, "explicit_content_filter", 0xff) {
            Ok(None) => None,
            Ok(Some(n)) => Some(n as u8),
            Err(_) => {
                return Err(());
            },
        };
        let default_message_notifications = match opt_uint(
            v,
            "default_message_notifications",
            0xff,
        ) {
            Ok(None) => None,
            Ok(Some(n)) => Some(n as u8),
            Err(_) => {
                return Err(());
            },
        };
        let member_count = match opt_uint(v, "member_count", u64::MAX) {
            Ok(o) => o,
            Err(_) => {
                return Err(());
            },
        };
        let owner_id = match opt_str(v, "owner_id") {
            Ok(o) => o,
            Err(_) => {
                return Err(());
            },
        };
        let application_id = match opt_str(v, "application_id") {
            Ok(o) => o,
            Err(_) => {
                return Err(());
            },
        };
        let afk_channel_id = match opt_str(v, "afk_channel_id") {
            Ok(o) => o,
            Err(_) => {
                return Err(());
            },
        };
        let embed_channel_id = match opt_str(v, "embed_channel_id") {
            Ok(o) => o,
            Err(_) => {
                return Err(());
            },
        };
        let system_channel_id = match opt_str(v, "system_channel_id") {
            Ok(o) => o,
            Err(_) => {
                return Err(());
            },
        };
        let widget_channel_id = match opt_str(v, "widget_channel_id") {
            Ok(o) => o,
            Err(_) => {
                return Err(());
            },
        };
        let joined = match opt_str(v, "joined") {
            Ok(o) => o,
            Err(_) => {
                return Err(());
            },
        };
        let icon = match opt_str(v, "icon") {
            Ok(o) => o,
            Err(_) => {
                return Err(());
            },
        };
        let splash = match opt_str(v, "splash") {
            Ok(o) => o,
            Err(_) => {
                return Err(());
            },
        };
        let description = match opt_str(v, "description") {
            Ok(o) => o,
            Err(_) => {
                return Err(());
            },
        };
        let banner = match opt_str(v, "banner") {
            Ok(o) => o,
            Err(_) => {
                return Err(());
            },
        };
        let vanity_url_code = match opt_str(v, "vanity_url_code") {
            Ok(o) => o,
            Err(_) => {
                return Err(());
            },
        };
        let preferred_locale = match opt_str(v, "preferred_locale") {
            Ok(o) => o,
            Err(_) => {
                return Err(());
            },
        };
        let permissions = match opt_uint(v, "permissions", u64::MAX) {
            Ok(o) => o,
            Err(_) => {
                return Err(());
            },
        };
        let premium_subscription_count = match opt_uint(
            v,
            "premium_subscription_count",
            u64::MAX,
        ) {
            Ok(o) => o,
            Err(_) => {
                return Err(());
            },
        };
        let max_presences = match opt_uint(v, "max_presences", u64::MAX) {
            Ok(o) => o,
            Err(_) => {
                return Err(());
            },
        };
        let max_members = match opt_uint(v, "max_members", u64::MAX) {
            Ok(o) => o,
            Err(_) => {
                return Err(());
            },
        };
        let features = match str_list_or_empty(v, "features") {
            Ok(ts) => ts,
            Err(_) => {
                return Err(());
            },
        };
        let owner = match bool_or_false(v, "owner") {
            Ok(b) => b,
            Err(_) => {
                return Err(());
            },
        };
        let embed_enabled = match bool_or_false(v, "embed_enabled") {
            Ok(b) => b,
            Err(_) => {
                return Err(());
            },
        };
        let widget_enabled = match bool_or_false(v, "widget_enabled") {
            Ok(b) => b,
            Err(_) => {
                return Err(());
            },
        };
        let large = match bool_or_false(v, "large") {
            Ok(b) => b,
            Err(_) => {
                return Err(());
            },
        };
        Ok(
            Guild {
                id,
                unavailable,
                name,
                discriminator,
                region,
                afk_timeout,
                mfa_level,
                premium_tier,
                verification_level,
                explicit_content_filter,
                default_message_notifications,
                member_count,
                owner_id,
                application_id,
                afk_channel_id,
                embed_channel_id,
                system_channel_id,
                widget_channel_id,
                joined,
                icon,
                splash,
                description,
                banner,
                vanity_url_code,
                preferred_locale,
                permissions,
                premium_subscription_count,
                max_presences,
                max_members,
                features,
                owner,
                embed_enabled,
                widget_enabled,
                large,
            },
        )
    }
}

} // verus!
