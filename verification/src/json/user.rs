//! The authenticated user record carried by the READY event body.

use vstd::prelude::*;

use crate::json::id::spec_id_field;
use crate::json::id::id_field;
use crate::json::id::Id;
use crate::json::value::spec_bool_or_false;
use crate::json::value::spec_opt_str;
use crate::json::value::spec_opt_uint;
use crate::json::value::spec_req_str;
use crate::json::value::bool_or_false;
use crate::json::value::opt_str;
use crate::json::value::opt_uint;
use crate::json::value::req_str;
use crate::json::value::JsonValue;
use crate::text::clone_opt_string;

verus! {

/// The id of a user.
#[derive(Debug, Clone, Copy, PartialEq, Eq, Structural)]
pub struct UserId(pub Id);

/// A user, as the gateway reports the authenticated account.
#[derive(Debug, PartialEq, Eq)]
pub struct User {
    pub id: UserId,
    pub username: String,
    pub discriminator: String,
    pub avatar: Option<String>,
    pub locale: Option<String>,
    pub email: Option<String>,
    pub flags: Option<u16>,
    pub premium_type: Option<u8>,
    pub bot: bool,
    pub system: bool,
    pub mfa_enabled: bool,
    pub verified: bool,
}

impl Clone for User {
    /// An exact copy.
    fn clone(&self) -> (r: Self)
        ensures
            r == *self,
    {
        User {
            id: self.id,
            username: self.username.clone(),
            discriminator: self.discriminator.clone(),
            avatar: clone_opt_string(&self.avatar),
            locale: clone_opt_string(&self.locale),
            email: clone_opt_string(&self.email),
            flags: self.flags,
            premium_type: self.premium_type,
            bot: self.bot,
            system: self.system,
            mfa_enabled: self.mfa_enabled,
            verified: self.verified,
        }
    }
}

/// Whether a READY body's user member has every field a user record
/// requires, each of the right shape.
pub open spec fn user_json_wf(v: JsonValue) -> bool {
    &&& spec_id_field(v, "id"@) is Some
    &&& spec_req_str(v, "username"@) is Some
    &&& spec_req_str(v, "discriminator"@) is Some
    &&& spec_opt_str(v, "avatar"@) is Some
    &&& spec_opt_str(v, "locale"@) is Some
    &&& spec_opt_str(v, "email"@) is Some
    &&& spec_opt_uint(v, "flags"@, 0xffff) is Some
    &&& spec_opt_uint(v, "premium_type"@, 0xff) is Some
    &&& spec_bool_or_false(v, "bot"@) is Some
    &&& spec_bool_or_false(v, "system"@) is Some
    &&& spec_bool_or_false(v, "mfa_enabled"@) is Some
    &&& spec_bool_or_false(v, "verified"@) is Some
}

/// The user record a well-formed body denotes.
pub open spec fn spec_user_from_json(v: JsonValue) -> User
    recommends
        user_json_wf(v),
{
    User {
        id: UserId(spec_id_field(v, "id"@)->Some_0),
        username: spec_req_str(v, "username"@)->Some_0,
        discriminator: spec_req_str(v, "discriminator"@)->Some_0,
        avatar: spec_opt_str(v, "avatar"@)->Some_0,
        locale: spec_opt_str(v, "locale"@)->Some_0,
        email: spec_opt_str(v, "email"@)->Some_0,
        flags: match spec_opt_uint(v, "flags"@, 0xffff)->Some_0 {
            None => None,
            Some(n) => Some(n as u16),
        },
        premium_type: match spec_opt_uint(v, "premium_type"@, 0xff)->Some_0 {
            None => None,
            Some(n) => Some(n as u8),
        },
        bot: spec_bool_or_false(v, "bot"@)->Some_0,
        system: spec_bool_or_false(v, "system"@)->Some_0,
        mfa_enabled: spec_bool_or_false(v, "mfa_enabled"@)->Some_0,
        verified: spec_bool_or_false(v, "verified"@)->Some_0,
    }
}

impl User {
    /// Reads a user record out of a payload body, refusing any body that
    /// lacks a required field or carries one of the wrong shape.
    pub fn from_json(v: &JsonValue) -> (r: Result<User, ()>)
        ensures
            r is Ok <==> user_json_wf(*v),
            r matches Ok(u) ==> u == spec_user_from_json(*v),
    {
        let id = match id_field(v, "id") {
            Ok(id) => UserId(id),
            Err(_) => {
                return Err(());
            },
        };
        let username = match req_str(v, "username") {
            Ok(s) => s,
            Err(_) => {
                return Err(());
            },
        };
        let discriminator = match req_str(v, "discriminator") {
            Ok(s) => s,
            Err(_) => {
                return Err(());
            },
        };
        let avatar = match opt_str(v, "avatar") {
            Ok(o) => o,
            Err(_) => {
                return Err(());
            },
        };
        let locale = match opt_str(v, "locale") {
            Ok(o) => o,
            Err(_) => {
                return Err(());
            },
        };
        let email = match opt_str(v, "email") {
            Ok(o) => o,
            Err(_) => {
                return Err(());
            },
        };
        let flags = match opt_uint(v, "flags", 0xffff) {
            Ok(None) => None,
            Ok(Some(n)) => Some(n as u16),
            Err(_) => {
                return Err(());
            },
        };
        let premium_type = match opt_uint(v, "premium_type", 0xff) {
            Ok(None) => None,
            Ok(Some(n)) => Some(n as u8),
            Err(_) => {
                return Err(());
            },
        };
        let bot = match bool_or_false(v, "bot") {
            Ok(b) => b,
            Err(_) => {
                return Err(());
            },
        };
        let system = match bool_or_false(v, "system") {
            Ok(b) => b,
            Err(_) => {
                return Err(());
            },
        };
        let mfa_enabled = match bool_or_false(v, "mfa_enabled") {
            Ok(b) => b,
            Err(_) => {
                return Err(());
            },
        };
        let verified = match bool_or_false(v, "verified") {
            Ok(b) => b,
            Err(_) => {
                return Err(());
            },
        };
        Ok(
            User {
                id,
                username,
                discriminator,
                avatar,
                locale,
                email,
                flags,
                premium_type,
                bot,
                system,
                mfa_enabled,
                verified,
            },
        )
    }
}

} // verus!
