//! User, connection and integration shapes of the HTTP API, and the pure
//! parameter construction for the profile update.

use vstd::prelude::*;

use super::id::Id;
use super::id::IntegrationId;
use super::id::UserId;

verus! {

#[derive(Debug, Clone, PartialEq, Eq)]
pub struct User {
    pub id: UserId,
    pub username: String,
    pub discriminator: String,
    pub avatar: Option<String>,
    pub locale: Option<String>,
    pub email: Option<String>,
    pub flags: Option<u16>,
    pub premium_type: Option<u8>,
    pub bot: bool,
    pub system: bool,
    pub mfa_enabled: bool,
    pub verified: bool,
}

#[derive(Debug, Clone, PartialEq, Eq)]
pub struct Connection {
    pub id: String,
    pub name: String,
    pub kind: String,
    pub revoked: bool,
    pub integrations: Vec<Integration>,
    pub verified: bool,
    pub friend_sync: bool,
    pub show_activity: bool,
    pub visibility: u64,
}

#[derive(Debug, Clone, PartialEq, Eq)]
pub struct Integration {
    pub id: IntegrationId,
    pub name: String,
    pub kind: String,
    pub enabled: bool,
    pub syncing: bool,
    pub role_id: Id,
    pub expire_behavior: u64,
    pub expire_grace_period: u64,
    pub user: User,
    pub account: IntegrationAccount,
    pub synced_at: String,
}

#[derive(Debug, Clone, PartialEq, Eq)]
pub struct IntegrationAccount {
    pub id: String,
    pub name: String,
}

#[derive(Debug, Clone, PartialEq, Eq)]
pub struct CreateGroupDM {
    pub access_tokens: String,
    pub name: String,
}

/// The body fields a profile update sends: the new name and the new
/// avatar, each only when given.
pub fn modify_user_params(new_name: Option<String>, new_avatar: Option<String>) -> (r: Vec<
    (String, String),
>)
    ensures
        r@.len() == (if new_name is Some {
            1int
        } else {
            0int
        }) + (if new_avatar is Some {
            1int
        } else {
            0int
        }),
        new_name matches Some(n) ==> r@[0].0@ == "username"@ && r@[0].1 == n,
        new_avatar matches Some(a) ==> (new_name is Some ==> r@[1].0@ == "avatar"@ && r@[1].1 == a),
        new_avatar matches Some(a) ==> (new_name is None ==> r@[0].0@ == "avatar"@ && r@[0].1 == a),
{
    let mut r: Vec<(String, String)> = Vec::new();
    match new_name {
        Some(n) => {
            r.push(("username".to_owned(), n));
        },
        None => {},
    }
    match new_avatar {
        Some(a) => {
            r.push(("avatar".to_owned(), a));
        },
        None => {},
    }
    r
}

} // verus!
