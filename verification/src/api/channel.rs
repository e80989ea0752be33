//! Channel, message and emoji shapes of the HTTP API, and the pure query
//! construction for the message and reaction listings. The HTTP transport
//! lives with the embedding code.

use vstd::prelude::*;

use super::id::AttachmentId;
use super::id::ApplicationId;
use super::id::ChannelId;
use super::id::EmojiId;
use super::id::GuildId;
use super::id::Id;
use super::id::MessageId;
use super::id::RoleId;
use super::id::UserId;
use super::user::User;
use crate::text::dec_digits;

verus! {

#[derive(Debug, Clone, PartialEq, Eq)]
pub struct Channel {
    pub id: ChannelId,
    pub kind: ChannelType,
    pub guild_id: Option<GuildId>,
    pub position: Option<u64>,
    pub permission_overwrites: Vec<PermissionOverwrite>,
    pub name: Option<String>,
    pub topic: Option<String>,
    pub nsfw: Option<bool>,
    pub last_message_id: Option<MessageId>,
    pub bitrate: Option<u64>,
    pub user_limit: Option<u64>,
    pub rate_limit_per_user: Option<u64>,
    pub recipients: Option<Vec<User>>,
    pub icon: Option<String>,
    pub owner_id: Option<UserId>,
    pub application_id: Option<ApplicationId>,
    pub parent_id: Option<ChannelId>,
    pub last_pin_timestamp: Option<String>,
}

/// A permission overwrite for either a role or a user.
#[derive(Debug, Clone, PartialEq, Eq)]
pub struct PermissionOverwrite {
    /// Either a role or a user id.
    pub id: Id,
    /// "role" or "user".
    pub kind: String,
    pub allow: u64,
    pub deny: u64,
}

#[derive(Debug, Clone, Copy, PartialEq, Eq, Structural)]
pub enum ChannelType {
    GuildText,
    DirectMessage,
    GuildVoice,
    GroupDM,
    GuildCategory,
    GuildNews,
    GuildStore,
}

/// The wire value of a channel type.
pub open spec fn channel_type_value(t: ChannelType) -> u8 {
    match t {
        ChannelType::GuildText => 0,
        ChannelType::DirectMessage => 1,
        ChannelType::GuildVoice => 2,
        ChannelType::GroupDM => 3,
        ChannelType::GuildCategory => 4,
        ChannelType::GuildNews => 5,
        ChannelType::GuildStore => 6,
    }
}

impl ChannelType {
    pub fn to_u8(self) -> (r: u8)
        ensures
            r == channel_type_value(self),
    {
        match self {
            ChannelType::GuildText => 0,
            ChannelType::DirectMessage => 1,
            ChannelType::GuildVoice => 2,
            ChannelType::GroupDM => 3,
            ChannelType::GuildCategory => 4,
            ChannelType::GuildNews => 5,
            ChannelType::GuildStore => 6,
        }
    }
}

#[derive(Debug, Clone, PartialEq, Eq)]
pub struct Message {
    pub id: MessageId,
    pub channel_id: ChannelId,
    pub guild_id: Option<GuildId>,
    pub kind: MessageType,
    pub author: Option<User>,
    pub member: Option<super::guild::GuildMember>,
    pub content: String,
    pub timestamp: String,
    pub edited_timestamp: Option<String>,
    pub tts: bool,
    pub pinned: bool,
    pub mentions_everyone: bool,
    pub mentions: Vec<User>,
    pub mention_roles: Vec<RoleId>,
    pub mention_channels: Vec<ChannelMention>,
    pub attachments: Vec<Attachment>,
    pub embeds: Vec<Embed>,
    pub reactions: Option<Vec<Reaction>>,
    pub application: Option<ApplicationId>,
    pub webhook_id: Option<Id>,
    pub activity: Option<MessageActivity>,
    pub message_reference: Option<MessageReference>,
    pub nonce: Option<String>,
    pub flags: Option<u8>,
}

#[derive(Debug, Clone, Copy, PartialEq, Eq, Structural)]
pub enum MessageType {
    Default,
    RecipientAdd,
    RecipientRemove,
    Call,
    ChannelNameChange,
    ChannelIconChange,
    ChannelPinnedMessage,
    GuildMemberJoin,
    PremiumGuildSubscription,
    PremiumGuildSubscriptionTier1,
    PremiumGuildSubscriptionTier2,
    PremiumGuildSubscriptionTier3,
    ChannelFollowAdd,
}

/// The wire value of a message type.
pub open spec fn message_type_value(t: MessageType) -> u8 {
    match t {
        MessageType::Default => 0,
        MessageType::RecipientAdd => 1,
        MessageType::RecipientRemove => 2,
        MessageType::Call => 3,
        MessageType::ChannelNameChange => 4,
        MessageType::ChannelIconChange => 5,
        MessageType::ChannelPinnedMessage => 6,
        MessageType::GuildMemberJoin => 7,
        MessageType::PremiumGuildSubscription => 8,
        MessageType::PremiumGuildSubscriptionTier1 => 9,
        MessageType::PremiumGuildSubscriptionTier2 => 10,
        MessageType::PremiumGuildSubscriptionTier3 => 11,
        MessageType::ChannelFollowAdd => 12,
    }
}

impl MessageType {
    pub fn to_u8(self) -> (r: u8)
        ensures
            r == message_type_value(self),
    {
        match self {
            MessageType::Default => 0,
            MessageType::RecipientAdd => 1,
            MessageType::RecipientRemove => 2,
            MessageType::Call => 3,
            MessageType::ChannelNameChange => 4,
            MessageType::ChannelIconChange => 5,
            MessageType::ChannelPinnedMessage => 6,
            MessageType::GuildMemberJoin => 7,
            MessageType::PremiumGuildSubscription => 8,
            MessageType::PremiumGuildSubscriptionTier1 => 9,
            MessageType::PremiumGuildSubscriptionTier2 => 10,
            MessageType::PremiumGuildSubscriptionTier3 => 11,
            MessageType::ChannelFollowAdd => 12,
        }
    }
}

#[derive(Debug, Clone, PartialEq, Eq)]
pub struct ChannelMention {
    pub id: ChannelId,
    pub guild_id: GuildId,
    pub kind: ChannelType,
    pub name: String,
}

#[derive(Debug, Clone, PartialEq, Eq)]
pub struct MessageActivity {
    pub kind: MessageActivityType,
    pub party_id: Option<String>,
}

#[derive(Debug, Clone, Copy, PartialEq, Eq, Structural)]
pub enum MessageActivityType {
    Join,
    Spectate,
    Listen,
    JoinRequest,
}

/// The wire value of a message activity type.
pub open spec fn message_activity_type_value(t: MessageActivityType) -> u8 {
    match t {
        MessageActivityType::Join => 1,
        MessageActivityType::Spectate => 2,
        MessageActivityType::Listen => 3,
        MessageActivityType::JoinRequest => 5,
    }
}

impl MessageActivityType {
    pub fn to_u8(self) -> (r: u8)
        ensures
            r == message_activity_type_value(self),
    {
        match self {
            MessageActivityType::Join => 1,
            MessageActivityType::Spectate => 2,
            MessageActivityType::Listen => 3,
            MessageActivityType::JoinRequest => 5,
        }
    }
}

#[derive(Debug, Clone, PartialEq, Eq)]
pub struct MessageReference {
    pub message_id: Option<MessageId>,
    pub channel_id: Option<ChannelId>,
    pub guild_id: Option<GuildId>,
}

#[derive(Debug, Clone, PartialEq, Eq)]
pub struct Attachment {
    pub id: AttachmentId,
    pub filename: String,
    pub size: u64,
    pub url: String,
    pub proxy_url: String,
    pub height: Option<u64>,
    pub width: Option<u64>,
}

#[derive(Debug, Clone, PartialEq, Eq)]
pub struct Reaction {
    pub count: u64,
    pub current_user: bool,
    pub emoji: Emoji,
}

#[derive(Debug, Clone, PartialEq, Eq)]
pub struct Emoji {
    pub id: Option<EmojiId>,
    pub name: Option<String>,
    pub roles: Option<Vec<RoleId>>,
    pub user: Option<User>,
    pub require_colons: Option<bool>,
    pub managed: Option<bool>,
    pub animated: Option<bool>,
}

#[derive(Debug, Clone, PartialEq, Eq)]
pub struct Embed {
    pub title: Option<String>,
    pub kind: Option<String>,
    pub description: Option<String>,
    pub url: Option<String>,
    pub timestamp: Option<String>,
    pub color: Option<u64>,
    pub footer: Option<EmbedFooter>,
    pub image: Option<EmbedImage>,
    pub thumbnail: Option<EmbedThumbnail>,
    pub video: Option<EmbedVideo>,
    pub provider: Option<EmbedProvider>,
    pub author: Option<EmbedAuthor>,
    pub fields: Option<Vec<EmbedField>>,
}

#[derive(Debug, Clone, PartialEq, Eq)]
pub struct EmbedThumbnail {
    pub url: Option<String>,
    pub proxy_url: Option<String>,
    pub width: Option<u64>,
    pub height: Option<u64>,
}

#[derive(Debug, Clone, PartialEq, Eq)]
pub struct EmbedVideo {
    pub url: Option<String>,
    pub width: Option<u64>,
    pub height: Option<u64>,
}

#[derive(Debug, Clone, PartialEq, Eq)]
pub struct EmbedImage {
    pub url: Option<String>,
    pub proxy_url: Option<String>,
    pub width: Option<u64>,
    pub height: Option<u64>,
}

#[derive(Debug, Clone, PartialEq, Eq)]
pub struct EmbedProvider {
    pub name: Option<String>,
    pub url: Option<String>,
}

#[derive(Debug, Clone, PartialEq, Eq)]
pub struct EmbedAuthor {
    pub name: Option<String>,
    pub url: Option<String>,
    pub icon_url: Option<String>,
    pub proxy_icon_url: Option<String>,
}

#[derive(Debug, Clone, PartialEq, Eq)]
pub struct EmbedFooter {
    pub text: String,
    pub icon_url: Option<String>,
    pub proxy_icon_url: Option<String>,
}

#[derive(Debug, Clone, PartialEq, Eq)]
pub struct EmbedField {
    pub name: String,
    pub value: String,
    pub inline: Option<bool>,
}

#[derive(Debug, Clone, PartialEq, Eq)]
pub struct ChannelUpdate {
    pub name: Option<String>,
    pub position: Option<u64>,
    pub topic: Option<String>,
    pub nsfw: Option<bool>,
    pub rate_limit_per_user: Option<u64>,
    pub bitrate: Option<u64>,
    pub user_limit: Option<u64>,
    pub permission_overwrites: Option<Vec<PermissionOverwrite>>,
    pub parent_id: Option<ChannelId>,
}

/// Which end of the history a message listing is anchored at.
#[derive(Debug, Clone, Copy, PartialEq, Eq, Structural)]
pub enum MsgQueryLocation {
    Around(MessageId),
    Before(MessageId),
    After(MessageId),
}

/// The query key a location selects.
pub open spec fn msg_query_key(loc: MsgQueryLocation) -> Seq<char> {
    match loc {
        MsgQueryLocation::Around(_) => "around"@,
        MsgQueryLocation::Before(_) => "before"@,
        MsgQueryLocation::After(_) => "after"@,
    }
}

/// The id a location is anchored at.
pub open spec fn msg_query_id(loc: MsgQueryLocation) -> MessageId {
    match loc {
        MsgQueryLocation::Around(id) => id,
        MsgQueryLocation::Before(id) => id,
        MsgQueryLocation::After(id) => id,
    }
}

/// The options of a message listing.
#[derive(Debug, Clone, Copy, PartialEq, Eq, Structural)]
pub struct MessagesQuery {
    pub id: Option<MsgQueryLocation>,
    pub limit: Option<u64>,
}

impl MessagesQuery {
    /// The query parameters a message listing sends: a `limit` pair when a
    /// limit was asked for, then the anchor pair when one was given.
    pub fn query_params(self) -> (r: Vec<(String, String)>)
        ensures
            r@.len() == (if self.limit is Some {
                1int
            } else {
                0int
            }) + (if self.id is Some {
                1int
            } else {
                0int
            }),
            self.limit matches Some(l) ==> r@[0].0@ == "limit"@ && r@[0].1@ == dec_digits(l as int),
            self.id matches Some(loc) ==> (self.limit is Some ==> r@[1].0@ == msg_query_key(loc)
                && r@[1].1@ == dec_digits(msg_query_id(loc).0.0 as int)),
            self.id matches Some(loc) ==> (self.limit is None ==> r@[0].0@ == msg_query_key(loc)
                && r@[0].1@ == dec_digits(msg_query_id(loc).0.0 as int)),
    {
        let mut r: Vec<(String, String)> = Vec::new();
        match self.limit {
            Some(l) => {
                r.push(("limit".to_owned(), crate::text::u64_to_string(l)));
            },
            None => {},
        }
        match self.id {
            Some(MsgQueryLocation::Around(id)) => {
                r.push(("around".to_owned(), id.0.to_text()));
            },
            Some(MsgQueryLocation::Before(id)) => {
                r.push(("before".to_owned(), id.0.to_text()));
            },
            Some(MsgQueryLocation::After(id)) => {
                r.push(("after".to_owned(), id.0.to_text()));
            },
            None => {},
        }
        r
    }
}

#[derive(Debug, Clone, PartialEq, Eq)]
pub struct NewMessage {
    pub content: String,
    pub nonce: Option<u64>,
    pub tts: bool,
    pub file: Option<Vec<u8>>,
    pub embed: Option<Embed>,
}

/// Which end of a reaction listing is anchored at.
#[derive(Debug, Clone, Copy, PartialEq, Eq, Structural)]
pub enum ReactionQueryLocation {
    Before(UserId),
    After(UserId),
}

/// The query key a reaction anchor selects.
pub open spec fn reaction_query_key(loc: ReactionQueryLocation) -> Seq<char> {
    match loc {
        ReactionQueryLocation::Before(_) => "before"@,
        ReactionQueryLocation::After(_) => "after"@,
    }
}

/// The id a reaction anchor is anchored at.
pub open spec fn reaction_query_id(loc: ReactionQueryLocation) -> UserId {
    match loc {
        ReactionQueryLocation::Before(id) => id,
        ReactionQueryLocation::After(id) => id,
    }
}

/// The options of a reaction listing.
#[derive(Debug, Clone, Copy, PartialEq, Eq, Structural)]
pub struct ReactionQuery {
    pub id: Option<ReactionQueryLocation>,
    pub limit: Option<u64>,
}

impl ReactionQuery {
    /// The query parameters a reaction listing sends, as for messages.
    pub fn query_params(self) -> (r: Vec<(String, String)>)
        ensures
            r@.len() == (if self.limit is Some {
                1int
            } else {
                0int
            }) + (if self.id is Some {
                1int
            } else {
                0int
            }),
            self.limit matches Some(l) ==> r@[0].0@ == "limit"@ && r@[0].1@ == dec_digits(l as int),
            self.id matches Some(loc) ==> (self.limit is Some ==> r@[1].0@ == reaction_query_key(
                loc,
            ) && r@[1].1@ == dec_digits(reaction_query_id(loc).0.0 as int)),
            self.id matches Some(loc) ==> (self.limit is None ==> r@[0].0@ == reaction_query_key(
                loc,
            ) && r@[0].1@ == dec_digits(reaction_query_id(loc).0.0 as int)),
    {
        let mut r: Vec<(String, String)> = Vec::new();
        match self.limit {
            Some(l) => {
                r.push(("limit".to_owned(), crate::text::u64_to_string(l)));
            },
            None => {},
        }
        match self.id {
            Some(ReactionQueryLocation::Before(id)) => {
                r.push(("before".to_owned(), id.0.to_text()));
            },
            Some(ReactionQueryLocation::After(id)) => {
                r.push(("after".to_owned(), id.0.to_text()));
            },
            None => {},
        }
        r
    }
}

#[derive(Debug, Clone, PartialEq, Eq)]
pub struct EditMessage {
    pub content: Option<String>,
    pub embed: Option<Embed>,
    pub flags: Option<u64>,
}

#[derive(Debug, Clone, PartialEq, Eq)]
pub struct EditChannelPermission {
    pub allow: u64,
    pub deny: u64,
    /// "member" or "role".
    pub kind: String,
}

#[derive(Debug, Clone, PartialEq, Eq)]
pub struct CreateChannelInvite {
    pub max_age: Option<u64>,
    pub max_uses: Option<u64>,
    pub temporary: Option<bool>,
    pub unique: Option<bool>,
}

#[derive(Debug, Clone, PartialEq, Eq)]
pub struct GroupDMAdd {
    pub access_token: String,
    pub nick: String,
}

#[derive(Debug, Clone, PartialEq, Eq)]
pub struct CreateEmoji {
    pub name: String,
    pub image: String,
    pub roles: Vec<RoleId>,
}

#[derive(Debug, Clone, PartialEq, Eq)]
pub struct UpdateEmoji {
    pub name: String,
    pub roles: Vec<RoleId>,
}

} // verus!
