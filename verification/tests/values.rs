//! Text conversions, query construction, snowflake timestamps, and the
//! reading of records out of payload bodies.

use thatcord::api::channel::ChannelType;
use thatcord::api::channel::MessageActivityType;
use thatcord::api::channel::MessageType;
use thatcord::api::channel::MessagesQuery;
use thatcord::api::guild::ActivityType;
use thatcord::api::channel::MsgQueryLocation;
use thatcord::api::channel::ReactionQuery;
use thatcord::api::channel::ReactionQueryLocation;
use thatcord::api::format_query;
use thatcord::api::guild::prune_query_params;
use thatcord::api::guild::CreateBan;
use thatcord::api::guild::Role;
use thatcord::api::id::ChannelId;
use thatcord::api::id::GuildId;
use thatcord::api::id::Id;
use thatcord::api::id::MessageId;
use thatcord::api::id::RoleId;
use thatcord::api::id::UserId;
use thatcord::json::guild::Guild;
use thatcord::json::user::User;
use thatcord::json::value::find_key;
use thatcord::json::JsonValue;
use thatcord::text::parse_u64;
use thatcord::text::u64_to_string;

fn obj(entries: Vec<(&str, JsonValue)>) -> JsonValue {
    JsonValue::Object(entries.into_iter().map(|(k, v)| (k.to_string(), v)).collect())
}

fn pairs(ps: Vec<(&str, &str)>) -> Option<Vec<(String, String)>> {
    Some(ps.into_iter().map(|(k, v)| (k.to_string(), v.to_string())).collect())
}

#[test]
fn parse_u64_reads_decimal_digits() {
    assert_eq!(parse_u64("0"), Some(0));
    assert_eq!(parse_u64("41771983423143936"), Some(41771983423143936));
    assert_eq!(parse_u64("18446744073709551615"), Some(u64::MAX));
}

#[test]
fn parse_u64_refuses_anything_else() {
    assert_eq!(parse_u64(""), None);
    assert_eq!(parse_u64("12a"), None);
    assert_eq!(parse_u64("+5"), None);
    assert_eq!(parse_u64("-5"), None);
    assert_eq!(parse_u64(" 5"), None);
    assert_eq!(parse_u64("18446744073709551616"), None);
    assert_eq!(parse_u64("99999999999999999999"), None);
}

#[test]
fn u64_to_string_writes_decimal_digits() {
    assert_eq!(u64_to_string(0), "0");
    assert_eq!(u64_to_string(7), "7");
    assert_eq!(u64_to_string(41250), "41250");
    assert_eq!(u64_to_string(u64::MAX), "18446744073709551615");
}

#[test]
fn decimal_text_round_trips() {
    for n in [0u64, 9, 10, 41250, 41771983423143936, u64::MAX] {
        assert_eq!(parse_u64(&u64_to_string(n)), Some(n));
    }
}

#[test]
fn format_query_renders_nothing_for_empty_input() {
    assert_eq!(format_query(None), "");
    assert_eq!(format_query(pairs(vec![])), "");
}

#[test]
fn format_query_renders_the_first_pair_twice() {
    // The first pair is written bare and then again by the loop over all
    // pairs, so it appears twice.
    assert_eq!(format_query(pairs(vec![("a", "1")])), "?a=1&a=1");
    assert_eq!(
        format_query(pairs(vec![("a", "1"), ("b", "2")])),
        "?a=1&a=1&b=2"
    );
}

#[test]
fn snowflake_timestamps_count_from_the_epoch() {
    // The example snowflake from the protocol documentation.
    assert_eq!(Id(175928847299117063).get_timestamp(), 1462015105796);
    assert_eq!(Id(0).get_timestamp(), 1_420_070_400_000);
}

#[test]
fn id_from_str_reads_decimal_text() {
    assert_eq!(Id::from_str("41771983423143936"), Some(Id(41771983423143936)));
    assert_eq!(Id::from_str("x"), None);
    assert_eq!(Id(98765).to_text(), "98765");
}

#[test]
fn messages_query_builds_its_parameters() {
    let q = MessagesQuery {
        id: Some(MsgQueryLocation::Before(MessageId(Id(42)))),
        limit: Some(50),
    };
    assert_eq!(
        q.query_params(),
        vec![
            ("limit".to_string(), "50".to_string()),
            ("before".to_string(), "42".to_string()),
        ]
    );
    let q = MessagesQuery { id: Some(MsgQueryLocation::Around(MessageId(Id(7)))), limit: None };
    assert_eq!(q.query_params(), vec![("around".to_string(), "7".to_string())]);
    let q = MessagesQuery { id: None, limit: None };
    assert_eq!(q.query_params(), vec![]);
}

#[test]
fn reaction_query_builds_its_parameters() {
    let q = ReactionQuery {
        id: Some(ReactionQueryLocation::After(UserId(Id(9)))),
        limit: Some(3),
    };
    assert_eq!(
        q.query_params(),
        vec![
            ("limit".to_string(), "3".to_string()),
            ("after".to_string(), "9".to_string()),
        ]
    );
}

#[test]
fn ban_and_prune_queries_build_their_parameters() {
    let ban = CreateBan { delete_message_days: Some(7), reason: Some("spam".to_string()) };
    assert_eq!(
        ban.query_params(),
        vec![
            ("delete-message-days".to_string(), "7".to_string()),
            ("reason".to_string(), "spam".to_string()),
        ]
    );
    assert_eq!(
        prune_query_params(Some(30), Some(true)),
        vec![
            ("day".to_string(), "30".to_string()),
            ("compute_prune_count".to_string(), "true".to_string()),
        ]
    );
    assert_eq!(prune_query_params(None, None), vec![]);
}

#[test]
fn object_lookup_takes_the_first_matching_key() {
    let v = obj(vec![
        ("k", JsonValue::UInt(1)),
        ("k", JsonValue::UInt(2)),
        ("other", JsonValue::UInt(3)),
    ]);
    assert_eq!(v.get("k"), Some(&JsonValue::UInt(1)));
    assert_eq!(v.get("missing"), None);
    match &v {
        JsonValue::Object(entries) => {
            assert_eq!(find_key(entries, "other"), Some(2));
        }
        _ => unreachable!(),
    }
}

#[test]
fn user_records_read_ids_as_numbers_or_text() {
    let v = obj(vec![
        ("id", JsonValue::Text("80351110224678912".to_string())),
        ("username", JsonValue::Text("Nelly".to_string())),
        ("discriminator", JsonValue::Text("1337".to_string())),
        ("bot", JsonValue::Bool(true)),
        ("email", JsonValue::Null),
    ]);
    let u = User::from_json(&v).unwrap();
    assert_eq!((u.id.0).0, 80351110224678912);
    assert_eq!(u.username, "Nelly");
    assert!(u.bot);
    assert!(!u.verified);
    assert_eq!(u.email, None);

    let v = obj(vec![
        ("id", JsonValue::UInt(7)),
        ("username", JsonValue::Text("n".to_string())),
        ("discriminator", JsonValue::Text("0001".to_string())),
    ]);
    assert_eq!((User::from_json(&v).unwrap().id.0).0, 7);

    let v = obj(vec![
        ("id", JsonValue::Bool(true)),
        ("username", JsonValue::Text("n".to_string())),
        ("discriminator", JsonValue::Text("0001".to_string())),
    ]);
    assert!(User::from_json(&v).is_err());
}

#[test]
fn test_role() {
    let v = obj(vec![
        ("id", JsonValue::Text("41771983423143936".to_string())),
        ("name", JsonValue::Text("WE DEM BOYZZ!!!!!!".to_string())),
        ("color", JsonValue::UInt(3447003)),
        ("hoist", JsonValue::Bool(true)),
        ("position", JsonValue::UInt(1)),
        ("permissions", JsonValue::UInt(66321471)),
        ("managed", JsonValue::Bool(false)),
        ("mentionable", JsonValue::Bool(false)),
    ]);
    assert_eq!(
        Role::from_json(&v).unwrap(),
        Role {
            id: RoleId(Id(41771983423143936)),
            name: String::from("WE DEM BOYZZ!!!!!!"),
            color: 3447003,
            hoist: true,
            position: 1,
            permissions: 66321471,
            managed: false,
            mentionable: false,
        }
    );
}

#[test]
fn test_guild() {
    let v = obj(vec![
        ("id", JsonValue::Text("41771983423143937".to_string())),
        ("application_id", JsonValue::Null),
        ("name", JsonValue::Text("Discord Developers".to_string())),
        (
            "icon",
            JsonValue::Text("86e39f7ae3307e811784e2ffd11a7310".to_string()),
        ),
        ("splash", JsonValue::Null),
        ("owner_id", JsonValue::Text("80351110224678912".to_string())),
        ("region", JsonValue::Text("us-east".to_string())),
        ("afk_channel_id", JsonValue::Text("42072017402331136".to_string())),
        ("afk_timeout", JsonValue::UInt(300)),
        ("embed_enabled", JsonValue::Bool(true)),
        ("embed_channel_id", JsonValue::Text("41771983444115456".to_string())),
        ("verification_level", JsonValue::UInt(1)),
        ("default_message_notifications", JsonValue::UInt(0)),
        ("explicit_content_filter", JsonValue::UInt(0)),
        ("mfa_level", JsonValue::UInt(0)),
        ("widget_enabled", JsonValue::Bool(false)),
        ("widget_channel_id", JsonValue::Text("41771983423143937".to_string())),
        ("roles", JsonValue::Array(vec![])),
        ("emojis", JsonValue::Array(vec![])),
        (
            "features",
            JsonValue::Array(vec![JsonValue::Text("INVITE_SPLASH".to_string())]),
        ),
        ("unavailable", JsonValue::Bool(false)),
    ]);
    assert_eq!(
        Guild::from_json(&v).unwrap(),
        Guild {
            id: String::from("41771983423143937"),
            application_id: None,
            name: Some(String::from("Discord Developers")),
            icon: Some(String::from("86e39f7ae3307e811784e2ffd11a7310")),
            splash: None,
            owner_id: Some(String::from("80351110224678912")),
            region: Some(String::from("us-east")),
            afk_channel_id: Some(String::from("42072017402331136")),
            afk_timeout: Some(300),
            embed_enabled: true,
            embed_channel_id: Some(String::from("41771983444115456")),
            verification_level: Some(1),
            default_message_notifications: Some(0),
            explicit_content_filter: Some(0),
            mfa_level: Some(0),
            widget_enabled: false,
            widget_channel_id: Some(String::from("41771983423143937")),
            features: vec![String::from("INVITE_SPLASH")],
            unavailable: false,
            banner: None,
            description: None,
            discriminator: None,
            joined: None,
            large: false,
            max_members: None,
            max_presences: None,
            member_count: None,
            owner: false,
            permissions: None,
            preferred_locale: None,
            premium_subscription_count: None,
            premium_tier: None,
            system_channel_id: None,
            vanity_url_code: None,
        }
    );
}

#[test]
fn guild_records_require_identity_and_availability() {
    let v = obj(vec![("id", JsonValue::Text("1".to_string()))]);
    assert!(Guild::from_json(&v).is_err());
    let v = obj(vec![("unavailable", JsonValue::Bool(false))]);
    assert!(Guild::from_json(&v).is_err());
}

#[test]
fn optional_members_accept_null_but_not_wrong_shapes() {
    // An optional string may be absent or null, never another shape.
    let v = obj(vec![
        ("id", JsonValue::Text("1".to_string())),
        ("unavailable", JsonValue::Bool(true)),
        ("name", JsonValue::Null),
        ("afk_timeout", JsonValue::Null),
    ]);
    let g = Guild::from_json(&v).unwrap();
    assert_eq!(g.name, None);
    assert_eq!(g.afk_timeout, None);

    let v = obj(vec![
        ("id", JsonValue::Text("1".to_string())),
        ("unavailable", JsonValue::Bool(true)),
        ("name", JsonValue::UInt(3)),
    ]);
    assert!(Guild::from_json(&v).is_err());

    // A defaulting boolean takes `false` when absent but refuses null.
    let v = obj(vec![
        ("id", JsonValue::Text("1".to_string())),
        ("unavailable", JsonValue::Bool(true)),
        ("large", JsonValue::Null),
    ]);
    assert!(Guild::from_json(&v).is_err());

    // A narrow integer member refuses values that do not fit.
    let v = obj(vec![
        ("id", JsonValue::Text("1".to_string())),
        ("unavailable", JsonValue::Bool(true)),
        ("mfa_level", JsonValue::UInt(256)),
    ]);
    assert!(Guild::from_json(&v).is_err());

    // A string list refuses non-string elements.
    let v = obj(vec![
        ("id", JsonValue::Text("1".to_string())),
        ("unavailable", JsonValue::Bool(true)),
        ("features", JsonValue::Array(vec![JsonValue::UInt(1)])),
    ]);
    assert!(Guild::from_json(&v).is_err());
}

#[test]
fn modify_user_params_sends_only_what_was_given() {
    assert_eq!(
        thatcord::api::user::modify_user_params(
            Some("name".to_string()),
            Some("data-uri".to_string())
        ),
        vec![
            ("username".to_string(), "name".to_string()),
            ("avatar".to_string(), "data-uri".to_string()),
        ]
    );
    assert_eq!(thatcord::api::user::modify_user_params(None, None), vec![]);
    assert_eq!(
        thatcord::api::user::modify_user_params(None, Some("a".to_string())),
        vec![("avatar".to_string(), "a".to_string())]
    );
}

#[test]
fn enum_wire_values_match_the_protocol_tables() {
    assert_eq!(ChannelType::GuildText.to_u8(), 0);
    assert_eq!(ChannelType::GuildStore.to_u8(), 6);
    assert_eq!(MessageType::Default.to_u8(), 0);
    assert_eq!(MessageType::ChannelFollowAdd.to_u8(), 12);
    // The activity and message-activity tables skip values.
    assert_eq!(MessageActivityType::Join.to_u8(), 1);
    assert_eq!(MessageActivityType::JoinRequest.to_u8(), 5);
    assert_eq!(ActivityType::Listening.to_u8(), 2);
    assert_eq!(ActivityType::Custom.to_u8(), 4);
}

#[test]
fn cloned_users_compare_equal() {
    let v = obj(vec![
        ("id", JsonValue::UInt(7)),
        ("username", JsonValue::Text("n".to_string())),
        ("discriminator", JsonValue::Text("0001".to_string())),
        ("avatar", JsonValue::Text("hash".to_string())),
    ]);
    let u = User::from_json(&v).unwrap();
    assert_eq!(u.clone(), u);
}

#[test]
fn typed_ids_expose_their_timestamps() {
    assert_eq!(
        GuildId(Id(41771983423143937)).0.get_timestamp(),
        ChannelId(Id(41771983423143937)).0.get_timestamp()
    );
}
