//! The event router: registration semantics, the guild upsert, and the
//! isolation of handler errors.

use thatcord::discord::DefaultEventHandler;
use thatcord::errors::DiscordError;
use thatcord::events::Client;
use thatcord::events::EventHandler;
use thatcord::json::JsonValue;
use thatcord::Discord;

struct Recorder {
    tag: u32,
    calls: Vec<String>,
    saw_user: bool,
    fail_on: Option<String>,
}

impl Recorder {
    fn new(tag: u32) -> Recorder {
        Recorder { tag, calls: Vec::new(), saw_user: false, fail_on: None }
    }
}

impl EventHandler for Recorder {
    fn handle(&mut self, client: Client<'_>, event: String, _data: JsonValue) -> Result<(), DiscordError> {
        self.saw_user = client.user.is_some();
        self.calls.push(event.clone());
        if self.fail_on.as_deref() == Some(event.as_str()) {
            return Err(DiscordError::JsonError { what: "handler failure".to_string() });
        }
        Ok(())
    }
}

fn obj(entries: Vec<(&str, JsonValue)>) -> JsonValue {
    JsonValue::Object(entries.into_iter().map(|(k, v)| (k.to_string(), v)).collect())
}

fn guild_body(id: &str, name: &str) -> JsonValue {
    obj(vec![
        ("id", JsonValue::Text(id.to_string())),
        ("unavailable", JsonValue::Bool(false)),
        ("name", JsonValue::Text(name.to_string())),
    ])
}

#[test]
fn repeated_guild_create_replaces_instead_of_appending() {
    let mut router: DefaultEventHandler<Recorder> = DefaultEventHandler::new();
    router
        .handle("GUILD_CREATE".to_string(), guild_body("41771983423143937", "first"))
        .unwrap();
    router
        .handle("GUILD_CREATE".to_string(), guild_body("80351110224678912", "other"))
        .unwrap();
    router
        .handle("GUILD_CREATE".to_string(), guild_body("41771983423143937", "second"))
        .unwrap();
    assert_eq!(router.guilds.len(), 2);
    let hits: Vec<_> = router
        .guilds
        .iter()
        .filter(|g| g.id == "41771983423143937")
        .collect();
    assert_eq!(hits.len(), 1);
    assert_eq!(hits[0].name.as_deref(), Some("second"));
}

#[test]
fn malformed_guild_create_changes_nothing() {
    let mut router: DefaultEventHandler<Recorder> = DefaultEventHandler::new();
    router
        .handle("GUILD_CREATE".to_string(), guild_body("1", "keep"))
        .unwrap();
    let r = router.handle(
        "GUILD_CREATE".to_string(),
        obj(vec![("id", JsonValue::UInt(1))]),
    );
    assert!(matches!(r, Err(DiscordError::JsonError { .. })));
    assert_eq!(router.guilds.len(), 1);
    assert_eq!(router.guilds[0].name.as_deref(), Some("keep"));
}

#[test]
fn handler_error_does_not_stop_later_events() {
    let mut router: DefaultEventHandler<Recorder> = DefaultEventHandler::new();
    let mut failing = Recorder::new(1);
    failing.fail_on = Some("X".to_string());
    router.register_event("X".to_string(), failing);
    router.register_event("Y".to_string(), Recorder::new(2));
    assert_eq!(router.handle("X".to_string(), JsonValue::Null), Ok(()));
    assert_eq!(router.handle("Y".to_string(), JsonValue::Null), Ok(()));
    let x_calls = &router.events[0].1.calls;
    let y_calls = &router.events[1].1.calls;
    assert_eq!(x_calls, &vec!["X".to_string()]);
    assert_eq!(y_calls, &vec!["Y".to_string()]);
}

#[test]
fn events_without_a_handler_are_dropped_silently() {
    let mut router: DefaultEventHandler<Recorder> = DefaultEventHandler::new();
    assert_eq!(
        router.handle("PRESENCE_UPDATE".to_string(), JsonValue::Null),
        Ok(())
    );
}

#[test]
fn registering_twice_replaces_the_handler() {
    let mut router: DefaultEventHandler<Recorder> = DefaultEventHandler::new();
    router.register_event("E".to_string(), Recorder::new(1));
    router.register_event("F".to_string(), Recorder::new(2));
    router.register_event("E".to_string(), Recorder::new(3));
    assert_eq!(router.events.len(), 2);
    assert_eq!(router.events[0].0, "E");
    assert_eq!(router.events[0].1.tag, 3);
    assert_eq!(router.events[1].0, "F");
    assert_eq!(router.events[1].1.tag, 2);
}

#[test]
fn ready_preprocessing_runs_before_the_ready_handler() {
    let mut router: DefaultEventHandler<Recorder> = DefaultEventHandler::new();
    router.register_event("READY".to_string(), Recorder::new(1));
    let body = obj(vec![
        (
            "user",
            obj(vec![
                ("id", JsonValue::UInt(7)),
                ("username", JsonValue::Text("Nelly".to_string())),
                ("discriminator", JsonValue::Text("1337".to_string())),
            ]),
        ),
        ("guilds", JsonValue::Array(vec![])),
    ]);
    assert_eq!(router.handle("READY".to_string(), body), Ok(()));
    // The handler observed the identity already populated.
    assert!(router.events[0].1.saw_user);
    assert!(router.user.is_some());
}

#[test]
fn malformed_ready_changes_nothing() {
    let mut router: DefaultEventHandler<Recorder> = DefaultEventHandler::new();
    let body = obj(vec![
        ("user", obj(vec![("id", JsonValue::UInt(7))])),
        ("guilds", JsonValue::Array(vec![])),
    ]);
    let r = router.handle("READY".to_string(), body);
    assert!(matches!(r, Err(DiscordError::JsonError { .. })));
    assert!(router.user.is_none());
    assert_eq!(router.guilds.len(), 0);
}

#[test]
fn ready_with_malformed_guild_list_changes_nothing() {
    let mut router: DefaultEventHandler<Recorder> = DefaultEventHandler::new();
    let body = obj(vec![
        (
            "user",
            obj(vec![
                ("id", JsonValue::UInt(7)),
                ("username", JsonValue::Text("Nelly".to_string())),
                ("discriminator", JsonValue::Text("1337".to_string())),
            ]),
        ),
        ("guilds", JsonValue::Array(vec![JsonValue::UInt(3)])),
    ]);
    let r = router.handle("READY".to_string(), body);
    assert!(matches!(r, Err(DiscordError::JsonError { .. })));
    assert!(router.user.is_none());
    assert_eq!(router.guilds.len(), 0);
}

#[test]
fn discord_facade_registers_and_reports_identity() {
    let mut discord: Discord<Recorder> = Discord::new();
    discord.register_event("READY", Recorder::new(1));
    let mut router = discord.events.take().expect("router present before connect");
    let body = obj(vec![
        (
            "user",
            obj(vec![
                ("id", JsonValue::Text("80351110224678912".to_string())),
                ("username", JsonValue::Text("Nelly".to_string())),
                ("discriminator", JsonValue::Text("1337".to_string())),
            ]),
        ),
        ("guilds", JsonValue::Array(vec![])),
    ]);
    router.handle("READY".to_string(), body).unwrap();
    discord.events = Some(router);
    let user = discord.get_current_user();
    assert_eq!(user.username, "Nelly");
    assert_eq!((user.id.0).0, 80351110224678912);
}
