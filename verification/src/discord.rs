//! The event router: the registry of caller-supplied handlers, the built-in
//! bookkeeping that runs before any of them, and the client facade that the
//! embedding application configures before connecting.
//!
//! Routing is sequential: one dispatch at a time, in delivery order. A
//! handler's error never reaches the connection; the bookkeeping state after
//! a dispatch depends only on the state before it, the event name and the
//! body.

use vstd::prelude::*;

use crate::errors::DiscordError;
use crate::events::Client;
use crate::events::EventHandler;
use crate::json::guild::guild_from_json_matches;
use crate::json::guild::guild_json_wf;
use crate::json::guild::Guild;
use crate::json::user::spec_user_from_json;
use crate::json::user::user_json_wf;
use crate::json::user::User;
use crate::json::value::member_or_null;
use crate::json::value::JsonValue;
use crate::text::str_eq;

verus! {

/// The guilds left when every record with the given identity is dropped,
/// in their original order.
pub open spec fn remove_guild(gs: Seq<Guild>, id: Seq<char>) -> Seq<Guild>
    decreases gs.len(),
{
    if gs.len() == 0 {
        Seq::empty()
    } else {
        let rest = remove_guild(gs.drop_last(), id);
        if gs.last().id@ == id {
            rest
        } else {
            rest.push(gs.last())
        }
    }
}

/// How many records carry the given identity.
pub open spec fn count_guild(gs: Seq<Guild>, id: Seq<char>) -> int
    decreases gs.len(),
{
    if gs.len() == 0 {
        0
    } else {
        count_guild(gs.drop_last(), id) + if gs.last().id@ == id {
            1int
        } else {
            0int
        }
    }
}

/// The upsert a GUILD_CREATE performs: drop every record with the same
/// identity, then append the new one.
pub open spec fn upsert_guilds(gs: Seq<Guild>, g: Guild) -> Seq<Guild> {
    remove_guild(gs, g.id@).push(g)
}

/// Dropping a record that carries the identity being removed does not
/// change the removal's result.
proof fn lemma_remove_matching(gs: Seq<Guild>, i: int, id: Seq<char>)
    requires
        0 <= i < gs.len(),
        gs[i].id@ == id,
    ensures
        remove_guild(gs.remove(i), id) == remove_guild(gs, id),
    decreases gs.len(),
{
    if i == gs.len() - 1 {
        assert(gs.remove(i) =~= gs.drop_last());
    } else {
        lemma_remove_matching(gs.drop_last(), i, id);
        assert(gs.remove(i).drop_last() =~= gs.drop_last().remove(i));
        assert(gs.remove(i).last() == gs.last());
    }
}

/// Removal leaves a sequence without the identity untouched.
proof fn lemma_remove_no_match(gs: Seq<Guild>, id: Seq<char>)
    requires
        forall|j: int| 0 <= j < gs.len() ==> gs[j].id@ != id,
    ensures
        remove_guild(gs, id) == gs,
    decreases gs.len(),
{
    if gs.len() > 0 {
        lemma_remove_no_match(gs.drop_last(), id);
        assert(gs.drop_last().push(gs.last()) =~= gs);
    }
}

/// After a removal, no record carries the removed identity.
proof fn lemma_remove_guild_count(gs: Seq<Guild>, id: Seq<char>)
    ensures
        count_guild(remove_guild(gs, id), id) == 0,
    decreases gs.len(),
{
    if gs.len() > 0 {
        lemma_remove_guild_count(gs.drop_last(), id);
        if gs.last().id@ != id {
            let r = remove_guild(gs.drop_last(), id);
            assert(r.push(gs.last()).drop_last() =~= r);
        }
    }
}

/// After an upsert there is exactly one record with the upserted guild's
/// identity, whatever the collection held before.
pub proof fn lemma_upsert_single_entry(gs: Seq<Guild>, g: Guild)
    ensures
        count_guild(upsert_guilds(gs, g), g.id@) == 1,
{
    lemma_remove_guild_count(gs, g.id@);
    let r = remove_guild(gs, g.id@);
    assert(r.push(g).drop_last() =~= r);
}

/// Two consecutive upserts for the same guild identity leave exactly one
/// record with it: the second replaces the first instead of appending.
pub proof fn lemma_upsert_twice_single_entry(gs: Seq<Guild>, g1: Guild, g2: Guild)
    requires
        g1.id@ == g2.id@,
    ensures
        count_guild(upsert_guilds(upsert_guilds(gs, g1), g2), g2.id@) == 1,
{
    lemma_upsert_single_entry(upsert_guilds(gs, g1), g2);
}

/// The guild bodies a READY payload lists.
pub open spec fn ready_guild_items(data: JsonValue) -> Seq<JsonValue> {
    member_or_null(data, "guilds"@)->Array_0@
}

/// Whether a READY body carries a well-formed user and a list of
/// well-formed guild bodies.
pub open spec fn ready_body_wf(data: JsonValue) -> bool {
    &&& user_json_wf(member_or_null(data, "user"@))
    &&& member_or_null(data, "guilds"@) is Array
    &&& forall|i: int|
        0 <= i < ready_guild_items(data).len() ==> guild_json_wf(#[trigger] ready_guild_items(data)[i])
}

/// The identity a READY body announces.
pub open spec fn ready_user(data: JsonValue) -> User {
    spec_user_from_json(member_or_null(data, "user"@))
}

/// Whether each guild record is the one its body denotes, in order.
pub open spec fn guilds_match_json(items: Seq<JsonValue>, gs: Seq<Guild>) -> bool {
    &&& gs.len() == items.len()
    &&& forall|i: int|
        0 <= i < items.len() ==> guild_from_json_matches(items[i], #[trigger] gs[i])
}

/// Whether the built-in pre-processing accepts this event's body.
pub open spec fn preprocess_wf(event: Seq<char>, data: JsonValue) -> bool {
    if event == "READY"@ {
        ready_body_wf(data)
    } else if event == "GUILD_CREATE"@ {
        guild_json_wf(data)
    } else {
        true
    }
}

/// How one routed event moves the bookkeeping state: READY installs the
/// announced identity and guild list, GUILD_CREATE upserts one guild, and
/// every other event leaves the state alone.
pub open spec fn bookkeeping_step(
    old_user: Option<User>,
    old_guilds: Seq<Guild>,
    event: Seq<char>,
    data: JsonValue,
    new_user: Option<User>,
    new_guilds: Seq<Guild>,
) -> bool {
    if event == "READY"@ {
        &&& new_user == Some(ready_user(data))
        &&& guilds_match_json(ready_guild_items(data), new_guilds)
    } else if event == "GUILD_CREATE"@ {
        &&& new_user == old_user
        &&& new_guilds.len() >= 1
        &&& guild_from_json_matches(data, new_guilds.last())
        &&& new_guilds == upsert_guilds(old_guilds, new_guilds.last())
    } else {
        new_user == old_user && new_guilds == old_guilds
    }
}

/// Routing is insensitive to what handlers do: the router's bookkeeping
/// step relates the state after an event to the state before it, the
/// event's name and its body alone, never to a handler's outcome. In
/// particular an event without a reserved name is always accepted and
/// leaves the bookkeeping exactly as it was — so an error raised by a
/// handler for one event cannot keep a later, unrelated event from being
/// routed and handled normally.
pub proof fn lemma_unreserved_event_routes(
    user: Option<User>,
    guilds: Seq<Guild>,
    event: Seq<char>,
    data: JsonValue,
    new_user: Option<User>,
    new_guilds: Seq<Guild>,
)
    requires
        event != "READY"@,
        event != "GUILD_CREATE"@,
        bookkeeping_step(user, guilds, event, data, new_user, new_guilds),
    ensures
        preprocess_wf(event, data),
        new_user == user,
        new_guilds == guilds,
{
}

/// The index of the first registered handler for a name, if any.
pub open spec fn handler_index<H>(events: Seq<(String, H)>, name: Seq<char>) -> Option<int>
    decreases events.len(),
{
    if events.len() == 0 {
        None
    } else if events[0].0@ == name {
        Some(0int)
    } else {
        match handler_index(events.drop_first(), name) {
            Some(i) => Some(i + 1),
            None => None,
        }
    }
}

proof fn lemma_handler_index_found<H>(events: Seq<(String, H)>, name: Seq<char>, i: int)
    requires
        0 <= i < events.len(),
        events[i].0@ == name,
        forall|j: int| 0 <= j < i ==> events[j].0@ != name,
    ensures
        handler_index(events, name) == Some(i),
    decreases i,
{
    if i > 0 {
        assert(forall|j: int|
            0 <= j < i - 1 ==> events.drop_first()[j].0@ == events[j + 1].0@ && events[j + 1].0@
                != name);
        lemma_handler_index_found(events.drop_first(), name, i - 1);
    }
}

proof fn lemma_handler_index_none<H>(events: Seq<(String, H)>, name: Seq<char>)
    requires
        forall|j: int| 0 <= j < events.len() ==> events[j].0@ != name,
    ensures
        handler_index(events, name) is None,
    decreases events.len(),
{
    if events.len() > 0 {
        lemma_handler_index_none(events.drop_first(), name);
    }
}

/// The index of the first registered handler for a name.
fn find_handler<H>(events: &Vec<(String, H)>, name: &str) -> (r: Option<usize>)
    ensures
        match r {
            Some(i) => i < events@.len() && handler_index(events@, name@) == Some(i as int),
            None => handler_index(events@, name@) is None,
        },
{
    let mut i: usize = 0;
    while i < events.len()
        invariant
            0 <= i <= events@.len(),
            forall|j: int| 0 <= j < i ==> events@[j].0@ != name@,
        decreases events@.len() - i,
    {
        if str_eq(events[i].0.as_str(), name) {
            proof {
                lemma_handler_index_found(events@, name@, i as int);
            }
            return Some(i);
        }
        i = i + 1;
    }
    proof {
        lemma_handler_index_none(events@, name@);
    }
    None
}

/// The router: the handler registry and the per-connection bookkeeping that
/// runs before any registered handler.
pub struct DefaultEventHandler<H: EventHandler> {
    /// Registered handlers, one per event name.
    pub events: Vec<(String, H)>,
    /// The authenticated identity, once READY announced it.
    pub user: Option<User>,
    /// Every guild seen so far, at most one record per identity.
    pub guilds: Vec<Guild>,
}

impl<H: EventHandler> DefaultEventHandler<H> {
    /// An empty router: no handlers, no identity, no guilds.
    pub fn new() -> (r: Self)
        ensures
            r.events@ == Seq::<(String, H)>::empty(),
            r.user is None,
            r.guilds@ == Seq::<Guild>::empty(),
    {
        DefaultEventHandler { events: Vec::new(), user: None, guilds: Vec::new() }
    }

    /// Registers a handler for an event name. A handler registered earlier
    /// for the same name is replaced; other registrations keep their place.
    pub fn register_event(&mut self, event: String, handler: H)
        ensures
            match handler_index(old(self).events@, event@) {
                Some(i) => final(self).events@ == old(self).events@.update(
                    i,
                    (old(self).events@[i].0, handler),
                ),
                None => final(self).events@ == old(self).events@.push((event, handler)),
            },
            final(self).user == old(self).user,
            final(self).guilds == old(self).guilds,
    {
        let mut i: usize = 0;
        while i < self.events.len()
            invariant
                0 <= i <= self.events@.len(),
                *self == *old(self),
                forall|j: int| 0 <= j < i ==> self.events@[j].0@ != event@,
            decreases self.events@.len() - i,
        {
            if str_eq(self.events[i].0.as_str(), event.as_str()) {
                proof {
                    lemma_handler_index_found(self.events@, event@, i as int);
                }
                let name = self.events[i].0.clone();
                self.events.set(i, (name, handler));
                return;
            }
            i = i + 1;
        }
        proof {
            lemma_handler_index_none(self.events@, event@);
        }
        self.events.push((event, handler));
    }

    /// The bookkeeping that runs before any READY handler: install the
    /// announced identity and the initial guild list. A malformed body is
    /// refused and changes nothing.
    pub fn pre_ready(&mut self, data: &JsonValue) -> (r: Result<(), DiscordError>)
        ensures
            r is Ok <==> ready_body_wf(*data),
            r is Ok ==> final(self).user == Some(ready_user(*data)) && guilds_match_json(
                ready_guild_items(*data),
                final(self).guilds@,
            ),
            r is Err ==> final(self).user == old(self).user && final(self).guilds == old(
                self,
            ).guilds,
            r matches Err(e) ==> e matches DiscordError::JsonError { .. },
            final(self).events == old(self).events,
    {
        let user = match data.get("user") {
            Some(member) => match User::from_json(member) {
                Ok(u) => u,
                Err(_) => {
                    return Err(
                        DiscordError::JsonError { what: "READY user is malformed".to_owned() },
                    );
                },
            },
            None => {
                return Err(DiscordError::JsonError { what: "READY has no user".to_owned() });
            },
        };
        match data.get("guilds") {
            Some(JsonValue::Array(items)) => {
                let mut gs: Vec<Guild> = Vec::new();
                let mut i: usize = 0;
                while i < items.len()
                    invariant
                        0 <= i <= items@.len(),
                        gs@.len() == i,
                        member_or_null(*data, "guilds"@) == JsonValue::Array(*items),
                        forall|j: int|
                            0 <= j < i ==> guild_json_wf(#[trigger] items@[j])
                                && guild_from_json_matches(items@[j], gs@[j]),
                    decreases items@.len() - i,
                {
                    match Guild::from_json(&items[i]) {
                        Ok(g) => {
                            gs.push(g);
                        },
                        Err(_) => {
                            proof {
                                assert(ready_guild_items(*data) == items@);
                                assert(!guild_json_wf(ready_guild_items(*data)[i as int]));
                            }
                            return Err(
                                DiscordError::JsonError {
                                    what: "READY guild is malformed".to_owned(),
                                },
                            );
                        },
                    }
                    i = i + 1;
                }
                self.user = Some(user);
                self.guilds = gs;
                Ok(())
            },
            _ => Err(DiscordError::JsonError { what: "READY has no guild list".to_owned() }),
        }
    }

    /// The bookkeeping that runs before any GUILD_CREATE handler: upsert
    /// the announced guild, so that a repeated delivery replaces rather
    /// than appends. A malformed body is refused and changes nothing.
    pub fn pre_guild_create(&mut self, data: &JsonValue) -> (r: Result<(), DiscordError>)
        ensures
            r is Ok <==> guild_json_wf(*data),
            r is Ok ==> final(self).guilds@.len() >= 1 && guild_from_json_matches(
                *data,
                final(self).guilds@.last(),
            ) && final(self).guilds@ == upsert_guilds(
                old(self).guilds@,
                final(self).guilds@.last(),
            ),
            r is Err ==> final(self).guilds == old(self).guilds,
            r matches Err(e) ==> e matches DiscordError::JsonError { .. },
            final(self).user == old(self).user,
            final(self).events == old(self).events,
    {
        let g = match Guild::from_json(data) {
            Ok(g) => g,
            Err(_) => {
                return Err(DiscordError::JsonError { what: "guild body is malformed".to_owned() });
            },
        };
        let mut i: usize = 0;
        while i < self.guilds.len()
            invariant
                0 <= i <= self.guilds@.len(),
                forall|j: int| 0 <= j < i ==> self.guilds@[j].id@ != g.id@,
                remove_guild(self.guilds@, g.id@) == remove_guild(old(self).guilds@, g.id@),
                self.user == old(self).user,
                self.events == old(self).events,
            decreases self.guilds@.len() - i,
        {
            if self.guilds[i].id == g.id {
                proof {
                    lemma_remove_matching(self.guilds@, i as int, g.id@);
                }
                let _dropped = self.guilds.remove(i);
            } else {
                i = i + 1;
            }
        }
        proof {
            lemma_remove_no_match(self.guilds@, g.id@);
        }
        self.guilds.push(g);
        Ok(())
    }

    /// Routes one dispatched event: run the built-in bookkeeping for the
    /// reserved names, then hand the body to the registered handler, if
    /// any. A handler's error is swallowed; a malformed body for a
    /// reserved name is the only failure, and it leaves the bookkeeping
    /// untouched.
    pub fn handle(&mut self, event: String, data: JsonValue) -> (r: Result<(), DiscordError>)
        ensures
            r is Ok <==> preprocess_wf(event@, data),
            r is Ok ==> bookkeeping_step(
                old(self).user,
                old(self).guilds@,
                event@,
                data,
                final(self).user,
                final(self).guilds@,
            ),
            r is Err ==> final(self).user == old(self).user && final(self).guilds == old(
                self,
            ).guilds,
            r matches Err(e) ==> e matches DiscordError::JsonError { .. },
            final(self).events@.len() == old(self).events@.len(),
            forall|i: int|
                0 <= i < old(self).events@.len() ==> final(self).events@[i].0 == old(
                    self,
                ).events@[i].0,
    {
        if str_eq(event.as_str(), "READY") {
            match self.pre_ready(&data) {
                Ok(_) => {},
                Err(e) => {
                    return Err(e);
                },
            }
        } else if str_eq(event.as_str(), "GUILD_CREATE") {
            match self.pre_guild_create(&data) {
                Ok(_) => {},
                Err(e) => {
                    return Err(e);
                },
            }
        }
        match find_handler(&self.events, event.as_str()) {
            Some(i) => {
                let pair = &mut self.events[i];
                let outcome = pair.1.handle(
                    Client { user: &self.user, guilds: &self.guilds },
                    event,
                    data,
                );
                // One misbehaving handler must not end the connection; its
                // error would be logged by the embedding code.
                let _ = outcome;
            },
            None => {},
        }
        Ok(())
    }
}

/// The client facade the embedding application configures: handlers are
/// registered here before connecting, and the router then moves into the
/// gateway engine for the life of the connection.
pub struct Discord<H: EventHandler> {
    pub events: Option<DefaultEventHandler<H>>,
}

impl<H: EventHandler> Discord<H> {
    /// A fresh client with an empty router.
    pub fn new() -> (r: Self)
        ensures
            r.events is Some,
            r.events->Some_0.events@ == Seq::<(String, H)>::empty(),
            r.events->Some_0.user is None,
            r.events->Some_0.guilds@ == Seq::<Guild>::empty(),
    {
        Discord { events: Some(DefaultEventHandler::new()) }
    }

    /// Registers a handler for an event name, replacing any earlier one
    /// for that name. Valid only before the router moved into a
    /// connection.
    pub fn register_event(&mut self, event: &str, handler: H)
        requires
            old(self).events is Some,
        ensures
            final(self).events is Some,
            (match handler_index(old(self).events->Some_0.events@, event@) {
                Some(i) => final(self).events->Some_0.events@ == old(
                    self,
                ).events->Some_0.events@.update(
                    i,
                    (old(self).events->Some_0.events@[i].0, handler),
                ),
                None => exists|name: String|
                    name@ == event@ && final(self).events->Some_0.events@ == old(
                        self,
                    ).events->Some_0.events@.push((name, handler)),
            }),
            final(self).events->Some_0.user == old(self).events->Some_0.user,
            final(self).events->Some_0.guilds == old(self).events->Some_0.guilds,
    {
        let owned: String = event.to_owned();
        match &mut self.events {
            Some(ev) => {
                ev.register_event(owned, handler);
            },
            None => {
                vstd::pervasive::unreached::<()>();
            },
        }
    }

    /// The authenticated identity. Valid only once a connection built from
    /// this client has processed READY.
    pub fn get_current_user(&self) -> (r: User)
        requires
            self.events is Some,
            self.events->Some_0.user is Some,
        ensures
            Some(r) == self.events->Some_0.user,
    {
        match &self.events {
            Some(ev) => match &ev.user {
                Some(u) => u.clone(),
                None => vstd::pervasive::unreached(),
            },
            None => vstd::pervasive::unreached(),
        }
    }
}

} // verus!
