//! The user: a state projected from the events that happened to it.

use crate::aggregate::{Aggregate, AggregateEvent};
use crate::event::{UserBecameOffline, UserBecameOnline, UserCreated, UserDeleted, UserNameUpdated};
use crate::hydrated::{lemma_replay_in_two_runs, lemma_replay_one, replay};
use crate::sourced::EventSourced;
use crate::time::Timestamp;
use vstd::prelude::*;

verus! {

/// A user's identifier.
#[derive(Clone, Copy, Debug, PartialEq, Eq, Structural)]
pub struct Id(pub u64);

/// A user's name.
#[derive(Debug)]
pub struct Name(pub String);

impl Clone for Name {
    fn clone(&self) -> (c: Name)
        ensures
            c == *self,
    {
        Name(self.0.clone())
    }
}

/// When a user was created.
#[derive(Clone, Copy, Debug, PartialEq, Eq, Structural)]
pub struct CreationDateTime(pub Timestamp);

/// When a user was last seen to do something.
#[derive(Clone, Copy, Debug, PartialEq, Eq, Structural)]
pub struct LastActivityDateTime(pub Timestamp);

/// When a user was deleted.
#[derive(Clone, Copy, Debug, PartialEq, Eq, Structural)]
pub struct DeletionDateTime(pub Timestamp);

/// The current view of a user.
#[derive(Debug)]
pub struct User {
    pub id: Id,
    pub name: Option<Name>,
    pub online_since: Option<Timestamp>,
    pub created_at: CreationDateTime,
    pub last_activity_at: LastActivityDateTime,
    pub deleted_at: Option<DeletionDateTime>,
}

impl User {
    /// The user to whom nothing has happened yet.
    pub open spec fn initial() -> User {
        User {
            id: Id(0),
            name: None,
            online_since: None,
            created_at: CreationDateTime(Timestamp(0)),
            last_activity_at: LastActivityDateTime(Timestamp(0)),
            deleted_at: None,
        }
    }
}

impl Default for User {
    fn default() -> (u: User)
        ensures
            u == User::initial(),
    {
        User {
            id: Id(0),
            name: None,
            online_since: None,
            created_at: CreationDateTime(Timestamp(0)),
            last_activity_at: LastActivityDateTime(Timestamp(0)),
            deleted_at: None,
        }
    }
}

impl EventSourced<UserCreated> for User {
    /// Creation sets the identifier and the time of creation, and counts as
    /// activity.
    open spec fn applied(self, ev: &UserCreated) -> User {
        User {
            id: ev.user_id,
            created_at: ev.at,
            last_activity_at: LastActivityDateTime(ev.at.0),
            ..self
        }
    }

    fn apply(&mut self, ev: &UserCreated) {
        self.id = ev.user_id;
        self.created_at = ev.at;
        self.last_activity_at = LastActivityDateTime(ev.at.0);
    }
}

impl EventSourced<UserNameUpdated> for User {
    /// A new name replaces the old one; nothing else changes.
    open spec fn applied(self, ev: &UserNameUpdated) -> User {
        User { name: ev.name, ..self }
    }

    fn apply(&mut self, ev: &UserNameUpdated) {
        self.name = ev.name.clone();
    }
}

impl EventSourced<UserBecameOnline> for User {
    /// Coming online sets the time since which the user is online.
    open spec fn applied(self, ev: &UserBecameOnline) -> User {
        User { online_since: Some(ev.at), ..self }
    }

    fn apply(&mut self, ev: &UserBecameOnline) {
        self.online_since = Some(ev.at);
    }
}

impl EventSourced<UserBecameOffline> for User {
    /// Going offline clears the online time and counts as activity.
    open spec fn applied(self, ev: &UserBecameOffline) -> User {
        User { online_since: None, last_activity_at: LastActivityDateTime(ev.at), ..self }
    }

    fn apply(&mut self, ev: &UserBecameOffline) {
        self.online_since = None;
        self.last_activity_at = LastActivityDateTime(ev.at);
    }
}

impl EventSourced<UserDeleted> for User {
    /// Deletion sets the time of deletion and counts as activity.
    open spec fn applied(self, ev: &UserDeleted) -> User {
        User {
            deleted_at: Some(ev.at),
            last_activity_at: LastActivityDateTime(ev.at.0),
            ..self
        }
    }

    fn apply(&mut self, ev: &UserDeleted) {
        self.deleted_at = Some(ev.at);
        self.last_activity_at = LastActivityDateTime(ev.at.0);
    }
}

/// Everything that can happen to a user: a closed set, one variant per kind
/// of event.
#[derive(Debug)]
pub enum Event {
    Created(UserCreated),
    NameUpdated(UserNameUpdated),
    Online(UserBecameOnline),
    Offline(UserBecameOffline),
    Deleted(UserDeleted),
}

impl EventSourced<Event> for User {
    /// Each variant is routed to the rule for the event it carries. There is
    /// no branch for "anything else": a variant without a rule does not
    /// compile.
    open spec fn applied(self, ev: &Event) -> User {
        match ev {
            Event::Created(ev) => EventSourced::<UserCreated>::applied(self, ev),
            Event::NameUpdated(ev) => EventSourced::<UserNameUpdated>::applied(self, ev),
            Event::Online(ev) => EventSourced::<UserBecameOnline>::applied(self, ev),
            Event::Offline(ev) => EventSourced::<UserBecameOffline>::applied(self, ev),
            Event::Deleted(ev) => EventSourced::<UserDeleted>::applied(self, ev),
        }
    }

    fn apply(&mut self, ev: &Event) {
        match ev {
            Event::Created(ev) => EventSourced::<UserCreated>::apply(self, ev),
            Event::NameUpdated(ev) => EventSourced::<UserNameUpdated>::apply(self, ev),
            Event::Online(ev) => EventSourced::<UserBecameOnline>::apply(self, ev),
            Event::Offline(ev) => EventSourced::<UserBecameOffline>::apply(self, ev),
            Event::Deleted(ev) => EventSourced::<UserDeleted>::apply(self, ev),
        }
    }
}

impl Aggregate for User {
    fn aggregate_type() -> (t: &'static str)
        ensures
            t@ == "user"@,
    {
        "user"
    }
}

impl crate::aggregate::Event for Event {
    /// The description of the event that the variant carries.
    fn event_type(&self) -> (t: &'static str)
        ensures
            t@ == match self {
                Event::Created(_) => "user_created"@,
                Event::NameUpdated(_) => "user_name_updated"@,
                Event::Online(_) => "user_became_online"@,
                Event::Offline(_) => "user_became_offline"@,
                Event::Deleted(_) => "user_deleted"@,
            },
    {
        match self {
            Event::Created(ev) => crate::aggregate::Event::event_type(ev),
            Event::NameUpdated(ev) => crate::aggregate::Event::event_type(ev),
            Event::Online(ev) => crate::aggregate::Event::event_type(ev),
            Event::Offline(ev) => crate::aggregate::Event::event_type(ev),
            Event::Deleted(ev) => crate::aggregate::Event::event_type(ev),
        }
    }
}

impl AggregateEvent<User> for Event {
    open spec fn applied(self, state: User) -> User {
        EventSourced::<Event>::applied(state, &self)
    }

    fn apply_to(self, aggregate: &mut User) {
        EventSourced::<Event>::apply(aggregate, &self);
    }
}

/// Every event is one of the five variants, and the dispatch gives each
/// variant the rule of the event it carries: none is left without a rule, and
/// none falls through to another's.
pub proof fn lemma_every_variant_has_its_rule(state: User, ev: Event)
    ensures
        ev is Created || ev is NameUpdated || ev is Online || ev is Offline || ev is Deleted,
        ev matches Event::Created(e) ==> state.applied(&ev) == EventSourced::<
            UserCreated,
        >::applied(state, &e),
        ev matches Event::NameUpdated(e) ==> state.applied(&ev) == EventSourced::<
            UserNameUpdated,
        >::applied(state, &e),
        ev matches Event::Online(e) ==> state.applied(&ev) == EventSourced::<
            UserBecameOnline,
        >::applied(state, &e),
        ev matches Event::Offline(e) ==> state.applied(&ev) == EventSourced::<
            UserBecameOffline,
        >::applied(state, &e),
        ev matches Event::Deleted(e) ==> state.applied(&ev) == EventSourced::<
            UserDeleted,
        >::applied(state, &e),
{
}

/// The order of events matters. Online and then offline leaves the user
/// offline, last active when they went offline; offline and then online
/// leaves them online. The two states differ.
pub proof fn lemma_online_offline_order_matters(
    state: User,
    online: UserBecameOnline,
    offline: UserBecameOffline,
)
    ensures
        ({
            let on_then_off = replay(state, seq![Event::Online(online), Event::Offline(offline)]);
            let off_then_on = replay(state, seq![Event::Offline(offline), Event::Online(online)]);
            &&& on_then_off.online_since is None
            &&& on_then_off.last_activity_at == LastActivityDateTime(offline.at)
            &&& off_then_on.online_since == Some(online.at)
            &&& off_then_on.last_activity_at == LastActivityDateTime(offline.at)
            &&& on_then_off != off_then_on
        }),
{
    let on = Event::Online(online);
    let off = Event::Offline(offline);
    lemma_replay_one(state, on);
    lemma_replay_one(state, off);
    assert(seq![on, off] =~= seq![on] + seq![off]);
    assert(seq![off, on] =~= seq![off] + seq![on]);
    lemma_replay_in_two_runs(state, seq![on], seq![off]);
    lemma_replay_in_two_runs(state, seq![off], seq![on]);
    lemma_replay_one(replay(state, seq![on]), off);
    lemma_replay_one(replay(state, seq![off]), on);
}

} // verus!
