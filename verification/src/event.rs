//! The facts that can happen to a user.

use crate::aggregate::{AggregateEvent, Event};
use crate::sourced::EventSourced;
use crate::time::Timestamp;
use crate::user::{CreationDateTime, DeletionDateTime, Id, Name, User};
use vstd::prelude::*;

verus! {

/// A user was created.
#[derive(Debug)]
pub struct UserCreated {
    pub user_id: Id,
    pub at: CreationDateTime,
}

/// A user's name was set, or taken away.
#[derive(Debug)]
pub struct UserNameUpdated {
    pub user_id: Id,
    pub name: Option<Name>,
    pub at: Timestamp,
}

/// A user came online.
#[derive(Debug)]
pub struct UserBecameOnline {
    pub user_id: Id,
    pub at: Timestamp,
}

/// A user went offline.
#[derive(Debug)]
pub struct UserBecameOffline {
    pub user_id: Id,
    pub at: Timestamp,
}

/// A user was deleted.
#[derive(Debug)]
pub struct UserDeleted {
    pub user_id: Id,
    pub at: DeletionDateTime,
}

impl Event for UserCreated {
    fn event_type(&self) -> (t: &'static str)
        ensures
            t@ == "user_created"@,
    {
        "user_created"
    }
}

impl AggregateEvent<User> for UserCreated {
    open spec fn applied(self, state: User) -> User {
        EventSourced::<UserCreated>::applied(state, &self)
    }

    fn apply_to(self, aggregate: &mut User) {
        EventSourced::<UserCreated>::apply(aggregate, &self);
    }
}

impl Event for UserNameUpdated {
    fn event_type(&self) -> (t: &'static str)
        ensures
            t@ == "user_name_updated"@,
    {
        "user_name_updated"
    }
}

impl AggregateEvent<User> for UserNameUpdated {
    open spec fn applied(self, state: User) -> User {
        EventSourced::<UserNameUpdated>::applied(state, &self)
    }

    fn apply_to(self, aggregate: &mut User) {
        EventSourced::<UserNameUpdated>::apply(aggregate, &self);
    }
}

impl Event for UserBecameOnline {
    fn event_type(&self) -> (t: &'static str)
        ensures
            t@ == "user_became_online"@,
    {
        "user_became_online"
    }
}

impl AggregateEvent<User> for UserBecameOnline {
    open spec fn applied(self, state: User) -> User {
        EventSourced::<UserBecameOnline>::applied(state, &self)
    }

    fn apply_to(self, aggregate: &mut User) {
        EventSourced::<UserBecameOnline>::apply(aggregate, &self);
    }
}

impl Event for UserBecameOffline {
    fn event_type(&self) -> (t: &'static str)
        ensures
            t@ == "user_became_offline"@,
    {
        "user_became_offline"
    }
}

impl AggregateEvent<User> for UserBecameOffline {
    open spec fn applied(self, state: User) -> User {
        EventSourced::<UserBecameOffline>::applied(state, &self)
    }

    fn apply_to(self, aggregate: &mut User) {
        EventSourced::<UserBecameOffline>::apply(aggregate, &self);
    }
}

impl Event for UserDeleted {
    fn event_type(&self) -> (t: &'static str)
        ensures
            t@ == "user_deleted"@,
    {
        "user_deleted"
    }
}

impl AggregateEvent<User> for UserDeleted {
    open spec fn applied(self, state: User) -> User {
        EventSourced::<UserDeleted>::applied(state, &self)
    }

    fn apply_to(self, aggregate: &mut User) {
        EventSourced::<UserDeleted>::apply(aggregate, &self);
    }
}

} // verus!
