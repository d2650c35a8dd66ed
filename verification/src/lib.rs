//! Event-sourced aggregates: a state is rebuilt by replaying an ordered
//! sequence of events, and its version counts the events replayed.

pub mod aggregate;
pub mod birthdate;
pub mod entity;
pub mod error;
pub mod event;
pub mod format;
pub mod hydrated;
pub mod sourced;
pub mod time;
pub mod trinity;
pub mod user;
pub mod version;
