//! What a projected state and its events must provide.

use vstd::prelude::*;

verus! {

/// A projected state built from a series of events.
pub trait Aggregate: Default + Sized {
    /// A static string representing the type of the aggregate.
    fn aggregate_type() -> &'static str;

    /// Consumes the event, applying its effects to the aggregate.
    fn apply<E: AggregateEvent<Self>>(&mut self, event: E)
        ensures
            *final(self) == event.applied(*old(self)),
    {
        event.apply_to(self);
    }
}

/// An identifier for an aggregate.
pub trait AggregateId<A: Aggregate> {
    /// Gets the stringified aggregate identifier.
    fn as_str(&self) -> &str;
}

/// A thing that happened.
pub trait Event {
    /// A static description of the event.
    fn event_type(&self) -> &'static str;
}

/// An event that can be applied to an aggregate of type `A`.
pub trait AggregateEvent<A>: Event + Sized {
    /// The state that results from applying this event to `state`.
    spec fn applied(self, state: A) -> A;

    /// Consumes the event, applying its effects to the aggregate.
    fn apply_to(self, aggregate: &mut A)
        ensures
            *final(aggregate) == self.applied(*old(aggregate)),
    ;
}

} // verus!
