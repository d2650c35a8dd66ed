//! An identifier bound to a hydrated aggregate.

use crate::aggregate::{Aggregate, AggregateId};
use crate::hydrated::HydratedAggregate;
use std::borrow::{Borrow, BorrowMut};
use vstd::prelude::*;
use vstd::std_specs::convert::FromSpecImpl;

verus! {

/// An identified, specific instance of a hydrated aggregate.
#[derive(Copy, Debug, Hash, PartialEq, Eq)]
pub struct Entity<I: AggregateId<A>, A: Aggregate> {
    id: I,
    aggregate: HydratedAggregate<A>,
}

impl<I: AggregateId<A>, A: Aggregate> Entity<I, A> {
    /// The identifier, in contracts.
    pub closed spec fn spec_id(&self) -> &I {
        &self.id
    }

    /// The aggregate, in contracts.
    pub closed spec fn spec_aggregate(&self) -> &HydratedAggregate<A> {
        &self.aggregate
    }

    /// Creates a new entity from an identifier and an associated hydrated
    /// aggregate.
    pub fn new(id: I, aggregate: HydratedAggregate<A>) -> (e: Self)
        ensures
            *e.id() == id,
            *e.aggregate() == aggregate,
    {
        Entity { id, aggregate }
    }

    /// The entity's identifier.
    #[verifier::when_used_as_spec(spec_id)]
    pub fn id(&self) -> (i: &I)
        ensures
            i == self.id(),
    {
        &self.id
    }

    /// An immutable reference to the underlying aggregate.
    #[verifier::when_used_as_spec(spec_aggregate)]
    pub fn aggregate(&self) -> (a: &HydratedAggregate<A>)
        ensures
            a == self.aggregate(),
    {
        &self.aggregate
    }

    /// A mutable reference to the underlying aggregate. Whatever is done
    /// through it, the identifier stays the same.
    pub fn aggregate_mut(&mut self) -> (a: &mut HydratedAggregate<A>)
        ensures
            *a == *old(self).aggregate(),
            *final(self).aggregate() == *final(a),
            *final(self).id() == *old(self).id(),
    {
        &mut self.aggregate
    }
}

impl<I: AggregateId<A> + Clone, A: Aggregate + Clone> Clone for Entity<I, A> {
    /// A copy that holds a clone of the identifier and of the aggregate.
    fn clone(&self) -> (c: Self)
        ensures
            call_ensures(I::clone, (self.id(),), *c.id()),
            call_ensures(HydratedAggregate::<A>::clone, (self.aggregate(),), *c.aggregate()),
    {
        Entity { id: self.id.clone(), aggregate: self.aggregate.clone() }
    }
}

impl<I: AggregateId<A> + Default, A: Aggregate> Default for Entity<I, A> {
    /// A default identifier bound to a fresh aggregate.
    fn default() -> (e: Self)
        ensures
            call_ensures(I::default, (), *e.id()),
            e.aggregate().wf(),
            e.aggregate().is_fresh(),
    {
        Entity { id: I::default(), aggregate: HydratedAggregate::default() }
    }
}

impl<I: AggregateId<A>, A: Aggregate> AsRef<HydratedAggregate<A>> for Entity<I, A> {
    fn as_ref(&self) -> (a: &HydratedAggregate<A>)
        ensures
            a == self.aggregate(),
    {
        &self.aggregate
    }
}

impl<I: AggregateId<A>, A: Aggregate> AsMut<HydratedAggregate<A>> for Entity<I, A> {
    fn as_mut(&mut self) -> (a: &mut HydratedAggregate<A>)
        ensures
            *a == *old(self).aggregate(),
            *final(self).aggregate() == *final(a),
            *final(self).id() == *old(self).id(),
    {
        &mut self.aggregate
    }
}

impl<I: AggregateId<A>, A: Aggregate> Borrow<HydratedAggregate<A>> for Entity<I, A> {
    fn borrow(&self) -> &HydratedAggregate<A>
        returns
            self.aggregate(),
    {
        &self.aggregate
    }
}

impl<I: AggregateId<A>, A: Aggregate> Borrow<A> for Entity<I, A> {
    fn borrow(&self) -> &A
        returns
            self.aggregate().state(),
    {
        self.aggregate.state()
    }
}

impl<I: AggregateId<A>, A: Aggregate> BorrowMut<HydratedAggregate<A>> for Entity<I, A> {
    fn borrow_mut(&mut self) -> (a: &mut HydratedAggregate<A>)
        ensures
            ({
                // `T: BorrowMut<T>` holds of every type, so the result's type
                // is spelled out for the clause.
                let lent: &mut HydratedAggregate<A> = a;
                *lent == *old(self).aggregate()
            }),
            *final(self).aggregate() == *final(a),
            *final(self).id() == *old(self).id(),
    {
        &mut self.aggregate
    }
}

impl<I: AggregateId<A>, A: Aggregate> From<Entity<I, A>> for HydratedAggregate<A> {
    fn from(entity: Entity<I, A>) -> (a: Self) {
        entity.aggregate
    }
}

impl<I: AggregateId<A>, A: Aggregate> FromSpecImpl<Entity<I, A>> for HydratedAggregate<A> {
    open spec fn obeys_from_spec() -> bool {
        true
    }

    open spec fn from_spec(entity: Entity<I, A>) -> Self {
        *entity.aggregate()
    }
}

} // verus!
