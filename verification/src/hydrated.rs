//! An aggregate together with its version and the version of its last snapshot.

use crate::aggregate::{Aggregate, AggregateEvent};
use crate::version::Version;
use std::borrow::Borrow;
use vstd::prelude::*;

verus! {

/// The state reached from `state` by applying `events` in order, first to last.
pub open spec fn replay<A, E: AggregateEvent<A>>(state: A, events: Seq<E>) -> A
    decreases events.len(),
{
    if events.len() == 0 {
        state
    } else {
        events.last().applied(replay(state, events.drop_last()))
    }
}

/// Replaying no event leaves the state as it is.
pub proof fn lemma_replay_nothing<A, E: AggregateEvent<A>>(state: A)
    ensures
        replay(state, Seq::<E>::empty()) == state,
{
}

/// Replaying one event applies it.
pub proof fn lemma_replay_one<A, E: AggregateEvent<A>>(state: A, event: E)
    ensures
        replay(state, seq![event]) == event.applied(state),
{
    let one = seq![event];
    assert(one.len() == 1);
    assert(one.last() == event);
    assert(one.drop_last().len() == 0);
    assert(replay(state, one.drop_last()) == state);
}

/// Replaying `first` and then `second` is replaying the two in one run: a
/// replay that stops early leaves a state from which the rest can be replayed.
pub proof fn lemma_replay_in_two_runs<A, E: AggregateEvent<A>>(
    state: A,
    first: Seq<E>,
    second: Seq<E>,
)
    ensures
        replay(state, first + second) == replay(replay(state, first), second),
    decreases second.len(),
{
    if second.len() == 0 {
        assert(first + second =~= first);
    } else {
        assert((first + second).drop_last() =~= first + second.drop_last());
        assert((first + second).last() == second.last());
        lemma_replay_in_two_runs(state, first, second.drop_last());
    }
}

/// Why a snapshot version was not recorded.
#[derive(Debug, Clone, Copy, PartialEq, Eq, Structural)]
pub enum SnapshotError {
    /// The snapshot version is ahead of the aggregate's own version.
    AheadOfAggregate,
}

/// An aggregate that has been loaded from a source, which keeps track of the
/// version of its last snapshot and the current version of the aggregate.
#[derive(Copy, Debug, Hash, PartialEq, Eq)]
pub struct HydratedAggregate<A: Aggregate> {
    version: Version,
    snapshot_version: Option<Version>,
    state: A,
}

impl<A: Aggregate> HydratedAggregate<A> {
    /// The invariant that every function here keeps: the version and the
    /// snapshot version are valid, and the snapshot is not ahead of the
    /// aggregate.
    pub closed spec fn wf(&self) -> bool {
        &&& self.version.valid()
        &&& self.snapshot_version matches Some(s) ==> s.valid() && s.count()
            <= self.version.count()
    }

    /// The current version, in contracts.
    pub closed spec fn spec_version(&self) -> Version {
        self.version
    }

    /// The version of the last snapshot, in contracts.
    pub closed spec fn spec_snapshot_version(&self) -> Option<Version> {
        self.snapshot_version
    }

    /// The state, in contracts.
    pub closed spec fn spec_state(&self) -> &A {
        &self.state
    }

    /// Whether this aggregate is `before` after `events` have been applied to
    /// it in order: the version has advanced by one per event, the snapshot
    /// version is the same, and the state is the replay of the events.
    pub open spec fn is_replay_of<E: AggregateEvent<A>>(
        &self,
        before: &Self,
        events: Seq<E>,
    ) -> bool {
        &&& self.version() == Version::of_count(before.version().count() + events.len())
        &&& self.snapshot_version() == before.snapshot_version()
        &&& *self.state() == replay(*before.state(), events)
    }

    /// Whether nothing has happened to this aggregate yet: no event has been
    /// applied, there is no snapshot, and the state is a default state.
    pub open spec fn is_fresh(&self) -> bool {
        &&& self.version() == Version::Initial
        &&& self.snapshot_version() is None
        &&& call_ensures(A::default, (), *self.state())
    }

    /// The current version of the aggregate.
    #[verifier::when_used_as_spec(spec_version)]
    pub fn version(&self) -> (v: Version)
        ensures
            v == self.version(),
            self.wf() ==> v.valid(),
    {
        self.version
    }

    /// The version of the snapshot from which the aggregate was loaded.
    #[verifier::when_used_as_spec(spec_snapshot_version)]
    pub fn snapshot_version(&self) -> (s: Option<Version>)
        ensures
            s == self.snapshot_version(),
            self.wf() ==> (s matches Some(v) ==> v.valid() && v.count()
                <= self.version().count()),
    {
        self.snapshot_version
    }

    /// The actual aggregate.
    #[verifier::when_used_as_spec(spec_state)]
    pub fn state(&self) -> (s: &A)
        ensures
            s == self.state(),
    {
        &self.state
    }
}

impl<A: Aggregate> HydratedAggregate<A> {
    /// Records that the state corresponds to a snapshot taken at
    /// `new_snapshot_version`. A snapshot version ahead of the aggregate's own
    /// version is rejected, and the aggregate is left as it was.
    pub fn set_snapshot_version(&mut self, new_snapshot_version: Version) -> (r: Result<
        (),
        SnapshotError,
    >)
        requires
            old(self).wf(),
        ensures
            final(self).wf(),
            new_snapshot_version.count() <= old(self).version().count() ==> r is Ok,
            r is Ok ==> {
                &&& new_snapshot_version.count() <= old(self).version().count()
                &&& final(self).snapshot_version() == Some(new_snapshot_version)
                &&& final(self).version() == old(self).version()
                &&& final(self).state() == old(self).state()
            },
            r is Err ==> r == Err::<(), SnapshotError>(SnapshotError::AheadOfAggregate)
                && *final(self) == *old(self),
    {
        if new_snapshot_version.number() <= self.version.number() {
            self.snapshot_version = Some(new_snapshot_version);
            Ok(())
        } else {
            Err(SnapshotError::AheadOfAggregate)
        }
    }

    /// Applies a sequence of events to the aggregate, in the order given.
    pub fn apply_events<E: AggregateEvent<A>>(&mut self, events: Vec<E>)
        requires
            old(self).wf(),
            old(self).version().count() + events.len() <= u64::MAX,
        ensures
            final(self).wf(),
            final(self).is_replay_of(old(self), events@),
    {
        let ghost all = events@;
        proof {
            self.version().lemma_valid_is_of_count();
            assert(all.take(0).len() == 0);
        }
        for event in it: events.into_iter()
            invariant
                it.seq() == all,
                self.wf(),
                old(self).version().count() + all.len() <= u64::MAX,
                self.is_replay_of(old(self), all.take(it.index() as int)),
        {
            proof {
                let done = all.take(it.index() as int);
                let next = all.take(it.index() + 1);
                Version::lemma_of_count(old(self).version().count() + done.len());
                assert(next.drop_last() == done);
                assert(next.last() == event);
            }
            self.apply(event);
        }
        proof {
            assert(all.take(all.len() as int) == all);
        }
    }

    /// Applies a single event to the aggregate, keeping track of the new
    /// aggregate version.
    pub fn apply<E: AggregateEvent<A>>(&mut self, event: E)
        requires
            old(self).wf(),
            old(self).version().count() < u64::MAX,
        ensures
            final(self).wf(),
            final(self).version() == Version::of_count(old(self).version().count() + 1),
            final(self).version().count() == old(self).version().count() + 1,
            final(self).snapshot_version() == old(self).snapshot_version(),
            *final(self).state() == event.applied(*old(self).state()),
            final(self).is_replay_of(old(self), seq![event]),
    {
        proof {
            lemma_replay_one(self.state, event);
        }
        self.state.apply(event);
        self.version.incr();
    }

    /// Replaying N events on a fresh aggregate leaves it at version N:
    /// `Initial` where N is 0, `Number(N)` otherwise.
    pub proof fn lemma_fresh_replay_counts_events<E: AggregateEvent<A>>(
        fresh: Self,
        after: Self,
        events: Seq<E>,
    )
        requires
            fresh.is_fresh(),
            after.is_replay_of(&fresh, events),
            events.len() <= u64::MAX,
        ensures
            after.version() == Version::of_count(events.len()),
            after.version().count() == events.len(),
            events.len() == 0 ==> after.version() == Version::Initial,
            events.len() > 0 ==> after.version() is Number,
    {
        Version::lemma_of_count(events.len());
    }

    /// Applying no event changes nothing: version, snapshot version and state
    /// stay as they were. On a fresh aggregate the state is then still a
    /// default state.
    pub proof fn lemma_replay_of_nothing<E: AggregateEvent<A>>(before: Self, after: Self)
        requires
            before.version().valid(),
            after.is_replay_of(&before, Seq::<E>::empty()),
        ensures
            after.version() == before.version(),
            after.snapshot_version() == before.snapshot_version(),
            after.state() == before.state(),
            before.is_fresh() ==> after.is_fresh(),
    {
        before.version().lemma_valid_is_of_count();
    }

    /// Applying `first` and then `second` is applying the two in one run.
    pub proof fn lemma_two_runs_make_one<E: AggregateEvent<A>>(
        before: Self,
        between: Self,
        after: Self,
        first: Seq<E>,
        second: Seq<E>,
    )
        requires
            between.is_replay_of(&before, first),
            after.is_replay_of(&between, second),
            before.version().count() + first.len() <= u64::MAX,
        ensures
            after.is_replay_of(&before, first + second),
    {
        Version::lemma_of_count(before.version().count() + first.len());
        lemma_replay_in_two_runs(*before.state(), first, second);
    }

    /// Applying an event is not idempotent: applying the same event a second
    /// time advances the version a second time and applies the event to the
    /// state a second time, so the aggregate differs from the one that saw the
    /// event once.
    pub proof fn lemma_apply_twice_is_not_apply_once<E: AggregateEvent<A>>(
        before: Self,
        once: Self,
        twice: Self,
        event: E,
    )
        requires
            once.is_replay_of(&before, seq![event]),
            twice.is_replay_of(&once, seq![event]),
            before.version().count() + 2 <= u64::MAX,
        ensures
            once.version().count() == before.version().count() + 1,
            twice.version().count() == before.version().count() + 2,
            *twice.state() == event.applied(event.applied(*before.state())),
            twice.version() != once.version(),
            twice != once,
    {
        Version::lemma_of_count(before.version().count() + 1);
        Version::lemma_of_count(before.version().count() + 2);
        lemma_replay_one(*before.state(), event);
        lemma_replay_one(*once.state(), event);
    }
}

impl<A: Aggregate> Default for HydratedAggregate<A> {
    /// A fresh aggregate: no event applied, no snapshot, a default state.
    fn default() -> (h: Self)
        ensures
            h.wf(),
            h.is_fresh(),
    {
        HydratedAggregate { version: Version::Initial, snapshot_version: None, state: A::default() }
    }
}

impl<A: Aggregate + Clone> Clone for HydratedAggregate<A> {
    /// A copy with the same versions, and with a clone of the state.
    fn clone(&self) -> (c: Self)
        ensures
            c.wf() == self.wf(),
            c.version() == self.version(),
            c.snapshot_version() == self.snapshot_version(),
            call_ensures(A::clone, (self.state(),), *c.state()),
    {
        HydratedAggregate {
            version: self.version,
            snapshot_version: self.snapshot_version,
            state: self.state.clone(),
        }
    }
}

impl<A: Aggregate> AsRef<A> for HydratedAggregate<A> {
    fn as_ref(&self) -> (s: &A)
        ensures
            s == self.state(),
    {
        &self.state
    }
}

impl<A: Aggregate> Borrow<A> for HydratedAggregate<A> {
    fn borrow(&self) -> &A
        returns
            self.state(),
    {
        &self.state
    }
}

} // verus!
