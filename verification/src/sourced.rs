//! States that absorb events of one kind.

use vstd::prelude::*;

verus! {

/// A state that events of type `Ev` can be applied to.
///
/// Applying is a pure change of the state: what comes out depends on the
/// state before and on the event, and on nothing else.
pub trait EventSourced<Ev: ?Sized>: Sized {
    /// The state after `event` has been applied to `self`.
    spec fn applied(self, event: &Ev) -> Self;

    /// Applies `event` to the state.
    fn apply(&mut self, event: &Ev)
        ensures
            *final(self) == old(self).applied(event),
    ;
}

} // verus!
