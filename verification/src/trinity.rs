//! Triples that are solved by rotating them.

use vstd::prelude::*;
use vstd::std_specs::cmp::PartialEqSpec;

verus! {

/// Three values in a ring.
#[derive(Clone, Debug, PartialEq)]
pub struct Trinity<T> {
    pub a: T,
    pub b: T,
    pub c: T,
}

impl<T> Trinity<T> {
    /// The triple one step further round: each place takes the value of the
    /// next, and the last takes that of the first.
    pub open spec fn rotated(self) -> Trinity<T> {
        Trinity { a: self.b, b: self.c, c: self.a }
    }

    /// Rotates the triple by one step, moving the values.
    pub fn rotate(&mut self)
        ensures
            *final(self) == old(self).rotated(),
    {
        std::mem::swap(&mut self.a, &mut self.b);
        std::mem::swap(&mut self.b, &mut self.c);
    }

    /// Three steps bring a triple back to where it was.
    pub proof fn lemma_three_rotations(self)
        ensures
            self.rotated().rotated().rotated() == self,
    {
    }
}

impl<T: PartialEq> Trinity<T> {
    /// Whether the two triples are equal place by place, as `==` on `T` sees
    /// it.
    pub open spec fn same_as(self, other: Trinity<T>) -> bool {
        self.a.eq_spec(&other.a) && self.b.eq_spec(&other.b) && self.c.eq_spec(&other.c)
    }

    /// Whether some rotation of the triple is the same as `expected`.
    pub open spec fn solves(self, expected: Trinity<T>) -> bool {
        ||| self.same_as(expected)
        ||| self.rotated().same_as(expected)
        ||| self.rotated().rotated().same_as(expected)
    }

    /// Compares the two triples place by place.
    pub fn is_same_as(&self, other: &Trinity<T>) -> (same: bool)
        ensures
            T::obeys_eq_spec() ==> same == self.same_as(*other),
    {
        self.a == other.a && self.b == other.b && self.c == other.c
    }
}

/// A set of triples to be solved against an expected one.
#[derive(Debug)]
pub struct Solver<T> {
    pub expected: Trinity<T>,
    pub unsolved: Vec<Trinity<T>>,
}

impl<T: PartialEq> Solver<T> {
    /// The triples of `triples` that no rotation brings to `expected`, in
    /// their order.
    pub open spec fn beyond_rotation(
        triples: Seq<Trinity<T>>,
        expected: Trinity<T>,
    ) -> Seq<Trinity<T>>
        decreases triples.len(),
    {
        if triples.len() == 0 {
            Seq::empty()
        } else {
            let before = Self::beyond_rotation(triples.drop_last(), expected);
            if triples.last().solves(expected) {
                before
            } else {
                before.push(triples.last())
            }
        }
    }

    /// Drops every triple that some rotation brings to the expected one. The
    /// others stay, in their order and as they were.
    pub fn resolve(&mut self)
        ensures
            final(self).expected == old(self).expected,
            T::obeys_eq_spec() ==> final(self).unsolved@ == Self::beyond_rotation(
                old(self).unsolved@,
                old(self).expected,
            ),
    {
        let mut pending: Vec<Trinity<T>> = Vec::new();
        std::mem::swap(&mut self.unsolved, &mut pending);
        let ghost all = pending@;
        proof {
            assert(all.take(0).len() == 0);
        }
        for triple in it: pending.into_iter()
            invariant
                it.seq() == all,
                all == old(self).unsolved@,
                self.expected == old(self).expected,
                T::obeys_eq_spec() ==> self.unsolved@ == Self::beyond_rotation(
                    all.take(it.index() as int),
                    self.expected,
                ),
        {
            let ghost given = triple;
            let mut triple = triple;
            let mut turns: u8 = 0;
            let mut solved = false;
            while turns < 3 && !solved
                invariant
                    turns <= 3,
                    self.expected == old(self).expected,
                    turns == 0 ==> triple == given,
                    turns == 1 ==> triple == given.rotated(),
                    turns == 2 ==> triple == given.rotated().rotated(),
                    turns == 3 ==> triple == given,
                    T::obeys_eq_spec() && turns >= 1 ==> !given.same_as(self.expected),
                    T::obeys_eq_spec() && turns >= 2 ==> !given.rotated().same_as(self.expected),
                    T::obeys_eq_spec() && turns >= 3 ==> !given.rotated().rotated().same_as(
                        self.expected,
                    ),
                    T::obeys_eq_spec() && solved ==> given.solves(self.expected),
                decreases 3 - turns + if solved { 0int } else { 1int },
            {
                if triple.is_same_as(&self.expected) {
                    solved = true;
                } else {
                    triple.rotate();
                    turns = turns + 1;
                }
            }
            proof {
                let next = all.take(it.index() + 1);
                assert(next.drop_last() == all.take(it.index() as int));
                assert(next.last() == given);
            }
            if !solved {
                self.unsolved.push(triple);
            }
        }
        proof {
            assert(all.take(all.len() as int) == all);
        }
    }
}

} // verus!
