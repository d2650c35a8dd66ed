//! Versions of an aggregate: how many events have been applied to it.

use std::cmp::Ordering;
use vstd::prelude::*;
use vstd::std_specs::cmp::PartialOrdSpecImpl;

verus! {

/// An event sequence number, starting at 1.
#[derive(Debug, Clone, Copy, Hash, PartialEq, Eq, Structural, Ord)]
pub struct EventNumber(u64);

impl EventNumber {
    #[verifier::type_invariant]
    spec fn positive(self) -> bool {
        self.0 >= 1
    }

    /// The number as a mathematical integer.
    pub closed spec fn value(self) -> nat {
        self.0 as nat
    }

    /// The event number that stands for `n`, where `1 <= n <= u64::MAX`.
    pub closed spec fn of_nat(n: nat) -> EventNumber
        recommends
            1 <= n <= u64::MAX,
    {
        EventNumber(n as u64)
    }

    /// `of_nat` and `value` undo each other on the numbers that fit.
    pub proof fn lemma_of_nat_value(n: nat)
        requires
            n <= u64::MAX,
        ensures
            Self::of_nat(n).value() == n,
    {
    }

    /// An event number is the one that stands for its value.
    pub proof fn lemma_value_of_nat(self)
        ensures
            Self::of_nat(self.value()) == self,
    {
    }

    /// The smallest event number, 1.
    pub fn min_value() -> (n: EventNumber)
        ensures
            n == Self::of_nat(1),
            n.value() == 1,
    {
        EventNumber(1)
    }

    /// The number itself; never 0.
    pub fn get(&self) -> (n: u64)
        ensures
            n == self.value(),
            n >= 1,
    {
        proof {
            use_type_invariant(self);
        }
        self.0
    }

    /// Increments the event number to the next value.
    pub fn incr(&mut self)
        requires
            old(self).value() < u64::MAX,
        ensures
            *final(self) == Self::of_nat(old(self).value() + 1),
            final(self).value() == old(self).value() + 1,
    {
        self.0 = self.0 + 1;
    }
}

impl PartialOrd for EventNumber {
    fn partial_cmp(&self, other: &EventNumber) -> (r: Option<Ordering>) {
        if self.0 < other.0 {
            Some(Ordering::Less)
        } else if self.0 == other.0 {
            Some(Ordering::Equal)
        } else {
            Some(Ordering::Greater)
        }
    }
}

impl PartialOrdSpecImpl for EventNumber {
    open spec fn obeys_partial_cmp_spec() -> bool {
        true
    }

    open spec fn partial_cmp_spec(&self, other: &EventNumber) -> Option<Ordering> {
        if self.value() < other.value() {
            Some(Ordering::Less)
        } else if self.value() == other.value() {
            Some(Ordering::Equal)
        } else {
            Some(Ordering::Greater)
        }
    }
}

/// An aggregate version.
#[derive(Debug, Clone, Copy, Hash, PartialEq, Eq, Structural, Ord)]
pub enum Version {
    /// The version of an aggregate that has not had any events applied to it.
    Initial,
    /// The version of the last event applied to the aggregate.
    Number(EventNumber),
}

impl Version {
    /// The number of events that have been applied: 0 for `Initial`, `n` for
    /// `Number(n)`.
    pub open spec fn count(self) -> nat {
        match self {
            Version::Initial => 0,
            Version::Number(n) => n.value(),
        }
    }

    /// Whether the version is one that the library's functions can produce:
    /// the number under `Number` is at least 1.
    pub open spec fn valid(self) -> bool {
        self is Number ==> self.count() >= 1
    }

    /// The version at which `n` events have been applied: `Initial` for 0,
    /// `Number(n)` otherwise.
    pub open spec fn of_count(n: nat) -> Version
        recommends
            n <= u64::MAX,
    {
        if n == 0 {
            Version::Initial
        } else {
            Version::Number(EventNumber::of_nat(n))
        }
    }

    /// `of_count(n)` is a valid version at which `n` events have been applied.
    pub proof fn lemma_of_count(n: nat)
        requires
            n <= u64::MAX,
        ensures
            Self::of_count(n).valid(),
            Self::of_count(n).count() == n,
            Self::of_count(n) is Initial <==> n == 0,
    {
        EventNumber::lemma_of_nat_value(n);
    }

    /// A valid version is determined by its count.
    pub proof fn lemma_valid_is_of_count(self)
        requires
            self.valid(),
        ensures
            self == Self::of_count(self.count()),
    {
        match self {
            Version::Initial => {},
            Version::Number(n) => {
                n.lemma_value_of_nat();
            },
        }
    }

    /// Creates a new `Version` from a number.
    ///
    /// The number `0` is `Version::Initial`; any other number is the number of
    /// the latest event applied.
    pub fn new(number: u64) -> (v: Version)
        ensures
            v == Self::of_count(number as nat),
            v.valid(),
            v.count() == number,
            number == 0 <==> v is Initial,
    {
        if number == 0 {
            Version::Initial
        } else {
            Version::Number(EventNumber(number))
        }
    }

    /// The number of events applied, as a machine integer.
    pub fn number(&self) -> (n: u64)
        ensures
            n == self.count(),
            self.valid(),
    {
        match self {
            Version::Initial => 0,
            Version::Number(n) => n.get(),
        }
    }

    /// Increments the version number to the next in sequence.
    pub fn incr(&mut self)
        requires
            old(self).count() < u64::MAX,
        ensures
            *final(self) == Self::of_count(old(self).count() + 1),
            *final(self) is Number,
            final(self).valid(),
            final(self).count() == old(self).count() + 1,
    {
        match self {
            Version::Initial => {
                *self = Version::Number(EventNumber::min_value());
            },
            Version::Number(n) => {
                n.incr();
            },
        }
    }
}

impl Default for Version {
    fn default() -> (v: Version)
        ensures
            v == Version::Initial,
    {
        Version::Initial
    }
}

impl PartialOrd for Version {
    fn partial_cmp(&self, other: &Version) -> (r: Option<Ordering>) {
        let a: u64 = self.number();
        let b: u64 = other.number();
        if a < b {
            Some(Ordering::Less)
        } else if a == b {
            Some(Ordering::Equal)
        } else {
            Some(Ordering::Greater)
        }
    }
}

impl PartialOrdSpecImpl for Version {
    open spec fn obeys_partial_cmp_spec() -> bool {
        true
    }

    open spec fn partial_cmp_spec(&self, other: &Version) -> Option<Ordering> {
        if self.count() < other.count() {
            Some(Ordering::Less)
        } else if self.count() == other.count() {
            Some(Ordering::Equal)
        } else {
            Some(Ordering::Greater)
        }
    }
}

} // verus!
