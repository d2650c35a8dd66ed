//! Points in time, as the events carry them.

use vstd::prelude::*;

verus! {

/// A point in time: nanoseconds since the Unix epoch.
///
/// The library never reads a clock and never computes with a timestamp: an
/// event brings its time along, and the state keeps it.
#[derive(Clone, Copy, Debug, Hash, PartialEq, Eq, Structural)]
pub struct Timestamp(pub u64);

impl Default for Timestamp {
    /// The Unix epoch itself.
    fn default() -> (t: Timestamp)
        ensures
            t == Timestamp(0),
    {
        Timestamp(0)
    }
}

} // verus!
