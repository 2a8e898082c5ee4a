//! Instants on the UTC time line, and the system clock.

use vstd::prelude::*;

verus! {

/// An instant: whole seconds since the Unix epoch and the nanoseconds past
/// that second.
#[derive(Clone, Copy, Debug, PartialEq, Eq, Structural, Hash)]
pub struct Timestamp {
    pub seconds: i64,
    pub nanos: u32,
}

impl Timestamp {
    /// `self` is `other` or earlier.
    pub open spec fn not_after(self, other: Timestamp) -> bool {
        self.seconds < other.seconds || (self.seconds == other.seconds && self.nanos
            <= other.nanos)
    }

    /// `self` is strictly earlier than `other`.
    pub open spec fn before(self, other: Timestamp) -> bool {
        self.seconds < other.seconds || (self.seconds == other.seconds && self.nanos
            < other.nanos)
    }

    /// The later of the two instants.
    pub open spec fn latest(self, other: Timestamp) -> Timestamp {
        if self.not_after(other) {
            other
        } else {
            self
        }
    }

    /// Whether `self` is `other` or earlier.
    pub fn is_not_after(&self, other: &Timestamp) -> (answer: bool)
        ensures
            answer == self.not_after(*other),
    {
        self.seconds < other.seconds || (self.seconds == other.seconds && self.nanos
            <= other.nanos)
    }

    /// Whether `self` is strictly earlier than `other`.
    pub fn is_before(&self, other: &Timestamp) -> (answer: bool)
        ensures
            answer == self.before(*other),
    {
        self.seconds < other.seconds || (self.seconds == other.seconds && self.nanos
            < other.nanos)
    }

    /// The later of the two instants.
    pub fn later_of(self, other: Timestamp) -> (later: Timestamp)
        ensures
            later == self.latest(other),
    {
        if self.is_not_after(&other) {
            other
        } else {
            self
        }
    }

    /// Reads the system clock through `chrono::Utc::now` and takes the
    /// reading apart with `DateTime::timestamp` and
    /// `DateTime::timestamp_subsec_nanos`. Nothing is claimed of the reading:
    /// a clock may stand still or be set back. `chrono` gives up on a clock
    /// that stands before 1970.
    #[verifier::external_body]
    pub(crate) fn now() -> Timestamp {
        let reading = chrono::Utc::now();
        Timestamp { seconds: reading.timestamp(), nanos: reading.timestamp_subsec_nanos() }
    }
}

} // verus!
