//! Points in time, as the records of this crate carry them.

use vstd::prelude::*;

verus! {

/// A point in time: whole seconds since the Unix epoch and the nanoseconds
/// within that second.
#[derive(Clone, Copy, Debug, PartialEq, Eq, Structural)]
pub struct Timestamp {
    pub seconds: i64,
    pub nanoseconds: u32,
}

impl Timestamp {
    /// The timestamp made of exactly these two numbers.
    pub fn new(seconds: i64, nanoseconds: u32) -> (ts: Timestamp)
        ensures
            ts.seconds == seconds,
            ts.nanoseconds == nanoseconds,
    {
        Timestamp { seconds, nanoseconds }
    }

    /// Seconds since the Unix epoch.
    pub fn seconds(&self) -> (s: i64)
        ensures
            s == self.seconds,
    {
        self.seconds
    }

    /// Nanoseconds since the last full second.
    pub fn nanoseconds(&self) -> (n: u32)
        ensures
            n == self.nanoseconds,
    {
        self.nanoseconds
    }

    /// Whether `self` lies strictly before `other`.
    pub open spec fn spec_is_before(&self, other: &Timestamp) -> bool {
        self.seconds < other.seconds || (self.seconds == other.seconds && self.nanoseconds
            < other.nanoseconds)
    }

    /// Whether `self` lies strictly before `other`.
    pub fn is_before(&self, other: &Timestamp) -> (b: bool)
        ensures
            b == self.spec_is_before(other),
    {
        self.seconds < other.seconds || (self.seconds == other.seconds && self.nanoseconds
            < other.nanoseconds)
    }
}

/// Reads the clock through `chrono::Utc::now` and keeps the seconds and
/// nanoseconds of the instant it reports. Nothing is claimed about the value:
/// it is whatever the system clock says. `chrono` itself gives up if the
/// system clock is set before 1970.
#[verifier::external_body]
pub(crate) fn now() -> (ts: Timestamp) {
    let instant = chrono::Utc::now();
    Timestamp { seconds: instant.timestamp(), nanoseconds: instant.timestamp_subsec_nanos() }
}

} // verus!
