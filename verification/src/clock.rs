//! Points in time, and the wall clock.

use vstd::prelude::*;

verus! {

/// A point in time: whole seconds since the Unix epoch, and the nanoseconds
/// past that second.
#[derive(Clone, Copy, Debug, PartialEq, Eq, Structural)]
pub struct Timestamp {
    pub secs: i64,
    pub nanos: u32,
}

impl Timestamp {
    /// Milliseconds since the Unix epoch.
    pub open spec fn millis(&self) -> int {
        self.secs * 1000 + self.nanos / 1_000_000
    }

    /// Milliseconds since the Unix epoch.
    pub fn timestamp_millis(&self) -> (ms: i128)
        ensures
            ms == self.millis(),
    {
        (self.secs as i128) * 1000 + (self.nanos / 1_000_000) as i128
    }
}

/// `chrono::Utc::now`, with `DateTime::timestamp` and
/// `DateTime::timestamp_subsec_nanos` to read it: the current time. Nothing
/// is claimed of the reading.
#[verifier::external_body]
pub(crate) fn utc_now() -> (now: Timestamp) {
    let now = chrono::Utc::now();
    Timestamp { secs: now.timestamp(), nanos: now.timestamp_subsec_nanos() }
}

} // verus!
