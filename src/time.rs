use vstd::prelude::*;

verus! {

/// Nanoseconds in one second.
pub const NANOS_PER_SEC: i128 = 1_000_000_000;

/// An instant in UTC: whole seconds since the Unix epoch, plus nanoseconds.
///
/// The instant denoted is `secs + nanos / 10^9` seconds after the epoch, so a
/// value with `nanos` of a second or more still denotes a single instant.
#[derive(Clone, Copy, Debug, PartialEq, Eq, Structural)]
pub struct Timestamp {
    pub secs: i64,
    pub nanos: u32,
}

/// A signed span of time: whole seconds plus nanoseconds, denoting
/// `secs + nanos / 10^9` seconds (a negative span has negative `secs`).
#[derive(Clone, Copy, Debug, PartialEq, Eq, Structural)]
pub struct TimeDelta {
    pub secs: i64,
    pub nanos: u32,
}

impl Timestamp {
    /// The instant as nanoseconds since the Unix epoch.
    pub open spec fn total_nanos(self) -> int {
        self.secs as int * 1_000_000_000 + self.nanos as int
    }

    /// The instant as nanoseconds since the Unix epoch.
    pub fn as_nanos(&self) -> (r: i128)
        ensures
            r == self.total_nanos(),
    {
        self.secs as i128 * NANOS_PER_SEC + self.nanos as i128
    }

    /// Whether an instant due at `self` is, seen at `now`, due in at most
    /// `limit`: `self - now <= limit`, which holds of every overdue instant
    /// when `limit` is not negative.
    pub open spec fn spec_due_within(self, now: Timestamp, limit: TimeDelta) -> bool {
        self.total_nanos() - now.total_nanos() <= limit.total_nanos()
    }

    /// Whether an instant due at `self` is, seen at `now`, due in at most `limit`.
    pub fn due_within(&self, now: &Timestamp, limit: &TimeDelta) -> (r: bool)
        ensures
            r == self.spec_due_within(*now, *limit),
    {
        self.as_nanos() - now.as_nanos() <= limit.as_nanos()
    }
}

impl TimeDelta {
    /// The span in nanoseconds.
    pub open spec fn total_nanos(self) -> int {
        self.secs as int * 1_000_000_000 + self.nanos as int
    }

    /// The span in nanoseconds.
    pub fn as_nanos(&self) -> (r: i128)
        ensures
            r == self.total_nanos(),
    {
        self.secs as i128 * NANOS_PER_SEC + self.nanos as i128
    }
}

/// Relies on chrono::Utc::now for the current time, read out through
/// DateTime::timestamp and DateTime::timestamp_subsec_nanos. Nothing is
/// promised of the value: it depends on the clock.
#[verifier::external_body]
pub(crate) fn utc_now() -> (r: Timestamp) {
    let t = chrono::Utc::now();
    Timestamp { secs: t.timestamp(), nanos: t.timestamp_subsec_nanos() }
}

} // verus!
