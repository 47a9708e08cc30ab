//! Instants on the UTC time line and the order between them.

use vstd::prelude::*;

verus! {

/// An instant, as whole seconds since 1970-01-01T00:00:00Z and the
/// nanoseconds past that second.
#[derive(Clone, Copy, Debug, PartialEq, Eq, Structural)]
pub struct Timestamp {
    pub secs: i64,
    pub nanos: u32,
}

impl Timestamp {
    /// `self` lies strictly earlier than `other`.
    pub open spec fn before(self, other: Timestamp) -> bool {
        self.secs < other.secs || (self.secs == other.secs && self.nanos < other.nanos)
    }

    pub fn new(secs: i64, nanos: u32) -> (t: Timestamp)
        ensures
            t.secs == secs,
            t.nanos == nanos,
    {
        Timestamp { secs, nanos }
    }

    /// Decides `before`.
    pub fn is_before(&self, other: &Timestamp) -> (r: bool)
        ensures
            r == self.before(*other),
    {
        self.secs < other.secs || (self.secs == other.secs && self.nanos < other.nanos)
    }
}

/// Reads the system clock with `std::time::SystemTime::now` and takes the
/// instant over through chrono's `From<SystemTime> for DateTime<Utc>`, which
/// takes an instant before 1970 as well as one after it.
///
/// Nothing is claimed of the instant that comes back: it depends on the
/// machine's clock. chrono holds the instants within some 262,000 years of
/// 1970, and takes no clock that stands beyond them.
#[verifier::external_body]
pub(crate) fn utc_now() -> Timestamp {
    let now = chrono::DateTime::<chrono::Utc>::from(std::time::SystemTime::now());
    Timestamp { secs: now.timestamp(), nanos: now.timestamp_subsec_nanos() }
}

} // verus!
