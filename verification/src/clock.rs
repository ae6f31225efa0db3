//! Points in time, as the index records them.

use vstd::prelude::*;

verus! {

/// Nanoseconds in one second.
pub const NANOS_PER_SEC: i128 = 1_000_000_000;

/// A point in time on the UTC scale: whole seconds since 1970-01-01T00:00:00Z
/// and the nanoseconds that follow them.
///
/// `nanos` is below a second as a rule. Where it is not (a clock may write a
/// leap second so), the nanoseconds count as they stand.
#[derive(Clone, Copy, Debug, PartialEq, Eq, Structural)]
pub struct Timestamp {
    pub secs: i64,
    pub nanos: u32,
}

impl Timestamp {
    /// The instant as one number: nanoseconds since the epoch.
    pub open spec fn instant(self) -> int {
        self.secs * NANOS_PER_SEC + self.nanos
    }

    /// The timestamp `nanos` nanoseconds after second `secs`.
    pub fn new(secs: i64, nanos: u32) -> (t: Timestamp)
        ensures
            t == (Timestamp { secs, nanos }),
    {
        Timestamp { secs, nanos }
    }

    /// Nanoseconds from `earlier` to `self`; negative when `self` comes first.
    pub fn nanos_since(&self, earlier: &Timestamp) -> (d: i128)
        ensures
            d == self.instant() - earlier.instant(),
    {
        let whole: i128 = (self.secs as i128 - earlier.secs as i128) * NANOS_PER_SEC;
        whole + (self.nanos as i128 - earlier.nanos as i128)
    }
}

/// Reads the system clock through `chrono::Utc::now`.
///
/// Nothing is claimed of the value: it is whatever the clock said. The call
/// panics on a machine whose clock reads earlier than 1970.
#[verifier::external_body]
pub(crate) fn wall_clock() -> Timestamp {
    let now = chrono::Utc::now();
    Timestamp { secs: now.timestamp(), nanos: now.timestamp_subsec_nanos() }
}

} // verus!
