//! The immutable record of one completed work interval.

use vstd::prelude::*;

verus! {

/// Exclusive upper bound on the timestamps the library handles: the first
/// instant of year 10000, in UTC seconds since the Unix epoch. Within
/// `[0, TS_MAX)` a timestamp formats as fixed-width RFC3339 text, so the
/// stored text orders exactly as the underlying seconds do.
pub const TS_MAX: i64 = 253402300800;

/// A UTC timestamp in whole seconds since the Unix epoch, within the range
/// the session store can format as fixed-width RFC3339 text.
pub open spec fn valid_timestamp(t: int) -> bool {
    0 <= t < TS_MAX
}

/// One completed work interval: when it began, when it reached zero
/// remaining time, and the whole seconds between the two.
#[derive(Debug, Clone, Copy, PartialEq, Eq, Structural)]
pub struct WorkSession {
    /// UTC seconds since the Unix epoch at which the work interval began.
    pub started_at: i64,
    /// UTC seconds since the Unix epoch at which the work interval ended.
    pub completed_at: i64,
    /// `completed_at - started_at`, in whole seconds.
    pub duration_seconds: i64,
}

impl WorkSession {
    /// Both instants lie in the storable range and the duration is exactly
    /// their difference.
    pub open spec fn wf(self) -> bool {
        &&& valid_timestamp(self.started_at as int)
        &&& valid_timestamp(self.completed_at as int)
        &&& self.duration_seconds == self.completed_at - self.started_at
    }

    pub fn new(started_at: i64, completed_at: i64) -> (s: Self)
        requires
            valid_timestamp(started_at as int),
            valid_timestamp(completed_at as int),
        ensures
            s == (WorkSession {
                started_at,
                completed_at,
                duration_seconds: (completed_at - started_at) as i64,
            }),
            s.wf(),
    {
        let duration_seconds = completed_at - started_at;
        WorkSession { started_at, completed_at, duration_seconds }
    }
}

} // verus!
