use vstd::prelude::*;

verus! {

/// Number of nanoseconds in one second.
pub const NANOS_PER_SEC: u32 = 1_000_000_000;

/// A point in wall-clock time, as the span elapsed since the UNIX epoch.
#[derive(Debug, Clone, Copy, PartialEq, Eq, Structural)]
pub struct Timestamp {
    pub secs: u64,
    pub nanos: u32,
}

/// A span of time between two timestamps.
#[derive(Debug, Clone, Copy, PartialEq, Eq, Structural)]
pub struct Interval {
    pub secs: u64,
    pub nanos: u32,
}

impl Timestamp {
    /// The sub-second part is below one second.
    pub open spec fn wf(self) -> bool {
        self.nanos < NANOS_PER_SEC
    }

    /// The timestamp in nanoseconds since the epoch.
    pub open spec fn total_nanos(self) -> int {
        self.secs * 1_000_000_000 + self.nanos
    }

    /// The interval from `earlier` to `self`; `earlier` must not be later than `self`.
    pub fn duration_since(&self, earlier: &Timestamp) -> (span: Interval)
        requires
            self.wf(),
            earlier.wf(),
            earlier.total_nanos() <= self.total_nanos(),
        ensures
            span.wf(),
            span.total_nanos() == self.total_nanos() - earlier.total_nanos(),
    {
        if self.nanos >= earlier.nanos {
            Interval { secs: self.secs - earlier.secs, nanos: self.nanos - earlier.nanos }
        } else {
            Interval {
                secs: self.secs - earlier.secs - 1,
                nanos: NANOS_PER_SEC - earlier.nanos + self.nanos,
            }
        }
    }
}

impl Interval {
    /// The sub-second part is below one second.
    pub open spec fn wf(self) -> bool {
        self.nanos < NANOS_PER_SEC
    }

    /// The span in nanoseconds.
    pub open spec fn total_nanos(self) -> int {
        self.secs * 1_000_000_000 + self.nanos
    }

    /// The empty span.
    pub fn zero() -> (span: Interval)
        ensures
            span.wf(),
            span.total_nanos() == 0,
    {
        Interval { secs: 0, nanos: 0 }
    }
}

} // verus!
