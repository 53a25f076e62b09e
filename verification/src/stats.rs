use vstd::prelude::*;

use crate::time::{Interval, Timestamp};

verus! {

/// Traffic counters of a connection: frames and bytes carried so far, when the
/// connection was opened, when the last frame passed, and the span between the last
/// two frames (from which frame rate, bit rate and latency are read).
#[derive(Debug, Clone, Copy, PartialEq, Eq, Structural)]
pub struct ConnectionStats {
    pub frames: u64,
    pub bytes: u64,
    pub last_interval: Interval,
    pub start_time: Timestamp,
    pub last_frame_time: Timestamp,
}

impl ConnectionStats {
    /// Well-formed time values, and the last frame not before the start.
    pub open spec fn wf(self) -> bool {
        &&& self.last_interval.wf()
        &&& self.start_time.wf()
        &&& self.last_frame_time.wf()
        &&& self.start_time.total_nanos() <= self.last_frame_time.total_nanos()
    }

    /// The counters of a connection opened at `now`.
    pub open spec fn fresh(now: Timestamp) -> ConnectionStats {
        ConnectionStats {
            frames: 0,
            bytes: 0,
            last_interval: Interval { secs: 0, nanos: 0 },
            start_time: now,
            last_frame_time: now,
        }
    }

    /// Whether a frame of `bytes` bytes passing at `now` can be counted: the counters
    /// do not overflow and time does not run backwards.
    pub open spec fn can_count(self, bytes: u64, now: Timestamp) -> bool {
        &&& self.frames < u64::MAX
        &&& self.bytes + bytes <= u64::MAX
        &&& now.wf()
        &&& self.last_frame_time.total_nanos() <= now.total_nanos()
    }

    /// The counters after a frame of `bytes` bytes passed at `now`.
    pub open spec fn counted(self, bytes: u64, now: Timestamp) -> ConnectionStats {
        ConnectionStats {
            frames: (self.frames + 1) as u64,
            bytes: (self.bytes + bytes) as u64,
            last_interval: Interval {
                secs: ((now.total_nanos() - self.last_frame_time.total_nanos()) / 1_000_000_000) as u64,
                nanos: ((now.total_nanos() - self.last_frame_time.total_nanos()) % 1_000_000_000) as u32,
            },
            start_time: self.start_time,
            last_frame_time: now,
        }
    }

    /// The counters of a connection opened at `now`.
    pub fn new(now: Timestamp) -> (stats: ConnectionStats)
        requires
            now.wf(),
        ensures
            stats == ConnectionStats::fresh(now),
            stats.wf(),
    {
        ConnectionStats {
            frames: 0,
            bytes: 0,
            last_interval: Interval::zero(),
            start_time: now,
            last_frame_time: now,
        }
    }

    /// Whether a frame of `bytes` bytes passing at `now` can be counted.
    pub fn accepts(&self, bytes: u64, now: Timestamp) -> (ok: bool)
        requires
            self.wf(),
        ensures
            ok == self.can_count(bytes, now),
    {
        proof {
            let a = self.last_frame_time;
            if now.nanos < crate::time::NANOS_PER_SEC {
                assert((a.secs < now.secs || (a.secs == now.secs && a.nanos <= now.nanos)) <==> a.total_nanos()
                    <= now.total_nanos()) by (nonlinear_arith)
                    requires
                        a.nanos < 1_000_000_000,
                        now.nanos < 1_000_000_000,
                        a.total_nanos() == a.secs * 1_000_000_000 + a.nanos,
                        now.total_nanos() == now.secs * 1_000_000_000 + now.nanos,
                ;
            }
        }
        self.frames < u64::MAX && bytes <= u64::MAX - self.bytes && now.nanos < crate::time::NANOS_PER_SEC
            && (self.last_frame_time.secs < now.secs || (self.last_frame_time.secs == now.secs
            && self.last_frame_time.nanos <= now.nanos))
    }

    /// Counts a frame of `bytes` bytes passing at `now`.
    pub fn update(&mut self, bytes: u64, now: Timestamp)
        requires
            old(self).wf(),
            old(self).can_count(bytes, now),
        ensures
            *final(self) == old(self).counted(bytes, now),
            final(self).wf(),
    {
        let span = now.duration_since(&self.last_frame_time);
        self.frames = self.frames + 1;
        self.bytes = self.bytes + bytes;
        self.last_interval = span;
        self.last_frame_time = now;
        proof {
            let d = span.total_nanos();
            assert(span.secs == d / 1_000_000_000 && span.nanos == d % 1_000_000_000) by (nonlinear_arith)
                requires
                    d == span.secs * 1_000_000_000 + span.nanos,
                    span.nanos < 1_000_000_000,
                    span.secs >= 0,
            ;
        }
    }
}

/// Every counted frame adds one to the frame count and its size to the byte count,
/// and the start of the connection stays put.
pub proof fn lemma_counting_accumulates(stats: ConnectionStats, bytes: u64, now: Timestamp)
    requires
        stats.wf(),
        stats.can_count(bytes, now),
    ensures
        stats.counted(bytes, now).frames == stats.frames + 1,
        stats.counted(bytes, now).bytes == stats.bytes + bytes,
        stats.counted(bytes, now).start_time == stats.start_time,
        stats.counted(bytes, now).last_frame_time == now,
        stats.counted(bytes, now).last_interval.total_nanos() == now.total_nanos()
            - stats.last_frame_time.total_nanos(),
        stats.counted(bytes, now).wf(),
{
    let d = now.total_nanos() - stats.last_frame_time.total_nanos();
    assert((d / 1_000_000_000) * 1_000_000_000 + d % 1_000_000_000 == d && d % 1_000_000_000 < 1_000_000_000)
        by (nonlinear_arith)
        requires
            d >= 0,
    ;
}

} // verus!
