//! Countdown timers over a monotonic millisecond clock.
use vstd::prelude::*;

verus! {

/// A countdown that started at `start_ms` and runs for `duration_ms`.
///
/// Times are milliseconds read from the host's monotonic clock; every query
/// takes the current reading `now_ms`. A timer never changes once made:
/// restarting one means making a new one.
#[derive(Debug, Clone, Copy, PartialEq, Eq, Structural)]
pub struct Timer {
    pub start_ms: u64,
    pub duration_ms: u64,
}

impl Timer {
    /// Milliseconds that have passed since the start, as seen at `now`.
    /// A reading earlier than the start counts as no time at all.
    pub open spec fn spec_elapsed(&self, now: int) -> int {
        if now <= self.start_ms {
            0
        } else {
            now - self.start_ms
        }
    }

    /// `max(0, duration - elapsed)`.
    pub open spec fn spec_time_left(&self, now: int) -> int {
        if self.spec_elapsed(now) >= self.duration_ms {
            0
        } else {
            self.duration_ms - self.spec_elapsed(now)
        }
    }

    pub open spec fn spec_finished(&self, now: int) -> bool {
        self.spec_time_left(now) == 0
    }

    /// Starts a countdown of `duration_ms` at the clock reading `now_ms`.
    pub fn new(duration_ms: u64, now_ms: u64) -> (t: Timer)
        ensures
            t.start_ms == now_ms,
            t.duration_ms == duration_ms,
    {
        Timer { start_ms: now_ms, duration_ms }
    }

    pub fn time_left(&self, now_ms: u64) -> (r: u64)
        ensures
            r == self.spec_time_left(now_ms as int),
            r <= self.duration_ms,
    {
        let elapsed: u64 = if now_ms <= self.start_ms {
            0
        } else {
            now_ms - self.start_ms
        };
        if elapsed >= self.duration_ms {
            0
        } else {
            self.duration_ms - elapsed
        }
    }

    pub fn finished(&self, now_ms: u64) -> (r: bool)
        ensures
            r == self.spec_finished(now_ms as int),
    {
        self.time_left(now_ms) == 0
    }
}

} // verus!
