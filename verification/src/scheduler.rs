use vstd::prelude::*;

verus! {

/// Refreshes run this many seconds apart unless configured otherwise.
pub const DEFAULT_UPDATE_INTERVAL_SECS: u64 = 5;

/// Drives the periodic re-poll of the metrics source: a full refresh is due
/// once `interval_ms` of wall-clock time have passed since the last one,
/// whether that one was automatic or manual.
#[derive(Debug, Clone, Copy, PartialEq, Eq)]
pub struct RefreshScheduler {
    pub interval_ms: u64,
    pub last_refresh_ms: u64,
}

/// An automatic refresh is due once a full interval has elapsed since the
/// last recorded refresh.
pub open spec fn spec_due(s: RefreshScheduler, now_ms: u64) -> bool {
    now_ms >= s.last_refresh_ms + s.interval_ms
}

impl RefreshScheduler {
    /// A scheduler with the given cadence in seconds, treating the moment of
    /// creation as the last refresh. A cadence too large for the millisecond
    /// clock is pinned at the largest representable interval.
    pub fn new(interval_secs: u64, now_ms: u64) -> (r: RefreshScheduler)
        ensures
            r.interval_ms == clamp_interval(interval_secs),
            r.last_refresh_ms == now_ms,
    {
        let interval_ms: u64 = if interval_secs > u64::MAX / 1000 {
            u64::MAX
        } else {
            interval_secs * 1000
        };
        RefreshScheduler { interval_ms, last_refresh_ms: now_ms }
    }

    /// Check the cadence: report whether a full interval has elapsed, and if
    /// so restart the interval at `now_ms`. The clock never runs backwards
    /// past the last refresh.
    pub fn poll_auto_refresh(&mut self, now_ms: u64) -> (due: bool)
        requires
            now_ms >= old(self).last_refresh_ms,
        ensures
            due == spec_due(*old(self), now_ms),
            due ==> *final(self) == (RefreshScheduler { last_refresh_ms: now_ms, ..*old(self) }),
            !due ==> *final(self) == *old(self),
    {
        if now_ms - self.last_refresh_ms >= self.interval_ms {
            self.last_refresh_ms = now_ms;
            true
        } else {
            false
        }
    }

    /// Record an out-of-band refresh at `now_ms`: the next automatic one is
    /// pushed back to a full interval from here.
    pub fn mark_refreshed(&mut self, now_ms: u64)
        ensures
            *final(self) == (RefreshScheduler { last_refresh_ms: now_ms, ..*old(self) }),
    {
        self.last_refresh_ms = now_ms;
    }
}

/// `interval_secs` seconds in milliseconds, pinned to the `u64` range.
pub open spec fn clamp_interval(interval_secs: u64) -> u64 {
    if interval_secs * 1000 > u64::MAX {
        u64::MAX
    } else {
        (interval_secs * 1000) as u64
    }
}

/// A refresh recorded at any moment -- in particular a manual one run right
/// after an automatic refresh -- defers the next automatic refresh until a
/// full interval has elapsed from that moment: at any `now_ms` earlier than
/// `refresh_ms + interval`, no automatic refresh is due.
pub proof fn lemma_refresh_defers_next_tick(s: RefreshScheduler, refresh_ms: u64, now_ms: u64)
    requires
        now_ms < refresh_ms + s.interval_ms,
    ensures
        !spec_due(RefreshScheduler { last_refresh_ms: refresh_ms, ..s }, now_ms),
{
}

} // verus!
