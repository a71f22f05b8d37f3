//! The courtesy rate limiter: a process-local throttle that keeps two
//! consecutive requests of one client at least a minimum interval apart.
//!
//! The limiter itself does no sleeping and reads no clock; it is the
//! arithmetic of the throttle. The caller reads a monotonic millisecond
//! clock, hands the reading to [`RateLimit::check`], sleeps for the
//! returned number of milliseconds, and only then sends its request.

use vstd::prelude::*;

verus! {

/// The courtesy interval asked for by the upstream service, in milliseconds.
pub const DEFAULT_LIMIT_MS: u64 = 50;

/// A single-instance throttle: the minimum spacing and the completion
/// instant of the latest acquisition, in milliseconds of a monotonic clock.
#[derive(Debug, Clone, Copy, PartialEq, Eq, Structural)]
pub struct RateLimit {
    pub limit: u64,
    pub last: u64,
}

impl RateLimit {
    /// A fresh limiter with the default interval, dating its last
    /// acquisition to the given clock reading.
    pub fn new(now_ms: u64) -> (r: RateLimit)
        ensures
            r.limit == DEFAULT_LIMIT_MS,
            r.last == now_ms,
    {
        RateLimit { limit: DEFAULT_LIMIT_MS, last: now_ms }
    }

    /// How long an acquisition at the given reading must still wait. A
    /// reading at or past the deadline waits nothing: the wait is never
    /// negative, whatever the ordering of clock reads.
    pub open spec fn spec_wait(self, now_ms: u64) -> int {
        if now_ms >= self.last + self.limit {
            0
        } else {
            self.last + self.limit - now_ms
        }
    }

    /// The instant an acquisition at the given reading completes: the
    /// reading plus the wait it was told to spend sleeping.
    pub open spec fn spec_completion(self, now_ms: u64) -> int {
        now_ms + self.spec_wait(now_ms)
    }

    /// Acquires the limiter at the given clock reading: returns how many
    /// milliseconds the caller must sleep before sending, and dates the
    /// limiter to the completion instant of this acquisition.
    pub fn check(&mut self, now_ms: u64) -> (wait: u64)
        requires
            old(self).last + old(self).limit <= u64::MAX,
        ensures
            wait == old(self).spec_wait(now_ms),
            final(self).limit == old(self).limit,
            final(self).last == old(self).spec_completion(now_ms),
            final(self).last >= old(self).last + old(self).limit,
    {
        let deadline = self.last + self.limit;
        if now_ms >= deadline {
            self.last = now_ms;
            0
        } else {
            self.last = deadline;
            deadline - now_ms
        }
    }

    /// Two consecutive acquisitions are spaced: whatever the clock reads at
    /// the next acquisition, the completion instant it yields lies at least
    /// the configured interval past the completion instant the limiter
    /// holds.
    pub proof fn lemma_consecutive_spacing(self, now_ms: u64)
        ensures
            self.spec_completion(now_ms) - self.last >= self.limit,
    {
    }
}

} // verus!
