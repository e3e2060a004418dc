//! The sliding-window rate limiter guarding every outbound call.
//!
//! The window resets lazily: the first admission after the window's duration
//! has elapsed starts a fresh count.  No admission ever pushes the count past
//! the quota; the call is rejected first.

use vstd::prelude::*;

use crate::errors::IBroadcastError;

verus! {

/// The limiter's whole state: when the current counting interval started and
/// how many requests it has admitted since.
#[derive(PartialEq, Eq, Structural)]
pub struct RateWindow {
    pub window_start: u64,
    pub count: u32,
}

/// Seconds elapsed from `start` to `now`, zero when the clock reads earlier
/// than `start`.
pub open spec fn spec_elapsed(start: u64, now: u64) -> int {
    if now >= start {
        now - start
    } else {
        0
    }
}

impl RateWindow {
    /// Whether an admission at `now` begins a fresh window.
    pub open spec fn spec_resets(self, now: u64, window_secs: u64) -> bool {
        spec_elapsed(self.window_start, now) > window_secs
    }

    /// The window after an admission attempt at `now`, and whether the
    /// attempt is admitted: a reset is applied first when due, then the
    /// count is advanced exactly when it is below the quota.
    pub open spec fn spec_acquire(self, now: u64, quota: u32, window_secs: u64) -> (RateWindow, bool) {
        let w = if self.spec_resets(now, window_secs) {
            RateWindow { window_start: now, count: 0 }
        } else {
            self
        };
        if w.count >= quota {
            (w, false)
        } else {
            (RateWindow { window_start: w.window_start, count: (w.count + 1) as u32 }, true)
        }
    }

    /// Creates a window that starts counting at `now`.
    pub fn new(now: u64) -> (w: RateWindow)
        ensures
            w == (RateWindow { window_start: now, count: 0u32 }),
    {
        RateWindow { window_start: now, count: 0 }
    }

    /// Accepts or rejects one request at time `now`, updating the window as
    /// [`Self::spec_acquire`] says.
    pub fn acquire(&mut self, now: u64, quota: u32, window_secs: u64) -> (r: Result<
        (),
        IBroadcastError,
    >)
        ensures
            *final(self) == old(self).spec_acquire(now, quota, window_secs).0,
            old(self).spec_acquire(now, quota, window_secs).1 ==> r == Ok::<(), IBroadcastError>(()),
            !old(self).spec_acquire(now, quota, window_secs).1 ==> r == Err::<(), IBroadcastError>(
                IBroadcastError::RateLimitExceeded,
            ),
    {
        let elapsed: u64 = if now >= self.window_start {
            now - self.window_start
        } else {
            0
        };
        if elapsed > window_secs {
            self.count = 0;
            self.window_start = now;
        }
        if self.count >= quota {
            return Err(IBroadcastError::RateLimitExceeded);
        }
        self.count = self.count + 1;
        Ok(())
    }
}

/// The window after a whole run of admission attempts, paired with whether
/// every attempt was admitted.
pub open spec fn spec_acquire_all(w: RateWindow, times: Seq<u64>, quota: u32, window_secs: u64) -> (
    RateWindow,
    bool,
)
    decreases times.len(),
{
    if times.len() == 0 {
        (w, true)
    } else {
        let (w1, ok) = w.spec_acquire(times[0], quota, window_secs);
        let (w2, rest_ok) = spec_acquire_all(w1, times.drop_first(), quota, window_secs);
        (w2, ok && rest_ok)
    }
}

/// Law: starting from a count that leaves room for them, any run of
/// admissions whose times stay inside the current window is admitted in
/// full; in particular a fresh window accepts any run of at most `quota`
/// requests.
pub proof fn lemma_admissions_within_quota(
    w: RateWindow,
    times: Seq<u64>,
    quota: u32,
    window_secs: u64,
)
    requires
        w.count + times.len() <= quota,
        forall|i: int|
            0 <= i < times.len() ==> #[trigger] spec_elapsed(w.window_start, times[i])
                <= window_secs,
    ensures
        spec_acquire_all(w, times, quota, window_secs).1,
        spec_acquire_all(w, times, quota, window_secs).0 == (RateWindow {
            window_start: w.window_start,
            count: (w.count + times.len()) as u32,
        }),
    decreases times.len(),
{
    if times.len() > 0 {
        let (w1, ok) = w.spec_acquire(times[0], quota, window_secs);
        assert(!w.spec_resets(times[0], window_secs));
        assert(ok);
        assert(w1 == (RateWindow { window_start: w.window_start, count: (w.count + 1) as u32 }));
        assert(forall|i: int|
            0 <= i < times.drop_first().len() ==> #[trigger] spec_elapsed(
                w1.window_start,
                times.drop_first()[i],
            ) <= window_secs) by {
            assert(forall|i: int|
                0 <= i < times.drop_first().len() ==> times.drop_first()[i] == times[i + 1]);
        }
        lemma_admissions_within_quota(w1, times.drop_first(), quota, window_secs);
    }
}

/// Law: once the count has reached the quota, the next admission inside the
/// same window is rejected.
pub proof fn lemma_admission_over_quota(w: RateWindow, now: u64, quota: u32, window_secs: u64)
    requires
        w.count >= quota,
        spec_elapsed(w.window_start, now) <= window_secs,
    ensures
        !w.spec_acquire(now, quota, window_secs).1,
{
}

/// Law: after the window's duration has elapsed past its start, the next
/// admission succeeds regardless of the prior count, in a window restarted
/// at that time.
pub proof fn lemma_admission_after_window(w: RateWindow, now: u64, quota: u32, window_secs: u64)
    requires
        spec_elapsed(w.window_start, now) > window_secs,
        quota >= 1,
    ensures
        w.spec_acquire(now, quota, window_secs).1,
        w.spec_acquire(now, quota, window_secs).0 == (RateWindow { window_start: now, count: 1u32 }),
{
}

} // verus!
