use vstd::prelude::*;

verus! {

/// Length of the fixed rate window, in seconds.
pub const WINDOW_SECONDS: u64 = 60;

/// Per-client window state: how many requests were counted in the window
/// that began at `window_start` (a monotonic clock reading, in seconds).
#[derive(Debug, Clone, Copy, PartialEq, Eq, Structural)]
pub struct RateWindow {
    pub count: u32,
    pub window_start: u64,
}

/// What one rate decision yields: the window state to store back, and
/// either the remaining allowance or the seconds to wait. A window older
/// than its length is reset before counting.
pub open spec fn spec_rate_check(limit: u32, entry: Option<RateWindow>, now: u64) -> (
    RateWindow,
    Result<u32, u64>,
) {
    let e = match entry {
        Some(e) => e,
        None => RateWindow { count: 0, window_start: now },
    };
    let e2 = if now - e.window_start >= 60 {
        RateWindow { count: 0, window_start: now }
    } else {
        e
    };
    if e2.count >= limit {
        (e2, Err((60 - (now - e2.window_start)) as u64))
    } else {
        (
            RateWindow { count: (e2.count + 1) as u32, window_start: e2.window_start },
            Ok((limit - e2.count - 1) as u32),
        )
    }
}

/// The decision core of a fixed-window rate limiter. The caller keeps one
/// `RateWindow` per client and a clock; each request hands the stored state
/// and the clock reading in, and stores the returned state back.
#[derive(Debug, Clone, Copy, PartialEq, Eq, Structural)]
pub struct RateLimiter {
    /// Maximum requests per window.
    pub limit: u32,
}

impl RateLimiter {
    /// Create a rate limiter allowing `limit_per_minute` requests per
    /// window.
    pub fn new(limit_per_minute: u32) -> (r: Self)
        ensures
            r.limit == limit_per_minute,
    {
        RateLimiter { limit: limit_per_minute }
    }

    /// Decide one request from the client whose stored window state is
    /// `entry` (`None` when first seen) at monotonic time `now`. Returns
    /// the state to store back, and the remaining allowance when the
    /// request is admitted or the seconds to wait when it is not.
    pub fn check(&self, entry: Option<RateWindow>, now: u64) -> (r: (RateWindow, Result<u32, u64>))
        requires
            entry matches Some(e) ==> e.window_start <= now && e.count <= self.limit,
        ensures
            r == spec_rate_check(self.limit, entry, now),
            r.0.window_start <= now,
            r.0.count <= self.limit,
            r.1 matches Err(w) ==> 1 <= w <= 60,
    {
        let e = match entry {
            Some(e) => e,
            None => RateWindow { count: 0, window_start: now },
        };
        let e2 = if now - e.window_start >= WINDOW_SECONDS {
            RateWindow { count: 0, window_start: now }
        } else {
            e
        };
        if e2.count >= self.limit {
            (e2, Err(WINDOW_SECONDS - (now - e2.window_start)))
        } else {
            (
                RateWindow { count: e2.count + 1, window_start: e2.window_start },
                Ok(self.limit - e2.count - 1),
            )
        }
    }
}

} // verus!
