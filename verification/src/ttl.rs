use vstd::prelude::*;

verus! {

/// Seconds in one week.
pub const WEEK_SECONDS: i64 = 604800;

/// Seconds in thirty days.
pub const MONTH_SECONDS: i64 = 2592000;

/// Seconds in 365 days.
pub const YEAR_SECONDS: i64 = 31536000;

/// Time-to-live presets for links. Only fixed presets are supported to keep
/// the system predictable.
#[derive(Debug, Clone, Copy, PartialEq, Eq, Structural)]
pub enum Ttl {
    /// The link expires in one week.
    OneWeek,
    /// The link expires in one month (thirty days).
    OneMonth,
    /// The link expires in one year (365 days).
    OneYear,
    /// The link never expires.
    Never,
}

/// The expiry each preset yields from a starting point `now`, in seconds:
/// none for `Never`.
pub open spec fn spec_expires_at(t: Ttl, now: int) -> Option<int> {
    match t {
        Ttl::OneWeek => Some(now + 604800),
        Ttl::OneMonth => Some(now + 2592000),
        Ttl::OneYear => Some(now + 31536000),
        Ttl::Never => None,
    }
}

impl Ttl {
    /// Calculate the expiration time, in seconds, from the given starting
    /// point. Returns `None` for the `Never` preset.
    pub fn expires_at(&self, now: i64) -> (r: Option<i64>)
        requires
            now <= i64::MAX - 31536000,
        ensures
            (match r {
                Some(e) => Some(e as int),
                None => None,
            }) == spec_expires_at(*self, now as int),
    {
        match self {
            Ttl::OneWeek => Some(now + WEEK_SECONDS),
            Ttl::OneMonth => Some(now + MONTH_SECONDS),
            Ttl::OneYear => Some(now + YEAR_SECONDS),
            Ttl::Never => None,
        }
    }
}

} // verus!
