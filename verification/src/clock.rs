//! Clock readings as plain numbers.
//!
//! The state machines take the time as an argument and never read a clock.
use vstd::prelude::*;

verus! {

/// A reading of the monotonic clock: nanoseconds since a fixed start.
pub type Instant = u128;

/// A span of time in nanoseconds.
pub type Duration = u128;

/// One millisecond.
pub const MILLISECOND: Duration = 1_000_000;

/// One second.
pub const SECOND: Duration = 1_000_000_000;

/// Time from `earlier` to `now`, zero when the clock reads earlier.
pub open spec fn elapsed(now: Instant, earlier: Instant) -> Duration {
    if now >= earlier {
        (now - earlier) as u128
    } else {
        0
    }
}

/// Less than `window` has passed since `start`; false without a start.
pub open spec fn within(start: Option<Instant>, now: Instant, window: Duration) -> bool {
    match start {
        Some(t) => elapsed(now, t) < window,
        None => false,
    }
}

/// Time from `earlier` to `now`, zero when the clock reads earlier.
pub fn since(now: Instant, earlier: Instant) -> (r: Duration)
    ensures
        r == elapsed(now, earlier),
{
    if now >= earlier {
        now - earlier
    } else {
        0
    }
}

/// Less than `window` has passed since `start`; false without a start.
pub fn is_within(start: Option<Instant>, now: Instant, window: Duration) -> (r: bool)
    ensures
        r == within(start, now, window),
{
    match start {
        Some(t) => since(now, t) < window,
        None => false,
    }
}

} // verus!
