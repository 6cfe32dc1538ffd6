//! Interval clock: maps a wall-clock instant (Unix seconds) to the start of
//! the fixed-width interval that contains it, to the start of the next
//! interval, and to the number of seconds left until the next boundary.
//!
//! Every instant lies in exactly one half-open interval
//! `[k * INTERVAL_SECONDS, (k + 1) * INTERVAL_SECONDS)`; a boundary instant
//! belongs to the interval that starts at it, so the wait from a boundary to
//! the next one is a full interval width, never zero.

use vstd::prelude::*;

verus! {

/// Width of one market interval, in seconds (15 minutes).
pub const INTERVAL_SECONDS: u64 = 900;

/// Start of the interval containing `now`: `now` floored to a multiple of
/// the interval width.
pub open spec fn interval_start(now: u64) -> u64 {
    ((now / INTERVAL_SECONDS) * INTERVAL_SECONDS) as u64
}

/// Start timestamp of the 15-minute market interval that contains `now`.
pub fn calculate_current_15m_market_timestamp(now: u64) -> (r: u64)
    ensures
        r == interval_start(now),
        r <= now < r + INTERVAL_SECONDS,
        r % INTERVAL_SECONDS == 0,
{
    proof {
        lemma_interval_start_bounds(now);
    }
    (now / INTERVAL_SECONDS) * INTERVAL_SECONDS
}

/// Start timestamp of the 15-minute market interval after the one that
/// contains `now`.
pub fn calculate_next_15m_market_timestamp(now: u64) -> (r: u64)
    requires
        now <= u64::MAX - INTERVAL_SECONDS,
    ensures
        r == interval_start(now) + INTERVAL_SECONDS,
        now < r <= now + INTERVAL_SECONDS,
        r % INTERVAL_SECONDS == 0,
{
    proof {
        lemma_interval_start_bounds(now);
    }
    calculate_current_15m_market_timestamp(now) + INTERVAL_SECONDS
}

/// Seconds from `now` until the next interval boundary; always in
/// `[1, INTERVAL_SECONDS]`, and exactly `INTERVAL_SECONDS` when `now` is
/// itself a boundary.
pub fn seconds_until_next_interval(now: u64) -> (r: u64)
    requires
        now <= u64::MAX - INTERVAL_SECONDS,
    ensures
        r == interval_start(now) + INTERVAL_SECONDS - now,
        1 <= r <= INTERVAL_SECONDS,
        now % INTERVAL_SECONDS == 0 ==> r == INTERVAL_SECONDS,
{
    proof {
        lemma_interval_start_bounds(now);
    }
    calculate_next_15m_market_timestamp(now) - now
}

/// The interval start is a multiple of the width no greater than `now`, and
/// `now` lies strictly before the next boundary: every instant belongs to
/// exactly one interval.
pub proof fn lemma_interval_start_bounds(now: u64)
    ensures
        interval_start(now) <= now < interval_start(now) + INTERVAL_SECONDS,
        interval_start(now) % INTERVAL_SECONDS == 0,
        now % INTERVAL_SECONDS == 0 ==> interval_start(now) == now,
{
    assert(
        (now / 900) * 900 <= now < (now / 900) * 900 + 900
            && ((now / 900) * 900) % 900 == 0
            && (now % 900 == 0 ==> (now / 900) * 900 == now)
    ) by (nonlinear_arith);
}

/// A boundary instant is a fixed point of the floor: flooring the start of an
/// interval returns that same start, and the wait there is the full width.
pub proof fn lemma_boundary_fixed_point(t: u64)
    requires
        t % INTERVAL_SECONDS == 0,
    ensures
        interval_start(t) == t,
{
    lemma_interval_start_bounds(t);
}

/// Flooring to an interval start is idempotent: feeding a floor value back
/// in returns that same value.
pub proof fn lemma_interval_start_idempotent(now: u64)
    ensures
        interval_start(interval_start(now)) == interval_start(now),
{
    lemma_interval_start_bounds(now);
    lemma_boundary_fixed_point(interval_start(now));
}

} // verus!
