//! Market slug derivation: each interval's market instance is named by a
//! fixed template, the instrument prefix followed by the interval's start
//! timestamp in decimal. The derivation is a pure function of the timestamp,
//! so recomputing it for the same instant always yields the same slug.

use vstd::prelude::*;
use crate::interval::INTERVAL_SECONDS;
use crate::interval::interval_start;
use crate::interval::calculate_current_15m_market_timestamp;
use crate::interval::calculate_next_15m_market_timestamp;

verus! {

/// Decimal digit `d` (`0 <= d <= 9`) as a character.
pub open spec fn digit_char(d: int) -> char {
    if d == 0 {
        '0'
    } else if d == 1 {
        '1'
    } else if d == 2 {
        '2'
    } else if d == 3 {
        '3'
    } else if d == 4 {
        '4'
    } else if d == 5 {
        '5'
    } else if d == 6 {
        '6'
    } else if d == 7 {
        '7'
    } else if d == 8 {
        '8'
    } else {
        '9'
    }
}

/// The decimal representation of `n >= 0`, most significant digit first,
/// without leading zeros (a single `'0'` for `n == 0`).
pub open spec fn decimal_digits(n: int) -> Seq<char>
    recommends
        n >= 0,
    decreases n,
{
    if n < 10 {
        seq![digit_char(n)]
    } else {
        decimal_digits(n / 10) + seq![digit_char(n % 10)]
    }
}

/// The slug that names the market instance of the interval starting at `ts`.
pub open spec fn slug_of(ts: u64) -> Seq<char> {
    "btc-updown-15m-"@ + decimal_digits(ts as int)
}

fn digit_str(d: u64) -> (r: &'static str)
    requires
        d < 10,
    ensures
        r@ == seq![digit_char(d as int)],
{
    proof {
        reveal_strlit("0");
        reveal_strlit("1");
        reveal_strlit("2");
        reveal_strlit("3");
        reveal_strlit("4");
        reveal_strlit("5");
        reveal_strlit("6");
        reveal_strlit("7");
        reveal_strlit("8");
        reveal_strlit("9");
    }
    let r: &'static str = if d == 0 {
        "0"
    } else if d == 1 {
        "1"
    } else if d == 2 {
        "2"
    } else if d == 3 {
        "3"
    } else if d == 4 {
        "4"
    } else if d == 5 {
        "5"
    } else if d == 6 {
        "6"
    } else if d == 7 {
        "7"
    } else if d == 8 {
        "8"
    } else {
        "9"
    };
    proof {
        assert(r@ =~= seq![digit_char(d as int)]);
    }
    r
}

/// `n` rendered in decimal, most significant digit first.
pub fn u64_to_decimal(n: u64) -> (r: String)
    ensures
        r@ == decimal_digits(n as int),
    decreases n,
{
    let d: u64 = n % 10;
    proof {
        assert(n < 10 ==> n % 10 == n) by (nonlinear_arith);
        assert(n >= 10 ==> n / 10 < n && n % 10 < 10) by (nonlinear_arith);
        assert(n % 10 < 10) by (nonlinear_arith);
    }
    if n < 10 {
        String::from_str(digit_str(d))
    } else {
        let mut s = u64_to_decimal(n / 10);
        s.append(digit_str(d));
        s
    }
}

/// Slug of the market instance whose interval starts at `ts`: the fixed
/// instrument template with the start timestamp in decimal.
pub fn market_slug(ts: u64) -> (r: String)
    ensures
        r@ == slug_of(ts),
{
    let mut s = String::from_str("btc-updown-15m-");
    let digits = u64_to_decimal(ts);
    s.append(digits.as_str());
    s
}

/// Slug of the market instance whose interval contains `now`.
pub fn current_market_slug(now: u64) -> (r: String)
    ensures
        r@ == slug_of(interval_start(now)),
{
    market_slug(calculate_current_15m_market_timestamp(now))
}

/// Slug of the market instance of the interval after the one containing
/// `now`.
pub fn next_market_slug(now: u64) -> (r: String)
    requires
        now <= u64::MAX - INTERVAL_SECONDS,
    ensures
        r@ == slug_of((interval_start(now) + INTERVAL_SECONDS) as u64),
{
    market_slug(calculate_next_15m_market_timestamp(now))
}

/// Slug derivation is idempotent: deriving twice from the same timestamp
/// yields identical strings, since the slug is a function of the timestamp
/// alone.
pub proof fn lemma_slug_derivation_idempotent(t1: u64, t2: u64)
    requires
        t1 == t2,
    ensures
        slug_of(t1) == slug_of(t2),
{
}

} // verus!
