//! Current-market monitor: once per interval it resolves the current
//! interval's market and reports what it found, then sleeps exactly until
//! the next interval boundary. Resolver errors are reported and swallowed —
//! the loop always proceeds to the sleep, so it checks at most once per
//! interval and never busy-loops.

use vstd::prelude::*;
use crate::interval::INTERVAL_SECONDS;
use crate::interval::interval_start;
use crate::interval::seconds_until_next_interval;
use crate::catalog::{MarketRecord, MonitorError, details_report, market_details_report};
use crate::report::push_line;

verus! {

/// The report line when the catalog answered with no market for the slug.
pub open spec fn no_market_line() -> Seq<char> {
    "No active market found"@
}

/// The report line for each resolver-level error.
pub open spec fn error_line(e: MonitorError) -> Seq<char> {
    match e {
        MonitorError::Transport => "Catalog request failed"@,
        MonitorError::MalformedBody => "Malformed catalog response"@,
    }
}

/// The report of one check: the record's details when a market was found, a
/// no-active-market signal when none was, and an error signal when the
/// resolver failed.
pub open spec fn check_report(resolution: Result<Option<MarketRecord>, MonitorError>) -> Seq<
    Seq<char>,
> {
    match resolution {
        Result::Ok(Option::Some(m)) => details_report(m@),
        Result::Ok(Option::None) => seq![no_market_line()],
        Result::Err(e) => seq![error_line(e)],
    }
}

/// One cycle of the current-market monitor, after the resolution: what to
/// report, and how long to sleep.
pub struct GammaStep {
    pub report: Vec<String>,
    pub sleep_seconds: u64,
}

/// One step of the current-market monitor: the report for this resolution,
/// and the sleep until the next interval boundary. All three resolution
/// outcomes report and then sleep — none is fatal to the loop, and the sleep
/// is computed from the clock at entry, so the monitor wakes at boundaries
/// without drifting.
pub fn gamma_step(resolution: &Result<Option<MarketRecord>, MonitorError>, now: u64) -> (r:
    GammaStep)
    requires
        now <= u64::MAX - INTERVAL_SECONDS,
    ensures
        r.report.deep_view() == check_report(*resolution),
        r.sleep_seconds == interval_start(now) + INTERVAL_SECONDS - now,
        1 <= r.sleep_seconds <= INTERVAL_SECONDS,
{
    let report = match resolution {
        Result::Ok(Option::Some(m)) => market_details_report(m),
        Result::Ok(Option::None) => {
            let mut lines: Vec<String> = Vec::new();
            push_line(&mut lines, "No active market found");
            proof {
                assert(lines.deep_view() =~= seq![no_market_line()]);
            }
            lines
        },
        Result::Err(e) => {
            let mut lines: Vec<String> = Vec::new();
            match e {
                MonitorError::Transport => push_line(&mut lines, "Catalog request failed"),
                MonitorError::MalformedBody => push_line(&mut lines, "Malformed catalog response"),
            }
            proof {
                assert(lines.deep_view() =~= seq![error_line(*e)]);
            }
            lines
        },
    };
    GammaStep { report, sleep_seconds: seconds_until_next_interval(now) }
}

} // verus!
