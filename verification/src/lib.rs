//! Interval-synchronized dual-channel monitor for a recurring, time-boxed
//! prediction market: a clock that maps wall-clock time to fixed 15-minute
//! intervals, a slug derivation for each interval's market instance, a
//! catalog resolver that extracts market records and tradable token
//! identifiers from catalog responses, and the state machines of the two
//! monitors (a current-market poller and a next-market stream subscriber).

pub mod interval;
pub mod slug;
pub mod tokens;
pub mod report;
pub mod catalog;
pub mod stream;
pub mod gamma;
