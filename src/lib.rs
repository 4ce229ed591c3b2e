//! Dual-lane shot clock: pausable stopwatches, a two-lane start/reset policy,
//! a debouncing button tracker and the `MM:SS` rendering of elapsed times.
//!
//! Time is handed in as milliseconds read from a monotonic clock.

pub mod display;
pub mod policy;
pub mod stopwatch;
pub mod tracker;
