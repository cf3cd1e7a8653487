//! A feedback-controlled scheduler that keeps a remotely displayed clock
//! message in step with real wall-clock seconds: round-trip-time estimation,
//! server-clock classification from two weak signals, a proportional-integral
//! lead-time controller, and the per-tick state machine that drives them.

pub mod api;
pub mod classify;
pub mod config;
pub mod controller;
pub mod digits;
pub mod estimator;
pub mod fmt;
pub mod pool;
pub mod sched;

use vstd::prelude::*;

verus! {

/// Nanoseconds in one second: the tick length and the alignment unit.
pub const NANOS_PER_SEC: u64 = 1_000_000_000;

/// Rounds an instant (nanoseconds since the epoch) down to the exact
/// second boundary at or before it.
pub fn align_date(ns: u64) -> (r: u64)
    ensures
        r == ns - ns % NANOS_PER_SEC,
        r % NANOS_PER_SEC == 0,
        r <= ns,
{
    ns - ns % NANOS_PER_SEC
}

} // verus!
