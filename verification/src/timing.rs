//! Cycle-accurate delay arithmetic.
//!
//! The protocol's minimum pulse widths are given in nanoseconds and enforced
//! by busy-waiting a number of CPU cycles.  This module computes those cycle
//! counts and plans how a requested wait is executed: short waits as an
//! unrolled run of pipeline hints, longer ones as one or more hardware-timer
//! countdowns.  Performing the wait is the embedding firmware's job; the
//! arithmetic deciding what to wait is verified here.

use vstd::prelude::*;

verus! {

/// Cycles consumed by the fixed setup code around a single timer countdown.
pub const SETUP_TIME_SINGLE: u64 = 20;

/// Cycles consumed by the fixed setup code around a chunked countdown loop.
pub const SETUP_TIME_LOOP: u64 = 38;

/// First cycle count that no single timer countdown can cover: the timer
/// reload register is 24 bits wide.
pub const START_LOOP: u64 = 0xFFFFFF + SETUP_TIME_SINGLE + 2;

/// The requested wait in cycles, rounded up from nanoseconds at the given
/// core clock frequency.
pub open spec fn spec_ns_to_cycles(ns: int, clock_hz: int) -> int {
    (ns * clock_hz + 999_999_999) / 1_000_000_000
}

/// Convert a nanosecond wait into CPU cycles, rounding up so the protocol's
/// minimum pulse widths are never undershot.
pub fn ns_to_cycles(ns: u64, clock_hz: u64) -> (cycles: u64)
    requires
        ns * clock_hz <= u64::MAX - 999_999_999,
    ensures
        cycles == spec_ns_to_cycles(ns as int, clock_hz as int),
{
    (ns * clock_hz + 999_999_999) / 1_000_000_000
}

/// How a requested cycle wait is executed.
#[derive(Clone, Copy, Debug, PartialEq, Eq, Structural)]
pub enum DelayPlan {
    /// Short waits: a run of `count` single-cycle pipeline hints.
    Inline { count: u64 },
    /// One timer countdown from `reload`.
    TimerOnce { reload: u32 },
    /// `full_count` maximum-length countdowns followed by one countdown from
    /// `remainder` (skipped when zero).
    TimerLoop { full_count: u64, remainder: u32 },
}

/// Plan a busy-wait of `cycles` CPU cycles.  The fixed setup costs of the
/// timer paths are subtracted from the countdown so the total wait stays
/// within a few cycles of the request.
pub fn yield_cycles_plan(cycles: u64) -> (plan: DelayPlan)
    ensures
        cycles <= 20 ==> plan == (DelayPlan::Inline { count: cycles }),
        20 < cycles < START_LOOP ==> plan == (DelayPlan::TimerOnce {
            reload: (cycles - SETUP_TIME_SINGLE - 1) as u32,
        }),
        cycles >= START_LOOP ==> plan == (DelayPlan::TimerLoop {
            full_count: ((cycles - SETUP_TIME_LOOP - 1) as u64) >> 24u64,
            remainder: (((cycles - SETUP_TIME_LOOP - 1) as u64) & 0xFFFFFF) as u32,
        }),
{
    if cycles <= 20 {
        DelayPlan::Inline { count: cycles }
    } else if cycles < START_LOOP {
        DelayPlan::TimerOnce { reload: (cycles - SETUP_TIME_SINGLE - 1) as u32 }
    } else {
        let wait_cycles = cycles - SETUP_TIME_LOOP - 1;
        DelayPlan::TimerLoop {
            full_count: wait_cycles >> 24u64,
            remainder: (wait_cycles & 0xFFFFFF) as u32,
        }
    }
}

} // verus!
