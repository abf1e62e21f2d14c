//! The pace of the system clock: the two clock speeds, and the rule by which
//! the machine idles between ticks so as not to run ahead of its clock.

use vstd::prelude::*;

verus! {

/// The clock of an NTSC machine, in thousandths of a hertz.
pub const NTSC_CLK: u32 = 1022727714;

/// The clock of a PAL machine, in thousandths of a hertz.
pub const PAL_CLK: u32 = 985248444;

/// The number of ticks after which the pace is measured again.
pub const SAMPLE_INTERVAL: u64 = 10000;

/// The nanoseconds by which the idle time between two ticks is changed.
pub const IDLE_STEP: u64 = 100;

/// Whether `cycles` ticks in `elapsed_ms` milliseconds are more than a clock
/// of `clock` thousandths of a hertz allows. Both sides count ticks per
/// millisecond, multiplied out.
pub open spec fn runs_ahead(cycles: u64, elapsed_ms: u64, clock: u32) -> bool {
    cycles as int * 1_000_000 > clock as int * elapsed_ms as int
}

/// The idle time that follows `idle`: one step longer while the machine runs
/// ahead of its clock, one step shorter otherwise, and never below zero.
pub open spec fn adjusted_idle(idle: u64, cycles: u64, elapsed_ms: u64, clock: u32) -> u64 {
    if runs_ahead(cycles, elapsed_ms, clock) {
        if idle as int + IDLE_STEP <= u64::MAX {
            (idle + IDLE_STEP) as u64
        } else {
            idle
        }
    } else if idle >= IDLE_STEP {
        (idle - IDLE_STEP) as u64
    } else {
        0
    }
}

/// Whether the pace is to be measured after tick number `cycles`.
pub fn sample_due(cycles: u64) -> (due: bool)
    ensures
        due == (cycles % SAMPLE_INTERVAL == 0),
{
    cycles % SAMPLE_INTERVAL == 0
}

/// The nanoseconds to idle between two ticks from now on, given that the
/// machine has taken `cycles` ticks in `elapsed_ms` milliseconds and idled
/// `idle` nanoseconds between two ticks so far.
pub fn adjust_idle(idle: u64, cycles: u64, elapsed_ms: u64, clock: u32) -> (next: u64)
    ensures
        next == adjusted_idle(idle, cycles, elapsed_ms, clock),
{
    let done: u128 = cycles as u128 * 1_000_000;
    assert(clock as int * elapsed_ms as int <= 0xffff_ffff * 0xffff_ffff_ffff_ffff)
        by (nonlinear_arith)
        requires
            0 <= clock <= 0xffff_ffff,
            0 <= elapsed_ms <= 0xffff_ffff_ffff_ffff,
    ;
    let allowed: u128 = clock as u128 * elapsed_ms as u128;
    if done > allowed {
        if idle <= u64::MAX - IDLE_STEP {
            idle + IDLE_STEP
        } else {
            idle
        }
    } else if idle >= IDLE_STEP {
        idle - IDLE_STEP
    } else {
        0
    }
}

} // verus!
