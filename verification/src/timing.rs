//! Pure pacing arithmetic: the target frame time and the saturating sleep
//! budget, with the laws that hold of them.
//!
//! All durations are microseconds. The arithmetic is saturating throughout:
//! a frame that overran its budget yields a zero sleep, never an underflow.

use vstd::prelude::*;

verus! {

/// The target frame time in microseconds for a target of `hz` frames per
/// second: `1_000_000 / hz`, truncated.
pub open spec fn frametime_micros_spec(hz: u32) -> int
    recommends
        hz >= 1,
{
    1_000_000int / (hz as int)
}

/// The sleep that tops a frame up to the target frame time `t` when
/// `elapsed` of it is already spent: `t - elapsed`, saturating at zero.
pub open spec fn sleep_needed_spec(t: int, elapsed: int) -> int {
    if elapsed >= t {
        0
    } else {
        t - elapsed
    }
}

/// Computes the target frame time in microseconds for a target frequency.
pub fn target_frametime_micros(hz: u32) -> (t: u64)
    requires
        hz >= 1,
    ensures
        t == frametime_micros_spec(hz),
        t <= 1_000_000,
{
    1_000_000u64 / (hz as u64)
}

/// Computes the sleep needed to fill a frame's remaining budget.
pub fn sleep_needed_micros(t: u64, elapsed: u64) -> (s: u64)
    ensures
        s == sleep_needed_spec(t as int, elapsed as int),
{
    if elapsed >= t {
        0
    } else {
        t - elapsed
    }
}

/// A frame that finishes within its budget is topped up to exactly the
/// target frame time: for `elapsed <= t`, `elapsed + sleep == t`.
pub proof fn lemma_cadence(t: int, elapsed: int)
    requires
        0 <= elapsed <= t,
    ensures
        elapsed + sleep_needed_spec(t, elapsed) == t,
{
}

/// Saturation: a frame whose render work met or exceeded the target frame
/// time gets a zero sleep; the budget never underflows.
pub proof fn lemma_sleep_saturates(t: int, elapsed: int)
    requires
        elapsed >= t,
    ensures
        sleep_needed_spec(t, elapsed) == 0,
{
}

/// The sleep budget is never negative.
pub proof fn lemma_sleep_nonnegative(t: int, elapsed: int)
    requires
        0 <= t,
    ensures
        sleep_needed_spec(t, elapsed) >= 0,
{
}

} // verus!
