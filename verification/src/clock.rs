//! The pacer's two unverified primitives: reading the monotonic clock and
//! the high-precision sleep. Everything else in the crate is verified
//! against readings and durations as plain microsecond counts.

use vstd::prelude::*;

verus! {

#[verifier::external_type_specification]
#[verifier::external_body]
pub struct ExInstant(std::time::Instant);

/// Relies on std::time::Instant::now: a reading of the monotonic clock,
/// used only as the fixed epoch that later readings are measured from.
#[verifier::external_body]
pub(crate) fn instant_now() -> (t: std::time::Instant) {
    std::time::Instant::now()
}

/// Relies on std::time::Instant::elapsed: the time from `since` to now.
/// The reading depends on the wall clock, so nothing is promised of it;
/// callers handle every value.
#[verifier::external_body]
pub(crate) fn elapsed_micros(since: &std::time::Instant) -> (r: u64) {
    let d = since.elapsed();
    u64::try_from(d.as_micros()).unwrap_or(u64::MAX)
}

/// Relies on spin_sleep::sleep: blocks the calling thread for at least the
/// given duration, by an OS sleep followed by a spin-wait on the remainder.
#[verifier::external_body]
pub(crate) fn sleep_micros(micros: u64) {
    spin_sleep::sleep(std::time::Duration::from_micros(micros));
}

} // verus!
