//! A closed-loop frame pacer: holds a render loop to a configured target
//! frequency by sleeping away the remainder of each frame's time budget.
//!
//! The pacer is a single mutable record driven by a host render loop. The
//! host calls [`pacer::Pacer::tick`] once per frame after its render work;
//! the call blocks until the next target frame boundary and records how long
//! it actually slept. All pacing decisions are integer arithmetic on
//! microsecond readings of a monotonic clock; the clock itself and the
//! high-precision sleep are the only unverified calls, held in `clock`.

pub mod clock;
pub mod pacer;
pub mod timing;
