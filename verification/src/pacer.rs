//! The pacer record and its tick operations.

use vstd::prelude::*;

use crate::clock::elapsed_micros;
use crate::clock::instant_now;
use crate::clock::sleep_micros;
use crate::timing::frametime_micros_spec;
use crate::timing::sleep_needed_spec;
use crate::timing::sleep_needed_micros;
use crate::timing::target_frametime_micros;

verus! {

/// Which pacing rule `tick` applies.
#[derive(Clone, Copy, Debug, PartialEq, Eq, Structural)]
pub enum PacerMode {
    /// Measure the frame's own elapsed time and sleep away the remainder of
    /// the budget. The authoritative behaviour.
    Exact,
    /// Predict the next frame's CPU cost from the last frame's measured cost
    /// plus the safety margin, and sleep proactively.
    ForwardEstimator,
}

/// A frame pacer. One record per host render loop; all fields are plain
/// values, with clock readings held as microseconds since `epoch`.
#[derive(Debug)]
pub struct Pacer {
    /// When false, `tick` performs no sleep.
    pub enabled: bool,
    /// Which pacing rule `tick` applies.
    pub mode: PacerMode,
    /// Desired frames per wall-clock second; at least 1.
    pub framerate_target: u32,
    /// The construction instant; every reading is measured from here.
    pub epoch: std::time::Instant,
    /// When the most recent frame began (forward estimator's boundary),
    /// in microseconds since `epoch`.
    pub frame_start_micros: u64,
    /// When the most recent tick returned (the exact limiter's boundary),
    /// in microseconds since `epoch`.
    pub render_start_micros: u64,
    /// The sleep performed in the last exact-limiter tick, in microseconds.
    pub exact_sleep_micros: u64,
    /// Bias subtracted from the forward estimator's sleep budget, in
    /// microseconds.
    pub safety_margin_micros: u64,
}

impl Pacer {
    /// The record's invariant: the target frequency is positive.
    pub open spec fn wf(self) -> bool {
        self.framerate_target >= 1
    }

    /// The target frame time in microseconds.
    pub open spec fn target_frametime(self) -> int {
        frametime_micros_spec(self.framerate_target)
    }

    /// The sleep the exact limiter plans when it enters at reading `entry`:
    /// the remainder of the budget after the frame's own elapsed time,
    /// saturating at zero. A reading behind the last boundary counts as no
    /// elapsed time at all.
    pub open spec fn planned_sleep(self, entry: u64) -> int {
        let elapsed = if entry >= self.render_start_micros {
            entry - self.render_start_micros
        } else {
            0
        };
        sleep_needed_spec(self.target_frametime(), elapsed)
    }

    /// Creates a pacer: enabled, in exact mode, with both frame boundaries
    /// at the construction instant. A target of 0 Hz is clamped to 1 Hz.
    pub fn new(target_hz: u32, safety_margin_micros: u32) -> (p: Pacer)
        ensures
            p.wf(),
            p.enabled,
            p.mode is Exact,
            p.framerate_target == (if target_hz == 0 { 1u32 } else { target_hz }),
            p.frame_start_micros == 0,
            p.render_start_micros == 0,
            p.exact_sleep_micros == 0,
            p.safety_margin_micros == safety_margin_micros,
    {
        Pacer {
            enabled: true,
            mode: PacerMode::Exact,
            framerate_target: if target_hz == 0 { 1 } else { target_hz },
            epoch: instant_now(),
            frame_start_micros: 0,
            render_start_micros: 0,
            exact_sleep_micros: 0,
            safety_margin_micros: safety_margin_micros as u64,
        }
    }

    /// `self` with the target frequency replaced; 0 Hz is clamped to 1 Hz.
    pub open spec fn with_target_hz(self, hz: u32) -> Pacer {
        Pacer { framerate_target: if hz == 0 { 1u32 } else { hz }, ..self }
    }

    /// Sets the target frequency, clamping 0 Hz to 1 Hz. Never blocks; takes
    /// effect on the next tick.
    pub fn set_target_hz(&mut self, hz: u32)
        ensures
            *final(self) == old(self).with_target_hz(hz),
            final(self).wf(),
    {
        self.framerate_target = if hz == 0 { 1 } else { hz };
    }

    /// Enables or disables pacing. A disabled pacer performs no sleep.
    pub fn set_enabled(&mut self, on: bool)
        ensures
            *final(self) == (Pacer { enabled: on, ..*old(self) }),
    {
        self.enabled = on;
    }

    /// Sets the forward estimator's safety margin, in microseconds.
    pub fn set_safety_margin(&mut self, micros: u64)
        ensures
            *final(self) == (Pacer { safety_margin_micros: micros, ..*old(self) }),
    {
        self.safety_margin_micros = micros;
    }

    /// Selects which pacing rule `tick` applies.
    pub fn set_mode(&mut self, mode: PacerMode)
        ensures
            *final(self) == (Pacer { mode, ..*old(self) }),
    {
        self.mode = mode;
    }

    /// Reads the sleep performed in the last exact-limiter tick, for
    /// telemetry.
    pub fn last_sleep(&self) -> (r: u64)
        ensures
            r == self.exact_sleep_micros,
    {
        self.exact_sleep_micros
    }

    /// The sleep the forward estimator plans when it enters at reading
    /// `render_end`: the budget less the last frame's measured CPU cost and
    /// the safety margin, saturating at zero at every step.
    pub open spec fn estimated_sleep(self, render_end: u64) -> int {
        let last_frametime = if render_end >= self.frame_start_micros {
            render_end - self.frame_start_micros
        } else {
            0
        };
        let last_render_time = if last_frametime >= self.exact_sleep_micros {
            last_frametime - self.exact_sleep_micros
        } else {
            0
        };
        sleep_needed_spec(self.target_frametime(), last_render_time + self.safety_margin_micros)
    }

    /// The state the exact limiter leaves behind a tick that entered at
    /// reading `entry` and woke at reading `after`. The new render boundary
    /// is the wake reading; readings that ran backwards are clamped so the
    /// boundary never retreats and the recorded sleep never underflows.
    pub open spec fn ticked_exact(self, entry: u64, after: u64) -> Pacer {
        let entry_c = if entry >= self.render_start_micros {
            entry
        } else {
            self.render_start_micros
        };
        let new_boundary = if after >= entry_c {
            after
        } else {
            entry_c
        };
        Pacer {
            render_start_micros: new_boundary,
            exact_sleep_micros: (new_boundary - entry_c) as u64,
            ..self
        }
    }

    /// The state the forward estimator leaves behind a tick that woke at
    /// reading `after`: the frame boundary moves to the wake reading, never
    /// retreating.
    pub open spec fn ticked_estimated(self, after: u64) -> Pacer {
        let new_start = if after >= self.frame_start_micros {
            after
        } else {
            self.frame_start_micros
        };
        Pacer { frame_start_micros: new_start, ..self }
    }

    /// Computes the exact limiter's sleep for a tick entered at reading
    /// `entry`.
    pub fn plan_exact(&self, entry: u64) -> (needed: u64)
        requires
            self.wf(),
        ensures
            needed == self.planned_sleep(entry),
    {
        let t = target_frametime_micros(self.framerate_target);
        let elapsed = entry.saturating_sub(self.render_start_micros);
        sleep_needed_micros(t, elapsed)
    }

    /// Computes the forward estimator's sleep for a tick entered at reading
    /// `render_end`.
    pub fn plan_estimated(&self, render_end: u64) -> (needed: u64)
        requires
            self.wf(),
        ensures
            needed == self.estimated_sleep(render_end),
    {
        let t = target_frametime_micros(self.framerate_target);
        let last_frametime = render_end.saturating_sub(self.frame_start_micros);
        let last_render_time = last_frametime.saturating_sub(self.exact_sleep_micros);
        let estimated_cpu = last_render_time.saturating_add(self.safety_margin_micros);
        sleep_needed_micros(t, estimated_cpu)
    }

    /// Performs the planned sleep, unless pacing is disabled; returns the
    /// duration actually handed to the sleep primitive, which is 0 exactly
    /// when the pacer is disabled or nothing was planned.
    pub fn sleep_if_enabled(&self, needed: u64) -> (requested: u64)
        ensures
            requested == (if self.enabled { needed as int } else { 0 }),
    {
        if self.enabled {
            sleep_micros(needed);
            needed
        } else {
            0
        }
    }

    /// Records the exact limiter's outcome of a tick that entered at
    /// reading `entry` and woke at reading `after`.
    pub fn finish_exact(&mut self, entry: u64, after: u64)
        ensures
            *final(self) == old(self).ticked_exact(entry, after),
    {
        let entry_c: u64 = if entry >= self.render_start_micros {
            entry
        } else {
            self.render_start_micros
        };
        let new_boundary: u64 = if after >= entry_c {
            after
        } else {
            entry_c
        };
        self.render_start_micros = new_boundary;
        self.exact_sleep_micros = new_boundary - entry_c;
    }

    /// Records the forward estimator's outcome of a tick that woke at
    /// reading `after`.
    pub fn finish_estimated(&mut self, after: u64)
        ensures
            *final(self) == old(self).ticked_estimated(after),
    {
        if after >= self.frame_start_micros {
            self.frame_start_micros = after;
        }
    }

    /// One frame boundary: blocks until the frame's time budget is spent,
    /// then records when it woke and how long it slept.
    ///
    /// Whatever the clock returned, the configuration is untouched, the
    /// boundaries never retreat, and the recorded sleep never exceeds the
    /// boundary's advance. In exact mode only the render boundary and the
    /// recorded sleep move; in forward-estimator mode only the frame
    /// boundary moves.
    pub fn tick(&mut self)
        requires
            old(self).wf(),
        ensures
            final(self).wf(),
            final(self).enabled == old(self).enabled,
            final(self).mode == old(self).mode,
            final(self).framerate_target == old(self).framerate_target,
            final(self).safety_margin_micros == old(self).safety_margin_micros,
            final(self).epoch == old(self).epoch,
            final(self).render_start_micros >= old(self).render_start_micros,
            final(self).frame_start_micros >= old(self).frame_start_micros,
            old(self).mode is Exact ==> final(self).frame_start_micros
                == old(self).frame_start_micros,
            old(self).mode is Exact ==> final(self).exact_sleep_micros
                <= final(self).render_start_micros - old(self).render_start_micros,
            old(self).mode is ForwardEstimator ==> final(self).render_start_micros
                == old(self).render_start_micros,
            old(self).mode is ForwardEstimator ==> final(self).exact_sleep_micros
                == old(self).exact_sleep_micros,
    {
        match self.mode {
            PacerMode::Exact => {
                let entry = elapsed_micros(&self.epoch);
                let needed = self.plan_exact(entry);
                let _requested = self.sleep_if_enabled(needed);
                let after = elapsed_micros(&self.epoch);
                self.finish_exact(entry, after);
            },
            PacerMode::ForwardEstimator => {
                let render_end = elapsed_micros(&self.epoch);
                let needed = self.plan_estimated(render_end);
                let _requested = self.sleep_if_enabled(needed);
                let after = elapsed_micros(&self.epoch);
                self.finish_estimated(after);
            },
        }
    }
}

/// A frame that met or exceeded its budget gets a zero sleep: `tick`
/// returns at once after an overrun.
pub proof fn lemma_overrun_immediate(p: Pacer, entry: u64)
    requires
        p.wf(),
        entry >= p.render_start_micros + p.target_frametime(),
    ensures
        p.planned_sleep(entry) == 0,
{
}

/// No catch-up: the exact limiter's planned sleep is a function of the
/// current render boundary and the configured target alone. Two pacers that
/// agree on those plan the same sleep at every reading, whatever overruns,
/// sleeps or margins their histories recorded; an overrun therefore slips
/// the schedule forward and never shortens a later frame.
pub proof fn lemma_no_compensation(a: Pacer, b: Pacer, entry: u64)
    requires
        a.framerate_target == b.framerate_target,
        a.render_start_micros == b.render_start_micros,
    ensures
        a.planned_sleep(entry) == b.planned_sleep(entry),
{
}

/// A frame that finished within its budget is topped up to exactly the
/// target frame time: entering at `entry`, the frame's elapsed time plus
/// the planned sleep equals the target frame time.
pub proof fn lemma_exact_cadence(p: Pacer, entry: u64)
    requires
        p.wf(),
        p.render_start_micros <= entry,
        entry - p.render_start_micros <= p.target_frametime(),
    ensures
        (entry - p.render_start_micros) + p.planned_sleep(entry) == p.target_frametime(),
{
    crate::timing::lemma_cadence(p.target_frametime(), entry - p.render_start_micros);
}

/// Setting the same target twice is the same as setting it once: repeated
/// identical configuration calls are observationally equivalent to one.
pub proof fn lemma_set_target_idempotent(p: Pacer, hz: u32)
    ensures
        p.with_target_hz(hz).with_target_hz(hz) == p.with_target_hz(hz),
{
}

} // verus!
