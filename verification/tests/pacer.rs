//! Deterministic tests of the pacing arithmetic and configuration surface.

use frame_pacer::pacer::Pacer;
use frame_pacer::pacer::PacerMode;
use frame_pacer::timing::sleep_needed_micros;
use frame_pacer::timing::target_frametime_micros;

#[test]
fn target_frametime_rounding() {
    assert_eq!(target_frametime_micros(60), 16_666);
    assert_eq!(target_frametime_micros(30), 33_333);
    assert_eq!(target_frametime_micros(144), 6_944);
    assert_eq!(target_frametime_micros(240), 4_166);
    assert_eq!(target_frametime_micros(1), 1_000_000);
}

#[test]
fn sleep_needed_fills_budget() {
    assert_eq!(sleep_needed_micros(16_666, 0), 16_666);
    assert_eq!(sleep_needed_micros(16_666, 1_000), 15_666);
    assert_eq!(sleep_needed_micros(16_666, 16_665), 1);
}

#[test]
fn sleep_needed_saturates() {
    assert_eq!(sleep_needed_micros(16_666, 16_666), 0);
    assert_eq!(sleep_needed_micros(16_666, 40_000), 0);
    assert_eq!(sleep_needed_micros(0, 0), 0);
    assert_eq!(sleep_needed_micros(16_666, u64::MAX), 0);
}

#[test]
fn new_sets_defaults() {
    let p = Pacer::new(60, 1_000);
    assert!(p.enabled);
    assert_eq!(p.mode, PacerMode::Exact);
    assert_eq!(p.framerate_target, 60);
    assert_eq!(p.frame_start_micros, 0);
    assert_eq!(p.render_start_micros, 0);
    assert_eq!(p.exact_sleep_micros, 0);
    assert_eq!(p.safety_margin_micros, 1_000);
    assert_eq!(p.last_sleep(), 0);
}

#[test]
fn zero_target_is_clamped() {
    let p = Pacer::new(0, 0);
    assert_eq!(p.framerate_target, 1);
    let mut q = Pacer::new(60, 0);
    q.set_target_hz(0);
    assert_eq!(q.framerate_target, 1);
}

#[test]
fn set_target_hz_is_idempotent() {
    let mut once = Pacer::new(60, 1_000);
    once.set_target_hz(144);
    let mut twice = Pacer::new(60, 1_000);
    twice.set_target_hz(144);
    twice.set_target_hz(144);
    assert_eq!(once.framerate_target, twice.framerate_target);
    assert_eq!(once.enabled, twice.enabled);
    assert_eq!(once.mode, twice.mode);
    assert_eq!(once.frame_start_micros, twice.frame_start_micros);
    assert_eq!(once.render_start_micros, twice.render_start_micros);
    assert_eq!(once.exact_sleep_micros, twice.exact_sleep_micros);
    assert_eq!(once.safety_margin_micros, twice.safety_margin_micros);
}

#[test]
fn setters_touch_only_their_field() {
    let mut p = Pacer::new(60, 1_000);
    p.set_enabled(false);
    assert!(!p.enabled);
    assert_eq!(p.framerate_target, 60);
    p.set_safety_margin(250);
    assert_eq!(p.safety_margin_micros, 250);
    assert!(!p.enabled);
    p.set_mode(PacerMode::ForwardEstimator);
    assert_eq!(p.mode, PacerMode::ForwardEstimator);
    assert_eq!(p.safety_margin_micros, 250);
    p.set_enabled(true);
    assert!(p.enabled);
    assert_eq!(p.mode, PacerMode::ForwardEstimator);
}

#[test]
fn plan_exact_fills_remaining_budget() {
    let p = Pacer::new(60, 1_000);
    // Fresh pacer: the render boundary is at the epoch (reading 0).
    assert_eq!(p.plan_exact(1_000), 15_666);
    assert_eq!(p.plan_exact(0), 16_666);
}

#[test]
fn plan_exact_overrun_is_zero() {
    let p = Pacer::new(60, 1_000);
    assert_eq!(p.plan_exact(16_666), 0);
    assert_eq!(p.plan_exact(40_000), 0);
}

#[test]
fn plan_estimated_subtracts_cost_and_margin() {
    let p = Pacer::new(60, 1_000);
    // Last frame cost 2 ms of CPU; with the 1 ms margin, 16_666 - 3_000.
    assert_eq!(p.plan_estimated(2_000), 13_666);
    // Predicted cost at or above the budget: zero sleep.
    assert_eq!(p.plan_estimated(16_666), 0);
    assert_eq!(p.plan_estimated(u64::MAX), 0);
}
