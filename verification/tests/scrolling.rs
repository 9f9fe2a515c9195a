use reef_tui::scroll::{
    autoscroll_distance, autoscroll_interval, autoscroll_step, autoscroll_throttled, AxisLock,
    ScrollPacer, DENSE_ACCEL_AT_2, DENSE_ACCEL_AT_3, DENSE_STEP_BASE, SPARSE_STEP,
};
use reef_tui::time::{Clock, Duration, Timestamp};

fn at(ms: u64) -> Timestamp {
    Timestamp::from_millis(ms)
}

/// Between two events of a trackpad.
const DENSE_MS: u64 = 15;

#[test]
fn empty_lock_is_unlocked() {
    let lock = AxisLock::new();
    assert!(!lock.locked_at(at(0)));
}

#[test]
fn single_event_does_not_arm_lock() {
    let mut lock = AxisLock::new();
    lock.observe_at(at(0));
    assert_eq!(lock.streak, 1);
    assert!(!lock.locked_at(at(0)));
    assert!(!lock.locked_at(at(50)));
}

#[test]
fn two_events_within_gap_arm_lock() {
    let mut lock = AxisLock::new();
    lock.observe_at(at(0));
    lock.observe_at(at(50));
    assert_eq!(lock.streak, 2);
    assert!(lock.locked_at(at(50)));
}

#[test]
fn streak_resets_after_gap() {
    let mut lock = AxisLock::new();
    lock.observe_at(at(0));
    lock.observe_at(at(50));
    assert_eq!(lock.streak, 2);
    lock.observe_at(at(250));
    assert_eq!(lock.streak, 1);
    assert!(!lock.locked_at(at(250)));
}

#[test]
fn lock_decays_after_window() {
    let mut lock = AxisLock::new();
    lock.observe_at(at(0));
    lock.observe_at(at(50));
    assert!(lock.locked_at(at(50)));
    assert!(lock.locked_at(at(160)));
    assert!(!lock.locked_at(at(180)));
}

#[test]
fn sustained_swipe_holds_lock_continuously() {
    let mut lock = AxisLock::new();
    for i in 0..20 {
        lock.observe_at(at(i * 15));
    }
    assert!(lock.locked_at(at(285)));
    assert!(!lock.locked_at(at(410)));
}

#[test]
fn gap_and_window_are_exact() {
    let mut lock = AxisLock::new();
    lock.observe_at(at(0));
    lock.observe_at(at(150));
    assert_eq!(lock.streak, 2);
    assert!(lock.locked_at(at(269)));
    assert!(!lock.locked_at(at(270)));
}

#[test]
fn running_clock_arms_the_lock() {
    let clock = Clock::start();
    let mut lock = AxisLock::new();
    lock.observe(&clock);
    lock.observe(&clock);
    assert_eq!(lock.streak, 2);
    assert!(lock.locked(&clock));
    let mut pacer = ScrollPacer::new();
    assert_eq!(pacer.step(&clock), SPARSE_STEP);
}

#[test]
fn step_zero_inside_viewport() {
    assert_eq!(autoscroll_step(15, 10, 30), 0);
    assert_eq!(autoscroll_step(10, 10, 30), 0);
    assert_eq!(autoscroll_step(29, 10, 30), 0);
}

#[test]
fn step_one_just_above_top() {
    assert_eq!(autoscroll_step(9, 10, 30), -1);
}

#[test]
fn step_one_just_below_bottom() {
    assert_eq!(autoscroll_step(30, 10, 30), 1);
}

#[test]
fn step_caps_at_four_far_above() {
    assert_eq!(autoscroll_step(0, 100, 130), -4);
}

#[test]
fn step_caps_at_four_far_below() {
    assert_eq!(autoscroll_step(200, 10, 30), 4);
}

#[test]
fn step_scales_gently_near_edge() {
    assert_eq!(autoscroll_step(7, 10, 30), -2);
    assert_eq!(autoscroll_step(4, 10, 30), -3);
    assert_eq!(autoscroll_step(1, 10, 30), -4);
}

#[test]
fn distance_zero_when_inside() {
    assert_eq!(autoscroll_distance(15, 10, 30), 0);
    assert_eq!(autoscroll_distance(10, 10, 30), 0);
    assert_eq!(autoscroll_distance(29, 10, 30), 0);
}

#[test]
fn distance_above_top_counts_rows_up() {
    assert_eq!(autoscroll_distance(9, 10, 30), 1);
    assert_eq!(autoscroll_distance(0, 10, 30), 10);
}

#[test]
fn distance_below_bottom_counts_rows_down() {
    assert_eq!(autoscroll_distance(30, 10, 30), 1);
    assert_eq!(autoscroll_distance(40, 10, 30), 11);
}

#[test]
fn interval_at_boundary_is_around_90ms() {
    assert_eq!(autoscroll_interval(1), Duration::from_millis(90));
}

#[test]
fn interval_shrinks_with_distance() {
    let a = autoscroll_interval(1);
    let b = autoscroll_interval(5);
    let c = autoscroll_interval(20);
    assert!(b < a);
    assert!(c < b);
}

#[test]
fn interval_floors_at_15ms() {
    assert_eq!(autoscroll_interval(500), Duration::from_millis(15));
    assert_eq!(autoscroll_interval(u16::MAX), Duration::from_millis(15));
}

#[test]
fn autoscroll_waits_for_its_interval() {
    assert!(!autoscroll_throttled(None, 1, at(0)));
    assert!(autoscroll_throttled(Some(at(0)), 1, at(89)));
    assert!(!autoscroll_throttled(Some(at(0)), 1, at(90)));
}

#[test]
fn first_event_returns_sparse_step() {
    let mut p = ScrollPacer::new();
    assert_eq!(p.step_at(at(0)), SPARSE_STEP);
}

#[test]
fn dense_cadence_returns_base_step() {
    let mut p = ScrollPacer::new();
    p.step_at(at(0));
    assert_eq!(p.step_at(at(30)), DENSE_STEP_BASE);
}

#[test]
fn sparse_cadence_after_pause_returns_sparse() {
    let mut p = ScrollPacer::new();
    p.step_at(at(0));
    p.step_at(at(30));
    assert_eq!(p.step_at(at(230)), SPARSE_STEP);
}

#[test]
fn dense_streak_accelerates_to_2() {
    let mut p = ScrollPacer::new();
    p.step_at(at(0));
    for i in 1..DENSE_ACCEL_AT_2 {
        let s = p.step_at(at(i as u64 * DENSE_MS));
        assert_eq!(s, DENSE_STEP_BASE, "event {i} should still be base");
    }
    let s = p.step_at(at(DENSE_ACCEL_AT_2 as u64 * DENSE_MS));
    assert_eq!(s, 2);
}

#[test]
fn dense_streak_caps_at_3() {
    let mut p = ScrollPacer::new();
    p.step_at(at(0));
    let mut last = 0;
    for i in 1..=100 {
        last = p.step_at(at(i * DENSE_MS));
    }
    assert_eq!(last, 3);
}

#[test]
fn sparse_event_resets_dense_streak() {
    let mut p = ScrollPacer::new();
    p.step_at(at(0));
    for i in 1..=30 {
        p.step_at(at(i * DENSE_MS));
    }
    let sparse = p.step_at(at(30 * DENSE_MS + 200));
    assert_eq!(sparse, SPARSE_STEP);
    let dense = p.step_at(at(30 * DENSE_MS + 200 + DENSE_MS));
    assert_eq!(dense, DENSE_STEP_BASE);
}

#[test]
fn accelerates_to_3_at_exact_boundary() {
    let mut p = ScrollPacer::new();
    p.step_at(at(0));
    for i in 1..DENSE_ACCEL_AT_3 {
        p.step_at(at(i as u64 * DENSE_MS));
    }
    let s = p.step_at(at(DENSE_ACCEL_AT_3 as u64 * DENSE_MS));
    assert_eq!(s, 3);
}

#[test]
fn interval_exactly_at_threshold_is_sparse() {
    let mut p = ScrollPacer::new();
    p.step_at(at(0));
    assert_eq!(p.step_at(at(60)), SPARSE_STEP);
}
