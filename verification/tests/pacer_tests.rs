use gpu_automata::time::Time;

const SEC: u64 = 1_000_000_000;

#[test]
fn ceiling_bounds_updates_per_frame() {
    // Ceiling 3, huge wall-clock budget, zero minimum delay: exactly three
    // updates are permitted after one render tick.
    let mut t = Time::new(3, SEC, u64::MAX, 0);
    t.render_tick_at(0);
    let mut permitted = 0;
    let mut now: u64 = 1;
    while t.can_update_at(now) {
        t.update_tick_at(now);
        permitted += 1;
        now += 1;
    }
    assert_eq!(permitted, 3);
    // A later render tick resets the per-frame counter.
    t.render_tick_at(now);
    assert!(t.can_update_at(now + 1));
}

#[test]
fn wall_clock_budget_denies_late_updates() {
    let mut t = Time::new(100, SEC, 10_000_000, 0);
    t.render_tick_at(0);
    assert!(t.can_update_at(9_999_999));
    assert!(!t.can_update_at(10_000_000));
    assert!(!t.can_update_at(20_000_000));
}

#[test]
fn minimum_delay_throttles_updates() {
    let mut t = Time::new(100, SEC, u64::MAX, 5_000);
    t.render_tick_at(0);
    assert!(!t.can_update_at(4_000));
    assert!(t.can_update_at(5_001));
    t.update_tick_at(5_001);
    assert!(!t.can_update_at(10_000));
    assert!(t.can_update_at(10_002));
}

#[test]
fn fps_sampling_counts_and_resets() {
    let mut t = Time::new(10, SEC, u64::MAX, 0);
    // Three rendered frames, five updates.
    t.render_tick_at(10);
    t.render_tick_at(20);
    t.render_tick_at(30);
    for i in 0..5u64 {
        t.update_tick_at(40 + i);
    }
    // Within the interval: no sample yet.
    assert!(t.get_fps_at(SEC / 2).is_none());
    // After the interval: rates over the configured one-second interval.
    let sample = t.get_fps_at(SEC + 1).unwrap();
    assert_eq!(sample.render_fps, 3);
    assert_eq!(sample.update_fps, 5);
    // A second sample right away is denied: the counters were reset.
    assert!(t.get_fps_at(SEC + 2).is_none());
    // After another interval with no activity both rates are zero.
    let quiet = t.get_fps_at(2 * SEC + 2).unwrap();
    assert_eq!(quiet.render_fps, 0);
    assert_eq!(quiet.update_fps, 0);
}

#[test]
fn fps_rates_scale_with_interval() {
    // A half-second interval doubles the per-second rates.
    let mut t = Time::new(10, SEC / 2, u64::MAX, 0);
    t.render_tick_at(1);
    t.render_tick_at(2);
    let sample = t.get_fps_at(SEC).unwrap();
    assert_eq!(sample.render_fps, 4);
    assert_eq!(sample.update_fps, 0);
}

#[test]
fn update_delays_reconfigures_immediately() {
    let mut t = Time::new(1, SEC, u64::MAX, 0);
    t.render_tick_at(0);
    t.update_tick_at(1);
    // Ceiling of one is exhausted.
    assert!(!t.can_update_at(2));
    // Raising the ceiling takes effect without a new frame.
    t.update_delays(4, 0);
    assert!(t.can_update_at(3));
    // A raised minimum delay is honored at once.
    t.update_delays(4, 1_000_000);
    assert!(!t.can_update_at(500_000));
    assert!(t.can_update_at(1_000_002));
}

#[test]
fn clock_driven_methods_are_usable() {
    // The argument-free methods read the real monotonic clock; only their
    // clock-independent behavior is asserted.
    let mut t = Time::new(2, SEC, u64::MAX, 0);
    t.render_tick();
    t.update_tick();
    t.update_tick();
    // The per-frame ceiling is reached, so no update is allowed now.
    assert!(!t.can_update());
    let _ = t.get_elapsed();
    let _ = t.get_fps();
}
