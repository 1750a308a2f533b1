use fire_control::weapon::{FireMode, SpawnPosition, Vec2i, Weapon, WeaponData};

/// A configuration with the given timings and fire mode; time units are
/// read as milliseconds in these tests.
fn data(initial_time: u64, reload_time: u64, fire_mode: FireMode) -> WeaponData {
    WeaponData {
        ammunition: 7,
        damage: 5_000,
        position: SpawnPosition::Local(Vec2i { x: 0, y: 10_000 }),
        reload_time,
        initial_time,
        speed: 400_000,
        direction: -1_570,
        despawn_time: 2_500,
        count: 3,
        spread_weights: Vec2i { x: 1_000, y: 500 },
        fire_mode,
        capacity: 6,
        max_spread_arc: 785,
        projectile_gap: 180,
    }
}

#[test]
fn from_data_copies_fields_and_arms_timers() {
    let d = data(2_000, 1_000, FireMode::Manual);
    let w = Weapon::from(d);
    assert_eq!(w.ammunition, 7);
    assert_eq!(w.damage, 5_000);
    assert_eq!(w.position, SpawnPosition::Local(Vec2i { x: 0, y: 10_000 }));
    assert_eq!(w.speed, 400_000);
    assert_eq!(w.direction, -1_570);
    assert_eq!(w.despawn_time, 2_500);
    assert_eq!(w.count, 3);
    assert_eq!(w.spread_weights, Vec2i { x: 1_000, y: 500 });
    assert_eq!(w.fire_mode, FireMode::Manual);
    assert_eq!(w.capacity, 6);
    assert_eq!(w.max_spread_arc, 785);
    assert_eq!(w.projectile_gap, 180);
    assert_eq!(w.initial_timer.duration, 2_000);
    assert_eq!(w.initial_timer.elapsed, 0);
    assert!(!w.initial_timer.finished());
    assert_eq!(w.reload_timer.duration, 1_000);
    assert_eq!(w.reload_timer.elapsed, 0);
    assert!(!w.reload_timer.finished());
}

#[test]
fn from_data_with_zero_initial_delay_starts_past_it() {
    let w = Weapon::from(data(0, 1_000, FireMode::Automatic));
    assert!(w.initial_timer.finished());
}

#[test]
fn automatic_sequence_across_initial_delay() {
    // Four equal deltas against a 2.0 initial delay and 1.0 reload. The
    // third call crosses the reload threshold; completion is inclusive at
    // exactly the configured duration, so the fourth fires as well.
    let mut w = Weapon::from(data(2_000, 1_000, FireMode::Automatic));
    assert!(!w.update(1_000));
    assert!(!w.update(1_000));
    assert!(w.update(1_000));
    assert!(w.update(1_000));
}

#[test]
fn automatic_sequence_below_reload_boundary() {
    // The other boundary direction: one unit short of the reload duration
    // does not fire; the unit that completes it does.
    let mut w = Weapon::from(data(2_000, 1_000, FireMode::Automatic));
    assert!(!w.update(1_000));
    assert!(!w.update(1_000));
    assert!(!w.update(999));
    assert!(w.update(1));
}

#[test]
fn update_below_initial_delay_never_fires() {
    // Cumulative elapsed time 1_999 < 2_000: every call returns false.
    let mut w = Weapon::from(data(2_000, 1, FireMode::Automatic));
    assert!(!w.update(500));
    assert!(!w.update(500));
    assert!(!w.update(999));
    assert!(!w.initial_timer.finished());
}

#[test]
fn update_crossing_initial_delay_still_returns_false() {
    // The call that finishes the initial delay only advances that delay;
    // the reload countdown has not accumulated anything yet.
    let mut w = Weapon::from(data(2_000, 1_000, FireMode::Automatic));
    assert!(!w.update(1_999));
    assert!(!w.update(1));
    assert!(w.initial_timer.finished());
    assert_eq!(w.reload_timer.elapsed, 0);
}

#[test]
fn reload_timer_untouched_during_initial_delay() {
    let mut w = Weapon::from(data(1_000, 1, FireMode::Automatic));
    assert!(!w.update(500));
    assert_eq!(w.reload_timer.elapsed, 0);
    assert_eq!(w.initial_timer.elapsed, 500);
}

#[test]
fn initial_delay_phase_is_never_reentered() {
    let mut w = Weapon::from(data(100, 50, FireMode::Automatic));
    assert!(!w.update(100));
    assert!(w.initial_timer.finished());
    // However much time passes afterwards, the initial delay stays elapsed.
    w.update(u64::MAX);
    assert!(w.initial_timer.finished());
    w.update(0);
    assert!(w.initial_timer.finished());
    w.update(12_345);
    assert!(w.initial_timer.finished());
}

#[test]
fn automatic_rearms_in_the_firing_update() {
    let mut w = Weapon::from(data(0, 1_000, FireMode::Automatic));
    assert!(!w.update(400));
    assert!(w.update(600));
    // The firing update itself left a fresh countdown behind.
    assert_eq!(w.reload_timer.elapsed, 0);
    assert!(!w.reload_timer.finished());
    // A zero-delta follow-up finds the fresh countdown, not a ready weapon.
    assert!(!w.update(0));
    assert_eq!(w.reload_timer.elapsed, 0);
}

#[test]
fn automatic_fires_periodically_with_reload_period() {
    let mut w = Weapon::from(data(0, 250, FireMode::Automatic));
    for _ in 0..8 {
        assert!(w.update(250));
        assert_eq!(w.reload_timer.elapsed, 0);
    }
}

#[test]
fn automatic_fires_exactly_at_each_threshold() {
    let mut w = Weapon::from(data(0, 300, FireMode::Automatic));
    assert!(!w.update(100));
    assert!(!w.update(100));
    assert!(w.update(100));
    assert!(!w.update(299));
    assert!(w.update(1));
}

#[test]
fn manual_scenario_with_external_reset() {
    // initial 0.0, reload 0.5, manual fire mode.
    let mut w = Weapon::from(data(0, 500, FireMode::Manual));
    assert!(w.update(500));
    // Without an external reset the weapon stays ready.
    assert!(w.update(500));
    w.reload_timer.reset();
    assert!(!w.update(400));
    assert!(w.update(100));
}

#[test]
fn manual_stays_ready_even_with_zero_deltas() {
    let mut w = Weapon::from(data(0, 500, FireMode::Manual));
    assert!(w.update(500));
    assert!(w.update(0));
    assert!(w.update(0));
    assert!(w.reload_timer.finished());
}

#[test]
fn manual_cycle_repeats_after_each_reset() {
    let mut w = Weapon::from(data(0, 500, FireMode::Manual));
    assert!(w.update(500));
    w.reload_timer.reset();
    assert!(!w.update(499));
    assert!(w.update(1));
    w.reload_timer.reset();
    assert!(!w.update(250));
    assert!(w.update(250));
}

#[test]
fn manual_reset_with_new_duration_changes_the_cycle() {
    // A caller that derives its fire rate externally re-arms the reload
    // countdown with a new duration after consuming the ready state.
    let mut w = Weapon::from(data(0, 500, FireMode::Manual));
    assert!(w.update(500));
    w.reload_timer.reset_with_duration(200);
    assert!(!w.update(199));
    assert!(w.update(1));
}

#[test]
fn zero_durations_automatic_always_fires() {
    let mut w = Weapon::from(data(0, 0, FireMode::Automatic));
    assert!(w.update(0));
    assert!(w.update(0));
    assert!(w.update(1_000));
}

#[test]
fn update_changes_no_field_but_the_timers() {
    let mut w = Weapon::from(data(100, 100, FireMode::Automatic));
    w.update(50);
    w.update(50);
    w.update(100);
    assert_eq!(w.ammunition, 7);
    assert_eq!(w.damage, 5_000);
    assert_eq!(w.position, SpawnPosition::Local(Vec2i { x: 0, y: 10_000 }));
    assert_eq!(w.fire_mode, FireMode::Automatic);
    assert_eq!(w.count, 3);
    assert_eq!(w.capacity, 6);
}
