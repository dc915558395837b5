use fighter_core::health::{PlayerHealth, STARTING_HEALTH};
use fighter_core::round_timer::{round_timer_system, RoundTimer};
use fighter_core::timer::AbilityTimer;

#[test]
fn ability_timer_counts_to_total_then_disarms() {
    let mut t = AbilityTimer::new(3);
    assert!(!t.running());
    t.start();
    assert!(t.running());
    t.tick();
    t.tick();
    assert_eq!(t.current_frame, 2);
    assert!(t.running());
    t.tick();
    assert_eq!(t.current_frame, 3);
    assert!(!t.running());
    t.tick();
    assert_eq!(t.current_frame, 3);
}

#[test]
fn ability_timer_tick_is_noop_when_not_running() {
    let mut t = AbilityTimer::new(5);
    t.tick();
    assert_eq!(t.current_frame, 0);
    assert!(!t.running());
}

#[test]
fn ability_timer_start_rearms_and_reset_clears() {
    let mut t = AbilityTimer::new(4);
    t.start();
    t.tick();
    t.tick();
    t.start();
    assert_eq!(t.current_frame, 0);
    assert!(t.running());
    t.tick();
    t.reset();
    assert_eq!(t.current_frame, 0);
    assert!(!t.running());
}

#[test]
fn ability_timer_of_zero_frames_disarms_on_first_tick() {
    let mut t = AbilityTimer::new(0);
    t.start();
    t.tick();
    assert_eq!(t.current_frame, 0);
    assert!(!t.running());
}

#[test]
fn take_damage_clamps_and_flags_lethal() {
    let mut h = PlayerHealth::new();
    assert_eq!(h.health, STARTING_HEALTH);
    assert!(!h.take_damage(3));
    assert_eq!(h.health, 7);
    assert!(h.take_damage(8));
    assert_eq!(h.health, 0);
}

#[test]
fn take_damage_of_exactly_remaining_health_is_not_lethal() {
    let mut h = PlayerHealth { health: 4 };
    assert!(!h.take_damage(4));
    assert_eq!(h.health, 0);
    assert!(!h.take_damage(0));
    assert_eq!(h.health, 0);
    assert!(h.take_damage(1));
    assert_eq!(h.health, 0);
}

#[test]
fn health_default_is_full() {
    assert_eq!(PlayerHealth::default().health, 10);
}

#[test]
fn round_timer_fires_exactly_once_after_t_seconds() {
    let seconds = 3;
    let mut timer = RoundTimer::new(seconds);
    assert_eq!(timer.round_counter, 180);
    assert_eq!(timer.seconds_left(), 3);
    let mut fired = 0;
    for frame in 1..=seconds * 60 {
        if round_timer_system(&mut timer) {
            fired += 1;
            assert_eq!(frame, 180);
        }
    }
    assert_eq!(fired, 1);
    assert_eq!(timer.round_counter, 0);
    for _ in 0..10 {
        assert!(!round_timer_system(&mut timer));
    }
    assert_eq!(timer.round_counter, 0);
}

#[test]
fn round_timer_reset_restores_full_clock() {
    let mut timer = RoundTimer::new(1);
    for _ in 0..59 {
        round_timer_system(&mut timer);
    }
    assert_eq!(timer.round_counter, 1);
    assert_eq!(timer.seconds_left(), 0);
    timer.reset();
    assert_eq!(timer.round_counter, 60);
    assert_eq!(timer.seconds_left(), 1);
}
