use fighter_core::input::InputEvents;
use fighter_core::player_state::{
    player_state_system, PlayerState, PlayerStateEnum, CLIP_COUNT, HEAVY_ATTACK_DAMAGE,
    JUMP_IMPULSE, LIGHT_ATTACK_DAMAGE, PLAYER_DASH_SPEED, PLAYER_HEAVY_HIT_SPEED,
    PLAYER_LIGHT_HIT_SPEED, PLAYER_SPEED,
};
use fighter_core::screen_side::ScreenSideEnum;

const ALL: [PlayerStateEnum; 10] = [
    PlayerStateEnum::Idle,
    PlayerStateEnum::Run,
    PlayerStateEnum::Jump,
    PlayerStateEnum::HeavyAttack,
    PlayerStateEnum::LightAttack,
    PlayerStateEnum::Fall,
    PlayerStateEnum::TakeLightHit,
    PlayerStateEnum::TakeHeavyHit,
    PlayerStateEnum::Death,
    PlayerStateEnum::Dash,
];

fn settled(state: PlayerStateEnum) -> PlayerState {
    let mut p = PlayerState::new(0, state);
    p.state_is_dirty = false;
    p
}

fn axis(a: i8) -> InputEvents {
    InputEvents { left_right_axis: a, ..InputEvents::default() }
}

#[test]
fn new_player_is_at_rest_and_pending_entry() {
    let p = PlayerState::new(1, PlayerStateEnum::Idle);
    assert_eq!(p.player_id, 1);
    assert_eq!(p.player_state, PlayerStateEnum::Idle);
    assert_eq!(p.desired_player_state, PlayerStateEnum::Idle);
    assert_eq!((p.x_velocity, p.y_velocity), (0, 0));
    assert!(p.state_is_dirty);
    assert_eq!(p.dash_timer.total_frames, 35);
    assert_eq!(p.light_attack_timer.total_frames, 25);
    assert_eq!(p.heavy_attack_timer.total_frames, 75);
}

#[test]
fn state_names_and_clip_keys() {
    let names: Vec<String> = ALL.iter().map(|s| s.to_string()).collect();
    assert_eq!(
        names,
        vec![
            "Idle", "Run", "Jump", "HeavyAttack", "LightAttack", "Fall", "TakeHit", "TakeHit",
            "Death", "Dash"
        ]
    );
    assert_eq!(PlayerStateEnum::TakeLightHit.clip_key(), PlayerStateEnum::TakeHeavyHit.clip_key());
    assert!(ALL.iter().all(|s| s.clip_key() < CLIP_COUNT));
    assert_eq!(PlayerStateEnum::default(), PlayerStateEnum::Idle);
}

#[test]
fn locked_states_ignore_any_desired_state() {
    let locked = [
        PlayerStateEnum::Jump,
        PlayerStateEnum::Fall,
        PlayerStateEnum::TakeLightHit,
        PlayerStateEnum::TakeHeavyHit,
        PlayerStateEnum::Death,
        PlayerStateEnum::Dash,
    ];
    for cur in locked {
        for desired in ALL {
            let mut p = PlayerState::new(0, cur);
            p.desired_player_state = desired;
            assert!(!p.attempt_to_transition_state());
            assert_eq!(p.player_state, cur);
        }
    }
}

#[test]
fn attacks_only_cancel_into_jump() {
    for cur in [PlayerStateEnum::LightAttack, PlayerStateEnum::HeavyAttack] {
        for desired in ALL {
            let mut p = PlayerState::new(0, cur);
            p.desired_player_state = desired;
            let changed = p.attempt_to_transition_state();
            if desired == PlayerStateEnum::Jump {
                assert!(changed);
                assert_eq!(p.player_state, PlayerStateEnum::Jump);
            } else {
                assert!(!changed);
                assert_eq!(p.player_state, cur);
            }
        }
    }
}

#[test]
fn idle_and_run_take_any_desired_state() {
    for cur in [PlayerStateEnum::Idle, PlayerStateEnum::Run] {
        for desired in ALL {
            let mut p = PlayerState::new(0, cur);
            p.desired_player_state = desired;
            assert_eq!(p.attempt_to_transition_state(), desired != cur);
            assert_eq!(p.player_state, desired);
        }
    }
}

#[test]
fn idle_with_axis_enters_run_at_player_speed() {
    let mut p = settled(PlayerStateEnum::Idle);
    let ev = player_state_system(&mut p, &axis(1), ScreenSideEnum::Left);
    assert_eq!(p.player_state, PlayerStateEnum::Run);
    assert_eq!(p.x_velocity, PLAYER_SPEED);
    assert_eq!(ev.entered, Some(PlayerStateEnum::Run));
    assert!(!p.state_is_dirty);
}

#[test]
fn run_then_jump_keeps_horizontal_velocity() {
    let mut p = settled(PlayerStateEnum::Run);
    p.x_velocity = 10;
    assert!(!p.dash_timer.running);
    let input = InputEvents { jump_was_pressed: true, ..InputEvents::default() };
    player_state_system(&mut p, &input, ScreenSideEnum::Left);
    assert_eq!(p.player_state, PlayerStateEnum::Jump);
    assert_eq!(p.y_velocity, JUMP_IMPULSE);
    assert_eq!(p.x_velocity, 10);
}

#[test]
fn run_without_axis_returns_to_idle() {
    let mut p = settled(PlayerStateEnum::Run);
    p.x_velocity = -10;
    player_state_system(&mut p, &axis(0), ScreenSideEnum::Left);
    assert_eq!(p.player_state, PlayerStateEnum::Idle);
    assert_eq!(p.x_velocity, 0);
}

#[test]
fn dash_needs_axis_and_sets_dash_speed() {
    let mut p = settled(PlayerStateEnum::Idle);
    let no_axis = InputEvents { dash: true, ..InputEvents::default() };
    player_state_system(&mut p, &no_axis, ScreenSideEnum::Left);
    assert_eq!(p.player_state, PlayerStateEnum::Idle);
    let with_axis = InputEvents { dash: true, left_right_axis: -1, ..InputEvents::default() };
    player_state_system(&mut p, &with_axis, ScreenSideEnum::Left);
    assert_eq!(p.player_state, PlayerStateEnum::Dash);
    assert_eq!(p.x_velocity, -PLAYER_DASH_SPEED);
    assert!(p.dash_timer.running);
}

#[test]
fn dash_while_cooling_down_is_ignored() {
    let mut p = settled(PlayerStateEnum::Idle);
    p.dash_timer.start();
    let input = InputEvents { dash: true, left_right_axis: 0, ..InputEvents::default() };
    player_state_system(&mut p, &input, ScreenSideEnum::Left);
    assert_eq!(p.desired_player_state, PlayerStateEnum::Idle);
    assert_eq!(p.player_state, PlayerStateEnum::Idle);
}

#[test]
fn attacks_while_cooling_down_are_ignored() {
    let mut p = settled(PlayerStateEnum::Idle);
    p.light_attack_timer.start();
    p.heavy_attack_timer.start();
    let input = InputEvents {
        light_attack_was_pressed: true,
        heavy_attack_was_pressed: true,
        ..InputEvents::default()
    };
    player_state_system(&mut p, &input, ScreenSideEnum::Left);
    assert_eq!(p.desired_player_state, PlayerStateEnum::Idle);
    assert_eq!(p.player_state, PlayerStateEnum::Idle);
}

#[test]
fn light_attack_stops_and_arms_cooldown() {
    let mut p = settled(PlayerStateEnum::Run);
    p.x_velocity = 10;
    let input = InputEvents { light_attack_was_pressed: true, left_right_axis: 1, ..InputEvents::default() };
    player_state_system(&mut p, &input, ScreenSideEnum::Left);
    assert_eq!(p.player_state, PlayerStateEnum::LightAttack);
    assert_eq!(p.x_velocity, 0);
    assert!(p.light_attack_timer.running);
    assert_eq!(p.light_attack_timer.current_frame, 0);
}

#[test]
fn dirty_frame_ignores_input_and_forces_entry() {
    let mut p = PlayerState::new(0, PlayerStateEnum::LightAttack);
    p.set_player_state_to_transition(PlayerStateEnum::TakeHeavyHit);
    p.current_sprite_index = 3;
    player_state_system(&mut p, &axis(1), ScreenSideEnum::Right);
    assert_eq!(p.player_state, PlayerStateEnum::TakeHeavyHit);
    assert_eq!(p.x_velocity, PLAYER_HEAVY_HIT_SPEED);
    assert_eq!(p.current_sprite_index, 0);
    assert!(!p.state_is_dirty);
}

#[test]
fn light_hit_knockback_points_away_for_left_side() {
    let mut p = PlayerState::new(0, PlayerStateEnum::Idle);
    p.set_player_state_to_transition(PlayerStateEnum::TakeLightHit);
    player_state_system(&mut p, &axis(0), ScreenSideEnum::Left);
    assert_eq!(p.x_velocity, -PLAYER_LIGHT_HIT_SPEED);
    assert_eq!(ScreenSideEnum::Left.back_direction(), -1);
    assert_eq!(ScreenSideEnum::Right.back_direction(), 1);
}

#[test]
fn special_ability_spawns_cloud_once() {
    let mut p = settled(PlayerStateEnum::Idle);
    let input = InputEvents { special_ability: true, ..InputEvents::default() };
    let first = player_state_system(&mut p, &input, ScreenSideEnum::Left);
    let second = player_state_system(&mut p, &input, ScreenSideEnum::Left);
    assert!(first.spawn_cloud);
    assert!(!second.spawn_cloud);
    assert!(p.has_spawned_cloud);
}

#[test]
fn timers_tick_once_per_frame() {
    let mut p = settled(PlayerStateEnum::Idle);
    p.dash_timer.start();
    p.tick_timers();
    p.tick_timers();
    assert_eq!(p.dash_timer.current_frame, 2);
    assert_eq!(p.light_attack_timer.current_frame, 0);
}

#[test]
fn animation_completion_mapping() {
    let expected = [
        PlayerStateEnum::Idle,
        PlayerStateEnum::Run,
        PlayerStateEnum::Jump,
        PlayerStateEnum::Idle,
        PlayerStateEnum::Idle,
        PlayerStateEnum::Fall,
        PlayerStateEnum::Idle,
        PlayerStateEnum::Idle,
        PlayerStateEnum::Death,
        PlayerStateEnum::Idle,
    ];
    for (s, e) in ALL.iter().zip(expected.iter()) {
        let mut p = PlayerState::new(0, *s);
        assert_eq!(p.animation_finished(), *e);
    }
}

#[test]
fn damage_levels_only_for_attacks() {
    let light = PlayerState::new(0, PlayerStateEnum::LightAttack);
    let heavy = PlayerState::new(0, PlayerStateEnum::HeavyAttack);
    let idle = PlayerState::new(0, PlayerStateEnum::Idle);
    assert_eq!(light.level_and_amount_damage(), Some((LIGHT_ATTACK_DAMAGE, PlayerStateEnum::TakeLightHit)));
    assert_eq!(heavy.level_and_amount_damage(), Some((HEAVY_ATTACK_DAMAGE, PlayerStateEnum::TakeHeavyHit)));
    assert_eq!(LIGHT_ATTACK_DAMAGE, 2);
    assert_eq!(HEAVY_ATTACK_DAMAGE, 10);
    assert_eq!(idle.level_and_amount_damage(), None);
}

#[test]
fn hit_reactions_block_further_hits() {
    let mut p = settled(PlayerStateEnum::Idle);
    assert!(p.can_take_a_hit());
    p.set_player_state_to_transition(PlayerStateEnum::TakeLightHit);
    assert!(!p.can_take_a_hit());
    let d = PlayerState::new(0, PlayerStateEnum::Death);
    assert!(!d.can_take_a_hit());
}

#[test]
fn hard_reset_keeps_identity_only() {
    let mut p = PlayerState::new(1, PlayerStateEnum::Dash);
    p.x_velocity = 20;
    p.y_velocity = -3;
    p.is_colliding = true;
    p.has_spawned_cloud = true;
    p.current_sprite_index = 4;
    p.dash_timer.start();
    p.light_attack_timer.start();
    p.heavy_attack_timer.start();
    p.hard_reset();
    assert_eq!(p.player_id, 1);
    assert_eq!(p.player_state, PlayerStateEnum::Idle);
    assert_eq!(p.desired_player_state, PlayerStateEnum::Idle);
    assert_eq!((p.x_velocity, p.y_velocity, p.current_sprite_index), (0, 0, 0));
    assert!(!p.is_colliding && !p.has_spawned_cloud && p.state_is_dirty);
    assert!(!p.dash_timer.running && !p.light_attack_timer.running && !p.heavy_attack_timer.running);
    p.current_sprite_index = 2;
    p.reset_state();
    assert_eq!(p.current_sprite_index, 0);
}
