use fighter_core::collision::{
    clip_index_from_name, collide, collision_system, scan_pairs, Collider, ColliderSetComponent,
    ColliderType, Dimension, Offset,
};
use fighter_core::health::PlayerHealth;
use fighter_core::movement::{Combatant, Position};
use fighter_core::player_state::{PlayerState, PlayerStateEnum, CLIP_COUNT, PLAYER_SPEED};
use fighter_core::screen_side::ScreenSideEnum;
use fighter_core::simulation::advance_sprite_frame;

const NAMES: [&str; 9] =
    ["Idle", "Run", "Jump", "HeavyAttack", "LightAttack", "Fall", "TakeHit", "Death", "Dash"];

fn bx(x: i32, y: i32, w: i32, h: i32, t: ColliderType) -> Collider {
    Collider::new(Offset { x, y, z: 0 }, Dimension { w, h }, t)
}

fn body() -> Collider {
    bx(0, 0, 40, 80, ColliderType::HurtBox)
}

/// Every clip: `frames` frames of a body hurtbox; attacks add a hitbox in front.
fn arena_set(frames: usize) -> ColliderSetComponent {
    let mut set = ColliderSetComponent::new();
    for name in NAMES {
        let mut boxes = vec![body()];
        if name == "LightAttack" || name == "HeavyAttack" {
            boxes.push(bx(30, 0, 40, 40, ColliderType::HitBox));
        }
        assert!(set.insert_named(&name.to_string(), vec![boxes; frames]));
    }
    assert!(set.is_complete());
    set
}

fn fighter(id: usize, state: PlayerStateEnum, x: i32, side: ScreenSideEnum) -> Combatant {
    let mut s = PlayerState::new(id, state);
    s.state_is_dirty = false;
    Combatant { state: s, health: PlayerHealth::new(), position: Position { x, y: 0 }, side }
}

#[test]
fn overlap_is_strict_and_symmetric() {
    let a = bx(0, 0, 10, 10, ColliderType::HurtBox);
    let b = bx(0, 0, 10, 10, ColliderType::HitBox);
    let pa = Position { x: 0, y: 0 };
    let touching_edges = Position { x: 10, y: 0 };
    let inside = Position { x: 9, y: 9 };
    let l = ScreenSideEnum::Left;
    assert!(!collide(pa, l, &a, touching_edges, l, &b));
    assert!(!collide(touching_edges, l, &b, pa, l, &a));
    assert!(collide(pa, l, &a, inside, l, &b));
    assert!(collide(inside, l, &b, pa, l, &a));
}

#[test]
fn offsets_mirror_on_the_right() {
    let probe = bx(0, 0, 2, 2, ColliderType::HurtBox);
    let reach = bx(20, 0, 2, 2, ColliderType::HitBox);
    let origin = Position { x: 0, y: 0 };
    let l = ScreenSideEnum::Left;
    let r = ScreenSideEnum::Right;
    assert!(collide(origin, l, &reach, Position { x: 20, y: 0 }, l, &probe));
    assert!(!collide(origin, r, &reach, Position { x: 20, y: 0 }, l, &probe));
    assert!(collide(origin, r, &reach, Position { x: -20, y: 0 }, l, &probe));
}

#[test]
fn scan_classifies_pairs() {
    let p = Position { x: 0, y: 0 };
    let l = ScreenSideEnum::Left;
    let hurt_only = vec![body()];
    let with_hit = vec![body(), bx(30, 0, 40, 40, ColliderType::HitBox)];
    let far = Position { x: 55, y: 0 };
    assert_eq!(scan_pairs(p, l, &with_hit, far, l, &hurt_only), (true, true, false));
    assert_eq!(scan_pairs(far, l, &hurt_only, p, l, &with_hit), (true, false, true));
    assert_eq!(scan_pairs(p, l, &hurt_only, Position { x: 20, y: 0 }, l, &hurt_only), (true, false, false));
    assert_eq!(scan_pairs(p, l, &hurt_only, Position { x: 500, y: 0 }, l, &with_hit), (false, false, false));
    assert_eq!(scan_pairs(p, l, &vec![], p, l, &with_hit), (false, false, false));
}

#[test]
fn light_attack_hit_deals_two_and_forces_light_reaction() {
    let set = arena_set(3);
    let mut attacker = fighter(0, PlayerStateEnum::LightAttack, 0, ScreenSideEnum::Left);
    let mut defender = fighter(1, PlayerStateEnum::Idle, 55, ScreenSideEnum::Right);
    assert_eq!(defender.health.health, 10);
    collision_system(&mut attacker, &mut defender, &set);
    assert_eq!(defender.health.health, 8);
    assert_eq!(attacker.health.health, 10);
    assert_eq!(defender.state.desired_player_state, PlayerStateEnum::TakeLightHit);
    assert!(defender.state.state_is_dirty);
    assert!(!defender.state.can_take_a_hit());
    assert!(attacker.state.is_colliding && defender.state.is_colliding);

    // A second overlapping frame deals nothing while the reaction is pending.
    collision_system(&mut attacker, &mut defender, &set);
    assert_eq!(defender.health.health, 8);

    // The reaction is entered and blocks hits until its clip completes.
    let quiet = fighter_core::input::InputEvents::default();
    fighter_core::player_state::player_state_system(&mut defender.state, &quiet, defender.side);
    assert_eq!(defender.state.player_state, PlayerStateEnum::TakeLightHit);
    assert!(!defender.state.can_take_a_hit());
    assert!(!advance_sprite_frame(&mut defender.state, &set));
    assert!(!advance_sprite_frame(&mut defender.state, &set));
    assert!(!defender.state.can_take_a_hit());
    assert!(advance_sprite_frame(&mut defender.state, &set));
    assert_eq!(defender.state.desired_player_state, PlayerStateEnum::Idle);
    fighter_core::player_state::player_state_system(&mut defender.state, &quiet, defender.side);
    assert_eq!(defender.state.player_state, PlayerStateEnum::Idle);
    assert!(defender.state.can_take_a_hit());
}

#[test]
fn heavy_hit_on_low_health_is_death() {
    let set = arena_set(1);
    let mut attacker = fighter(0, PlayerStateEnum::HeavyAttack, 0, ScreenSideEnum::Left);
    let mut defender = fighter(1, PlayerStateEnum::Run, 55, ScreenSideEnum::Right);
    collision_system(&mut attacker, &mut defender, &set);
    assert_eq!(defender.health.health, 0);
    assert_eq!(defender.state.desired_player_state, PlayerStateEnum::Death);
}

#[test]
fn non_attacking_states_deal_no_damage() {
    let mut set = ColliderSetComponent::new();
    for name in NAMES {
        let boxes = vec![body(), bx(30, 0, 40, 40, ColliderType::HitBox)];
        set.insert_named(&name.to_string(), vec![boxes]);
    }
    let mut a = fighter(0, PlayerStateEnum::Run, 0, ScreenSideEnum::Left);
    let mut b = fighter(1, PlayerStateEnum::Run, 55, ScreenSideEnum::Right);
    collision_system(&mut a, &mut b, &set);
    assert_eq!((a.health.health, b.health.health), (10, 10));
    assert!(a.state.is_colliding);
}

#[test]
fn idle_bodies_push_apart_and_flags_clear_when_separated() {
    let set = arena_set(1);
    let mut a = fighter(0, PlayerStateEnum::Idle, 0, ScreenSideEnum::Left);
    let mut b = fighter(1, PlayerStateEnum::Idle, 30, ScreenSideEnum::Right);
    collision_system(&mut a, &mut b, &set);
    assert!(a.state.is_colliding && b.state.is_colliding);
    assert_eq!(a.state.x_velocity, -PLAYER_SPEED);
    assert_eq!(b.state.x_velocity, PLAYER_SPEED);
    b.position.x = 300;
    collision_system(&mut a, &mut b, &set);
    assert!(!a.state.is_colliding && !b.state.is_colliding);
}

#[test]
fn clip_names_map_to_keys() {
    for (k, name) in NAMES.iter().enumerate() {
        assert_eq!(clip_index_from_name(&name.to_string()), Some(k));
    }
    assert_eq!(clip_index_from_name(&"TakeLightHit".to_string()), None);
    assert_eq!(clip_index_from_name(&String::new()), None);
    let mut set = ColliderSetComponent::new();
    assert!(!set.insert_named(&"Walk".to_string(), vec![vec![body()]]));
    assert!(!set.is_complete());
    assert_eq!(set.colliders.len(), CLIP_COUNT);
}

#[test]
fn fake_set_has_one_idle_hitbox() {
    let set = ColliderSetComponent::fake_one();
    assert_eq!(set.frame_count(PlayerStateEnum::Idle), 1);
    assert_eq!(set.frame_count(PlayerStateEnum::Run), 0);
    let c = set.colliders[0][0][0];
    assert_eq!(c.offset, Offset { x: 1, y: 2, z: 3 });
    assert_eq!(c.dimension, Dimension { w: 0, h: -10 });
    assert_eq!(c.collider_type, ColliderType::HitBox);
}

#[test]
fn sprite_frames_cycle_within_clip() {
    let set = arena_set(2);
    let mut p = PlayerState::new(0, PlayerStateEnum::Run);
    assert!(!advance_sprite_frame(&mut p, &set));
    assert_eq!(p.current_sprite_index, 1);
    assert!(advance_sprite_frame(&mut p, &set));
    assert_eq!(p.current_sprite_index, 0);
    assert_eq!(p.desired_player_state, PlayerStateEnum::Run);
}

#[test]
fn collision_result_does_not_depend_on_order() {
    let set = arena_set(1);
    let a0 = fighter(0, PlayerStateEnum::HeavyAttack, 0, ScreenSideEnum::Left);
    let b0 = fighter(1, PlayerStateEnum::LightAttack, 40, ScreenSideEnum::Right);
    let (mut a1, mut b1) = (a0, b0);
    collision_system(&mut a1, &mut b1, &set);
    let (mut a2, mut b2) = (a0, b0);
    collision_system(&mut b2, &mut a2, &set);
    assert_eq!(a1, a2);
    assert_eq!(b1, b2);
    // Both attacks land: a trade.
    assert_eq!(a1.health.health, 8);
    assert_eq!(b1.health.health, 0);
    assert_eq!(b1.state.desired_player_state, PlayerStateEnum::Death);
    assert_eq!(a1.state.desired_player_state, PlayerStateEnum::TakeLightHit);
}
