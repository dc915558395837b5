use vstd::prelude::*;
use crate::health::PlayerHealth;
use crate::player_state::{PlayerState, PlayerStateEnum};
use crate::screen_side::ScreenSideEnum;

verus! {

/// Height of the floor; nothing rests below it.
pub const FLOOR_HEIGHT: i32 = -250;

/// Fall speed gained per airborne frame.
pub const GRAVITY: i32 = 1;

/// Where a combatant stands, in whole units.
#[derive(Copy, Clone, Debug, PartialEq, Eq, Structural, Hash)]
pub struct Position {
    pub x: i32,
    pub y: i32,
}

/// Everything the simulation holds about one combatant.
#[derive(Copy, Clone, Debug, PartialEq, Eq, Hash)]
pub struct Combatant {
    pub state: PlayerState,
    pub health: PlayerHealth,
    pub position: Position,
    pub side: ScreenSideEnum,
}

/// `v` held to the range of `i32`.
pub open spec fn clamp_i32(v: int) -> i32 {
    if v < i32::MIN {
        i32::MIN
    } else if v > i32::MAX {
        i32::MAX
    } else {
        v as i32
    }
}

/// `a + b`, saturating at the bounds of `i32`.
pub fn add_clamped(a: i32, b: i32) -> (r: i32)
    ensures
        r == clamp_i32(a + b),
{
    let s = a as i64 + b as i64;
    if s < i32::MIN as i64 {
        i32::MIN
    } else if s > i32::MAX as i64 {
        i32::MAX
    } else {
        s as i32
    }
}

/// One frame of movement: the position advances by the velocity, then the
/// rules of the current state apply. A jump slows under gravity and turns
/// into a fall once it heads down; a fall speeds up under gravity and lands
/// in `Idle` below the floor; an idle combatant that touches nobody stops;
/// a dead one is held at the floor.
pub open spec fn moved(c: Combatant) -> Combatant {
    let s = c.state;
    let pos = Position {
        x: clamp_i32(c.position.x + s.x_velocity),
        y: clamp_i32(c.position.y + s.y_velocity),
    };
    match s.player_state {
        PlayerStateEnum::Jump => {
            let vy = clamp_i32(s.y_velocity - GRAVITY);
            let s2 = PlayerState { y_velocity: vy, ..s };
            Combatant {
                state: if vy < 0 {
                    s2.requested(PlayerStateEnum::Fall)
                } else {
                    s2
                },
                position: pos,
                ..c
            }
        },
        PlayerStateEnum::Fall => {
            let vy = clamp_i32(s.y_velocity - GRAVITY);
            if pos.y < FLOOR_HEIGHT {
                Combatant {
                    state: PlayerState { y_velocity: 0, ..s }.requested(PlayerStateEnum::Idle),
                    position: Position { y: FLOOR_HEIGHT, ..pos },
                    ..c
                }
            } else {
                Combatant { state: PlayerState { y_velocity: vy, ..s }, position: pos, ..c }
            }
        },
        PlayerStateEnum::Idle => {
            if !s.is_colliding {
                Combatant { state: PlayerState { x_velocity: 0, ..s }, position: pos, ..c }
            } else {
                Combatant { position: pos, ..c }
            }
        },
        PlayerStateEnum::Death => {
            if pos.y < FLOOR_HEIGHT {
                Combatant {
                    state: PlayerState { y_velocity: 0, ..s },
                    position: Position { y: FLOOR_HEIGHT, ..pos },
                    ..c
                }
            } else {
                Combatant { position: pos, ..c }
            }
        },
        _ => Combatant { position: pos, ..c },
    }
}

/// Advances one combatant by one frame of movement.
pub fn player_movement_system(c: &mut Combatant)
    ensures
        *final(c) == moved(*old(c)),
        final(c).state.player_state == old(c).state.player_state,
        final(c).state.current_sprite_index == old(c).state.current_sprite_index,
        final(c).state.wf() == old(c).state.wf(),
{
    c.position.x = add_clamped(c.position.x, c.state.x_velocity);
    c.position.y = add_clamped(c.position.y, c.state.y_velocity);
    match c.state.player_state {
        PlayerStateEnum::Jump => {
            c.state.y_velocity = add_clamped(c.state.y_velocity, -GRAVITY);
            if c.state.y_velocity < 0 {
                c.state.set_player_state_to_transition(PlayerStateEnum::Fall);
            }
        },
        PlayerStateEnum::Fall => {
            if c.position.y < FLOOR_HEIGHT {
                c.state.set_player_state_to_transition(PlayerStateEnum::Idle);
                c.state.y_velocity = 0;
                c.position.y = FLOOR_HEIGHT;
            } else {
                c.state.y_velocity = add_clamped(c.state.y_velocity, -GRAVITY);
            }
        },
        PlayerStateEnum::Idle => {
            if !c.state.is_colliding {
                c.state.x_velocity = 0;
            }
        },
        PlayerStateEnum::Death => {
            if c.position.y < FLOOR_HEIGHT {
                c.state.y_velocity = 0;
                c.position.y = FLOOR_HEIGHT;
            }
        },
        _ => {},
    }
}

} // verus!
