//! Deterministic per-frame simulation core of a two-player fighting game:
//! ability cooldowns, the combatant state machine, movement integration,
//! hitbox/hurtbox collision, health and the round lifecycle.

pub mod timer;
pub mod input;
pub mod screen_side;
pub mod player_state;
pub mod health;
pub mod round_timer;
pub mod movement;
pub mod collision;
pub mod simulation;
pub mod cloud;
