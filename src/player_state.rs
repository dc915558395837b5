use vstd::prelude::*;
use crate::input::InputEvents;
use crate::screen_side::{back_dir, ScreenSideEnum};
use crate::timer::AbilityTimer;

verus! {

/// Horizontal speed of a run, per frame and per unit of the input axis.
pub const PLAYER_SPEED: i32 = 10;

/// Upward velocity given on entering a jump.
pub const JUMP_IMPULSE: i32 = 25;

/// Horizontal speed of a dash, per frame and per unit of the input axis.
pub const PLAYER_DASH_SPEED: i32 = 20;

/// Knockback speed after a light hit.
pub const PLAYER_LIGHT_HIT_SPEED: i32 = 4;

/// Knockback speed after a heavy hit.
pub const PLAYER_HEAVY_HIT_SPEED: i32 = 8;

pub const DASH_COOLDOWN_FRAMES: usize = 35;

pub const LIGHT_ATTACK_COOLDOWN_FRAMES: usize = 25;

pub const HEAVY_ATTACK_COOLDOWN_FRAMES: usize = 75;

pub const LIGHT_ATTACK_DAMAGE: usize = 2;

pub const HEAVY_ATTACK_DAMAGE: usize = 10;

/// The states of a combatant.
#[derive(Copy, Clone, Debug, PartialEq, Eq, Structural, Hash)]
pub enum PlayerStateEnum {
    Idle,
    Run,
    Jump,
    HeavyAttack,
    LightAttack,
    Fall,
    TakeLightHit,
    TakeHeavyHit,
    Death,
    Dash,
}

/// Marks the first combatant.
#[derive(Copy, Clone, Debug, Default)]
pub struct Player1;

/// Marks the second combatant.
#[derive(Copy, Clone, Debug, Default)]
pub struct Player2;

/// Name of the animation clip (and collider set) of a state; the two hit
/// reactions share one.
pub open spec fn clip_name(s: PlayerStateEnum) -> Seq<char> {
    match s {
        PlayerStateEnum::Idle => "Idle"@,
        PlayerStateEnum::Run => "Run"@,
        PlayerStateEnum::Jump => "Jump"@,
        PlayerStateEnum::HeavyAttack => "HeavyAttack"@,
        PlayerStateEnum::LightAttack => "LightAttack"@,
        PlayerStateEnum::Fall => "Fall"@,
        PlayerStateEnum::TakeLightHit => "TakeHit"@,
        PlayerStateEnum::TakeHeavyHit => "TakeHit"@,
        PlayerStateEnum::Death => "Death"@,
        PlayerStateEnum::Dash => "Dash"@,
    }
}

/// Number of distinct animation clips.
pub const CLIP_COUNT: usize = 9;

/// Index of a state's clip among the `CLIP_COUNT` clips.
pub open spec fn clip_index(s: PlayerStateEnum) -> nat {
    match s {
        PlayerStateEnum::Idle => 0,
        PlayerStateEnum::Run => 1,
        PlayerStateEnum::Jump => 2,
        PlayerStateEnum::HeavyAttack => 3,
        PlayerStateEnum::LightAttack => 4,
        PlayerStateEnum::Fall => 5,
        PlayerStateEnum::TakeLightHit => 6,
        PlayerStateEnum::TakeHeavyHit => 6,
        PlayerStateEnum::Death => 7,
        PlayerStateEnum::Dash => 8,
    }
}

/// The state whose clip has index `k`.
pub open spec fn clip_state(k: nat) -> PlayerStateEnum {
    if k == 0 {
        PlayerStateEnum::Idle
    } else if k == 1 {
        PlayerStateEnum::Run
    } else if k == 2 {
        PlayerStateEnum::Jump
    } else if k == 3 {
        PlayerStateEnum::HeavyAttack
    } else if k == 4 {
        PlayerStateEnum::LightAttack
    } else if k == 5 {
        PlayerStateEnum::Fall
    } else if k == 6 {
        PlayerStateEnum::TakeLightHit
    } else if k == 7 {
        PlayerStateEnum::Death
    } else {
        PlayerStateEnum::Dash
    }
}

/// The legality table: which state a combatant in `cur` moves to when
/// `desired` is requested.
pub open spec fn transition_target(cur: PlayerStateEnum, desired: PlayerStateEnum) -> PlayerStateEnum {
    match cur {
        PlayerStateEnum::Idle | PlayerStateEnum::Run => desired,
        PlayerStateEnum::HeavyAttack | PlayerStateEnum::LightAttack => {
            if desired == PlayerStateEnum::Jump {
                PlayerStateEnum::Jump
            } else {
                cur
            }
        },
        _ => cur,
    }
}

/// The state that follows a full cycle of a state's animation.
pub open spec fn animation_next(s: PlayerStateEnum) -> PlayerStateEnum {
    match s {
        PlayerStateEnum::HeavyAttack | PlayerStateEnum::LightAttack | PlayerStateEnum::TakeLightHit
        | PlayerStateEnum::TakeHeavyHit | PlayerStateEnum::Dash => PlayerStateEnum::Idle,
        _ => s,
    }
}

/// Hit and death reactions cannot be interrupted by another hit.
pub open spec fn is_hit_reaction(s: PlayerStateEnum) -> bool {
    s == PlayerStateEnum::TakeLightHit || s == PlayerStateEnum::TakeHeavyHit || s
        == PlayerStateEnum::Death
}

/// Damage dealt by an attacker in state `s`, and the reaction it forces;
/// `None` when `s` is not an attack.
pub open spec fn damage_of(s: PlayerStateEnum) -> Option<(usize, PlayerStateEnum)> {
    match s {
        PlayerStateEnum::LightAttack => Some((LIGHT_ATTACK_DAMAGE, PlayerStateEnum::TakeLightHit)),
        PlayerStateEnum::HeavyAttack => Some((HEAVY_ATTACK_DAMAGE, PlayerStateEnum::TakeHeavyHit)),
        _ => None,
    }
}

impl Default for PlayerStateEnum {
    fn default() -> (r: PlayerStateEnum)
        ensures
            r == PlayerStateEnum::Idle,
    {
        PlayerStateEnum::Idle
    }
}

impl PlayerStateEnum {
    pub fn to_string(&self) -> (r: String)
        ensures
            r@ == clip_name(*self),
    {
        match self {
            PlayerStateEnum::Idle => "Idle".to_owned(),
            PlayerStateEnum::Run => "Run".to_owned(),
            PlayerStateEnum::Jump => "Jump".to_owned(),
            PlayerStateEnum::HeavyAttack => "HeavyAttack".to_owned(),
            PlayerStateEnum::LightAttack => "LightAttack".to_owned(),
            PlayerStateEnum::Fall => "Fall".to_owned(),
            PlayerStateEnum::TakeLightHit => "TakeHit".to_owned(),
            PlayerStateEnum::TakeHeavyHit => "TakeHit".to_owned(),
            PlayerStateEnum::Death => "Death".to_owned(),
            PlayerStateEnum::Dash => "Dash".to_owned(),
        }
    }

    /// Index of this state's clip, which also keys its colliders.
    pub fn clip_key(&self) -> (r: usize)
        ensures
            r == clip_index(*self),
            r < CLIP_COUNT,
    {
        match self {
            PlayerStateEnum::Idle => 0,
            PlayerStateEnum::Run => 1,
            PlayerStateEnum::Jump => 2,
            PlayerStateEnum::HeavyAttack => 3,
            PlayerStateEnum::LightAttack => 4,
            PlayerStateEnum::Fall => 5,
            PlayerStateEnum::TakeLightHit => 6,
            PlayerStateEnum::TakeHeavyHit => 6,
            PlayerStateEnum::Death => 7,
            PlayerStateEnum::Dash => 8,
        }
    }
}

/// Per-combatant combat state.
#[derive(Copy, Clone, Debug, PartialEq, Eq, Hash)]
pub struct PlayerState {
    pub player_id: usize,
    pub player_state: PlayerStateEnum,
    pub desired_player_state: PlayerStateEnum,
    pub current_sprite_index: usize,
    pub x_velocity: i32,
    pub y_velocity: i32,
    pub is_colliding: bool,
    pub state_is_dirty: bool,
    pub has_spawned_cloud: bool,
    pub dash_timer: AbilityTimer,
    pub light_attack_timer: AbilityTimer,
    pub heavy_attack_timer: AbilityTimer,
}

/// The state a combatant's input asks for this frame, if any. Later checks
/// win over earlier ones: dash, then light attack, heavy attack, jump, and
/// last the run/idle choice made by the axis.
pub open spec fn input_request(p: PlayerState, input: InputEvents) -> Option<PlayerStateEnum> {
    let grounded = p.player_state == PlayerStateEnum::Idle || p.player_state
        == PlayerStateEnum::Run;
    if grounded && input.dash && input.left_right_axis != 0 && !p.dash_timer.running {
        Some(PlayerStateEnum::Dash)
    } else if grounded && input.light_attack_was_pressed && !p.light_attack_timer.running {
        Some(PlayerStateEnum::LightAttack)
    } else if grounded && input.heavy_attack_was_pressed && !p.heavy_attack_timer.running {
        Some(PlayerStateEnum::HeavyAttack)
    } else if grounded && input.jump_was_pressed {
        Some(PlayerStateEnum::Jump)
    } else if input.left_right_axis != 0 && p.player_state == PlayerStateEnum::Idle {
        Some(PlayerStateEnum::Run)
    } else if input.left_right_axis == 0 && p.player_state == PlayerStateEnum::Run {
        Some(PlayerStateEnum::Idle)
    } else {
        None
    }
}

/// Whether the special ability spawns its effect this frame.
pub open spec fn wants_cloud(p: PlayerState, input: InputEvents) -> bool {
    p.player_state == PlayerStateEnum::Idle && input.special_ability && !p.has_spawned_cloud
}

impl PlayerState {
    pub open spec fn wf(self) -> bool {
        &&& self.dash_timer.wf()
        &&& self.light_attack_timer.wf()
        &&& self.heavy_attack_timer.wf()
    }

    /// A fresh combatant in `state`, about to enter it.
    pub open spec fn fresh(player_id: usize, state: PlayerStateEnum) -> PlayerState {
        PlayerState {
            player_id,
            player_state: state,
            desired_player_state: state,
            current_sprite_index: 0,
            x_velocity: 0,
            y_velocity: 0,
            is_colliding: false,
            state_is_dirty: true,
            has_spawned_cloud: false,
            dash_timer: AbilityTimer {
                total_frames: DASH_COOLDOWN_FRAMES,
                current_frame: 0,
                running: false,
            },
            light_attack_timer: AbilityTimer {
                total_frames: LIGHT_ATTACK_COOLDOWN_FRAMES,
                current_frame: 0,
                running: false,
            },
            heavy_attack_timer: AbilityTimer {
                total_frames: HEAVY_ATTACK_COOLDOWN_FRAMES,
                current_frame: 0,
                running: false,
            },
        }
    }

    /// The combatant after `desired` has been requested.
    pub open spec fn requested(self, desired: PlayerStateEnum) -> PlayerState {
        PlayerState { desired_player_state: desired, state_is_dirty: true, ..self }
    }

    /// The combatant after the legality table has been applied.
    pub open spec fn transitioned(self) -> PlayerState {
        PlayerState {
            player_state: transition_target(self.player_state, self.desired_player_state),
            ..self
        }
    }

    pub open spec fn timers_ticked(self) -> PlayerState {
        PlayerState {
            dash_timer: self.dash_timer.ticked(),
            light_attack_timer: self.light_attack_timer.ticked(),
            heavy_attack_timer: self.heavy_attack_timer.ticked(),
            ..self
        }
    }

    /// Back to `Idle` at rest, with every timer and flag cleared; only the
    /// identity stays.
    pub open spec fn hard_reset_of(self) -> PlayerState {
        PlayerState {
            player_state: PlayerStateEnum::Idle,
            desired_player_state: PlayerStateEnum::Idle,
            current_sprite_index: 0,
            x_velocity: 0,
            y_velocity: 0,
            is_colliding: false,
            state_is_dirty: true,
            has_spawned_cloud: false,
            dash_timer: self.dash_timer.cleared(),
            light_attack_timer: self.light_attack_timer.cleared(),
            heavy_attack_timer: self.heavy_attack_timer.cleared(),
            ..self
        }
    }

    pub open spec fn hittable(self) -> bool {
        !is_hit_reaction(self.player_state) && !is_hit_reaction(self.desired_player_state)
    }

    /// Input is read only on a frame when no transition is pending.
    pub open spec fn after_input(self, input: InputEvents) -> PlayerState {
        if self.state_is_dirty {
            self
        } else {
            match input_request(self, input) {
                Some(d) => self.requested(d),
                None => self,
            }
        }
    }

    /// The entry actions of the desired state: first sprite, velocity and
    /// cooldown of that state.
    pub open spec fn entered(self, input: InputEvents, side: ScreenSideEnum) -> PlayerState {
        let base = PlayerState {
            player_state: self.desired_player_state,
            current_sprite_index: 0,
            ..self
        };
        let axis = input.left_right_axis as int;
        match self.desired_player_state {
            PlayerStateEnum::Idle => PlayerState { x_velocity: 0, ..base },
            PlayerStateEnum::Run => PlayerState { x_velocity: (PLAYER_SPEED * axis) as i32, ..base },
            PlayerStateEnum::Jump => PlayerState { y_velocity: JUMP_IMPULSE, ..base },
            PlayerStateEnum::HeavyAttack => PlayerState {
                x_velocity: 0,
                heavy_attack_timer: self.heavy_attack_timer.started(),
                ..base
            },
            PlayerStateEnum::LightAttack => PlayerState {
                x_velocity: 0,
                light_attack_timer: self.light_attack_timer.started(),
                ..base
            },
            PlayerStateEnum::Fall => base,
            PlayerStateEnum::TakeLightHit => PlayerState {
                x_velocity: (PLAYER_LIGHT_HIT_SPEED * back_dir(side)) as i32,
                ..base
            },
            PlayerStateEnum::TakeHeavyHit => PlayerState {
                x_velocity: (PLAYER_HEAVY_HIT_SPEED * back_dir(side)) as i32,
                ..base
            },
            PlayerStateEnum::Death => PlayerState { x_velocity: 0, ..base },
            PlayerStateEnum::Dash => PlayerState {
                x_velocity: (PLAYER_DASH_SPEED * axis) as i32,
                dash_timer: self.dash_timer.started(),
                ..base
            },
        }
    }

    /// The combatant after its input and cloud latch have been handled,
    /// before the transition.
    pub open spec fn prepared(self, input: InputEvents) -> PlayerState {
        let t = self.timers_ticked();
        let a = t.after_input(input);
        if wants_cloud(a, input) {
            PlayerState { has_spawned_cloud: true, ..a }
        } else {
            a
        }
    }

    /// Whether this frame runs the entry actions of the desired state.
    pub open spec fn enters(self, input: InputEvents) -> bool {
        let c = self.prepared(input);
        c.transitioned().player_state != c.player_state || c.state_is_dirty
    }

    /// The combatant at the end of one frame of the state machine.
    pub open spec fn frame_result(self, input: InputEvents, side: ScreenSideEnum) -> PlayerState {
        let m = self.prepared(input).transitioned();
        let e = if self.enters(input) {
            m.entered(input, side)
        } else {
            m
        };
        PlayerState { state_is_dirty: false, ..e }
    }

    /// What the rendering side hears of one frame of the state machine.
    pub open spec fn frame_events(self, input: InputEvents) -> StateFrameEvents {
        StateFrameEvents {
            entered: if self.enters(input) {
                Some(self.prepared(input).desired_player_state)
            } else {
                None
            },
            spawn_cloud: wants_cloud(self.timers_ticked().after_input(input), input),
        }
    }

    /// Entry actions put a combatant on the first sprite of its new state,
    /// and otherwise its state and sprite stay.
    pub proof fn lemma_frame_keeps_sprite(self, input: InputEvents, side: ScreenSideEnum)
        ensures
            self.frame_result(input, side).current_sprite_index == 0 || (
            self.frame_result(input, side).player_state == self.player_state
                && self.frame_result(input, side).current_sprite_index
                == self.current_sprite_index),
            self.frame_result(input, side).player_id == self.player_id,
    {
    }

    pub fn new(player_id: usize, player_state: PlayerStateEnum) -> (r: PlayerState)
        ensures
            r == PlayerState::fresh(player_id, player_state),
            r.wf(),
    {
        PlayerState {
            player_id,
            player_state,
            desired_player_state: player_state,
            current_sprite_index: 0,
            x_velocity: 0,
            y_velocity: 0,
            is_colliding: false,
            state_is_dirty: true,
            has_spawned_cloud: false,
            dash_timer: AbilityTimer::new(DASH_COOLDOWN_FRAMES),
            light_attack_timer: AbilityTimer::new(LIGHT_ATTACK_COOLDOWN_FRAMES),
            heavy_attack_timer: AbilityTimer::new(HEAVY_ATTACK_COOLDOWN_FRAMES),
        }
    }

    /// Applies the legality table to the desired state; the only place the
    /// current state changes outside of entry actions. Returns whether it
    /// changed.
    pub fn attempt_to_transition_state(&mut self) -> (r: bool)
        ensures
            *final(self) == old(self).transitioned(),
            r == (final(self).player_state != old(self).player_state),
    {
        let initial = self.player_state;
        match self.player_state {
            PlayerStateEnum::Idle | PlayerStateEnum::Run => {
                self.player_state = self.desired_player_state;
            },
            PlayerStateEnum::HeavyAttack | PlayerStateEnum::LightAttack => {
                if self.desired_player_state == PlayerStateEnum::Jump {
                    self.player_state = PlayerStateEnum::Jump;
                }
            },
            _ => {},
        }
        initial != self.player_state
    }

    pub fn reset_state(&mut self)
        ensures
            *final(self) == (PlayerState { current_sprite_index: 0, ..*old(self) }),
    {
        self.current_sprite_index = 0;
    }

    pub fn hard_reset(&mut self)
        ensures
            *final(self) == old(self).hard_reset_of(),
            final(self).wf(),
    {
        self.player_state = PlayerStateEnum::Idle;
        self.desired_player_state = PlayerStateEnum::Idle;
        self.current_sprite_index = 0;
        self.x_velocity = 0;
        self.y_velocity = 0;
        self.is_colliding = false;
        self.state_is_dirty = true;
        self.has_spawned_cloud = false;
        self.dash_timer.reset();
        self.light_attack_timer.reset();
        self.heavy_attack_timer.reset();
    }

    /// The state that the current one hands over to once its animation has
    /// played a full cycle.
    pub fn animation_finished(&mut self) -> (r: PlayerStateEnum)
        ensures
            r == animation_next(old(self).player_state),
            *final(self) == *old(self),
    {
        match self.player_state {
            PlayerStateEnum::HeavyAttack | PlayerStateEnum::LightAttack
            | PlayerStateEnum::TakeLightHit | PlayerStateEnum::TakeHeavyHit
            | PlayerStateEnum::Dash => PlayerStateEnum::Idle,
            _ => self.player_state,
        }
    }

    /// False while a hit or death reaction is current or pending.
    pub fn can_take_a_hit(&self) -> (r: bool)
        ensures
            r == self.hittable(),
    {
        let cur = self.player_state;
        let des = self.desired_player_state;
        !(cur == PlayerStateEnum::TakeLightHit || cur == PlayerStateEnum::TakeHeavyHit || cur
            == PlayerStateEnum::Death) && !(des == PlayerStateEnum::TakeLightHit || des
            == PlayerStateEnum::TakeHeavyHit || des == PlayerStateEnum::Death)
    }

    /// Requests `new_player_state`; the next frame enters it whatever the
    /// legality table says.
    pub fn set_player_state_to_transition(&mut self, new_player_state: PlayerStateEnum)
        ensures
            *final(self) == old(self).requested(new_player_state),
    {
        self.desired_player_state = new_player_state;
        self.state_is_dirty = true;
    }

    pub fn tick_timers(&mut self)
        ensures
            *final(self) == old(self).timers_ticked(),
            old(self).wf() ==> final(self).wf(),
    {
        self.light_attack_timer.tick();
        self.heavy_attack_timer.tick();
        self.dash_timer.tick();
    }

    /// Damage and forced reaction of a hit landed by this combatant.
    pub fn level_and_amount_damage(&self) -> (r: Option<(usize, PlayerStateEnum)>)
        ensures
            r == damage_of(self.player_state),
    {
        match self.player_state {
            PlayerStateEnum::LightAttack => Some((LIGHT_ATTACK_DAMAGE, PlayerStateEnum::TakeLightHit)),
            PlayerStateEnum::HeavyAttack => Some((HEAVY_ATTACK_DAMAGE, PlayerStateEnum::TakeHeavyHit)),
            _ => None,
        }
    }
}

/// What one frame of the state machine hands to the rendering side.
#[derive(Copy, Clone, Debug, PartialEq, Eq, Hash)]
pub struct StateFrameEvents {
    /// The state whose entry actions ran this frame; its clip starts over.
    pub entered: Option<PlayerStateEnum>,
    /// Whether the special ability's effect is spawned this frame.
    pub spawn_cloud: bool,
}

impl PlayerState {
    /// Sets the desired state from this frame's input, unless a transition
    /// is already pending. Moves are only taken from `Idle` or `Run`, and an
    /// ability is only taken while its cooldown is not running.
    pub fn read_input(&mut self, input: &InputEvents)
        ensures
            *final(self) == old(self).after_input(*input),
    {
        if !self.state_is_dirty {
            let grounded = self.player_state == PlayerStateEnum::Idle || self.player_state
                == PlayerStateEnum::Run;
            if input.left_right_axis != 0 {
                if self.player_state == PlayerStateEnum::Idle {
                    self.set_player_state_to_transition(PlayerStateEnum::Run);
                }
            } else if self.player_state == PlayerStateEnum::Run {
                self.set_player_state_to_transition(PlayerStateEnum::Idle);
            }
            if input.jump_was_pressed && grounded {
                self.set_player_state_to_transition(PlayerStateEnum::Jump);
            }
            if input.heavy_attack_was_pressed && !self.heavy_attack_timer.running && grounded {
                self.set_player_state_to_transition(PlayerStateEnum::HeavyAttack);
            }
            if input.light_attack_was_pressed && !self.light_attack_timer.running && grounded {
                self.set_player_state_to_transition(PlayerStateEnum::LightAttack);
            }
            if input.dash && input.left_right_axis != 0 && !self.dash_timer.running && grounded {
                self.set_player_state_to_transition(PlayerStateEnum::Dash);
            }
        }
    }

    /// Runs the entry actions of the desired state.
    pub fn enter_desired_state(&mut self, input: &InputEvents, side: ScreenSideEnum)
        ensures
            *final(self) == old(self).entered(*input, side),
    {
        let axis = input.left_right_axis as i32;
        match self.desired_player_state {
            PlayerStateEnum::Idle => {
                self.x_velocity = 0;
            },
            PlayerStateEnum::Run => {
                self.x_velocity = PLAYER_SPEED * axis;
            },
            PlayerStateEnum::Jump => {
                self.y_velocity = JUMP_IMPULSE;
            },
            PlayerStateEnum::HeavyAttack => {
                self.x_velocity = 0;
                self.heavy_attack_timer.start();
            },
            PlayerStateEnum::LightAttack => {
                self.x_velocity = 0;
                self.light_attack_timer.start();
            },
            PlayerStateEnum::Fall => {},
            PlayerStateEnum::TakeLightHit => {
                self.x_velocity = PLAYER_LIGHT_HIT_SPEED * side.back_direction();
            },
            PlayerStateEnum::TakeHeavyHit => {
                self.x_velocity = PLAYER_HEAVY_HIT_SPEED * side.back_direction();
            },
            PlayerStateEnum::Death => {
                self.x_velocity = 0;
            },
            PlayerStateEnum::Dash => {
                self.x_velocity = PLAYER_DASH_SPEED * axis;
                self.dash_timer.start();
            },
        }
        self.current_sprite_index = 0;
        self.player_state = self.desired_player_state;
    }
}

/// One frame of the state machine for one combatant: tick the cooldowns,
/// read the input unless a transition is pending, latch the special
/// ability, apply the legality table, and run the entry actions when the
/// state changed or a transition was pending.
pub fn player_state_system(player: &mut PlayerState, input: &InputEvents, side: ScreenSideEnum) -> (r:
    StateFrameEvents)
    ensures
        *final(player) == old(player).frame_result(*input, side),
        r == old(player).frame_events(*input),
        old(player).wf() ==> final(player).wf(),
{
    player.tick_timers();
    player.read_input(input);
    let spawn_cloud = player.player_state == PlayerStateEnum::Idle && input.special_ability
        && !player.has_spawned_cloud;
    if spawn_cloud {
        player.has_spawned_cloud = true;
    }
    let desired = player.desired_player_state;
    let changed = player.attempt_to_transition_state();
    let entered = if changed || player.state_is_dirty {
        player.enter_desired_state(input, side);
        Some(desired)
    } else {
        None
    };
    player.state_is_dirty = false;
    StateFrameEvents { entered, spawn_cloud }
}

/// The legality table: a combatant that is jumping, falling, reacting to a
/// hit, dead or dashing keeps its state whatever state is desired; an
/// attack can only be cancelled into a jump; from `Idle` or `Run` any
/// desired state is taken.
pub proof fn lemma_transition_legality(p: PlayerState)
    ensures
        (p.player_state == PlayerStateEnum::Jump || p.player_state == PlayerStateEnum::Fall
            || p.player_state == PlayerStateEnum::TakeLightHit || p.player_state
            == PlayerStateEnum::TakeHeavyHit || p.player_state == PlayerStateEnum::Death
            || p.player_state == PlayerStateEnum::Dash) ==> p.transitioned().player_state
            == p.player_state,
        (p.player_state == PlayerStateEnum::LightAttack || p.player_state
            == PlayerStateEnum::HeavyAttack) ==> (p.transitioned().player_state == p.player_state
            || p.transitioned().player_state == PlayerStateEnum::Jump),
        (p.player_state == PlayerStateEnum::Idle || p.player_state == PlayerStateEnum::Run)
            ==> p.transitioned().player_state == p.desired_player_state,
        p.transitioned() == (PlayerState { player_state: p.transitioned().player_state, ..p }),
{
}

/// Pressing dash while the dash cooldown runs has no effect: the input step
/// and the whole frame come out as if dash were not pressed.
pub proof fn lemma_dash_gated(p: PlayerState, input: InputEvents, side: ScreenSideEnum)
    ensures
        p.dash_timer.running ==> p.after_input(input) == p.after_input(
            InputEvents { dash: false, ..input },
        ),
        p.timers_ticked().dash_timer.running ==> p.frame_result(input, side) == p.frame_result(
            InputEvents { dash: false, ..input },
            side,
        ),
{
    let released = InputEvents { dash: false, ..input };
    let t = p.timers_ticked();
    if t.dash_timer.running {
        assert(t.after_input(input) == t.after_input(released));
        assert(p.prepared(input) == p.prepared(released));
        assert(p.enters(input) == p.enters(released));
        let m = p.prepared(input).transitioned();
        assert(m.entered(input, side) == m.entered(released, side));
    }
}

/// Pressing light attack while its cooldown runs has no effect: the input
/// step and the whole frame come out as if it were not pressed.
pub proof fn lemma_light_attack_gated(p: PlayerState, input: InputEvents, side: ScreenSideEnum)
    ensures
        p.light_attack_timer.running ==> p.after_input(input) == p.after_input(
            InputEvents { light_attack_was_pressed: false, ..input },
        ),
        p.timers_ticked().light_attack_timer.running ==> p.frame_result(input, side) == p.frame_result(
            InputEvents { light_attack_was_pressed: false, ..input },
            side,
        ),
{
    let released = InputEvents { light_attack_was_pressed: false, ..input };
    let t = p.timers_ticked();
    if t.light_attack_timer.running {
        assert(t.after_input(input) == t.after_input(released));
        assert(p.prepared(input) == p.prepared(released));
        assert(p.enters(input) == p.enters(released));
        let m = p.prepared(input).transitioned();
        assert(m.entered(input, side) == m.entered(released, side));
    }
}

/// Pressing heavy attack while its cooldown runs has no effect: the input
/// step and the whole frame come out as if it were not pressed.
pub proof fn lemma_heavy_attack_gated(p: PlayerState, input: InputEvents, side: ScreenSideEnum)
    ensures
        p.heavy_attack_timer.running ==> p.after_input(input) == p.after_input(
            InputEvents { heavy_attack_was_pressed: false, ..input },
        ),
        p.timers_ticked().heavy_attack_timer.running ==> p.frame_result(input, side) == p.frame_result(
            InputEvents { heavy_attack_was_pressed: false, ..input },
            side,
        ),
{
    let released = InputEvents { heavy_attack_was_pressed: false, ..input };
    let t = p.timers_ticked();
    if t.heavy_attack_timer.running {
        assert(t.after_input(input) == t.after_input(released));
        assert(p.prepared(input) == p.prepared(released));
        assert(p.enters(input) == p.enters(released));
        let m = p.prepared(input).transitioned();
        assert(m.entered(input, side) == m.entered(released, side));
    }
}

/// A hit reaction runs to completion: once entered, no input and no
/// legality rule moves the combatant out of it, and it cannot be hit
/// again, until its animation requests the next state.
pub proof fn lemma_hit_reaction_holds(p: PlayerState, input: InputEvents, side: ScreenSideEnum)
    requires
        p.player_state == PlayerStateEnum::TakeLightHit || p.player_state
            == PlayerStateEnum::TakeHeavyHit,
        !p.state_is_dirty,
    ensures
        p.frame_result(input, side).player_state == p.player_state,
        !p.frame_result(input, side).state_is_dirty,
        !p.frame_result(input, side).hittable(),
{
}

} // verus!
