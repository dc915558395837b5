use vstd::prelude::*;
use crate::collision::{collided, collision_system, ColliderSetComponent};
use crate::health::{PlayerHealth, STARTING_HEALTH};
use crate::input::{decoded, InputEvents, INPUT_SIZE};
use crate::movement::{moved, player_movement_system, Combatant, Position, FLOOR_HEIGHT};
use crate::player_state::{
    animation_next, player_state_system, PlayerState, PlayerStateEnum, StateFrameEvents,
};
use crate::round_timer::{round_timer_system, RoundTimer, FRAMES_PER_SECOND};
use crate::screen_side::{resolve_screen_sides, sides_for, ScreenSideEnum};

verus! {

/// Horizontal distance of each combatant from the center at the start.
pub const START_OFFSET: i32 = 100;

/// Whether a round is being fought or a reset is under way.
#[derive(Copy, Clone, Debug, PartialEq, Eq, Structural, Hash)]
pub enum GameState {
    Fighting,
    Reset,
}

/// The whole simulation state: what a rollback saves and restores.
#[derive(Copy, Clone, Debug, PartialEq, Eq, Hash)]
pub struct GameSnapshot {
    pub first: Combatant,
    pub second: Combatant,
    pub round_timer: RoundTimer,
    pub game_state: GameState,
}

/// What one simulation frame hands to the rendering and scene side.
#[derive(Copy, Clone, Debug, PartialEq, Eq, Hash)]
pub struct FrameEvents {
    pub first: StateFrameEvents,
    pub second: StateFrameEvents,
    /// Raised on the frame a round ends, by a knockout or by the clock.
    pub begin_round_reset: bool,
}

/// The input vectors of a frame hold a well-formed entry for each id.
pub open spec fn inputs_fit(id1: usize, id2: usize, inputs: Seq<Vec<u8>>) -> bool {
    &&& id1 < inputs.len()
    &&& id2 < inputs.len()
    &&& inputs[id1 as int]@.len() == INPUT_SIZE
    &&& inputs[id2 as int]@.len() == INPUT_SIZE
}

pub open spec fn input_of(c: Combatant, inputs: Seq<Vec<u8>>) -> InputEvents {
    decoded(inputs[c.state.player_id as int]@)
}

/// A combatant's sprite frame exists in its clip.
pub open spec fn sprite_fits(c: Combatant, set: ColliderSetComponent) -> bool {
    set.has_entry(c.state.player_state, c.state.current_sprite_index as nat)
}

pub open spec fn quiet() -> StateFrameEvents {
    StateFrameEvents { entered: None, spawn_cloud: false }
}

/// A combatant after its state machine frame.
pub open spec fn decided(c: Combatant, input: InputEvents) -> Combatant {
    Combatant { state: c.state.frame_result(input, c.side), ..c }
}

/// One simulation frame: each combatant's state machine reads its input,
/// movement is integrated, sides are resolved, collisions are tested, and
/// the round ends on a knockout or when the clock runs out. Nothing moves
/// while a reset is under way.
pub open spec fn stepped(s: GameSnapshot, inputs: Seq<Vec<u8>>, set: ColliderSetComponent) -> (
    GameSnapshot,
    FrameEvents,
) {
    if s.game_state == GameState::Reset {
        (s, FrameEvents { first: quiet(), second: quiet(), begin_round_reset: false })
    } else {
        let i1 = input_of(s.first, inputs);
        let i2 = input_of(s.second, inputs);
        let m1 = moved(decided(s.first, i1));
        let m2 = moved(decided(s.second, i2));
        let sides = sides_for(m1.position.x, m2.position.x, (m1.side, m2.side));
        let (h1, h2) = collided(
            Combatant { side: sides.0, ..m1 },
            Combatant { side: sides.1, ..m2 },
            set,
        );
        let (timer, out_of_time) = s.round_timer.counted_down();
        let over = out_of_time || h1.health.health == 0 || h2.health.health == 0;
        (
            GameSnapshot {
                first: h1,
                second: h2,
                round_timer: timer,
                game_state: if over {
                    GameState::Reset
                } else {
                    GameState::Fighting
                },
            },
            FrameEvents {
                first: s.first.state.frame_events(i1),
                second: s.second.state.frame_events(i2),
                begin_round_reset: over,
            },
        )
    }
}

/// The snapshot after replaying `frames` from `s`.
pub open spec fn replay(s: GameSnapshot, frames: Seq<Vec<Vec<u8>>>, set: ColliderSetComponent) -> GameSnapshot
    decreases frames.len(),
{
    if frames.len() == 0 {
        s
    } else {
        replay(stepped(s, frames[0]@, set).0, frames.drop_first(), set)
    }
}

/// The snapshot can be stepped with this collider set.
pub open spec fn snapshot_fits(s: GameSnapshot, set: ColliderSetComponent) -> bool {
    sprite_fits(s.first, set) && sprite_fits(s.second, set)
}

/// A step keeps the ids and keeps each sprite frame inside its clip.
pub proof fn lemma_step_keeps_fit(s: GameSnapshot, inputs: Seq<Vec<u8>>, set: ColliderSetComponent)
    requires
        set.complete(),
        snapshot_fits(s, set),
    ensures
        snapshot_fits(stepped(s, inputs, set).0, set),
        stepped(s, inputs, set).0.first.state.player_id == s.first.state.player_id,
        stepped(s, inputs, set).0.second.state.player_id == s.second.state.player_id,
{
    if s.game_state == GameState::Fighting {
        let i1 = input_of(s.first, inputs);
        let i2 = input_of(s.second, inputs);
        s.first.state.lemma_frame_keeps_sprite(i1, s.first.side);
        s.second.state.lemma_frame_keeps_sprite(i2, s.second.side);
        let k1 = crate::player_state::clip_index(stepped(s, inputs, set).0.first.state.player_state);
        let k2 = crate::player_state::clip_index(stepped(s, inputs, set).0.second.state.player_state);
        assert(set.colliders@[k1 as int]@.len() > 0);
        assert(set.colliders@[k2 as int]@.len() > 0);
    }
}

/// The combatant after one sprite frame of its clip of `frames` frames, and
/// whether the clip completed a full cycle. On completion the sprite starts
/// over, and a state that hands over to another requests it.
pub open spec fn sprite_advanced(p: PlayerState, frames: nat) -> (PlayerState, bool) {
    if p.current_sprite_index + 1 < frames {
        (PlayerState { current_sprite_index: (p.current_sprite_index + 1) as usize, ..p }, false)
    } else {
        let q = PlayerState { current_sprite_index: 0, ..p };
        let next = animation_next(p.player_state);
        (
            if next != p.player_state {
                q.requested(next)
            } else {
                q
            },
            true,
        )
    }
}

/// Moves a combatant to the next sprite frame of its clip, whose frame
/// count is that of its colliders. Returns whether the clip completed a
/// full cycle.
pub fn advance_sprite_frame(player: &mut PlayerState, set: &ColliderSetComponent) -> (cycle_done:
    bool)
    requires
        set.wf(),
    ensures
        (*final(player), cycle_done) == sprite_advanced(*old(player), set.frames(old(player).player_state)),
{
    let frames = set.frame_count(player.player_state);
    if frames > 0 && player.current_sprite_index < frames - 1 {
        player.current_sprite_index = player.current_sprite_index + 1;
        false
    } else {
        player.current_sprite_index = 0;
        let next = player.animation_finished();
        if next != player.player_state {
            player.set_player_state_to_transition(next);
        }
        true
    }
}

impl GameSnapshot {
    /// Two idle combatants on the floor either side of the center, the
    /// first on the left, and a round of `round_time_in_seconds`.
    pub open spec fn initial(round_time_in_seconds: usize) -> GameSnapshot {
        GameSnapshot {
            first: Combatant {
                state: PlayerState::fresh(0, PlayerStateEnum::Idle),
                health: PlayerHealth { health: STARTING_HEALTH },
                position: Position { x: (-START_OFFSET) as i32, y: FLOOR_HEIGHT },
                side: ScreenSideEnum::Left,
            },
            second: Combatant {
                state: PlayerState::fresh(1, PlayerStateEnum::Idle),
                health: PlayerHealth { health: STARTING_HEALTH },
                position: Position { x: START_OFFSET, y: FLOOR_HEIGHT },
                side: ScreenSideEnum::Right,
            },
            round_timer: RoundTimer {
                total_round_timer: (round_time_in_seconds * FRAMES_PER_SECOND) as usize,
                round_counter: (round_time_in_seconds * FRAMES_PER_SECOND) as usize,
            },
            game_state: GameState::Fighting,
        }
    }

    /// The snapshot once a reset is complete: both combatants hard-reset
    /// where they stand, full health, a full round clock, fighting again.
    pub open spec fn after_reset(self) -> GameSnapshot {
        GameSnapshot {
            first: Combatant {
                state: self.first.state.hard_reset_of(),
                health: PlayerHealth { health: STARTING_HEALTH },
                ..self.first
            },
            second: Combatant {
                state: self.second.state.hard_reset_of(),
                health: PlayerHealth { health: STARTING_HEALTH },
                ..self.second
            },
            round_timer: RoundTimer {
                round_counter: self.round_timer.total_round_timer,
                ..self.round_timer
            },
            game_state: GameState::Fighting,
        }
    }

    pub fn new(round_time_in_seconds: usize) -> (r: GameSnapshot)
        requires
            round_time_in_seconds * FRAMES_PER_SECOND <= usize::MAX,
        ensures
            r == GameSnapshot::initial(round_time_in_seconds),
    {
        GameSnapshot {
            first: Combatant {
                state: PlayerState::new(0, PlayerStateEnum::Idle),
                health: PlayerHealth::new(),
                position: Position { x: -START_OFFSET, y: FLOOR_HEIGHT },
                side: ScreenSideEnum::Left,
            },
            second: Combatant {
                state: PlayerState::new(1, PlayerStateEnum::Idle),
                health: PlayerHealth::new(),
                position: Position { x: START_OFFSET, y: FLOOR_HEIGHT },
                side: ScreenSideEnum::Right,
            },
            round_timer: RoundTimer::new(round_time_in_seconds),
            game_state: GameState::Fighting,
        }
    }

    /// Ends a reset: hard-resets both combatants, restores full health and
    /// the round clock, and resumes fighting.
    pub fn complete_round_reset(&mut self)
        ensures
            *final(self) == old(self).after_reset(),
    {
        self.first.state.hard_reset();
        self.second.state.hard_reset();
        self.first.health = PlayerHealth::new();
        self.second.health = PlayerHealth::new();
        self.round_timer.reset();
        self.game_state = GameState::Fighting;
    }

    /// Advances the simulation by one frame, given every player's input
    /// vector for the frame. The result depends on the snapshot, the inputs
    /// and the collider set alone.
    pub fn advance_frame(&mut self, inputs: &Vec<Vec<u8>>, set: &ColliderSetComponent) -> (r:
        FrameEvents)
        requires
            inputs_fit(old(self).first.state.player_id, old(self).second.state.player_id, inputs@),
            set.complete(),
            snapshot_fits(*old(self), *set),
        ensures
            (*final(self), r) == stepped(*old(self), inputs@, *set),
            snapshot_fits(*final(self), *set),
            final(self).first.state.player_id == old(self).first.state.player_id,
            final(self).second.state.player_id == old(self).second.state.player_id,
    {
        proof {
            lemma_step_keeps_fit(*self, inputs@, *set);
        }
        if self.game_state == GameState::Reset {
            return FrameEvents {
                first: StateFrameEvents { entered: None, spawn_cloud: false },
                second: StateFrameEvents { entered: None, spawn_cloud: false },
                begin_round_reset: false,
            };
        }
        let i1 = InputEvents::from_input_vector(inputs, self.first.state.player_id);
        let i2 = InputEvents::from_input_vector(inputs, self.second.state.player_id);
        let e1 = player_state_system(&mut self.first.state, &i1, self.first.side);
        let e2 = player_state_system(&mut self.second.state, &i2, self.second.side);
        player_movement_system(&mut self.first);
        player_movement_system(&mut self.second);
        let sides = resolve_screen_sides(
            self.first.position.x,
            self.second.position.x,
            (self.first.side, self.second.side),
        );
        self.first.side = sides.0;
        self.second.side = sides.1;
        collision_system(&mut self.first, &mut self.second, set);
        let out_of_time = round_timer_system(&mut self.round_timer);
        let over = out_of_time || self.first.health.health == 0 || self.second.health.health == 0;
        if over {
            self.game_state = GameState::Reset;
        }
        FrameEvents { first: e1, second: e2, begin_round_reset: over }
    }
}

/// Every frame's input vectors fit the two ids.
pub open spec fn frames_fit(id1: usize, id2: usize, frames: Seq<Vec<Vec<u8>>>) -> bool {
    forall|k: int| 0 <= k < frames.len() ==> inputs_fit(id1, id2, #[trigger] frames[k]@)
}

/// Two frame sequences carry the same bytes for the two ids.
pub open spec fn same_bytes(id1: usize, id2: usize, fa: Seq<Vec<Vec<u8>>>, fb: Seq<Vec<Vec<u8>>>) -> bool {
    &&& fa.len() == fb.len()
    &&& forall|k: int|
        0 <= k < fa.len() ==> (#[trigger] fa[k])@[id1 as int]@ == fb[k]@[id1 as int]@ && fa[k]@[id2 as int]@
            == fb[k]@[id2 as int]@
}

/// A step never changes who is who.
pub proof fn lemma_step_keeps_ids(s: GameSnapshot, inputs: Seq<Vec<u8>>, set: ColliderSetComponent)
    ensures
        stepped(s, inputs, set).0.first.state.player_id == s.first.state.player_id,
        stepped(s, inputs, set).0.second.state.player_id == s.second.state.player_id,
{
    if s.game_state == GameState::Fighting {
        s.first.state.lemma_frame_keeps_sprite(input_of(s.first, inputs), s.first.side);
        s.second.state.lemma_frame_keeps_sprite(input_of(s.second, inputs), s.second.side);
    }
}

/// Determinism: replaying frames that carry the same input bytes from the
/// same snapshot gives the same snapshot. Nothing but the snapshot, the
/// bytes and the collider set enters a frame.
pub proof fn lemma_replay_deterministic(
    s: GameSnapshot,
    fa: Seq<Vec<Vec<u8>>>,
    fb: Seq<Vec<Vec<u8>>>,
    set: ColliderSetComponent,
)
    requires
        same_bytes(s.first.state.player_id, s.second.state.player_id, fa, fb),
    ensures
        replay(s, fa, set) == replay(s, fb, set),
    decreases fa.len(),
{
    if fa.len() > 0 {
        assert(input_of(s.first, fa[0]@) == input_of(s.first, fb[0]@));
        assert(input_of(s.second, fa[0]@) == input_of(s.second, fb[0]@));
        let next = stepped(s, fa[0]@, set).0;
        assert(next == stepped(s, fb[0]@, set).0);
        lemma_step_keeps_ids(s, fa[0]@, set);
        assert forall|k: int| 0 <= k < fa.drop_first().len() implies (#[trigger] fa.drop_first()[k])@[next.first.state.player_id as int]@
            == fb.drop_first()[k]@[next.first.state.player_id as int]@
            && fa.drop_first()[k]@[next.second.state.player_id as int]@ == fb.drop_first()[k]@[next.second.state.player_id as int]@ by {
            assert(fa.drop_first()[k] == fa[k + 1]);
            assert(fb.drop_first()[k] == fb[k + 1]);
        }
        lemma_replay_deterministic(next, fa.drop_first(), fb.drop_first(), set);
    }
}

/// Rollback: replaying a span of frames straight through gives the same
/// snapshot as saving the snapshot after its first part and replaying the
/// rest from the saved one.
pub proof fn lemma_replay_split(
    s: GameSnapshot,
    fa: Seq<Vec<Vec<u8>>>,
    fb: Seq<Vec<Vec<u8>>>,
    set: ColliderSetComponent,
)
    ensures
        replay(s, fa + fb, set) == replay(replay(s, fa, set), fb, set),
    decreases fa.len(),
{
    if fa.len() == 0 {
        assert(fa + fb =~= fb);
    } else {
        assert((fa + fb)[0] == fa[0]);
        assert((fa + fb).drop_first() =~= fa.drop_first() + fb);
        lemma_replay_split(stepped(s, fa[0]@, set).0, fa.drop_first(), fb, set);
    }
}

impl GameSnapshot {
    /// Replays `frames` one after the other from this snapshot.
    pub fn run_frames(&mut self, frames: &Vec<Vec<Vec<u8>>>, set: &ColliderSetComponent)
        requires
            frames_fit(old(self).first.state.player_id, old(self).second.state.player_id, frames@),
            set.complete(),
            snapshot_fits(*old(self), *set),
        ensures
            *final(self) == replay(*old(self), frames@, *set),
            snapshot_fits(*final(self), *set),
    {
        let ghost start = *self;
        let mut k: usize = 0;
        assert(frames@.skip(0) =~= frames@);
        while k < frames.len()
            invariant
                k <= frames@.len(),
                set.complete(),
                snapshot_fits(*self, *set),
                self.first.state.player_id == start.first.state.player_id,
                self.second.state.player_id == start.second.state.player_id,
                frames_fit(start.first.state.player_id, start.second.state.player_id, frames@),
                replay(start, frames@, *set) == replay(*self, frames@.skip(k as int), *set),
            decreases frames@.len() - k,
        {
            proof {
                let rest = frames@.skip(k as int);
                assert(rest[0] == frames@[k as int]);
                assert(rest.drop_first() =~= frames@.skip(k + 1));
                assert(inputs_fit(start.first.state.player_id, start.second.state.player_id, frames@[k as int]@));
            }
            self.advance_frame(&frames[k], set);
            k = k + 1;
        }
        proof {
            assert(frames@.skip(k as int) =~= Seq::<Vec<Vec<u8>>>::empty());
        }
    }
}

} // verus!
