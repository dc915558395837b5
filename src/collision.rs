use vstd::prelude::*;
use crate::health::{health_after, PlayerHealth};
use crate::movement::{Combatant, Position};
use crate::player_state::{
    clip_index, clip_name, clip_state, damage_of, PlayerState, PlayerStateEnum, CLIP_COUNT,
    PLAYER_SPEED,
};
use crate::screen_side::{back_dir, ScreenSideEnum};

verus! {

/// A hitbox deals damage; a hurtbox receives it.
#[derive(Copy, Clone, Debug, PartialEq, Eq, Structural, Hash)]
pub enum ColliderType {
    HitBox,
    HurtBox,
}

/// Offset of a box's center from its combatant's position, as seen when
/// standing on the left. Depth plays no part in the overlap test.
#[derive(Copy, Clone, Debug, PartialEq, Eq, Structural, Hash)]
pub struct Offset {
    pub x: i32,
    pub y: i32,
    pub z: i32,
}

/// Full width and height of a box.
#[derive(Copy, Clone, Debug, PartialEq, Eq, Structural, Hash)]
pub struct Dimension {
    pub w: i32,
    pub h: i32,
}

#[derive(Copy, Clone, Debug, PartialEq, Eq, Structural, Hash)]
pub struct Collider {
    pub offset: Offset,
    pub dimension: Dimension,
    pub collider_type: ColliderType,
}

/// Colliders of every clip, by clip index (see `PlayerStateEnum::clip_key`),
/// then by sprite frame. A clip has as many sprite frames as it has
/// collider lists.
#[derive(Debug)]
pub struct ColliderSetComponent {
    pub colliders: Vec<Vec<Vec<Collider>>>,
}

/// Horizontal center of a box of a combatant on `side` at `p`: the offset
/// is mirrored for the combatant on the right.
pub open spec fn center_x(p: Position, side: ScreenSideEnum, c: Collider) -> int {
    match side {
        ScreenSideEnum::Left => p.x + c.offset.x,
        ScreenSideEnum::Right => p.x - c.offset.x,
    }
}

pub open spec fn center_y(p: Position, c: Collider) -> int {
    p.y + c.offset.y
}

/// Two spans of sizes `sa`, `sb` centered at `ca`, `cb` overlap: each
/// starts strictly before the other ends.
pub open spec fn spans_overlap(ca: int, sa: int, cb: int, sb: int) -> bool {
    2 * ca - sa < 2 * cb + sb && 2 * cb - sb < 2 * ca + sa
}

/// The axis-aligned overlap test of two boxes of two combatants.
pub open spec fn boxes_overlap(
    pa: Position,
    sa: ScreenSideEnum,
    a: Collider,
    pb: Position,
    sb: ScreenSideEnum,
    b: Collider,
) -> bool {
    spans_overlap(center_x(pa, sa, a), a.dimension.w as int, center_x(pb, sb, b), b.dimension.w as int)
        && spans_overlap(center_y(pa, a), a.dimension.h as int, center_y(pb, b), b.dimension.h as int)
}

/// Some box of `ba` overlaps some box of `bb`.
pub open spec fn any_overlap(
    pa: Position,
    sa: ScreenSideEnum,
    ba: Seq<Collider>,
    pb: Position,
    sb: ScreenSideEnum,
    bb: Seq<Collider>,
) -> bool {
    exists|i: int, j: int|
        0 <= i < ba.len() && 0 <= j < bb.len() && #[trigger] boxes_overlap(
            pa,
            sa,
            ba[i],
            pb,
            sb,
            bb[j],
        )
}

/// Some hitbox of `ba` overlaps some hurtbox of `bb`.
pub open spec fn lands_hit(
    pa: Position,
    sa: ScreenSideEnum,
    ba: Seq<Collider>,
    pb: Position,
    sb: ScreenSideEnum,
    bb: Seq<Collider>,
) -> bool {
    exists|i: int, j: int|
        0 <= i < ba.len() && 0 <= j < bb.len() && ba[i].collider_type == ColliderType::HitBox
            && bb[j].collider_type == ColliderType::HurtBox && #[trigger] boxes_overlap(
            pa,
            sa,
            ba[i],
            pb,
            sb,
            bb[j],
        )
}

/// The overlap test does not depend on which box comes first.
pub proof fn lemma_overlap_symmetric(
    pa: Position,
    sa: ScreenSideEnum,
    a: Collider,
    pb: Position,
    sb: ScreenSideEnum,
    b: Collider,
)
    ensures
        boxes_overlap(pa, sa, a, pb, sb, b) == boxes_overlap(pb, sb, b, pa, sa, a),
{
}

/// Whether any box of one combatant overlaps any box of the other does not
/// depend on which combatant comes first.
pub proof fn lemma_any_overlap_symmetric(
    pa: Position,
    sa: ScreenSideEnum,
    ba: Seq<Collider>,
    pb: Position,
    sb: ScreenSideEnum,
    bb: Seq<Collider>,
)
    ensures
        any_overlap(pa, sa, ba, pb, sb, bb) == any_overlap(pb, sb, bb, pa, sa, ba),
{
    if any_overlap(pa, sa, ba, pb, sb, bb) {
        let (i, j) = choose|i: int, j: int|
            0 <= i < ba.len() && 0 <= j < bb.len() && #[trigger] boxes_overlap(
                pa,
                sa,
                ba[i],
                pb,
                sb,
                bb[j],
            );
        assert(boxes_overlap(pb, sb, bb[j], pa, sa, ba[i]));
    }
    if any_overlap(pb, sb, bb, pa, sa, ba) {
        let (j, i) = choose|j: int, i: int|
            0 <= j < bb.len() && 0 <= i < ba.len() && #[trigger] boxes_overlap(
                pb,
                sb,
                bb[j],
                pa,
                sa,
                ba[i],
            );
        assert(boxes_overlap(pa, sa, ba[i], pb, sb, bb[j]));
    }
}

impl Collider {
    pub fn new(offset: Offset, dimension: Dimension, collider_type: ColliderType) -> (r: Collider)
        ensures
            r == (Collider { offset, dimension, collider_type }),
    {
        Collider { offset, dimension, collider_type }
    }
}

/// The overlap test on one pair of boxes.
pub fn collide(
    pa: Position,
    sa: ScreenSideEnum,
    a: &Collider,
    pb: Position,
    sb: ScreenSideEnum,
    b: &Collider,
) -> (r: bool)
    ensures
        r == boxes_overlap(pa, sa, *a, pb, sb, *b),
{
    let ax: i64 = match sa {
        ScreenSideEnum::Left => pa.x as i64 + a.offset.x as i64,
        ScreenSideEnum::Right => pa.x as i64 - a.offset.x as i64,
    };
    let bx: i64 = match sb {
        ScreenSideEnum::Left => pb.x as i64 + b.offset.x as i64,
        ScreenSideEnum::Right => pb.x as i64 - b.offset.x as i64,
    };
    let ay: i64 = pa.y as i64 + a.offset.y as i64;
    let by: i64 = pb.y as i64 + b.offset.y as i64;
    let aw = a.dimension.w as i64;
    let bw = b.dimension.w as i64;
    let ah = a.dimension.h as i64;
    let bh = b.dimension.h as i64;
    2 * ax - aw < 2 * bx + bw && 2 * bx - bw < 2 * ax + aw && 2 * ay - ah < 2 * by + bh && 2 * by
        - bh < 2 * ay + ah
}

impl ColliderSetComponent {
    /// One entry per clip.
    pub open spec fn wf(self) -> bool {
        self.colliders@.len() == CLIP_COUNT
    }

    /// Every clip has at least one sprite frame.
    pub open spec fn complete(self) -> bool {
        &&& self.wf()
        &&& forall|k: int| 0 <= k < CLIP_COUNT ==> #[trigger] self.colliders@[k]@.len() > 0
    }

    /// Number of sprite frames of the clip of state `s`.
    pub open spec fn frames(self, s: PlayerStateEnum) -> nat {
        self.colliders@[clip_index(s) as int]@.len()
    }

    pub open spec fn has_entry(self, s: PlayerStateEnum, frame: nat) -> bool {
        clip_index(s) < self.colliders@.len() && frame < self.frames(s)
    }

    /// The boxes of state `s` at sprite frame `frame`.
    pub open spec fn boxes(self, s: PlayerStateEnum, frame: nat) -> Seq<Collider> {
        self.colliders@[clip_index(s) as int]@[frame as int]@
    }

    /// A set with no frames for any clip.
    pub fn new() -> (r: ColliderSetComponent)
        ensures
            r.wf(),
            forall|k: int| 0 <= k < CLIP_COUNT ==> #[trigger] r.colliders@[k]@.len() == 0,
    {
        let mut colliders: Vec<Vec<Vec<Collider>>> = Vec::new();
        let mut k: usize = 0;
        while k < CLIP_COUNT
            invariant
                k <= CLIP_COUNT,
                colliders@.len() == k,
                forall|i: int| 0 <= i < k ==> #[trigger] colliders@[i]@.len() == 0,
            decreases CLIP_COUNT - k,
        {
            colliders.push(Vec::new());
            k = k + 1;
        }
        ColliderSetComponent { colliders }
    }

    /// Stores `frames` as the colliders of the clip called `name`. Returns
    /// false, and changes nothing, when no clip has that name.
    pub fn insert_named(&mut self, name: &String, frames: Vec<Vec<Collider>>) -> (r: bool)
        requires
            old(self).wf(),
        ensures
            final(self).wf(),
            r == exists|k: nat| k < CLIP_COUNT && clip_name(clip_state(k)) == name@,
            r ==> exists|k: nat|
                k < CLIP_COUNT && clip_name(clip_state(k)) == name@ && final(self).colliders@
                    == old(self).colliders@.update(k as int, frames),
            !r ==> *final(self) == *old(self),
    {
        match clip_index_from_name(name) {
            Some(k) => {
                self.colliders.set(k, frames);
                true
            },
            None => false,
        }
    }

    /// A set whose only frame is one hitbox of the idle clip.
    pub fn fake_one() -> (r: ColliderSetComponent)
        ensures
            r.wf(),
            r.frames(PlayerStateEnum::Idle) == 1,
            r.boxes(PlayerStateEnum::Idle, 0) == seq![
                Collider {
                    offset: Offset { x: 1, y: 2, z: 3 },
                    dimension: Dimension { w: 0, h: -10i32 },
                    collider_type: ColliderType::HitBox,
                },
            ],
            forall|k: int| 0 < k < CLIP_COUNT ==> #[trigger] r.colliders@[k]@.len() == 0,
    {
        let collider = Collider::new(
            Offset { x: 1, y: 2, z: 3 },
            Dimension { w: 0, h: -10 },
            ColliderType::HitBox,
        );
        let inner = vec![collider];
        let outer = vec![inner];
        let mut set = ColliderSetComponent::new();
        set.colliders.set(0, outer);
        set
    }

    /// Whether every clip has at least one sprite frame.
    pub fn is_complete(&self) -> (r: bool)
        requires
            self.wf(),
        ensures
            r == self.complete(),
    {
        let mut k: usize = 0;
        while k < CLIP_COUNT
            invariant
                self.wf(),
                k <= CLIP_COUNT,
                forall|i: int| 0 <= i < k ==> #[trigger] self.colliders@[i]@.len() > 0,
            decreases CLIP_COUNT - k,
        {
            if self.colliders[k].len() == 0 {
                return false;
            }
            k = k + 1;
        }
        true
    }

    /// Number of sprite frames of the clip of `s`.
    pub fn frame_count(&self, s: PlayerStateEnum) -> (r: usize)
        requires
            self.wf(),
        ensures
            r == self.frames(s),
    {
        self.colliders[s.clip_key()].len()
    }
}

/// Index of the clip called `name`, if there is one.
pub fn clip_index_from_name(name: &String) -> (r: Option<usize>)
    ensures
        r matches Some(k) ==> k < CLIP_COUNT && clip_name(clip_state(k as nat)) == name@,
        r is None ==> forall|k: nat| k < CLIP_COUNT ==> clip_name(clip_state(k)) != name@,
{
    let mut k: usize = 0;
    while k < CLIP_COUNT
        invariant
            k <= CLIP_COUNT,
            forall|i: nat| i < k ==> clip_name(clip_state(i)) != name@,
        decreases CLIP_COUNT - k,
    {
        if *name == clip_state_of(k).to_string() {
            return Some(k);
        }
        k = k + 1;
    }
    None
}

/// The state whose clip has index `k`.
fn clip_state_of(k: usize) -> (r: PlayerStateEnum)
    ensures
        r == clip_state(k as nat),
{
    if k == 0 {
        PlayerStateEnum::Idle
    } else if k == 1 {
        PlayerStateEnum::Run
    } else if k == 2 {
        PlayerStateEnum::Jump
    } else if k == 3 {
        PlayerStateEnum::HeavyAttack
    } else if k == 4 {
        PlayerStateEnum::LightAttack
    } else if k == 5 {
        PlayerStateEnum::Fall
    } else if k == 6 {
        PlayerStateEnum::TakeLightHit
    } else if k == 7 {
        PlayerStateEnum::Death
    } else {
        PlayerStateEnum::Dash
    }
}

/// The combatant after the overlap flag of this frame is set; an idle
/// combatant that touches the other is pushed away from it.
pub open spec fn pushed(c: Combatant, touching: bool) -> Combatant {
    Combatant {
        state: PlayerState {
            is_colliding: touching,
            x_velocity: if touching && c.state.player_state == PlayerStateEnum::Idle {
                (PLAYER_SPEED * back_dir(c.side)) as i32
            } else {
                c.state.x_velocity
            },
            ..c.state
        },
        ..c
    }
}

/// The defender after a hit landed by an attacker in state `attacker`:
/// unless it is already reacting to a hit or the attacker is not attacking,
/// it loses the attack's damage and is forced into the attack's reaction,
/// or into `Death` when no health is left.
pub open spec fn hit_by(d: Combatant, attacker: PlayerStateEnum) -> Combatant {
    if d.state.hittable() {
        match damage_of(attacker) {
            Some((amount, reaction)) => {
                let h = health_after(d.health.health, amount);
                Combatant {
                    health: PlayerHealth { health: h },
                    state: d.state.requested(
                        if h == 0 {
                            PlayerStateEnum::Death
                        } else {
                            reaction
                        },
                    ),
                    ..d
                }
            },
            None => d,
        }
    } else {
        d
    }
}

/// Both combatants after this frame's collision test.
pub open spec fn collided(a: Combatant, b: Combatant, set: ColliderSetComponent) -> (
    Combatant,
    Combatant,
) {
    let ba = set.boxes(a.state.player_state, a.state.current_sprite_index as nat);
    let bb = set.boxes(b.state.player_state, b.state.current_sprite_index as nat);
    let touching = any_overlap(a.position, a.side, ba, b.position, b.side, bb);
    let a1 = pushed(a, touching);
    let b1 = pushed(b, touching);
    (
        if lands_hit(b.position, b.side, bb, a.position, a.side, ba) {
            hit_by(a1, b.state.player_state)
        } else {
            a1
        },
        if lands_hit(a.position, a.side, ba, b.position, b.side, bb) {
            hit_by(b1, a.state.player_state)
        } else {
            b1
        },
    )
}

/// Tests every pair of boxes of two combatants. Returns whether any pair
/// overlaps, whether a hitbox of the first overlaps a hurtbox of the
/// second, and the converse.
pub fn scan_pairs(
    pa: Position,
    sa: ScreenSideEnum,
    ba: &Vec<Collider>,
    pb: Position,
    sb: ScreenSideEnum,
    bb: &Vec<Collider>,
) -> (r: (bool, bool, bool))
    ensures
        r.0 == any_overlap(pa, sa, ba@, pb, sb, bb@),
        r.1 == lands_hit(pa, sa, ba@, pb, sb, bb@),
        r.2 == lands_hit(pb, sb, bb@, pa, sa, ba@),
{
    let mut touching = false;
    let mut a_hits = false;
    let mut b_hits = false;
    let mut i: usize = 0;
    while i < ba.len()
        invariant
            i <= ba@.len(),
            touching == exists|i2: int, j2: int|
                0 <= i2 < i && 0 <= j2 < bb@.len() && #[trigger] boxes_overlap(
                    pa,
                    sa,
                    ba@[i2],
                    pb,
                    sb,
                    bb@[j2],
                ),
            a_hits == exists|i2: int, j2: int|
                0 <= i2 < i && 0 <= j2 < bb@.len() && ba@[i2].collider_type == ColliderType::HitBox
                    && bb@[j2].collider_type == ColliderType::HurtBox && #[trigger] boxes_overlap(
                    pa,
                    sa,
                    ba@[i2],
                    pb,
                    sb,
                    bb@[j2],
                ),
            b_hits == exists|i2: int, j2: int|
                0 <= i2 < i && 0 <= j2 < bb@.len() && bb@[j2].collider_type == ColliderType::HitBox
                    && ba@[i2].collider_type == ColliderType::HurtBox && #[trigger] boxes_overlap(
                    pa,
                    sa,
                    ba@[i2],
                    pb,
                    sb,
                    bb@[j2],
                ),
        decreases ba@.len() - i,
    {
        let mut j: usize = 0;
        while j < bb.len()
            invariant
                i < ba@.len(),
                j <= bb@.len(),
                touching == exists|i2: int, j2: int|
                    ((0 <= i2 < i && 0 <= j2 < bb@.len()) || (i2 == i && 0 <= j2 < j))
                        && #[trigger] boxes_overlap(pa, sa, ba@[i2], pb, sb, bb@[j2]),
                a_hits == exists|i2: int, j2: int|
                    ((0 <= i2 < i && 0 <= j2 < bb@.len()) || (i2 == i && 0 <= j2 < j))
                        && ba@[i2].collider_type == ColliderType::HitBox && bb@[j2].collider_type
                        == ColliderType::HurtBox && #[trigger] boxes_overlap(
                        pa,
                        sa,
                        ba@[i2],
                        pb,
                        sb,
                        bb@[j2],
                    ),
                b_hits == exists|i2: int, j2: int|
                    ((0 <= i2 < i && 0 <= j2 < bb@.len()) || (i2 == i && 0 <= j2 < j))
                        && bb@[j2].collider_type == ColliderType::HitBox && ba@[i2].collider_type
                        == ColliderType::HurtBox && #[trigger] boxes_overlap(
                        pa,
                        sa,
                        ba@[i2],
                        pb,
                        sb,
                        bb@[j2],
                    ),
            decreases bb@.len() - j,
        {
            let overlap = collide(pa, sa, &ba[i], pb, sb, &bb[j]);
            if overlap {
                touching = true;
                if ba[i].collider_type == ColliderType::HitBox && bb[j].collider_type
                    == ColliderType::HurtBox {
                    a_hits = true;
                }
                if bb[j].collider_type == ColliderType::HitBox && ba[i].collider_type
                    == ColliderType::HurtBox {
                    b_hits = true;
                }
            }
            j = j + 1;
        }
        i = i + 1;
    }
    proof {
        if b_hits {
            let (i2, j2) = choose|i2: int, j2: int|
                0 <= i2 < ba@.len() && 0 <= j2 < bb@.len() && bb@[j2].collider_type
                    == ColliderType::HitBox && ba@[i2].collider_type == ColliderType::HurtBox
                    && #[trigger] boxes_overlap(pa, sa, ba@[i2], pb, sb, bb@[j2]);
            lemma_overlap_symmetric(pa, sa, ba@[i2], pb, sb, bb@[j2]);
        }
        if lands_hit(pb, sb, bb@, pa, sa, ba@) {
            let (j2, i2) = choose|j2: int, i2: int|
                0 <= j2 < bb@.len() && 0 <= i2 < ba@.len() && bb@[j2].collider_type
                    == ColliderType::HitBox && ba@[i2].collider_type == ColliderType::HurtBox
                    && #[trigger] boxes_overlap(pb, sb, bb@[j2], pa, sa, ba@[i2]);
            lemma_overlap_symmetric(pa, sa, ba@[i2], pb, sb, bb@[j2]);
        }
    }
    (touching, a_hits, b_hits)
}

/// Sets the overlap flag of this frame and pushes an idle combatant away.
fn push_back(c: &mut Combatant, touching: bool)
    ensures
        *final(c) == pushed(*old(c), touching),
{
    c.state.is_colliding = touching;
    if touching && c.state.player_state == PlayerStateEnum::Idle {
        c.state.x_velocity = PLAYER_SPEED * c.side.back_direction();
    }
}

/// Applies a hit landed by `attacker` to the defender `d`.
pub fn receive_hit(d: &mut Combatant, attacker: &PlayerState)
    ensures
        *final(d) == hit_by(*old(d), attacker.player_state),
{
    if d.state.can_take_a_hit() {
        match attacker.level_and_amount_damage() {
            Some((amount, reaction)) => {
                d.health.take_damage(amount);
                if d.health.health == 0 {
                    d.state.set_player_state_to_transition(PlayerStateEnum::Death);
                } else {
                    d.state.set_player_state_to_transition(reaction);
                }
            },
            None => {},
        }
    }
}

/// One frame of the collision engine for two combatants: the overlap flags
/// are recomputed from scratch, touching idle combatants are pushed apart,
/// and a hitbox on an opposing hurtbox deals damage. A missing collider
/// entry is a configuration defect that callers rule out.
pub fn collision_system(a: &mut Combatant, b: &mut Combatant, set: &ColliderSetComponent)
    requires
        set.has_entry(old(a).state.player_state, old(a).state.current_sprite_index as nat),
        set.has_entry(old(b).state.player_state, old(b).state.current_sprite_index as nat),
    ensures
        (*final(a), *final(b)) == collided(*old(a), *old(b), *set),
{
    let ba = &set.colliders[a.state.player_state.clip_key()][a.state.current_sprite_index];
    let bb = &set.colliders[b.state.player_state.clip_key()][b.state.current_sprite_index];
    let (touching, a_hits, b_hits) = scan_pairs(a.position, a.side, ba, b.position, b.side, bb);
    let a_before = a.state;
    let b_before = b.state;
    push_back(a, touching);
    push_back(b, touching);
    if b_hits {
        receive_hit(a, &b_before);
    }
    if a_hits {
        receive_hit(b, &a_before);
    }
}

/// The overlap flags are recomputed every frame: when no pair of boxes
/// overlaps, neither combatant is marked as colliding afterwards, whatever
/// the flags said before.
pub proof fn lemma_collision_flags_reset(a: Combatant, b: Combatant, set: ColliderSetComponent)
    requires
        !any_overlap(
            a.position,
            a.side,
            set.boxes(a.state.player_state, a.state.current_sprite_index as nat),
            b.position,
            b.side,
            set.boxes(b.state.player_state, b.state.current_sprite_index as nat),
        ),
    ensures
        !collided(a, b, set).0.state.is_colliding,
        !collided(a, b, set).1.state.is_colliding,
{
}

/// Collision resolution does not depend on which combatant comes first:
/// exchanging the two exchanges the results.
pub proof fn lemma_collision_order_independent(a: Combatant, b: Combatant, set: ColliderSetComponent)
    ensures
        collided(b, a, set) == (collided(a, b, set).1, collided(a, b, set).0),
{
    lemma_any_overlap_symmetric(
        a.position,
        a.side,
        set.boxes(a.state.player_state, a.state.current_sprite_index as nat),
        b.position,
        b.side,
        set.boxes(b.state.player_state, b.state.current_sprite_index as nat),
    );
}

} // verus!
