use vstd::prelude::*;

verus! {

/// Marks the visual effect spawned by a combatant's special ability.
#[derive(Copy, Clone, Debug, Default, PartialEq, Eq, Hash)]
pub struct CloudComponent {
    pub player_id: usize,
}

impl CloudComponent {
    pub fn new(player_id: usize) -> (r: CloudComponent)
        ensures
            r.player_id == player_id,
    {
        CloudComponent { player_id }
    }
}

/// Depth offset of the effect from its combatant: the local player's
/// effect is drawn behind, the remote player's in front.
pub fn cloud_depth_offset(player_id: usize, local_id: usize) -> (r: i32)
    ensures
        r == (if player_id == local_id { -1i32 } else { 1i32 }),
{
    if player_id == local_id {
        -1
    } else {
        1
    }
}

} // verus!
