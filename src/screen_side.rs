use vstd::prelude::*;

verus! {

/// The side of the screen a combatant stands on. The combatant on the left
/// faces right; colliders of the one on the right are mirrored.
#[derive(Copy, Clone, Debug, PartialEq, Eq, Structural, Hash)]
pub enum ScreenSideEnum {
    Left,
    Right,
}

/// Knockback points away from the opponent: left for the combatant on the
/// left, right for the one on the right.
pub open spec fn back_dir(side: ScreenSideEnum) -> i32 {
    match side {
        ScreenSideEnum::Left => -1i32,
        ScreenSideEnum::Right => 1i32,
    }
}


/// Sides of two combatants at horizontal positions `x1`, `x2`; on a tie the
/// previous sides stay.
pub open spec fn sides_for(x1: i32, x2: i32, prev: (ScreenSideEnum, ScreenSideEnum)) -> (
    ScreenSideEnum,
    ScreenSideEnum,
) {
    if x1 < x2 {
        (ScreenSideEnum::Left, ScreenSideEnum::Right)
    } else if x2 < x1 {
        (ScreenSideEnum::Right, ScreenSideEnum::Left)
    } else {
        prev
    }
}

impl ScreenSideEnum {
    pub fn back_direction(&self) -> (r: i32)
        ensures
            r == back_dir(*self),
    {
        match self {
            ScreenSideEnum::Left => -1,
            ScreenSideEnum::Right => 1,
        }
    }
}

/// Derives both combatants' sides from their horizontal positions.
pub fn resolve_screen_sides(x1: i32, x2: i32, prev: (ScreenSideEnum, ScreenSideEnum)) -> (r: (
    ScreenSideEnum,
    ScreenSideEnum,
))
    ensures
        r == sides_for(x1, x2, prev),
{
    if x1 < x2 {
        (ScreenSideEnum::Left, ScreenSideEnum::Right)
    } else if x2 < x1 {
        (ScreenSideEnum::Right, ScreenSideEnum::Left)
    } else {
        prev
    }
}

} // verus!
