use vstd::prelude::*;

verus! {

/// Health of each combatant at the start of a round.
pub const STARTING_HEALTH: usize = 10;

#[derive(Copy, Clone, Debug, PartialEq, Eq, Structural, Hash)]
pub struct PlayerHealth {
    pub health: usize,
}

/// Remaining health after `amount` of damage, floored at zero.
pub open spec fn health_after(health: usize, amount: usize) -> usize {
    if amount > health {
        0
    } else {
        (health - amount) as usize
    }
}

impl Default for PlayerHealth {
    fn default() -> (r: PlayerHealth)
        ensures
            r.health == STARTING_HEALTH,
    {
        PlayerHealth::new()
    }
}

impl PlayerHealth {
    pub fn new() -> (r: PlayerHealth)
        ensures
            r.health == STARTING_HEALTH,
    {
        PlayerHealth { health: STARTING_HEALTH }
    }

    /// Takes `amount` off the health, stopping at zero. Returns true when the
    /// damage exceeded what was left.
    pub fn take_damage(&mut self, amount: usize) -> (lethal: bool)
        ensures
            final(self).health == health_after(old(self).health, amount),
            amount > old(self).health ==> final(self).health == 0 && lethal,
            amount <= old(self).health ==> final(self).health == old(self).health - amount
                && !lethal,
    {
        if amount > self.health {
            self.health = 0;
            true
        } else {
            self.health = self.health - amount;
            false
        }
    }
}

} // verus!
