//! Basic behaviour shared by the self-moving hazards.

use vstd::prelude::*;
use crate::player::Player;

verus! {

/// A hazard that may move once per tick. Each implementor describes its own
/// motion exactly through its `stepped` function.
pub trait Enemy: Sized {
    /// Bounds under which one tick of motion stays in range.
    spec fn can_step(&self, dt: int) -> bool;

    /// The enemy after `dt` milliseconds of motion.
    spec fn stepped(&self, dt: int) -> Self;

    /// Advances the enemy by one tick. The player is visible to every
    /// enemy, though the hazards of this library ignore it.
    fn update_position(&mut self, game_time: i64, player: &Player)
        requires
            old(self).can_step(game_time as int),
        ensures
            *final(self) == old(self).stepped(game_time as int),
    ;
}

} // verus!
