//! The player-controlled actor, its combat statistics and the experience
//! ledger that turns experience into permanent increases.

use vstd::prelude::*;
use crate::geometry::Position;

verus! {

/// Experience that one level costs.
pub const LEVEL_UP_COST: usize = 50;

/// The way the actor looks.
#[derive(Clone, Copy, Debug, PartialEq, Eq, Structural)]
pub enum FacingDirection {
    Up,
    Down,
    Left,
    Right,
}

/// Health and strength of a combatant.
#[derive(Clone, Copy, Debug, PartialEq, Eq, Structural)]
pub struct CombatStats {
    pub health: usize,
    pub max_health: usize,
    pub attack: usize,
    pub defence: usize,
}

impl CombatStats {
    /// Current health never exceeds the maximum.
    pub open spec fn wf(self) -> bool {
        self.health <= self.max_health
    }

    /// Whether one more level fits the counters.
    pub open spec fn can_level_up(self) -> bool {
        &&& self.health + 2 <= usize::MAX
        &&& self.max_health + 2 <= usize::MAX
        &&& self.attack + 1 <= usize::MAX
        &&& self.defence + 1 <= usize::MAX
    }

    /// The statistics one level later: two more health and maximum health,
    /// one more attack and defence.
    pub open spec fn leveled_up(self) -> CombatStats
        recommends
            self.can_level_up(),
    {
        CombatStats {
            health: (self.health + 2) as usize,
            max_health: (self.max_health + 2) as usize,
            attack: (self.attack + 1) as usize,
            defence: (self.defence + 1) as usize,
        }
    }
}

/// The actor that the player steers across the map.
#[derive(Clone, Copy, Debug, PartialEq, Eq, Structural)]
pub struct Player {
    /// While false, input is not processed.
    pub active: bool,
    /// Movement speed in cells per second.
    pub speed: u32,
    /// True only during a tick in which the position changed.
    pub just_moved: bool,
    /// Experience gathered towards the next level.
    pub exp: usize,
    pub position: Position,
    pub facing: FacingDirection,
}

impl Player {
    /// Whether an award of `exp` brings the counter to the cost of a level.
    pub open spec fn levels_up_with(self, exp: usize) -> bool {
        self.exp + exp >= LEVEL_UP_COST
    }

    /// The experience counter after an award of `exp`: the sum, less the cost
    /// of the one level that the award can buy.
    pub open spec fn exp_after_award(self, exp: usize) -> int {
        if self.levels_up_with(exp) {
            self.exp + exp - LEVEL_UP_COST
        } else {
            self.exp + exp
        }
    }

    /// Adds `exp` to the experience counter. If the counter reaches the cost
    /// of a level, the cost is taken from it once and `stats` rise by one
    /// level. Returns whether that happened.
    pub fn give_exp(&mut self, exp: usize, stats: &mut CombatStats) -> (leveled: bool)
        requires
            old(self).exp + exp <= usize::MAX,
            old(self).levels_up_with(exp) ==> old(stats).can_level_up(),
        ensures
            leveled == old(self).levels_up_with(exp),
            *final(self) == (Player { exp: old(self).exp_after_award(exp) as usize, ..*old(self) }),
            *final(stats) == if leveled {
                old(stats).leveled_up()
            } else {
                *old(stats)
            },
            final(stats).max_health >= old(stats).max_health,
            final(stats).attack >= old(stats).attack,
            final(stats).defence >= old(stats).defence,
            old(stats).wf() ==> final(stats).wf(),
    {
        self.exp = self.exp + exp;
        if self.exp >= LEVEL_UP_COST {
            stats.health = stats.health + 2;
            stats.max_health = stats.max_health + 2;
            stats.attack = stats.attack + 1;
            stats.defence = stats.defence + 1;
            self.exp = self.exp - LEVEL_UP_COST;
            return true;
        }
        false
    }
}

} // verus!
