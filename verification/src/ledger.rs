//! The resource ledger: the score counter and the energy bar. Energy drains
//! every active tick at a rate picked by the controller mode and is partly
//! refilled by each caught enemy; it is clamped to the closed range from
//! empty to full.

use vstd::prelude::*;
use crate::{ENERGY_FULL, IDLE_ENERGY_BURNING_RATE, MOVING_ENERGY_BURNING_RATE,
    SPRINTING_ENERGY_BURNING_RATE};
use crate::state::GameState;

verus! {

/// The per-session ledger. `energy` is measured in millionths of a full bar
/// and never leaves `0 ..= ENERGY_FULL`; `score` counts caught enemies and
/// only ever grows, except for the explicit reset on a new session.
#[derive(Clone, Copy, Debug, PartialEq, Eq, Structural)]
pub struct GameResources {
    pub energy: u32,
    pub score: u32,
}

/// The drain rate for one tick, in millionths of a bar per millisecond.
/// The modes are mutually exclusive and checked in this order: a moving
/// player drains at the moving rate even while the boost input is held;
/// boosting applies only to a player standing still.
pub open spec fn spec_burn_rate(moving: bool, boosting: bool) -> u32 {
    if moving {
        MOVING_ENERGY_BURNING_RATE
    } else if boosting {
        SPRINTING_ENERGY_BURNING_RATE
    } else {
        IDLE_ENERGY_BURNING_RATE
    }
}

/// Energy left after draining `rate` millionths per millisecond for `dt_ms`
/// milliseconds, floored at an empty bar.
pub open spec fn spec_energy_after_burn(energy: u32, rate: u32, dt_ms: u32) -> u32 {
    if energy > rate * dt_ms {
        (energy - rate * dt_ms) as u32
    } else {
        0
    }
}

/// The regeneration a caught enemy grants, keyed by how empty the bar is:
/// the emptier the bar, the larger the refill, and a nearly full bar gains
/// nothing.
pub open spec fn spec_kill_bonus(energy: u32) -> u32 {
    if energy < 300_000 {
        300_000
    } else if energy < 700_000 {
        200_000
    } else if energy < 900_000 {
        100_000
    } else if energy < 990_000 {
        10_000
    } else {
        0
    }
}

/// Energy after one caught enemy: the bonus for the current level, capped at
/// a full bar.
pub open spec fn spec_energy_after_kill(energy: u32) -> u32 {
    if energy + spec_kill_bonus(energy) > ENERGY_FULL {
        ENERGY_FULL
    } else {
        (energy + spec_kill_bonus(energy)) as u32
    }
}

/// The score after one caught enemy; the counter sticks at its maximum
/// rather than wrap.
pub open spec fn spec_score_after_kill(score: u32) -> u32 {
    if score == u32::MAX {
        score
    } else {
        (score + 1) as u32
    }
}

impl GameResources {
    /// The ledger invariant: the energy bar never exceeds full.
    pub open spec fn wf(self) -> bool {
        self.energy <= ENERGY_FULL
    }

    /// A fresh ledger: a full bar and no score.
    pub fn new() -> (r: GameResources)
        ensures
            r.wf(),
            r.energy == ENERGY_FULL,
            r.score == 0,
    {
        GameResources { energy: ENERGY_FULL, score: 0 }
    }

    /// Reset for a new session: the score returns to zero and the bar refills.
    pub fn reset(&mut self)
        ensures
            final(self).wf(),
            final(self).energy == ENERGY_FULL,
            final(self).score == 0,
    {
        self.energy = ENERGY_FULL;
        self.score = 0;
    }

    /// Credit one caught enemy: one point of score and the level-keyed
    /// energy refill, clamped to a full bar.
    pub fn apply_kill(&mut self)
        requires
            old(self).wf(),
        ensures
            final(self).wf(),
            final(self).energy == spec_energy_after_kill(old(self).energy),
            final(self).score == spec_score_after_kill(old(self).score),
            old(self).score <= final(self).score,
    {
        let bonus: u32 = if self.energy < 300_000 {
            300_000
        } else if self.energy < 700_000 {
            200_000
        } else if self.energy < 900_000 {
            100_000
        } else if self.energy < 990_000 {
            10_000
        } else {
            0
        };
        if self.energy > ENERGY_FULL - bonus {
            self.energy = ENERGY_FULL;
        } else {
            self.energy = self.energy + bonus;
        }
        if self.score < u32::MAX {
            self.score = self.score + 1;
        }
    }
}

/// Drain energy for one tick. Only an active session burns energy; in every
/// other phase the ledger is untouched. The returned flag reports whether
/// the bar reached empty on this tick, which the state machine turns into a
/// game over.
pub fn burn_energy(
    resources: &mut GameResources,
    game_state: GameState,
    moving: bool,
    boosting: bool,
    dt_ms: u32,
) -> (exhausted: bool)
    requires
        old(resources).wf(),
    ensures
        final(resources).wf(),
        game_state == GameState::Active ==> final(resources).energy == spec_energy_after_burn(
            old(resources).energy,
            spec_burn_rate(moving, boosting),
            dt_ms,
        ),
        game_state == GameState::Active ==> final(resources).score == old(resources).score,
        game_state != GameState::Active ==> *final(resources) == *old(resources),
        exhausted == (game_state == GameState::Active && final(resources).energy == 0),
{
    if game_state == GameState::Active {
        let rate: u32 = if moving {
            MOVING_ENERGY_BURNING_RATE
        } else if boosting {
            SPRINTING_ENERGY_BURNING_RATE
        } else {
            IDLE_ENERGY_BURNING_RATE
        };
        proof {
            assert((rate as int) * (dt_ms as int) <= 300 * (u32::MAX as int)) by (nonlinear_arith)
                requires
                    rate <= 300,
                    dt_ms <= u32::MAX,
            ;
        }
        let burn: u64 = (rate as u64) * (dt_ms as u64);
        if burn >= resources.energy as u64 {
            resources.energy = 0;
        } else {
            resources.energy = resources.energy - burn as u32;
        }
        resources.energy == 0
    } else {
        false
    }
}

/// Energy is strictly clamped: draining never takes the bar below empty and
/// a kill bonus never takes it above full.
pub proof fn lemma_energy_clamped(energy: u32, rate: u32, dt_ms: u32)
    requires
        energy <= ENERGY_FULL,
    ensures
        0 <= spec_energy_after_burn(energy, rate, dt_ms) <= ENERGY_FULL,
        0 <= spec_energy_after_kill(energy) <= ENERGY_FULL,
{
}

} // verus!
