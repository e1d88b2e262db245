//! The decay engine: turning elapsed wall-clock time into discrete ticks
//! and applying them to a pet.
use vstd::prelude::*;
use crate::constants::{DECAY_TIME, HAPPINESS_DECAY_AMT, HUNGER_DECAY_AMT, MAX_DECAY_TICKS};
use crate::events::PetDied;
use crate::pet::Pet;

verus! {

/// Subtraction that stops at zero instead of going negative.
pub open spec fn spec_sat_sub(a: int, b: int) -> int {
    if a >= b {
        a - b
    } else {
        0
    }
}

/// Time elapsed since the pet was last settled; a clock reading earlier
/// than `last_update` counts as no elapsed time at all.
pub open spec fn spec_elapsed(last_update: i64, now: i64) -> int {
    if now >= last_update {
        now - last_update
    } else {
        0
    }
}

/// Whole decay intervals contained in the elapsed time, clamped to
/// `MAX_DECAY_TICKS`.
pub open spec fn spec_ticks(last_update: i64, now: i64) -> int {
    let t = spec_elapsed(last_update, now) / (DECAY_TIME as int);
    if t >= MAX_DECAY_TICKS as int {
        MAX_DECAY_TICKS as int
    } else {
        t
    }
}

/// What one decay application does to a pet: no whole interval elapsed
/// means no change at all; otherwise both stats drop by their per-tick
/// rate, `last_update` advances by exactly the whole intervals consumed
/// (keeping the fractional remainder for later calls), and a stat
/// reaching zero kills the pet and pins both stats to zero.
pub open spec fn spec_decay(p: Pet, now: i64) -> Pet {
    let t = spec_ticks(p.last_update, now);
    if t == 0 {
        p
    } else {
        let h = spec_sat_sub(p.hunger as int, t * (HUNGER_DECAY_AMT as int));
        let j = spec_sat_sub(p.happiness as int, t * (HAPPINESS_DECAY_AMT as int));
        let lu = p.last_update + t * (DECAY_TIME as int);
        if h == 0 || j == 0 {
            Pet {
                name: p.name,
                hunger: 0,
                happiness: 0,
                alive: false,
                last_update: lu as i64,
                total_sol_received: p.total_sol_received,
                last_feeder: p.last_feeder,
            }
        } else {
            Pet {
                name: p.name,
                hunger: h as u8,
                happiness: j as u8,
                alive: p.alive,
                last_update: lu as i64,
                total_sol_received: p.total_sol_received,
                last_feeder: p.last_feeder,
            }
        }
    }
}

/// The death notification owed for a step from `before` to `after`: one
/// event exactly at the transition into death, never on a later call.
pub open spec fn spec_death_event(before: Pet, after: Pet, now: i64) -> Option<PetDied> {
    if before.alive && !after.alive {
        Some(PetDied { timestamp: now })
    } else {
        None
    }
}

/// The pet-care engine shared by every operation that settles time.
pub struct PetCare {}

impl PetCare {
    /// How many whole decay intervals separate `last_update` from `now`,
    /// clamped to `MAX_DECAY_TICKS`.
    pub fn decay_ticks(last_update: i64, now: i64) -> (t: u8)
        ensures
            t as int == spec_ticks(last_update, now),
    {
        let elapsed: i64 = if now < last_update {
            0
        } else if last_update >= 0 {
            now - last_update
        } else if now <= i64::MAX + last_update {
            now - last_update
        } else {
            // The true gap does not fit an i64; it is far beyond the tick
            // clamp either way.
            i64::MAX
        };
        proof {
            let e = spec_elapsed(last_update, now);
            let d = DECAY_TIME as int;
            if e > i64::MAX as int {
                vstd::arithmetic::div_mod::lemma_div_is_ordered(i64::MAX as int, e, d);
                assert((i64::MAX as int) / d >= MAX_DECAY_TICKS as int);
            }
        }
        let ticks64: u64 = (elapsed as u64) / (DECAY_TIME as u64);
        if ticks64 >= MAX_DECAY_TICKS as u64 {
            MAX_DECAY_TICKS
        } else {
            ticks64 as u8
        }
    }

    /// Applies decay to the pet in place and reports the death event owed,
    /// if this very call is what killed the pet.
    pub fn apply_decay_internal(pet: &mut Pet, now: i64) -> (died: Option<PetDied>)
        ensures
            *final(pet) == spec_decay(*old(pet), now),
            died == spec_death_event(*old(pet), *final(pet), now),
    {
        let ticks: u8 = Self::decay_ticks(pet.last_update, now);
        if ticks == 0 {
            return None;
        }
        proof {
            let e = spec_elapsed(pet.last_update, now);
            let d = DECAY_TIME as int;
            vstd::arithmetic::div_mod::lemma_fundamental_div_mod(e, d);
            vstd::arithmetic::div_mod::lemma_mod_division_less_than_divisor(e, d);
            assert(ticks as int * d <= e);
        }
        let hunger_loss64: u64 = (ticks as u64) * (HUNGER_DECAY_AMT as u64);
        let hunger_loss: u8 = if hunger_loss64 >= 255 {
            255
        } else {
            hunger_loss64 as u8
        };
        let happiness_loss64: u64 = (ticks as u64) * (HAPPINESS_DECAY_AMT as u64);
        let happiness_loss: u8 = if happiness_loss64 >= 255 {
            255
        } else {
            happiness_loss64 as u8
        };
        pet.hunger = pet.hunger.saturating_sub(hunger_loss);
        pet.happiness = pet.happiness.saturating_sub(happiness_loss);
        pet.last_update = pet.last_update + (ticks as i64) * DECAY_TIME;
        if pet.hunger == 0 || pet.happiness == 0 {
            let was_alive = pet.alive;
            pet.alive = false;
            pet.hunger = 0;
            pet.happiness = 0;
            proof {
                assert(*pet =~= spec_decay(*old(pet), now));
            }
            if was_alive {
                Some(PetDied { timestamp: now })
            } else {
                None
            }
        } else {
            proof {
                assert(*pet =~= spec_decay(*old(pet), now));
            }
            None
        }
    }
}

} // verus!
