//! Snapshots that successful operations hand back for the host to publish.
use vstd::prelude::*;
use crate::pet::{Identity, Pet};

verus! {

/// The observable state after a successful create/decay/feed/play call.
#[derive(Clone, Copy, Debug, PartialEq, Eq)]
pub struct EmitPetUpdated {
    pub hunger: u8,
    pub happiness: u8,
    pub alive: bool,
    pub last_feeder: Identity,
    pub last_update: i64,
}

/// Announced exactly once, at the transition into death.
#[derive(Clone, Copy, Debug, PartialEq, Eq)]
pub struct PetDied {
    pub timestamp: i64,
}

/// What `EmitPetUpdated` reports of a given pet.
pub open spec fn spec_snapshot(p: Pet) -> EmitPetUpdated {
    EmitPetUpdated {
        hunger: p.hunger,
        happiness: p.happiness,
        alive: p.alive,
        last_feeder: p.last_feeder,
        last_update: p.last_update,
    }
}

impl EmitPetUpdated {
    /// Builds the update snapshot of a pet.
    pub fn of_pet(p: &Pet) -> (r: EmitPetUpdated)
        ensures
            r == spec_snapshot(*p),
    {
        EmitPetUpdated {
            hunger: p.hunger,
            happiness: p.happiness,
            alive: p.alive,
            last_feeder: p.last_feeder,
            last_update: p.last_update,
        }
    }
}

} // verus!
