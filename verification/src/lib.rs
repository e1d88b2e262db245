//! A small virtual-pet state machine whose record lives in a fee-metered
//! ledger account: time-based decay of its stats, paid feeding, play,
//! owner-gated creation and treasury withdrawal. The host hands every
//! operation the current clock reading and commits the result atomically;
//! the contracts here pin down the new state and the event snapshots for
//! every input.
use vstd::prelude::*;

pub mod constants;
pub mod errors;
pub mod events;
pub mod laws;
pub mod pet;
pub mod utils;

use crate::constants::{
    FOOD_COST_LAMPORTS, HAPPINESS_GAIN_AMT, HUNGER_GAIN_AMT, MAX_FEED_AMT, MAX_HAPPINESS_AMT,
};
use crate::errors::CustomError;
use crate::laws::lemma_decay_preserves_invariant;
use crate::events::PetDied;
use crate::pet::{Identity, Pet};
use crate::utils::{spec_death_event, spec_decay, spec_ticks, PetCare};

verus! {

/// The name a pet gets when its creator passes none.
pub open spec fn spec_initial_name(name: Option<String>) -> Seq<char> {
    match name {
        Some(n) => n@,
        None => "maya"@,
    }
}

/// What a successful feeding does to an (already decayed, living) pet:
/// if the hunger gain fits under the cap, hunger rises by it and
/// happiness rises by its own gain only where that fits too; if the
/// hunger gain does not fit, both stats are clamped straight to their
/// caps. The feeding price is added to the running total and the payer
/// is recorded.
pub open spec fn spec_feed_gains(p: Pet, payer: Identity) -> Pet {
    let h = p.hunger as int + HUNGER_GAIN_AMT as int;
    let j = p.happiness as int + HAPPINESS_GAIN_AMT as int;
    Pet {
        name: p.name,
        hunger: if h <= MAX_FEED_AMT as int {
            h as u8
        } else {
            MAX_FEED_AMT
        },
        happiness: if h <= MAX_FEED_AMT as int {
            if j <= MAX_HAPPINESS_AMT as int {
                j as u8
            } else {
                p.happiness
            }
        } else {
            MAX_HAPPINESS_AMT
        },
        alive: p.alive,
        last_update: p.last_update,
        total_sol_received: (p.total_sol_received + FOOD_COST_LAMPORTS) as u64,
        last_feeder: payer,
    }
}

/// What one play session does to an (already decayed) pet: happiness
/// rises by the play gain, clamped to its cap; nothing else moves.
pub open spec fn spec_play_gain(p: Pet) -> Pet {
    let j = p.happiness as int + HAPPINESS_GAIN_AMT as int;
    Pet {
        name: p.name,
        hunger: p.hunger,
        happiness: if j <= MAX_HAPPINESS_AMT as int {
            j as u8
        } else {
            MAX_HAPPINESS_AMT
        },
        alive: p.alive,
        last_update: p.last_update,
        total_sol_received: p.total_sol_received,
        last_feeder: p.last_feeder,
    }
}

/// Creates the one pet record. Only the designated owner may do so; any
/// other caller is turned away before anything exists. The newborn pet
/// is fully fed, fully happy, alive, settled at the current clock
/// reading, and has received nothing yet.
pub fn init_pet(
    name: Option<String>,
    authority: &Identity,
    owner: &Identity,
    now: i64,
) -> (r: Result<Pet, CustomError>)
    requires
        name matches Some(n) ==> n@.len() <= 32,
    ensures
        authority@ != owner@ ==> (r matches Err(e) && e == CustomError::UnAuthorized),
        authority@ == owner@ ==> (r matches Ok(p) && {
            &&& p.name@ == spec_initial_name(name)
            &&& p.hunger == MAX_FEED_AMT
            &&& p.happiness == MAX_HAPPINESS_AMT
            &&& p.alive
            &&& p.last_update == now
            &&& p.total_sol_received == 0
            &&& p.last_feeder == *authority
            &&& p.wf()
            &&& p.death_zeroed()
        }),
{
    if !authority.equals(owner) {
        return Err(CustomError::UnAuthorized);
    }
    let pet_name: String = match name {
        Some(n) => n,
        None => {
            proof {
                reveal_strlit("maya");
            }
            "maya".to_owned()
        },
    };
    Ok(Pet {
        name: pet_name,
        hunger: MAX_FEED_AMT,
        happiness: MAX_HAPPINESS_AMT,
        alive: true,
        last_update: now,
        total_sol_received: 0,
        last_feeder: *authority,
    })
}

/// Settles elapsed time on a living pet, as a caller-facing operation
/// that expects to observe an effect: a dead pet and a call with no
/// whole decay interval elapsed are both turned away unchanged. On
/// success the pet becomes its decayed self and the death event owed,
/// if this call killed it, is handed back for publication.
pub fn apply_decay(pet: &mut Pet, now: i64) -> (r: Result<Option<PetDied>, CustomError>)
    requires
        old(pet).wf(),
    ensures
        final(pet).wf(),
        !old(pet).alive ==> (r matches Err(e) && e == CustomError::PetIsDead && *final(pet)
            == *old(pet)),
        old(pet).alive && spec_ticks(old(pet).last_update, now) == 0 ==> (r matches Err(e) && e
            == CustomError::NoDecayNeeded && *final(pet) == *old(pet)),
        old(pet).alive && spec_ticks(old(pet).last_update, now) != 0 ==> (r matches Ok(ev) && {
            &&& *final(pet) == spec_decay(*old(pet), now)
            &&& ev == spec_death_event(*old(pet), *final(pet), now)
        }),
{
    if !pet.alive {
        return Err(CustomError::PetIsDead);
    }
    let ticks = PetCare::decay_ticks(pet.last_update, now);
    if ticks == 0 {
        return Err(CustomError::NoDecayNeeded);
    }
    let died = PetCare::apply_decay_internal(pet, now);
    proof {
        lemma_decay_preserves_invariant(*old(pet), now);
    }
    Ok(died)
}

/// Feeds the pet. The host collects the fixed feeding price into the
/// pet's custody before this runs; here elapsed time is settled first,
/// and a pet that is dead after that settling turns the call away with
/// the record unchanged, as does a cumulative-payment counter that
/// cannot take another price. On success the gains of
/// [`spec_feed_gains`] apply to the decayed pet. A successful feeding
/// implies the pet outlived the settling, so no death event can be owed.
pub fn feed_pet(pet: &mut Pet, payer: &Identity, now: i64) -> (r: Result<(), CustomError>)
    requires
        old(pet).wf(),
    ensures
        final(pet).wf(),
        !spec_decay(*old(pet), now).alive ==> (r matches Err(e) && e == CustomError::PetIsDead
            && *final(pet) == *old(pet)),
        spec_decay(*old(pet), now).alive && spec_decay(*old(pet), now).total_sol_received
            + FOOD_COST_LAMPORTS > u64::MAX ==> (r matches Err(e) && e == CustomError::Overflow
            && *final(pet) == *old(pet)),
        spec_decay(*old(pet), now).alive && spec_decay(*old(pet), now).total_sol_received
            + FOOD_COST_LAMPORTS <= u64::MAX ==> r is Ok && *final(pet)
            == spec_feed_gains(spec_decay(*old(pet), now), *payer),
        r is Ok ==> final(pet).alive && final(pet).death_zeroed(),
{
    let hunger0 = pet.hunger;
    let happiness0 = pet.happiness;
    let alive0 = pet.alive;
    let last_update0 = pet.last_update;
    let _ = PetCare::apply_decay_internal(pet, now);
    proof {
        lemma_decay_preserves_invariant(*old(pet), now);
    }
    if !pet.alive {
        pet.hunger = hunger0;
        pet.happiness = happiness0;
        pet.alive = alive0;
        pet.last_update = last_update0;
        proof {
            assert(*pet =~= *old(pet));
        }
        return Err(CustomError::PetIsDead);
    }
    match pet.total_sol_received.checked_add(FOOD_COST_LAMPORTS) {
        None => {
            pet.hunger = hunger0;
            pet.happiness = happiness0;
            pet.alive = alive0;
            pet.last_update = last_update0;
            proof {
                assert(*pet =~= *old(pet));
            }
            Err(CustomError::Overflow)
        },
        Some(new_total) => {
            if pet.hunger + HUNGER_GAIN_AMT <= MAX_FEED_AMT {
                pet.hunger = pet.hunger + HUNGER_GAIN_AMT;
                if pet.happiness + HAPPINESS_GAIN_AMT <= MAX_HAPPINESS_AMT {
                    pet.happiness = pet.happiness + HAPPINESS_GAIN_AMT;
                }
            } else {
                pet.hunger = MAX_FEED_AMT;
                pet.happiness = MAX_HAPPINESS_AMT;
            }
            pet.total_sol_received = new_total;
            pet.last_feeder = *payer;
            proof {
                assert(*pet =~= spec_feed_gains(spec_decay(*old(pet), now), *payer));
            }
            Ok(())
        },
    }
}

/// Plays with the pet: settles elapsed time, then raises happiness by
/// the play gain, clamped to its cap. Deliberately ungated on liveness,
/// exactly as the interaction rules state: a dead pet still registers
/// the happiness rise. The death event owed by the settling, if any, is
/// handed back.
pub fn play_pet(pet: &mut Pet, now: i64) -> (r: Result<Option<PetDied>, CustomError>)
    requires
        old(pet).wf(),
    ensures
        final(pet).wf(),
        (r matches Ok(ev) && {
            &&& *final(pet) == spec_play_gain(spec_decay(*old(pet), now))
            &&& ev == spec_death_event(*old(pet), spec_decay(*old(pet), now), now)
        }),
{
    let died = PetCare::apply_decay_internal(pet, now);
    proof {
        lemma_decay_preserves_invariant(*old(pet), now);
    }
    if pet.happiness + HAPPINESS_GAIN_AMT <= MAX_HAPPINESS_AMT {
        pet.happiness = pet.happiness + HAPPINESS_GAIN_AMT;
    } else {
        pet.happiness = MAX_HAPPINESS_AMT;
    }
    proof {
        assert(*pet =~= spec_play_gain(spec_decay(*old(pet), now)));
    }
    Ok(died)
}

/// Computes the owner's withdrawal. Only the designated owner may
/// drain the custody, and only down to the minimum reserve the host
/// demands to keep the record alive: a custody already at or below the
/// reserve yields either a zero withdrawal (at exactly the reserve, a
/// legal no-op) or a refusal, never a wrapped subtraction. The host
/// moves exactly the returned amount from the pet's custody to the
/// owner, atomically.
pub fn withdraw_sol(
    caller: &Identity,
    owner: &Identity,
    pet_lamports: u64,
    min_balance: u64,
) -> (r: Result<u64, CustomError>)
    ensures
        caller@ != owner@ ==> (r matches Err(e) && e == CustomError::UnAuthorized),
        caller@ == owner@ && pet_lamports < min_balance ==> (r matches Err(e) && e
            == CustomError::InSufficientFunds),
        caller@ == owner@ && pet_lamports >= min_balance ==> (r matches Ok(w) && w
            == pet_lamports - min_balance),
{
    if !caller.equals(owner) {
        return Err(CustomError::UnAuthorized);
    }
    if pet_lamports < min_balance {
        return Err(CustomError::InSufficientFunds);
    }
    Ok(pet_lamports - min_balance)
}

} // verus!
