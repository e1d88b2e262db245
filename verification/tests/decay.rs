use maya::constants::{
    DECAY_TIME, FOOD_COST_LAMPORTS, HAPPINESS_DECAY_AMT, HUNGER_DECAY_AMT, MAX_FEED_AMT,
    MAX_HAPPINESS_AMT,
};
use maya::errors::CustomError;
use maya::events::PetDied;
use maya::pet::{Identity, Pet};
use maya::utils::PetCare;
use maya::{apply_decay, init_pet};

fn ident(b: u8) -> Identity {
    Identity { bytes: [b; 32] }
}

fn newborn(now: i64) -> Pet {
    let owner = ident(1);
    init_pet(None, &owner, &owner, now).unwrap()
}

#[test]
fn three_intervals_decay_all_stats_and_keep_alignment() {
    let mut pet = newborn(1_000);
    let now = 1_000 + 3 * DECAY_TIME;
    let died = apply_decay(&mut pet, now).unwrap();
    assert_eq!(pet.hunger, MAX_FEED_AMT - 3 * HUNGER_DECAY_AMT);
    assert_eq!(pet.happiness, MAX_HAPPINESS_AMT - 3 * HAPPINESS_DECAY_AMT);
    assert_eq!(pet.last_update, 1_000 + 3 * DECAY_TIME);
    assert!(pet.alive);
    assert_eq!(died, None);
}

#[test]
fn partial_interval_is_kept_for_the_next_call() {
    let mut pet = newborn(0);
    // Two whole intervals plus 15 seconds: only the whole ones settle.
    let died = apply_decay(&mut pet, 2 * DECAY_TIME + 15).unwrap();
    assert_eq!(died, None);
    assert_eq!(pet.hunger, MAX_FEED_AMT - 2 * HUNGER_DECAY_AMT);
    assert_eq!(pet.last_update, 2 * DECAY_TIME);
    // The 15 held-back seconds join the next 15 to make one more tick.
    apply_decay(&mut pet, 3 * DECAY_TIME).unwrap();
    assert_eq!(pet.hunger, MAX_FEED_AMT - 3 * HUNGER_DECAY_AMT);
    assert_eq!(pet.last_update, 3 * DECAY_TIME);
}

#[test]
fn split_decay_equals_one_big_decay() {
    let mut split = newborn(0);
    apply_decay(&mut split, 45).unwrap();
    apply_decay(&mut split, 90).unwrap();
    let mut whole = newborn(0);
    apply_decay(&mut whole, 90).unwrap();
    assert_eq!(split.hunger, whole.hunger);
    assert_eq!(split.happiness, whole.happiness);
    assert_eq!(split.last_update, whole.last_update);
    assert_eq!(split.alive, whole.alive);
}

#[test]
fn second_decay_at_same_time_is_refused_as_no_op() {
    let mut pet = newborn(0);
    apply_decay(&mut pet, 3 * DECAY_TIME).unwrap();
    let before = pet.clone();
    let r = apply_decay(&mut pet, 3 * DECAY_TIME);
    assert_eq!(r, Err(CustomError::NoDecayNeeded));
    assert_eq!(pet, before);
}

#[test]
fn no_whole_interval_elapsed_is_refused() {
    let mut pet = newborn(100);
    let before = pet.clone();
    let r = apply_decay(&mut pet, 100 + DECAY_TIME - 1);
    assert_eq!(r, Err(CustomError::NoDecayNeeded));
    assert_eq!(pet, before);
}

#[test]
fn clock_behind_last_update_means_no_elapsed_time() {
    let mut pet = newborn(1_000);
    let r = apply_decay(&mut pet, 500);
    assert_eq!(r, Err(CustomError::NoDecayNeeded));
    assert_eq!(pet.last_update, 1_000);
}

#[test]
fn starving_to_death_zeroes_both_stats_once() {
    let mut pet = newborn(0);
    // Happiness falls twice as fast as hunger and reaches 0 at 50 ticks.
    let now = 50 * DECAY_TIME;
    let died = apply_decay(&mut pet, now).unwrap();
    assert_eq!(died, Some(PetDied { timestamp: now }));
    assert!(!pet.alive);
    assert_eq!(pet.hunger, 0);
    assert_eq!(pet.happiness, 0);
    // A dead pet cannot be decayed as a caller-facing operation.
    let r = apply_decay(&mut pet, now + DECAY_TIME);
    assert_eq!(r, Err(CustomError::PetIsDead));
}

#[test]
fn death_event_carries_the_clock_reading_not_the_aligned_time() {
    let mut pet = newborn(0);
    let now = 50 * DECAY_TIME + 7;
    let died = apply_decay(&mut pet, now).unwrap();
    assert_eq!(died, Some(PetDied { timestamp: now }));
    assert_eq!(pet.last_update, 50 * DECAY_TIME);
}

#[test]
fn huge_gaps_are_settled_through_the_tick_clamp() {
    let mut pet = newborn(0);
    // Far more than 255 intervals elapse; the clamp still exhausts the pet.
    let died = apply_decay(&mut pet, 1_000_000 * DECAY_TIME).unwrap();
    assert!(died.is_some());
    assert!(!pet.alive);
    assert_eq!(pet.hunger, 0);
    assert_eq!(pet.happiness, 0);
}

#[test]
fn internal_decay_reports_death_only_at_the_transition() {
    let mut pet = newborn(0);
    let died = PetCare::apply_decay_internal(&mut pet, 50 * DECAY_TIME);
    assert_eq!(died, Some(PetDied { timestamp: 50 * DECAY_TIME }));
    // Another settling of a pet that is already dead owes no second event.
    let died_again = PetCare::apply_decay_internal(&mut pet, 52 * DECAY_TIME);
    assert_eq!(died_again, None);
    assert_eq!(pet.hunger, 0);
    assert_eq!(pet.happiness, 0);
}

#[test]
fn internal_decay_touches_nothing_else() {
    let mut pet = newborn(10);
    pet.total_sol_received = 3 * FOOD_COST_LAMPORTS;
    let name_before = pet.name.clone();
    let feeder_before = pet.last_feeder;
    PetCare::apply_decay_internal(&mut pet, 10 + DECAY_TIME);
    assert_eq!(pet.name, name_before);
    assert_eq!(pet.total_sol_received, 3 * FOOD_COST_LAMPORTS);
    assert_eq!(pet.last_feeder, feeder_before);
}

#[test]
fn decay_ticks_counts_whole_intervals_and_clamps() {
    assert_eq!(PetCare::decay_ticks(0, 0), 0);
    assert_eq!(PetCare::decay_ticks(0, DECAY_TIME - 1), 0);
    assert_eq!(PetCare::decay_ticks(0, DECAY_TIME), 1);
    assert_eq!(PetCare::decay_ticks(0, 7 * DECAY_TIME + 29), 7);
    assert_eq!(PetCare::decay_ticks(0, 255 * DECAY_TIME), 255);
    assert_eq!(PetCare::decay_ticks(0, 100_000 * DECAY_TIME), 255);
    assert_eq!(PetCare::decay_ticks(i64::MIN, i64::MAX), 255);
    assert_eq!(PetCare::decay_ticks(50, 20), 0);
}
