//! Tuning constants of the pet state machine.
use vstd::prelude::*;

verus! {

/// Hunger points gained by one successful feeding.
pub const HUNGER_GAIN_AMT: u8 = 2;

/// Hunger points lost per decay tick.
pub const HUNGER_DECAY_AMT: u8 = 1;

/// Happiness points lost per decay tick.
pub const HAPPINESS_DECAY_AMT: u8 = 2;

/// Happiness points gained by one feeding or one play session.
pub const HAPPINESS_GAIN_AMT: u8 = 5;

/// Upper bound of the hunger stat.
pub const MAX_FEED_AMT: u8 = 100;

/// Upper bound of the happiness stat.
pub const MAX_HAPPINESS_AMT: u8 = 100;

/// Seconds that make up one decay tick.
pub const DECAY_TIME: i64 = 30;

/// Fixed price of one feeding, credited to the pet's custodial balance.
pub const FOOD_COST_LAMPORTS: u64 = 100_000_000;

/// A tick count is clamped to this many ticks per decay application; a pet
/// holds at most 100 points of either stat, so the clamp can never hide
/// decay that would still matter.
pub const MAX_DECAY_TICKS: u8 = 255;

} // verus!
