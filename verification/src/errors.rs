//! The named failures that an operation can surface.
use vstd::prelude::*;

verus! {

/// Every failure aborts the whole operation with no state change; the
/// contracts of the operations say exactly which inputs produce which
/// variant.
#[derive(Clone, Copy, Debug, PartialEq, Eq)]
pub enum CustomError {
    /// The operation needs a living pet.
    PetIsDead,
    /// A standalone decay call found no whole decay interval elapsed.
    NoDecayNeeded,
    /// The caller is not the designated owner.
    UnAuthorized,
    /// The cumulative payment counter cannot take another feeding price.
    Overflow,
    /// A withdrawal would eat into the minimum reserve.
    InSufficientFunds,
}

} // verus!
