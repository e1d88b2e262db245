//! The pet record, the identities that act on it, and its well-formedness.
use vstd::prelude::*;

verus! {

/// A fixed-width caller identity, as the hosting ledger encodes account
/// addresses.
#[derive(Clone, Copy, Debug, PartialEq, Eq)]
pub struct Identity {
    pub bytes: [u8; 32],
}

impl View for Identity {
    type V = Seq<u8>;

    open spec fn view(&self) -> Seq<u8> {
        self.bytes@
    }
}

impl Identity {
    /// Byte-wise equality of two identities; the access-control gate
    /// compares the caller against the designated owner with this.
    pub fn equals(&self, other: &Identity) -> (r: bool)
        ensures
            r == (self@ == other@),
    {
        let mut i: usize = 0;
        while i < 32
            invariant
                0 <= i <= 32,
                forall|k: int| 0 <= k < i ==> self.bytes@[k] == other.bytes@[k],
            decreases 32 - i,
        {
            if self.bytes[i] != other.bytes[i] {
                return false;
            }
            i += 1;
        }
        proof {
            assert(self@ =~= other@);
        }
        true
    }
}

/// The single long-lived pet record.
#[verifier::ext_equal]
#[derive(Clone, Debug, PartialEq, Eq)]
pub struct Pet {
    /// Display name, fixed at creation; at most 32 characters.
    pub name: String,
    /// Satiation level in [0, 100].
    pub hunger: u8,
    /// Mood level in [0, 100].
    pub happiness: u8,
    /// Once false, never true again.
    pub alive: bool,
    /// The point in time up to which decay has been applied; advances only
    /// by whole decay intervals, so no elapsed time is ever lost.
    pub last_update: i64,
    /// Cumulative payments received from feeders; only ever grows.
    pub total_sol_received: u64,
    /// Identity of the most recent successful feeder.
    pub last_feeder: Identity,
}

impl Pet {
    /// Well-formedness that every operation preserves: the stats stay in
    /// range, the name stays within its storage bound, and a dead pet has
    /// starved (hunger stuck at zero).
    pub open spec fn wf(self) -> bool {
        &&& self.hunger <= crate::constants::MAX_FEED_AMT
        &&& self.happiness <= crate::constants::MAX_HAPPINESS_AMT
        &&& self.name@.len() <= 32
        &&& !self.alive ==> self.hunger == 0
    }

    /// The stronger death shape that decay alone maintains: a dead pet has
    /// both stats at exactly zero. Playing with a dead pet deliberately
    /// breaks the happiness half (it raises happiness without a liveness
    /// gate, as the interaction rules state), so this is kept separate
    /// from `wf`.
    pub open spec fn death_zeroed(self) -> bool {
        !self.alive ==> self.hunger == 0 && self.happiness == 0
    }
}

} // verus!
