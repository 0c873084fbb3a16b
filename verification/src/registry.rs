//! The guard type registry.
//!
//! Every known guard kind owns exactly one bit of the activation mask and a
//! fixed serialized byte length. Both are total, pure functions over the
//! closed set of kinds. A bit, once assigned, is never reused or renumbered:
//! reassignment would silently change the meaning of persisted
//! configurations.
use vstd::prelude::*;

verus! {

/// Every bit a known guard kind owns; a persisted mask with a bit outside
/// this set is rejected at decode time.
pub const KNOWN_GUARDS_MASK: u64 = 0b1110;

/// The closed set of known guard kinds, in ascending bit order, which is
/// also the fixed order in which a guard set runs them.
#[derive(Clone, Copy, PartialEq, Eq, Structural, Debug)]
pub enum GuardType {
    Lamports,
    SolPayment,
    StartDate,
}

impl GuardType {
    /// The unique single-bit mask of a kind.
    pub open spec fn spec_mask(self) -> u64 {
        match self {
            GuardType::Lamports => 0b10,
            GuardType::SolPayment => 0b100,
            GuardType::StartDate => 0b1000,
        }
    }

    /// The fixed serialized byte length of a kind's configuration.
    pub open spec fn spec_size(self) -> usize {
        match self {
            GuardType::Lamports => 40,
            GuardType::SolPayment => 40,
            GuardType::StartDate => 8,
        }
    }

    pub fn as_mask(self) -> (r: u64)
        ensures
            r == self.spec_mask(),
    {
        match self {
            GuardType::Lamports => 0b10,
            GuardType::SolPayment => 0b100,
            GuardType::StartDate => 0b1000,
        }
    }

    pub fn size(self) -> (r: usize)
        ensures
            r == self.spec_size(),
    {
        match self {
            GuardType::Lamports => 40,
            GuardType::SolPayment => 40,
            GuardType::StartDate => 8,
        }
    }
}

/// No two kinds share a bit, every kind's bit lies inside the known set,
/// and every mask is nonzero.
pub proof fn lemma_masks_well_formed(a: GuardType, b: GuardType)
    ensures
        a != b ==> a.spec_mask() & b.spec_mask() == 0,
        a.spec_mask() & KNOWN_GUARDS_MASK == a.spec_mask(),
        a.spec_mask() != 0,
{
    assert(0b10u64 & 0b100u64 == 0 && 0b10u64 & 0b1000u64 == 0 && 0b100u64 & 0b1000u64 == 0
        && 0b100u64 & 0b10u64 == 0 && 0b1000u64 & 0b10u64 == 0 && 0b1000u64 & 0b100u64 == 0
        && 0b10u64 & 0b1110u64 == 0b10u64 && 0b100u64 & 0b1110u64 == 0b100u64
        && 0b1000u64 & 0b1110u64 == 0b1000u64) by (bit_vector);
}

} // verus!
