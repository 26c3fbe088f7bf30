//! Transaction weight, in weight units.

use vstd::prelude::*;

verus! {

/// The number of weight units in one virtual byte.
pub const WITNESS_SCALE_FACTOR: u64 = 4;

/// A number of weight units.
#[derive(Debug, Copy, Clone, PartialEq, Eq, Structural, PartialOrd, Ord, Hash)]
pub struct Weight(u64);

impl View for Weight {
    type V = nat;

    /// The number of weight units.
    closed spec fn view(&self) -> nat {
        self.0 as nat
    }
}

impl Weight {
    /// The weight of `wu` weight units.
    pub closed spec fn spec_from_wu(wu: u64) -> Weight {
        Weight(wu)
    }

    /// A weight is known by its number of weight units, which fits in 64
    /// bits: the weight made from that number is the weight itself.
    pub proof fn lemma_weight_of_value(self)
        ensures
            self@ <= u64::MAX,
            Weight::spec_from_wu(self@ as u64) == self,
    {
    }

    /// The number of weight units in the weight made from a number is that
    /// number.
    pub proof fn lemma_value_of_weight(wu: u64)
        ensures
            Weight::spec_from_wu(wu)@ == wu,
    {
    }

    /// The largest weight that can be represented.
    #[allow(non_snake_case)]
    pub fn MAX() -> (weight: Weight)
        ensures
            weight@ == u64::MAX,
    {
        Weight(u64::MAX)
    }

    /// Makes a weight from a number of weight units.
    #[verifier::when_used_as_spec(spec_from_wu)]
    pub fn from_wu(wu: u64) -> (weight: Weight)
        ensures
            weight == Weight::spec_from_wu(wu),
            weight@ == wu,
    {
        Weight(wu)
    }

    /// Makes a weight from a number of virtual bytes, each of which counts
    /// for [`WITNESS_SCALE_FACTOR`] weight units.
    ///
    /// Returns `None` exactly when the number of weight units does not fit
    /// in 64 bits.
    pub fn from_vb(vb: u64) -> (weight: Option<Weight>)
        ensures
            vb * WITNESS_SCALE_FACTOR <= u64::MAX ==> (weight matches Some(w) && w@ == vb
                * WITNESS_SCALE_FACTOR),
            vb * WITNESS_SCALE_FACTOR > u64::MAX ==> weight is None,
    {
        match vb.checked_mul(WITNESS_SCALE_FACTOR) {
            Some(wu) => Some(Weight(wu)),
            None => None,
        }
    }

    /// The number of weight units in this weight.
    pub fn to_wu(self) -> (wu: u64)
        ensures
            wu == self@,
    {
        self.0
    }
}

} // verus!
