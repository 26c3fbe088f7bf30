//! The order of fee rates: that of their values.

use core::cmp::Ordering;
use vstd::prelude::*;

use crate::fee_rate::FeeRate;

verus! {

impl vstd::std_specs::cmp::PartialOrdSpecImpl for FeeRate {
    open spec fn obeys_partial_cmp_spec() -> bool {
        true
    }

    open spec fn partial_cmp_spec(&self, other: &FeeRate) -> Option<Ordering> {
        if self@ < other@ {
            Some(Ordering::Less)
        } else if self@ == other@ {
            Some(Ordering::Equal)
        } else {
            Some(Ordering::Greater)
        }
    }
}

impl PartialOrd for FeeRate {
    /// Compares two rates by their values in satoshis per thousand weight
    /// units.
    fn partial_cmp(&self, other: &FeeRate) -> (order: Option<Ordering>) {
        if self.0 < other.0 {
            Some(Ordering::Less)
        } else if self.0 == other.0 {
            Some(Ordering::Equal)
        } else {
            Some(Ordering::Greater)
        }
    }
}

} // verus!
