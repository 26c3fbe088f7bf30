//! Arithmetic on fee rates with `+`, `-`, `*` and `/`.
//!
//! These operators do not check for overflow at run time. Their
//! preconditions leave to the caller the proof that the result fits in 64
//! bits; the `checked_` methods of [`FeeRate`] serve a caller who cannot
//! give it. Used without that proof by code that Verus does not see, they
//! overflow as the arithmetic of `u64` does: they panic where overflow
//! checks are compiled in and wrap where they are not.

use vstd::prelude::*;
use vstd::std_specs::ops::{AddSpec, SubSpec};

use crate::amount::Amount;
use crate::fee_rate::{
    checked_fee_for_weight, fee_for_weight, rate_for_fee, FeeRate, WEIGHT_UNITS_PER_KWU,
};
use crate::weight::Weight;

verus! {

impl vstd::std_specs::ops::AddSpecImpl for FeeRate {
    open spec fn obeys_add_spec() -> bool {
        true
    }

    open spec fn add_req(self, rhs: FeeRate) -> bool {
        self@ + rhs@ <= u64::MAX
    }

    open spec fn add_spec(self, rhs: FeeRate) -> FeeRate {
        FeeRate::from_sat_per_kwu((self@ + rhs@) as u64)
    }
}

impl core::ops::Add for FeeRate {
    type Output = FeeRate;

    /// The sum of two rates.
    fn add(self, rhs: FeeRate) -> (sum: FeeRate)
        ensures
            sum@ == self@ + rhs@,
    {
        FeeRate(self.0 + rhs.0)
    }
}

impl vstd::std_specs::ops::AddSpecImpl<FeeRate> for &FeeRate {
    open spec fn obeys_add_spec() -> bool {
        true
    }

    open spec fn add_req(self, rhs: FeeRate) -> bool {
        self@ + rhs@ <= u64::MAX
    }

    open spec fn add_spec(self, rhs: FeeRate) -> FeeRate {
        FeeRate::from_sat_per_kwu((self@ + rhs@) as u64)
    }
}

impl core::ops::Add<FeeRate> for &FeeRate {
    type Output = FeeRate;

    /// The sum of two rates, the first behind a reference.
    fn add(self, rhs: FeeRate) -> (sum: FeeRate)
        ensures
            sum@ == self@ + rhs@,
    {
        FeeRate(self.0 + rhs.0)
    }
}

impl vstd::std_specs::ops::AddSpecImpl<&FeeRate> for FeeRate {
    open spec fn obeys_add_spec() -> bool {
        true
    }

    open spec fn add_req(self, rhs: &FeeRate) -> bool {
        self@ + rhs@ <= u64::MAX
    }

    open spec fn add_spec(self, rhs: &FeeRate) -> FeeRate {
        FeeRate::from_sat_per_kwu((self@ + rhs@) as u64)
    }
}

impl core::ops::Add<&FeeRate> for FeeRate {
    type Output = FeeRate;

    /// The sum of two rates, the second behind a reference.
    fn add(self, rhs: &FeeRate) -> (sum: FeeRate)
        ensures
            sum@ == self@ + rhs@,
    {
        FeeRate(self.0 + rhs.0)
    }
}

impl<'a> vstd::std_specs::ops::AddSpecImpl<&'a FeeRate> for &FeeRate {
    open spec fn obeys_add_spec() -> bool {
        true
    }

    open spec fn add_req(self, rhs: &'a FeeRate) -> bool {
        self@ + rhs@ <= u64::MAX
    }

    open spec fn add_spec(self, rhs: &'a FeeRate) -> FeeRate {
        FeeRate::from_sat_per_kwu((self@ + rhs@) as u64)
    }
}

impl<'a> core::ops::Add<&'a FeeRate> for &FeeRate {
    type Output = FeeRate;

    /// The sum of two rates, both behind references.
    fn add(self, rhs: &'a FeeRate) -> (sum: FeeRate)
        ensures
            sum@ == self@ + rhs@,
    {
        FeeRate(self.0 + rhs.0)
    }
}

impl vstd::std_specs::ops::SubSpecImpl for FeeRate {
    open spec fn obeys_sub_spec() -> bool {
        true
    }

    open spec fn sub_req(self, rhs: FeeRate) -> bool {
        rhs@ <= self@
    }

    open spec fn sub_spec(self, rhs: FeeRate) -> FeeRate {
        FeeRate::from_sat_per_kwu((self@ - rhs@) as u64)
    }
}

impl core::ops::Sub for FeeRate {
    type Output = FeeRate;

    /// The difference of two rates.
    fn sub(self, rhs: FeeRate) -> (difference: FeeRate)
        ensures
            difference@ == self@ - rhs@,
    {
        FeeRate(self.0 - rhs.0)
    }
}

impl vstd::std_specs::ops::SubSpecImpl<FeeRate> for &FeeRate {
    open spec fn obeys_sub_spec() -> bool {
        true
    }

    open spec fn sub_req(self, rhs: FeeRate) -> bool {
        rhs@ <= self@
    }

    open spec fn sub_spec(self, rhs: FeeRate) -> FeeRate {
        FeeRate::from_sat_per_kwu((self@ - rhs@) as u64)
    }
}

impl core::ops::Sub<FeeRate> for &FeeRate {
    type Output = FeeRate;

    /// The difference of two rates, the first behind a reference.
    fn sub(self, rhs: FeeRate) -> (difference: FeeRate)
        ensures
            difference@ == self@ - rhs@,
    {
        FeeRate(self.0 - rhs.0)
    }
}

impl vstd::std_specs::ops::SubSpecImpl<&FeeRate> for FeeRate {
    open spec fn obeys_sub_spec() -> bool {
        true
    }

    open spec fn sub_req(self, rhs: &FeeRate) -> bool {
        rhs@ <= self@
    }

    open spec fn sub_spec(self, rhs: &FeeRate) -> FeeRate {
        FeeRate::from_sat_per_kwu((self@ - rhs@) as u64)
    }
}

impl core::ops::Sub<&FeeRate> for FeeRate {
    type Output = FeeRate;

    /// The difference of two rates, the second behind a reference.
    fn sub(self, rhs: &FeeRate) -> (difference: FeeRate)
        ensures
            difference@ == self@ - rhs@,
    {
        FeeRate(self.0 - rhs.0)
    }
}

impl<'a> vstd::std_specs::ops::SubSpecImpl<&'a FeeRate> for &FeeRate {
    open spec fn obeys_sub_spec() -> bool {
        true
    }

    open spec fn sub_req(self, rhs: &'a FeeRate) -> bool {
        rhs@ <= self@
    }

    open spec fn sub_spec(self, rhs: &'a FeeRate) -> FeeRate {
        FeeRate::from_sat_per_kwu((self@ - rhs@) as u64)
    }
}

impl<'a> core::ops::Sub<&'a FeeRate> for &FeeRate {
    type Output = FeeRate;

    /// The difference of two rates, both behind references.
    fn sub(self, rhs: &'a FeeRate) -> (difference: FeeRate)
        ensures
            difference@ == self@ - rhs@,
    {
        FeeRate(self.0 - rhs.0)
    }
}

impl core::ops::AddAssign for FeeRate {
    /// Adds a rate to this one: `a += b` leaves in `a` what `a + b` gives.
    fn add_assign(&mut self, rhs: FeeRate)
        requires
            (*old(self)).add_req(rhs),
        ensures
            *final(self) == (*old(self)).add_spec(rhs),
            final(self)@ == old(self)@ + rhs@,
    {
        self.0 += rhs.0
    }
}

impl core::ops::AddAssign<&FeeRate> for FeeRate {
    /// Adds a rate behind a reference to this one.
    fn add_assign(&mut self, rhs: &FeeRate)
        requires
            (*old(self)).add_req(rhs),
        ensures
            *final(self) == (*old(self)).add_spec(rhs),
            final(self)@ == old(self)@ + rhs@,
    {
        self.0 += rhs.0
    }
}

impl core::ops::SubAssign for FeeRate {
    /// Takes a rate from this one: `a -= b` leaves in `a` what `a - b`
    /// gives.
    fn sub_assign(&mut self, rhs: FeeRate)
        requires
            (*old(self)).sub_req(rhs),
        ensures
            *final(self) == (*old(self)).sub_spec(rhs),
            final(self)@ == old(self)@ - rhs@,
    {
        self.0 -= rhs.0
    }
}

impl core::ops::SubAssign<&FeeRate> for FeeRate {
    /// Takes a rate behind a reference from this one.
    fn sub_assign(&mut self, rhs: &FeeRate)
        requires
            (*old(self)).sub_req(rhs),
        ensures
            *final(self) == (*old(self)).sub_spec(rhs),
            final(self)@ == old(self)@ - rhs@,
    {
        self.0 -= rhs.0
    }
}

impl vstd::std_specs::ops::MulSpecImpl<FeeRate> for Weight {
    open spec fn obeys_mul_spec() -> bool {
        true
    }

    open spec fn mul_req(self, rhs: FeeRate) -> bool {
        checked_fee_for_weight(rhs@, self@) is Some
    }

    open spec fn mul_spec(self, rhs: FeeRate) -> Amount {
        Amount::from_sat(fee_for_weight(rhs@, self@) as u64)
    }
}

impl core::ops::Mul<FeeRate> for Weight {
    type Output = Amount;

    /// The fee for this weight at a rate. A fraction of a satoshi counts as
    /// a whole one, so that the fee never falls short. The operator asks of
    /// its caller what [`FeeRate::checked_mul_by_weight`] tests.
    fn mul(self, rhs: FeeRate) -> (fee: Amount)
        ensures
            fee@ == fee_for_weight(rhs@, self@),
    {
        Amount::from_sat(
            (rhs.to_sat_per_kwu() * self.to_wu() + (WEIGHT_UNITS_PER_KWU - 1))
                / WEIGHT_UNITS_PER_KWU,
        )
    }
}

impl vstd::std_specs::ops::MulSpecImpl<Weight> for FeeRate {
    open spec fn obeys_mul_spec() -> bool {
        true
    }

    open spec fn mul_req(self, rhs: Weight) -> bool {
        checked_fee_for_weight(self@, rhs@) is Some
    }

    open spec fn mul_spec(self, rhs: Weight) -> Amount {
        Amount::from_sat(fee_for_weight(self@, rhs@) as u64)
    }
}

impl core::ops::Mul<Weight> for FeeRate {
    type Output = Amount;

    /// The fee for a weight at this rate: the same as the weight times the
    /// rate.
    fn mul(self, rhs: Weight) -> (fee: Amount)
        ensures
            fee@ == fee_for_weight(self@, rhs@),
    {
        rhs * self
    }
}

impl vstd::std_specs::ops::DivSpecImpl<Weight> for Amount {
    open spec fn obeys_div_spec() -> bool {
        true
    }

    open spec fn div_req(self, rhs: Weight) -> bool {
        rhs@ != 0 && self@ * WEIGHT_UNITS_PER_KWU <= u64::MAX
    }

    open spec fn div_spec(self, rhs: Weight) -> FeeRate {
        FeeRate::from_sat_per_kwu(rate_for_fee(self@, rhs@) as u64)
    }
}

impl core::ops::Div<Weight> for Amount {
    type Output = FeeRate;

    /// The rate at which this amount pays for a weight, rounded down. The
    /// weight is not zero, and a thousand times the amount fits in 64 bits.
    ///
    /// A caller who has a rate and wants the fee for a weight does not
    /// want this: a fee computed from the rounded rate may fall short.
    fn div(self, rhs: Weight) -> (rate: FeeRate)
        ensures
            rate@ == rate_for_fee(self@, rhs@),
    {
        FeeRate(self.to_sat() * WEIGHT_UNITS_PER_KWU / rhs.to_wu())
    }
}

impl vstd::std_specs::convert::FromSpecImpl<FeeRate> for u64 {
    open spec fn obeys_from_spec() -> bool {
        true
    }

    open spec fn from_spec(rate: FeeRate) -> u64 {
        rate.to_sat_per_kwu()
    }
}

impl core::convert::From<FeeRate> for u64 {
    /// The rate in satoshis per thousand weight units.
    fn from(rate: FeeRate) -> (sat_kwu: u64)
        ensures
            sat_kwu == rate@,
    {
        rate.to_sat_per_kwu()
    }
}

} // verus!
