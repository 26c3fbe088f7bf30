//! Fee rates, in satoshis per thousand weight units.

use vstd::prelude::*;

use crate::amount::Amount;
use crate::weight::{Weight, WITNESS_SCALE_FACTOR};

pub mod display;
pub mod fuzz;
pub mod laws;
pub mod ops;
pub mod order;
pub mod parse;
pub mod sum;

verus! {

/// The number of weight units that a rate is quoted for.
pub const WEIGHT_UNITS_PER_KWU: u64 = 1000;

/// The number of satoshis per thousand weight units in one satoshi per
/// virtual byte.
pub const SAT_KWU_PER_SAT_VB: u64 = WEIGHT_UNITS_PER_KWU / WITNESS_SCALE_FACTOR;

/// `n` divided by `unit` and rounded up: the least whole number of `unit`s
/// that is no less than `n`.
pub open spec fn ceil_div(n: nat, unit: nat) -> nat
    recommends
        unit > 0,
{
    (n + (unit - 1) as nat) / unit
}

/// The fee in satoshis for `wu` weight units at `sat_kwu` satoshis per
/// thousand weight units, a fraction of a satoshi counted as a whole one.
pub open spec fn fee_for_weight(sat_kwu: nat, wu: nat) -> nat {
    ceil_div(sat_kwu * wu, WEIGHT_UNITS_PER_KWU as nat)
}

/// The fee for a weight as the checked functions give it: none when the
/// rate times the weight, with the 999 that are added to round up, does not
/// fit in 64 bits.
pub open spec fn checked_fee_for_weight(sat_kwu: nat, wu: nat) -> Option<nat> {
    if sat_kwu * wu + (WEIGHT_UNITS_PER_KWU - 1) <= u64::MAX {
        Some(fee_for_weight(sat_kwu, wu))
    } else {
        None
    }
}

/// The fee for a size in virtual bytes as the checked functions give it:
/// none when the weight of the size does not fit in 64 bits, and else the
/// checked fee for that weight.
pub open spec fn checked_fee_for_size(sat_kwu: nat, vb: nat) -> Option<nat> {
    if vb * WITNESS_SCALE_FACTOR <= u64::MAX {
        checked_fee_for_weight(sat_kwu, vb * (WITNESS_SCALE_FACTOR as nat))
    } else {
        None
    }
}

/// The rate in satoshis per thousand weight units at which `sat` satoshis
/// pay for `wu` weight units, rounded down.
pub open spec fn rate_for_fee(sat: nat, wu: nat) -> nat
    recommends
        wu > 0,
{
    (sat * (WEIGHT_UNITS_PER_KWU as nat)) / wu
}

/// `ceil_div(n, unit)` units cover `n`, and one unit less does not.
pub proof fn lemma_ceil_div_is_least_cover(n: nat, unit: nat)
    requires
        unit > 0,
    ensures
        ceil_div(n, unit) * unit >= n,
        n > 0 ==> ceil_div(n, unit) >= 1 && (ceil_div(n, unit) - 1) * unit < n,
        n == 0 ==> ceil_div(n, unit) == 0,
{
    let padded = (n + (unit - 1) as nat) as int;
    let quotient = ceil_div(n, unit) as int;
    let remainder = padded % (unit as int);
    vstd::arithmetic::div_mod::lemma_fundamental_div_mod(padded, unit as int);
    vstd::arithmetic::div_mod::lemma_mod_bound(padded, unit as int);
    assert(quotient == padded / (unit as int));
    assert(quotient * unit == padded - remainder) by (nonlinear_arith)
        requires
            padded == unit * quotient + remainder,
    ;
    assert((quotient - 1) * unit == quotient * unit - unit) by (nonlinear_arith);
    assert(quotient * unit > 0 ==> quotient >= 1) by (nonlinear_arith)
        requires
            unit > 0,
    ;
    assert(quotient * unit < unit ==> quotient <= 0) by (nonlinear_arith)
        requires
            unit > 0,
    ;
}

/// A fee rate: a whole number of satoshis per thousand weight units.
///
/// The stored number is always the rate in sat/kwu. Rates per virtual byte
/// and per thousand virtual bytes are converted where they enter and leave.
/// Rates are equal when their values are, and ordered as their values are.
#[derive(Debug, Copy, Clone, PartialEq, Eq, Structural, Ord, Hash)]
pub struct FeeRate(u64);

impl View for FeeRate {
    type V = nat;

    /// The rate in satoshis per thousand weight units.
    closed spec fn view(&self) -> nat {
        self.0 as nat
    }
}

impl FeeRate {
    /// The rate of `sat_kwu` satoshis per thousand weight units.
    pub closed spec fn spec_from_sat_per_kwu(sat_kwu: u64) -> FeeRate {
        FeeRate(sat_kwu)
    }

    /// The value of the rate as a 64-bit number.
    pub closed spec fn spec_to_sat_per_kwu(self) -> u64 {
        self.0
    }

    /// A rate is known by its value, which fits in 64 bits: the rate made
    /// from its value is the rate itself.
    pub proof fn lemma_rate_of_value(self)
        ensures
            self@ <= u64::MAX,
            self.spec_to_sat_per_kwu() == self@,
            FeeRate::spec_from_sat_per_kwu(self.spec_to_sat_per_kwu()) == self,
    {
    }

    /// The value of the rate made from a number is that number.
    pub proof fn lemma_value_of_rate(sat_kwu: u64)
        ensures
            FeeRate::spec_from_sat_per_kwu(sat_kwu)@ == sat_kwu,
            FeeRate::spec_from_sat_per_kwu(sat_kwu).spec_to_sat_per_kwu() == sat_kwu,
    {
    }

    /// 0 sat/kwu. The same as [`FeeRate::MIN`], for where a zero is meant.
    #[allow(non_snake_case)]
    pub fn ZERO() -> (rate: FeeRate)
        ensures
            rate == FeeRate::from_sat_per_kwu(0),
            rate@ == 0,
    {
        FeeRate(0)
    }

    /// The least rate, 0 sat/kwu. The same as [`FeeRate::ZERO`], for where
    /// a lower bound is meant.
    #[allow(non_snake_case)]
    pub fn MIN() -> (rate: FeeRate)
        ensures
            rate == FeeRate::from_sat_per_kwu(0),
            rate@ == 0,
    {
        FeeRate(0)
    }

    /// The greatest rate that can be represented.
    #[allow(non_snake_case)]
    pub fn MAX() -> (rate: FeeRate)
        ensures
            rate == FeeRate::from_sat_per_kwu(u64::MAX),
            rate@ == u64::MAX,
    {
        FeeRate(u64::MAX)
    }

    /// The least rate at which a transaction is relayed by default:
    /// 1 sat/vB.
    #[allow(non_snake_case)]
    pub fn BROADCAST_MIN() -> (rate: FeeRate)
        ensures
            rate == FeeRate::from_sat_per_kwu(SAT_KWU_PER_SAT_VB),
            rate@ == 1 * SAT_KWU_PER_SAT_VB,
    {
        FeeRate(SAT_KWU_PER_SAT_VB)
    }

    /// The rate by which an output is judged too small to be worth
    /// spending: 3 sat/vB.
    #[allow(non_snake_case)]
    pub fn DUST() -> (rate: FeeRate)
        ensures
            rate == FeeRate::from_sat_per_kwu((3 * SAT_KWU_PER_SAT_VB) as u64),
            rate@ == 3 * SAT_KWU_PER_SAT_VB,
    {
        FeeRate(3 * SAT_KWU_PER_SAT_VB)
    }

    /// Makes a rate from satoshis per thousand weight units.
    #[verifier::when_used_as_spec(spec_from_sat_per_kwu)]
    pub fn from_sat_per_kwu(sat_kwu: u64) -> (rate: FeeRate)
        ensures
            rate == FeeRate::spec_from_sat_per_kwu(sat_kwu),
            rate@ == sat_kwu,
    {
        FeeRate(sat_kwu)
    }

    /// Makes a rate from satoshis per virtual byte.
    ///
    /// Returns `None` exactly when the rate in sat/kwu does not fit in 64
    /// bits.
    pub fn from_sat_per_vb(sat_vb: u64) -> (rate: Option<FeeRate>)
        ensures
            sat_vb * SAT_KWU_PER_SAT_VB <= u64::MAX ==> (rate matches Some(r) && r@ == sat_vb
                * SAT_KWU_PER_SAT_VB),
            sat_vb * SAT_KWU_PER_SAT_VB > u64::MAX ==> rate is None,
    {
        match sat_vb.checked_mul(SAT_KWU_PER_SAT_VB) {
            Some(sat_kwu) => Some(FeeRate(sat_kwu)),
            None => None,
        }
    }

    /// Makes a rate from satoshis per virtual byte, for a caller who knows
    /// that the rate in sat/kwu fits in 64 bits.
    ///
    /// Verus holds every caller that it sees to that. Called with a greater
    /// number from code that it does not see, the multiplication overflows
    /// as that of two `u64` does: it panics where overflow checks are
    /// compiled in and wraps where they are not. [`FeeRate::from_sat_per_vb`]
    /// has neither fault.
    pub fn from_sat_per_vb_unchecked(sat_vb: u64) -> (rate: FeeRate)
        requires
            sat_vb * SAT_KWU_PER_SAT_VB <= u64::MAX,
        ensures
            rate@ == sat_vb * SAT_KWU_PER_SAT_VB,
    {
        FeeRate(sat_vb * SAT_KWU_PER_SAT_VB)
    }

    /// Makes a rate from satoshis per thousand virtual bytes, which weigh
    /// [`WITNESS_SCALE_FACTOR`] thousand weight units. What is left of the
    /// division is dropped.
    pub fn from_sat_per_kvb(sat_kvb: u64) -> (rate: FeeRate)
        ensures
            rate@ == sat_kvb / WITNESS_SCALE_FACTOR,
    {
        FeeRate(sat_kvb / WITNESS_SCALE_FACTOR)
    }

    /// The rate in satoshis per thousand weight units, exactly.
    #[verifier::when_used_as_spec(spec_to_sat_per_kwu)]
    pub fn to_sat_per_kwu(self) -> (sat_kwu: u64)
        ensures
            sat_kwu == self.spec_to_sat_per_kwu(),
            sat_kwu == self@,
    {
        self.0
    }

    /// The rate in satoshis per virtual byte, rounded down.
    pub fn to_sat_per_vb_floor(self) -> (sat_vb: u64)
        ensures
            sat_vb == self@ / (SAT_KWU_PER_SAT_VB as nat),
            sat_vb * SAT_KWU_PER_SAT_VB <= self@ < (sat_vb + 1) * SAT_KWU_PER_SAT_VB,
    {
        self.0 / SAT_KWU_PER_SAT_VB
    }

    /// The rate in satoshis per virtual byte, rounded up, so that the
    /// result never understates the rate. It is found without adding to
    /// the rate, so no rate is too great for it.
    pub fn to_sat_per_vb_ceil(self) -> (sat_vb: u64)
        ensures
            sat_vb == ceil_div(self@, SAT_KWU_PER_SAT_VB as nat),
            sat_vb * SAT_KWU_PER_SAT_VB >= self@,
            self@ > 0 ==> (sat_vb - 1) * SAT_KWU_PER_SAT_VB < self@,
    {
        proof {
            lemma_ceil_div_is_least_cover(self@, SAT_KWU_PER_SAT_VB as nat);
        }
        if self.0 % SAT_KWU_PER_SAT_VB == 0 {
            self.0 / SAT_KWU_PER_SAT_VB
        } else {
            self.0 / SAT_KWU_PER_SAT_VB + 1
        }
    }

    /// Multiplies the rate by a number.
    ///
    /// Returns `None` exactly when the product does not fit in 64 bits.
    #[must_use]
    pub fn checked_mul(self, rhs: u64) -> (rate: Option<FeeRate>)
        ensures
            self@ * rhs <= u64::MAX ==> (rate matches Some(r) && r@ == self@ * rhs),
            self@ * rhs > u64::MAX ==> rate is None,
    {
        match self.0.checked_mul(rhs) {
            Some(res) => Some(FeeRate(res)),
            None => None,
        }
    }

    /// Divides the rate by a number, rounding down.
    ///
    /// Returns `None` exactly when the divisor is zero.
    #[must_use]
    pub fn checked_div(self, rhs: u64) -> (rate: Option<FeeRate>)
        ensures
            rhs != 0 ==> (rate matches Some(r) && r@ == self@ / (rhs as nat)),
            rhs == 0 ==> rate is None,
    {
        match self.0.checked_div(rhs) {
            Some(res) => Some(FeeRate(res)),
            None => None,
        }
    }

    /// The fee for a weight at this rate. A fraction of a satoshi counts
    /// as a whole one, so that the fee never falls short.
    ///
    /// Returns `None` exactly when the rate times the weight, with 999
    /// added for the rounding, does not fit in 64 bits.
    #[must_use]
    pub fn checked_mul_by_weight(self, rhs: Weight) -> (fee: Option<Amount>)
        ensures
            fee matches Some(a) ==> checked_fee_for_weight(self@, rhs@) == Some(a@),
            fee is None ==> checked_fee_for_weight(self@, rhs@) is None,
            fee matches Some(a) ==> a@ * WEIGHT_UNITS_PER_KWU >= self@ * rhs@ && (self@ * rhs@ > 0
                ==> (a@ - 1) * WEIGHT_UNITS_PER_KWU < self@ * rhs@),
    {
        proof {
            lemma_ceil_div_is_least_cover(self@ * rhs@, WEIGHT_UNITS_PER_KWU as nat);
        }
        match self.0.checked_mul(rhs.to_wu()) {
            Some(mul_res) => match mul_res.checked_add(WEIGHT_UNITS_PER_KWU - 1) {
                Some(add_res) => Some(Amount::from_sat(add_res / WEIGHT_UNITS_PER_KWU)),
                None => None,
            },
            None => None,
        }
    }

    /// Adds a number of sat/kwu to the rate.
    ///
    /// Returns `None` exactly when the sum does not fit in 64 bits.
    #[must_use]
    pub fn checked_add(self, rhs: u64) -> (rate: Option<FeeRate>)
        ensures
            self@ + rhs <= u64::MAX ==> (rate matches Some(r) && r@ == self@ + rhs),
            self@ + rhs > u64::MAX ==> rate is None,
    {
        match self.0.checked_add(rhs) {
            Some(res) => Some(FeeRate(res)),
            None => None,
        }
    }

    /// Takes a number of sat/kwu from the rate.
    ///
    /// Returns `None` exactly when the number is greater than the rate.
    #[must_use]
    pub fn checked_sub(self, rhs: u64) -> (rate: Option<FeeRate>)
        ensures
            rhs <= self@ ==> (rate matches Some(r) && r@ == self@ - rhs),
            rhs > self@ ==> rate is None,
    {
        match self.0.checked_sub(rhs) {
            Some(res) => Some(FeeRate(res)),
            None => None,
        }
    }

    /// The fee for a weight in weight units at this rate: another name for
    /// [`FeeRate::checked_mul_by_weight`].
    #[must_use]
    pub fn fee_wu(self, weight: Weight) -> (fee: Option<Amount>)
        ensures
            fee matches Some(a) ==> checked_fee_for_weight(self@, weight@) == Some(a@),
            fee is None ==> checked_fee_for_weight(self@, weight@) is None,
    {
        self.checked_mul_by_weight(weight)
    }

    /// The fee for a size in virtual bytes at this rate.
    ///
    /// The size is turned into a weight by [`Weight::from_vb`], and the fee
    /// is that of [`FeeRate::fee_wu`] for it. Returns `None` exactly when
    /// the weight does not fit in 64 bits or `fee_wu` returns `None` for it.
    #[must_use]
    pub fn fee_vb(self, vb: u64) -> (fee: Option<Amount>)
        ensures
            fee matches Some(a) ==> checked_fee_for_size(self@, vb as nat) == Some(a@),
            fee is None ==> checked_fee_for_size(self@, vb as nat) is None,
    {
        match Weight::from_vb(vb) {
            Some(weight) => self.fee_wu(weight),
            None => None,
        }
    }
}

} // verus!
