//! What holds of fee rates whatever their values.

use vstd::prelude::*;
use vstd::std_specs::ops::{AddSpec, MulSpec, SubSpec};

use crate::fee_rate::FeeRate;
use crate::weight::Weight;

verus! {

/// A rate made from a number of satoshis per thousand weight units gives
/// that number back.
pub proof fn lemma_sat_per_kwu_round_trip(sat_kwu: u64)
    ensures
        FeeRate::from_sat_per_kwu(sat_kwu).to_sat_per_kwu() == sat_kwu,
        FeeRate::from_sat_per_kwu(sat_kwu)@ == sat_kwu,
{
    FeeRate::lemma_value_of_rate(sat_kwu);
}

/// Two rates are equal exactly when their values are.
pub proof fn lemma_equal_by_value(a: FeeRate, b: FeeRate)
    ensures
        a == b <==> a@ == b@,
{
    a.lemma_rate_of_value();
    b.lemma_rate_of_value();
}

/// The sum of two rates does not depend on their order.
pub proof fn lemma_add_commutes(a: FeeRate, b: FeeRate)
    ensures
        a.add_spec(b) == b.add_spec(a),
        a.add_req(b) == b.add_req(a),
{
}

/// `+` gives the same rate whether an operand is a rate or a reference to
/// one, and asks the same of its operands.
pub proof fn lemma_add_ignores_references(a: FeeRate, b: FeeRate)
    ensures
        <&FeeRate as AddSpec<FeeRate>>::add_spec(&a, b) == a.add_spec(b),
        <FeeRate as AddSpec<&FeeRate>>::add_spec(a, &b) == a.add_spec(b),
        <&FeeRate as AddSpec<&FeeRate>>::add_spec(&a, &b) == a.add_spec(b),
        <&FeeRate as AddSpec<FeeRate>>::add_req(&a, b) == a.add_req(b),
        <FeeRate as AddSpec<&FeeRate>>::add_req(a, &b) == a.add_req(b),
        <&FeeRate as AddSpec<&FeeRate>>::add_req(&a, &b) == a.add_req(b),
{
}

/// `-` gives the same rate whether an operand is a rate or a reference to
/// one, and asks the same of its operands.
pub proof fn lemma_sub_ignores_references(a: FeeRate, b: FeeRate)
    ensures
        <&FeeRate as SubSpec<FeeRate>>::sub_spec(&a, b) == a.sub_spec(b),
        <FeeRate as SubSpec<&FeeRate>>::sub_spec(a, &b) == a.sub_spec(b),
        <&FeeRate as SubSpec<&FeeRate>>::sub_spec(&a, &b) == a.sub_spec(b),
        <&FeeRate as SubSpec<FeeRate>>::sub_req(&a, b) == a.sub_req(b),
        <FeeRate as SubSpec<&FeeRate>>::sub_req(a, &b) == a.sub_req(b),
        <&FeeRate as SubSpec<&FeeRate>>::sub_req(&a, &b) == a.sub_req(b),
{
}

/// A rate times a weight is the weight times the rate.
pub proof fn lemma_mul_commutes(rate: FeeRate, weight: Weight)
    ensures
        rate.mul_spec(weight) == weight.mul_spec(rate),
        rate.mul_req(weight) == weight.mul_req(rate),
{
}

} // verus!
