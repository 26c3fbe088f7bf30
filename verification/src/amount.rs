//! Amounts of money in satoshis.

use vstd::prelude::*;

verus! {

/// A number of satoshis.
#[derive(Debug, Copy, Clone, PartialEq, Eq, Structural, PartialOrd, Ord, Hash)]
pub struct Amount(u64);

impl View for Amount {
    type V = nat;

    /// The number of satoshis.
    closed spec fn view(&self) -> nat {
        self.0 as nat
    }
}

impl Amount {
    /// The amount of `satoshi` satoshis.
    pub closed spec fn spec_from_sat(satoshi: u64) -> Amount {
        Amount(satoshi)
    }

    /// An amount is known by its number of satoshis, which fits in 64 bits:
    /// the amount made from that number is the amount itself.
    pub proof fn lemma_amount_of_value(self)
        ensures
            self@ <= u64::MAX,
            Amount::spec_from_sat(self@ as u64) == self,
    {
    }

    /// The number of satoshis in the amount made from a number is that
    /// number.
    pub proof fn lemma_value_of_amount(satoshi: u64)
        ensures
            Amount::spec_from_sat(satoshi)@ == satoshi,
    {
    }

    /// Makes an amount from a number of satoshis.
    #[verifier::when_used_as_spec(spec_from_sat)]
    pub fn from_sat(satoshi: u64) -> (amount: Amount)
        ensures
            amount == Amount::spec_from_sat(satoshi),
            amount@ == satoshi,
    {
        Amount(satoshi)
    }

    /// The number of satoshis in this amount.
    pub fn to_sat(self) -> (satoshi: u64)
        ensures
            satoshi == self@,
    {
        self.0
    }
}

} // verus!
