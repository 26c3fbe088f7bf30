//! The sum of a sequence of fee rates.
//!
//! `iter.sum()` adds without a check at run time, as `+` does, and asks its
//! caller to show that the sum fits in 64 bits. [`FeeRate::checked_sum`]
//! serves a caller who cannot show it.

use vstd::prelude::*;
use vstd::std_specs::iter::IteratorSpec;

use crate::fee_rate::FeeRate;

verus! {

/// The sum of the values of a sequence of rates, in satoshis per thousand
/// weight units.
pub open spec fn total(rates: Seq<FeeRate>) -> nat
    decreases rates.len(),
{
    if rates.len() == 0 {
        0
    } else {
        total(rates.drop_last()) + rates.last()@
    }
}

/// The rates behind a sequence of references.
pub open spec fn referents(rates: Seq<&FeeRate>) -> Seq<FeeRate> {
    rates.map_values(|rate: &FeeRate| *rate)
}

/// The first `n` rates of a sequence sum to no more than all of them, and
/// one rate more adds its value to the sum.
pub proof fn lemma_total_of_prefix(rates: Seq<FeeRate>, n: int)
    requires
        0 <= n <= rates.len(),
    ensures
        total(rates.take(n)) <= total(rates),
        n < rates.len() ==> total(rates.take(n + 1)) == total(rates.take(n)) + rates[n]@,
    decreases rates.len() - n,
{
    if n == rates.len() {
        assert(rates.take(n) =~= rates);
    } else {
        assert(rates.take(n + 1).drop_last() =~= rates.take(n));
        lemma_total_of_prefix(rates, n + 1);
    }
}

impl core::iter::Sum for FeeRate {
    /// The sum of the rates that an iterator gives: the rate whose value
    /// is the sum of their values.
    fn sum<I: Iterator<Item = FeeRate>>(iter: I) -> (sum: FeeRate)
        requires
            iter.obeys_prophetic_iter_laws(),
            iter.decrease() is Some,
            total(iter.remaining()) <= u64::MAX,
        ensures
            sum == FeeRate::from_sat_per_kwu(total(iter.remaining()) as u64),
            sum@ == total(iter.remaining()),
    {
        let ghost rates = iter.remaining();
        let ghost mut n: int = 0;
        let mut iter = iter;
        let mut sat_kwu: u64 = 0;
        loop
            invariant
                iter.obeys_prophetic_iter_laws(),
                iter.decrease() is Some,
                0 <= n <= rates.len(),
                iter.remaining() == rates.skip(n),
                sat_kwu == total(rates.take(n)),
                total(rates) <= u64::MAX,
            ensures
                sat_kwu == total(rates),
            decreases iter.decrease()->0,
        {
            match iter.next() {
                Some(rate) => {
                    proof {
                        lemma_total_of_prefix(rates, n);
                        lemma_total_of_prefix(rates, n + 1);
                        assert(rates.skip(n)[0] == rates[n]);
                        assert(rates.skip(n).drop_first() =~= rates.skip(n + 1));
                        n = n + 1;
                    }
                    sat_kwu = sat_kwu + rate.to_sat_per_kwu();
                },
                None => {
                    proof {
                        assert(rates.take(n) =~= rates);
                    }
                    break ;
                },
            }
        }
        FeeRate::from_sat_per_kwu(sat_kwu)
    }
}

impl<'a> core::iter::Sum<&'a FeeRate> for FeeRate {
    /// The sum of the rates behind the references that an iterator gives.
    fn sum<I: Iterator<Item = &'a FeeRate>>(iter: I) -> (sum: FeeRate)
        requires
            iter.obeys_prophetic_iter_laws(),
            iter.decrease() is Some,
            total(referents(iter.remaining())) <= u64::MAX,
        ensures
            sum == FeeRate::from_sat_per_kwu(total(referents(iter.remaining())) as u64),
            sum@ == total(referents(iter.remaining())),
    {
        let ghost rates = referents(iter.remaining());
        let ghost mut n: int = 0;
        let mut iter = iter;
        let mut sat_kwu: u64 = 0;
        loop
            invariant
                iter.obeys_prophetic_iter_laws(),
                iter.decrease() is Some,
                0 <= n <= rates.len(),
                referents(iter.remaining()) == rates.skip(n),
                sat_kwu == total(rates.take(n)),
                total(rates) <= u64::MAX,
            ensures
                sat_kwu == total(rates),
            decreases iter.decrease()->0,
        {
            let ghost before = iter.remaining();
            proof {
                assert(referents(before).len() == before.len());
                assert(rates.skip(n).len() == rates.len() - n);
            }
            match iter.next() {
                Some(rate) => {
                    proof {
                        assert(*rate == referents(before)[0]);
                        assert(rates.skip(n)[0] == rates[n]);
                        assert(referents(before.drop_first()) =~= referents(before).drop_first());
                        assert(rates.skip(n).drop_first() =~= rates.skip(n + 1));
                        lemma_total_of_prefix(rates, n);
                        lemma_total_of_prefix(rates, n + 1);
                        n = n + 1;
                    }
                    sat_kwu = sat_kwu + rate.to_sat_per_kwu();
                },
                None => {
                    proof {
                        assert(rates.take(n) =~= rates);
                    }
                    break ;
                },
            }
        }
        FeeRate::from_sat_per_kwu(sat_kwu)
    }
}

impl FeeRate {
    /// The sum of a sequence of rates, for a caller who does not know
    /// whether it fits in 64 bits.
    ///
    /// Returns `None` exactly when it does not.
    #[must_use]
    pub fn checked_sum(rates: &[FeeRate]) -> (sum: Option<FeeRate>)
        ensures
            total(rates@) <= u64::MAX ==> (sum matches Some(s) && s@ == total(rates@)),
            total(rates@) > u64::MAX ==> sum is None,
    {
        let mut sat_kwu: u64 = 0;
        let mut i: usize = 0;
        while i < rates.len()
            invariant
                i <= rates.len(),
                sat_kwu == total(rates@.take(i as int)),
            decreases rates.len() - i,
        {
            proof {
                lemma_total_of_prefix(rates@, i as int);
                lemma_total_of_prefix(rates@, i + 1);
            }
            match sat_kwu.checked_add(rates[i].to_sat_per_kwu()) {
                Some(more) => {
                    sat_kwu = more;
                },
                None => {
                    return None;
                },
            }
            i = i + 1;
        }
        proof {
            assert(rates@.take(i as int) =~= rates@);
        }
        Some(FeeRate::from_sat_per_kwu(sat_kwu))
    }
}

} // verus!
