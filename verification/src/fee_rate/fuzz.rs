//! Fee rates made from the raw data of a fuzzer.
//!
//! Every 64-bit number is a rate, so a rate is made from whatever number
//! the `arbitrary` crate reads from the data.

use vstd::prelude::*;

use crate::fee_rate::FeeRate;

verus! {

/// `arbitrary::Unstructured`: the raw data of a fuzzer, of which the part
/// that has been read is gone. Nothing inside it is visible to the
/// verifier; [`unread`] names what it holds.
#[verifier::external_type_specification]
#[verifier::external_body]
pub struct ExUnstructured<'a>(arbitrary::Unstructured<'a>);

/// The bytes that an `arbitrary::Unstructured` has yet to give, in the
/// order in which it gives them. Nothing is proved of this name; the
/// contract of [`arbitrary_u64`] says how a read changes it.
pub uninterp spec fn unread(source: arbitrary::Unstructured<'_>) -> Seq<u8>;

/// The first `n` bytes of `data`, with zeros where `data` has fewer.
pub open spec fn first_bytes_or_zeros(data: Seq<u8>, n: nat) -> Seq<u8> {
    Seq::new(
        n,
        |i: int|
            if i < data.len() {
                data[i]
            } else {
                0u8
            },
    )
}

/// The number that bytes stand for when the first byte counts least.
pub open spec fn little_endian(bytes: Seq<u8>) -> nat
    decreases bytes.len(),
{
    if bytes.len() == 0 {
        0
    } else {
        bytes[0] as nat + 256 * little_endian(bytes.skip(1))
    }
}

/// What is left of `data` when up to `n` bytes have been read from it.
pub open spec fn after_reading(data: Seq<u8>, n: nat) -> Seq<u8> {
    if n <= data.len() {
        data.skip(n as int)
    } else {
        Seq::empty()
    }
}

/// Calls `<u64 as arbitrary::Arbitrary>::arbitrary`, and gives `None` for
/// an error of it.
///
/// Believed of it, not proved: it takes the next eight bytes from the
/// source, or as many as are left and zeros for the rest, gives the number
/// that the eight bytes stand for with the first byte counting least, and
/// never fails. The crate's documentation promises less, only that the
/// same data gives the same number; this is what its code does in the
/// version that `Cargo.lock` names.
#[verifier::external_body]
fn arbitrary_u64(source: &mut arbitrary::Unstructured<'_>) -> (number: Option<u64>)
    ensures
        number matches Some(n) && n == little_endian(
            first_bytes_or_zeros(unread(*old(source)), 8),
        ),
        unread(*final(source)) == after_reading(unread(*old(source)), 8),
{
    <u64 as arbitrary::Arbitrary>::arbitrary(source).ok()
}

impl FeeRate {
    /// Makes a rate from raw data: the rate, in satoshis per thousand
    /// weight units, is the next 64-bit number that the source gives. Any
    /// such number is a rate, so nothing is tested and no data is refused:
    /// the result is never `None`.
    pub fn arbitrary(source: &mut arbitrary::Unstructured<'_>) -> (rate: Option<FeeRate>)
        ensures
            rate matches Some(r) && r@ == little_endian(
                first_bytes_or_zeros(unread(*old(source)), 8),
            ),
            unread(*final(source)) == after_reading(unread(*old(source)), 8),
    {
        match arbitrary_u64(source) {
            Some(sat_kwu) => Some(FeeRate::from_sat_per_kwu(sat_kwu)),
            None => None,
        }
    }
}

} // verus!
