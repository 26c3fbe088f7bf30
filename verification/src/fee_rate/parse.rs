//! Fee rates read from text.
//!
//! A rate is written as a whole number of satoshis per thousand weight
//! units in decimal: one or more of the digits `0` to `9`, before which one
//! `+` may stand. Nothing else may stand in the text, not a space and not
//! an underscore.

use vstd::prelude::*;
use vstd::string::StringSliceAdditionalSpecFns;

use crate::fee_rate::FeeRate;

verus! {

/// Why a text is not a fee rate.
#[derive(Debug, Copy, Clone, PartialEq, Eq, Structural, Hash)]
pub enum ParseFeeRateError {
    /// The text is empty.
    Empty,
    /// The text holds something other than a digit where a digit must
    /// stand, or nothing but a sign.
    InvalidDigit,
    /// The number does not fit in 64 bits.
    Overflow,
}

/// True of the bytes `0` to `9`.
pub open spec fn is_digit(byte: u8) -> bool {
    0x30 <= byte <= 0x39
}

/// True of a text that holds digits only.
pub open spec fn all_digits(text: Seq<u8>) -> bool {
    forall|i: int| 0 <= i < text.len() ==> is_digit(#[trigger] text[i])
}

/// The number that a digit stands for; 0 for a byte that is no digit.
pub open spec fn digit_value(byte: u8) -> nat {
    if is_digit(byte) {
        (byte - 0x30) as nat
    } else {
        0
    }
}

/// The number that a text of digits stands for in decimal. The empty text
/// stands for 0.
pub open spec fn decimal_value(digits: Seq<u8>) -> nat
    decreases digits.len(),
{
    if digits.len() == 0 {
        0
    } else {
        decimal_value(digits.drop_last()) * 10 + digit_value(digits.last())
    }
}

/// The text without the `+` that may stand before the digits. A `+` with
/// nothing after it is left in place, where it counts as a wrong digit.
pub open spec fn without_sign(text: Seq<u8>) -> Seq<u8> {
    if text.len() > 1 && text[0] == 0x2b {
        text.skip(1)
    } else {
        text
    }
}

/// True when digits at the start of `digits` already stand for a number
/// that does not fit in 64 bits.
pub open spec fn starts_with_overflow(digits: Seq<u8>) -> bool {
    exists|n: int|
        0 <= n <= digits.len() && all_digits(#[trigger] digits.take(n)) && decimal_value(
            digits.take(n),
        ) > u64::MAX
}

/// What reading a text gives: the rate in satoshis per thousand weight
/// units that it stands for, or why it stands for none.
///
/// The text is read from left to right, and the first fault found decides:
/// digits that run over 64 bits before a wrong byte follows give
/// `Overflow`.
pub open spec fn parsed(text: Seq<u8>) -> Result<nat, ParseFeeRateError> {
    let digits = without_sign(text);
    if text.len() == 0 {
        Err(ParseFeeRateError::Empty)
    } else if starts_with_overflow(digits) {
        Err(ParseFeeRateError::Overflow)
    } else if !all_digits(digits) {
        Err(ParseFeeRateError::InvalidDigit)
    } else {
        Ok(decimal_value(digits))
    }
}

/// A longer run of a text stands for no smaller a number, and one byte
/// more appends its digit.
pub proof fn lemma_decimal_value_of_prefix(digits: Seq<u8>, shorter: int, longer: int)
    requires
        0 <= shorter <= longer <= digits.len(),
    ensures
        decimal_value(digits.take(shorter)) <= decimal_value(digits.take(longer)),
        longer < digits.len() ==> decimal_value(digits.take(longer + 1)) == decimal_value(
            digits.take(longer),
        ) * 10 + digit_value(digits[longer]),
    decreases longer - shorter,
{
    if longer < digits.len() {
        assert(digits.take(longer + 1).drop_last() =~= digits.take(longer));
    }
    if shorter < longer {
        assert(digits.take(longer).drop_last() =~= digits.take(longer - 1));
        lemma_decimal_value_of_prefix(digits, shorter, longer - 1);
    }
}

/// Digits that end where the text ends, or where a byte that is no digit
/// stands, and that stand for a number of at most 64 bits: then no digits
/// at the start of the text stand for more.
pub proof fn lemma_digits_end_without_overflow(digits: Seq<u8>, end: int)
    requires
        0 <= end <= digits.len(),
        all_digits(digits.take(end)),
        end < digits.len() ==> !is_digit(digits[end]),
        decimal_value(digits.take(end)) <= u64::MAX,
    ensures
        !starts_with_overflow(digits),
{
    assert forall|n: int| 0 <= n <= digits.len() && all_digits(#[trigger] digits.take(n))
        implies decimal_value(digits.take(n)) <= u64::MAX by {
        if n > end {
            assert(digits.take(n)[end] == digits[end]);
        } else {
            lemma_decimal_value_of_prefix(digits, n, end);
        }
    }
}

/// Digits stay digits when one more digit follows them.
pub proof fn lemma_one_more_digit(digits: Seq<u8>, end: int)
    requires
        0 <= end < digits.len(),
        all_digits(digits.take(end)),
        is_digit(digits[end]),
    ensures
        all_digits(digits.take(end + 1)),
{
    assert forall|k: int| 0 <= k < end + 1 implies is_digit(#[trigger] digits.take(end + 1)[k]) by {
        if k < end {
            assert(digits.take(end)[k] == digits[k]);
        }
    }
}

impl FeeRate {
    /// Reads a rate in satoshis per thousand weight units from text.
    ///
    /// Returns the rate exactly when the text is one or more digits, with
    /// or without a `+` before them, that stand for a number of at most 64
    /// bits; see [`parsed`] for the error in each other case.
    pub fn parse_sat_per_kwu(text: &[u8]) -> (rate: Result<FeeRate, ParseFeeRateError>)
        ensures
            match parsed(text@) {
                Ok(sat_kwu) => rate matches Ok(r) && r@ == sat_kwu,
                Err(error) => rate == Err::<FeeRate, ParseFeeRateError>(error),
            },
    {
        if text.len() == 0 {
            return Err(ParseFeeRateError::Empty);
        }
        let start: usize = if text.len() > 1 && text[0] == 0x2b {
            1
        } else {
            0
        };
        let ghost digits = without_sign(text@);
        let mut sat_kwu: u64 = 0;
        let mut i: usize = start;
        while i < text.len()
            invariant
                start <= i <= text.len(),
                text.len() > 0,
                digits == without_sign(text@),
                digits == text@.skip(start as int),
                all_digits(digits.take(i - start)),
                sat_kwu == decimal_value(digits.take(i - start)),
            decreases text.len() - i,
        {
            let byte = text[i];
            if byte < 0x30 || byte > 0x39 {
                proof {
                    lemma_digits_end_without_overflow(digits, i - start);
                    assert(!is_digit(digits[i - start]));
                }
                return Err(ParseFeeRateError::InvalidDigit);
            }
            proof {
                lemma_one_more_digit(digits, i - start);
                lemma_decimal_value_of_prefix(digits, i - start, i - start);
            }
            let digit: u64 = (byte - 0x30) as u64;
            let more = match sat_kwu.checked_mul(10) {
                Some(tens) => tens.checked_add(digit),
                None => None,
            };
            match more {
                Some(more) => {
                    sat_kwu = more;
                },
                None => {
                    assert(decimal_value(digits.take(i - start + 1)) > u64::MAX);
                    return Err(ParseFeeRateError::Overflow);
                },
            }
            i = i + 1;
        }
        proof {
            assert(digits.take(i - start) =~= digits);
            lemma_digits_end_without_overflow(digits, i - start);
        }
        Ok(FeeRate::from_sat_per_kwu(sat_kwu))
    }
}

impl core::str::FromStr for FeeRate {
    type Err = ParseFeeRateError;

    /// Reads a rate in satoshis per thousand weight units from a string, as
    /// [`FeeRate::parse_sat_per_kwu`] reads it from the string's bytes.
    fn from_str(text: &str) -> (rate: Result<FeeRate, ParseFeeRateError>)
        ensures
            match parsed(text.spec_bytes()) {
                Ok(sat_kwu) => rate matches Ok(r) && r@ == sat_kwu,
                Err(error) => rate == Err::<FeeRate, ParseFeeRateError>(error),
            },
    {
        FeeRate::parse_sat_per_kwu(text.as_bytes())
    }
}

} // verus!
