//! Fee rates written out as text.

use vstd::prelude::*;
use vstd::string::StringExecFns;

use crate::fee_rate::{ceil_div, FeeRate, SAT_KWU_PER_SAT_VB};

verus! {

/// The character for a decimal digit.
pub open spec fn digit_char(digit: nat) -> char
    recommends
        digit < 10,
{
    if digit == 0 {
        '0'
    } else if digit == 1 {
        '1'
    } else if digit == 2 {
        '2'
    } else if digit == 3 {
        '3'
    } else if digit == 4 {
        '4'
    } else if digit == 5 {
        '5'
    } else if digit == 6 {
        '6'
    } else if digit == 7 {
        '7'
    } else if digit == 8 {
        '8'
    } else {
        '9'
    }
}

/// A number written in decimal: its digits from the most significant to
/// the least, with no sign and no leading zero but for zero itself.
pub open spec fn decimal(n: nat) -> Seq<char>
    decreases n,
{
    if n < 10 {
        seq![digit_char(n)]
    } else {
        decimal(n / 10).push(digit_char(n % 10))
    }
}

/// How a rate of `sat_kwu` satoshis per thousand weight units is written.
///
/// Plainly, it is the number of sat/kwu in decimal. In the alternate form
/// it is the number of satoshis per virtual byte, rounded up, with two
/// decimal places that are always zero, and the unit.
pub open spec fn display_text(sat_kwu: nat, alternate: bool) -> Seq<char> {
    if alternate {
        decimal(ceil_div(sat_kwu, SAT_KWU_PER_SAT_VB as nat)) + ".00 sat/vbyte"@
    } else {
        decimal(sat_kwu)
    }
}

/// The text of one decimal digit.
fn digit_str(digit: u64) -> (text: &'static str)
    requires
        digit < 10,
    ensures
        text@ == seq![digit_char(digit as nat)],
{
    proof {
        reveal_strlit("0");
        reveal_strlit("1");
        reveal_strlit("2");
        reveal_strlit("3");
        reveal_strlit("4");
        reveal_strlit("5");
        reveal_strlit("6");
        reveal_strlit("7");
        reveal_strlit("8");
        reveal_strlit("9");
    }
    let text = if digit == 0 {
        "0"
    } else if digit == 1 {
        "1"
    } else if digit == 2 {
        "2"
    } else if digit == 3 {
        "3"
    } else if digit == 4 {
        "4"
    } else if digit == 5 {
        "5"
    } else if digit == 6 {
        "6"
    } else if digit == 7 {
        "7"
    } else if digit == 8 {
        "8"
    } else {
        "9"
    };
    assert(text@ =~= seq![digit_char(digit as nat)]);
    text
}

/// Writes a number in decimal at the end of a text.
fn append_decimal(text: &mut String, n: u64)
    ensures
        final(text)@ == old(text)@ + decimal(n as nat),
    decreases n,
{
    if n >= 10 {
        append_decimal(text, n / 10);
    }
    text.append(digit_str(n % 10));
}

impl FeeRate {
    /// The rate as text, see [`display_text`]: plainly in sat/kwu, or in
    /// the alternate form in sat/vB with its unit.
    pub fn to_display_string(self, alternate: bool) -> (text: String)
        ensures
            text@ == display_text(self@, alternate),
    {
        let mut text = String::new();
        if alternate {
            append_decimal(&mut text, self.to_sat_per_vb_ceil());
            text.append(".00 sat/vbyte");
        } else {
            append_decimal(&mut text, self.to_sat_per_kwu());
        }
        text
    }
}

} // verus!
