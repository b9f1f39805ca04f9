//! Confidence levels as fixed-point numbers.
//!
//! A level is held in millionths, so `1.0` is `1_000_000`. Averages and
//! threshold comparisons are exact integer arithmetic.

use vstd::prelude::*;
use vstd::string::*;
use crate::text::{decimal_string, decimal_text, digit_char, digit_str};

verus! {

/// The number of millionths in one whole.
pub const MILLION: u64 = 1_000_000;

/// A confidence level, a threshold or an average of levels, in millionths.
#[derive(Clone, Copy, Debug, PartialEq, Eq, Structural)]
pub struct Confidence {
    pub millionths: u32,
}

/// `value / unit`, rounded to the nearest integer, ties going to the even one.
pub open spec fn round_half_even(value: nat, unit: nat) -> nat {
    let whole = value / unit;
    let rest = value % unit;
    if 2 * rest > unit || (2 * rest == unit && whole % 2 == 1) {
        whole + 1
    } else {
        whole
    }
}

/// A level written with one decimal place, such as `0.8`.
pub open spec fn one_decimal_text(millionths: nat) -> Seq<char> {
    let tenths = round_half_even(millionths, 100_000);
    decimal_text(tenths / 10) + seq!['.'] + seq![digit_char(tenths % 10)]
}

/// A level written with two decimal places, such as `0.85`.
pub open spec fn two_decimal_text(millionths: nat) -> Seq<char> {
    let hundredths = round_half_even(millionths, 10_000);
    decimal_text(hundredths / 100) + seq!['.'] + seq![digit_char((hundredths / 10) % 10)]
        + seq![digit_char(hundredths % 10)]
}

/// Rounds `value / unit` to the nearest integer, ties to even.
fn rounded_units(value: u64, unit: u64) -> (r: u64)
    requires
        unit > 0,
        value <= u32::MAX,
        unit <= MILLION,
    ensures
        r == round_half_even(value as nat, unit as nat),
{
    let whole = value / unit;
    let rest = value % unit;
    if 2 * rest > unit || (2 * rest == unit && whole % 2 == 1) {
        whole + 1
    } else {
        whole
    }
}

impl Confidence {
    /// The level that is `millionths` millionths of one.
    pub fn from_millionths(millionths: u32) -> (c: Confidence)
        ensures
            c.millionths == millionths,
    {
        Confidence { millionths }
    }

    /// Whether this level reaches `threshold`.
    pub fn reaches(&self, threshold: Confidence) -> (b: bool)
        ensures
            b == (self.millionths >= threshold.millionths),
    {
        self.millionths >= threshold.millionths
    }

    /// The level with one decimal place.
    pub fn one_decimal(&self) -> (s: String)
        ensures
            s@ == one_decimal_text(self.millionths as nat),
    {
        let tenths = rounded_units(self.millionths as u64, 100_000);
        let mut s = decimal_string(tenths / 10);
        proof {
            reveal_strlit(".");
        }
        s.append(".");
        s.append(digit_str(tenths % 10));
        assert(s@ =~= one_decimal_text(self.millionths as nat));
        s
    }

    /// The level with two decimal places.
    pub fn two_decimals(&self) -> (s: String)
        ensures
            s@ == two_decimal_text(self.millionths as nat),
    {
        let hundredths = rounded_units(self.millionths as u64, 10_000);
        let mut s = decimal_string(hundredths / 100);
        proof {
            reveal_strlit(".");
        }
        s.append(".");
        s.append(digit_str((hundredths / 10) % 10));
        s.append(digit_str(hundredths % 10));
        assert(s@ =~= two_decimal_text(self.millionths as nat));
        s
    }
}

} // verus!
