//! IEEE double-precision values, carried as `u64` bit patterns.
//!
//! The evaluator never holds a host float: a float value is its 64-bit
//! pattern. The classification predicates (`f64_is_nan_bits`,
//! `f64_is_infinite_bits`, IEEE equality) are defined here directly from the
//! encoding and implemented as verified bit operations. The four rounding
//! arithmetic operations and decimal formatting are computed by the software
//! float library `rustc_apfloat`, behind trusted wrappers whose results the
//! named functions below stand for: each is a function of the operand bit
//! patterns alone.

use vstd::prelude::*;

use rustc_apfloat::Float;
use rustc_apfloat::ieee::Double;

verus! {

/// The exponent field of an IEEE double is all ones.
pub open spec fn f64_exp_all_ones(a: u64) -> bool {
    (a >> 52) & 0x7ff == 0x7ff
}

/// The trailing significand field of an IEEE double.
pub open spec fn f64_mantissa_bits(a: u64) -> u64 {
    a & 0xf_ffff_ffff_ffff
}

/// The bit pattern encodes NaN: exponent all ones, significand nonzero.
pub open spec fn f64_is_nan_bits(a: u64) -> bool {
    f64_exp_all_ones(a) && f64_mantissa_bits(a) != 0
}

/// The bit pattern encodes an infinity: exponent all ones, significand zero.
pub open spec fn f64_is_infinite_bits(a: u64) -> bool {
    f64_exp_all_ones(a) && f64_mantissa_bits(a) == 0
}

/// The bit pattern encodes a (positive or negative) zero.
pub open spec fn f64_is_zero_bits(a: u64) -> bool {
    a & 0x7fff_ffff_ffff_ffff == 0
}

/// IEEE equality of two doubles given by their bit patterns: NaN equals
/// nothing, the two zeros are equal, and no other value shares a pattern.
pub open spec fn f64_ieee_eq_bits(a: u64, b: u64) -> bool {
    !f64_is_nan_bits(a) && !f64_is_nan_bits(b) && (a == b || (f64_is_zero_bits(a)
        && f64_is_zero_bits(b)))
}

/// Whether the pattern encodes an infinity, by the field test above.
pub fn float_is_infinite(a: u64) -> (r: bool)
    ensures
        r == f64_is_infinite_bits(a),
{
    (a >> 52) & 0x7ff == 0x7ff && a & 0xf_ffff_ffff_ffff == 0
}

/// IEEE equality on bit patterns, by the field tests above.
pub fn float_ieee_eq(a: u64, b: u64) -> (r: bool)
    ensures
        r == f64_ieee_eq_bits(a, b),
{
    let a_nan = (a >> 52) & 0x7ff == 0x7ff && a & 0xf_ffff_ffff_ffff != 0;
    let b_nan = (b >> 52) & 0x7ff == 0x7ff && b & 0xf_ffff_ffff_ffff != 0;
    !a_nan && !b_nan && (a == b || (a & 0x7fff_ffff_ffff_ffff == 0 && b & 0x7fff_ffff_ffff_ffff
        == 0))
}

/// Bit pattern of the IEEE double sum of the doubles encoded by `a` and `b`,
/// rounded to nearest, ties to even.
pub uninterp spec fn f64_add_bits(a: u64, b: u64) -> u64;

/// Bit pattern of the IEEE double difference, rounded to nearest, ties to
/// even.
pub uninterp spec fn f64_sub_bits(a: u64, b: u64) -> u64;

/// Bit pattern of the IEEE double product, rounded to nearest, ties to even.
pub uninterp spec fn f64_mul_bits(a: u64, b: u64) -> u64;

/// Bit pattern of the IEEE double quotient, rounded to nearest, ties to
/// even.
pub uninterp spec fn f64_div_bits(a: u64, b: u64) -> u64;

/// Decimal rendering of the double encoded by `a`.
pub uninterp spec fn f64_text_bits(a: u64) -> Seq<char>;

/// Relies on rustc_apfloat's `Double` addition (`Float::add_r` through the
/// `Add` impl): software IEEE binary64 arithmetic, rounding to nearest, ties
/// to even, a function of the operand bits alone.
#[verifier::external_body]
pub fn float_add(a: u64, b: u64) -> (r: u64)
    ensures
        r == f64_add_bits(a, b),
{
    (Double::from_bits(a as u128) + Double::from_bits(b as u128)).value.to_bits() as u64
}

/// Relies on rustc_apfloat's `Double` subtraction (`Float::sub_r` through
/// the `Sub` impl), as for addition.
#[verifier::external_body]
pub fn float_sub(a: u64, b: u64) -> (r: u64)
    ensures
        r == f64_sub_bits(a, b),
{
    (Double::from_bits(a as u128) - Double::from_bits(b as u128)).value.to_bits() as u64
}

/// Relies on rustc_apfloat's `Double` multiplication (`Float::mul_r` through
/// the `Mul` impl), as for addition.
#[verifier::external_body]
pub fn float_mul(a: u64, b: u64) -> (r: u64)
    ensures
        r == f64_mul_bits(a, b),
{
    (Double::from_bits(a as u128) * Double::from_bits(b as u128)).value.to_bits() as u64
}

/// Relies on rustc_apfloat's `Double` division (`Float::div_r` through the
/// `Div` impl), as for addition.
#[verifier::external_body]
pub fn float_div(a: u64, b: u64) -> (r: u64)
    ensures
        r == f64_div_bits(a, b),
{
    (Double::from_bits(a as u128) / Double::from_bits(b as u128)).value.to_bits() as u64
}

/// Relies on rustc_apfloat's `Display` for `Double`: a decimal rendering
/// computed from the value alone.
#[verifier::external_body]
pub fn float_text(a: u64) -> (r: String)
    ensures
        r@ == f64_text_bits(a),
{
    format!("{}", Double::from_bits(a as u128))
}

} // verus!
