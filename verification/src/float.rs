//! IEEE 754 binary64 support on raw bit patterns.
//!
//! Arithmetic (whose exact rounding behaviour would take pages to state) is
//! delegated to the `rustc_apfloat` software float library behind trusted
//! wrappers; each result is given an uninterpreted name, since it is a
//! function of the operand bits alone.  Comparisons and equality have short
//! exact definitions over the bit pattern, so they are implemented and
//! verified here directly.

use vstd::prelude::*;
use rustc_apfloat::Float;
use rustc_apfloat::Round;
use rustc_apfloat::ieee::Double;

verus! {

/// Bit pattern of the IEEE 754 binary64 sum of two binary64 values,
/// rounded to nearest, ties to even.
pub uninterp spec fn float_add_bits(lhs: u64, rhs: u64) -> u64;

/// Bit pattern of the binary64 difference of two binary64 values.
pub uninterp spec fn float_sub_bits(lhs: u64, rhs: u64) -> u64;

/// Bit pattern of the binary64 product of two binary64 values.
pub uninterp spec fn float_mul_bits(lhs: u64, rhs: u64) -> u64;

/// Bit pattern of the binary64 quotient of two binary64 values.
pub uninterp spec fn float_div_bits(lhs: u64, rhs: u64) -> u64;

/// Bit pattern of the binary64 remainder (C `fmod`) of two binary64 values.
pub uninterp spec fn float_rem_bits(lhs: u64, rhs: u64) -> u64;

/// Bit pattern of the binary64 value nearest to a 64-bit signed integer,
/// rounded to nearest, ties to even.
pub uninterp spec fn float_of_int(value: i64) -> u64;

/// Relies on rustc_apfloat's `Float::add_r` (round to nearest, ties to
/// even), the rounding used by hardware binary64 addition.
#[verifier::external_body]
pub fn add_bits(lhs: u64, rhs: u64) -> (r: u64)
    ensures
        r == float_add_bits(lhs, rhs),
{
    let x = Double::from_bits(lhs as u128);
    let y = Double::from_bits(rhs as u128);
    x.add_r(y, Round::NearestTiesToEven).value.to_bits() as u64
}

/// Relies on rustc_apfloat's `Float::sub_r` (round to nearest, ties to even).
#[verifier::external_body]
pub fn sub_bits(lhs: u64, rhs: u64) -> (r: u64)
    ensures
        r == float_sub_bits(lhs, rhs),
{
    let x = Double::from_bits(lhs as u128);
    let y = Double::from_bits(rhs as u128);
    x.sub_r(y, Round::NearestTiesToEven).value.to_bits() as u64
}

/// Relies on rustc_apfloat's `Float::mul_r` (round to nearest, ties to even).
#[verifier::external_body]
pub fn mul_bits(lhs: u64, rhs: u64) -> (r: u64)
    ensures
        r == float_mul_bits(lhs, rhs),
{
    let x = Double::from_bits(lhs as u128);
    let y = Double::from_bits(rhs as u128);
    x.mul_r(y, Round::NearestTiesToEven).value.to_bits() as u64
}

/// Relies on rustc_apfloat's `Float::div_r` (round to nearest, ties to even).
#[verifier::external_body]
pub fn div_bits(lhs: u64, rhs: u64) -> (r: u64)
    ensures
        r == float_div_bits(lhs, rhs),
{
    let x = Double::from_bits(lhs as u128);
    let y = Double::from_bits(rhs as u128);
    x.div_r(y, Round::NearestTiesToEven).value.to_bits() as u64
}

/// Relies on rustc_apfloat's `Float::c_fmod`, the binary64 remainder with
/// the semantics of Rust's `%` on floats.
#[verifier::external_body]
pub fn rem_bits(lhs: u64, rhs: u64) -> (r: u64)
    ensures
        r == float_rem_bits(lhs, rhs),
{
    let x = Double::from_bits(lhs as u128);
    let y = Double::from_bits(rhs as u128);
    x.c_fmod(y).value.to_bits() as u64
}

/// Relies on rustc_apfloat's `Float::from_i128_r` (round to nearest, ties
/// to even), the rounding of Rust's `i64 as f64` cast.
#[verifier::external_body]
pub fn of_int(value: i64) -> (r: u64)
    ensures
        r == float_of_int(value),
{
    Double::from_i128_r(value as i128, Round::NearestTiesToEven).value.to_bits() as u64
}

/// Whether a binary64 bit pattern encodes a NaN: maximal exponent and a
/// non-zero fraction.
pub open spec fn spec_is_nan(bits: u64) -> bool {
    (bits & 0x7fff_ffff_ffff_ffffu64) > 0x7ff0_0000_0000_0000u64
}

/// Whether a binary64 bit pattern encodes a zero (either sign).
pub open spec fn spec_is_zero(bits: u64) -> bool {
    (bits & 0x7fff_ffff_ffff_ffffu64) == 0u64
}

/// Whether the sign bit of a binary64 bit pattern is set.
pub open spec fn spec_is_sign_negative(bits: u64) -> bool {
    (bits & 0x8000_0000_0000_0000u64) != 0u64
}

/// IEEE 754 equality of two binary64 bit patterns: NaN equals nothing,
/// the two zeroes are equal, everything else compares by identical bits.
pub open spec fn spec_float_eq(lhs: u64, rhs: u64) -> bool {
    &&& !spec_is_nan(lhs)
    &&& !spec_is_nan(rhs)
    &&& (lhs == rhs || (spec_is_zero(lhs) && spec_is_zero(rhs)))
}

/// IEEE 754 less-than of two binary64 bit patterns: false when either side
/// is NaN or the values are equal; otherwise ordered by sign, then by
/// magnitude, which for the binary64 encoding is the plain order of the
/// low 63 bits.
pub open spec fn spec_float_lt(lhs: u64, rhs: u64) -> bool {
    if spec_is_nan(lhs) || spec_is_nan(rhs) {
        false
    } else if spec_is_zero(lhs) && spec_is_zero(rhs) {
        false
    } else if spec_is_sign_negative(lhs) != spec_is_sign_negative(rhs) {
        spec_is_sign_negative(lhs)
    } else if spec_is_sign_negative(lhs) {
        (lhs & 0x7fff_ffff_ffff_ffffu64) > (rhs & 0x7fff_ffff_ffff_ffffu64)
    } else {
        (lhs & 0x7fff_ffff_ffff_ffffu64) < (rhs & 0x7fff_ffff_ffff_ffffu64)
    }
}

/// IEEE 754 less-than-or-equal of two binary64 bit patterns.
pub open spec fn spec_float_le(lhs: u64, rhs: u64) -> bool {
    spec_float_lt(lhs, rhs) || spec_float_eq(lhs, rhs)
}

/// IEEE 754 equality on bit patterns.
pub fn eq_bits(lhs: u64, rhs: u64) -> (r: bool)
    ensures
        r == spec_float_eq(lhs, rhs),
{
    let labs = lhs & 0x7fff_ffff_ffff_ffffu64;
    let rabs = rhs & 0x7fff_ffff_ffff_ffffu64;
    if labs > 0x7ff0_0000_0000_0000u64 || rabs > 0x7ff0_0000_0000_0000u64 {
        false
    } else {
        lhs == rhs || (labs == 0 && rabs == 0)
    }
}

/// IEEE 754 less-than on bit patterns.
pub fn lt_bits(lhs: u64, rhs: u64) -> (r: bool)
    ensures
        r == spec_float_lt(lhs, rhs),
{
    let labs = lhs & 0x7fff_ffff_ffff_ffffu64;
    let rabs = rhs & 0x7fff_ffff_ffff_ffffu64;
    let lneg = (lhs & 0x8000_0000_0000_0000u64) != 0;
    let rneg = (rhs & 0x8000_0000_0000_0000u64) != 0;
    if labs > 0x7ff0_0000_0000_0000u64 || rabs > 0x7ff0_0000_0000_0000u64 {
        false
    } else if labs == 0 && rabs == 0 {
        false
    } else if lneg != rneg {
        lneg
    } else if lneg {
        labs > rabs
    } else {
        labs < rabs
    }
}

/// IEEE 754 less-than-or-equal on bit patterns.
pub fn le_bits(lhs: u64, rhs: u64) -> (r: bool)
    ensures
        r == spec_float_le(lhs, rhs),
{
    lt_bits(lhs, rhs) || eq_bits(lhs, rhs)
}

/// Bit pattern of the binary64 negation: IEEE 754 negation flips exactly
/// the sign bit.
pub open spec fn spec_float_neg(bits: u64) -> u64 {
    bits ^ 0x8000_0000_0000_0000u64
}

/// IEEE 754 negation on bit patterns.
pub fn neg_bits(bits: u64) -> (r: u64)
    ensures
        r == spec_float_neg(bits),
{
    bits ^ 0x8000_0000_0000_0000u64
}

} // verus!
