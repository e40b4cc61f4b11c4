//! Arithmetic on binary32 bit patterns.
//!
//! The mesh generator computes physical coordinates with IEEE 754 binary32
//! arithmetic (round to nearest, ties to even). The operations are carried
//! out by `rustc_apfloat`, a software implementation of that arithmetic that
//! works directly on bit patterns; each result is a function of the operand
//! bit patterns alone, so the contracts name it with an uninterpreted spec
//! function.

use vstd::prelude::*;
use rustc_apfloat::Float;

verus! {

/// The binary32 sum of the values with bit patterns `a` and `b`.
pub uninterp spec fn sum_bits(a: u32, b: u32) -> u32;

/// The binary32 product of the values with bit patterns `a` and `b`.
pub uninterp spec fn prod_bits(a: u32, b: u32) -> u32;

/// The binary32 quotient of the values with bit patterns `a` and `b`.
pub uninterp spec fn quot_bits(a: u32, b: u32) -> u32;

/// The bit pattern of `n` converted to the nearest binary32 value.
pub uninterp spec fn uint_bits(n: usize) -> u32;

/// Relies on rustc_apfloat::ieee::Single's addition (round to nearest, ties
/// to even): the result depends on the operand bit patterns alone.
#[verifier::external_body]
pub(crate) fn add_bits(a: u32, b: u32) -> (r: u32)
    ensures
        r == sum_bits(a, b),
{
    let x = rustc_apfloat::ieee::Single::from_bits(a as u128);
    let y = rustc_apfloat::ieee::Single::from_bits(b as u128);
    (x + y).value.to_bits() as u32
}

/// Relies on rustc_apfloat::ieee::Single's multiplication (round to nearest,
/// ties to even): the result depends on the operand bit patterns alone.
#[verifier::external_body]
pub(crate) fn mul_bits(a: u32, b: u32) -> (r: u32)
    ensures
        r == prod_bits(a, b),
{
    let x = rustc_apfloat::ieee::Single::from_bits(a as u128);
    let y = rustc_apfloat::ieee::Single::from_bits(b as u128);
    (x * y).value.to_bits() as u32
}

/// Relies on rustc_apfloat::ieee::Single's division (round to nearest, ties
/// to even): the result depends on the operand bit patterns alone.
#[verifier::external_body]
pub(crate) fn div_bits(a: u32, b: u32) -> (r: u32)
    ensures
        r == quot_bits(a, b),
{
    let x = rustc_apfloat::ieee::Single::from_bits(a as u128);
    let y = rustc_apfloat::ieee::Single::from_bits(b as u128);
    (x / y).value.to_bits() as u32
}

/// Relies on rustc_apfloat's Float::from_u128 (round to nearest, ties to
/// even), which converts an unsigned integer to the nearest binary32 value:
/// the result depends on the argument alone.
#[verifier::external_body]
pub(crate) fn uint_to_bits(n: usize) -> (r: u32)
    ensures
        r == uint_bits(n),
{
    let v = rustc_apfloat::ieee::Single::from_u128(n as u128);
    v.value.to_bits() as u32
}

/// Whether the bit pattern `b` denotes a binary32 value strictly greater
/// than zero. The sign bit must be clear, the magnitude must be nonzero,
/// and the pattern must not be a NaN: with the sign bit clear, the patterns
/// up to and including 0x7f80_0000 (positive infinity) denote ordered
/// values, and everything above is a NaN, which compares greater than
/// nothing.
pub open spec fn positive_bits(b: u32) -> bool {
    0 < b <= 0x7f80_0000
}

/// Whether `b` denotes a binary32 value strictly greater than zero.
pub fn is_positive_bits(b: u32) -> (r: bool)
    ensures
        r == positive_bits(b),
{
    0 < b && b <= 0x7f80_0000
}

} // verus!
