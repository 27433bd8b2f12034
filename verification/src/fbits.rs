//! Scalar IEEE 754 binary64 arithmetic on bit patterns.
//!
//! The verifier has no model of floating-point numbers, so every
//! floating-point value in this crate travels as its binary64 bit
//! pattern in a `u64`. The arithmetic itself is done by the
//! `rustc_apfloat` software implementation of IEEE 754, and each
//! operation's result is named by an uninterpreted spec function:
//! the same operand bit patterns always give the same result bits.

use vstd::prelude::*;

use rustc_apfloat::ieee::Double;
use rustc_apfloat::Float;

verus! {

/// Bit pattern of the binary64 value one.
pub const F64_ONE_BITS: u64 = 0x3FF0_0000_0000_0000;

/// Bit pattern of the binary64 value positive zero.
pub const F64_ZERO_BITS: u64 = 0;

/// The bit pattern of the binary64 sum of the two binary64 values with
/// bit patterns `a` and `b`, rounded to nearest, ties to even.
pub uninterp spec fn f64_add(a: u64, b: u64) -> u64;

/// The bit pattern of the binary64 difference of the two binary64
/// values with bit patterns `a` and `b`.
pub uninterp spec fn f64_sub(a: u64, b: u64) -> u64;

/// The bit pattern of the binary64 product of the two binary64 values
/// with bit patterns `a` and `b`.
pub uninterp spec fn f64_mul(a: u64, b: u64) -> u64;

/// The bit pattern of the binary64 quotient of the two binary64 values
/// with bit patterns `a` and `b`.
pub uninterp spec fn f64_div(a: u64, b: u64) -> u64;

/// The bit pattern of the binary64 value nearest to the integer `x`.
/// Every `i32` is exactly representable in binary64.
pub uninterp spec fn f64_of_i32(x: i32) -> u64;

/// The bit pattern of the binary64 value nearest to the integer `x`,
/// rounded to nearest, ties to even, when `x` exceeds 2^53.
pub uninterp spec fn f64_of_usize(x: usize) -> u64;

/// Relies on `rustc_apfloat::ieee::Double`'s `Add` impl: IEEE 754
/// binary64 addition, round to nearest, ties to even; the result
/// depends on the two operand bit patterns alone.
#[verifier::external_body]
pub(crate) fn add_bits(a: u64, b: u64) -> (r: u64)
    ensures
        r == f64_add(a, b),
{
    let x = Double::from_bits(a as u128);
    let y = Double::from_bits(b as u128);
    (x + y).value.to_bits() as u64
}

/// Relies on `rustc_apfloat::ieee::Double`'s `Sub` impl: IEEE 754
/// binary64 subtraction; the result depends on the two operand bit
/// patterns alone.
#[verifier::external_body]
pub(crate) fn sub_bits(a: u64, b: u64) -> (r: u64)
    ensures
        r == f64_sub(a, b),
{
    let x = Double::from_bits(a as u128);
    let y = Double::from_bits(b as u128);
    (x - y).value.to_bits() as u64
}

/// Relies on `rustc_apfloat::ieee::Double`'s `Mul` impl: IEEE 754
/// binary64 multiplication; the result depends on the two operand bit
/// patterns alone.
#[verifier::external_body]
pub(crate) fn mul_bits(a: u64, b: u64) -> (r: u64)
    ensures
        r == f64_mul(a, b),
{
    let x = Double::from_bits(a as u128);
    let y = Double::from_bits(b as u128);
    (x * y).value.to_bits() as u64
}

/// Relies on `rustc_apfloat::ieee::Double`'s `Div` impl: IEEE 754
/// binary64 division; a zero divisor yields an infinity or a NaN, never
/// a failure, and the result depends on the two operand bit patterns
/// alone.
#[verifier::external_body]
pub(crate) fn div_bits(a: u64, b: u64) -> (r: u64)
    ensures
        r == f64_div(a, b),
{
    let x = Double::from_bits(a as u128);
    let y = Double::from_bits(b as u128);
    (x / y).value.to_bits() as u64
}

/// Relies on `rustc_apfloat::ieee::Double::from_i128`: conversion of an
/// integer to the nearest binary64 value, exact for every `i32`.
#[verifier::external_body]
pub(crate) fn i32_to_bits(x: i32) -> (r: u64)
    ensures
        r == f64_of_i32(x),
{
    Double::from_i128(x as i128).value.to_bits() as u64
}

/// Relies on `rustc_apfloat::ieee::Double::from_u128`: conversion of an
/// integer to the nearest binary64 value, rounded to nearest, ties to
/// even, beyond 2^53.
#[verifier::external_body]
pub(crate) fn usize_to_bits(x: usize) -> (r: u64)
    ensures
        r == f64_of_usize(x),
{
    Double::from_u128(x as u128).value.to_bits() as u64
}

} // verus!
