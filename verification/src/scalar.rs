//! Scalars of the library.
//!
//! Every scalar of the network is an IEEE-754 binary64 value carried by its
//! 64-bit pattern, so that all structural logic is verified over plain `u64`
//! values. Arithmetic on scalars goes through the trusted wrappers below,
//! which call the `rustc_apfloat` software implementation of IEEE-754: each
//! operation is a pure function of the bit patterns of its operands, the same
//! in every process and on every machine, so its result carries a name that
//! contracts can speak of.

use vstd::prelude::*;
use rustc_apfloat::Float;
use rustc_apfloat::Round;
use rustc_apfloat::ieee::Double;

verus! {

/// Bit pattern of +0.0.
pub const B_ZERO: u64 = 0;

/// Bit pattern of 1.0.
pub const B_ONE: u64 = 0x3FF0_0000_0000_0000;

/// Bit pattern of 2.0.
pub const B_TWO: u64 = 0x4000_0000_0000_0000;

/// Bit pattern of 0.5.
pub const B_HALF: u64 = 0x3FE0_0000_0000_0000;

/// Bit pattern of 2^-8, the scaling factor of the exponential's argument
/// reduction.
pub const B_INV_256: u64 = 0x3F70_0000_0000_0000;

/// Bit pattern of 30.0, the saturation bound of the logistic function.
pub const B_THIRTY: u64 = 0x403E_0000_0000_0000;

/// The sign bit of a binary64 pattern.
pub const SIGN_BIT: u64 = 0x8000_0000_0000_0000;

/// What IEEE-754 addition (round to nearest, ties to even) returns on the
/// operands with bit patterns `a` and `b`.
pub uninterp spec fn sum_bits(a: u64, b: u64) -> u64;

/// What IEEE-754 subtraction returns on the operands with bit patterns `a`
/// and `b`.
pub uninterp spec fn diff_bits(a: u64, b: u64) -> u64;

/// What IEEE-754 multiplication returns on the operands with bit patterns `a`
/// and `b`.
pub uninterp spec fn prod_bits(a: u64, b: u64) -> u64;

/// What IEEE-754 division returns on the operands with bit patterns `a`
/// and `b`.
pub uninterp spec fn quot_bits(a: u64, b: u64) -> u64;

/// What the value with bit pattern `a`, rounded toward zero, yields as a
/// 64-bit signed integer (saturating at the type's bounds).
pub uninterp spec fn trunc_of(a: u64) -> i128;

/// The bit pattern of the binary64 value nearest to the integer `n`.
pub uninterp spec fn float_of_int(n: i128) -> u64;

/// Relies on `rustc_apfloat::ieee::Double::add_r` with round to nearest,
/// ties to even: IEEE-754 binary64 addition, a deterministic function of the
/// two bit patterns alone.
#[verifier::external_body]
pub(crate) fn add_scalar(a: u64, b: u64) -> (r: u64)
    ensures
        r == sum_bits(a, b),
{
    (Double::from_bits(a as u128).add_r(Double::from_bits(b as u128), Round::NearestTiesToEven)
        .value
        .to_bits()) as u64
}

/// Relies on `rustc_apfloat::ieee::Double::sub_r` with round to nearest,
/// ties to even: IEEE-754 binary64 subtraction, a deterministic function of
/// the two bit patterns alone.
#[verifier::external_body]
pub(crate) fn sub_scalar(a: u64, b: u64) -> (r: u64)
    ensures
        r == diff_bits(a, b),
{
    (Double::from_bits(a as u128).sub_r(Double::from_bits(b as u128), Round::NearestTiesToEven)
        .value
        .to_bits()) as u64
}

/// Relies on `rustc_apfloat::ieee::Double::mul_r` with round to nearest,
/// ties to even: IEEE-754 binary64 multiplication, a deterministic function
/// of the two bit patterns alone.
#[verifier::external_body]
pub(crate) fn mul_scalar(a: u64, b: u64) -> (r: u64)
    ensures
        r == prod_bits(a, b),
{
    (Double::from_bits(a as u128).mul_r(Double::from_bits(b as u128), Round::NearestTiesToEven)
        .value
        .to_bits()) as u64
}

/// Relies on `rustc_apfloat::ieee::Double::div_r` with round to nearest,
/// ties to even: IEEE-754 binary64 division, a deterministic function of the
/// two bit patterns alone.
#[verifier::external_body]
pub(crate) fn div_scalar(a: u64, b: u64) -> (r: u64)
    ensures
        r == quot_bits(a, b),
{
    (Double::from_bits(a as u128).div_r(Double::from_bits(b as u128), Round::NearestTiesToEven)
        .value
        .to_bits()) as u64
}

/// Relies on `rustc_apfloat::ieee::Double::to_i128_r` with width 64 and
/// rounding toward zero: conversion of a binary64 value to a signed
/// integer, a deterministic function of the bit pattern alone. Its
/// documentation promises deterministic results on invalid operations:
/// zero for a NaN, and the minimal or maximal 64-bit value on overflow, so
/// the result always lies in the 64-bit signed range.
#[verifier::external_body]
pub(crate) fn trunc_scalar(a: u64) -> (r: i128)
    ensures
        r == trunc_of(a),
        -0x8000_0000_0000_0000i128 <= r <= 0x7FFF_FFFF_FFFF_FFFFi128,
{
    let mut exact = false;
    Double::from_bits(a as u128).to_i128_r(64, Round::TowardZero, &mut exact).value
}

/// Relies on `rustc_apfloat::ieee::Double::from_i128_r` with round to
/// nearest, ties to even: conversion of a signed integer to the nearest
/// binary64 value, a deterministic function of the integer alone.
#[verifier::external_body]
pub(crate) fn scalar_of_int(n: i128) -> (r: u64)
    ensures
        r == float_of_int(n),
{
    (Double::from_i128_r(n, Round::NearestTiesToEven).value.to_bits()) as u64
}

/// IEEE-754 negation is exactly a flip of the sign bit; no call is needed.
pub fn neg_scalar(a: u64) -> (r: u64)
    ensures
        r == neg_bits(a),
{
    a ^ SIGN_BIT
}

pub open spec fn neg_bits(a: u64) -> u64 {
    a ^ SIGN_BIT
}

/// IEEE-754 absolute value is exactly a clearing of the sign bit.
pub fn abs_scalar(a: u64) -> (r: u64)
    ensures
        r == abs_bits(a),
{
    a & !SIGN_BIT
}

pub open spec fn abs_bits(a: u64) -> u64 {
    a & !SIGN_BIT
}

/// The mapping of a raw 64-bit draw to a scalar uniform over [-1, 1): the
/// top 52 bits become the mantissa of a value in [1, 2), which is then
/// shifted to [0, 1), doubled, and shifted to [-1, 1).
pub open spec fn sym_unit_bits(r: u64) -> u64 {
    diff_bits(prod_bits(diff_bits(B_ONE | (r >> 12), B_ONE), B_TWO), B_ONE)
}

/// Computes [`sym_unit_bits`].
pub fn sym_unit_scalar(r: u64) -> (w: u64)
    ensures
        w == sym_unit_bits(r),
{
    let h = B_ONE | (r >> 12);
    let u = sub_scalar(h, B_ONE);
    let v = mul_scalar(u, B_TWO);
    sub_scalar(v, B_ONE)
}

/// Whether the pattern carries a set sign bit.
pub open spec fn is_negative_bits(a: u64) -> bool {
    a & SIGN_BIT == SIGN_BIT
}

pub fn negative_scalar(a: u64) -> (r: bool)
    ensures
        r == is_negative_bits(a),
{
    a & SIGN_BIT == SIGN_BIT
}

} // verus!
