//! IEEE-754 binary64 arithmetic on raw 64-bit lane contents.
//!
//! The floating register family stores binary64 values reinterpreted from
//! 64-bit lane storage. The operations below are pure functions of their bit
//! patterns; they are computed by a software float implementation and named,
//! uninterpreted, for the contracts of the execution engine.

use rustc_apfloat::Float;
use rustc_apfloat::ieee::Double;
use vstd::prelude::*;

verus! {

/// The bits of the IEEE-754 binary64 sum of two values given as bits.
pub uninterp spec fn fp_add_bits(a: u64, b: u64) -> u64;

/// The bits of the IEEE-754 binary64 difference of two values given as bits.
pub uninterp spec fn fp_sub_bits(a: u64, b: u64) -> u64;

/// The bits of the IEEE-754 binary64 product of two values given as bits.
pub uninterp spec fn fp_mul_bits(a: u64, b: u64) -> u64;

/// The bits of the IEEE-754 binary64 quotient of two values given as bits.
pub uninterp spec fn fp_div_bits(a: u64, b: u64) -> u64;

/// The bits of the IEEE-754 binary64 remainder (C `fmod`) of two values
/// given as bits.
pub uninterp spec fn fp_rem_bits(a: u64, b: u64) -> u64;

/// The bits of the IEEE-754 binary64 value of a small unsigned integer.
pub uninterp spec fn fp_of_u16_bits(d: u16) -> u64;

/// Relies on rustc_apfloat::ieee::Double: addition (rounding to nearest
/// even), from_bits and to_bits. The result depends on the two bit patterns
/// alone.
#[verifier::external_body]
pub(crate) fn fp_add(a: u64, b: u64) -> (r: u64)
    ensures
        r == fp_add_bits(a, b),
{
    let x = Double::from_bits(a as u128);
    let y = Double::from_bits(b as u128);
    (x + y).value.to_bits() as u64
}

/// Relies on rustc_apfloat::ieee::Double: subtraction (rounding to nearest
/// even), from_bits and to_bits. The result depends on the two bit patterns
/// alone.
#[verifier::external_body]
pub(crate) fn fp_sub(a: u64, b: u64) -> (r: u64)
    ensures
        r == fp_sub_bits(a, b),
{
    let x = Double::from_bits(a as u128);
    let y = Double::from_bits(b as u128);
    (x - y).value.to_bits() as u64
}

/// Relies on rustc_apfloat::ieee::Double: multiplication (rounding to
/// nearest even), from_bits and to_bits. The result depends on the two bit
/// patterns alone.
#[verifier::external_body]
pub(crate) fn fp_mul(a: u64, b: u64) -> (r: u64)
    ensures
        r == fp_mul_bits(a, b),
{
    let x = Double::from_bits(a as u128);
    let y = Double::from_bits(b as u128);
    (x * y).value.to_bits() as u64
}

/// Relies on rustc_apfloat::ieee::Double: division (rounding to nearest
/// even; a zero divisor gives an infinity or NaN, never a panic), from_bits
/// and to_bits. The result depends on the two bit patterns alone.
#[verifier::external_body]
pub(crate) fn fp_div(a: u64, b: u64) -> (r: u64)
    ensures
        r == fp_div_bits(a, b),
{
    let x = Double::from_bits(a as u128);
    let y = Double::from_bits(b as u128);
    (x / y).value.to_bits() as u64
}

/// Relies on rustc_apfloat::ieee::Double: remainder in the C `fmod` sense
/// (`c_fmod`; a zero divisor gives a NaN, never a panic), from_bits and
/// to_bits. The result depends on the two bit patterns alone.
#[verifier::external_body]
pub(crate) fn fp_rem(a: u64, b: u64) -> (r: u64)
    ensures
        r == fp_rem_bits(a, b),
{
    let x = Double::from_bits(a as u128);
    let y = Double::from_bits(b as u128);
    (x % y).value.to_bits() as u64
}

/// Relies on rustc_apfloat::ieee::Double::from_u128 and to_bits: the
/// binary64 value of an unsigned integer (exact for 16-bit inputs). The
/// result depends on the integer alone.
#[verifier::external_body]
pub(crate) fn fp_of_u16(d: u16) -> (r: u64)
    ensures
        r == fp_of_u16_bits(d),
{
    Double::from_u128(d as u128).value.to_bits() as u64
}

} // verus!
