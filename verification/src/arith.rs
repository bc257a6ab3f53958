//! Trusted bridge to correctly-rounded IEEE-754 arithmetic.
//!
//! The four basic operations on bit patterns are carried out by the
//! `rustc_apfloat` software floating-point library, which implements IEEE-754
//! binary32 and binary64 arithmetic with round-to-nearest, ties-to-even. Each
//! operation is a deterministic function of its operand bit patterns alone,
//! so each is given a name here that the contracts of the rest of the library
//! speak of.
use vstd::prelude::*;
use rustc_apfloat::Float;
use rustc_apfloat::ieee::Double;
use rustc_apfloat::ieee::Single;

verus! {

pub uninterp spec fn add64_bits(a: u64, b: u64) -> u64;

pub uninterp spec fn sub64_bits(a: u64, b: u64) -> u64;

pub uninterp spec fn mul64_bits(a: u64, b: u64) -> u64;

pub uninterp spec fn div64_bits(a: u64, b: u64) -> u64;

pub uninterp spec fn add32_bits(a: u32, b: u32) -> u32;

pub uninterp spec fn sub32_bits(a: u32, b: u32) -> u32;

pub uninterp spec fn mul32_bits(a: u32, b: u32) -> u32;

pub uninterp spec fn div32_bits(a: u32, b: u32) -> u32;

/// Relies on rustc_apfloat's binary64 addition: correctly rounded IEEE-754
/// add, a deterministic function of the two operand bit patterns.
#[verifier::external_body]
pub(crate) fn add64(a: u64, b: u64) -> (r: u64)
    ensures
        r == add64_bits(a, b),
{
    (Double::from_bits(a as u128) + Double::from_bits(b as u128)).value.to_bits() as u64
}

/// Relies on rustc_apfloat's binary64 subtraction: correctly rounded IEEE-754
/// subtract, a deterministic function of the two operand bit patterns.
#[verifier::external_body]
pub(crate) fn sub64(a: u64, b: u64) -> (r: u64)
    ensures
        r == sub64_bits(a, b),
{
    (Double::from_bits(a as u128) - Double::from_bits(b as u128)).value.to_bits() as u64
}

/// Relies on rustc_apfloat's binary64 multiplication: correctly rounded
/// IEEE-754 multiply, a deterministic function of the two operand bit patterns.
#[verifier::external_body]
pub(crate) fn mul64(a: u64, b: u64) -> (r: u64)
    ensures
        r == mul64_bits(a, b),
{
    (Double::from_bits(a as u128) * Double::from_bits(b as u128)).value.to_bits() as u64
}

/// Relies on rustc_apfloat's binary64 division: correctly rounded IEEE-754
/// divide, a deterministic function of the two operand bit patterns.
#[verifier::external_body]
pub(crate) fn div64(a: u64, b: u64) -> (r: u64)
    ensures
        r == div64_bits(a, b),
{
    (Double::from_bits(a as u128) / Double::from_bits(b as u128)).value.to_bits() as u64
}

/// Relies on rustc_apfloat's binary32 addition: correctly rounded IEEE-754
/// add, a deterministic function of the two operand bit patterns.
#[verifier::external_body]
pub(crate) fn add32(a: u32, b: u32) -> (r: u32)
    ensures
        r == add32_bits(a, b),
{
    (Single::from_bits(a as u128) + Single::from_bits(b as u128)).value.to_bits() as u32
}

/// Relies on rustc_apfloat's binary32 subtraction: correctly rounded IEEE-754
/// subtract, a deterministic function of the two operand bit patterns.
#[verifier::external_body]
pub(crate) fn sub32(a: u32, b: u32) -> (r: u32)
    ensures
        r == sub32_bits(a, b),
{
    (Single::from_bits(a as u128) - Single::from_bits(b as u128)).value.to_bits() as u32
}

/// Relies on rustc_apfloat's binary32 multiplication: correctly rounded
/// IEEE-754 multiply, a deterministic function of the two operand bit patterns.
#[verifier::external_body]
pub(crate) fn mul32(a: u32, b: u32) -> (r: u32)
    ensures
        r == mul32_bits(a, b),
{
    (Single::from_bits(a as u128) * Single::from_bits(b as u128)).value.to_bits() as u32
}

/// Relies on rustc_apfloat's binary32 division: correctly rounded IEEE-754
/// divide, a deterministic function of the two operand bit patterns.
#[verifier::external_body]
pub(crate) fn div32(a: u32, b: u32) -> (r: u32)
    ensures
        r == div32_bits(a, b),
{
    (Single::from_bits(a as u128) / Single::from_bits(b as u128)).value.to_bits() as u32
}

} // verus!
