//! IEEE 754 single-precision scalars, carried as `u32` bit patterns.
//!
//! Every scalar in this crate is a single-precision value held as its bit
//! pattern, so that results are exact bit-for-bit quantities that contracts
//! can pin down.  The arithmetic itself is performed by `rustc_apfloat`, a
//! deterministic software implementation of IEEE 754 binary32 (round to
//! nearest, ties to even), behind the trusted wrappers below.

use vstd::prelude::*;
use rustc_apfloat::Float;

verus! {

/// The sign bit of a single-precision bit pattern is clear: the value is
/// non-negative (this includes +0 and +infinity).
pub open spec fn is_nonneg_bits(a: u32) -> bool {
    a & 0x8000_0000 == 0
}

/// The exponent field is not all ones: the value is finite
/// (neither an infinity nor a NaN).
pub open spec fn is_finite_bits(a: u32) -> bool {
    a & 0x7F80_0000 != 0x7F80_0000
}

/// The exponent field is all ones and the significand is non-zero:
/// the value is a NaN.
pub open spec fn is_nan_bits(a: u32) -> bool {
    a & 0x7F80_0000 == 0x7F80_0000 && a & 0x007F_FFFF != 0
}

/// IEEE 754 absolute value: clear the sign bit, leave everything else as is.
pub open spec fn abs_bits_spec(a: u32) -> u32 {
    a & 0x7FFF_FFFF
}

/// The bit pattern of the IEEE 754 binary32 sum of the two operands,
/// rounded to nearest even.
pub uninterp spec fn add_bits_spec(a: u32, b: u32) -> u32;

/// The bit pattern of the IEEE 754 binary32 difference of the two operands,
/// rounded to nearest even.
pub uninterp spec fn sub_bits_spec(a: u32, b: u32) -> u32;

/// The bit pattern of the IEEE 754 binary32 product of the two operands,
/// rounded to nearest even.
pub uninterp spec fn mul_bits_spec(a: u32, b: u32) -> u32;

/// Absolute value on bit patterns.
pub fn abs_bits(a: u32) -> (r: u32)
    ensures
        r == abs_bits_spec(a),
{
    a & 0x7FFF_FFFF
}

/// The absolute value is non-negative and is a NaN exactly when its
/// argument is one: clearing the sign bit touches neither the exponent
/// field nor the significand.
pub proof fn lemma_abs_bits(a: u32)
    ensures
        is_nonneg_bits(abs_bits_spec(a)),
        is_nan_bits(abs_bits_spec(a)) == is_nan_bits(a),
        a == 0 ==> abs_bits_spec(a) == 0,
{
    assert((a & 0x7FFF_FFFF) & 0x8000_0000 == 0) by (bit_vector);
    assert((a & 0x7FFF_FFFF) & 0x7F80_0000 == a & 0x7F80_0000) by (bit_vector);
    assert((a & 0x7FFF_FFFF) & 0x007F_FFFF == a & 0x007F_FFFF) by (bit_vector);
    assert(0u32 & 0x7FFF_FFFF == 0) by (bit_vector);
}

/// Relies on `rustc_apfloat::ieee::Single::add_r` (round to nearest even):
/// the sum is a deterministic function of the operand bit patterns; the sum
/// of +0 and +0 is +0; and the sum of two non-negative values, neither of
/// them a NaN, is non-negative and not a NaN.
#[verifier::external_body]
pub(crate) fn add_bits(a: u32, b: u32) -> (r: u32)
    ensures
        r == add_bits_spec(a, b),
        a == 0 && b == 0 ==> r == 0,
        is_nonneg_bits(a) && is_nonneg_bits(b) && !is_nan_bits(a) && !is_nan_bits(b)
            ==> is_nonneg_bits(r) && !is_nan_bits(r),
{
    let x = rustc_apfloat::ieee::Single::from_bits(a as u128);
    let y = rustc_apfloat::ieee::Single::from_bits(b as u128);
    x.add_r(y, rustc_apfloat::Round::NearestTiesToEven).value.to_bits() as u32
}

/// Relies on `rustc_apfloat::ieee::Single::sub_r` (round to nearest even):
/// the difference is a deterministic function of the operand bit patterns,
/// and the difference of a finite value and itself is +0.
#[verifier::external_body]
pub(crate) fn sub_bits(a: u32, b: u32) -> (r: u32)
    ensures
        r == sub_bits_spec(a, b),
        a == b && is_finite_bits(a) ==> r == 0,
{
    let x = rustc_apfloat::ieee::Single::from_bits(a as u128);
    let y = rustc_apfloat::ieee::Single::from_bits(b as u128);
    x.sub_r(y, rustc_apfloat::Round::NearestTiesToEven).value.to_bits() as u32
}

/// Relies on `rustc_apfloat::ieee::Single::mul_r` (round to nearest even):
/// the product is a deterministic function of the operand bit patterns.
#[verifier::external_body]
pub(crate) fn mul_bits(a: u32, b: u32) -> (r: u32)
    ensures
        r == mul_bits_spec(a, b),
{
    let x = rustc_apfloat::ieee::Single::from_bits(a as u128);
    let y = rustc_apfloat::ieee::Single::from_bits(b as u128);
    x.mul_r(y, rustc_apfloat::Round::NearestTiesToEven).value.to_bits() as u32
}

} // verus!
