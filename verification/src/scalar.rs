//! Scalar model: an IEEE 754 binary32 value is carried as its bit pattern,
//! a `u32`. Arithmetic on such values is done by outside libraries behind
//! trusted wrappers; each operation's result is named by an uninterpreted
//! spec function of the operands' bit patterns, so that every computation in
//! this crate is a mathematical function of its inputs.
use vstd::prelude::*;

verus! {

use rustc_apfloat::Float;

/// Bit pattern of `+0.0`.
pub const POS_ZERO_BITS: u32 = 0x0000_0000;

/// Bit pattern of `-0.0`.
pub const NEG_ZERO_BITS: u32 = 0x8000_0000;

/// Bit pattern of `1.0`.
pub const ONE_BITS: u32 = 0x3f80_0000;

/// Bit pattern of negative infinity.
pub const NEG_INF_BITS: u32 = 0xff80_0000;

/// Bit pattern of positive infinity, which is also the magnitude above
/// which a pattern encodes a NaN.
pub const POS_INF_BITS: u32 = 0x7f80_0000;

/// The bit pattern with the sign bit cleared: the encoded value's magnitude.
pub open spec fn abs_bits(b: u32) -> u32 {
    if b >= 0x8000_0000 {
        (b - 0x8000_0000) as u32
    } else {
        b
    }
}

/// The pattern encodes a NaN.
pub open spec fn is_nan_bits(b: u32) -> bool {
    abs_bits(b) > POS_INF_BITS
}

/// The pattern encodes a zero, subnormal or normal value (not an infinity,
/// not a NaN).
pub open spec fn is_finite_bits(b: u32) -> bool {
    abs_bits(b) < POS_INF_BITS
}

/// Bit pattern of the IEEE 754 binary32 sum of the two encoded values.
pub uninterp spec fn add_bits(a: u32, b: u32) -> u32;

/// Bit pattern of the IEEE 754 binary32 difference of the two encoded values.
pub uninterp spec fn sub_bits(a: u32, b: u32) -> u32;

/// Bit pattern of the IEEE 754 binary32 product of the two encoded values.
pub uninterp spec fn mul_bits(a: u32, b: u32) -> u32;

/// Bit pattern of the IEEE 754 binary32 quotient of the two encoded values.
pub uninterp spec fn div_bits(a: u32, b: u32) -> u32;

/// The first encoded value is less than the second (false whenever either
/// operand is a NaN).
pub uninterp spec fn lt_bits(a: u32, b: u32) -> bool;

/// The first encoded value is greater than the second (false whenever either
/// operand is a NaN).
pub uninterp spec fn gt_bits(a: u32, b: u32) -> bool;

/// Bit pattern of `e` raised to the encoded value, as `libm::expf` computes it.
pub uninterp spec fn exp_bits(x: u32) -> u32;

/// Bit pattern of the hyperbolic tangent of the encoded value, as
/// `libm::tanhf` computes it.
pub uninterp spec fn tanh_bits(x: u32) -> u32;

/// Relies on `rustc_apfloat::ieee::Single` addition (round to nearest, ties
/// to even): the IEEE 754 sum, a pure function of the operands' bit
/// patterns. Adding `+0.0` on the left returns a non-NaN right operand
/// unchanged unless that operand is `-0.0` (a NaN operand comes back
/// quieted, so its bits may change); `+0.0` plus `-0.0` is `+0.0` in this
/// rounding mode.
#[verifier::external_body]
pub(crate) fn fp_add(a: u32, b: u32) -> (r: u32)
    ensures
        r == add_bits(a, b),
        (a == POS_ZERO_BITS && b != NEG_ZERO_BITS && !is_nan_bits(b)) ==> r == b,
        (a == POS_ZERO_BITS && b == NEG_ZERO_BITS) ==> r == POS_ZERO_BITS,
{
    let x = rustc_apfloat::ieee::Single::from_bits(a as u128);
    let y = rustc_apfloat::ieee::Single::from_bits(b as u128);
    (x + y).value.to_bits() as u32
}

/// Relies on `rustc_apfloat::ieee::Single` subtraction (round to nearest,
/// ties to even): the IEEE 754 difference, a pure function of the operands'
/// bit patterns. Subtracting a finite value from itself yields `+0.0`.
#[verifier::external_body]
pub(crate) fn fp_sub(a: u32, b: u32) -> (r: u32)
    ensures
        r == sub_bits(a, b),
        (a == b && is_finite_bits(a)) ==> r == POS_ZERO_BITS,
{
    let x = rustc_apfloat::ieee::Single::from_bits(a as u128);
    let y = rustc_apfloat::ieee::Single::from_bits(b as u128);
    (x - y).value.to_bits() as u32
}

/// Relies on `rustc_apfloat::ieee::Single` multiplication (round to nearest,
/// ties to even): the IEEE 754 product, a pure function of the operands' bit
/// patterns. `+0.0` times a finite value is a zero (of either sign).
#[verifier::external_body]
pub(crate) fn fp_mul(a: u32, b: u32) -> (r: u32)
    ensures
        r == mul_bits(a, b),
        ((a == POS_ZERO_BITS && is_finite_bits(b)) || (b == POS_ZERO_BITS && is_finite_bits(a)))
            ==> (r == POS_ZERO_BITS || r == NEG_ZERO_BITS),
{
    let x = rustc_apfloat::ieee::Single::from_bits(a as u128);
    let y = rustc_apfloat::ieee::Single::from_bits(b as u128);
    (x * y).value.to_bits() as u32
}

/// Relies on `rustc_apfloat::ieee::Single` division (round to nearest, ties
/// to even): the IEEE 754 quotient, a pure function of the operands' bit
/// patterns. `1.0 / 1.0` is exactly `1.0`.
#[verifier::external_body]
pub(crate) fn fp_div(a: u32, b: u32) -> (r: u32)
    ensures
        r == div_bits(a, b),
        (a == ONE_BITS && b == ONE_BITS) ==> r == ONE_BITS,
{
    let x = rustc_apfloat::ieee::Single::from_bits(a as u128);
    let y = rustc_apfloat::ieee::Single::from_bits(b as u128);
    (x / y).value.to_bits() as u32
}

/// Relies on `rustc_apfloat::ieee::Single::partial_cmp`: the IEEE 754
/// less-than comparison, false whenever an operand is a NaN, with the two
/// zeroes comparing equal.
#[verifier::external_body]
pub(crate) fn fp_lt(a: u32, b: u32) -> (r: bool)
    ensures
        r == lt_bits(a, b),
{
    let x = rustc_apfloat::ieee::Single::from_bits(a as u128);
    let y = rustc_apfloat::ieee::Single::from_bits(b as u128);
    x < y
}

/// Relies on `rustc_apfloat::ieee::Single::partial_cmp`: the IEEE 754
/// greater-than comparison, false whenever an operand is a NaN. Every finite
/// value is greater than negative infinity.
#[verifier::external_body]
pub(crate) fn fp_gt(a: u32, b: u32) -> (r: bool)
    ensures
        r == gt_bits(a, b),
        (is_finite_bits(a) && b == NEG_INF_BITS) ==> r,
{
    let x = rustc_apfloat::ieee::Single::from_bits(a as u128);
    let y = rustc_apfloat::ieee::Single::from_bits(b as u128);
    x > y
}

/// Relies on `libm::expf`: the base-`e` exponential, computed by one fixed
/// software algorithm, hence a pure function of the argument's bit pattern.
/// `expf(+0.0)` is exactly `1.0`, and a NaN argument yields a NaN.
#[verifier::external_body]
pub(crate) fn fp_exp(x: u32) -> (r: u32)
    ensures
        r == exp_bits(x),
        x == POS_ZERO_BITS ==> r == ONE_BITS,
        is_nan_bits(x) ==> is_nan_bits(r),
{
    bytemuck::cast(libm::expf(bytemuck::cast(x)))
}

/// Relies on `libm::tanhf`: the hyperbolic tangent, computed by one fixed
/// software algorithm, hence a pure function of the argument's bit pattern.
/// `tanhf(+0.0)` is exactly `+0.0`; a NaN argument yields a NaN; any other
/// argument yields a value of magnitude at most `1.0`.
#[verifier::external_body]
pub(crate) fn fp_tanh(x: u32) -> (r: u32)
    ensures
        r == tanh_bits(x),
        x == POS_ZERO_BITS ==> r == POS_ZERO_BITS,
        is_nan_bits(x) ==> is_nan_bits(r),
        !is_nan_bits(x) ==> abs_bits(r) <= ONE_BITS,
{
    bytemuck::cast(libm::tanhf(bytemuck::cast(x)))
}

} // verus!
