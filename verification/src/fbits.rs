//! Scalar arithmetic for the renderer.
//!
//! Every scalar in this crate is an IEEE-754 double held as its 64-bit
//! pattern (see the `Float` alias). Arithmetic on the encoded values is done
//! by outside crates that work directly on bit patterns, behind trusted
//! wrappers whose results are named spec functions; comparisons and other
//! bit-level facts are implemented and verified here in integer code.
use rustc_apfloat::Float as ApFloat;
use vstd::prelude::*;

verus! {

/// An IEEE-754 double, held as its 64-bit pattern.
pub type Float = u64;

pub const ZERO_BITS: u64 = 0x0000000000000000;
pub const NEG_ZERO_BITS: u64 = 0x8000000000000000;
pub const ONE_BITS: u64 = 0x3ff0000000000000;
pub const NEG_ONE_BITS: u64 = 0xbff0000000000000;
pub const TWO_BITS: u64 = 0x4000000000000000;
pub const HALF_BITS: u64 = 0x3fe0000000000000;
pub const F255_BITS: u64 = 0x406fe00000000000;
/// 0.001, the origin-offset floor used by the integrator.
pub const T_MIN_BITS: u64 = 0x3f50624dd2f1a9fc;
pub const PI_BITS: u64 = 0x400921fb54442d18;
pub const D180_BITS: u64 = 0x4066800000000000;
/// 2^-53, the scale that turns 53 random bits into a unit float.
pub const SCALE53_BITS: u64 = 0x3ca0000000000000;
/// The largest finite double.
pub const FMAX_BITS: u64 = 0x7fefffffffffffff;
/// The smallest finite double.
pub const FMIN_BITS: u64 = 0xffefffffffffffff;
/// Euler's number.
pub const E_BITS: u64 = 0x4005bf0a8b145769;
pub const THREE_BITS: u64 = 0x4008000000000000;
pub const FOUR_BITS: u64 = 0x4010000000000000;
pub const FIVE_BITS: u64 = 0x4014000000000000;
pub const EIGHT_BITS: u64 = 0x4020000000000000;
pub const F100_BITS: u64 = 0x4059000000000000;
/// 0.3, the radius scale of the random spheres.
pub const F03_BITS: u64 = 0x3fd3333333333333;
/// 0.05, the fuzz of the stock metal.
pub const F005_BITS: u64 = 0x3fa999999999999a;
/// 0.7, the blue-gradient weight of the sky.
pub const F07_BITS: u64 = 0x3fe6666666666666;
/// π / 180, the factor that turns degrees into radians.
pub const RAD_PER_DEG_BITS: u64 = 0x3f91df46a2529d39;
/// 55, the default vertical field of view in degrees.
pub const F55_BITS: u64 = 0x404b800000000000;

pub uninterp spec fn add_of(a: u64, b: u64) -> u64;

pub uninterp spec fn sub_of(a: u64, b: u64) -> u64;

pub uninterp spec fn mul_of(a: u64, b: u64) -> u64;

pub uninterp spec fn div_of(a: u64, b: u64) -> u64;

pub uninterp spec fn sqrt_of(a: u64) -> u64;

pub uninterp spec fn sin_of(a: u64) -> u64;

pub uninterp spec fn cos_of(a: u64) -> u64;

pub uninterp spec fn tan_of(a: u64) -> u64;

pub uninterp spec fn asin_of(a: u64) -> u64;

pub uninterp spec fn acos_of(a: u64) -> u64;

pub uninterp spec fn atan2_of(y: u64, x: u64) -> u64;

pub uninterp spec fn pow_of(a: u64, b: u64) -> u64;

pub uninterp spec fn f64_of_int(v: u64) -> u64;

/// Relies on rustc_apfloat's Double addition: the IEEE-754 round-to-nearest
/// sum of the values the two bit patterns encode.
#[verifier::external_body]
pub(crate) fn add_bits(a: u64, b: u64) -> (r: u64)
    ensures
        r == add_of(a, b),
{
    let x = rustc_apfloat::ieee::Double::from_bits(a as u128);
    let y = rustc_apfloat::ieee::Double::from_bits(b as u128);
    (x + y).value.to_bits() as u64
}

/// Relies on rustc_apfloat's Double subtraction: the IEEE-754
/// round-to-nearest difference of the encoded values.
#[verifier::external_body]
pub(crate) fn sub_bits(a: u64, b: u64) -> (r: u64)
    ensures
        r == sub_of(a, b),
{
    let x = rustc_apfloat::ieee::Double::from_bits(a as u128);
    let y = rustc_apfloat::ieee::Double::from_bits(b as u128);
    (x - y).value.to_bits() as u64
}

/// Relies on rustc_apfloat's Double multiplication: the IEEE-754
/// round-to-nearest product of the encoded values.
#[verifier::external_body]
pub(crate) fn mul_bits(a: u64, b: u64) -> (r: u64)
    ensures
        r == mul_of(a, b),
{
    let x = rustc_apfloat::ieee::Double::from_bits(a as u128);
    let y = rustc_apfloat::ieee::Double::from_bits(b as u128);
    (x * y).value.to_bits() as u64
}

/// Relies on rustc_apfloat's Double division: the IEEE-754 round-to-nearest
/// quotient of the encoded values.
#[verifier::external_body]
pub(crate) fn div_bits(a: u64, b: u64) -> (r: u64)
    ensures
        r == div_of(a, b),
{
    let x = rustc_apfloat::ieee::Double::from_bits(a as u128);
    let y = rustc_apfloat::ieee::Double::from_bits(b as u128);
    (x / y).value.to_bits() as u64
}

/// Relies on rustc_apfloat's Double::from_u128: the integer rounded to the
/// nearest representable double (exact below 2^53).
#[verifier::external_body]
pub(crate) fn int_to_bits(v: u64) -> (r: u64)
    ensures
        r == f64_of_int(v),
{
    rustc_apfloat::ieee::Double::from_u128(v as u128).value.to_bits() as u64
}

/// Relies on libm::sqrt: the IEEE-754 square root of the encoded value, a
/// function of its argument alone.
#[verifier::external_body]
pub(crate) fn sqrt_bits(a: u64) -> (r: u64)
    ensures
        r == sqrt_of(a),
{
    bytemuck::cast(libm::sqrt(bytemuck::cast(a)))
}

/// Relies on libm::sin, a function of its argument alone.
#[verifier::external_body]
pub(crate) fn sin_bits(a: u64) -> (r: u64)
    ensures
        r == sin_of(a),
{
    bytemuck::cast(libm::sin(bytemuck::cast(a)))
}

/// Relies on libm::cos, a function of its argument alone.
#[verifier::external_body]
pub(crate) fn cos_bits(a: u64) -> (r: u64)
    ensures
        r == cos_of(a),
{
    bytemuck::cast(libm::cos(bytemuck::cast(a)))
}

/// Relies on libm::tan, a function of its argument alone.
#[verifier::external_body]
pub(crate) fn tan_bits(a: u64) -> (r: u64)
    ensures
        r == tan_of(a),
{
    bytemuck::cast(libm::tan(bytemuck::cast(a)))
}

/// Relies on libm::asin, a function of its argument alone.
#[verifier::external_body]
pub(crate) fn asin_bits(a: u64) -> (r: u64)
    ensures
        r == asin_of(a),
{
    bytemuck::cast(libm::asin(bytemuck::cast(a)))
}

/// Relies on libm::acos, a function of its argument alone.
#[verifier::external_body]
pub(crate) fn acos_bits(a: u64) -> (r: u64)
    ensures
        r == acos_of(a),
{
    bytemuck::cast(libm::acos(bytemuck::cast(a)))
}

/// Relies on libm::atan2, a function of its two arguments alone.
#[verifier::external_body]
pub(crate) fn atan2_bits(y: u64, x: u64) -> (r: u64)
    ensures
        r == atan2_of(y, x),
{
    bytemuck::cast(libm::atan2(bytemuck::cast(y), bytemuck::cast(x)))
}

/// Relies on libm::pow, a function of its two arguments alone.
#[verifier::external_body]
pub(crate) fn pow_bits(a: u64, b: u64) -> (r: u64)
    ensures
        r == pow_of(a, b),
{
    bytemuck::cast(libm::pow(bytemuck::cast(a), bytemuck::cast(b)))
}

/// The magnitude part of the pattern: everything but the sign bit.
pub open spec fn f64_mag(a: u64) -> u64 {
    a & 0x7fff_ffff_ffff_ffff
}

/// A pattern encodes NaN exactly when its magnitude part is above that of
/// infinity.
pub open spec fn f64_is_nan(a: u64) -> bool {
    f64_mag(a) > 0x7ff0_0000_0000_0000
}

pub open spec fn f64_is_neg(a: u64) -> bool {
    a >> 63 == 1
}

/// The key orders encoded values exactly as IEEE-754 `<` does on non-NaN
/// doubles: sign-magnitude, with +0 and -0 sharing the key 0.
pub open spec fn f64_key(a: u64) -> int {
    if f64_is_neg(a) {
        -(f64_mag(a) as int)
    } else {
        f64_mag(a) as int
    }
}

/// IEEE-754 `<` on the encoded values: false whenever either side is NaN.
pub open spec fn f64_lt(a: u64, b: u64) -> bool {
    &&& !f64_is_nan(a)
    &&& !f64_is_nan(b)
    &&& f64_key(a) < f64_key(b)
}

/// IEEE-754 `>` on the encoded values.
pub open spec fn f64_gt(a: u64, b: u64) -> bool {
    f64_lt(b, a)
}

/// IEEE-754 `==` on the encoded values: +0 equals -0, NaN equals nothing.
pub open spec fn f64_eq(a: u64, b: u64) -> bool {
    &&& !f64_is_nan(a)
    &&& !f64_is_nan(b)
    &&& f64_key(a) == f64_key(b)
}

/// IEEE-754 `<=` on the encoded values: false whenever either side is NaN.
pub open spec fn f64_le(a: u64, b: u64) -> bool {
    &&& !f64_is_nan(a)
    &&& !f64_is_nan(b)
    &&& f64_key(a) <= f64_key(b)
}

/// IEEE-754 negation: the sign bit flips, exactly, for every pattern.
pub open spec fn f64_neg(a: u64) -> u64 {
    a ^ 0x8000_0000_0000_0000
}

/// IEEE-754 `<` on encoded doubles, decided on the bit patterns.
pub fn lt_bits(a: u64, b: u64) -> (r: bool)
    ensures
        r == f64_lt(a, b),
{
    let ma = a & 0x7fff_ffff_ffff_ffff;
    let mb = b & 0x7fff_ffff_ffff_ffff;
    if ma > 0x7ff0_0000_0000_0000 || mb > 0x7ff0_0000_0000_0000 {
        return false;
    }
    if a >> 63 == 1 {
        if b >> 63 == 1 {
            mb < ma
        } else {
            ma > 0 || mb > 0
        }
    } else {
        if b >> 63 == 1 {
            false
        } else {
            ma < mb
        }
    }
}

/// IEEE-754 `>` on encoded doubles.
pub fn gt_bits(a: u64, b: u64) -> (r: bool)
    ensures
        r == f64_gt(a, b),
{
    lt_bits(b, a)
}

/// IEEE-754 `<=` on encoded doubles, decided on the bit patterns.
pub fn le_bits(a: u64, b: u64) -> (r: bool)
    ensures
        r == f64_le(a, b),
{
    let ma = a & 0x7fff_ffff_ffff_ffff;
    let mb = b & 0x7fff_ffff_ffff_ffff;
    if ma > 0x7ff0_0000_0000_0000 || mb > 0x7ff0_0000_0000_0000 {
        return false;
    }
    if a >> 63 == 1 {
        if b >> 63 == 1 {
            mb <= ma
        } else {
            true
        }
    } else {
        if b >> 63 == 1 {
            ma == 0 && mb == 0
        } else {
            ma <= mb
        }
    }
}

/// IEEE-754 negation of an encoded double: flips the sign bit.
pub fn neg_bits(a: u64) -> (r: u64)
    ensures
        r == f64_neg(a),
{
    a ^ 0x8000_0000_0000_0000
}

} // verus!
