//! Scalar helpers: ordering, range mapping, clamping, and the conversion of
//! a channel value to an integer colour component.
use crate::fbits::{
    add_bits, add_of, div_bits, div_of, f64_is_nan, f64_key, f64_lt, f64_gt, f64_neg, gt_bits,
    lt_bits, mul_bits, mul_of, neg_bits, pow_bits, pow_of, sub_bits, sub_of, Float, E_BITS,
    F255_BITS, ONE_BITS, ZERO_BITS,
};
use vstd::prelude::*;

verus! {

/// The smaller argument under IEEE `<`; the second argument when they are
/// unordered or equal.
pub open spec fn spec_min(a: u64, b: u64) -> u64 {
    if f64_lt(a, b) {
        a
    } else {
        b
    }
}

/// The larger argument under IEEE `>`; the second argument when they are
/// unordered or equal.
pub open spec fn spec_max(a: u64, b: u64) -> u64 {
    if f64_gt(a, b) {
        a
    } else {
        b
    }
}

/// Affine reinterpolation of `x` from the range `a1..b1` to `a2..b2`.
pub open spec fn spec_map(x: u64, a1: u64, b1: u64, a2: u64, b2: u64) -> u64 {
    add_of(mul_of(sub_of(b2, a2), div_of(sub_of(x, a1), sub_of(b1, a1))), a2)
}

/// `a` held to the range `minimum..maximum`; an unordered (NaN) value passes
/// through unchanged.
pub open spec fn spec_clamp(a: u64, minimum: u64, maximum: u64) -> u64 {
    if f64_lt(a, minimum) {
        minimum
    } else if f64_gt(a, maximum) {
        maximum
    } else {
        a
    }
}

/// Truncation toward zero of an encoded double known to lie in [-1, 256) or
/// be NaN: NaN goes to 0, exactly as a float-to-int cast does.
pub open spec fn spec_trunc_byte(c: u64) -> i32 {
    if f64_is_nan(c) {
        0
    } else if (c >> 52) & 0x7ff < 1023 {
        0
    } else {
        ((((c & 0xf_ffff_ffff_ffff) | 0x10_0000_0000_0000) >> ((1075 - ((c >> 52) & 0x7ff)) as u64)) & 0xff) as i32
    }
}

/// The colour component for channel value `a` over the image range
/// `start..end`: mapped to 0..255, clamped, truncated.
pub open spec fn spec_to_color(a: u64, start: u64, end: u64) -> i32 {
    spec_trunc_byte(spec_clamp(spec_map(a, start, end, ZERO_BITS, F255_BITS), ZERO_BITS, F255_BITS))
}

pub fn min(a: Float, b: Float) -> (r: Float)
    ensures
        r == spec_min(a, b),
{
    if lt_bits(a, b) {
        return a;
    }
    b
}

pub fn max(a: Float, b: Float) -> (r: Float)
    ensures
        r == spec_max(a, b),
{
    if gt_bits(a, b) {
        return a;
    }
    b
}

pub fn map(x: Float, a1: Float, b1: Float, a2: Float, b2: Float) -> (r: Float)
    ensures
        r == spec_map(x, a1, b1, a2, b2),
{
    let rap = div_bits(sub_bits(x, a1), sub_bits(b1, a1));
    add_bits(mul_bits(sub_bits(b2, a2), rap), a2)
}

pub fn clamp(a: Float, minimum: Float, maximum: Float) -> (r: Float)
    ensures
        r == spec_clamp(a, minimum, maximum),
{
    if lt_bits(a, minimum) {
        return minimum;
    } else if gt_bits(a, maximum) {
        return maximum;
    }
    a
}

/// Truncates a clamped channel value to its integer colour component.
fn trunc_byte(c: u64) -> (r: i32)
    requires
        f64_is_nan(c) || 0 <= f64_key(c) <= f64_key(F255_BITS),
    ensures
        r == spec_trunc_byte(c),
        0 <= r <= 255,
{
    let mag = c & 0x7fff_ffff_ffff_ffff;
    if mag > 0x7ff0_0000_0000_0000 {
        return 0;
    }
    let exp = (c >> 52) & 0x7ff;
    if exp < 1023 {
        return 0;
    }
    proof {
        assert(0x406f_e000_0000_0000u64 & 0x7fff_ffff_ffff_ffff == 0x406f_e000_0000_0000
            && 0x406f_e000_0000_0000u64 >> 63 == 0) by (bit_vector);
        assert((c >> 63 == 1 && c & 0x7fff_ffff_ffff_ffff == 0) ==> (c >> 52) & 0x7ff < 1023)
            by (bit_vector);
        assert(c & 0x7fff_ffff_ffff_ffff <= 0x406f_e000_0000_0000 && c >> 63 != 1 ==> (c >> 52)
            & 0x7ff <= 1030) by (bit_vector);
        assert(exp <= 1030);
        assert(((((c & 0xf_ffff_ffff_ffff) | 0x10_0000_0000_0000) >> ((1075 - ((c >> 52)
            & 0x7ff)) as u64)) & 0xff) <= 0xff) by (bit_vector);
    }
    let shifted = (((c & 0xf_ffff_ffff_ffff) | 0x10_0000_0000_0000) >> ((1075 - exp) as u64)) & 0xff;
    shifted as i32
}

pub fn to_color(a: Float, start: Float, end: Float) -> (r: i32)
    ensures
        r == spec_to_color(a, start, end),
        0 <= r <= 255,
{
    let mapped = map(a, start, end, ZERO_BITS, F255_BITS);
    let clamped = clamp(mapped, ZERO_BITS, F255_BITS);
    proof {
        assert(0u64 & 0x7fff_ffff_ffff_ffff == 0 && 0u64 >> 63 == 0) by (bit_vector);
        assert(0x406f_e000_0000_0000u64 & 0x7fff_ffff_ffff_ffff == 0x406f_e000_0000_0000
            && 0x406f_e000_0000_0000u64 >> 63 == 0) by (bit_vector);
        assert(f64_key(ZERO_BITS) == 0 && !f64_is_nan(ZERO_BITS));
        assert(f64_key(F255_BITS) == 0x406f_e000_0000_0000 && !f64_is_nan(F255_BITS));
    }
    trunc_byte(clamped)
}

/// The logistic function 1 / (1 + e^-f).
pub open spec fn spec_sigmoid(f: u64) -> u64 {
    div_of(ONE_BITS, add_of(ONE_BITS, pow_of(E_BITS, f64_neg(f))))
}

pub fn sigmoid(f: Float) -> (r: Float)
    ensures
        r == spec_sigmoid(f),
{
    div_bits(ONE_BITS, add_bits(ONE_BITS, pow_bits(E_BITS, neg_bits(f))))
}

} // verus!
