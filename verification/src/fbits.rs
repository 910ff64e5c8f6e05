//! Scalar arithmetic on IEEE 754 single-precision values, each value carried
//! as its 32-bit pattern.
//!
//! The basic operations (`+`, `-`, `*`, `/`, `sqrt`, casts) are correctly
//! rounded under IEEE 754, so away from NaN each result is a function of the
//! operand bits alone; those results carry uninterpreted names. *Whether* an
//! operation produces a NaN is likewise fully determined by the operands —
//! the conditions are written out per operation — but the bit pattern of a
//! NaN result is the machine's choice, so the names pin a result only when
//! it is not NaN (`same_float`). Ordering and negation are fully determined
//! by the bit patterns and are specified directly. The transcendental
//! operations (`sin_cos`, `atan`) have platform-dependent precision, so
//! nothing is assumed about their results.

use vstd::prelude::*;

verus! {

/// Bit pattern of positive zero.
pub const ZERO_BITS: u32 = 0x0000_0000;
/// Bit pattern of 0.5.
pub const HALF_BITS: u32 = 0x3F00_0000;
/// Bit pattern of 1.0.
pub const ONE_BITS: u32 = 0x3F80_0000;
/// Bit pattern of -1.0.
pub const NEG_ONE_BITS: u32 = 0xBF80_0000;
/// Bit pattern of 2.0.
pub const TWO_BITS: u32 = 0x4000_0000;
/// Bit pattern of 9.0.
pub const NINE_BITS: u32 = 0x4110_0000;
/// Bit pattern of 16.0.
pub const SIXTEEN_BITS: u32 = 0x4180_0000;
/// Bit pattern of 24.0.
pub const TWENTY_FOUR_BITS: u32 = 0x41C0_0000;
/// Bit pattern of 50.0.
pub const FIFTY_BITS: u32 = 0x4248_0000;
/// Bit pattern of 100.0.
pub const HUNDRED_BITS: u32 = 0x42C8_0000;
/// Bit pattern of 0.1.
pub const TENTH_BITS: u32 = 0x3DCC_CCCD;
/// Bit pattern of pi/2, the closest single-precision value.
pub const FRAC_PI_2_BITS: u32 = 0x3FC9_0FDB;
/// Bit pattern of -pi/2, the closest single-precision value.
pub const NEG_FRAC_PI_2_BITS: u32 = 0xBFC9_0FDB;

/// The sign bit of the pattern.
pub open spec fn sign_bits(a: u32) -> bool {
    a & 0x8000_0000 == 0x8000_0000
}

/// The pattern with the sign bit cleared: exponent and fraction only.
pub open spec fn mag_bits(a: u32) -> u32 {
    a & 0x7FFF_FFFF
}

/// True when the pattern encodes a NaN: maximal exponent, nonzero fraction.
pub open spec fn is_nan_bits(a: u32) -> bool {
    mag_bits(a) > 0x7F80_0000
}

/// True when the pattern encodes an infinity.
pub open spec fn is_inf_bits(a: u32) -> bool {
    mag_bits(a) == 0x7F80_0000
}

/// True when the pattern encodes a zero of either sign.
pub open spec fn is_zero_bits(a: u32) -> bool {
    mag_bits(a) == 0
}

/// True when the 64-bit pattern encodes a double-precision NaN.
pub open spec fn is_nan64_bits(d: u64) -> bool {
    (d & 0x7FFF_FFFF_FFFF_FFFF) > 0x7FF0_0000_0000_0000
}

/// The machine result agrees with the stated value wherever that is
/// meaningful: both are NaN together (payloads are the machine's), and a
/// non-NaN result is the stated value exactly.
pub open spec fn same_float(r: u32, s: u32) -> bool {
    &&& is_nan_bits(r) == is_nan_bits(s)
    &&& (!is_nan_bits(r) ==> r == s)
}

/// When IEEE 754 addition produces a NaN: a NaN operand, or infinities of
/// opposite sign.
pub open spec fn add_is_nan(a: u32, b: u32) -> bool {
    ||| is_nan_bits(a)
    ||| is_nan_bits(b)
    ||| (is_inf_bits(a) && is_inf_bits(b) && sign_bits(a) != sign_bits(b))
}

/// When IEEE 754 subtraction produces a NaN: a NaN operand, or infinities of
/// the same sign.
pub open spec fn sub_is_nan(a: u32, b: u32) -> bool {
    ||| is_nan_bits(a)
    ||| is_nan_bits(b)
    ||| (is_inf_bits(a) && is_inf_bits(b) && sign_bits(a) == sign_bits(b))
}

/// When IEEE 754 multiplication produces a NaN: a NaN operand, or zero times
/// infinity.
pub open spec fn mul_is_nan(a: u32, b: u32) -> bool {
    ||| is_nan_bits(a)
    ||| is_nan_bits(b)
    ||| (is_inf_bits(a) && is_zero_bits(b))
    ||| (is_zero_bits(a) && is_inf_bits(b))
}

/// When IEEE 754 division produces a NaN: a NaN operand, zero over zero, or
/// infinity over infinity.
pub open spec fn div_is_nan(a: u32, b: u32) -> bool {
    ||| is_nan_bits(a)
    ||| is_nan_bits(b)
    ||| (is_zero_bits(a) && is_zero_bits(b))
    ||| (is_inf_bits(a) && is_inf_bits(b))
}

/// When IEEE 754 square root produces a NaN: a NaN operand, or a negative
/// value other than negative zero.
pub open spec fn sqrt_is_nan(a: u32) -> bool {
    is_nan_bits(a) || (sign_bits(a) && mag_bits(a) != 0)
}

/// When the double-to-single cast produces a NaN: only for a NaN operand
/// (overflow rounds to an infinity).
pub open spec fn demote_is_nan(d: u64) -> bool {
    is_nan64_bits(d)
}

/// When the degrees-to-radians conversion produces a NaN: only for a NaN
/// operand — it is one multiplication by a finite nonzero constant.
pub open spec fn radians_is_nan(a: u32) -> bool {
    is_nan_bits(a)
}

/// IEEE 754 equality of the encoded values: NaN equals nothing, and the two
/// zeroes are equal; otherwise the patterns coincide.
pub open spec fn float_eq(a: u32, b: u32) -> bool {
    &&& !is_nan_bits(a)
    &&& !is_nan_bits(b)
    &&& (a == b || (mag_bits(a) == 0 && mag_bits(b) == 0))
}

/// IEEE 754 `<` on the encoded values. False whenever either side is NaN;
/// otherwise sign-magnitude order, with the two zeroes equal. For values of
/// one sign the order is the integer order of the magnitude bits.
pub open spec fn float_lt(a: u32, b: u32) -> bool {
    if is_nan_bits(a) || is_nan_bits(b) {
        false
    } else if sign_bits(a) && sign_bits(b) {
        mag_bits(b) < mag_bits(a)
    } else if sign_bits(a) && !sign_bits(b) {
        mag_bits(a) != 0 || mag_bits(b) != 0
    } else if !sign_bits(a) && sign_bits(b) {
        false
    } else {
        mag_bits(a) < mag_bits(b)
    }
}

/// IEEE 754 `<=` on the encoded values.
pub open spec fn float_le(a: u32, b: u32) -> bool {
    float_lt(a, b) || float_eq(a, b)
}

/// Negation of the encoded value: IEEE 754 negation only flips the sign bit.
pub open spec fn neg_bits(a: u32) -> u32 {
    a ^ 0x8000_0000
}

/// Sum of the two encoded values, away from NaN (a NaN result's pattern is
/// the machine's choice, so the names pin no NaN payload).
pub uninterp spec fn add_bits(a: u32, b: u32) -> u32;

/// Difference of the two encoded values, away from NaN.
pub uninterp spec fn sub_bits(a: u32, b: u32) -> u32;

/// Product of the two encoded values, away from NaN.
pub uninterp spec fn mul_bits(a: u32, b: u32) -> u32;

/// Quotient of the two encoded values, away from NaN.
pub uninterp spec fn div_bits(a: u32, b: u32) -> u32;

/// Square root of the encoded value, away from NaN.
pub uninterp spec fn sqrt_bits(a: u32) -> u32;

/// The integer converted to the nearest single-precision value; always
/// finite, so fully pinned.
pub uninterp spec fn from_u32_bits(n: u32) -> u32;

/// The double-precision value with this 64-bit pattern, rounded to
/// single precision, away from NaN.
pub uninterp spec fn demote_bits(d: u64) -> u32;

/// The encoded value, taken as degrees, converted to radians, away from
/// NaN.
pub uninterp spec fn radians_bits(deg: u32) -> u32;

/// Relies on `+` for single-precision values: IEEE 754 addition is
/// correctly rounded and produces a NaN exactly under `add_is_nan`, so
/// whether the result is NaN, and its value when it is not, depend on the
/// operand bits alone; a NaN result's payload does not.
#[verifier::external_body]
pub(crate) fn fadd(a: u32, b: u32) -> (r: u32)
    ensures
        same_float(r, add_bits(a, b)),
        is_nan_bits(r) == add_is_nan(a, b),
{
    let v = glam::Vec2::new(bytemuck::cast(a), bytemuck::cast(b));
    (v.x + v.y).to_bits()
}

/// Relies on `-` for single-precision values: IEEE 754 subtraction is
/// correctly rounded and produces a NaN exactly under `sub_is_nan`.
#[verifier::external_body]
pub(crate) fn fsub(a: u32, b: u32) -> (r: u32)
    ensures
        same_float(r, sub_bits(a, b)),
        is_nan_bits(r) == sub_is_nan(a, b),
{
    let v = glam::Vec2::new(bytemuck::cast(a), bytemuck::cast(b));
    (v.x - v.y).to_bits()
}

/// Relies on `*` for single-precision values: IEEE 754 multiplication is
/// correctly rounded and produces a NaN exactly under `mul_is_nan`.
#[verifier::external_body]
pub(crate) fn fmul(a: u32, b: u32) -> (r: u32)
    ensures
        same_float(r, mul_bits(a, b)),
        is_nan_bits(r) == mul_is_nan(a, b),
{
    let v = glam::Vec2::new(bytemuck::cast(a), bytemuck::cast(b));
    (v.x * v.y).to_bits()
}

/// Relies on `/` for single-precision values: IEEE 754 division is
/// correctly rounded and produces a NaN exactly under `div_is_nan`.
#[verifier::external_body]
pub(crate) fn fdiv(a: u32, b: u32) -> (r: u32)
    ensures
        same_float(r, div_bits(a, b)),
        is_nan_bits(r) == div_is_nan(a, b),
{
    let v = glam::Vec2::new(bytemuck::cast(a), bytemuck::cast(b));
    (v.x / v.y).to_bits()
}

/// Relies on `sqrt` for single-precision values, which std documents as
/// correctly rounded per IEEE 754; it produces a NaN exactly under
/// `sqrt_is_nan`.
#[verifier::external_body]
pub(crate) fn fsqrt(a: u32) -> (r: u32)
    ensures
        same_float(r, sqrt_bits(a)),
        is_nan_bits(r) == sqrt_is_nan(a),
{
    let v = glam::Vec2::splat(bytemuck::cast(a));
    v.x.sqrt().to_bits()
}

/// Relies on `<` for single-precision values: IEEE 754 comparison is exactly
/// the sign-magnitude order written in `float_lt`, with NaN unordered.
#[verifier::external_body]
pub(crate) fn flt(a: u32, b: u32) -> (r: bool)
    ensures
        r == float_lt(a, b),
{
    let v = glam::Vec2::new(bytemuck::cast(a), bytemuck::cast(b));
    v.x < v.y
}

/// Relies on the `as` cast from a 32-bit unsigned integer to single
/// precision: correctly rounded to a finite value, so the result depends
/// on the integer alone and is never NaN.
#[verifier::external_body]
pub(crate) fn f_from_u32(n: u32) -> (r: u32)
    ensures
        r == from_u32_bits(n),
        !is_nan_bits(r),
{
    glam::UVec2::splat(n).as_vec2().x.to_bits()
}

/// Relies on the `as` cast from double to single precision: correctly
/// rounded, NaN exactly for a NaN operand (overflow rounds to infinity).
#[verifier::external_body]
pub(crate) fn fdemote(d: u64) -> (r: u32)
    ensures
        same_float(r, demote_bits(d)),
        is_nan_bits(r) == demote_is_nan(d),
{
    glam::DVec2::splat(bytemuck::cast(d)).as_vec2().x.to_bits()
}

/// Relies on `to_radians` for single-precision values: a single correctly
/// rounded multiplication by the finite nonzero radians-per-degree
/// constant, so it is NaN exactly for a NaN operand.
#[verifier::external_body]
pub(crate) fn fradians(deg: u32) -> (r: u32)
    ensures
        same_float(r, radians_bits(deg)),
        is_nan_bits(r) == radians_is_nan(deg),
{
    let v = glam::Vec2::splat(bytemuck::cast(deg));
    v.x.to_radians().to_bits()
}

/// Relies on `sin_cos` for single-precision values. Its precision is
/// platform-dependent, so nothing is assumed about the result.
#[verifier::external_body]
pub(crate) fn fsincos(a: u32) -> (u32, u32) {
    let v = glam::Vec2::splat(bytemuck::cast(a));
    let (s, c) = v.x.sin_cos();
    (s.to_bits(), c.to_bits())
}

/// Relies on `atan` for single-precision values. Its precision is
/// platform-dependent, so nothing is assumed about the result.
#[verifier::external_body]
pub(crate) fn fatan(a: u32) -> u32 {
    let v = glam::Vec2::splat(bytemuck::cast(a));
    v.x.atan().to_bits()
}

/// Negation of the encoded value, computed on the bit pattern: IEEE 754
/// negation flips the sign bit and nothing else.
pub fn fneg(a: u32) -> (r: u32)
    ensures
        r == neg_bits(a),
{
    a ^ 0x8000_0000
}

/// The value clamped to `[lo, hi]` the way a pair of comparisons clamps it:
/// a NaN input passes through unchanged, since it compares false on both
/// sides.
pub open spec fn clamp_bits(p: u32, lo: u32, hi: u32) -> u32 {
    if float_lt(p, lo) {
        lo
    } else if float_lt(hi, p) {
        hi
    } else {
        p
    }
}

/// Clamp on encoded values, mirroring `clamp_bits`.
pub fn fclamp(p: u32, lo: u32, hi: u32) -> (r: u32)
    ensures
        r == clamp_bits(p, lo, hi),
{
    if flt(p, lo) {
        lo
    } else if flt(hi, p) {
        hi
    } else {
        p
    }
}

/// Negation flips only the sign bit, so it cannot create or remove a NaN.
pub proof fn lemma_neg_keeps_nan(a: u32)
    ensures
        is_nan_bits(neg_bits(a)) == is_nan_bits(a),
{
    assert((a ^ 0x8000_0000) & 0x7FFF_FFFF == a & 0x7FFF_FFFF) by (bit_vector);
}

/// The lens-model and aspect constants are ordinary finite nonzero values,
/// so the arithmetic over them cannot produce a NaN.
pub proof fn lemma_lens_constants_finite()
    ensures
        !is_nan_bits(SIXTEEN_BITS) && !is_inf_bits(SIXTEEN_BITS) && !is_zero_bits(SIXTEEN_BITS),
        !is_nan_bits(NINE_BITS) && !is_inf_bits(NINE_BITS) && !is_zero_bits(NINE_BITS),
        !is_nan_bits(TWENTY_FOUR_BITS) && !is_inf_bits(TWENTY_FOUR_BITS) && !is_zero_bits(
            TWENTY_FOUR_BITS,
        ),
        !is_nan_bits(FIFTY_BITS) && !is_inf_bits(FIFTY_BITS) && !is_zero_bits(FIFTY_BITS),
        !is_nan_bits(HALF_BITS) && !is_inf_bits(HALF_BITS) && !is_zero_bits(HALF_BITS),
        !is_nan_bits(TWO_BITS) && !is_inf_bits(TWO_BITS) && !is_zero_bits(TWO_BITS),
{
    assert(0x4180_0000u32 & 0x7FFF_FFFF == 0x4180_0000) by (bit_vector);
    assert(0x4110_0000u32 & 0x7FFF_FFFF == 0x4110_0000) by (bit_vector);
    assert(0x41C0_0000u32 & 0x7FFF_FFFF == 0x41C0_0000) by (bit_vector);
    assert(0x4248_0000u32 & 0x7FFF_FFFF == 0x4248_0000) by (bit_vector);
    assert(0x3F00_0000u32 & 0x7FFF_FFFF == 0x3F00_0000) by (bit_vector);
    assert(0x4000_0000u32 & 0x7FFF_FFFF == 0x4000_0000) by (bit_vector);
}

/// Equality of the encoded values is reflexive away from NaN.
pub proof fn lemma_float_eq_refl(a: u32)
    requires
        !is_nan_bits(a),
    ensures
        float_eq(a, a),
{
}

/// The order on encoded values is total away from NaN: two values compare
/// `<`, equal, or `>`.
pub proof fn lemma_float_total(a: u32, b: u32)
    requires
        !is_nan_bits(a),
        !is_nan_bits(b),
    ensures
        float_lt(a, b) || float_eq(a, b) || float_lt(b, a),
{
    if a == b {
        lemma_float_eq_refl(a);
    } else {
        assert((a & 0x8000_0000 == b & 0x8000_0000 && a & 0x7FFF_FFFF == b & 0x7FFF_FFFF)
            ==> a == b) by (bit_vector);
        assert(a & 0x8000_0000 == 0x8000_0000 || a & 0x8000_0000 == 0) by (bit_vector);
        assert(b & 0x8000_0000 == 0x8000_0000 || b & 0x8000_0000 == 0) by (bit_vector);
    }
}

/// Whatever the two-sided comparison clamp returns lies within the bounds,
/// provided the bounds are ordered non-NaN values; a NaN input is the one
/// value that passes through unordered.
pub proof fn lemma_clamp_within(p: u32, lo: u32, hi: u32)
    requires
        !is_nan_bits(lo),
        !is_nan_bits(hi),
        float_le(lo, hi),
    ensures
        !is_nan_bits(clamp_bits(p, lo, hi)) ==> float_le(lo, clamp_bits(p, lo, hi)) && float_le(
            clamp_bits(p, lo, hi),
            hi,
        ),
{
    if float_lt(p, lo) {
        lemma_float_eq_refl(lo);
    } else if float_lt(hi, p) {
        lemma_float_eq_refl(hi);
    } else {
        if !is_nan_bits(p) {
            lemma_float_total(p, lo);
            lemma_float_total(hi, p);
        }
    }
}

/// The two half-pi patterns are ordinary finite values in order.
pub proof fn lemma_pi2_bounds_wf()
    ensures
        !is_nan_bits(NEG_FRAC_PI_2_BITS),
        !is_nan_bits(FRAC_PI_2_BITS),
        float_le(NEG_FRAC_PI_2_BITS, FRAC_PI_2_BITS),
{
    assert(0xBFC9_0FDBu32 & 0x7FFF_FFFF == 0x3FC9_0FDB) by (bit_vector);
    assert(0x3FC9_0FDBu32 & 0x7FFF_FFFF == 0x3FC9_0FDB) by (bit_vector);
    assert(0xBFC9_0FDBu32 & 0x8000_0000 == 0x8000_0000) by (bit_vector);
    assert(0x3FC9_0FDBu32 & 0x8000_0000 == 0) by (bit_vector);
}

} // verus!
