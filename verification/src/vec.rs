//! Three- and four-component vectors and quaternions over single-precision
//! bit patterns.
//!
//! The componentwise operations (add, subtract, scale, dot, cross, length,
//! normalize) are short fixed formulas over the scalar operations of
//! `fbits`, written in the exact evaluation order of the scalar code of the
//! linear-algebra crate so that results match it bit for bit. Like the
//! scalar operations, each contract pins a result wherever it is not NaN;
//! a NaN's payload is the machine's. The single-operation forms also pin
//! exactly when a NaN arises; the composite forms instead report that a
//! non-NaN result forces non-NaN inputs, which lets callers carry exactness
//! through chains.

use vstd::prelude::*;

use crate::fbits::{
    add_bits, add_is_nan, div_bits, fadd, fdiv, fmul, fsqrt, fsub, is_nan_bits, mul_bits,
    mul_is_nan, same_float, sqrt_bits, sub_bits, sub_is_nan, ONE_BITS, ZERO_BITS,
};

verus! {

/// A three-component vector of encoded single-precision values.
#[derive(Clone, Copy, Debug, PartialEq, Eq, Structural)]
pub struct Vec3Bits {
    pub x: u32,
    pub y: u32,
    pub z: u32,
}

/// A four-component vector of encoded single-precision values.
#[derive(Clone, Copy, Debug, PartialEq, Eq, Structural)]
pub struct Vec4Bits {
    pub x: u32,
    pub y: u32,
    pub z: u32,
    pub w: u32,
}

/// A quaternion of encoded single-precision values.
#[derive(Clone, Copy, Debug, PartialEq, Eq, Structural)]
pub struct QuatBits {
    pub x: u32,
    pub y: u32,
    pub z: u32,
    pub w: u32,
}

impl View for Vec3Bits {
    type V = Seq<u32>;

    open spec fn view(&self) -> Seq<u32> {
        seq![self.x, self.y, self.z]
    }
}

impl View for Vec4Bits {
    type V = Seq<u32>;

    open spec fn view(&self) -> Seq<u32> {
        seq![self.x, self.y, self.z, self.w]
    }
}

impl View for QuatBits {
    type V = Seq<u32>;

    open spec fn view(&self) -> Seq<u32> {
        seq![self.x, self.y, self.z, self.w]
    }
}

impl Vec3Bits {
    pub fn new(x: u32, y: u32, z: u32) -> (r: Vec3Bits)
        ensures
            r == (Vec3Bits { x, y, z }),
    {
        Vec3Bits { x, y, z }
    }

    /// The world Z axis, the fixed up direction of the first-person camera.
    pub fn z_axis() -> (r: Vec3Bits)
        ensures
            r == z_axis_bits(),
    {
        Vec3Bits { x: ZERO_BITS, y: ZERO_BITS, z: ONE_BITS }
    }
}

/// The world Z axis.
pub open spec fn z_axis_bits() -> Vec3Bits {
    Vec3Bits { x: ZERO_BITS, y: ZERO_BITS, z: ONE_BITS }
}

/// `same_float` componentwise: NaN in the same places, equal elsewhere.
pub open spec fn same_float3(r: Vec3Bits, s: Vec3Bits) -> bool {
    &&& same_float(r.x, s.x)
    &&& same_float(r.y, s.y)
    &&& same_float(r.z, s.z)
}

/// Componentwise agreement wherever the machine value is not NaN.
pub open spec fn agrees3_off_nan(r: Vec3Bits, s: Vec3Bits) -> bool {
    &&& (!is_nan_bits(r.x) ==> r.x == s.x)
    &&& (!is_nan_bits(r.y) ==> r.y == s.y)
    &&& (!is_nan_bits(r.z) ==> r.z == s.z)
}

/// Some component is a NaN.
pub open spec fn has_nan3(v: Vec3Bits) -> bool {
    is_nan_bits(v.x) || is_nan_bits(v.y) || is_nan_bits(v.z)
}

pub open spec fn add3_bits(a: Vec3Bits, b: Vec3Bits) -> Vec3Bits {
    Vec3Bits {
        x: add_bits(a.x, b.x),
        y: add_bits(a.y, b.y),
        z: add_bits(a.z, b.z),
    }
}

pub open spec fn sub3_bits(a: Vec3Bits, b: Vec3Bits) -> Vec3Bits {
    Vec3Bits {
        x: sub_bits(a.x, b.x),
        y: sub_bits(a.y, b.y),
        z: sub_bits(a.z, b.z),
    }
}

/// Each component multiplied by the scalar `k`.
pub open spec fn scale3_bits(a: Vec3Bits, k: u32) -> Vec3Bits {
    Vec3Bits {
        x: mul_bits(a.x, k),
        y: mul_bits(a.y, k),
        z: mul_bits(a.z, k),
    }
}

/// Dot product in the scalar evaluation order `(x*x + y*y) + z*z`.
pub open spec fn dot3_bits(a: Vec3Bits, b: Vec3Bits) -> u32 {
    add_bits(add_bits(mul_bits(a.x, b.x), mul_bits(a.y, b.y)), mul_bits(a.z, b.z))
}

/// Cross product, with each term ordered as in the scalar source.
pub open spec fn cross3_bits(a: Vec3Bits, b: Vec3Bits) -> Vec3Bits {
    Vec3Bits {
        x: sub_bits(mul_bits(a.y, b.z), mul_bits(b.y, a.z)),
        y: sub_bits(mul_bits(a.z, b.x), mul_bits(b.z, a.x)),
        z: sub_bits(mul_bits(a.x, b.y), mul_bits(b.x, a.y)),
    }
}

/// Euclidean length: the square root of the dot product with itself.
pub open spec fn length3_bits(a: Vec3Bits) -> u32 {
    sqrt_bits(dot3_bits(a, a))
}

/// Normalization: the vector scaled by the reciprocal `1.0 / length` of its
/// length, as the scalar code computes it. A zero vector yields non-finite
/// components; callers that must avoid that keep the input nonzero.
pub open spec fn normalize3_bits(a: Vec3Bits) -> Vec3Bits {
    scale3_bits(a, div_bits(ONE_BITS, length3_bits(a)))
}

pub fn add3(a: Vec3Bits, b: Vec3Bits) -> (r: Vec3Bits)
    ensures
        same_float3(r, add3_bits(a, b)),
        is_nan_bits(r.x) == add_is_nan(a.x, b.x),
        is_nan_bits(r.y) == add_is_nan(a.y, b.y),
        is_nan_bits(r.z) == add_is_nan(a.z, b.z),
{
    Vec3Bits { x: fadd(a.x, b.x), y: fadd(a.y, b.y), z: fadd(a.z, b.z) }
}

pub fn sub3(a: Vec3Bits, b: Vec3Bits) -> (r: Vec3Bits)
    ensures
        same_float3(r, sub3_bits(a, b)),
        is_nan_bits(r.x) == sub_is_nan(a.x, b.x),
        is_nan_bits(r.y) == sub_is_nan(a.y, b.y),
        is_nan_bits(r.z) == sub_is_nan(a.z, b.z),
{
    Vec3Bits { x: fsub(a.x, b.x), y: fsub(a.y, b.y), z: fsub(a.z, b.z) }
}

pub fn scale3(a: Vec3Bits, k: u32) -> (r: Vec3Bits)
    ensures
        same_float3(r, scale3_bits(a, k)),
        is_nan_bits(r.x) == mul_is_nan(a.x, k),
        is_nan_bits(r.y) == mul_is_nan(a.y, k),
        is_nan_bits(r.z) == mul_is_nan(a.z, k),
{
    Vec3Bits { x: fmul(a.x, k), y: fmul(a.y, k), z: fmul(a.z, k) }
}

pub fn dot3(a: Vec3Bits, b: Vec3Bits) -> (r: u32)
    ensures
        !is_nan_bits(r) ==> r == dot3_bits(a, b),
        !is_nan_bits(r) ==> !has_nan3(a) && !has_nan3(b),
{
    fadd(fadd(fmul(a.x, b.x), fmul(a.y, b.y)), fmul(a.z, b.z))
}

pub fn cross3(a: Vec3Bits, b: Vec3Bits) -> (r: Vec3Bits)
    ensures
        agrees3_off_nan(r, cross3_bits(a, b)),
        !is_nan_bits(r.x) ==> !is_nan_bits(a.y) && !is_nan_bits(a.z) && !is_nan_bits(b.y)
            && !is_nan_bits(b.z),
        !is_nan_bits(r.y) ==> !is_nan_bits(a.z) && !is_nan_bits(a.x) && !is_nan_bits(b.z)
            && !is_nan_bits(b.x),
        !is_nan_bits(r.z) ==> !is_nan_bits(a.x) && !is_nan_bits(a.y) && !is_nan_bits(b.x)
            && !is_nan_bits(b.y),
{
    Vec3Bits {
        x: fsub(fmul(a.y, b.z), fmul(b.y, a.z)),
        y: fsub(fmul(a.z, b.x), fmul(b.z, a.x)),
        z: fsub(fmul(a.x, b.y), fmul(b.x, a.y)),
    }
}

pub fn length3(a: Vec3Bits) -> (r: u32)
    ensures
        !is_nan_bits(r) ==> r == length3_bits(a),
        !is_nan_bits(r) ==> !has_nan3(a),
{
    fsqrt(dot3(a, a))
}

pub fn normalize3(a: Vec3Bits) -> (r: Vec3Bits)
    ensures
        agrees3_off_nan(r, normalize3_bits(a)),
        !is_nan_bits(r.x) || !is_nan_bits(r.y) || !is_nan_bits(r.z) ==> !has_nan3(a),
{
    let k = fdiv(ONE_BITS, length3(a));
    scale3(a, k)
}

} // verus!
