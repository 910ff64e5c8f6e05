//! Column-major 4x4 matrices of encoded single-precision values, and the
//! linear-algebra operations the cameras and projectors combine.
//!
//! The view, multiplication, inversion and pose operations of the
//! linear-algebra crate are fixed sequences of correctly rounded IEEE 754
//! additions, multiplications, divisions and square roots (the crate is
//! built with its scalar code paths), so away from NaN each result is a
//! function of the argument bits alone and carries an uninterpreted name;
//! whether an entry is NaN is likewise input-determined, but a NaN's bit
//! pattern is the machine's, so each contract relates the result to its
//! name entry by entry through `same_float`. The perspective projection
//! goes through the tangent, whose precision is platform-dependent; only
//! the entries that avoid it are specified.

use vstd::prelude::*;

use crate::fbits::{
    div_bits, is_nan_bits, mul_bits, same_float, sub_bits, NEG_ONE_BITS, ONE_BITS, ZERO_BITS,
};
use crate::vec::{QuatBits, Vec3Bits, Vec4Bits};

verus! {

/// A 4x4 matrix of encoded single-precision values, stored column-major:
/// entry `e[4*c + r]` is row `r` of column `c`.
#[derive(Clone, Copy, Debug)]
pub struct Mat4Bits {
    pub e: [u32; 16],
}

impl View for Mat4Bits {
    type V = Seq<u32>;

    open spec fn view(&self) -> Seq<u32> {
        self.e@
    }
}

/// The identity matrix, column-major.
pub open spec fn identity_bits() -> Seq<u32> {
    seq![
        ONE_BITS, ZERO_BITS, ZERO_BITS, ZERO_BITS,
        ZERO_BITS, ONE_BITS, ZERO_BITS, ZERO_BITS,
        ZERO_BITS, ZERO_BITS, ONE_BITS, ZERO_BITS,
        ZERO_BITS, ZERO_BITS, ZERO_BITS, ONE_BITS,
    ]
}

impl Mat4Bits {
    /// The identity matrix.
    pub fn identity() -> (r: Mat4Bits)
        ensures
            r@ == identity_bits(),
    {
        let m = Mat4Bits {
            e: [
                ONE_BITS, ZERO_BITS, ZERO_BITS, ZERO_BITS,
                ZERO_BITS, ONE_BITS, ZERO_BITS, ZERO_BITS,
                ZERO_BITS, ZERO_BITS, ONE_BITS, ZERO_BITS,
                ZERO_BITS, ZERO_BITS, ZERO_BITS, ONE_BITS,
            ],
        };
        proof {
            assert(m@ =~= identity_bits());
        }
        m
    }
}

/// The sixteen entries of a nested column-major array, flattened in column
/// order: the layout both the camera uniform and the instance transform use.
pub open spec fn cols_seq(m: [[u32; 4]; 4]) -> Seq<u32> {
    seq![
        m@[0]@[0], m@[0]@[1], m@[0]@[2], m@[0]@[3],
        m@[1]@[0], m@[1]@[1], m@[1]@[2], m@[1]@[3],
        m@[2]@[0], m@[2]@[1], m@[2]@[2], m@[2]@[3],
        m@[3]@[0], m@[3]@[1], m@[3]@[2], m@[3]@[3],
    ]
}

/// A matrix split into its four columns, the shape GPU-bound structures use.
pub fn to_cols(m: &Mat4Bits) -> (r: [[u32; 4]; 4])
    ensures
        cols_seq(r) == m@,
{
    let e = &m.e;
    let r = [
        [e[0], e[1], e[2], e[3]],
        [e[4], e[5], e[6], e[7]],
        [e[8], e[9], e[10], e[11]],
        [e[12], e[13], e[14], e[15]],
    ];
    proof {
        assert(cols_seq(r) =~= m@);
    }
    r
}

/// Entrywise `same_float`: NaN in the same places, equal elsewhere.
pub open spec fn same_floats(m: Seq<u32>, s: Seq<u32>) -> bool {
    &&& m.len() == s.len()
    &&& forall|i: int| 0 <= i < m.len() ==> same_float(#[trigger] m[i], s[i])
}

/// The right-handed view matrix built from an eye position, a facing
/// direction and an up direction, pinned entrywise away from NaN.
pub uninterp spec fn look_to_bits(eye: Seq<u32>, dir: Seq<u32>, up: Seq<u32>) -> Seq<u32>;

/// The matrix product `a * b`, pinned entrywise away from NaN.
pub uninterp spec fn mat_mul_bits(a: Seq<u32>, b: Seq<u32>) -> Seq<u32>;

/// The matrix inverse, pinned entrywise away from NaN.
pub uninterp spec fn mat_inverse_bits(m: Seq<u32>) -> Seq<u32>;

/// The affine transform built from a rotation quaternion and a translation,
/// pinned entrywise away from NaN.
pub uninterp spec fn rotation_translation_bits(q: Seq<u32>, t: Seq<u32>) -> Seq<u32>;

/// The matrix-vector product `m * v`, pinned entrywise away from NaN.
pub uninterp spec fn mat_mul_vec4_bits(m: Seq<u32>, v: Seq<u32>) -> Seq<u32>;

/// The rotation quaternion extracted from the upper 3x3 of the matrix,
/// pinned entrywise away from NaN.
pub uninterp spec fn quat_from_mat_bits(m: Seq<u32>) -> Seq<u32>;

/// Shape of a right-handed perspective projection with vertical field of
/// view: the literal entries are exact, and every computed entry except the
/// two trig-derived focal scales `m[0]`, `m[5]` is a fixed formula of the
/// arguments wherever it is not NaN — the horizontal scale is the vertical
/// one divided by the aspect ratio, and the depth entries come from the
/// near and far planes.
pub open spec fn perspective_shape(m: Seq<u32>, aspect: u32, znear: u32, zfar: u32) -> bool {
    &&& m.len() == 16
    &&& (!is_nan_bits(m[0]) ==> m[0] == div_bits(m[5], aspect))
    &&& m[1] == ZERO_BITS
    &&& m[2] == ZERO_BITS
    &&& m[3] == ZERO_BITS
    &&& m[4] == ZERO_BITS
    &&& m[6] == ZERO_BITS
    &&& m[7] == ZERO_BITS
    &&& m[8] == ZERO_BITS
    &&& m[9] == ZERO_BITS
    &&& (!is_nan_bits(m[10]) ==> m[10] == div_bits(zfar, sub_bits(znear, zfar)))
    &&& m[11] == NEG_ONE_BITS
    &&& m[12] == ZERO_BITS
    &&& m[13] == ZERO_BITS
    &&& (!is_nan_bits(m[14]) ==> m[14] == mul_bits(m[10], znear))
    &&& m[15] == ZERO_BITS
}

/// Relies on `glam::Mat4::look_to_rh`: a fixed formula of normalizations,
/// cross and dot products over the arguments, so which entries are NaN and
/// the value of every other entry depend on the argument bits alone.
#[verifier::external_body]
pub(crate) fn look_to_rh(eye: Vec3Bits, dir: Vec3Bits, up: Vec3Bits) -> (r: Mat4Bits)
    ensures
        same_floats(r@, look_to_bits(eye@, dir@, up@)),
{
    let ge = glam::Vec3::new(bytemuck::cast(eye.x), bytemuck::cast(eye.y), bytemuck::cast(eye.z));
    let gd = glam::Vec3::new(bytemuck::cast(dir.x), bytemuck::cast(dir.y), bytemuck::cast(dir.z));
    let gu = glam::Vec3::new(bytemuck::cast(up.x), bytemuck::cast(up.y), bytemuck::cast(up.z));
    let g = glam::Mat4::look_to_rh(ge, gd, gu);
    Mat4Bits { e: g.to_cols_array().map(|v| v.to_bits()) }
}

/// Relies on `glam::Mat4::perspective_rh`: all entries off the two focal
/// scales are stored exactly as the formulas of `perspective_shape` compute
/// them, as the crate's source shows; a computed entry is related only
/// where it is not NaN.
#[verifier::external_body]
pub(crate) fn perspective_rh(fovy: u32, aspect: u32, znear: u32, zfar: u32) -> (r: Mat4Bits)
    ensures
        perspective_shape(r@, aspect, znear, zfar),
{
    let g = glam::Mat4::perspective_rh(
        bytemuck::cast(fovy),
        bytemuck::cast(aspect),
        bytemuck::cast(znear),
        bytemuck::cast(zfar),
    );
    Mat4Bits { e: g.to_cols_array().map(|v| v.to_bits()) }
}

/// Relies on `glam::Mat4::mul` for matrices: a fixed sequence of correctly
/// rounded multiplications and additions, so which entries are NaN and the
/// value of every other entry depend on the argument bits alone.
#[verifier::external_body]
pub(crate) fn mat_mul(a: &Mat4Bits, b: &Mat4Bits) -> (r: Mat4Bits)
    ensures
        same_floats(r@, mat_mul_bits(a@, b@)),
{
    let ga = glam::Mat4::from_cols_array(&a.e.map(|v| bytemuck::cast(v)));
    let gb = glam::Mat4::from_cols_array(&b.e.map(|v| bytemuck::cast(v)));
    Mat4Bits { e: (ga * gb).to_cols_array().map(|v| v.to_bits()) }
}

/// Relies on `glam::Mat4::inverse`: a fixed formula of correctly rounded
/// basic operations, so which entries are NaN and the value of every other
/// entry depend on the argument bits alone. A singular matrix yields
/// non-finite entries, not a panic.
#[verifier::external_body]
pub(crate) fn mat_inverse(m: &Mat4Bits) -> (r: Mat4Bits)
    ensures
        same_floats(r@, mat_inverse_bits(m@)),
{
    let g = glam::Mat4::from_cols_array(&m.e.map(|v| bytemuck::cast(v)));
    Mat4Bits { e: g.inverse().to_cols_array().map(|v| v.to_bits()) }
}

/// Relies on `glam::Mat4::from_rotation_translation`: a fixed formula of
/// correctly rounded basic operations over the quaternion and translation,
/// related entry by entry away from NaN.
#[verifier::external_body]
pub(crate) fn mat_from_rotation_translation(q: QuatBits, t: Vec3Bits) -> (r: Mat4Bits)
    ensures
        same_floats(r@, rotation_translation_bits(q@, t@)),
{
    let gq = glam::Quat::from_xyzw(
        bytemuck::cast(q.x),
        bytemuck::cast(q.y),
        bytemuck::cast(q.z),
        bytemuck::cast(q.w),
    );
    let gt = glam::Vec3::new(bytemuck::cast(t.x), bytemuck::cast(t.y), bytemuck::cast(t.z));
    let g = glam::Mat4::from_rotation_translation(gq, gt);
    Mat4Bits { e: g.to_cols_array().map(|v| v.to_bits()) }
}

/// Relies on `glam::Mat4::mul_vec4`: a fixed sequence of correctly rounded
/// multiplications and additions, related entry by entry away from NaN.
#[verifier::external_body]
pub(crate) fn mat_mul_vec4(m: &Mat4Bits, v: Vec4Bits) -> (r: Vec4Bits)
    ensures
        same_floats(r@, mat_mul_vec4_bits(m@, v@)),
{
    let g = glam::Mat4::from_cols_array(&m.e.map(|x| bytemuck::cast(x)));
    let gv = glam::Vec4::new(
        bytemuck::cast(v.x),
        bytemuck::cast(v.y),
        bytemuck::cast(v.z),
        bytemuck::cast(v.w),
    );
    let a = (g * gv).to_array();
    Vec4Bits { x: a[0].to_bits(), y: a[1].to_bits(), z: a[2].to_bits(), w: a[3].to_bits() }
}

/// Relies on `glam::Quat::from_mat4`: a fixed branching formula of
/// correctly rounded basic operations and square roots over the matrix
/// entries, related entry by entry away from NaN.
#[verifier::external_body]
pub(crate) fn quat_from_mat4(m: &Mat4Bits) -> (r: QuatBits)
    ensures
        same_floats(r@, quat_from_mat_bits(m@)),
{
    let g = glam::Mat4::from_cols_array(&m.e.map(|x| bytemuck::cast(x)));
    let a = glam::Quat::from_mat4(&g).to_array();
    QuatBits { x: a[0].to_bits(), y: a[1].to_bits(), z: a[2].to_bits(), w: a[3].to_bits() }
}

} // verus!
