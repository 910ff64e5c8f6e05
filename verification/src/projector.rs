//! The projector model: a camera-like entity anchored by an explicit pose,
//! used to re-project calibrated imagery onto scene geometry, plus the axis
//! marker instance that visualizes a projector in the scene.
//!
//! A projector's canonical state is a world-to-camera view matrix. Every
//! constructor converges to that representation before storing, and the pose
//! accessors go through one centralized inversion, so the same convention is
//! applied on every path.

use vstd::prelude::*;

use crate::fbits::{
    div_bits, fatan, fdiv, fmul, fradians, lemma_lens_constants_finite, mul_bits, same_float,
    FIFTY_BITS, HALF_BITS, HUNDRED_BITS, NEG_ONE_BITS, NINE_BITS, ONE_BITS, SIXTEEN_BITS,
    TENTH_BITS, TWENTY_FOUR_BITS, TWO_BITS, ZERO_BITS,
};
use crate::mat::{
    cols_seq, identity_bits, look_to_bits, look_to_rh, mat_from_rotation_translation, mat_inverse,
    mat_inverse_bits, mat_mul, mat_mul_bits, mat_mul_vec4, mat_mul_vec4_bits, perspective_rh,
    perspective_shape, quat_from_mat4, quat_from_mat_bits, rotation_translation_bits, same_floats,
    to_cols, Mat4Bits,
};
use crate::vec::{agrees3_off_nan, normalize3_bits, z_axis_bits, QuatBits, Vec3Bits, Vec4Bits};

verus! {

/// A projector: a canonical world-to-camera view matrix and the lens
/// parameters of its perspective projection, all encoded single-precision
/// values.
#[derive(Clone, Copy, Debug)]
pub struct Projector {
    pub view: Mat4Bits,
    pub aspect: u32,
    pub fovy: u32,
    pub znear: u32,
    pub zfar: u32,
}

/// The backward world axis `(0, 0, -1)` as a weight-zero probe: taken
/// through a pose it yields the pose's forward direction, unbent by the
/// translation.
pub open spec fn back_axis_probe() -> Seq<u32> {
    seq![ZERO_BITS, ZERO_BITS, NEG_ONE_BITS, ZERO_BITS]
}

/// The origin as a weight-one probe: taken through a pose it yields the
/// pose's eye position.
pub open spec fn origin_probe() -> Seq<u32> {
    seq![ZERO_BITS, ZERO_BITS, ZERO_BITS, ONE_BITS]
}

impl Projector {
    /// A projector with the identity view and a lens-model field of view:
    /// the vertical angle of a 24mm sensor behind a 50mm focal length,
    /// `2 * atan((sensor / focal) / 2)`, at a 16:9 aspect ratio with near
    /// plane 0.1 and far plane 100. The aspect ratio of two finite nonzero
    /// constants is never NaN, so it is pinned exactly; the arctangent is
    /// evaluated by the platform, so the field of view is pinned only up
    /// to that call.
    pub fn new() -> (r: Projector)
        ensures
            r.view@ == identity_bits(),
            r.aspect == div_bits(SIXTEEN_BITS, NINE_BITS),
            r.znear == TENTH_BITS,
            r.zfar == HUNDRED_BITS,
            exists|a: u32| same_float(r.fovy, mul_bits(TWO_BITS, a)),
    {
        let ratio = fdiv(TWENTY_FOUR_BITS, FIFTY_BITS);
        let a = fatan(fmul(ratio, HALF_BITS));
        let fovy = fmul(TWO_BITS, a);
        let r = Projector {
            view: Mat4Bits::identity(),
            aspect: fdiv(SIXTEEN_BITS, NINE_BITS),
            fovy,
            znear: TENTH_BITS,
            zfar: HUNDRED_BITS,
        };
        proof {
            lemma_lens_constants_finite();
            assert(same_float(r.fovy, mul_bits(TWO_BITS, a)));
        }
        r
    }

    /// The same projector with the field of view replaced.
    pub fn with_fovy(self, fovy: u32) -> (r: Projector)
        ensures
            r == (Projector { fovy, ..self }),
    {
        let mut this = self;
        this.fovy = fovy;
        this
    }

    /// The same projector viewing from `eye` along the direction `target`
    /// with the given up direction, the stored view pinned entrywise away
    /// from NaN.
    pub fn with_eye_target_up(self, eye: Vec3Bits, target: Vec3Bits, up: Vec3Bits) -> (r:
        Projector)
        ensures
            same_floats(r.view@, look_to_bits(eye@, target@, up@)),
            r.aspect == self.aspect && r.fovy == self.fovy && r.znear == self.znear && r.zfar
                == self.zfar,
    {
        let mut this = self;
        this.view = look_to_rh(eye, target, up);
        this
    }

    /// The same projector posed by a rotation and a translation: the pose's
    /// forward direction is the backward axis taken through the pose as a
    /// weight-zero direction and then normalized, its eye position is the
    /// origin taken through the pose, and the stored view is re-derived by
    /// looking that way with the world Z axis up — so the canonical
    /// representation is reached on this path too. Each stage of the chain
    /// is pinned to its named value entrywise away from NaN, with the
    /// machine's intermediate values bound existentially.
    pub fn with_rotation_translation(self, rot: QuatBits, pos: Vec3Bits) -> (r: Projector)
        ensures
            exists|pose: Mat4Bits, f4: Vec4Bits, e4: Vec4Bits, fwd: Vec3Bits|
                same_floats(pose@, rotation_translation_bits(rot@, pos@)) && same_floats(
                    f4@,
                    mat_mul_vec4_bits(pose@, back_axis_probe()),
                ) && same_floats(e4@, mat_mul_vec4_bits(pose@, origin_probe())) && agrees3_off_nan(
                    fwd,
                    normalize3_bits(Vec3Bits { x: f4.x, y: f4.y, z: f4.z }),
                ) && same_floats(
                    r.view@,
                    look_to_bits(seq![e4.x, e4.y, e4.z], fwd@, z_axis_bits()@),
                ),
            r.aspect == self.aspect && r.fovy == self.fovy && r.znear == self.znear && r.zfar
                == self.zfar,
    {
        let pose = mat_from_rotation_translation(rot, pos);
        let f4 = mat_mul_vec4(
            &pose,
            Vec4Bits { x: ZERO_BITS, y: ZERO_BITS, z: NEG_ONE_BITS, w: ZERO_BITS },
        );
        let fwd = crate::vec::normalize3(Vec3Bits { x: f4.x, y: f4.y, z: f4.z });
        let e4 = mat_mul_vec4(
            &pose,
            Vec4Bits { x: ZERO_BITS, y: ZERO_BITS, z: ZERO_BITS, w: ONE_BITS },
        );
        let eye = Vec3Bits { x: e4.x, y: e4.y, z: e4.z };
        let mut this = self;
        this.view = look_to_rh(eye, fwd, Vec3Bits::z_axis());
        proof {
            assert((Vec4Bits { x: ZERO_BITS, y: ZERO_BITS, z: NEG_ONE_BITS, w: ZERO_BITS })@
                =~= back_axis_probe());
            assert((Vec4Bits { x: ZERO_BITS, y: ZERO_BITS, z: ZERO_BITS, w: ONE_BITS })@
                =~= origin_probe());
            assert(eye@ =~= seq![e4.x, e4.y, e4.z]);
            assert(same_floats(pose@, rotation_translation_bits(rot@, pos@)) && same_floats(
                f4@,
                mat_mul_vec4_bits(pose@, back_axis_probe()),
            ) && same_floats(e4@, mat_mul_vec4_bits(pose@, origin_probe())) && agrees3_off_nan(
                fwd,
                normalize3_bits(Vec3Bits { x: f4.x, y: f4.y, z: f4.z }),
            ) && same_floats(
                this.view@,
                look_to_bits(seq![e4.x, e4.y, e4.z], fwd@, z_axis_bits()@),
            ));
        }
        this
    }

    /// The same projector with a caller-supplied view matrix, already in the
    /// canonical world-to-camera form (pre-computed calibration data).
    pub fn with_view(self, view: Mat4Bits) -> (r: Projector)
        ensures
            r.view@ == view@,
            r.aspect == self.aspect && r.fovy == self.fovy && r.znear == self.znear && r.zfar
                == self.zfar,
    {
        let mut this = self;
        this.view = view;
        this
    }

    /// The camera-to-world pose of the projector: the one centralized
    /// inversion of the stored view, pinned entrywise away from NaN.
    pub fn pose(&self) -> (r: Mat4Bits)
        ensures
            same_floats(r@, mat_inverse_bits(self.view@)),
    {
        mat_inverse(&self.view)
    }

    /// The orientation of the pose, extracted for downstream consumers such
    /// as the axis-marker instance; the inverted view it reads is bound
    /// existentially, each stage pinned entrywise away from NaN.
    pub fn rotation(&self) -> (r: QuatBits)
        ensures
            exists|p: Mat4Bits|
                same_floats(p@, mat_inverse_bits(self.view@)) && same_floats(
                    r@,
                    quat_from_mat_bits(p@),
                ),
    {
        let p = self.pose();
        let r = quat_from_mat4(&p);
        proof {
            assert(same_floats(p@, mat_inverse_bits(self.view@)) && same_floats(
                r@,
                quat_from_mat_bits(p@),
            ));
        }
        r
    }

    /// The position of the pose: the translation column of the inverted
    /// view, each coordinate pinned away from NaN.
    pub fn position(&self) -> (r: Vec3Bits)
        ensures
            same_float(r.x, mat_inverse_bits(self.view@)[12]),
            same_float(r.y, mat_inverse_bits(self.view@)[13]),
            same_float(r.z, mat_inverse_bits(self.view@)[14]),
    {
        let p = self.pose();
        Vec3Bits { x: p.e[12], y: p.e[13], z: p.e[14] }
    }

    /// The combined transform the projector contributes: its perspective
    /// projection times the canonical view matrix, multiplying by the view
    /// directly as every path stores world-to-camera; pinned entrywise
    /// away from NaN.
    pub fn build_view_projection_matrix(&self) -> (r: Mat4Bits)
        ensures
            exists|p: Mat4Bits|
                perspective_shape(p@, self.aspect, self.znear, self.zfar) && same_floats(
                    r@,
                    mat_mul_bits(p@, self.view@),
                ),
    {
        let proj = perspective_rh(self.fovy, self.aspect, self.znear, self.zfar);
        let r = mat_mul(&proj, &self.view);
        proof {
            assert(perspective_shape(proj@, self.aspect, self.znear, self.zfar) && same_floats(
                r@,
                mat_mul_bits(proj@, self.view@),
            ));
        }
        r
    }
}

/// Euler angles in degrees, rotation order X then Y then Z, as calibration
/// data often records an orientation.
#[derive(Clone, Copy, Debug)]
pub struct EulerDegreesXYZ(pub [u32; 3]);

/// Relies on `glam::Quat::from_euler` with XYZ order. It evaluates sines and
/// cosines, whose precision is platform-dependent, so nothing is assumed
/// about the result.
#[verifier::external_body]
pub(crate) fn quat_from_euler_xyz(x: u32, y: u32, z: u32) -> QuatBits {
    let a = glam::Quat::from_euler(
        glam::EulerRot::XYZ,
        bytemuck::cast(x),
        bytemuck::cast(y),
        bytemuck::cast(z),
    )
        .to_array();
    QuatBits { x: a[0].to_bits(), y: a[1].to_bits(), z: a[2].to_bits(), w: a[3].to_bits() }
}

impl EulerDegreesXYZ {
    /// The rotation these angles denote, each first converted from degrees
    /// to radians. The trigonometry behind the conversion is the platform's,
    /// so the result is not pinned further.
    pub fn to_quat(&self) -> QuatBits {
        let x = fradians(self.0[0]);
        let y = fradians(self.0[1]);
        let z = fradians(self.0[2]);
        quat_from_euler_xyz(x, y, z)
    }
}

impl crate::camera::CameraUniform {
    /// The uniform computed once at setup for a static projector: its
    /// combined view-projection transform, flattened and pinned entrywise
    /// away from NaN.
    pub fn from_projector(p: &Projector) -> (r: crate::camera::CameraUniform)
        ensures
            exists|pm: Mat4Bits|
                perspective_shape(pm@, p.aspect, p.znear, p.zfar) && same_floats(
                    r.uniform_seq(),
                    mat_mul_bits(pm@, p.view@),
                ),
    {
        let m = p.build_view_projection_matrix();
        crate::camera::CameraUniform::from_matrix(&m)
    }
}

/// An axis-marker instance: one small gizmo per projector, placed at the
/// projector's pose.
#[derive(Clone, Copy, Debug)]
pub struct Instance {
    pub position: Vec3Bits,
    pub rotation: QuatBits,
}

/// The per-instance data handed to the instanced draw: a flat column-major
/// model transform.
#[derive(Clone, Copy, Debug)]
pub struct InstanceRaw {
    pub model: [[u32; 4]; 4],
}

impl InstanceRaw {
    /// The buffer layout of the per-instance transform: 64 bytes per
    /// instance stepped per instance, one four-float column into each of
    /// the shader slots 5 through 8.
    pub fn desc() -> (r: crate::model::VertexBufferLayout)
        ensures
            r.array_stride == 64,
            r.step_mode == crate::model::VertexStepMode::Instance,
            r.attributes@ == seq![
                crate::model::VertexAttribute {
                    offset: 0,
                    shader_location: 5,
                    format: crate::model::VertexFormat::Float32x4,
                },
                crate::model::VertexAttribute {
                    offset: 16,
                    shader_location: 6,
                    format: crate::model::VertexFormat::Float32x4,
                },
                crate::model::VertexAttribute {
                    offset: 32,
                    shader_location: 7,
                    format: crate::model::VertexFormat::Float32x4,
                },
                crate::model::VertexAttribute {
                    offset: 48,
                    shader_location: 8,
                    format: crate::model::VertexFormat::Float32x4,
                },
            ],
    {
        let attributes = vec![
            crate::model::VertexAttribute {
                offset: 0,
                shader_location: 5,
                format: crate::model::VertexFormat::Float32x4,
            },
            crate::model::VertexAttribute {
                offset: 16,
                shader_location: 6,
                format: crate::model::VertexFormat::Float32x4,
            },
            crate::model::VertexAttribute {
                offset: 32,
                shader_location: 7,
                format: crate::model::VertexFormat::Float32x4,
            },
            crate::model::VertexAttribute {
                offset: 48,
                shader_location: 8,
                format: crate::model::VertexFormat::Float32x4,
            },
        ];
        proof {
            assert(attributes@ =~= seq![
                crate::model::VertexAttribute {
                    offset: 0,
                    shader_location: 5,
                    format: crate::model::VertexFormat::Float32x4,
                },
                crate::model::VertexAttribute {
                    offset: 16,
                    shader_location: 6,
                    format: crate::model::VertexFormat::Float32x4,
                },
                crate::model::VertexAttribute {
                    offset: 32,
                    shader_location: 7,
                    format: crate::model::VertexFormat::Float32x4,
                },
                crate::model::VertexAttribute {
                    offset: 48,
                    shader_location: 8,
                    format: crate::model::VertexFormat::Float32x4,
                },
            ]);
        }
        crate::model::VertexBufferLayout {
            array_stride: 64,
            step_mode: crate::model::VertexStepMode::Instance,
            attributes,
        }
    }
}

impl Instance {
    /// The instance flattened for GPU consumption: the affine transform of
    /// its rotation and translation, column by column, pinned entrywise
    /// away from NaN.
    pub fn to_raw(&self) -> (r: InstanceRaw)
        ensures
            same_floats(cols_seq(r.model), rotation_translation_bits(self.rotation@, self.position@)),
    {
        let m = mat_from_rotation_translation(self.rotation, self.position);
        InstanceRaw { model: to_cols(&m) }
    }
}

} // verus!
