//! The orbit camera: eye, target and up with lens parameters, and the
//! key-driven controller that swings the eye around the target.
//!
//! Movement preserves the distance to the target: each intent perturbs the
//! eye-to-target direction by a scaled axis, renormalizes, and places the
//! eye back on the sphere of its starting radius. Forward and backward tilt
//! along the up axis and are ignored when the eye is within one step of the
//! target (so the eye never crosses it); right and left swing along the
//! right axis.
//!
//! Each tick's contract is a relation: the measured eye-to-target length is
//! bound existentially (it equals its named value whenever it is not NaN),
//! movement is allowed only when that length exceeds the step size, and the moved eye
//! matches the canonical tilted position wherever a coordinate is not NaN.
//! On a camera with a degenerate eye/target pair the non-finite values
//! propagate, exactly as the code computes them.

use vstd::prelude::*;

use crate::camera::Movement;
use crate::fbits::{
    div_bits, float_lt, flt, from_u32_bits, f_from_u32, is_nan_bits, same_float, sub_is_nan,
    div_is_nan,
};
use crate::mat::{
    look_to_bits, look_to_rh, mat_mul, mat_mul_bits, perspective_rh, perspective_shape,
    same_floats, Mat4Bits,
};
use crate::vec::{
    add3, add3_bits, agrees3_off_nan, cross3, cross3_bits, length3, length3_bits, normalize3,
    normalize3_bits, same_float3, scale3, scale3_bits, sub3, sub3_bits, Vec3Bits,
};

verus! {

/// The orbit camera: a position, the target it inspects, an up direction,
/// and the perspective parameters, all encoded single-precision values.
/// Callers keep `eye != target` and `up` off the viewing axis; a degenerate
/// pair propagates non-finite values rather than failing.
#[derive(Clone, Copy, Debug, PartialEq, Eq, Structural)]
pub struct OrbitCamera {
    pub eye: Vec3Bits,
    pub target: Vec3Bits,
    pub up: Vec3Bits,
    pub aspect: u32,
    pub fovy: u32,
    pub znear: u32,
    pub zfar: u32,
}

impl OrbitCamera {
    /// The view matrix: looking from the eye toward the target, which is
    /// looking along `target - eye`; the machine's difference vector is
    /// bound existentially, each stage pinned entrywise away from NaN.
    pub fn view_matrix(&self) -> (r: Mat4Bits)
        ensures
            exists|d: Vec3Bits|
                same_float3(d, sub3_bits(self.target, self.eye)) && same_floats(
                    r@,
                    look_to_bits(self.eye@, d@, self.up@),
                ),
    {
        let dir = sub3(self.target, self.eye);
        let r = look_to_rh(self.eye, dir, self.up);
        proof {
            assert(same_float3(dir, sub3_bits(self.target, self.eye)) && same_floats(
                r@,
                look_to_bits(self.eye@, dir@, self.up@),
            ));
        }
        r
    }

    /// The combined transform: the perspective projection times the view.
    pub fn build_view_projection_matrix(&self) -> (r: Mat4Bits)
        ensures
            exists|p: Mat4Bits, v: Mat4Bits, d: Vec3Bits|
                perspective_shape(p@, self.aspect, self.znear, self.zfar) && same_float3(
                    d,
                    sub3_bits(self.target, self.eye),
                ) && same_floats(v@, look_to_bits(self.eye@, d@, self.up@)) && same_floats(
                    r@,
                    mat_mul_bits(p@, v@),
                ),
    {
        let proj = perspective_rh(self.fovy, self.aspect, self.znear, self.zfar);
        let view = self.view_matrix();
        let r = mat_mul(&proj, &view);
        proof {
            let d = choose|d: Vec3Bits|
                same_float3(d, sub3_bits(self.target, self.eye)) && same_floats(
                    view@,
                    look_to_bits(self.eye@, d@, self.up@),
                );
            assert(perspective_shape(proj@, self.aspect, self.znear, self.zfar) && same_float3(
                d,
                sub3_bits(self.target, self.eye),
            ) && same_floats(view@, look_to_bits(self.eye@, d@, self.up@)) && same_floats(
                r@,
                mat_mul_bits(proj@, view@),
            ));
        }
        r
    }

    /// Track a window resize: only the aspect ratio follows the new size,
    /// and a resize with a zero side is ignored.
    pub fn resize(&mut self, width: u32, height: u32)
        ensures
            width > 0 && height > 0 ==> same_float(
                final(self).aspect,
                div_bits(from_u32_bits(width), from_u32_bits(height)),
            ) && is_nan_bits(final(self).aspect) == div_is_nan(
                from_u32_bits(width),
                from_u32_bits(height),
            ),
            !(width > 0 && height > 0) ==> *final(self) == *old(self),
            *final(self) == (OrbitCamera { aspect: final(self).aspect, ..*old(self) }),
    {
        if width > 0 && height > 0 {
            let w = f_from_u32(width);
            let h = f_from_u32(height);
            self.aspect = crate::fbits::fdiv(w, h);
        }
    }
}

/// The measured eye-to-target length of one tick: it equals its named value
/// whenever it is not NaN, and it is NaN whenever the difference vector
/// already has a NaN coordinate.
pub open spec fn orbit_mag_ok(mag: u32, cam: OrbitCamera) -> bool {
    &&& (!is_nan_bits(mag) ==> mag == length3_bits(sub3_bits(cam.target, cam.eye)))
    &&& (sub_is_nan(cam.target.x, cam.eye.x) || sub_is_nan(cam.target.y, cam.eye.y) || sub_is_nan(
        cam.target.z,
        cam.eye.z,
    ) ==> is_nan_bits(mag))
}

/// The canonical eye after one vertical orbit intent: the viewing direction
/// tilted by the up axis scaled by `speed` (added when `positive`),
/// renormalized, and the eye placed back at distance `mag` from the target.
pub open spec fn orbit_tilt_eye(cam: OrbitCamera, speed: u32, mag: u32, positive: bool) -> Vec3Bits {
    let fwd = sub3_bits(cam.target, cam.eye);
    let tilt = scale3_bits(cam.up, speed);
    let d = if positive {
        add3_bits(fwd, tilt)
    } else {
        sub3_bits(fwd, tilt)
    };
    sub3_bits(cam.target, scale3_bits(normalize3_bits(d), mag))
}

/// The canonical eye after one lateral orbit intent: as the vertical step,
/// but tilting along the right axis `cross(normalize(fwd), up)`.
pub open spec fn orbit_swing_eye(cam: OrbitCamera, speed: u32, mag: u32, positive: bool) -> Vec3Bits {
    let fwd = sub3_bits(cam.target, cam.eye);
    let right = cross3_bits(normalize3_bits(fwd), cam.up);
    let tilt = scale3_bits(right, speed);
    let d = if positive {
        add3_bits(fwd, tilt)
    } else {
        sub3_bits(fwd, tilt)
    };
    sub3_bits(cam.target, scale3_bits(normalize3_bits(d), mag))
}

/// One vertical orbit intent between two camera states: for the measured
/// length, the eye moves exactly when that length exceeds one step, onto
/// the canonical tilted position wherever a coordinate is not NaN; nothing
/// but the eye changes, and within one step of the target nothing at all
/// does.
pub open spec fn orbit_vertical_rel(
    pre: OrbitCamera,
    post: OrbitCamera,
    speed: u32,
    positive: bool,
) -> bool {
    exists|mag: u32|
        orbit_mag_ok(mag, pre) && if float_lt(speed, mag) {
            post == (OrbitCamera { eye: post.eye, ..pre }) && agrees3_off_nan(
                post.eye,
                orbit_tilt_eye(pre, speed, mag, positive),
            )
        } else {
            post == pre
        }
}

/// One lateral orbit intent between two camera states: never gated, since
/// lateral movement cannot cross the target; only the eye changes, onto
/// the canonical swung position wherever a coordinate is not NaN.
pub open spec fn orbit_lateral_rel(
    pre: OrbitCamera,
    post: OrbitCamera,
    speed: u32,
    positive: bool,
) -> bool {
    exists|mag: u32|
        orbit_mag_ok(mag, pre) && post == (OrbitCamera { eye: post.eye, ..pre })
            && agrees3_off_nan(post.eye, orbit_swing_eye(pre, speed, mag, positive))
}

/// One stage of a tick: when the intent is held the matching orbit
/// relation connects the two states; otherwise nothing happens.
pub open spec fn orbit_stage_rel(
    enabled: bool,
    vertical: bool,
    positive: bool,
    pre: OrbitCamera,
    post: OrbitCamera,
    speed: u32,
) -> bool {
    if enabled {
        if vertical {
            orbit_vertical_rel(pre, post, speed, positive)
        } else {
            orbit_lateral_rel(pre, post, speed, positive)
        }
    } else {
        post == pre
    }
}

/// One tick between two camera states: the pressed intents applied in the
/// fixed order forward, backward, right, left, each against the state the
/// previous one left.
pub open spec fn orbit_step_rel(
    c: OrbitCameraController,
    pre: OrbitCamera,
    post: OrbitCamera,
) -> bool {
    exists|s1: OrbitCamera, s2: OrbitCamera, s3: OrbitCamera|
        orbit_stage_rel(c.forward, true, true, pre, s1, c.speed) && orbit_stage_rel(
            c.backward,
            true,
            false,
            s1,
            s2,
            c.speed,
        ) && orbit_stage_rel(c.right, false, true, s2, s3, c.speed) && orbit_stage_rel(
            c.left,
            false,
            false,
            s3,
            post,
            c.speed,
        )
}

/// The orbit controller: one held/released flag per movement intent and the
/// step size of one tick.
#[derive(Clone, Copy, Debug, PartialEq, Eq, Structural)]
pub struct OrbitCameraController {
    pub speed: u32,
    pub forward: bool,
    pub backward: bool,
    pub left: bool,
    pub right: bool,
}

impl OrbitCameraController {
    /// A controller with no key held.
    pub fn new(speed: u32) -> (r: OrbitCameraController)
        ensures
            r == (OrbitCameraController {
                speed,
                forward: false,
                backward: false,
                left: false,
                right: false,
            }),
    {
        OrbitCameraController { speed, forward: false, backward: false, left: false, right: false }
    }

    /// Record the exact key state of one movement intent: pressed keys stay
    /// applied every tick until released.
    pub fn set_movement(&mut self, movement: Movement, pressed: bool)
        ensures
            *final(self) == (match movement {
                Movement::Forward => OrbitCameraController { forward: pressed, ..*old(self) },
                Movement::Backward => OrbitCameraController { backward: pressed, ..*old(self) },
                Movement::Left => OrbitCameraController { left: pressed, ..*old(self) },
                Movement::Right => OrbitCameraController { right: pressed, ..*old(self) },
            }),
    {
        match movement {
            Movement::Forward => self.forward = pressed,
            Movement::Backward => self.backward = pressed,
            Movement::Left => self.left = pressed,
            Movement::Right => self.right = pressed,
        }
    }

    /// One tick: apply every held intent to the camera, each preserving the
    /// eye's distance to the target by construction of the step. Nothing
    /// but the eye ever changes.
    pub fn update_camera(&self, camera: &mut OrbitCamera)
        ensures
            orbit_step_rel(*self, *old(camera), *final(camera)),
            final(camera).target == old(camera).target,
            final(camera).up == old(camera).up,
            final(camera).aspect == old(camera).aspect,
            final(camera).fovy == old(camera).fovy,
            final(camera).znear == old(camera).znear,
            final(camera).zfar == old(camera).zfar,
    {
        if self.forward {
            orbit_vertical(camera, self.speed, true);
        }
        let ghost s1 = *camera;
        if self.backward {
            orbit_vertical(camera, self.speed, false);
        }
        let ghost s2 = *camera;
        if self.right {
            orbit_lateral(camera, self.speed, true);
        }
        let ghost s3 = *camera;
        if self.left {
            orbit_lateral(camera, self.speed, false);
        }
        proof {
            assert(orbit_stage_rel(self.forward, true, true, *old(camera), s1, self.speed)
                && orbit_stage_rel(self.backward, true, false, s1, s2, self.speed)
                && orbit_stage_rel(self.right, false, true, s2, s3, self.speed)
                && orbit_stage_rel(self.left, false, false, s3, *camera, self.speed));
        }
    }
}

/// Orbiting relates cameras that differ at most in the eye: whatever
/// intents one tick applied, the target, the up direction and the lens
/// parameters come through unchanged.
pub proof fn lemma_orbit_moves_only_eye(
    c: OrbitCameraController,
    pre: OrbitCamera,
    post: OrbitCamera,
)
    requires
        orbit_step_rel(c, pre, post),
    ensures
        post.target == pre.target,
        post.up == pre.up,
        post.aspect == pre.aspect,
        post.fovy == pre.fovy,
        post.znear == pre.znear,
        post.zfar == pre.zfar,
{
}

/// One vertical orbit step, witnessing `orbit_vertical_rel` with the length
/// the machine measured.
fn orbit_vertical(camera: &mut OrbitCamera, speed: u32, positive: bool)
    ensures
        orbit_vertical_rel(*old(camera), *final(camera), speed, positive),
{
    let fwd = sub3(camera.target, camera.eye);
    let mag = length3(fwd);
    if flt(speed, mag) {
        let tilt = scale3(camera.up, speed);
        let d = if positive {
            add3(fwd, tilt)
        } else {
            sub3(fwd, tilt)
        };
        camera.eye = sub3(camera.target, scale3(normalize3(d), mag));
    }
    proof {
        assert(orbit_mag_ok(mag, *old(camera)) && if float_lt(speed, mag) {
            *camera == (OrbitCamera { eye: camera.eye, ..*old(camera) }) && agrees3_off_nan(
                camera.eye,
                orbit_tilt_eye(*old(camera), speed, mag, positive),
            )
        } else {
            *camera == *old(camera)
        });
    }
}

/// One lateral orbit step, witnessing `orbit_lateral_rel` with the length
/// the machine measured.
fn orbit_lateral(camera: &mut OrbitCamera, speed: u32, positive: bool)
    ensures
        orbit_lateral_rel(*old(camera), *final(camera), speed, positive),
{
    let fwd = sub3(camera.target, camera.eye);
    let mag = length3(fwd);
    let right = cross3(normalize3(fwd), camera.up);
    let tilt = scale3(right, speed);
    let d = if positive {
        add3(fwd, tilt)
    } else {
        sub3(fwd, tilt)
    };
    camera.eye = sub3(camera.target, scale3(normalize3(d), mag));
    proof {
        assert(orbit_mag_ok(mag, *old(camera)) && *camera == (OrbitCamera {
            eye: camera.eye,
            ..*old(camera)
        }) && agrees3_off_nan(camera.eye, orbit_swing_eye(*old(camera), speed, mag, positive)));
    }
}

} // verus!
