//! The first-person camera: position with pitch and yaw, a separate
//! perspective projection, the input-driven controller that integrates key,
//! mouse and scroll intent each tick, and the flat uniform written to the
//! GPU.
//!
//! All scalars are encoded single-precision values (`fbits`). Every step of
//! the controller except the two trigonometric evaluations is specified
//! exactly; the trigonometric results enter the contracts as existentially
//! bound values, and `step_with_trig` gives the exact contract once they are
//! fixed.

use vstd::prelude::*;

use crate::fbits::{
    add_bits, clamp_bits, demote_bits, demote_is_nan, div_bits, div_is_nan, fadd, fclamp,
    fdemote, fmul, fneg, fsincos, fsub, f_from_u32, from_u32_bits, is_nan_bits, float_le,
    lemma_neg_keeps_nan, mul_bits, mul_is_nan, neg_bits, same_float, sub_bits, FRAC_PI_2_BITS,
    HUNDRED_BITS, NEG_FRAC_PI_2_BITS, ONE_BITS, ZERO_BITS,
};
use crate::mat::{
    identity_bits, look_to_bits, look_to_rh, mat_mul, mat_mul_bits, perspective_rh,
    perspective_shape, same_floats, Mat4Bits,
};
use crate::vec::{
    add3_bits, agrees3_off_nan, normalize3_bits, same_float3, scale3_bits, z_axis_bits, Vec3Bits,
};

verus! {

/// An abstract movement intent, one per horizontal direction.
#[derive(Clone, Copy, Debug, PartialEq, Eq, Structural)]
pub enum Movement {
    Forward,
    Left,
    Backward,
    Right,
}

/// A physical key the viewer reacts to. The window layer translates the
/// window library's key codes into these before they reach the controller.
#[derive(Clone, Copy, Debug, PartialEq, Eq, Structural)]
pub enum Key {
    KeyE,
    KeyD,
    KeyS,
    KeyF,
    KeyX,
    Escape,
    ArrowUp,
    ArrowDown,
    ArrowLeft,
    ArrowRight,
    Other,
}

/// A scroll step: a line count or a pixel offset. Lines carry the encoded
/// single-precision line delta; pixels carry the encoded double-precision
/// vertical offset.
#[derive(Clone, Copy, Debug, PartialEq, Eq, Structural)]
pub enum ScrollDelta {
    Lines(u32),
    Pixels(u64),
}

/// The perspective projection: aspect ratio, vertical field of view and the
/// near and far planes, each an encoded single-precision value.
#[derive(Clone, Copy, Debug, PartialEq, Eq, Structural)]
pub struct Projection {
    pub aspect: u32,
    pub fovy: u32,
    pub znear: u32,
    pub zfar: u32,
}

impl Projection {
    /// A projection for a surface of the given pixel size. The aspect ratio
    /// is the width over the height; it is NaN exactly for a zero-by-zero
    /// surface, where the quotient is zero over zero.
    pub fn new(width: u32, height: u32, fovy: u32, znear: u32, zfar: u32) -> (r: Projection)
        ensures
            same_float(r.aspect, div_bits(from_u32_bits(width), from_u32_bits(height))),
            is_nan_bits(r.aspect) == div_is_nan(from_u32_bits(width), from_u32_bits(height)),
            r.fovy == fovy && r.znear == znear && r.zfar == zfar,
    {
        Projection { aspect: fdiv_of_ints(width, height), fovy, znear, zfar }
    }

    /// Track a window resize: the aspect ratio follows the new size, and a
    /// resize with a zero side is ignored. Nothing else changes.
    pub fn resize(&mut self, width: u32, height: u32)
        ensures
            width > 0 && height > 0 ==> same_float(
                final(self).aspect,
                div_bits(from_u32_bits(width), from_u32_bits(height)),
            ) && is_nan_bits(final(self).aspect) == div_is_nan(
                from_u32_bits(width),
                from_u32_bits(height),
            ),
            !(width > 0 && height > 0) ==> *final(self) == *old(self),
            final(self).fovy == old(self).fovy,
            final(self).znear == old(self).znear,
            final(self).zfar == old(self).zfar,
    {
        if width > 0 && height > 0 {
            self.aspect = fdiv_of_ints(width, height);
        }
    }

    /// The projection matrix.
    pub fn matrix(&self) -> (r: Mat4Bits)
        ensures
            perspective_shape(r@, self.aspect, self.znear, self.zfar),
    {
        perspective_rh(self.fovy, self.aspect, self.znear, self.zfar)
    }
}

/// The quotient of two window-size integers as an encoded value: exact
/// away from NaN, and NaN exactly for zero over zero (the casts are always
/// finite).
fn fdiv_of_ints(width: u32, height: u32) -> (r: u32)
    ensures
        same_float(r, div_bits(from_u32_bits(width), from_u32_bits(height))),
        is_nan_bits(r) == div_is_nan(from_u32_bits(width), from_u32_bits(height)),
{
    let w = f_from_u32(width);
    let h = f_from_u32(height);
    crate::fbits::fdiv(w, h)
}

/// The first-person camera: a position and a view direction given by pitch
/// and yaw in radians, all encoded single-precision values. The up direction
/// is the fixed world Z axis.
#[derive(Clone, Copy, Debug, PartialEq, Eq, Structural)]
pub struct Camera {
    pub position: Vec3Bits,
    pub pitch: u32,
    pub yaw: u32,
}

/// The view direction derived from the sines and cosines of pitch and yaw:
/// the spherical-to-Cartesian conversion `(cos p * cos y, cos p * sin y,
/// sin p)`.
pub open spec fn fp_direction_bits(sp: u32, cp: u32, sy: u32, cy: u32) -> Vec3Bits {
    Vec3Bits { x: mul_bits(cp, cy), y: mul_bits(cp, sy), z: sp }
}

impl Camera {
    pub fn new(position: Vec3Bits, pitch: u32, yaw: u32) -> (r: Camera)
        ensures
            r == (Camera { position, pitch, yaw }),
    {
        Camera { position, pitch, yaw }
    }

    /// The view matrix for a fixed direction: looking along `dir` from the
    /// camera position with the world Z axis up, pinned entrywise away
    /// from NaN.
    pub fn view_with_direction(&self, dir: Vec3Bits) -> (r: Mat4Bits)
        ensures
            same_floats(r@, look_to_bits(self.position@, dir@, z_axis_bits()@)),
    {
        look_to_rh(self.position, dir, crate::vec::Vec3Bits::z_axis())
    }

    /// The view matrix: looking along the pitch/yaw direction from the
    /// camera position with the world Z axis up. The direction is derived
    /// through the platform's trigonometry, so it is bound existentially.
    pub fn matrix(&self) -> (r: Mat4Bits)
        ensures
            exists|sp: u32, cp: u32, sy: u32, cy: u32, d: Vec3Bits|
                same_float3(d, fp_direction_bits(sp, cp, sy, cy)) && same_floats(
                    r@,
                    look_to_bits(self.position@, d@, z_axis_bits()@),
                ),
    {
        let (sp, cp) = fsincos(self.pitch);
        let (sy, cy) = fsincos(self.yaw);
        let dir = Vec3Bits { x: fmul(cp, cy), y: fmul(cp, sy), z: sp };
        let r = self.view_with_direction(dir);
        proof {
            assert(same_float3(dir, fp_direction_bits(sp, cp, sy, cy)) && same_floats(
                r@,
                look_to_bits(self.position@, dir@, z_axis_bits()@),
            ));
        }
        r
    }
}

/// The input state the controller accumulates between ticks: one amount per
/// movement axis (0.0 or 1.0 from keys), the per-frame rotation and scroll
/// deltas, and the speed and sensitivity configuration. All encoded
/// single-precision values.
#[derive(Clone, Copy, Debug, PartialEq, Eq, Structural)]
pub struct CameraController {
    pub left: u32,
    pub right: u32,
    pub forward: u32,
    pub backward: u32,
    pub up: u32,
    pub down: u32,
    pub rotate_h: u32,
    pub rotate_v: u32,
    pub scroll: u32,
    pub speed: u32,
    pub sensitivity: u32,
}

/// The controller after a key event: the matching axis amount becomes 1.0 on
/// press and 0.0 on release; other keys change nothing.
pub open spec fn keyboard_spec(c: CameraController, key: Key, pressed: bool) -> CameraController {
    let amount = if pressed { ONE_BITS } else { ZERO_BITS };
    match key {
        Key::KeyE | Key::ArrowUp => CameraController { forward: amount, ..c },
        Key::KeyD | Key::ArrowDown => CameraController { backward: amount, ..c },
        Key::KeyS | Key::ArrowLeft => CameraController { left: amount, ..c },
        Key::KeyF | Key::ArrowRight => CameraController { right: amount, ..c },
        _ => c,
    }
}

/// Whether a key drives one of the movement axes.
pub open spec fn keyboard_handled(key: Key) -> bool {
    match key {
        Key::KeyE | Key::ArrowUp => true,
        Key::KeyD | Key::ArrowDown => true,
        Key::KeyS | Key::ArrowLeft => true,
        Key::KeyF | Key::ArrowRight => true,
        _ => false,
    }
}

/// The scroll amount an event contributes before the sign flip: line deltas
/// scaled by 100, pixel deltas rounded to single precision.
pub open spec fn scroll_amount_bits(delta: ScrollDelta) -> u32 {
    match delta {
        ScrollDelta::Lines(s) => mul_bits(s, HUNDRED_BITS),
        ScrollDelta::Pixels(y) => demote_bits(y),
    }
}

/// When the scroll amount is a NaN: exactly for a NaN event value.
pub open spec fn scroll_is_nan(delta: ScrollDelta) -> bool {
    match delta {
        ScrollDelta::Lines(s) => mul_is_nan(s, HUNDRED_BITS),
        ScrollDelta::Pixels(y) => demote_is_nan(y),
    }
}

/// The camera position after one tick, given the sines and cosines of the
/// starting yaw and pitch: move in the horizontal plane along the yaw-only
/// forward and right axes, dolly along the full view direction by the
/// accumulated scroll, then translate vertically on the world axis. Each
/// product is taken in the order the tick evaluates it.
pub open spec fn fp_step_position(
    pos: Vec3Bits,
    sy: u32,
    cy: u32,
    sp: u32,
    cp: u32,
    c: CameraController,
    dt: u32,
) -> Vec3Bits {
    let forward = normalize3_bits(Vec3Bits { x: cy, y: sy, z: ZERO_BITS });
    let right = normalize3_bits(Vec3Bits { x: neg_bits(sy), y: cy, z: ZERO_BITS });
    let p1 = add3_bits(
        pos,
        scale3_bits(
            scale3_bits(scale3_bits(forward, sub_bits(c.forward, c.backward)), c.speed),
            dt,
        ),
    );
    let p2 = add3_bits(
        p1,
        scale3_bits(scale3_bits(scale3_bits(right, sub_bits(c.right, c.left)), c.speed), dt),
    );
    let scrollward = normalize3_bits(fp_direction_bits(sp, cp, sy, cy));
    let p3 = add3_bits(
        p2,
        scale3_bits(
            scale3_bits(
                scale3_bits(scale3_bits(scrollward, c.scroll), c.speed),
                c.sensitivity,
            ),
            dt,
        ),
    );
    Vec3Bits {
        z: add_bits(p3.z, mul_bits(mul_bits(sub_bits(c.up, c.down), c.speed), dt)),
        ..p3
    }
}

/// The yaw after one tick: the horizontal rotation delta scaled by
/// sensitivity and elapsed time.
pub open spec fn fp_step_yaw(yaw: u32, c: CameraController, dt: u32) -> u32 {
    add_bits(yaw, mul_bits(mul_bits(c.rotate_h, c.sensitivity), dt))
}

/// The pitch after one tick: the vertical rotation delta scaled by
/// sensitivity and elapsed time, then clamped to [-pi/2, pi/2].
pub open spec fn fp_step_pitch(pitch: u32, c: CameraController, dt: u32) -> u32 {
    clamp_bits(
        add_bits(pitch, mul_bits(mul_bits(c.rotate_v, c.sensitivity), dt)),
        NEG_FRAC_PI_2_BITS,
        FRAC_PI_2_BITS,
    )
}

/// The controller with its per-frame deltas consumed.
pub open spec fn deltas_consumed(c: CameraController) -> CameraController {
    CameraController { scroll: ZERO_BITS, rotate_h: ZERO_BITS, rotate_v: ZERO_BITS, ..c }
}

impl CameraController {
    /// A controller with no accumulated intent.
    pub fn new(speed: u32, sensitivity: u32) -> (r: CameraController)
        ensures
            r == (CameraController {
                left: ZERO_BITS,
                right: ZERO_BITS,
                forward: ZERO_BITS,
                backward: ZERO_BITS,
                up: ZERO_BITS,
                down: ZERO_BITS,
                rotate_h: ZERO_BITS,
                rotate_v: ZERO_BITS,
                scroll: ZERO_BITS,
                speed,
                sensitivity,
            }),
    {
        CameraController {
            left: ZERO_BITS,
            right: ZERO_BITS,
            forward: ZERO_BITS,
            backward: ZERO_BITS,
            up: ZERO_BITS,
            down: ZERO_BITS,
            rotate_h: ZERO_BITS,
            rotate_v: ZERO_BITS,
            scroll: ZERO_BITS,
            speed,
            sensitivity,
        }
    }

    /// Record a key press or release. Key state is absolute: a held key
    /// keeps its axis at 1.0 until released. Returns whether the key was
    /// one the controller reacts to.
    pub fn process_keyboard(&mut self, key: Key, pressed: bool) -> (r: bool)
        ensures
            *final(self) == keyboard_spec(*old(self), key, pressed),
            r == keyboard_handled(key),
    {
        let amount = if pressed { ONE_BITS } else { ZERO_BITS };
        match key {
            Key::KeyE | Key::ArrowUp => {
                self.forward = amount;
                true
            }
            Key::KeyD | Key::ArrowDown => {
                self.backward = amount;
                true
            }
            Key::KeyS | Key::ArrowLeft => {
                self.left = amount;
                true
            }
            Key::KeyF | Key::ArrowRight => {
                self.right = amount;
                true
            }
            _ => false,
        }
    }

    /// Record a mouse motion: the rotation deltas are the negated motion,
    /// demoted to single precision — NaN exactly for a NaN delta, exact
    /// otherwise. The arguments carry the encoded double-precision deltas;
    /// nothing else changes.
    pub fn process_mouse(&mut self, mouse_dx: u64, mouse_dy: u64)
        ensures
            same_float(final(self).rotate_h, neg_bits(demote_bits(mouse_dx))),
            is_nan_bits(final(self).rotate_h) == demote_is_nan(mouse_dx),
            same_float(final(self).rotate_v, neg_bits(demote_bits(mouse_dy))),
            is_nan_bits(final(self).rotate_v) == demote_is_nan(mouse_dy),
            *final(self) == (CameraController {
                rotate_h: final(self).rotate_h,
                rotate_v: final(self).rotate_v,
                ..*old(self)
            }),
    {
        let dx = fdemote(mouse_dx);
        let dy = fdemote(mouse_dy);
        self.rotate_h = fneg(dx);
        self.rotate_v = fneg(dy);
        proof {
            lemma_neg_keeps_nan(dx);
            lemma_neg_keeps_nan(demote_bits(mouse_dx));
            lemma_neg_keeps_nan(dy);
            lemma_neg_keeps_nan(demote_bits(mouse_dy));
        }
    }

    /// Record a scroll event: the accumulated scroll becomes the negated
    /// amount of this event, line deltas counting 100 each — NaN exactly
    /// for a NaN event value, exact otherwise. Nothing else changes.
    pub fn process_scroll(&mut self, delta: &ScrollDelta)
        ensures
            same_float(final(self).scroll, neg_bits(scroll_amount_bits(*delta))),
            is_nan_bits(final(self).scroll) == scroll_is_nan(*delta),
            *final(self) == (CameraController { scroll: final(self).scroll, ..*old(self) }),
    {
        self.scroll = match delta {
            ScrollDelta::Lines(s) => {
                let m = fmul(*s, HUNDRED_BITS);
                proof {
                    lemma_neg_keeps_nan(m);
                    lemma_neg_keeps_nan(mul_bits(*s, HUNDRED_BITS));
                }
                fneg(m)
            },
            ScrollDelta::Pixels(y) => {
                let m = fdemote(*y);
                proof {
                    lemma_neg_keeps_nan(m);
                    lemma_neg_keeps_nan(demote_bits(*y));
                }
                fneg(m)
            },
        };
    }

    /// One tick with the trigonometric values of the starting yaw and pitch
    /// fixed as arguments: the contract of the integration step, exact
    /// wherever a result is not NaN (a NaN keeps the machine's payload).
    /// `sy`/`cy` are sine and cosine of the yaw, `sp`/`cp` of the pitch.
    pub fn step_with_trig(
        &mut self,
        camera: &mut Camera,
        dt: u32,
        sy: u32,
        cy: u32,
        sp: u32,
        cp: u32,
    )
        ensures
            *final(self) == deltas_consumed(*old(self)),
            agrees3_off_nan(
                final(camera).position,
                fp_step_position(old(camera).position, sy, cy, sp, cp, *old(self), dt),
            ),
            !is_nan_bits(final(camera).yaw) ==> final(camera).yaw == fp_step_yaw(
                old(camera).yaw,
                *old(self),
                dt,
            ),
            !is_nan_bits(final(camera).pitch) ==> final(camera).pitch == fp_step_pitch(
                old(camera).pitch,
                *old(self),
                dt,
            ),
    {
        let forward = crate::vec::normalize3(Vec3Bits { x: cy, y: sy, z: ZERO_BITS });
        let right = crate::vec::normalize3(Vec3Bits { x: fneg(sy), y: cy, z: ZERO_BITS });
        let d1 = crate::vec::scale3(
            crate::vec::scale3(
                crate::vec::scale3(forward, fsub(self.forward, self.backward)),
                self.speed,
            ),
            dt,
        );
        camera.position = crate::vec::add3(camera.position, d1);
        let d2 = crate::vec::scale3(
            crate::vec::scale3(crate::vec::scale3(right, fsub(self.right, self.left)), self.speed),
            dt,
        );
        camera.position = crate::vec::add3(camera.position, d2);

        let scrollward = crate::vec::normalize3(Vec3Bits {
            x: fmul(cp, cy),
            y: fmul(cp, sy),
            z: sp,
        });
        let d3 = crate::vec::scale3(
            crate::vec::scale3(
                crate::vec::scale3(crate::vec::scale3(scrollward, self.scroll), self.speed),
                self.sensitivity,
            ),
            dt,
        );
        camera.position = crate::vec::add3(camera.position, d3);
        self.scroll = ZERO_BITS;

        let dz = fmul(fmul(fsub(self.up, self.down), self.speed), dt);
        camera.position = Vec3Bits { z: fadd(camera.position.z, dz), ..camera.position };

        camera.yaw = fadd(camera.yaw, fmul(fmul(self.rotate_h, self.sensitivity), dt));
        self.rotate_h = ZERO_BITS;
        camera.pitch = fadd(camera.pitch, fmul(fmul(self.rotate_v, self.sensitivity), dt));
        self.rotate_v = ZERO_BITS;

        camera.pitch = fclamp(camera.pitch, NEG_FRAC_PI_2_BITS, FRAC_PI_2_BITS);
    }

    /// One frame tick: integrate the accumulated intent into the camera over
    /// the elapsed seconds `dt` (an encoded single-precision value). The
    /// per-frame deltas are consumed; the yaw and pitch updates are exact
    /// away from NaN, with the pitch clamped to [-pi/2, pi/2]; and the
    /// position follows the integration step for the platform's
    /// trigonometric values of the starting yaw and pitch, again wherever
    /// a coordinate is not NaN.
    pub fn update_camera(&mut self, camera: &mut Camera, dt: u32)
        ensures
            *final(self) == deltas_consumed(*old(self)),
            !is_nan_bits(final(camera).yaw) ==> final(camera).yaw == fp_step_yaw(
                old(camera).yaw,
                *old(self),
                dt,
            ),
            !is_nan_bits(final(camera).pitch) ==> final(camera).pitch == fp_step_pitch(
                old(camera).pitch,
                *old(self),
                dt,
            ),
            exists|sy: u32, cy: u32, sp: u32, cp: u32|
                agrees3_off_nan(
                    final(camera).position,
                    fp_step_position(old(camera).position, sy, cy, sp, cp, *old(self), dt),
                ),
    {
        let (sy, cy) = fsincos(camera.yaw);
        let (sp, cp) = fsincos(camera.pitch);
        self.step_with_trig(camera, dt, sy, cy, sp, cp);
        proof {
            assert(agrees3_off_nan(
                final(camera).position,
                fp_step_position(old(camera).position, sy, cy, sp, cp, *old(self), dt),
            ));
        }
    }
}

/// The flat, column-major 4x4 matrix handed to the GPU: the one
/// representation of a combined view-projection transform that shaders read.
#[derive(Clone, Copy, Debug)]
pub struct CameraUniform {
    pub view_proj: [[u32; 4]; 4],
}

impl CameraUniform {
    /// The sixteen entries in column-major order.
    pub open spec fn uniform_seq(self) -> Seq<u32> {
        crate::mat::cols_seq(self.view_proj)
    }

    /// A matrix flattened into the uniform layout, column by column.
    pub fn from_matrix(m: &Mat4Bits) -> (r: CameraUniform)
        ensures
            r.uniform_seq() == m@,
    {
        CameraUniform { view_proj: crate::mat::to_cols(m) }
    }

    /// The uniform for an explicit view and projection pair: the flattened
    /// product `projection * view`, pinned entrywise away from NaN.
    pub fn new(view_matrix: Mat4Bits, proj_matrix: Mat4Bits) -> (r: CameraUniform)
        ensures
            same_floats(r.uniform_seq(), mat_mul_bits(proj_matrix@, view_matrix@)),
    {
        let m = mat_mul(&proj_matrix, &view_matrix);
        Self::from_matrix(&m)
    }

    /// Refresh the uniform from the active camera and projection: the
    /// flattened product of the projection matrix and the camera's view
    /// matrix, for the platform's trigonometric values of pitch and yaw,
    /// each stage pinned entrywise away from NaN.
    pub fn update_view_proj(&mut self, camera: &Camera, projection: &Projection)
        ensures
            exists|p: Mat4Bits, v: Mat4Bits, d: Vec3Bits, sp: u32, cp: u32, sy: u32, cy: u32|
                perspective_shape(p@, projection.aspect, projection.znear, projection.zfar)
                    && same_float3(d, fp_direction_bits(sp, cp, sy, cy)) && same_floats(
                    v@,
                    look_to_bits(camera.position@, d@, z_axis_bits()@),
                ) && same_floats(final(self).uniform_seq(), mat_mul_bits(p@, v@)),
    {
        let pm = projection.matrix();
        let vm = camera.matrix();
        let m = mat_mul(&pm, &vm);
        let u = Self::from_matrix(&m);
        self.view_proj = u.view_proj;
        proof {
            let (sp, cp, sy, cy, d) = choose|sp: u32, cp: u32, sy: u32, cy: u32, d: Vec3Bits|
                same_float3(d, fp_direction_bits(sp, cp, sy, cy)) && same_floats(
                    vm@,
                    look_to_bits(camera.position@, d@, z_axis_bits()@),
                );
            assert(perspective_shape(pm@, projection.aspect, projection.znear, projection.zfar)
                && same_float3(d, fp_direction_bits(sp, cp, sy, cy)) && same_floats(
                vm@,
                look_to_bits(camera.position@, d@, z_axis_bits()@),
            ) && same_floats(final(self).uniform_seq(), mat_mul_bits(pm@, vm@)));
        }
    }
}

impl Default for CameraUniform {
    /// The identity transform, the uniform's state before the first frame.
    fn default() -> (r: CameraUniform)
        ensures
            r.uniform_seq() == identity_bits(),
    {
        let m = Mat4Bits::identity();
        CameraUniform::from_matrix(&m)
    }
}

/// Key events never create per-frame deltas and never touch the
/// configuration: only the four movement amounts can change.
pub proof fn lemma_keyboard_touches_only_movement(c: CameraController, key: Key, pressed: bool)
    ensures
        keyboard_spec(c, key, pressed).up == c.up,
        keyboard_spec(c, key, pressed).down == c.down,
        keyboard_spec(c, key, pressed).rotate_h == c.rotate_h,
        keyboard_spec(c, key, pressed).rotate_v == c.rotate_v,
        keyboard_spec(c, key, pressed).scroll == c.scroll,
        keyboard_spec(c, key, pressed).speed == c.speed,
        keyboard_spec(c, key, pressed).sensitivity == c.sensitivity,
{
}

/// The per-frame deltas are single-use: consuming them is idempotent, so a
/// tick that starts from a consumed controller has no deltas left to apply.
pub proof fn lemma_deltas_single_use(c: CameraController)
    ensures
        deltas_consumed(deltas_consumed(c)) == deltas_consumed(c),
{
}

/// The pitch clamp keeps every value it returns within [-pi/2, pi/2],
/// whatever deltas the tick integrated, unless the integration itself
/// produced a NaN (which the clamp passes through).
pub proof fn lemma_pitch_within_limits(pitch: u32, c: CameraController, dt: u32)
    ensures
        !is_nan_bits(fp_step_pitch(pitch, c, dt)) ==> float_le(
            NEG_FRAC_PI_2_BITS,
            fp_step_pitch(pitch, c, dt),
        ) && float_le(fp_step_pitch(pitch, c, dt), FRAC_PI_2_BITS),
{
    let q = add_bits(pitch, mul_bits(mul_bits(c.rotate_v, c.sensitivity), dt));
    crate::fbits::lemma_pi2_bounds_wf();
    crate::fbits::lemma_clamp_within(q, NEG_FRAC_PI_2_BITS, FRAC_PI_2_BITS);
}

} // verus!
