//! First-person camera and controller behavior, checked against the
//! linear-algebra crate computed independently.

use projcam::camera::{Camera, CameraController, Key, Projection, ScrollDelta};
use projcam::fbits::{FRAC_PI_2_BITS, ONE_BITS, ZERO_BITS};
use projcam::vec::Vec3Bits;

fn b(x: f32) -> u32 {
    x.to_bits()
}

fn f(x: u32) -> f32 {
    f32::from_bits(x)
}

fn v3(x: f32, y: f32, z: f32) -> Vec3Bits {
    Vec3Bits { x: b(x), y: b(y), z: b(z) }
}

#[test]
fn keyboard_sets_and_clears_axis_amounts() {
    let mut c = CameraController::new(b(1.0), b(1.0));
    assert!(c.process_keyboard(Key::KeyE, true));
    assert_eq!(c.forward, ONE_BITS);
    assert!(c.process_keyboard(Key::KeyE, false));
    assert_eq!(c.forward, ZERO_BITS);
    assert!(c.process_keyboard(Key::ArrowDown, true));
    assert_eq!(c.backward, ONE_BITS);
    assert!(c.process_keyboard(Key::KeyS, true));
    assert_eq!(c.left, ONE_BITS);
    assert!(c.process_keyboard(Key::ArrowRight, true));
    assert_eq!(c.right, ONE_BITS);
    assert!(!c.process_keyboard(Key::KeyX, true));
    assert!(!c.process_keyboard(Key::Other, true));
}

#[test]
fn mouse_deltas_are_negated_and_demoted() {
    let mut c = CameraController::new(b(1.0), b(1.0));
    c.process_mouse((2.5f64).to_bits(), (-0.75f64).to_bits());
    assert_eq!(c.rotate_h, b(-2.5));
    assert_eq!(c.rotate_v, b(0.75));
}

#[test]
fn scroll_lines_count_a_hundred_each() {
    let mut c = CameraController::new(b(1.0), b(1.0));
    c.process_scroll(&ScrollDelta::Lines(b(1.5)));
    assert_eq!(c.scroll, b(-150.0));
    c.process_scroll(&ScrollDelta::Pixels((12.5f64).to_bits()));
    assert_eq!(c.scroll, b(-12.5));
}

#[test]
fn forward_displacement_is_along_yaw_direction() {
    // A forward press and ten ticks: the horizontal displacement is
    // (cos yaw, sin yaw, 0) * speed * dt * 10 with no vertical drift.
    let mut c = CameraController::new(b(4.0), b(1.0));
    let mut cam = Camera::new(v3(0.0, 0.0, 0.0), b(0.0), b(0.0));
    assert!(c.process_keyboard(Key::KeyE, true));
    for _ in 0..10 {
        c.update_camera(&mut cam, b(0.25));
    }
    assert_eq!(f(cam.position.x), 4.0 * 0.25 * 10.0);
    assert_eq!(f(cam.position.y), 0.0);
    assert_eq!(f(cam.position.z), 0.0);
    assert_eq!(f(cam.yaw), 0.0);
    assert_eq!(f(cam.pitch), 0.0);
}

#[test]
fn pitch_stays_within_half_pi() {
    let pi_2 = std::f32::consts::FRAC_PI_2;
    let mut c = CameraController::new(b(1.0), b(1.0));
    let mut cam = Camera::new(v3(0.0, 0.0, 0.0), b(0.0), b(0.0));
    let deltas: [f64; 6] = [-10000.0, 3.0, -0.5, 12345.0, -99999.0, 0.125];
    for d in deltas {
        c.process_mouse(0f64.to_bits(), d.to_bits());
        c.update_camera(&mut cam, b(1.0));
        let p = f(cam.pitch);
        assert!(-pi_2 <= p && p <= pi_2, "pitch {} out of range", p);
    }
    // A huge upward delta lands exactly on the clamp bound.
    c.process_mouse(0f64.to_bits(), (-100000.0f64).to_bits());
    c.update_camera(&mut cam, b(1.0));
    assert_eq!(cam.pitch, FRAC_PI_2_BITS);
}

#[test]
fn deltas_are_single_use() {
    // After one update consumes the scroll and rotation deltas, a second
    // update with no new input moves nothing.
    let mut c = CameraController::new(b(2.0), b(1.5));
    let mut cam = Camera::new(v3(0.0, 0.0, 0.0), b(0.1), b(0.2));
    c.process_mouse((3.0f64).to_bits(), (-2.0f64).to_bits());
    c.process_scroll(&ScrollDelta::Lines(b(1.0)));
    c.update_camera(&mut cam, b(0.5));
    assert_eq!(c.scroll, ZERO_BITS);
    assert_eq!(c.rotate_h, ZERO_BITS);
    assert_eq!(c.rotate_v, ZERO_BITS);
    let frozen = cam;
    c.update_camera(&mut cam, b(0.5));
    assert_eq!(f(cam.position.x), f(frozen.position.x));
    assert_eq!(f(cam.position.y), f(frozen.position.y));
    assert_eq!(f(cam.position.z), f(frozen.position.z));
    assert_eq!(f(cam.yaw), f(frozen.yaw));
    assert_eq!(f(cam.pitch), f(frozen.pitch));
}

#[test]
fn step_with_fixed_trig_moves_along_the_given_axes() {
    // With the trigonometric values pinned to a quarter-turn yaw, one step
    // moves exactly along +Y.
    let mut c = CameraController::new(b(2.0), b(1.0));
    let mut cam = Camera::new(v3(0.0, 0.0, 0.0), b(0.0), b(0.0));
    assert!(c.process_keyboard(Key::ArrowUp, true));
    c.step_with_trig(&mut cam, b(0.5), b(1.0), b(0.0), b(0.0), b(1.0));
    assert_eq!(f(cam.position.x), 0.0);
    assert_eq!(f(cam.position.y), 2.0 * 0.5);
    assert_eq!(f(cam.position.z), 0.0);
}

#[test]
fn camera_matrix_matches_reference() {
    let cam = Camera::new(v3(1.0, 2.0, 3.0), b(0.3), b(0.7));
    let m = cam.matrix();
    let (sp, cp) = 0.3f32.sin_cos();
    let (sy, cy) = 0.7f32.sin_cos();
    let dir = glam::Vec3::new(cp * cy, cp * sy, sp);
    let expected = glam::Mat4::look_to_rh(glam::Vec3::new(1.0, 2.0, 3.0), dir, glam::Vec3::Z);
    let got: Vec<f32> = m.e.iter().map(|v| f32::from_bits(*v)).collect();
    let want = expected.to_cols_array();
    for i in 0..16 {
        assert_eq!(got[i], want[i], "entry {}", i);
    }
}

#[test]
fn projection_matrix_matches_reference() {
    let p = Projection::new(1280, 720, b(0.8), b(0.1), b(100.0));
    assert_eq!(f(p.aspect), 1280.0f32 / 720.0);
    let m = p.matrix();
    let expected = glam::Mat4::perspective_rh(0.8, 1280.0 / 720.0, 0.1, 100.0).to_cols_array();
    for i in 0..16 {
        assert_eq!(f(m.e[i]), expected[i], "entry {}", i);
    }
}

#[test]
fn projection_resize_ignores_zero_sides() {
    let mut p = Projection::new(1920, 1080, b(0.8), b(0.1), b(100.0));
    let before = p.aspect;
    p.resize(0, 600);
    assert_eq!(p.aspect, before);
    p.resize(800, 0);
    assert_eq!(p.aspect, before);
    p.resize(1280, 720);
    assert_eq!(f(p.aspect), 1280.0f32 / 720.0);
}
