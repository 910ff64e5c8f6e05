//! Orbit camera: the radius-preserving movement and the end-to-end matrix
//! scenario, checked against the linear-algebra crate.

use projcam::camera::Movement;
use projcam::orbit::{OrbitCamera, OrbitCameraController};
use projcam::vec::Vec3Bits;

fn b(x: f32) -> u32 {
    x.to_bits()
}

fn f(x: u32) -> f32 {
    f32::from_bits(x)
}

fn v3(x: f32, y: f32, z: f32) -> Vec3Bits {
    Vec3Bits { x: b(x), y: b(y), z: b(z) }
}

fn gv(v: Vec3Bits) -> glam::Vec3 {
    glam::Vec3::new(f(v.x), f(v.y), f(v.z))
}

fn test_camera() -> OrbitCamera {
    let fovy = 2.0 * ((24.0f32 / 50.0) * 0.5).atan();
    OrbitCamera {
        eye: v3(0.0, -64.0, 0.0),
        target: v3(0.0, 0.0, 0.0),
        up: v3(0.0, 0.0, 1.0),
        aspect: b(16.0 / 9.0),
        fovy: b(fovy),
        znear: b(0.1),
        zfar: b(100.0),
    }
}

#[test]
fn view_projection_matches_reference() {
    // The end-to-end scenario: the combined matrix equals
    // perspective * look-at computed independently.
    let cam = test_camera();
    let m = cam.build_view_projection_matrix();
    let fovy = 2.0 * ((24.0f32 / 50.0) * 0.5).atan();
    let expected = glam::Mat4::perspective_rh(fovy, 16.0 / 9.0, 0.1, 100.0)
        * glam::Mat4::look_at_rh(
            glam::Vec3::new(0.0, -64.0, 0.0),
            glam::Vec3::ZERO,
            glam::Vec3::Z,
        );
    let want = expected.to_cols_array();
    for i in 0..16 {
        assert_eq!(f(m.e[i]), want[i], "entry {}", i);
    }
}

#[test]
fn view_direction_recovers_eye_to_target() {
    // The view matrix's backward row is the negated, normalized viewing
    // direction: decomposing it recovers normalize(target - eye).
    let cam = OrbitCamera { eye: v3(3.0, -5.0, 2.0), ..test_camera() };
    let m = cam.view_matrix();
    let back = glam::Vec3::new(f(m.e[2]), f(m.e[6]), f(m.e[10]));
    let recovered = -back;
    let expected = (gv(cam.target) - gv(cam.eye)).normalize();
    assert!((recovered - expected).length() < 1e-6, "{:?} vs {:?}", recovered, expected);
}

#[test]
fn orbiting_preserves_distance_to_target() {
    let mut cam = test_camera();
    let mut c = OrbitCameraController::new(b(0.2));
    let radius = (gv(cam.target) - gv(cam.eye)).length();

    c.set_movement(Movement::Forward, true);
    for _ in 0..25 {
        c.update_camera(&mut cam);
    }
    c.set_movement(Movement::Forward, false);
    c.set_movement(Movement::Right, true);
    for _ in 0..25 {
        c.update_camera(&mut cam);
    }
    c.set_movement(Movement::Left, true);
    c.set_movement(Movement::Backward, true);
    for _ in 0..25 {
        c.update_camera(&mut cam);
    }
    let after = (gv(cam.target) - gv(cam.eye)).length();
    assert!((after - radius).abs() < 1e-2, "radius drifted: {} vs {}", after, radius);
    // The eye really moved, and only the eye.
    assert!((gv(cam.eye) - glam::Vec3::new(0.0, -64.0, 0.0)).length() > 1.0);
    assert_eq!(cam.target, v3(0.0, 0.0, 0.0));
    assert_eq!(cam.up, v3(0.0, 0.0, 1.0));
}

#[test]
fn forward_is_ignored_within_one_step() {
    // With the eye closer to the target than one step, forward and
    // backward do nothing: the eye never crosses the target.
    let mut cam = OrbitCamera { eye: v3(0.0, -0.1, 0.0), ..test_camera() };
    let mut c = OrbitCameraController::new(b(0.2));
    c.set_movement(Movement::Forward, true);
    c.update_camera(&mut cam);
    assert_eq!(cam.eye, v3(0.0, -0.1, 0.0));
    c.set_movement(Movement::Forward, false);
    c.set_movement(Movement::Backward, true);
    c.update_camera(&mut cam);
    assert_eq!(cam.eye, v3(0.0, -0.1, 0.0));
}

#[test]
fn orbit_resize_updates_only_aspect() {
    let mut cam = test_camera();
    let before = cam;
    cam.resize(0, 600);
    assert_eq!(cam.aspect, before.aspect);
    cam.resize(1280, 720);
    assert_eq!(f(cam.aspect), 1280.0f32 / 720.0);
    assert_eq!(cam.eye, before.eye);
    assert_eq!(cam.fovy, before.fovy);
}
