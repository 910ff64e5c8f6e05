//! Projector construction paths, the pose round trip, and the uniform
//! flattening, checked against the linear-algebra crate.

use projcam::camera::{Camera, CameraUniform, Projection};
use projcam::mat::Mat4Bits;
use projcam::projector::{EulerDegreesXYZ, Instance, Projector};
use projcam::vec::{QuatBits, Vec3Bits};

fn b(x: f32) -> u32 {
    x.to_bits()
}

fn f(x: u32) -> f32 {
    f32::from_bits(x)
}

fn v3(x: f32, y: f32, z: f32) -> Vec3Bits {
    Vec3Bits { x: b(x), y: b(y), z: b(z) }
}

fn qb(q: glam::Quat) -> QuatBits {
    QuatBits { x: b(q.x), y: b(q.y), z: b(q.z), w: b(q.w) }
}

fn mat_of(m: &Mat4Bits) -> glam::Mat4 {
    glam::Mat4::from_cols_array(&m.e.map(f32::from_bits))
}

fn bits_of(m: glam::Mat4) -> [u32; 16] {
    m.to_cols_array().map(|v| v.to_bits())
}

#[test]
fn new_has_identity_view_and_lens_fovy() {
    let p = Projector::new();
    assert_eq!(p.view.e, bits_of(glam::Mat4::IDENTITY));
    assert_eq!(f(p.aspect), 16.0f32 / 9.0);
    assert_eq!(f(p.znear), 0.1);
    assert_eq!(f(p.zfar), 100.0);
    let expected_fovy = 2.0 * ((24.0f32 / 50.0) * 0.5).atan();
    assert_eq!(f(p.fovy), expected_fovy);
}

#[test]
fn with_fovy_replaces_only_fovy() {
    let p = Projector::new().with_fovy(b(1.1));
    assert_eq!(f(p.fovy), 1.1);
    assert_eq!(f(p.aspect), 16.0f32 / 9.0);
}

#[test]
fn with_eye_target_up_stores_the_view() {
    let p = Projector::new().with_eye_target_up(
        v3(1.0, 2.0, 3.0),
        v3(0.0, 1.0, 0.0),
        v3(0.0, 0.0, 1.0),
    );
    let expected = glam::Mat4::look_to_rh(
        glam::Vec3::new(1.0, 2.0, 3.0),
        glam::Vec3::new(0.0, 1.0, 0.0),
        glam::Vec3::Z,
    );
    assert_eq!(p.view.e, bits_of(expected));
}

#[test]
fn with_view_stores_exactly() {
    let m = Mat4Bits { e: bits_of(glam::Mat4::from_translation(glam::Vec3::new(5.0, 6.0, 7.0))) };
    let p = Projector::new().with_view(m);
    assert_eq!(p.view.e, m.e);
}

#[test]
fn rotation_translation_round_trip() {
    // A pose whose rotation respects the fixed up convention (it maps +Y to
    // the world up +Z) is recovered by the accessors.
    let rot = glam::Quat::from_axis_angle(glam::Vec3::X, std::f32::consts::FRAC_PI_2);
    let pos = glam::Vec3::new(1.0, 2.0, 3.0);
    let p = Projector::new().with_rotation_translation(qb(rot), v3(1.0, 2.0, 3.0));

    let got_pos = p.position();
    let gp = glam::Vec3::new(f(got_pos.x), f(got_pos.y), f(got_pos.z));
    assert!((gp - pos).length() < 1e-4, "position {:?} vs {:?}", gp, pos);

    let got_rot = p.rotation();
    let gq = glam::Quat::from_xyzw(f(got_rot.x), f(got_rot.y), f(got_rot.z), f(got_rot.w));
    let agreement = gq.dot(rot).abs();
    assert!(agreement > 0.9999, "rotation {:?} vs {:?} (dot {})", gq, rot, agreement);
}

#[test]
fn build_view_projection_multiplies_view_directly() {
    let p = Projector::new().with_eye_target_up(
        v3(0.0, -5.0, 0.0),
        v3(0.0, 1.0, 0.0),
        v3(0.0, 0.0, 1.0),
    );
    let m = p.build_view_projection_matrix();
    let expected = glam::Mat4::perspective_rh(f(p.fovy), f(p.aspect), f(p.znear), f(p.zfar))
        * mat_of(&p.view);
    assert_eq!(m.e, bits_of(expected));
}

#[test]
fn uniform_flattens_projection_times_view() {
    let view = glam::Mat4::look_at_rh(
        glam::Vec3::new(0.0, -3.0, 1.0),
        glam::Vec3::ZERO,
        glam::Vec3::Z,
    );
    let proj = glam::Mat4::perspective_rh(0.9, 1.5, 0.1, 50.0);
    let u = CameraUniform::new(Mat4Bits { e: bits_of(view) }, Mat4Bits { e: bits_of(proj) });
    let expected = bits_of(proj * view);
    let mut flat: Vec<u32> = Vec::new();
    for col in u.view_proj {
        for v in col {
            flat.push(v);
        }
    }
    assert_eq!(flat, expected.to_vec());
}

#[test]
fn default_uniform_is_identity() {
    let u = CameraUniform::default();
    let expected = bits_of(glam::Mat4::IDENTITY);
    let mut flat: Vec<u32> = Vec::new();
    for col in u.view_proj {
        for v in col {
            flat.push(v);
        }
    }
    assert_eq!(flat, expected.to_vec());
}

#[test]
fn uniform_from_projector_matches_its_transform() {
    let p = Projector::new().with_eye_target_up(
        v3(2.0, 0.0, 0.5),
        v3(-1.0, 0.0, 0.0),
        v3(0.0, 0.0, 1.0),
    );
    let u = CameraUniform::from_projector(&p);
    let m = p.build_view_projection_matrix();
    let mut flat: Vec<u32> = Vec::new();
    for col in u.view_proj {
        for v in col {
            flat.push(v);
        }
    }
    assert_eq!(flat, m.e.to_vec());
}

#[test]
fn uniform_update_tracks_camera_and_projection() {
    let camera = Camera::new(v3(1.0, -2.0, 0.5), b(0.2), b(1.1));
    let projection = Projection::new(1280, 720, b(0.8), b(0.1), b(100.0));
    let mut u = CameraUniform::default();
    u.update_view_proj(&camera, &projection);

    let (sp, cp) = 0.2f32.sin_cos();
    let (sy, cy) = 1.1f32.sin_cos();
    let dir = glam::Vec3::new(cp * cy, cp * sy, sp);
    let view = glam::Mat4::look_to_rh(glam::Vec3::new(1.0, -2.0, 0.5), dir, glam::Vec3::Z);
    let proj = glam::Mat4::perspective_rh(0.8, 1280.0 / 720.0, 0.1, 100.0);
    let expected = bits_of(proj * view);
    let mut flat: Vec<u32> = Vec::new();
    for col in u.view_proj {
        for v in col {
            flat.push(v);
        }
    }
    assert_eq!(flat, expected.to_vec());
}

#[test]
fn euler_degrees_to_quat_matches_reference() {
    let e = EulerDegreesXYZ([b(30.0), b(45.0), b(60.0)]);
    let q = e.to_quat();
    let expected = glam::Quat::from_euler(
        glam::EulerRot::XYZ,
        30.0f32.to_radians(),
        45.0f32.to_radians(),
        60.0f32.to_radians(),
    );
    assert_eq!([f(q.x), f(q.y), f(q.z), f(q.w)], expected.to_array());
}

#[test]
fn instance_to_raw_is_the_pose_transform() {
    let rot = glam::Quat::from_axis_angle(glam::Vec3::Z, 0.4);
    let inst = Instance { position: v3(1.0, -2.0, 3.0), rotation: qb(rot) };
    let raw = inst.to_raw();
    let expected =
        bits_of(glam::Mat4::from_rotation_translation(rot, glam::Vec3::new(1.0, -2.0, 3.0)));
    let mut flat: Vec<u32> = Vec::new();
    for col in raw.model {
        for v in col {
            flat.push(v);
        }
    }
    assert_eq!(flat, expected.to_vec());
}
