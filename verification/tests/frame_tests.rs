//! Frame orchestration: event decisions, the presentation error taxonomy,
//! and the upload-before-draw plan.

use projcam::camera::Key;
use projcam::frame::{
    frame_ops, mesh_draw_commands, model_draw_calls, scene_draw, surface_error_action,
    window_action, DrawCall, DrawCommand, FrameOp, SurfaceAction, SurfaceErrorKind, WindowAction,
    WindowEvent,
};
use projcam::model::{Material, Mesh, Model};

#[test]
fn window_events_map_to_their_actions() {
    assert_eq!(window_action(&WindowEvent::CloseRequested), WindowAction::Exit);
    assert_eq!(
        window_action(&WindowEvent::KeyboardInput { key: Key::KeyX, pressed: true }),
        WindowAction::Exit
    );
    assert_eq!(
        window_action(&WindowEvent::KeyboardInput { key: Key::Escape, pressed: true }),
        WindowAction::Exit
    );
    assert_eq!(
        window_action(&WindowEvent::KeyboardInput { key: Key::KeyX, pressed: false }),
        WindowAction::Nothing
    );
    assert_eq!(
        window_action(&WindowEvent::KeyboardInput { key: Key::KeyE, pressed: true }),
        WindowAction::Nothing
    );
    assert_eq!(window_action(&WindowEvent::RedrawRequested), WindowAction::UpdateAndRender);
    assert_eq!(
        window_action(&WindowEvent::Resized { width: 800, height: 600 }),
        WindowAction::Resize { width: 800, height: 600 }
    );
    assert_eq!(window_action(&WindowEvent::ScaleFactorChanged), WindowAction::ResizeToCurrent);
    assert_eq!(window_action(&WindowEvent::Other), WindowAction::Nothing);
}

#[test]
fn surface_errors_map_to_their_recovery() {
    assert_eq!(surface_error_action(&SurfaceErrorKind::Lost), SurfaceAction::Reconfigure);
    assert_eq!(surface_error_action(&SurfaceErrorKind::OutOfMemory), SurfaceAction::Exit);
    assert_eq!(surface_error_action(&SurfaceErrorKind::Other), SurfaceAction::SkipFrame);
}

#[test]
fn scene_draw_requires_both_slots() {
    assert_eq!(scene_draw(2, 1), Some(DrawCall { mesh: 1, material: 0 }));
    assert_eq!(scene_draw(5, 3), Some(DrawCall { mesh: 1, material: 0 }));
    assert_eq!(scene_draw(1, 1), None);
    assert_eq!(scene_draw(2, 0), None);
    assert_eq!(scene_draw(0, 0), None);
}

fn mesh(name: &str, material: usize) -> Mesh {
    Mesh { name: name.to_string(), num_elements: 6, material }
}

#[test]
fn model_draws_pair_each_mesh_with_its_material() {
    let model = Model {
        meshes: vec![mesh("a", 2), mesh("b", 0), mesh("c", 2)],
        materials: vec![
            Material::new("m0".to_string()),
            Material::new("m1".to_string()),
            Material::new("m2".to_string()),
        ],
    };
    assert!(model.check_wf());
    let calls = model_draw_calls(&model);
    assert_eq!(
        calls,
        vec![
            DrawCall { mesh: 0, material: 2 },
            DrawCall { mesh: 1, material: 0 },
            DrawCall { mesh: 2, material: 2 },
        ]
    );
}

#[test]
fn check_wf_rejects_out_of_range_material() {
    let model = Model {
        meshes: vec![mesh("a", 1)],
        materials: vec![Material::new("m0".to_string())],
    };
    assert!(!model.check_wf());
}

#[test]
fn mesh_commands_bind_then_draw() {
    let cmds = mesh_draw_commands(DrawCall { mesh: 3, material: 1 }, 36, 0, 4);
    assert_eq!(
        cmds,
        vec![
            DrawCommand::BindMesh { mesh: 3 },
            DrawCommand::BindMaterial { material: 1 },
            DrawCommand::BindCameraUniform,
            DrawCommand::DrawIndexed { num_elements: 36, instances_start: 0, instances_end: 4 },
        ]
    );
}

#[test]
fn frame_uploads_uniform_before_every_draw() {
    let draws = vec![DrawCall { mesh: 1, material: 0 }, DrawCall { mesh: 0, material: 0 }];
    let ops = frame_ops(&draws);
    assert_eq!(ops.len(), 3);
    assert_eq!(ops[0], FrameOp::WriteCameraUniform);
    assert_eq!(ops[1], FrameOp::Draw(draws[0]));
    assert_eq!(ops[2], FrameOp::Draw(draws[1]));
}
