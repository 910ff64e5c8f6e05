//! Per-frame orchestration decisions: what a window event means, how a
//! presentation error is handled, and the plan of uniform upload and draw
//! calls a frame records.
//!
//! The window layer executes these decisions; everything decided here is a
//! function from plain state to plain actions. The frame plan keeps the
//! ordering the uniform protocol needs: the upload stands before every draw
//! that reads the buffer.

use vstd::prelude::*;

use crate::camera::Key;
use crate::model::Model;

verus! {

/// A window event, as the window layer reports it.
#[derive(Clone, Copy, Debug, PartialEq, Eq, Structural)]
pub enum WindowEvent {
    CloseRequested,
    KeyboardInput { key: Key, pressed: bool },
    RedrawRequested,
    Resized { width: u32, height: u32 },
    ScaleFactorChanged,
    Other,
}

/// What the event loop does with an event the camera controller did not
/// consume.
#[derive(Clone, Copy, Debug, PartialEq, Eq, Structural)]
pub enum WindowAction {
    Exit,
    UpdateAndRender,
    Resize { width: u32, height: u32 },
    ResizeToCurrent,
    Nothing,
}

/// Whether a pressed key closes the viewer.
pub open spec fn is_exit_key(key: Key) -> bool {
    key == Key::KeyX || key == Key::Escape
}

/// The event-loop decision for one unconsumed event: close requests and the
/// exit keys end the loop, a redraw request runs the update-upload-draw
/// frame, a resize reconfigures to the new size, and a scale-factor change
/// reconfigures to the window's current size.
pub fn window_action(event: &WindowEvent) -> (r: WindowAction)
    ensures
        r == (match *event {
            WindowEvent::CloseRequested => WindowAction::Exit,
            WindowEvent::KeyboardInput { key, pressed } => {
                if pressed && is_exit_key(key) {
                    WindowAction::Exit
                } else {
                    WindowAction::Nothing
                }
            },
            WindowEvent::RedrawRequested => WindowAction::UpdateAndRender,
            WindowEvent::Resized { width, height } => WindowAction::Resize { width, height },
            WindowEvent::ScaleFactorChanged => WindowAction::ResizeToCurrent,
            WindowEvent::Other => WindowAction::Nothing,
        }),
{
    match *event {
        WindowEvent::CloseRequested => WindowAction::Exit,
        WindowEvent::KeyboardInput { key, pressed } => {
            if pressed && (matches!(key, Key::KeyX) || matches!(key, Key::Escape)) {
                WindowAction::Exit
            } else {
                WindowAction::Nothing
            }
        },
        WindowEvent::RedrawRequested => WindowAction::UpdateAndRender,
        WindowEvent::Resized { width, height } => WindowAction::Resize { width, height },
        WindowEvent::ScaleFactorChanged => WindowAction::ResizeToCurrent,
        WindowEvent::Other => WindowAction::Nothing,
    }
}

/// How acquiring the presentable surface image can fail, as far as the
/// frame loop distinguishes.
#[derive(Clone, Copy, Debug, PartialEq, Eq, Structural)]
pub enum SurfaceErrorKind {
    Lost,
    OutOfMemory,
    Other,
}

/// The recovery for one failed acquisition.
#[derive(Clone, Copy, Debug, PartialEq, Eq, Structural)]
pub enum SurfaceAction {
    Reconfigure,
    Exit,
    SkipFrame,
}

/// The error taxonomy of presentation: a lost surface is reconfigured at
/// the last known size and retried next frame, memory exhaustion ends the
/// application, and anything else is logged and the frame skipped.
pub fn surface_error_action(error: &SurfaceErrorKind) -> (r: SurfaceAction)
    ensures
        r == (match *error {
            SurfaceErrorKind::Lost => SurfaceAction::Reconfigure,
            SurfaceErrorKind::OutOfMemory => SurfaceAction::Exit,
            SurfaceErrorKind::Other => SurfaceAction::SkipFrame,
        }),
{
    match *error {
        SurfaceErrorKind::Lost => SurfaceAction::Reconfigure,
        SurfaceErrorKind::OutOfMemory => SurfaceAction::Exit,
        SurfaceErrorKind::Other => SurfaceAction::SkipFrame,
    }
}

/// One indexed draw: which mesh to bind and which material to pair with
/// it.
#[derive(Clone, Copy, Debug, PartialEq, Eq, Structural)]
pub struct DrawCall {
    pub mesh: usize,
    pub material: usize,
}

/// One command of the draw recorder: bind a mesh's buffers, bind a
/// material's texture group, bind the camera uniform group, or issue the
/// indexed draw over an instance range.
#[derive(Clone, Copy, Debug, PartialEq, Eq, Structural)]
pub enum DrawCommand {
    BindMesh { mesh: usize },
    BindMaterial { material: usize },
    BindCameraUniform,
    DrawIndexed { num_elements: u32, instances_start: u32, instances_end: u32 },
}

/// The recorder commands of one draw call: mesh buffers, then the material
/// group, then the camera group, then the indexed draw over all of the
/// mesh's elements and the given instance range.
pub fn mesh_draw_commands(
    call: DrawCall,
    num_elements: u32,
    instances_start: u32,
    instances_end: u32,
) -> (r: Vec<DrawCommand>)
    ensures
        r@ == seq![
            DrawCommand::BindMesh { mesh: call.mesh },
            DrawCommand::BindMaterial { material: call.material },
            DrawCommand::BindCameraUniform,
            DrawCommand::DrawIndexed { num_elements, instances_start, instances_end },
        ],
{
    let r = vec![
        DrawCommand::BindMesh { mesh: call.mesh },
        DrawCommand::BindMaterial { material: call.material },
        DrawCommand::BindCameraUniform,
        DrawCommand::DrawIndexed { num_elements, instances_start, instances_end },
    ];
    proof {
        assert(r@ =~= seq![
            DrawCommand::BindMesh { mesh: call.mesh },
            DrawCommand::BindMaterial { material: call.material },
            DrawCommand::BindCameraUniform,
            DrawCommand::DrawIndexed { num_elements, instances_start, instances_end },
        ]);
    }
    r
}

/// The draw calls of a whole model: every mesh in order, each paired with
/// the material its record indexes. With a well-formed model every material
/// index lies within the material list.
pub fn model_draw_calls(model: &Model) -> (r: Vec<DrawCall>)
    ensures
        r@.len() == model.meshes@.len(),
        forall|i: int|
            0 <= i < r@.len() ==> r@[i] == (DrawCall {
                mesh: i as usize,
                material: model.meshes@[i].material,
            }),
{
    let mut calls: Vec<DrawCall> = Vec::new();
    let mut i: usize = 0;
    while i < model.meshes.len()
        invariant
            i <= model.meshes@.len(),
            calls@.len() == i,
            forall|j: int|
                0 <= j < i ==> calls@[j] == (DrawCall {
                    mesh: j as usize,
                    material: model.meshes@[j].material,
                }),
        decreases model.meshes@.len() - i,
    {
        let call = DrawCall { mesh: i, material: model.meshes[i].material };
        calls.push(call);
        i = i + 1;
    }
    calls
}

/// The one draw of the viewer's fixed scene: the plane mesh (slot 1) with
/// the projection material (slot 0), available only when both exist.
pub fn scene_draw(mesh_count: usize, material_count: usize) -> (r: Option<DrawCall>)
    ensures
        mesh_count >= 2 && material_count >= 1 ==> r == Some(DrawCall { mesh: 1, material: 0 }),
        !(mesh_count >= 2 && material_count >= 1) ==> r == None::<DrawCall>,
{
    if mesh_count >= 2 && material_count >= 1 {
        Some(DrawCall { mesh: 1, material: 0 })
    } else {
        None
    }
}

/// One operation of a frame: the camera-uniform upload or one draw.
#[derive(Clone, Copy, Debug, PartialEq, Eq, Structural)]
pub enum FrameOp {
    WriteCameraUniform,
    Draw(DrawCall),
}

/// The operations of one frame, in order: first the uniform upload, then
/// every draw. The upload is enqueued before any draw that reads the
/// buffer, which is the ordering the single-threaded frame protocol
/// promises.
pub fn frame_ops(draws: &Vec<DrawCall>) -> (r: Vec<FrameOp>)
    ensures
        r@.len() == draws@.len() + 1,
        r@[0] == FrameOp::WriteCameraUniform,
        forall|i: int| 0 <= i < draws@.len() ==> r@[i + 1] == FrameOp::Draw(draws@[i]),
{
    let mut ops: Vec<FrameOp> = Vec::new();
    ops.push(FrameOp::WriteCameraUniform);
    let mut i: usize = 0;
    while i < draws.len()
        invariant
            i <= draws@.len(),
            ops@.len() == i + 1,
            ops@[0] == FrameOp::WriteCameraUniform,
            forall|j: int| 0 <= j < i ==> ops@[j + 1] == FrameOp::Draw(draws@[j]),
        decreases draws@.len() - i,
    {
        ops.push(FrameOp::Draw(draws[i]));
        i = i + 1;
    }
    ops
}

} // verus!
