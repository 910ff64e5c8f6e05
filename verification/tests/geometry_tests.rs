//! Built-in geometry data and the vertex buffer layouts.

use projcam::cube::{Billboard, Cube, Plane, SimpleVertex};
use projcam::model::{MaterialArray, ModelVertex, VertexFormat, VertexStepMode};
use projcam::projector::InstanceRaw;

fn b(x: f32) -> u32 {
    x.to_bits()
}

#[test]
fn cube_data_is_the_scaled_half_unit_cube() {
    let vs = Cube::vertices();
    assert_eq!(vs.len(), 8);
    assert_eq!(vs[0].position, [b(-1.0), b(1.0), b(1.0)]);
    assert_eq!(vs[2].position, [b(1.0), b(-1.0), b(1.0)]);
    assert_eq!(vs[7].position, [b(-1.0), b(1.0), b(-1.0)]);
    for v in &vs {
        assert_eq!(v.tex_coords, [b(-1.0), b(-1.0)]);
    }
    let is = Cube::indices();
    assert_eq!(is.len(), 36);
    assert!(is.iter().all(|i| (*i as usize) < vs.len()));
    let cube = Cube::new("test_cube".to_string());
    assert_eq!(cube.0.name, "test_cube");
    assert_eq!(cube.0.num_elements, 36);
    assert_eq!(cube.0.material, 0);
}

#[test]
fn plane_data_is_the_unit_quad() {
    let vs = Plane::vertices();
    assert_eq!(vs.len(), 4);
    assert_eq!(vs[0].position, [b(1.0), b(0.0), b(0.0)]);
    assert_eq!(vs[1].position, [b(0.0), b(1.0), b(0.0)]);
    for v in &vs {
        assert_eq!(v.normal, [b(0.0), b(0.0), b(1.0)]);
        assert_eq!(v.tex_coords, [b(-1.0), b(-1.0)]);
    }
    let is = Plane::indices();
    assert_eq!(is, vec![0, 1, 2, 0, 3, 1]);
    assert!(is.iter().all(|i| (*i as usize) < vs.len()));
    let plane = Plane::new("test_plane".to_string());
    assert_eq!(plane.0.num_elements, 6);
    assert_eq!(plane.0.material, 0);
}

#[test]
fn billboard_data_is_the_eight_by_eight_quad() {
    let vs = Billboard::vertices();
    assert_eq!(vs.len(), 4);
    assert_eq!(vs[0].position, [b(-3.0), b(4.0), b(4.0)]);
    assert_eq!(vs[0].tex_coords, [b(0.0), b(1.0)]);
    assert_eq!(vs[2].position, [b(-3.0), b(-4.0), b(-4.0)]);
    assert_eq!(vs[2].tex_coords, [b(1.0), b(0.0)]);
    let is = Billboard::indices();
    assert_eq!(is, vec![0, 1, 2, 2, 3, 0]);
    let bb = Billboard::new("bb".to_string());
    assert_eq!(bb.0.num_elements, 6);
}

#[test]
fn simple_vertex_layout_is_packed() {
    let l = SimpleVertex::desc();
    assert_eq!(l.array_stride, 20);
    assert_eq!(l.step_mode, VertexStepMode::Vertex);
    assert_eq!(l.attributes.len(), 2);
    assert_eq!(l.attributes[0].offset, 0);
    assert_eq!(l.attributes[0].shader_location, 0);
    assert_eq!(l.attributes[0].format, VertexFormat::Float32x3);
    assert_eq!(l.attributes[1].offset, 12);
    assert_eq!(l.attributes[1].shader_location, 1);
    assert_eq!(l.attributes[1].format, VertexFormat::Float32x2);
}

#[test]
fn model_vertex_layout_matches_declaration() {
    let l = ModelVertex::desc();
    assert_eq!(l.array_stride, 32);
    assert_eq!(l.attributes.len(), 3);
    assert_eq!(l.attributes[1].offset, 12);
    assert_eq!(l.attributes[1].shader_location, 1);
    // The normal is declared at the texture-coordinate offset.
    assert_eq!(l.attributes[2].offset, 12);
    assert_eq!(l.attributes[2].shader_location, 2);
    assert_eq!(l.attributes[2].format, VertexFormat::Float32x3);
}

#[test]
fn instance_layout_steps_per_instance() {
    let l = InstanceRaw::desc();
    assert_eq!(l.array_stride, 64);
    assert_eq!(l.step_mode, VertexStepMode::Instance);
    assert_eq!(l.attributes.len(), 4);
    for (i, a) in l.attributes.iter().enumerate() {
        assert_eq!(a.offset, 16 * i as u64);
        assert_eq!(a.shader_location, 5 + i as u32);
        assert_eq!(a.format, VertexFormat::Float32x4);
    }
}

#[test]
fn material_array_keeps_registration_order() {
    let mut m = MaterialArray::new("first".to_string());
    assert_eq!(m.len(), 1);
    m.add("second".to_string());
    m.add("third".to_string());
    assert_eq!(m.len(), 3);
    assert_eq!(m.names, vec!["first", "second", "third"]);
}
