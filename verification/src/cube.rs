//! Built-in geometry: a unit-ish cube, a single-quad plane and a billboard
//! quad, each as exact vertex and index data plus its mesh record. The GPU
//! layer uploads the data; the records feed the draw sequencing.

use vstd::prelude::*;

use crate::fbits::{NEG_ONE_BITS, ONE_BITS, ZERO_BITS};
use crate::model::{
    Mesh, VertexAttribute, VertexBufferLayout, VertexFormat, VertexStepMode,
};

verus! {

/// Bit pattern of -3.0.
pub const NEG_THREE_BITS: u32 = 0xC040_0000;
/// Bit pattern of 4.0.
pub const FOUR_BITS: u32 = 0x4080_0000;
/// Bit pattern of -4.0.
pub const NEG_FOUR_BITS: u32 = 0xC080_0000;

/// An untextured-style vertex: a position and texture coordinates, each an
/// encoded single-precision value.
#[derive(Clone, Copy, Debug, PartialEq, Eq)]
pub struct SimpleVertex {
    pub position: [u32; 3],
    pub tex_coords: [u32; 2],
}

impl SimpleVertex {
    /// The buffer layout of this vertex type: 20 bytes per vertex, position
    /// at offset 0 into shader slot 0 and texture coordinates at offset 12
    /// into slot 1.
    pub fn desc() -> (r: VertexBufferLayout)
        ensures
            r.array_stride == 20,
            r.step_mode == VertexStepMode::Vertex,
            r.attributes@ == seq![
                VertexAttribute { offset: 0, shader_location: 0, format: VertexFormat::Float32x3 },
                VertexAttribute {
                    offset: 12,
                    shader_location: 1,
                    format: VertexFormat::Float32x2,
                },
            ],
    {
        let attributes = vec![
            VertexAttribute { offset: 0, shader_location: 0, format: VertexFormat::Float32x3 },
            VertexAttribute { offset: 12, shader_location: 1, format: VertexFormat::Float32x2 },
        ];
        proof {
            assert(attributes@ =~= seq![
                VertexAttribute { offset: 0, shader_location: 0, format: VertexFormat::Float32x3 },
                VertexAttribute {
                    offset: 12,
                    shader_location: 1,
                    format: VertexFormat::Float32x2,
                },
            ]);
        }
        VertexBufferLayout { array_stride: 20, step_mode: VertexStepMode::Vertex, attributes }
    }
}

/// The eight cube corners at (+-1, +-1, +-1) — a half-unit cube at scale
/// two — each with the off-texture coordinates (-1, -1).
pub open spec fn cube_vertices() -> Seq<SimpleVertex> {
    seq![
        SimpleVertex {
            position: [NEG_ONE_BITS, ONE_BITS, ONE_BITS],
            tex_coords: [NEG_ONE_BITS, NEG_ONE_BITS],
        },
        SimpleVertex {
            position: [NEG_ONE_BITS, NEG_ONE_BITS, ONE_BITS],
            tex_coords: [NEG_ONE_BITS, NEG_ONE_BITS],
        },
        SimpleVertex {
            position: [ONE_BITS, NEG_ONE_BITS, ONE_BITS],
            tex_coords: [NEG_ONE_BITS, NEG_ONE_BITS],
        },
        SimpleVertex {
            position: [ONE_BITS, ONE_BITS, ONE_BITS],
            tex_coords: [NEG_ONE_BITS, NEG_ONE_BITS],
        },
        SimpleVertex {
            position: [ONE_BITS, NEG_ONE_BITS, NEG_ONE_BITS],
            tex_coords: [NEG_ONE_BITS, NEG_ONE_BITS],
        },
        SimpleVertex {
            position: [ONE_BITS, ONE_BITS, NEG_ONE_BITS],
            tex_coords: [NEG_ONE_BITS, NEG_ONE_BITS],
        },
        SimpleVertex {
            position: [NEG_ONE_BITS, NEG_ONE_BITS, NEG_ONE_BITS],
            tex_coords: [NEG_ONE_BITS, NEG_ONE_BITS],
        },
        SimpleVertex {
            position: [NEG_ONE_BITS, ONE_BITS, NEG_ONE_BITS],
            tex_coords: [NEG_ONE_BITS, NEG_ONE_BITS],
        },
    ]
}

/// The twelve cube triangles over the corners of `cube_vertices`.
pub open spec fn cube_indices() -> Seq<u32> {
    seq![
        0u32, 1, 2, 2, 3, 0, 2, 4, 3, 3, 4, 5, 4, 6, 5, 6, 7, 5, 6, 4, 1, 4, 2, 1, 1, 7, 6, 0, 7,
        1, 0, 3, 7, 7, 3, 5,
    ]
}

/// The cube and its mesh record.
pub struct Cube(pub Mesh);

impl Cube {
    /// The cube's vertex data.
    pub fn vertices() -> (r: Vec<SimpleVertex>)
        ensures
            r@ == cube_vertices(),
    {
        let one = ONE_BITS;
        let neg = NEG_ONE_BITS;
        let r = vec![
            SimpleVertex { position: [neg, one, one], tex_coords: [neg, neg] },
            SimpleVertex { position: [neg, neg, one], tex_coords: [neg, neg] },
            SimpleVertex { position: [one, neg, one], tex_coords: [neg, neg] },
            SimpleVertex { position: [one, one, one], tex_coords: [neg, neg] },
            SimpleVertex { position: [one, neg, neg], tex_coords: [neg, neg] },
            SimpleVertex { position: [one, one, neg], tex_coords: [neg, neg] },
            SimpleVertex { position: [neg, neg, neg], tex_coords: [neg, neg] },
            SimpleVertex { position: [neg, one, neg], tex_coords: [neg, neg] },
        ];
        proof {
            assert(r@ =~= cube_vertices());
        }
        r
    }

    /// The cube's index data: 36 indices, one triangle list.
    pub fn indices() -> (r: Vec<u32>)
        ensures
            r@ == cube_indices(),
    {
        let r = vec![
            0u32, 1, 2, 2, 3, 0, 2, 4, 3, 3, 4, 5, 4, 6, 5, 6, 7, 5, 6, 4, 1, 4, 2, 1, 1, 7, 6, 0,
            7, 1, 0, 3, 7, 7, 3, 5,
        ];
        proof {
            assert(r@ =~= cube_indices());
        }
        r
    }

    /// The cube's mesh record under the given name: 36 indexed elements,
    /// material slot 0.
    pub fn new(name: String) -> (r: Cube)
        ensures
            r.0.name@ == name@,
            r.0.num_elements == 36,
            r.0.material == 0,
    {
        Cube(Mesh { name, num_elements: 36, material: 0 })
    }
}

/// The four corners of the unit plane quad in the XY plane, each with the
/// off-texture coordinates and a +Z normal.
pub open spec fn plane_vertices() -> Seq<crate::model::ModelVertex> {
    seq![
        crate::model::ModelVertex {
            position: [ONE_BITS, ZERO_BITS, ZERO_BITS],
            tex_coords: [NEG_ONE_BITS, NEG_ONE_BITS],
            normal: [ZERO_BITS, ZERO_BITS, ONE_BITS],
        },
        crate::model::ModelVertex {
            position: [ZERO_BITS, ONE_BITS, ZERO_BITS],
            tex_coords: [NEG_ONE_BITS, NEG_ONE_BITS],
            normal: [ZERO_BITS, ZERO_BITS, ONE_BITS],
        },
        crate::model::ModelVertex {
            position: [ZERO_BITS, ZERO_BITS, ZERO_BITS],
            tex_coords: [NEG_ONE_BITS, NEG_ONE_BITS],
            normal: [ZERO_BITS, ZERO_BITS, ONE_BITS],
        },
        crate::model::ModelVertex {
            position: [ONE_BITS, ONE_BITS, ZERO_BITS],
            tex_coords: [NEG_ONE_BITS, NEG_ONE_BITS],
            normal: [ZERO_BITS, ZERO_BITS, ONE_BITS],
        },
    ]
}

/// The two triangles of the plane quad.
pub open spec fn plane_indices() -> Seq<u32> {
    seq![0u32, 1, 2, 0, 3, 1]
}

/// The plane and its mesh record.
pub struct Plane(pub Mesh);

impl Plane {
    /// The plane's vertex data.
    pub fn vertices() -> (r: Vec<crate::model::ModelVertex>)
        ensures
            r@ == plane_vertices(),
    {
        let one = ONE_BITS;
        let zero = ZERO_BITS;
        let neg = NEG_ONE_BITS;
        let r = vec![
            crate::model::ModelVertex {
                position: [one, zero, zero],
                tex_coords: [neg, neg],
                normal: [zero, zero, one],
            },
            crate::model::ModelVertex {
                position: [zero, one, zero],
                tex_coords: [neg, neg],
                normal: [zero, zero, one],
            },
            crate::model::ModelVertex {
                position: [zero, zero, zero],
                tex_coords: [neg, neg],
                normal: [zero, zero, one],
            },
            crate::model::ModelVertex {
                position: [one, one, zero],
                tex_coords: [neg, neg],
                normal: [zero, zero, one],
            },
        ];
        proof {
            assert(r@ =~= plane_vertices());
        }
        r
    }

    /// The plane's index data: six indices, two triangles.
    pub fn indices() -> (r: Vec<u32>)
        ensures
            r@ == plane_indices(),
    {
        let r = vec![0u32, 1, 2, 0, 3, 1];
        proof {
            assert(r@ =~= plane_indices());
        }
        r
    }

    /// The plane's mesh record under the given name: 6 indexed elements,
    /// material slot 0.
    pub fn new(name: String) -> (r: Plane)
        ensures
            r.0.name@ == name@,
            r.0.num_elements == 6,
            r.0.material == 0,
    {
        Plane(Mesh { name, num_elements: 6, material: 0 })
    }
}

/// The four corners of the billboard quad in the plane x = -3, 8 by 8
/// units, with full texture coordinates.
pub open spec fn billboard_vertices() -> Seq<SimpleVertex> {
    seq![
        SimpleVertex {
            position: [NEG_THREE_BITS, FOUR_BITS, FOUR_BITS],
            tex_coords: [ZERO_BITS, ONE_BITS],
        },
        SimpleVertex {
            position: [NEG_THREE_BITS, NEG_FOUR_BITS, FOUR_BITS],
            tex_coords: [ZERO_BITS, ZERO_BITS],
        },
        SimpleVertex {
            position: [NEG_THREE_BITS, NEG_FOUR_BITS, NEG_FOUR_BITS],
            tex_coords: [ONE_BITS, ZERO_BITS],
        },
        SimpleVertex {
            position: [NEG_THREE_BITS, FOUR_BITS, NEG_FOUR_BITS],
            tex_coords: [ONE_BITS, ONE_BITS],
        },
    ]
}

/// The two triangles of the billboard quad.
pub open spec fn billboard_indices() -> Seq<u32> {
    seq![0u32, 1, 2, 2, 3, 0]
}

/// The billboard and its mesh record.
pub struct Billboard(pub Mesh);

impl Billboard {
    /// The billboard's vertex data.
    pub fn vertices() -> (r: Vec<SimpleVertex>)
        ensures
            r@ == billboard_vertices(),
    {
        let r = vec![
            SimpleVertex {
                position: [NEG_THREE_BITS, FOUR_BITS, FOUR_BITS],
                tex_coords: [ZERO_BITS, ONE_BITS],
            },
            SimpleVertex {
                position: [NEG_THREE_BITS, NEG_FOUR_BITS, FOUR_BITS],
                tex_coords: [ZERO_BITS, ZERO_BITS],
            },
            SimpleVertex {
                position: [NEG_THREE_BITS, NEG_FOUR_BITS, NEG_FOUR_BITS],
                tex_coords: [ONE_BITS, ZERO_BITS],
            },
            SimpleVertex {
                position: [NEG_THREE_BITS, FOUR_BITS, NEG_FOUR_BITS],
                tex_coords: [ONE_BITS, ONE_BITS],
            },
        ];
        proof {
            assert(r@ =~= billboard_vertices());
        }
        r
    }

    /// The billboard's index data: six indices, two triangles.
    pub fn indices() -> (r: Vec<u32>)
        ensures
            r@ == billboard_indices(),
    {
        let r = vec![0u32, 1, 2, 2, 3, 0];
        proof {
            assert(r@ =~= billboard_indices());
        }
        r
    }

    /// The billboard's mesh record under the given name: 6 indexed
    /// elements, material slot 0.
    pub fn new(name: String) -> (r: Billboard)
        ensures
            r.0.name@ == name@,
            r.0.num_elements == 6,
            r.0.material == 0,
    {
        Billboard(Mesh { name, num_elements: 6, material: 0 })
    }
}

} // verus!
