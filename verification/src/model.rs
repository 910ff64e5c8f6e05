//! The mesh and material registry: thin records of what the GPU layer
//! uploads, and the vertex-buffer layouts the pipelines are configured
//! with.
//!
//! A mesh names its geometry, carries its index count, and refers to its
//! material by index into the model's material list — many meshes may share
//! one material. The buffers and textures themselves live with the
//! rendering backend; the registry is the part the draw sequencing reads.

use vstd::prelude::*;

verus! {

/// The data format of one vertex attribute.
#[derive(Clone, Copy, Debug, PartialEq, Eq, Structural)]
pub enum VertexFormat {
    Float32x2,
    Float32x3,
    Float32x4,
}

/// Whether a buffer advances per vertex or per instance.
#[derive(Clone, Copy, Debug, PartialEq, Eq, Structural)]
pub enum VertexStepMode {
    Vertex,
    Instance,
}

/// One attribute of a vertex buffer: where it starts, which shader slot it
/// feeds, and its format.
#[derive(Clone, Copy, Debug, PartialEq, Eq, Structural)]
pub struct VertexAttribute {
    pub offset: u64,
    pub shader_location: u32,
    pub format: VertexFormat,
}

/// The layout of one vertex buffer, as the pipeline descriptor needs it.
#[derive(Clone, Debug)]
pub struct VertexBufferLayout {
    pub array_stride: u64,
    pub step_mode: VertexStepMode,
    pub attributes: Vec<VertexAttribute>,
}

/// A textured model vertex: position, texture coordinates and a normal,
/// each an encoded single-precision value.
#[derive(Clone, Copy, Debug, PartialEq, Eq)]
pub struct ModelVertex {
    pub position: [u32; 3],
    pub tex_coords: [u32; 2],
    pub normal: [u32; 3],
}

impl ModelVertex {
    /// The buffer layout of this vertex type: 32 bytes per vertex, position
    /// at offset 0 into shader slot 0, texture coordinates at offset 12
    /// into slot 1, and the normal into slot 2 declared at that same
    /// 12-byte offset, coinciding with the texture coordinates.
    pub fn desc() -> (r: VertexBufferLayout)
        ensures
            r.array_stride == 32,
            r.step_mode == VertexStepMode::Vertex,
            r.attributes@ == seq![
                VertexAttribute { offset: 0, shader_location: 0, format: VertexFormat::Float32x3 },
                VertexAttribute {
                    offset: 12,
                    shader_location: 1,
                    format: VertexFormat::Float32x2,
                },
                VertexAttribute {
                    offset: 12,
                    shader_location: 2,
                    format: VertexFormat::Float32x3,
                },
            ],
    {
        let attributes = vec![
            VertexAttribute { offset: 0, shader_location: 0, format: VertexFormat::Float32x3 },
            VertexAttribute { offset: 12, shader_location: 1, format: VertexFormat::Float32x2 },
            VertexAttribute { offset: 12, shader_location: 2, format: VertexFormat::Float32x3 },
        ];
        proof {
            assert(attributes@ =~= seq![
                VertexAttribute { offset: 0, shader_location: 0, format: VertexFormat::Float32x3 },
                VertexAttribute {
                    offset: 12,
                    shader_location: 1,
                    format: VertexFormat::Float32x2,
                },
                VertexAttribute {
                    offset: 12,
                    shader_location: 2,
                    format: VertexFormat::Float32x3,
                },
            ]);
        }
        VertexBufferLayout { array_stride: 32, step_mode: VertexStepMode::Vertex, attributes }
    }
}

/// A mesh record: its name, how many indices one draw of it covers, and the
/// index of its material.
#[derive(Clone, Debug)]
pub struct Mesh {
    pub name: String,
    pub num_elements: u32,
    pub material: usize,
}

/// A material record: the name under which the texture and its bind group
/// were registered with the rendering backend.
#[derive(Clone, Debug)]
pub struct Material {
    pub name: String,
}

impl Material {
    /// A material record for a texture registered under `name`.
    pub fn new(name: String) -> (r: Material)
        ensures
            r.name@ == name@,
    {
        Material { name }
    }
}

/// A growing registry of materials, one name per registered texture, in
/// registration order; indices into it are stable.
#[derive(Clone, Debug)]
pub struct MaterialArray {
    pub names: Vec<String>,
}

impl MaterialArray {
    /// A registry holding one first material.
    pub fn new(name: String) -> (r: MaterialArray)
        ensures
            r.names@ == seq![name],
    {
        let names = vec![name];
        let r = MaterialArray { names };
        proof {
            assert(r.names@ =~= seq![name]);
        }
        r
    }

    /// Register one more material at the end; earlier indices are
    /// unchanged.
    pub fn add(&mut self, name: String)
        ensures
            final(self).names@ == old(self).names@.push(name),
    {
        self.names.push(name);
    }

    /// How many materials are registered.
    pub fn len(&self) -> (r: usize)
        ensures
            r == self.names@.len(),
    {
        self.names.len()
    }
}

/// A model: its meshes and the materials they index into.
#[derive(Clone, Debug)]
pub struct Model {
    pub meshes: Vec<Mesh>,
    pub materials: Vec<Material>,
}

impl Model {
    /// Every mesh's material index lies within the material list.
    pub open spec fn wf(self) -> bool {
        forall|i: int|
            0 <= i < self.meshes@.len() ==> #[trigger] self.meshes@[i].material
                < self.materials@.len()
    }

    /// Check well-formedness at run time, for data assembled outside the
    /// library.
    pub fn check_wf(&self) -> (r: bool)
        ensures
            r == self.wf(),
    {
        let mut i: usize = 0;
        while i < self.meshes.len()
            invariant
                i <= self.meshes@.len(),
                forall|j: int|
                    0 <= j < i ==> #[trigger] self.meshes@[j].material < self.materials@.len(),
            decreases self.meshes@.len() - i,
        {
            if self.meshes[i].material >= self.materials.len() {
                return false;
            }
            i = i + 1;
        }
        true
    }
}

} // verus!
