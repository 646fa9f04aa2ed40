//! The vertex record and the layout of its attributes in a vertex buffer.

use vstd::prelude::*;

verus! {

/// Clip-space coordinates are stored multiplied by this factor: a stored
/// position of 50 is the clip coordinate 1, and -50 is -1.
pub const CLIP_SCALE: i64 = 50;

/// Colour components are stored multiplied by this factor: a stored
/// component of 100 is the intensity 1.
pub const COLOR_SCALE: i64 = 100;

/// One corner of a shape: a position in clip space and an RGBA colour,
/// both in fixed point (see [`CLIP_SCALE`] and [`COLOR_SCALE`]).
#[derive(Debug, Clone, Copy)]
pub struct Vertex {
    pub position: [i64; 3],
    pub color: [i64; 4],
}

impl Default for Vertex {
    fn default() -> (v: Self)
        ensures
            v.position@ == seq![0i64, 0i64, 0i64],
            v.color@ == seq![0i64, 0i64, 0i64, 0i64],
    {
        let v = Vertex { position: [0, 0, 0], color: [0, 0, 0, 0] };
        assert(v.position@ =~= seq![0i64, 0i64, 0i64]);
        assert(v.color@ =~= seq![0i64, 0i64, 0i64, 0i64]);
        v
    }
}

/// The type of one vertex attribute as a shader sees it: a group of 32-bit
/// floating-point components.
#[derive(Debug, Clone, Copy, PartialEq, Eq, Structural)]
pub enum VertexFormat {
    Float32,
    Float32x2,
    Float32x3,
    Float32x4,
}

impl VertexFormat {
    /// The number of components in an attribute of this format.
    pub open spec fn components(self) -> nat {
        match self {
            VertexFormat::Float32 => 1,
            VertexFormat::Float32x2 => 2,
            VertexFormat::Float32x3 => 3,
            VertexFormat::Float32x4 => 4,
        }
    }

    /// The number of bytes that an attribute of this format occupies.
    pub open spec fn spec_size(self) -> nat {
        4 * self.components()
    }

    /// The number of bytes that an attribute of this format occupies.
    pub fn size(self) -> (bytes: u64)
        ensures
            bytes == self.spec_size(),
    {
        match self {
            VertexFormat::Float32 => 4,
            VertexFormat::Float32x2 => 8,
            VertexFormat::Float32x3 => 12,
            VertexFormat::Float32x4 => 16,
        }
    }
}

/// Whether a vertex buffer advances once per vertex or once per instance.
#[derive(Debug, Clone, Copy, PartialEq, Eq, Structural)]
pub enum VertexStepMode {
    Vertex,
    Instance,
}

/// Where one attribute lies within a vertex record, and which shader input
/// receives it.
#[derive(Debug, Clone, Copy, PartialEq, Eq, Structural)]
pub struct VertexAttribute {
    pub format: VertexFormat,
    pub offset: u64,
    pub shader_location: u32,
}

/// How the records of a vertex buffer are laid out.
#[derive(Debug, Clone)]
pub struct VertexBufferLayout {
    /// The distance in bytes from one record to the next.
    pub array_stride: u64,
    pub step_mode: VertexStepMode,
    pub attributes: Vec<VertexAttribute>,
}

impl VertexBufferLayout {
    /// The attributes follow one another without gaps from offset 0, go
    /// to shader locations 0, 1, 2, ... in that order, and fill the record
    /// exactly.
    pub open spec fn packed(self) -> bool {
        &&& forall|i: int|
            0 <= i < self.attributes@.len() ==> (#[trigger] self.attributes@[i]).shader_location
                == i
        &&& forall|i: int|
            0 <= i < self.attributes@.len() ==> (#[trigger] self.attributes@[i]).offset == (if i
                == 0 {
                0
            } else {
                self.attributes@[i - 1].offset + self.attributes@[i - 1].format.spec_size()
            })
        &&& self.array_stride == (if self.attributes@.len() == 0 {
            0
        } else {
            self.attributes@.last().offset + self.attributes@.last().format.spec_size()
        })
    }
}

/// The number of components in a vertex's position.
pub const POSITION_COMPONENTS: usize = 3;

/// The number of components in a vertex's colour.
pub const COLOR_COMPONENTS: usize = 4;

/// The size in bytes of a vertex record in a vertex buffer, where each
/// component is a 32-bit float: three for the position, four for the colour.
pub const VERTEX_STRIDE: u64 = 28;

impl Vertex {
    /// `layout` is the layout of [`Vertex`] records in a vertex buffer: the
    /// position as three floats at offset 0 for shader location 0, then the
    /// colour as four floats at offset 12 for shader location 1, one record
    /// for each vertex.
    pub open spec fn laid_out_as(layout: VertexBufferLayout) -> bool {
        &&& layout.array_stride == VERTEX_STRIDE
        &&& layout.step_mode == VertexStepMode::Vertex
        &&& layout.attributes@ == seq![
            (VertexAttribute { format: VertexFormat::Float32x3, offset: 0, shader_location: 0 }),
            (VertexAttribute { format: VertexFormat::Float32x4, offset: 12, shader_location: 1 }),
        ]
    }

    /// Describes how [`Vertex`] records are laid out in a vertex buffer.
    pub fn desc() -> (layout: VertexBufferLayout)
        ensures
            Vertex::laid_out_as(layout),
            layout.packed(),
    {
        let position = VertexAttribute {
            format: VertexFormat::Float32x3,
            offset: 0,
            shader_location: 0,
        };
        let color = VertexAttribute {
            format: VertexFormat::Float32x4,
            offset: VertexFormat::Float32x3.size(),
            shader_location: 1,
        };
        let mut attributes: Vec<VertexAttribute> = Vec::new();
        attributes.push(position);
        attributes.push(color);
        assert(attributes@ =~= seq![position, color]);
        VertexBufferLayout {
            array_stride: color.offset + VertexFormat::Float32x4.size(),
            step_mode: VertexStepMode::Vertex,
            attributes,
        }
    }
}

} // verus!
