//! The description of a render pipeline, as plain values: what a widget asks
//! of the graphics device when it is registered.

use crate::vertex::VertexBufferLayout;
use vstd::prelude::*;
use wgpu::TextureFormat;

verus! {

/// How the vertices of a draw call are assembled into primitives.
#[derive(Debug, Clone, Copy, PartialEq, Eq, Structural)]
pub enum PrimitiveTopology {
    PointList,
    LineList,
    LineStrip,
    TriangleList,
    TriangleStrip,
}

/// The width of the entries of an index buffer.
#[derive(Debug, Clone, Copy, PartialEq, Eq, Structural)]
pub enum IndexFormat {
    Uint16,
    Uint32,
}

/// Which way the vertices of a front-facing triangle turn.
#[derive(Debug, Clone, Copy, PartialEq, Eq, Structural)]
pub enum FrontFace {
    Ccw,
    Cw,
}

/// A side of a triangle.
#[derive(Debug, Clone, Copy, PartialEq, Eq, Structural)]
pub enum Face {
    Front,
    Back,
}

/// How the inside of a polygon is rasterized.
#[derive(Debug, Clone, Copy, PartialEq, Eq, Structural)]
pub enum PolygonMode {
    Fill,
    Line,
    Point,
}

/// How a fragment's colour is combined with the colour already in the target.
#[derive(Debug, Clone, Copy, PartialEq, Eq, Structural)]
pub enum BlendState {
    /// The fragment's colour replaces what was there.
    Replace,
    /// Blending by the fragment's alpha.
    AlphaBlending,
    /// Blending of colours that already carry their alpha.
    PremultipliedAlphaBlending,
}

/// All four colour channels of a target are written.
pub const COLOR_WRITES_ALL: u32 = 15;

/// Every sample of a pixel is written.
pub const ALL_SAMPLES: u64 = 0xffff_ffff_ffff_ffff;

/// The resources that a pipeline's shaders can reach besides the vertex
/// buffers.
#[derive(Debug, Clone, Copy, PartialEq, Eq, Structural)]
pub struct PipelineLayoutDescriptor {
    pub bind_group_layouts: u32,
    pub push_constant_ranges: u32,
}

/// The program text of a shader module.
#[derive(Debug, Clone, Copy)]
pub enum ShaderSource {
    /// Text in the WebGPU shading language.
    Wgsl(&'static str),
}

/// What a shader module is compiled from.
#[derive(Debug, Clone, Copy)]
pub struct ShaderModuleDescriptor {
    pub label: Option<&'static str>,
    pub source: ShaderSource,
}

/// The vertex stage: the shader, its entry point and the layouts of the
/// vertex buffers it reads.
#[derive(Debug, Clone)]
pub struct VertexState {
    pub module: ShaderModuleDescriptor,
    pub entry_point: &'static str,
    pub buffers: Vec<VertexBufferLayout>,
}

/// How primitives are assembled and which of them are culled.
#[derive(Debug, Clone, Copy, PartialEq, Eq, Structural)]
pub struct PrimitiveState {
    pub topology: PrimitiveTopology,
    pub strip_index_format: Option<IndexFormat>,
    pub front_face: FrontFace,
    pub cull_mode: Option<Face>,
    pub unclipped_depth: bool,
    pub polygon_mode: PolygonMode,
    pub conservative: bool,
}

/// The multisampling of a pipeline.
#[derive(Debug, Clone, Copy, PartialEq, Eq, Structural)]
pub struct MultisampleState {
    pub count: u32,
    pub mask: u64,
    pub alpha_to_coverage_enabled: bool,
}

/// One colour output of the fragment stage.
#[derive(Debug, Clone, Copy)]
pub struct ColorTargetState {
    pub format: TextureFormat,
    pub blend: Option<BlendState>,
    pub write_mask: u32,
}

/// The fragment stage: the shader, its entry point and its colour outputs.
#[derive(Debug, Clone)]
pub struct FragmentState {
    pub module: ShaderModuleDescriptor,
    pub entry_point: &'static str,
    pub targets: Vec<Option<ColorTargetState>>,
}

/// Everything that a render pipeline is compiled from.
#[derive(Debug, Clone)]
pub struct RenderPipelineDescriptor {
    pub layout: Option<PipelineLayoutDescriptor>,
    pub vertex: VertexState,
    pub primitive: PrimitiveState,
    /// Whether the pipeline tests and writes depth or stencil values.
    pub depth_stencil: bool,
    pub multisample: MultisampleState,
    pub fragment: Option<FragmentState>,
    /// The number of views rendered at once, where there is more than one.
    pub multiview: Option<u32>,
}

impl RenderPipelineDescriptor {
    /// Every colour output of the pipeline has the given format.
    pub open spec fn renders_to(self, format: TextureFormat) -> bool {
        match self.fragment {
            Some(fragment) => forall|i: int|
                0 <= i < fragment.targets@.len() ==> match #[trigger] fragment.targets@[i] {
                    Some(target) => target.format == format,
                    None => true,
                },
            None => true,
        }
    }
}

} // verus!
