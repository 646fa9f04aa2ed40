//! The rectangle widget.
//!
//! A rectangle is described in a square of 100 by 100 units whose origin is
//! the top left corner of the viewport, and is turned into four vertices in
//! clip space, where the viewport reaches from -1 to 1 on both axes and y
//! points up. Corner order: top left, top right, bottom left, bottom right.

use crate::app::AppRender;
use crate::pipeline::BlendState;
use crate::pipeline::ColorTargetState;
use crate::pipeline::Face;
use crate::pipeline::FragmentState;
use crate::pipeline::FrontFace;
use crate::pipeline::IndexFormat;
use crate::pipeline::MultisampleState;
use crate::pipeline::PipelineLayoutDescriptor;
use crate::pipeline::PolygonMode;
use crate::pipeline::PrimitiveState;
use crate::pipeline::PrimitiveTopology;
use crate::pipeline::RenderPipelineDescriptor;
use crate::pipeline::ShaderModuleDescriptor;
use crate::pipeline::ShaderSource;
use crate::pipeline::VertexState;
use crate::pipeline::ALL_SAMPLES;
use crate::pipeline::COLOR_WRITES_ALL;
use crate::vertex::Vertex;
use crate::vertex::CLIP_SCALE;
use crate::vertex::VertexBufferLayout;
use crate::widgets::Widget;
use crate::widgets::WidgetRender;
use crate::widgets::WidgetVertex;
use wgpu::TextureFormat;
use vstd::prelude::*;

verus! {

/// What a rectangle looks like: its size and the position of its top left
/// corner, in units of which 100 span the viewport, and its colour as red,
/// green, blue and alpha, each multiplied by
/// [`COLOR_SCALE`](crate::vertex::COLOR_SCALE). Nothing is validated: a
/// negative size mirrors the rectangle, a position outside 0..100 moves it
/// out of view, and a colour component above the scale is passed on as it is.
#[derive(Debug, Clone, Copy)]
pub struct SquareWidgetDesc {
    pub width: i32,
    pub height: i32,
    pub x: i32,
    pub y: i32,
    pub color: [i64; 4],
}

impl SquareWidgetDesc {
    /// The clip coordinate of the left edge, multiplied by
    /// [`CLIP_SCALE`](crate::vertex::CLIP_SCALE): `(x / 100) * 2 - 1`,
    /// times 50.
    pub open spec fn left(self) -> int {
        self.x - 50
    }

    /// The clip coordinate of the top edge, multiplied by
    /// [`CLIP_SCALE`](crate::vertex::CLIP_SCALE): `(y / 100) * -2 + 1`,
    /// times 50.
    pub open spec fn top(self) -> int {
        50 - self.y
    }

    /// The scaled clip coordinate of the right edge: the width is
    /// `width * 2 / 100` in clip space, which is `width` after scaling.
    pub open spec fn right(self) -> int {
        self.left() + self.width
    }

    /// The scaled clip coordinate of the bottom edge.
    pub open spec fn bottom(self) -> int {
        self.top() - self.height
    }

    /// The description with every field zero.
    pub open spec fn blank(self) -> bool {
        &&& self.width == 0
        &&& self.height == 0
        &&& self.x == 0
        &&& self.y == 0
        &&& self.color@ == seq![0i64, 0i64, 0i64, 0i64]
    }
}

impl Default for SquareWidgetDesc {
    fn default() -> (desc: Self)
        ensures
            desc.blank(),
    {
        let color: [i64; 4] = [0, 0, 0, 0];
        assert(color@ =~= seq![0i64, 0i64, 0i64, 0i64]);
        SquareWidgetDesc { width: 0, height: 0, x: 0, y: 0, color }
    }
}

/// `v` lies at the scaled clip position (`px`, `py`) in the plane z = 0 and
/// has the given colour.
pub open spec fn is_corner(v: Vertex, px: int, py: int, color: Seq<i64>) -> bool {
    &&& v.position@.len() == 3
    &&& v.position@[0] == px
    &&& v.position@[1] == py
    &&& v.position@[2] == 0
    &&& v.color@ == color
}

/// `vertices` are the four corners of the described rectangle, in the order
/// top left, top right, bottom left, bottom right, each in the rectangle's
/// colour.
pub open spec fn is_rectangle(vertices: Seq<Vertex>, desc: SquareWidgetDesc) -> bool {
    &&& vertices.len() == 4
    &&& is_corner(vertices[0], desc.left(), desc.top(), desc.color@)
    &&& is_corner(vertices[1], desc.right(), desc.top(), desc.color@)
    &&& is_corner(vertices[2], desc.left(), desc.bottom(), desc.color@)
    &&& is_corner(vertices[3], desc.right(), desc.bottom(), desc.color@)
}

/// The indices of a rectangle's two triangles: top left, bottom left, top
/// right; then bottom left, bottom right, top right.
pub open spec fn quad_indices() -> Seq<u16> {
    seq![0u16, 2u16, 1u16, 2u16, 3u16, 1u16]
}

/// Twice the signed area of the triangle `a`, `b`, `c` in scaled clip
/// space: positive where the three turn counter-clockwise (y points up),
/// negative where they turn clockwise, zero where they lie on a line.
pub open spec fn turn(a: Vertex, b: Vertex, c: Vertex) -> int {
    (b.position@[0] - a.position@[0]) * (c.position@[1] - a.position@[1]) - (b.position@[1]
        - a.position@[1]) * (c.position@[0] - a.position@[0])
}

/// [`turn`] of the triangle that the indices at `3 * t`, `3 * t + 1` and
/// `3 * t + 2` pick from the vertices.
pub open spec fn triangle_turn(vertices: Seq<Vertex>, indices: Seq<u16>, t: int) -> int {
    turn(
        vertices[indices[3 * t] as int],
        vertices[indices[3 * t + 1] as int],
        vertices[indices[3 * t + 2] as int],
    )
}

/// The vertices of a described rectangle form an axis-parallel rectangle:
/// its width in clip space is the described width times 2 / 100 and its
/// height likewise, and its top left corner lies at
/// `((x / 100) * 2 - 1, (y / 100) * -2 + 1)`. Positions are stored times
/// [`CLIP_SCALE`](crate::vertex::CLIP_SCALE), so the last two facts are
/// stated with both sides multiplied by 100 times the scale. A corner at a
/// described position within 0..=100 lies in view.
pub proof fn lemma_rectangle_extent(vertices: Seq<Vertex>, desc: SquareWidgetDesc)
    requires
        is_rectangle(vertices, desc),
    ensures
        vertices[1].position@[0] - vertices[0].position@[0] == desc.width,
        vertices[3].position@[0] - vertices[2].position@[0] == desc.width,
        vertices[0].position@[1] - vertices[2].position@[1] == desc.height,
        vertices[1].position@[1] - vertices[3].position@[1] == desc.height,
        vertices[0].position@[1] == vertices[1].position@[1],
        vertices[2].position@[1] == vertices[3].position@[1],
        vertices[0].position@[0] == vertices[2].position@[0],
        vertices[1].position@[0] == vertices[3].position@[0],
        100 * desc.width == CLIP_SCALE * (desc.width * 2),
        100 * vertices[0].position@[0] == CLIP_SCALE * (desc.x * 2 - 100),
        100 * vertices[0].position@[1] == CLIP_SCALE * (desc.y * -2 + 100),
        0 <= desc.x <= 100 ==> -CLIP_SCALE <= vertices[0].position@[0] <= CLIP_SCALE,
        0 <= desc.y <= 100 ==> -CLIP_SCALE <= vertices[0].position@[1] <= CLIP_SCALE,
        forall|k: int| 0 <= k < 4 ==> (#[trigger] vertices[k]).color@ == desc.color@,
{
}

/// The indices of a rectangle describe two triangles over its four
/// vertices: each index picks a vertex, each vertex is picked, the two
/// triangles share the diagonal from bottom left to top right and have the
/// other two corners between them. On every described rectangle both turn
/// the same way and each has half the rectangle's area: twice the signed
/// area of either is width times height, so for a rectangle of positive
/// size both turn counter-clockwise in clip space.
pub proof fn lemma_quad_triangles(vertices: Seq<Vertex>, desc: SquareWidgetDesc)
    requires
        is_rectangle(vertices, desc),
    ensures
        quad_indices().len() == 2 * 3,
        forall|i: int| 0 <= i < 6 ==> 0 <= #[trigger] quad_indices()[i] < 4,
        forall|v: u16| 0 <= v < 4 ==> quad_indices().contains(v),
        quad_indices().subrange(0, 3) == seq![0u16, 2u16, 1u16],
        quad_indices().subrange(3, 6) == seq![2u16, 3u16, 1u16],
        triangle_turn(vertices, quad_indices(), 0) == desc.width * desc.height,
        triangle_turn(vertices, quad_indices(), 1) == desc.width * desc.height,
        desc.width > 0 && desc.height > 0 ==> triangle_turn(vertices, quad_indices(), 0) > 0,
{
    let q = quad_indices();
    assert(q[0] == 0 && q[1] == 2 && q[2] == 1 && q[3] == 2 && q[4] == 3 && q[5] == 1);
    assert forall|v: u16| 0 <= v < 4 implies q.contains(v) by {
        if v == 0 {
            assert(q[0] == v);
        } else if v == 1 {
            assert(q[2] == v);
        } else if v == 2 {
            assert(q[1] == v);
        } else {
            assert(q[4] == v);
        }
    }
    assert(q.subrange(0, 3) =~= seq![0u16, 2u16, 1u16]);
    assert(q.subrange(3, 6) =~= seq![2u16, 3u16, 1u16]);
    let w = desc.width as int;
    let h = desc.height as int;
    assert(triangle_turn(vertices, q, 0) == turn(vertices[0], vertices[2], vertices[1]));
    assert(triangle_turn(vertices, q, 1) == turn(vertices[2], vertices[3], vertices[1]));
    assert(turn(vertices[0], vertices[2], vertices[1]) == 0 * 0 - (0 - h) * w) by {
        lemma_rectangle_extent(vertices, desc);
    }
    assert(turn(vertices[2], vertices[3], vertices[1]) == w * h - 0 * w) by {
        lemma_rectangle_extent(vertices, desc);
    }
    assert(0 * 0 - (0 - h) * w == w * h) by (nonlinear_arith);
    assert(w * h - 0 * w == w * h) by (nonlinear_arith);
    assert(w > 0 && h > 0 ==> w * h > 0) by (nonlinear_arith);
}

/// The shader of a rectangle. Its vertex stage `vs_main` takes the position
/// from shader location 0 and the colour from location 1 and hands both on
/// unchanged; its fragment stage `fs_main` writes the colour.
pub const SHADER: &'static str = "
struct VertexInput {
    @location(0) position: vec3<f32>,
    @location(1) color: vec4<f32>,
};

struct VertexOutput {
    @builtin(position) clip_position: vec4<f32>,
    @location(0) color: vec4<f32>,
};

@vertex
fn vs_main(model: VertexInput) -> VertexOutput {
    var out: VertexOutput;
    out.color = model.color;
    out.clip_position = vec4<f32>(model.position, 1.0);
    return out;
}

@fragment
fn fs_main(in: VertexOutput) -> @location(0) vec4<f32> {
    return in.color;
}
";

/// `descriptor` is the shader module of a rectangle: [`SHADER`], without a
/// label.
pub open spec fn is_square_shader(descriptor: ShaderModuleDescriptor) -> bool {
    &&& descriptor.label is None
    &&& match descriptor.source {
        ShaderSource::Wgsl(text) => text@ == SHADER@,
    }
}

/// `descriptor` is the pipeline of a rectangle that renders to `format`:
/// `vs_main` of the rectangle's shader reads [`Vertex`] records and its
/// `fs_main` writes one colour output, which replaces what was there; triangles are
/// assembled as a strip over 16-bit indices, front faces turn
/// counter-clockwise and back faces are culled; one sample per pixel, no
/// depth or stencil test, no bound resources.
pub open spec fn is_square_pipeline(
    descriptor: RenderPipelineDescriptor,
    format: TextureFormat,
) -> bool {
    &&& descriptor.layout == Some(
        PipelineLayoutDescriptor { bind_group_layouts: 0, push_constant_ranges: 0 },
    )
    &&& is_square_shader(descriptor.vertex.module)
    &&& descriptor.vertex.entry_point@ == "vs_main"@
    &&& descriptor.vertex.buffers@.len() == 1
    &&& Vertex::laid_out_as(descriptor.vertex.buffers@[0])
    &&& descriptor.primitive == (PrimitiveState {
        topology: PrimitiveTopology::TriangleStrip,
        strip_index_format: Some(IndexFormat::Uint16),
        front_face: FrontFace::Ccw,
        cull_mode: Some(Face::Back),
        unclipped_depth: false,
        polygon_mode: PolygonMode::Fill,
        conservative: false,
    })
    &&& !descriptor.depth_stencil
    &&& descriptor.multisample == (MultisampleState {
        count: 1,
        mask: ALL_SAMPLES,
        alpha_to_coverage_enabled: false,
    })
    &&& match descriptor.fragment {
        Some(fragment) => {
            &&& is_square_shader(fragment.module)
            &&& fragment.entry_point@ == "fs_main"@
            &&& fragment.targets@ == seq![
                Some(
                    ColorTargetState {
                        format,
                        blend: Some(BlendState::Replace),
                        write_mask: COLOR_WRITES_ALL,
                    },
                ),
            ]
        },
        None => false,
    }
    &&& descriptor.multiview is None
}

/// A rectangle: its description, and the vertices and indices that were
/// computed from the description it was made with.
#[derive(Debug, Clone, Copy)]
pub struct SquareWidget<'a> {
    vertices: [Vertex; 4],
    indices: &'a [u16],
    description: SquareWidgetDesc,
}

impl<'a> SquareWidget<'a> {
    /// Makes the rectangle that `desc` describes.
    pub fn new(desc: SquareWidgetDesc) -> (widget: Self)
        ensures
            is_rectangle(widget.spec_vertices(), desc),
            widget.spec_indices() == quad_indices(),
            widget.spec_description() == desc,
    {
        let x: i64 = desc.x as i64 - 50;
        let y: i64 = 50 - desc.y as i64;
        let width: i64 = desc.width as i64;
        let height: i64 = desc.height as i64;
        let indices: &'a [u16] = &[0, 2, 1, 2, 3, 1];
        assert(indices@ =~= quad_indices());
        SquareWidget {
            vertices: [
                Vertex { position: [x, y, 0], color: desc.color },
                Vertex { position: [x + width, y, 0], color: desc.color },
                Vertex { position: [x, y - height, 0], color: desc.color },
                Vertex { position: [x + width, y - height, 0], color: desc.color },
            ],
            indices,
            description: desc,
        }
    }
}

impl<'a> Default for SquareWidget<'a> {
    fn default() -> (widget: Self)
        ensures
            widget.spec_description().blank(),
            widget.spec_indices() == Seq::<u16>::empty(),
            widget.spec_vertices().len() == 4,
            forall|k: int|
                0 <= k < 4 ==> is_corner(
                    #[trigger] widget.spec_vertices()[k],
                    0,
                    0,
                    seq![0i64, 0i64, 0i64, 0i64],
                ),
    {
        let indices: &'a [u16] = &[];
        assert(indices@ =~= Seq::<u16>::empty());
        SquareWidget {
            vertices: [
                Vertex::default(),
                Vertex::default(),
                Vertex::default(),
                Vertex::default(),
            ],
            indices,
            description: SquareWidgetDesc::default(),
        }
    }
}

impl<'a> Widget for SquareWidget<'a> {
    closed spec fn spec_description(&self) -> SquareWidgetDesc {
        self.description
    }

    closed spec fn spec_vertices(&self) -> Seq<Vertex> {
        self.vertices@
    }

    closed spec fn spec_indices(&self) -> Seq<u16> {
        self.indices@
    }

    /// The blank rectangle: four vertices at the origin, and no indices.
    fn create() -> (widget: Self)
        ensures
            widget.spec_indices() == Seq::<u16>::empty(),
            widget.spec_vertices().len() == 4,
            forall|k: int|
                0 <= k < 4 ==> is_corner(
                    #[trigger] widget.spec_vertices()[k],
                    0,
                    0,
                    seq![0i64, 0i64, 0i64, 0i64],
                ),
    {
        Self::default()
    }

    fn set_color(&mut self, color: [i64; 4]) {
        self.description.color = color;
    }

    fn get_color(&mut self) -> (color: [i64; 4]) {
        self.description.color
    }

    fn set_x(&mut self, x: i32) {
        self.description.x = x
    }

    fn get_x(&self) -> (x: i32) {
        self.description.x
    }

    fn set_y(&mut self, y: i32) {
        self.description.y = y
    }

    fn get_y(&self) -> (y: i32) {
        self.description.y
    }

    fn set_width(&mut self, width: i32) {
        self.description.width = width
    }

    fn get_width(&mut self) -> (width: i32) {
        self.description.width
    }

    fn set_height(&mut self, height: i32) {
        self.description.height = height
    }

    fn get_height(&mut self) -> (height: i32) {
        self.description.height
    }

    fn get_vertices(&self) -> (vertices: &[Vertex]) {
        self.vertices.as_slice()
    }

    fn get_indices(&self) -> (indices: &[u16]) {
        self.indices
    }

    fn build(&self) -> (boxed: Box<Self>) {
        Box::new(*self)
    }
}

impl<'a> WidgetVertex for SquareWidget<'a> {
    open spec fn is_vertex_desc(&self, layout: VertexBufferLayout) -> bool {
        Vertex::laid_out_as(layout)
    }

    fn get_vertex_desc(&self) -> (layout: VertexBufferLayout)
        ensures
            layout.packed(),
    {
        Vertex::desc()
    }
}

impl<'a> WidgetRender for SquareWidget<'a> {
    open spec fn is_pipeline(
        &self,
        format: TextureFormat,
        descriptor: RenderPipelineDescriptor,
    ) -> bool {
        is_square_pipeline(descriptor, format)
    }

    open spec fn is_shader(&self, descriptor: ShaderModuleDescriptor) -> bool {
        is_square_shader(descriptor)
    }

    fn get_shader(&self, renderer: &AppRender) -> (descriptor: ShaderModuleDescriptor) {
        ShaderModuleDescriptor { label: None, source: ShaderSource::Wgsl(SHADER) }
    }

    fn get_pipeline(&self, renderer: &AppRender) -> (descriptor: RenderPipelineDescriptor) {
        let shader = self.get_shader(renderer);
        let layout = PipelineLayoutDescriptor { bind_group_layouts: 0, push_constant_ranges: 0 };
        let mut buffers: Vec<VertexBufferLayout> = Vec::new();
        buffers.push(self.get_vertex_desc());
        let target = ColorTargetState {
            format: renderer.config.format,
            blend: Some(BlendState::Replace),
            write_mask: COLOR_WRITES_ALL,
        };
        let mut targets: Vec<Option<ColorTargetState>> = Vec::new();
        targets.push(Some(target));
        assert(targets@ =~= seq![Some(target)]);
        RenderPipelineDescriptor {
            layout: Some(layout),
            vertex: VertexState { module: shader, entry_point: "vs_main", buffers },
            primitive: PrimitiveState {
                topology: PrimitiveTopology::TriangleStrip,
                strip_index_format: Some(IndexFormat::Uint16),
                front_face: FrontFace::Ccw,
                cull_mode: Some(Face::Back),
                unclipped_depth: false,
                polygon_mode: PolygonMode::Fill,
                conservative: false,
            },
            depth_stencil: false,
            multisample: MultisampleState {
                count: 1,
                mask: ALL_SAMPLES,
                alpha_to_coverage_enabled: false,
            },
            fragment: Some(FragmentState { module: shader, entry_point: "fs_main", targets }),
            multiview: None,
        }
    }
}

} // verus!
