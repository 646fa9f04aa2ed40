//! What a shape must offer to be drawn, and the shapes themselves.

use crate::app::AppRender;
use crate::pipeline::RenderPipelineDescriptor;
use crate::pipeline::ShaderModuleDescriptor;
use crate::vertex::Vertex;
use crate::vertex::VertexBufferLayout;
use crate::widgets::square::SquareWidgetDesc;
use vstd::prelude::*;
use wgpu::TextureFormat;

pub mod square;

verus! {

/// A shape with a description that can be read and changed, and with the
/// vertices and indices that it is drawn from.
///
/// Changing the description does not recompute the geometry: vertices and
/// indices stay as they were made.
pub trait Widget {
    /// The description of the shape as it stands now.
    spec fn spec_description(&self) -> SquareWidgetDesc;

    /// The vertices of the shape.
    spec fn spec_vertices(&self) -> Seq<Vertex>;

    /// The indices into the vertices, three for each triangle.
    spec fn spec_indices(&self) -> Seq<u16>;

    /// A shape whose description is all zeros.
    fn create() -> (widget: Self) where Self: Sized
        ensures
            widget.spec_description().blank(),
    ;

    fn set_color(&mut self, color: [i64; 4])
        ensures
            final(self).spec_description() == (SquareWidgetDesc {
                color,
                ..old(self).spec_description()
            }),
            final(self).spec_vertices() == old(self).spec_vertices(),
            final(self).spec_indices() == old(self).spec_indices(),
    ;

    fn get_color(&mut self) -> (color: [i64; 4])
        ensures
            color == old(self).spec_description().color,
            final(self).spec_description() == old(self).spec_description(),
            final(self).spec_vertices() == old(self).spec_vertices(),
            final(self).spec_indices() == old(self).spec_indices(),
    ;

    fn set_x(&mut self, x: i32)
        ensures
            final(self).spec_description() == (SquareWidgetDesc {
                x,
                ..old(self).spec_description()
            }),
            final(self).spec_vertices() == old(self).spec_vertices(),
            final(self).spec_indices() == old(self).spec_indices(),
    ;

    fn get_x(&self) -> (x: i32)
        ensures
            x == self.spec_description().x,
    ;

    fn set_y(&mut self, y: i32)
        ensures
            final(self).spec_description() == (SquareWidgetDesc {
                y,
                ..old(self).spec_description()
            }),
            final(self).spec_vertices() == old(self).spec_vertices(),
            final(self).spec_indices() == old(self).spec_indices(),
    ;

    fn get_y(&self) -> (y: i32)
        ensures
            y == self.spec_description().y,
    ;

    fn set_width(&mut self, width: i32)
        ensures
            final(self).spec_description() == (SquareWidgetDesc {
                width,
                ..old(self).spec_description()
            }),
            final(self).spec_vertices() == old(self).spec_vertices(),
            final(self).spec_indices() == old(self).spec_indices(),
    ;

    fn get_width(&mut self) -> (width: i32)
        ensures
            width == old(self).spec_description().width,
            final(self).spec_description() == old(self).spec_description(),
            final(self).spec_vertices() == old(self).spec_vertices(),
            final(self).spec_indices() == old(self).spec_indices(),
    ;

    fn set_height(&mut self, height: i32)
        ensures
            final(self).spec_description() == (SquareWidgetDesc {
                height,
                ..old(self).spec_description()
            }),
            final(self).spec_vertices() == old(self).spec_vertices(),
            final(self).spec_indices() == old(self).spec_indices(),
    ;

    fn get_height(&mut self) -> (height: i32)
        ensures
            height == old(self).spec_description().height,
            final(self).spec_description() == old(self).spec_description(),
            final(self).spec_vertices() == old(self).spec_vertices(),
            final(self).spec_indices() == old(self).spec_indices(),
    ;

    fn get_vertices(&self) -> (vertices: &[Vertex])
        ensures
            vertices@ == self.spec_vertices(),
    ;

    fn get_indices(&self) -> (indices: &[u16])
        ensures
            indices@ == self.spec_indices(),
    ;

    /// A copy of the shape on the heap, ready to be registered.
    fn build(&self) -> (boxed: Box<Self>) where Self: Sized
        ensures
            *boxed == *self,
    ;
}

/// A shape that knows how its vertices are laid out in a vertex buffer.
pub trait WidgetVertex {
    /// `layout` is the layout of this shape's vertices.
    spec fn is_vertex_desc(&self, layout: VertexBufferLayout) -> bool;

    fn get_vertex_desc(&self) -> (layout: VertexBufferLayout)
        ensures
            self.is_vertex_desc(layout),
    ;
}

/// A shape that can be registered with a graphics context.
pub trait WidgetRender: Widget + WidgetVertex {
    /// `descriptor` is the pipeline that draws this shape to a surface of
    /// the given format.
    spec fn is_pipeline(&self, format: TextureFormat, descriptor: RenderPipelineDescriptor) -> bool;

    /// `descriptor` is the shader of this shape.
    spec fn is_shader(&self, descriptor: ShaderModuleDescriptor) -> bool;

    /// The shader that the shape's pipeline runs.
    fn get_shader(&self, renderer: &AppRender) -> (descriptor: ShaderModuleDescriptor)
        ensures
            self.is_shader(descriptor),
    ;

    /// The pipeline that draws the shape. Its colour outputs have the format
    /// of the context's surface at the time of the call.
    fn get_pipeline(&self, renderer: &AppRender) -> (descriptor: RenderPipelineDescriptor)
        ensures
            self.is_pipeline(renderer.config.format, descriptor),
            descriptor.renders_to(renderer.config.format),
    ;
}

} // verus!
