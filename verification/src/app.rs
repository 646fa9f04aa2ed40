//! The graphics context's state, the registration of widgets with it, and
//! what a frame consists of.
//!
//! Nothing here touches a window or a graphics device. The caller performs
//! what these functions decide: it configures the surface, creates buffers
//! and pipelines, and encodes the draw calls of a [`Frame`].

use crate::buffer::cast_indices;
use crate::buffer::in_memory_order;
use crate::buffer::INDEX;
use crate::buffer::VERTEX;
use crate::pipeline::IndexFormat;
use crate::pipeline::RenderPipelineDescriptor;
use crate::surface::configurable;
use crate::surface::configuration_for;
use crate::surface::init_config;
use crate::surface::PhysicalSize;
use crate::surface::SurfaceCapabilities;
use crate::surface::SurfaceConfiguration;
use crate::vertex::COLOR_SCALE;
use crate::widgets::WidgetRender;
use vstd::prelude::*;
use wgpu::SurfaceError;
use wgpu::TextureFormat;

verus! {

/// What the graphics context keeps of a registered widget: how many
/// vertices and how many indices its buffers hold. The buffers and the
/// pipeline themselves stay with the caller, in registration order.
#[derive(Debug, Clone, Copy, PartialEq, Eq, Structural)]
pub struct WidgetObject {
    pub vertex_len: u32,
    pub index_len: u32,
}

/// One indexed draw: the registered object whose pipeline and buffers are
/// bound, and the ranges of indices and instances drawn.
#[derive(Debug, Clone, Copy, PartialEq, Eq, Structural)]
pub struct DrawCall {
    /// The position of the object in registration order.
    pub object: usize,
    /// The slot that the object's vertex buffer is bound to.
    pub vertex_slot: u32,
    pub index_format: IndexFormat,
    pub first_index: u32,
    pub end_index: u32,
    pub base_vertex: i32,
    pub first_instance: u32,
    pub end_instance: u32,
}

/// What one frame consists of: the colour that the background is cleared
/// to, whether the result is stored, and the draw calls in their order.
#[derive(Debug, Clone)]
pub struct Frame {
    /// Red, green, blue and alpha, each multiplied by [`COLOR_SCALE`].
    pub clear: [i64; 4],
    pub store: bool,
    pub draws: Vec<DrawCall>,
}

/// The draw call for the object at position `i`: its whole index range,
/// once.
pub open spec fn draw_of(i: int, object: WidgetObject) -> DrawCall {
    DrawCall {
        object: i as usize,
        vertex_slot: 0,
        index_format: IndexFormat::Uint16,
        first_index: 0,
        end_index: object.index_len,
        base_vertex: 0,
        first_instance: 0,
        end_instance: 1,
    }
}

/// The draw calls of a frame over the given objects: one for each, in
/// registration order.
pub open spec fn draws_of(objects: Seq<WidgetObject>) -> Seq<DrawCall> {
    Seq::new(objects.len(), |i: int| draw_of(i, objects[i]))
}

/// The background colour of every frame: opaque green.
pub open spec fn background() -> Seq<i64> {
    seq![0i64, COLOR_SCALE, 0i64, COLOR_SCALE]
}

/// The error of a per-frame update. No update produces one.
#[derive(Debug, Clone, Copy, PartialEq, Eq, Structural)]
pub struct UpdateError {}

/// The state of the graphics context: the window's size, the surface's
/// configuration and the registered objects.
pub struct AppRender {
    pub size: PhysicalSize,
    pub config: SurfaceConfiguration,
    /// The registered objects, in registration order.
    pub widgets: Vec<WidgetObject>,
}

impl AppRender {
    /// The surface is configured at the window's size.
    pub open spec fn mirrors_window(&self) -> bool {
        &&& self.config.width == self.size.width
        &&& self.config.height == self.size.height
    }

    /// The state of a context whose surface was just created for a window
    /// of the given size: configured for that size, with nothing registered.
    pub fn new(capabilities: &SurfaceCapabilities, size: PhysicalSize) -> (renderer: Self)
        requires
            configurable(*capabilities),
        ensures
            renderer.size == size,
            configuration_for(*capabilities, size, renderer.config),
            renderer.widgets@ == Seq::<WidgetObject>::empty(),
            renderer.mirrors_window(),
    {
        let config = init_config(capabilities, size);
        AppRender { size, config, widgets: Vec::new() }
    }

    /// The context after its window took the size `new_size`: the
    /// surface's configuration follows the size, and nothing else changes.
    pub open spec fn resized(self, new_size: PhysicalSize) -> AppRender {
        AppRender {
            size: new_size,
            config: SurfaceConfiguration {
                width: new_size.width,
                height: new_size.height,
                ..self.config
            },
            ..self
        }
    }

    /// Takes over a new window size. The caller then configures the surface
    /// with the changed configuration.
    pub fn resize(&mut self, new_size: PhysicalSize)
        ensures
            *final(self) == old(self).resized(new_size),
            final(self).mirrors_window(),
    {
        self.size = new_size;
        self.config.height = new_size.height;
        self.config.width = new_size.width;
    }

    /// The per-frame update. It changes nothing and always succeeds.
    pub fn update(&mut self) -> (result: Result<(), UpdateError>)
        ensures
            result is Ok,
            *final(self) == *old(self),
    {
        Ok(())
    }

    /// Decides what a frame consists of, once the caller has tried to
    /// acquire the surface's next image. Where that failed, the failure is
    /// handed back and nothing is drawn; where it succeeded, the result is
    /// the frame to encode, submit and present.
    pub fn render(&self, acquired: Result<(), SurfaceError>) -> (result: Result<
        Frame,
        SurfaceError,
    >)
        ensures
            match acquired {
                Ok(_) => match result {
                    Ok(frame) => {
                        &&& frame.clear@ == background()
                        &&& frame.store
                        &&& frame.draws@ == draws_of(self.widgets@)
                    },
                    Err(_) => false,
                },
                Err(error) => result == Err::<Frame, SurfaceError>(error),
            },
    {
        match acquired {
            Ok(_) => Ok(self.frame()),
            Err(error) => Err(error),
        }
    }

    /// The frame to draw now: the background cleared, then every registered
    /// object drawn once over its whole index range, in registration order.
    pub fn frame(&self) -> (frame: Frame)
        ensures
            frame.clear@ == background(),
            frame.store,
            frame.draws@ == draws_of(self.widgets@),
    {
        let mut draws: Vec<DrawCall> = Vec::new();
        let mut i: usize = 0;
        while i < self.widgets.len()
            invariant
                i <= self.widgets@.len(),
                draws@ == draws_of(self.widgets@.take(i as int)),
            decreases self.widgets@.len() - i,
        {
            let object = self.widgets[i];
            draws.push(
                DrawCall {
                    object: i,
                    vertex_slot: 0,
                    index_format: IndexFormat::Uint16,
                    first_index: 0,
                    end_index: object.index_len,
                    base_vertex: 0,
                    first_instance: 0,
                    end_instance: 1,
                },
            );
            assert(draws@ =~= draws_of(self.widgets@.take(i + 1)));
            i += 1;
        }
        assert(self.widgets@.take(i as int) =~= self.widgets@);
        let clear: [i64; 4] = [0, COLOR_SCALE, 0, COLOR_SCALE];
        assert(clear@ =~= background());
        Frame { clear, store: true, draws }
    }
}

/// What the caller creates on the graphics device for a widget that was
/// just registered: a vertex buffer with the widget's vertices, an index
/// buffer with the given contents, and a pipeline.
pub struct Registration {
    /// What the context has recorded of the widget.
    pub object: WidgetObject,
    /// The usage flags of the vertex buffer.
    pub vertex_usage: u32,
    /// The contents of the index buffer.
    pub index_contents: Vec<u8>,
    /// The usage flags of the index buffer.
    pub index_usage: u32,
    pub pipeline: RenderPipelineDescriptor,
}

/// `registration` is what registering `object` yields with a context whose
/// surface has the given format: the lengths of the widget's vertex and
/// index arrays as 32-bit counts, the indices as bytes, and a pipeline that
/// renders to that format.
pub open spec fn registers<W: WidgetRender>(
    object: &W,
    format: TextureFormat,
    registration: Registration,
) -> bool {
    &&& registration.object.vertex_len == object.spec_vertices().len() as u32
    &&& registration.object.index_len == object.spec_indices().len() as u32
    &&& registration.vertex_usage == VERTEX
    &&& registration.index_usage == INDEX
    &&& in_memory_order(object.spec_indices(), registration.index_contents@)
    &&& object.is_pipeline(format, registration.pipeline)
    &&& registration.pipeline.renders_to(format)
}

/// The objects that a context records for the given registrations.
pub open spec fn objects_of(registrations: Seq<Registration>) -> Seq<WidgetObject> {
    Seq::new(registrations.len(), |i: int| registrations[i].object)
}

/// The widgets of an application, in the order in which they are
/// registered and drawn.
pub struct App<W: WidgetRender> {
    pub widgets: Vec<Box<W>>,
}

impl<W: WidgetRender> App<W> {
    pub fn new(widgets: Vec<Box<W>>) -> (app: Self)
        ensures
            app.widgets == widgets,
    {
        Self { widgets }
    }

    /// Registers a widget with the context, behind those already there.
    pub fn register_object(renderer: &mut AppRender, object: &W) -> (registration: Registration)
        ensures
            final(renderer).widgets@ == old(renderer).widgets@.push(registration.object),
            final(renderer).size == old(renderer).size,
            final(renderer).config == old(renderer).config,
            registers(object, old(renderer).config.format, registration),
    {
        let index_contents = cast_indices(object.get_indices());
        let vertex_len = #[verifier::truncate] (object.get_vertices().len() as u32);
        let index_len = #[verifier::truncate] (object.get_indices().len() as u32);
        let pipeline = object.get_pipeline(renderer);
        let widget = WidgetObject { vertex_len, index_len };
        renderer.widgets.push(widget);
        Registration {
            object: widget,
            vertex_usage: VERTEX,
            index_contents,
            index_usage: INDEX,
            pipeline,
        }
    }

    /// Registers every widget of the application with the context, in
    /// order, behind what is registered already.
    pub fn register_widgets(&self, renderer: &mut AppRender) -> (registrations: Vec<Registration>)
        ensures
            registrations@.len() == self.widgets@.len(),
            forall|i: int|
                0 <= i < self.widgets@.len() ==> registers(
                    &*self.widgets@[i],
                    old(renderer).config.format,
                    #[trigger] registrations@[i],
                ),
            final(renderer).widgets@ == old(renderer).widgets@ + objects_of(registrations@),
            final(renderer).size == old(renderer).size,
            final(renderer).config == old(renderer).config,
    {
        let mut registrations: Vec<Registration> = Vec::new();
        let mut i: usize = 0;
        while i < self.widgets.len()
            invariant
                i <= self.widgets@.len(),
                registrations@.len() == i,
                forall|j: int|
                    0 <= j < i ==> registers(
                        &*self.widgets@[j],
                        old(renderer).config.format,
                        #[trigger] registrations@[j],
                    ),
                renderer.widgets@ == old(renderer).widgets@ + objects_of(registrations@),
                renderer.size == old(renderer).size,
                renderer.config == old(renderer).config,
            decreases self.widgets@.len() - i,
        {
            let ghost before = registrations@;
            let registration = Self::register_object(renderer, &self.widgets[i]);
            registrations.push(registration);
            assert(objects_of(registrations@) =~= objects_of(before).push(registration.object));
            assert(renderer.widgets@ =~= old(renderer).widgets@ + objects_of(registrations@));
            i += 1;
        }
        registrations
    }
}

/// Whatever size a window takes, the surface is then configured at that
/// size, in the format and with the modes it had, and the frame to draw is
/// the same as before.
pub proof fn lemma_resize_follows_window(renderer: AppRender, new_size: PhysicalSize)
    ensures
        renderer.resized(new_size).mirrors_window(),
        renderer.resized(new_size).size == new_size,
        renderer.resized(new_size).config.width == new_size.width,
        renderer.resized(new_size).config.height == new_size.height,
        renderer.resized(new_size).config.format == renderer.config.format,
        renderer.resized(new_size).config.present_mode == renderer.config.present_mode,
        renderer.resized(new_size).config.alpha_mode == renderer.config.alpha_mode,
        renderer.resized(new_size).config.usage == renderer.config.usage,
        draws_of(renderer.resized(new_size).widgets@) == draws_of(renderer.widgets@),
        renderer.resized(new_size).resized(new_size) == renderer.resized(new_size),
{
}

/// A frame draws every registered object exactly once, in registration
/// order, over all of its indices.
pub proof fn lemma_frame_draws_each_object_once(objects: Seq<WidgetObject>)
    requires
        objects.len() <= usize::MAX,
    ensures
        draws_of(objects).len() == objects.len(),
        forall|i: int|
            0 <= i < objects.len() ==> {
                &&& (#[trigger] draws_of(objects)[i]).object == i
                &&& draws_of(objects)[i].first_index == 0
                &&& draws_of(objects)[i].end_index == objects[i].index_len
            },
{
    assert forall|i: int| 0 <= i < objects.len() implies {
        &&& (#[trigger] draws_of(objects)[i]).object == i
        &&& draws_of(objects)[i].first_index == 0
        &&& draws_of(objects)[i].end_index == objects[i].index_len
    } by {
        assert(draws_of(objects)[i] == draw_of(i, objects[i]));
    }
}

/// Where the lengths of a widget's arrays fit in 32 bits, the recorded
/// counts are those lengths.
pub proof fn lemma_registered_counts<W: WidgetRender>(
    object: &W,
    format: TextureFormat,
    registration: Registration,
)
    requires
        registers(object, format, registration),
    ensures
        object.spec_vertices().len() <= u32::MAX ==> registration.object.vertex_len
            == object.spec_vertices().len(),
        object.spec_indices().len() <= u32::MAX ==> registration.object.index_len
            == object.spec_indices().len(),
{
}

} // verus!
