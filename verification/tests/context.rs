use wgpu::CompositeAlphaMode;
use wgpu::PresentMode;
use wgpu::SurfaceError;
use wgpu::TextureFormat;
use widget_frame::app::App;
use widget_frame::app::AppRender;
use widget_frame::app::DrawCall;
use widget_frame::app::WidgetObject;
use widget_frame::buffer::INDEX;
use widget_frame::buffer::VERTEX;
use widget_frame::pipeline::IndexFormat;
use widget_frame::surface::PhysicalSize;
use widget_frame::surface::SurfaceCapabilities;
use widget_frame::surface::RENDER_ATTACHMENT;
use widget_frame::vertex::COLOR_SCALE;
use widget_frame::widgets::square::SquareWidget;
use widget_frame::widgets::square::SquareWidgetDesc;
use widget_frame::widgets::Widget;

fn renderer() -> AppRender {
    let capabilities = SurfaceCapabilities {
        formats: vec![TextureFormat::Bgra8Unorm, TextureFormat::Bgra8UnormSrgb],
        present_modes: vec![PresentMode::Fifo, PresentMode::Immediate],
        alpha_modes: vec![CompositeAlphaMode::Opaque],
    };
    AppRender::new(&capabilities, PhysicalSize { width: 600, height: 300 })
}

fn sample(height: i32) -> SquareWidget<'static> {
    SquareWidget::new(SquareWidgetDesc { width: 100, height, x: 0, y: 0, color: [100, 0, 0, 100] })
}

fn draw(object: usize, end_index: u32) -> DrawCall {
    DrawCall {
        object,
        vertex_slot: 0,
        index_format: IndexFormat::Uint16,
        first_index: 0,
        end_index,
        base_vertex: 0,
        first_instance: 0,
        end_instance: 1,
    }
}

#[test]
fn new_context_is_configured_for_the_window_and_empty() {
    let r = renderer();
    assert_eq!(r.size, PhysicalSize { width: 600, height: 300 });
    assert_eq!(r.config.width, 600);
    assert_eq!(r.config.height, 300);
    assert_eq!(r.config.format, TextureFormat::Bgra8UnormSrgb);
    assert_eq!(r.config.present_mode, PresentMode::Fifo);
    assert_eq!(r.config.alpha_mode, CompositeAlphaMode::Opaque);
    assert_eq!(r.config.usage, RENDER_ATTACHMENT);
    assert!(r.config.view_formats.is_empty());
    assert!(r.widgets.is_empty());
}

#[test]
fn resize_changes_size_and_configured_dimensions_only() {
    let mut r = renderer();
    App::register_object(&mut r, &sample(20));
    r.resize(PhysicalSize { width: 1280, height: 720 });
    assert_eq!(r.size, PhysicalSize { width: 1280, height: 720 });
    assert_eq!(r.config.width, 1280);
    assert_eq!(r.config.height, 720);
    assert_eq!(r.config.format, TextureFormat::Bgra8UnormSrgb);
    assert_eq!(r.config.present_mode, PresentMode::Fifo);
    assert_eq!(r.config.alpha_mode, CompositeAlphaMode::Opaque);
    assert_eq!(r.config.usage, RENDER_ATTACHMENT);
    assert_eq!(r.widgets, vec![WidgetObject { vertex_len: 4, index_len: 6 }]);
}

#[test]
fn resize_then_render_draws_at_any_size() {
    for (w, h) in [(1u32, 1u32), (600, 300), (u32::MAX, 1), (7, u32::MAX)] {
        let mut r = renderer();
        App::register_object(&mut r, &sample(20));
        r.resize(PhysicalSize { width: w, height: h });
        assert_eq!((r.config.width, r.config.height), (w, h));
        assert_eq!((r.size.width, r.size.height), (w, h));
        let frame = r.render(Ok(())).unwrap();
        assert_eq!(frame.draws, vec![draw(0, 6)]);
    }
}

#[test]
fn update_changes_nothing() {
    let mut r = renderer();
    App::register_object(&mut r, &sample(20));
    assert!(r.update().is_ok());
    assert_eq!(r.size, PhysicalSize { width: 600, height: 300 });
    assert_eq!(r.config.width, 600);
    assert_eq!(r.widgets.len(), 1);
}

#[test]
fn registering_records_the_lengths_of_the_arrays() {
    let mut r = renderer();
    let registration = App::register_object(&mut r, &sample(100));
    assert_eq!(registration.object, WidgetObject { vertex_len: 4, index_len: 6 });
    assert_eq!(r.widgets, vec![WidgetObject { vertex_len: 4, index_len: 6 }]);
    assert_eq!(registration.vertex_usage, VERTEX);
    assert_eq!(registration.index_usage, INDEX);
    assert_eq!(registration.vertex_usage, wgpu::BufferUsages::VERTEX.bits());
    assert_eq!(registration.index_usage, wgpu::BufferUsages::INDEX.bits());
    let target = registration.pipeline.fragment.unwrap().targets[0].unwrap();
    assert_eq!(target.format, TextureFormat::Bgra8UnormSrgb);
}

#[test]
fn index_contents_are_the_indices_in_memory_order() {
    let mut r = renderer();
    let registration = App::register_object(&mut r, &sample(100));
    let mut expected: Vec<u8> = Vec::new();
    for i in [0u16, 2, 1, 2, 3, 1] {
        expected.extend_from_slice(&i.to_ne_bytes());
    }
    assert_eq!(registration.index_contents, expected);
    assert_eq!(registration.index_contents.len(), 12);
}

#[test]
fn blank_widget_registers_with_no_indices() {
    let mut r = renderer();
    let blank = SquareWidget::create();
    let registration = App::register_object(&mut r, &blank);
    assert_eq!(registration.object, WidgetObject { vertex_len: 4, index_len: 0 });
    assert!(registration.index_contents.is_empty());
    assert_eq!(r.render(Ok(())).unwrap().draws, vec![draw(0, 0)]);
}

#[test]
fn registering_n_widgets_keeps_n_objects() {
    for n in 0..5usize {
        let mut widgets = Vec::new();
        for k in 0..n {
            widgets.push(sample(k as i32).build());
        }
        let app = App::new(widgets);
        assert_eq!(app.widgets.len(), n);
        let mut r = renderer();
        let registrations = app.register_widgets(&mut r);
        assert_eq!(registrations.len(), n);
        assert_eq!(r.widgets.len(), n);
        for (k, object) in r.widgets.iter().enumerate() {
            assert_eq!(object.index_len as usize, app.widgets[k].get_indices().len());
            assert_eq!(object.vertex_len as usize, app.widgets[k].get_vertices().len());
            assert_eq!(*object, registrations[k].object);
        }
    }
}

#[test]
fn the_same_widget_registered_twice_gives_two_objects() {
    let mut r = renderer();
    let widget = sample(20);
    App::register_object(&mut r, &widget);
    App::register_object(&mut r, &widget);
    assert_eq!(r.widgets.len(), 2);
    assert_eq!(r.widgets[0], r.widgets[1]);
}

#[test]
fn register_widgets_appends_behind_what_is_there() {
    let mut r = renderer();
    App::register_object(&mut r, &SquareWidget::create());
    let app = App::new(vec![sample(1).build(), sample(2).build()]);
    app.register_widgets(&mut r);
    assert_eq!(
        r.widgets,
        vec![
            WidgetObject { vertex_len: 4, index_len: 0 },
            WidgetObject { vertex_len: 4, index_len: 6 },
            WidgetObject { vertex_len: 4, index_len: 6 },
        ]
    );
    assert_eq!(r.size, PhysicalSize { width: 600, height: 300 });
    assert_eq!(r.config.width, 600);
}

#[test]
fn frame_draws_every_object_once_in_registration_order() {
    let mut r = renderer();
    let app = App::new(vec![sample(1).build(), SquareWidget::create().build(), sample(3).build()]);
    app.register_widgets(&mut r);
    let frame = r.frame();
    assert_eq!(frame.clear, [0, COLOR_SCALE, 0, COLOR_SCALE]);
    assert_eq!(frame.clear, [0, 100, 0, 100]);
    assert!(frame.store);
    assert_eq!(frame.draws, vec![draw(0, 6), draw(1, 0), draw(2, 6)]);
}

#[test]
fn frame_of_an_empty_context_only_clears() {
    let frame = renderer().frame();
    assert_eq!(frame.clear, [0, 100, 0, 100]);
    assert!(frame.draws.is_empty());
}

#[test]
fn render_hands_back_the_failure_and_draws_nothing() {
    let mut r = renderer();
    App::register_object(&mut r, &sample(20));
    for error in [
        SurfaceError::Timeout,
        SurfaceError::Outdated,
        SurfaceError::Lost,
        SurfaceError::OutOfMemory,
    ] {
        assert_eq!(r.render(Err(error.clone())).err(), Some(error));
    }
}

#[test]
fn render_after_acquisition_is_the_frame() {
    let mut r = renderer();
    App::register_object(&mut r, &sample(20));
    let frame = r.render(Ok(())).unwrap();
    assert_eq!(frame.draws, r.frame().draws);
    assert_eq!(frame.clear, r.frame().clear);
    assert!(frame.store);
}
