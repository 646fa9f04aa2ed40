use wgpu::CompositeAlphaMode;
use wgpu::PresentMode;
use wgpu::TextureFormat;
use widget_frame::surface::init_config;
use widget_frame::surface::is_configurable;
use widget_frame::surface::preferred_format_index;
use widget_frame::surface::PhysicalSize;
use widget_frame::surface::SurfaceCapabilities;
use widget_frame::surface::RENDER_ATTACHMENT;

fn capabilities(formats: Vec<TextureFormat>) -> SurfaceCapabilities {
    SurfaceCapabilities {
        formats,
        present_modes: vec![PresentMode::Fifo, PresentMode::Mailbox],
        alpha_modes: vec![CompositeAlphaMode::Opaque, CompositeAlphaMode::Inherit],
    }
}

#[test]
fn first_srgb_format_is_preferred() {
    let formats = vec![
        TextureFormat::Bgra8Unorm,
        TextureFormat::Rgba8UnormSrgb,
        TextureFormat::Bgra8UnormSrgb,
    ];
    assert_eq!(preferred_format_index(&formats), 1);
    let config = init_config(&capabilities(formats), PhysicalSize { width: 600, height: 300 });
    assert_eq!(config.format, TextureFormat::Rgba8UnormSrgb);
}

#[test]
fn first_offer_is_the_fallback_without_srgb() {
    let formats = vec![TextureFormat::Rgba16Float, TextureFormat::Bgra8Unorm];
    assert_eq!(preferred_format_index(&formats), 0);
    let config = init_config(&capabilities(formats), PhysicalSize { width: 1, height: 2 });
    assert_eq!(config.format, TextureFormat::Rgba16Float);
}

#[test]
fn initial_configuration_takes_first_modes_and_the_size() {
    let caps = capabilities(vec![TextureFormat::Bgra8UnormSrgb]);
    assert!(is_configurable(&caps));
    let config = init_config(&caps, PhysicalSize { width: 600, height: 300 });
    assert_eq!(config.usage, RENDER_ATTACHMENT);
    assert_eq!(config.usage, wgpu::TextureUsages::RENDER_ATTACHMENT.bits());
    assert_eq!(config.width, 600);
    assert_eq!(config.height, 300);
    assert_eq!(config.present_mode, PresentMode::Fifo);
    assert_eq!(config.alpha_mode, CompositeAlphaMode::Opaque);
    assert!(config.view_formats.is_empty());
}

#[test]
fn capabilities_without_formats_are_not_configurable() {
    assert!(!is_configurable(&capabilities(vec![])));
    let mut caps = capabilities(vec![TextureFormat::Bgra8Unorm]);
    caps.present_modes.clear();
    assert!(!is_configurable(&caps));
    let mut caps = capabilities(vec![TextureFormat::Bgra8Unorm]);
    caps.alpha_modes.clear();
    assert!(!is_configurable(&caps));
}

#[test]
fn every_srgb_format_is_preferred_over_an_earlier_linear_one() {
    let srgb = [
        TextureFormat::Rgba8UnormSrgb,
        TextureFormat::Bgra8UnormSrgb,
        TextureFormat::Bc1RgbaUnormSrgb,
        TextureFormat::Bc2RgbaUnormSrgb,
        TextureFormat::Bc3RgbaUnormSrgb,
        TextureFormat::Bc7RgbaUnormSrgb,
        TextureFormat::Etc2Rgb8UnormSrgb,
        TextureFormat::Etc2Rgb8A1UnormSrgb,
        TextureFormat::Etc2Rgba8UnormSrgb,
        TextureFormat::Astc {
            block: wgpu::AstcBlock::B4x4,
            channel: wgpu::AstcChannel::UnormSrgb,
        },
    ];
    for format in srgb {
        assert_eq!(preferred_format_index(&vec![TextureFormat::Rgba8Unorm, format]), 1);
    }
}

#[test]
fn linear_formats_are_not_preferred() {
    let linear = [
        TextureFormat::Rgba8Unorm,
        TextureFormat::Bgra8Unorm,
        TextureFormat::Bc1RgbaUnorm,
        TextureFormat::Bc7RgbaUnorm,
        TextureFormat::Etc2Rgba8Unorm,
        TextureFormat::Rgb10a2Unorm,
        TextureFormat::Depth32Float,
        TextureFormat::Astc { block: wgpu::AstcBlock::B4x4, channel: wgpu::AstcChannel::Unorm },
        TextureFormat::Astc { block: wgpu::AstcBlock::B8x8, channel: wgpu::AstcChannel::Hdr },
    ];
    for format in linear {
        assert_eq!(preferred_format_index(&vec![TextureFormat::R8Unorm, format]), 0);
    }
}

#[test]
fn no_formats_gives_position_zero() {
    assert_eq!(preferred_format_index(&vec![]), 0);
}
