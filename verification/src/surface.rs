//! Choosing how a window's surface is configured, from what the platform
//! offers for it.

use vstd::prelude::*;
use wgpu::AstcChannel;
use wgpu::CompositeAlphaMode;
use wgpu::PresentMode;
use wgpu::SurfaceError;
use wgpu::TextureFormat;

verus! {

/// `wgpu::TextureFormat`, with its variants as the graphics API declares
/// them.
#[verifier::external_type_specification]
pub struct ExTextureFormat(wgpu::TextureFormat);

/// `wgpu::AstcChannel`, with its variants as the graphics API declares
/// them.
#[verifier::external_type_specification]
pub struct ExAstcChannel(wgpu::AstcChannel);

/// `wgpu::AstcBlock`: carried along inside a format, never looked into.
#[verifier::external_type_specification]
#[verifier::external_body]
pub struct ExAstcBlock(wgpu::AstcBlock);

/// `wgpu::PresentMode`: handed from the capabilities to the configuration,
/// never looked into.
#[verifier::external_type_specification]
#[verifier::external_body]
pub struct ExPresentMode(wgpu::PresentMode);

/// `wgpu::CompositeAlphaMode`: handed from the capabilities to the
/// configuration, never looked into.
#[verifier::external_type_specification]
#[verifier::external_body]
pub struct ExCompositeAlphaMode(wgpu::CompositeAlphaMode);

/// `wgpu::SurfaceError`, with its four variants as the graphics API
/// declares them.
#[verifier::external_type_specification]
pub struct ExSurfaceError(wgpu::SurfaceError);

/// Whether a texture format stores its colours sRGB-encoded: whether it
/// is one of the formats that have a counterpart without sRGB encoding.
pub open spec fn format_is_srgb(format: TextureFormat) -> bool {
    match format {
        TextureFormat::Rgba8UnormSrgb => true,
        TextureFormat::Bgra8UnormSrgb => true,
        TextureFormat::Bc1RgbaUnormSrgb => true,
        TextureFormat::Bc2RgbaUnormSrgb => true,
        TextureFormat::Bc3RgbaUnormSrgb => true,
        TextureFormat::Bc7RgbaUnormSrgb => true,
        TextureFormat::Etc2Rgb8UnormSrgb => true,
        TextureFormat::Etc2Rgb8A1UnormSrgb => true,
        TextureFormat::Etc2Rgba8UnormSrgb => true,
        TextureFormat::Astc { channel: AstcChannel::UnormSrgb, .. } => true,
        _ => false,
    }
}

/// `wgpu::TextureFormat::is_srgb` answers whether the format differs from
/// what `remove_srgb_suffix` makes of it, and that function changes exactly
/// the formats listed in [`format_is_srgb`].
pub assume_specification[ wgpu::TextureFormat::is_srgb ](format: &TextureFormat) -> (srgb: bool)
    ensures
        srgb == format_is_srgb(*format),
;

/// The bit of a surface's usage flags that allows rendering into it.
pub const RENDER_ATTACHMENT: u32 = 16;

/// The size of a window's drawable area, in physical pixels.
#[derive(Debug, Clone, Copy, PartialEq, Eq, Structural)]
pub struct PhysicalSize {
    pub width: u32,
    pub height: u32,
}

/// What a surface supports with a given adapter, most preferred first.
pub struct SurfaceCapabilities {
    pub formats: Vec<TextureFormat>,
    pub present_modes: Vec<PresentMode>,
    pub alpha_modes: Vec<CompositeAlphaMode>,
}

/// How a surface is set up for presentation.
pub struct SurfaceConfiguration {
    /// Usage flags of the surface's textures, as a bit set.
    pub usage: u32,
    pub format: TextureFormat,
    pub width: u32,
    pub height: u32,
    pub present_mode: PresentMode,
    pub alpha_mode: CompositeAlphaMode,
    /// Additional formats that views of the surface's textures may take.
    pub view_formats: Vec<TextureFormat>,
}

/// `k` is the position of the first sRGB format in `formats`.
pub open spec fn is_first_srgb(formats: Seq<TextureFormat>, k: int) -> bool {
    &&& 0 <= k < formats.len()
    &&& format_is_srgb(formats[k])
    &&& forall|j: int| 0 <= j < k ==> !format_is_srgb(#[trigger] formats[j])
}

/// The position of the format to render in: the first sRGB format where
/// there is one, else the platform's first offer.
pub open spec fn preferred_index(formats: Seq<TextureFormat>) -> int {
    if exists|k: int| is_first_srgb(formats, k) {
        choose|k: int| is_first_srgb(formats, k)
    } else {
        0
    }
}

/// At most one position is that of the first sRGB format.
pub proof fn lemma_first_srgb_unique(formats: Seq<TextureFormat>, a: int, b: int)
    requires
        is_first_srgb(formats, a),
        is_first_srgb(formats, b),
    ensures
        a == b,
{
    if a < b {
        assert(!format_is_srgb(formats[a]));
    } else if b < a {
        assert(!format_is_srgb(formats[b]));
    }
}

/// Finds the position of the format to render in.
pub fn preferred_format_index(formats: &Vec<TextureFormat>) -> (k: usize)
    ensures
        k == preferred_index(formats@),
        formats.len() > 0 ==> k < formats.len(),
{
    let mut i: usize = 0;
    while i < formats.len()
        invariant
            i <= formats.len(),
            forall|j: int| 0 <= j < i ==> !format_is_srgb(#[trigger] formats@[j]),
        decreases formats.len() - i,
    {
        if formats[i].is_srgb() {
            proof {
                assert(is_first_srgb(formats@, i as int));
                let c = choose|k: int| is_first_srgb(formats@, k);
                lemma_first_srgb_unique(formats@, i as int, c);
            }
            return i;
        }
        i += 1;
    }
    proof {
        assert forall|k: int| !is_first_srgb(formats@, k) by {
            if 0 <= k < formats.len() {
                assert(!format_is_srgb(formats@[k]));
            }
        }
    }
    0
}

/// The configuration for a surface of the given size: the preferred format,
/// the platform's first present mode and alpha mode, rendering as the only
/// usage, and no additional view formats.
pub open spec fn configuration_for(
    capabilities: SurfaceCapabilities,
    size: PhysicalSize,
    config: SurfaceConfiguration,
) -> bool {
    &&& config.usage == RENDER_ATTACHMENT
    &&& config.format == capabilities.formats@[preferred_index(capabilities.formats@)]
    &&& config.width == size.width
    &&& config.height == size.height
    &&& config.present_mode == capabilities.present_modes@[0]
    &&& config.alpha_mode == capabilities.alpha_modes@[0]
    &&& config.view_formats@ == Seq::<TextureFormat>::empty()
}

/// A surface can be configured only where the platform offers at least one
/// format, one present mode and one alpha mode for it.
pub open spec fn configurable(capabilities: SurfaceCapabilities) -> bool {
    &&& capabilities.formats@.len() > 0
    &&& capabilities.present_modes@.len() > 0
    &&& capabilities.alpha_modes@.len() > 0
}

/// Says whether [`init_config`] may be called on these capabilities.
pub fn is_configurable(capabilities: &SurfaceCapabilities) -> (ok: bool)
    ensures
        ok == configurable(*capabilities),
{
    capabilities.formats.len() > 0 && capabilities.present_modes.len() > 0
        && capabilities.alpha_modes.len() > 0
}

/// Builds the initial configuration of a surface.
pub fn init_config(capabilities: &SurfaceCapabilities, size: PhysicalSize) -> (config:
    SurfaceConfiguration)
    requires
        configurable(*capabilities),
    ensures
        configuration_for(*capabilities, size, config),
{
    let k = preferred_format_index(&capabilities.formats);
    SurfaceConfiguration {
        usage: RENDER_ATTACHMENT,
        format: capabilities.formats[k],
        width: size.width,
        height: size.height,
        present_mode: capabilities.present_modes[0],
        alpha_mode: capabilities.alpha_modes[0],
        view_formats: Vec::new(),
    }
}

} // verus!
