//! The surface of the window: its size, its swap-chain configuration and the
//! ways in which acquiring a frame from it can fail.

use vstd::prelude::*;

verus! {

/// The pixel format of a surface, as the GPU library names it. The loop never
/// looks inside one: it picks the first that is offered and hands it back, so
/// the type is declared without its variants.
#[verifier::external_type_specification]
#[verifier::external_body]
pub struct ExTextureFormat(wgpu::TextureFormat);

/// A size in physical pixels.
#[derive(Clone, Copy, Debug, PartialEq, Eq, Structural)]
pub struct PhysicalSize {
    pub width: u32,
    pub height: u32,
}

/// How finished frames reach the display.
#[derive(Clone, Copy, Debug, PartialEq, Eq, Structural)]
pub enum PresentMode {
    AutoVsync,
    AutoNoVsync,
    /// Frames queue up and one is shown per vertical blank.
    Fifo,
    FifoRelaxed,
    Immediate,
    Mailbox,
}

/// How the compositor treats the alpha channel of the surface.
#[derive(Clone, Copy, Debug, PartialEq, Eq, Structural)]
pub enum CompositeAlphaMode {
    /// The surface picks a mode it supports.
    Auto,
    Opaque,
    PreMultiplied,
    PostMultiplied,
    Inherit,
}

/// The set of uses a swap-chain texture is created for.
#[derive(Clone, Copy, Debug, PartialEq, Eq, Structural)]
pub struct TextureUsages {
    pub copy_src: bool,
    pub copy_dst: bool,
    pub texture_binding: bool,
    pub storage_binding: bool,
    pub render_attachment: bool,
}

impl TextureUsages {
    /// The set that holds rendering into the texture and nothing else.
    pub open spec fn render_attachment_only() -> TextureUsages {
        TextureUsages {
            copy_src: false,
            copy_dst: false,
            texture_binding: false,
            storage_binding: false,
            render_attachment: true,
        }
    }
}

/// Why the surface gave no frame.
#[derive(Clone, Copy, Debug, PartialEq, Eq, Structural)]
pub enum SurfaceError {
    /// The frame did not arrive in time.
    Timeout,
    /// The surface has changed under the swap chain.
    Outdated,
    /// The swap chain is gone and has to be configured again.
    Lost,
    /// No memory is left for another frame.
    OutOfMemory,
}

/// The swap-chain configuration: what the surface is told whenever it is
/// configured.
#[derive(Clone, Copy, Debug, PartialEq, Eq)]
pub struct SurfaceConfiguration {
    pub usage: TextureUsages,
    pub format: wgpu::TextureFormat,
    pub width: u32,
    pub height: u32,
    pub present_mode: PresentMode,
    pub alpha_mode: CompositeAlphaMode,
}

impl SurfaceConfiguration {
    /// The configuration of a surface of the given size and format: frames
    /// are render targets, presented in lockstep with the vertical blank.
    pub open spec fn for_surface(size: PhysicalSize, format: wgpu::TextureFormat) -> SurfaceConfiguration {
        SurfaceConfiguration {
            usage: TextureUsages::render_attachment_only(),
            format,
            width: size.width,
            height: size.height,
            present_mode: PresentMode::Fifo,
            alpha_mode: CompositeAlphaMode::Auto,
        }
    }

    /// The same configuration at another size.
    pub open spec fn resized(self, size: PhysicalSize) -> SurfaceConfiguration {
        SurfaceConfiguration { width: size.width, height: size.height, ..self }
    }

    /// The size the swap chain is configured for.
    pub open spec fn size(self) -> PhysicalSize {
        PhysicalSize { width: self.width, height: self.height }
    }

    /// The fixed choices hold: render-target frames, FIFO presentation,
    /// automatic alpha.
    pub open spec fn wf(self) -> bool {
        &&& self.usage == TextureUsages::render_attachment_only()
        &&& self.present_mode == PresentMode::Fifo
        &&& self.alpha_mode == CompositeAlphaMode::Auto
    }

    /// Builds the configuration of a surface of the given size and format.
    pub fn new(size: PhysicalSize, format: wgpu::TextureFormat) -> (config: SurfaceConfiguration)
        ensures
            config == SurfaceConfiguration::for_surface(size, format),
    {
        SurfaceConfiguration {
            usage: TextureUsages {
                copy_src: false,
                copy_dst: false,
                texture_binding: false,
                storage_binding: false,
                render_attachment: true,
            },
            format,
            width: size.width,
            height: size.height,
            present_mode: PresentMode::Fifo,
            alpha_mode: CompositeAlphaMode::Auto,
        }
    }
}

/// Picks the format to configure the surface with: the first of those that the
/// surface and the adapter support together.
pub fn preferred_format(supported: &Vec<wgpu::TextureFormat>) -> (format: wgpu::TextureFormat)
    requires
        supported@.len() > 0,
    ensures
        format == supported@[0],
{
    supported[0]
}

} // verus!
