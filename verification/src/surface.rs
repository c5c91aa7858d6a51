//! The presentable surface of the window: its configuration and its size.
use crate::format::{choose_format, is_preferred, srgb_flags};
use crate::geometry::{logical_size_of, LogicalSize, PhysicalSize, ScaleFactor};
use crate::narrow::{f64_is_positive_normal, narrowed};
use vstd::prelude::*;

verus! {

/// Why a frame could not be acquired from the surface.
#[derive(Clone, Copy, Debug, PartialEq, Eq, Structural)]
pub enum SurfaceError {
    /// Acquiring the frame took too long.
    Timeout,
    /// The surface has changed underneath the swap chain.
    Outdated,
    /// The swap chain is lost and has to be made again.
    Lost,
    /// No memory is left for a new frame.
    OutOfMemory,
}

/// How frames are handed to the display.
#[derive(Clone, Copy, Debug, PartialEq, Eq, Structural)]
pub enum PresentMode {
    AutoVsync,
    AutoNoVsync,
    Fifo,
    FifoRelaxed,
    Immediate,
    Mailbox,
}

/// What a texture may be used for.
#[derive(Clone, Copy, Debug, PartialEq, Eq, Structural)]
pub struct TextureUsages {
    pub copy_src: bool,
    pub copy_dst: bool,
    pub texture_binding: bool,
    pub storage_binding: bool,
    pub render_attachment: bool,
}

/// What an adapter supports on a surface.
#[derive(Debug)]
pub struct SurfaceCapabilities {
    pub formats: Vec<wgpu::TextureFormat>,
    pub alpha_modes: Vec<wgpu::CompositeAlphaMode>,
}

/// What a surface is configured with.
#[derive(Clone, Copy, Debug, PartialEq)]
pub struct SurfaceConfiguration {
    pub usage: TextureUsages,
    pub format: wgpu::TextureFormat,
    pub width: u32,
    pub height: u32,
    pub present_mode: PresentMode,
    pub alpha_mode: wgpu::CompositeAlphaMode,
}

impl TextureUsages {
    /// A texture that is drawn to and nothing else.
    pub open spec fn attachment_only() -> Self {
        TextureUsages {
            copy_src: false,
            copy_dst: false,
            texture_binding: false,
            storage_binding: false,
            render_attachment: true,
        }
    }

    /// A texture that is drawn to in one pass and sampled in another.
    pub open spec fn sampled_attachment() -> Self {
        TextureUsages {
            copy_src: false,
            copy_dst: false,
            texture_binding: true,
            storage_binding: false,
            render_attachment: true,
        }
    }
}

impl SurfaceCapabilities {
    /// A surface that the adapter cannot present to reports no format; one
    /// that it can reports at least one format and one alpha mode.
    pub open spec fn is_compatible(self) -> bool {
        self.formats@.len() > 0 && self.alpha_modes@.len() > 0
    }
}

/// The configuration of a window's surface: a render attachment of the
/// window's size, paced by the display, in the preferred format and the
/// first alpha mode of the capabilities.
pub open spec fn is_window_configuration(
    config: SurfaceConfiguration,
    caps: SurfaceCapabilities,
    size: PhysicalSize,
) -> bool {
    &&& config.usage == TextureUsages::attachment_only()
    &&& exists|k: int| #[trigger]
        is_preferred(srgb_flags(caps.formats@), k) && config.format == caps.formats@[k]
    &&& config.width == size.width
    &&& config.height == size.height
    &&& config.present_mode == PresentMode::Fifo
    &&& config.alpha_mode == caps.alpha_modes@[0]
}

/// Chooses the configuration for a window's surface.
pub fn create_window_surface(caps: &SurfaceCapabilities, size: PhysicalSize) -> (config:
    SurfaceConfiguration)
    requires
        caps.is_compatible(),
    ensures
        is_window_configuration(config, *caps, size),
{
    let (k, format) = choose_format(&caps.formats);
    SurfaceConfiguration {
        usage: TextureUsages {
            copy_src: false,
            copy_dst: false,
            texture_binding: false,
            storage_binding: false,
            render_attachment: true,
        },
        format,
        width: size.width,
        height: size.height,
        present_mode: PresentMode::Fifo,
        alpha_mode: caps.alpha_modes[0],
    }
}

/// What a [`SurfaceRenderer`] holds.
pub struct SurfaceState {
    pub config: SurfaceConfiguration,
    pub size: PhysicalSize,
    pub scale_fac: ScaleFactor,
}

impl SurfaceState {
    /// The configuration asks for the size that the renderer believes the
    /// surface to have.
    pub open spec fn is_consistent(self) -> bool {
        self.config.width == self.size.width && self.config.height == self.size.height
    }

    /// The state after a request to resize: a size with a zero side (a
    /// minimised window) is ignored.
    pub open spec fn resized(self, new_size: PhysicalSize) -> SurfaceState {
        if new_size.is_drawable() {
            SurfaceState {
                config: SurfaceConfiguration {
                    width: new_size.width,
                    height: new_size.height,
                    ..self.config
                },
                size: new_size,
                scale_fac: self.scale_fac,
            }
        } else {
            self
        }
    }
}

/// The window's surface as the compositor sees it: the configuration that
/// the surface has, its size in physical pixels, and the window's scale
/// factor.
pub struct SurfaceRenderer {
    config: SurfaceConfiguration,
    size: PhysicalSize,
    scale_fac: ScaleFactor,
}

/// The size and scale factor that the renderer of the user interface draws
/// with.
#[derive(Clone, Copy, Debug, PartialEq, Eq, Structural)]
pub struct ScreenDescriptor {
    /// The scale factor, a single-precision pattern.
    pub pixels_per_point: u32,
    pub size_in_pixels: PhysicalSize,
}

impl View for SurfaceRenderer {
    type V = SurfaceState;

    closed spec fn view(&self) -> SurfaceState {
        SurfaceState { config: self.config, size: self.size, scale_fac: self.scale_fac }
    }
}

impl SurfaceRenderer {
    /// The renderer of a window of the given size and scale factor, on a
    /// surface with the given capabilities.
    pub fn from_window(
        size: PhysicalSize,
        scale_fac: ScaleFactor,
        caps: &SurfaceCapabilities,
    ) -> (r: Self)
        requires
            caps.is_compatible(),
        ensures
            r@.size == size,
            r@.scale_fac == scale_fac,
            is_window_configuration(r@.config, *caps, size),
            r@.is_consistent(),
    {
        let config = create_window_surface(caps, size);
        SurfaceRenderer { config, size, scale_fac }
    }

    pub fn format(&self) -> (f: wgpu::TextureFormat)
        ensures
            f == self@.config.format,
    {
        self.config.format
    }

    /// The configuration to configure the surface with.
    pub fn configure(&self) -> (c: SurfaceConfiguration)
        ensures
            c == self@.config,
    {
        self.config
    }

    pub fn set_width(&mut self, new_width: u32)
        ensures
            final(self)@ == (SurfaceState {
                config: SurfaceConfiguration { width: new_width, ..old(self)@.config },
                ..old(self)@
            }),
    {
        self.config.width = new_width
    }

    pub fn set_height(&mut self, new_height: u32)
        ensures
            final(self)@ == (SurfaceState {
                config: SurfaceConfiguration { height: new_height, ..old(self)@.config },
                ..old(self)@
            }),
    {
        self.config.height = new_height
    }

    /// Takes in the outcome of acquiring the next frame. A lost surface is
    /// brought back to its last known size; the outcome is handed on as it
    /// came.
    pub fn get_current_texture(&mut self, acquired: Result<(), SurfaceError>) -> (r: Result<
        (),
        SurfaceError,
    >)
        ensures
            r == acquired,
            acquired == Err::<(), SurfaceError>(SurfaceError::Lost) ==> final(self)@
                == old(self)@.resized(old(self)@.size),
            acquired != Err::<(), SurfaceError>(SurfaceError::Lost) ==> final(self)@ == old(self)@,
    {
        match acquired {
            Err(SurfaceError::Lost) => {
                let size = self.size;
                self.resize(size);
                Err(SurfaceError::Lost)
            },
            x => x,
        }
    }

    /// Resizes the surface, unless the new size has a zero side. Returns
    /// whether the surface has to be configured anew.
    pub fn resize(&mut self, new_size: PhysicalSize) -> (configure: bool)
        ensures
            final(self)@ == old(self)@.resized(new_size),
            configure == new_size.is_drawable(),
    {
        if new_size.width > 0 && new_size.height > 0 {
            self.size = new_size;
            self.set_width(new_size.width);
            self.set_height(new_size.height);
            true
        } else {
            false
        }
    }

    /// Resizes the surface to the size it has. Returns whether the surface
    /// has to be configured anew.
    pub fn reconfigure(&mut self) -> (configure: bool)
        ensures
            final(self)@ == old(self)@.resized(old(self)@.size),
            configure == old(self)@.size.is_drawable(),
    {
        let size = self.size;
        self.resize(size)
    }

    pub fn set_scale_factor(&mut self, new_scale_fac: ScaleFactor)
        ensures
            final(self)@ == (SurfaceState { scale_fac: new_scale_fac, ..old(self)@ }),
    {
        self.scale_fac = new_scale_fac
    }

    pub fn size(&self) -> (s: PhysicalSize)
        ensures
            s == self@.size,
    {
        self.size
    }

    /// What the renderer of the user interface draws with: the size of the
    /// surface and its scale factor in single precision.
    pub fn screen_descriptor(&self) -> (d: ScreenDescriptor)
        ensures
            d.pixels_per_point == self@.scale_fac.single,
            self@.scale_fac.is_narrowed() ==> d.pixels_per_point == narrowed(
                self@.scale_fac.double,
            ),
            d.size_in_pixels == self@.size,
    {
        ScreenDescriptor { pixels_per_point: self.scale_fac.single, size_in_pixels: self.size }
    }

    /// The size of the surface in logical points, as the window-size
    /// uniform holds it; none where the scale factor is not a positive
    /// normal number.
    pub fn logical_size(&self) -> (r: Option<LogicalSize>)
        ensures
            r is Some <==> f64_is_positive_normal(self@.scale_fac.double),
            r matches Some(logical) ==> logical == logical_size_of(
                self@.size,
                self@.scale_fac.double,
            ),
    {
        self.size.to_logical(self.scale_fac.double)
    }

    pub fn get_scale_fac(&self) -> (s: ScaleFactor)
        ensures
            s == self@.scale_fac,
    {
        self.scale_fac
    }
}

/// Resizing establishes consistency, and resizing twice to one size is
/// resizing once.
pub proof fn lemma_resize_is_idempotent(s: SurfaceState, new_size: PhysicalSize)
    ensures
        s.resized(new_size).resized(new_size) == s.resized(new_size),
        new_size.is_drawable() ==> s.resized(new_size).is_consistent(),
        s.is_consistent() ==> s.resized(new_size).is_consistent(),
{
}

} // verus!
