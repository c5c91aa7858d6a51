//! The off-screen mirror of the window: two textures of the surface's size,
//! a sampler, and the pipelines that are bound to them.
use crate::geometry::{logical_size_of, LogicalSize, PhysicalSize, ScaleFactor};
use crate::narrow::f64_is_positive_normal;
use crate::pipeline::{
    BufferInitDescriptor, BufferUsages, BufferWrite, PipelineId, PipelineRegistry, UniformBuffer,
    WindowPipelineRegistry,
};
use crate::surface::{SurfaceRenderer, SurfaceState, TextureUsages};
use crate::uniform::{size_words, words_to_bytes};
use vstd::prelude::*;

verus! {

/// A view of one of the two textures of a [`WindowTexture`].
#[derive(Clone, Copy, Debug, PartialEq, Eq, Structural)]
pub enum TextureView {
    /// The texture that holds the latest composited frame.
    Front,
    /// The scratch texture that the blur pass draws into.
    Back,
}

/// How many dimensions a texture has.
#[derive(Clone, Copy, Debug, PartialEq, Eq, Structural)]
pub enum TextureDimension {
    D1,
    D2,
    D3,
}

/// The extent of a texture.
#[derive(Clone, Copy, Debug, PartialEq, Eq, Structural)]
pub struct Extent3d {
    pub width: u32,
    pub height: u32,
    pub depth_or_array_layers: u32,
}

/// A texture.
#[derive(Clone, Copy, Debug, PartialEq)]
pub struct TextureDescriptor {
    pub size: Extent3d,
    pub mip_level_count: u32,
    pub sample_count: u32,
    pub dimension: TextureDimension,
    pub format: wgpu::TextureFormat,
    pub usage: TextureUsages,
}

/// What a sampler does with coordinates outside the texture.
#[derive(Clone, Copy, Debug, PartialEq, Eq, Structural)]
pub enum AddressMode {
    ClampToEdge,
    Repeat,
    MirrorRepeat,
    ClampToBorder,
}

/// How a sampler picks among texels.
#[derive(Clone, Copy, Debug, PartialEq, Eq, Structural)]
pub enum FilterMode {
    Nearest,
    Linear,
}

/// A sampler.
#[derive(Clone, Copy, Debug, PartialEq, Eq, Structural)]
pub struct SamplerDescriptor {
    pub address_mode_u: AddressMode,
    pub address_mode_v: AddressMode,
    pub address_mode_w: AddressMode,
    pub mag_filter: FilterMode,
    pub min_filter: FilterMode,
    pub mipmap_filter: FilterMode,
}

/// The texture that mirrors a surface: two-dimensional, of the surface's
/// size and format, single-sampled and without further mip levels, to be
/// drawn to in one pass and sampled in another.
pub open spec fn mirror_texture(surface: SurfaceState) -> TextureDescriptor {
    TextureDescriptor {
        size: Extent3d {
            width: surface.size.width,
            height: surface.size.height,
            depth_or_array_layers: 1,
        },
        mip_level_count: 1,
        sample_count: 1,
        dimension: TextureDimension::D2,
        format: surface.config.format,
        usage: TextureUsages::sampled_attachment(),
    }
}

/// The sampler of the mirror: coordinates outside the texture are mirrored
/// back into it, so that the blur reads no dark border; magnified linearly,
/// minified to the nearest texel.
pub open spec fn mirror_sampler() -> SamplerDescriptor {
    SamplerDescriptor {
        address_mode_u: AddressMode::MirrorRepeat,
        address_mode_v: AddressMode::MirrorRepeat,
        address_mode_w: AddressMode::MirrorRepeat,
        mag_filter: FilterMode::Linear,
        min_filter: FilterMode::Nearest,
        mipmap_filter: FilterMode::Nearest,
    }
}

/// The off-screen mirror of a window's surface with all that is bound to it.
/// It is made for one size and one scale factor and never changed: when
/// either changes, another is made.
#[derive(Debug, PartialEq)]
pub struct WindowTexture {
    pub texture: TextureDescriptor,
    pub back_texture: TextureDescriptor,
    pub sampler: SamplerDescriptor,
    pub pixels_per_point: ScaleFactor,
    pub size: PhysicalSize,
    pub logical_size: LogicalSize,
    pub pipeline_registry: WindowPipelineRegistry,
    pub window_size_uniform: BufferInitDescriptor,
    /// The write that puts the logical size into the window-size uniform
    /// once the pipelines are made.
    pub window_size_write: BufferWrite,
}

impl WindowTexture {
    /// The mirror is the one of the given surface: its textures have the
    /// surface's size and format, its uniform holds the surface's size in
    /// logical points, and its pipelines are bound to its own two textures.
    pub open spec fn mirrors(&self, surface: SurfaceState) -> bool {
        &&& self.texture == mirror_texture(surface)
        &&& self.back_texture == mirror_texture(surface)
        &&& self.sampler == mirror_sampler()
        &&& self.pixels_per_point == surface.scale_fac
        &&& self.size == surface.size
        &&& f64_is_positive_normal(surface.scale_fac.double)
        &&& self.logical_size == logical_size_of(surface.size, surface.scale_fac.double)
        &&& self.window_size_uniform.contents@ == words_to_bytes(size_words(self.logical_size))
        &&& self.window_size_uniform.usage == BufferUsages::written_uniform()
        &&& self.window_size_write.buffer == UniformBuffer::WindowSize
        &&& self.window_size_write.offset == 0
        &&& self.window_size_write.data@ == words_to_bytes(size_words(self.logical_size))
        &&& self.pipeline_registry.is_generated_for(
            surface.config.format,
            TextureView::Front,
            TextureView::Back,
        )
        &&& self.pipeline_registry.copy_bind_group.is_complete()
        &&& self.pipeline_registry.copy_back_bind_group.is_complete()
        &&& self.pipeline_registry.blur_rect_bind_group.is_complete()
        &&& self.pipeline_registry.copy_bind_group.samples(TextureView::Front)
        &&& self.pipeline_registry.copy_back_bind_group.samples(TextureView::Back)
        &&& self.pipeline_registry.blur_rect_bind_group.samples(TextureView::Front)
    }

    /// One of the two textures of the mirror.
    pub fn create_texture(renderer: &SurfaceRenderer) -> (t: TextureDescriptor)
        ensures
            t == mirror_texture(renderer@),
    {
        let format = renderer.format();
        let size = renderer.size();
        TextureDescriptor {
            size: Extent3d { width: size.width, height: size.height, depth_or_array_layers: 1 },
            mip_level_count: 1,
            sample_count: 1,
            dimension: TextureDimension::D2,
            format,
            usage: TextureUsages {
                copy_src: false,
                copy_dst: false,
                texture_binding: true,
                storage_binding: false,
                render_attachment: true,
            },
        }
    }

    /// The sampler of the mirror.
    pub fn create_sampler() -> (s: SamplerDescriptor)
        ensures
            s == mirror_sampler(),
    {
        SamplerDescriptor {
            address_mode_u: AddressMode::MirrorRepeat,
            address_mode_v: AddressMode::MirrorRepeat,
            address_mode_w: AddressMode::MirrorRepeat,
            mag_filter: FilterMode::Linear,
            min_filter: FilterMode::Nearest,
            mipmap_filter: FilterMode::Nearest,
        }
    }

    /// The mirror of a surface. There is none where the surface's scale
    /// factor is not a positive normal number.
    pub fn from_surface(renderer: &SurfaceRenderer) -> (r: Option<Self>)
        ensures
            r is Some <==> f64_is_positive_normal(renderer@.scale_fac.double),
            r matches Some(wt) ==> wt.mirrors(renderer@),
    {
        let logical_size = match renderer.logical_size() {
            Some(size) => size,
            None => { return None; },
        };
        let texture = Self::create_texture(renderer);
        let sampler = Self::create_sampler();
        let back_texture = Self::create_texture(renderer);
        let window_size_uniform = PipelineRegistry::create_window_size_buffer(logical_size);
        let (pipeline_registry, window_size_write) = match PipelineRegistry::generate_for_window(
            renderer,
            Self::texture_view(&texture, TextureView::Front),
            Self::texture_view(&back_texture, TextureView::Back),
        ) {
            Some(generated) => generated,
            None => { return None; },
        };
        let pixels_per_point = renderer.get_scale_fac();
        let size = renderer.size();
        Some(
            WindowTexture {
                texture,
                back_texture,
                sampler,
                pixels_per_point,
                size,
                logical_size,
                pipeline_registry,
                window_size_uniform,
                window_size_write,
            },
        )
    }

    pub fn pipeline_registry(&self) -> (r: &WindowPipelineRegistry)
        ensures
            r == &self.pipeline_registry,
    {
        &self.pipeline_registry
    }

    /// The view of the front texture.
    pub fn view(&self) -> (v: TextureView)
        ensures
            v == TextureView::Front,
    {
        Self::texture_view(&self.texture, TextureView::Front)
    }

    /// The view of the back texture.
    pub fn back_view(&self) -> (v: TextureView)
        ensures
            v == TextureView::Back,
    {
        Self::texture_view(&self.back_texture, TextureView::Back)
    }

    /// The default view of a texture: the whole of it.
    fn texture_view(texture: &TextureDescriptor, which: TextureView) -> (v: TextureView)
        ensures
            v == which,
    {
        which
    }

    pub fn pixels_per_point(&self) -> (s: ScaleFactor)
        ensures
            s == self.pixels_per_point,
    {
        self.pixels_per_point
    }

    pub fn physical_size(&self) -> (s: PhysicalSize)
        ensures
            s == self.size,
    {
        self.size
    }
}

/// The textures of a mirror have exactly the physical size of the surface
/// that it mirrors, and its window-size uniform holds the surface's size in
/// logical points: the physical size divided by the scale factor.
pub proof fn lemma_mirror_has_surface_size(wt: WindowTexture, surface: SurfaceState)
    requires
        wt.mirrors(surface),
    ensures
        wt.texture.size.width == surface.size.width,
        wt.texture.size.height == surface.size.height,
        wt.back_texture.size == wt.texture.size,
        wt.texture.format == surface.config.format,
        surface.is_consistent() ==> wt.texture.size.width == surface.config.width
            && wt.texture.size.height == surface.config.height,
        wt.window_size_uniform.contents@ == words_to_bytes(
            size_words(logical_size_of(surface.size, surface.scale_fac.double)),
        ),
{
}

/// Each pipeline of a mirror draws in the surface's format, has the layout
/// of its bind group, and its bind group is complete and samples the
/// texture that belongs to the pipeline.
pub proof fn lemma_mirror_pipelines_are_bound(
    wt: WindowTexture,
    surface: SurfaceState,
    id: PipelineId,
)
    requires
        wt.mirrors(surface),
    ensures
        wt.pipeline_registry.pipeline_of(id).format == surface.config.format,
        wt.pipeline_registry.pipeline_of(id).layout@ == wt.pipeline_registry.bind_group_of(
            id,
        ).layout@,
        wt.pipeline_registry.bind_group_of(id).is_complete(),
        wt.pipeline_registry.bind_group_of(id).samples(id.samples()),
{
}

} // verus!
