//! The three pipelines of a window and what they are bound to.
//!
//! A pipeline or a bind group is held here as its description: the values
//! that the device is asked to build it from.
use crate::geometry::{logical_size_of, LogicalSize, Rect};
use crate::narrow::f64_is_positive_normal;
use crate::surface::SurfaceRenderer;
use crate::uniform::{rect_bytes, rect_words, size_bytes, size_words, words_to_bytes};
use crate::window_texture::TextureView;
use vstd::prelude::*;

verus! {

/// The entry point of the vertex stage in both shader programs.
pub const VS_MAIN: &'static str = "vs_main";

/// The entry point of the fragment stage in both shader programs.
pub const FS_MAIN: &'static str = "fs_main";

/// The number of vertices of the quad that every pass draws; the vertex stage
/// makes their positions from the vertex index alone.
pub const QUAD_VERTICES: u32 = 4;

/// One of the two shader programs.
#[derive(Clone, Copy, Debug, PartialEq, Eq, Structural)]
pub enum ShaderModule {
    /// Copies the sampled texture to the target.
    CopyTexture,
    /// Blurs the sampled texture inside the selection.
    BlurRect,
}

/// One of the three pipelines of a window, with its bind group.
#[derive(Clone, Copy, Debug, PartialEq, Eq, Structural)]
pub enum PipelineId {
    /// Copies the front texture to the surface.
    Copy,
    /// Copies the back texture to the front texture.
    CopyBack,
    /// Blurs the front texture into the back texture.
    BlurRect,
}

/// One of the two uniform buffers of the blur program.
#[derive(Clone, Copy, Debug, PartialEq, Eq, Structural)]
pub enum UniformBuffer {
    /// The logical size of the window: two words.
    WindowSize,
    /// The bounds of the selection: four words.
    Rect,
}

/// Which shader stages see a binding.
#[derive(Clone, Copy, Debug, PartialEq, Eq, Structural)]
pub struct ShaderStages {
    pub vertex: bool,
    pub fragment: bool,
    pub compute: bool,
}

/// What kind of resource a binding takes.
#[derive(Clone, Copy, Debug, PartialEq, Eq, Structural)]
pub enum BindingType {
    /// A uniform buffer of at least so many bytes, without a dynamic offset.
    UniformBuffer { min_binding_size: u64 },
    /// A two-dimensional, single-sampled texture of filterable floats.
    FilterableTexture,
    /// A sampler that filters.
    FilteringSampler,
}

/// One binding of a bind group layout.
#[derive(Clone, Copy, Debug, PartialEq, Eq, Structural)]
pub struct BindGroupLayoutEntry {
    pub binding: u32,
    pub visibility: ShaderStages,
    pub ty: BindingType,
}

/// A resource that is bound.
#[derive(Clone, Copy, Debug, PartialEq, Eq, Structural)]
pub enum BindingResource {
    /// The whole of a uniform buffer.
    Buffer(UniformBuffer),
    /// A view of one of the window's two textures.
    TextureView(TextureView),
    /// The window's sampler.
    Sampler,
}

/// One binding of a bind group.
#[derive(Clone, Copy, Debug, PartialEq, Eq, Structural)]
pub struct BindGroupEntry {
    pub binding: u32,
    pub resource: BindingResource,
}

/// A bind group with its layout.
#[derive(Debug, PartialEq)]
pub struct BindGroupDescriptor {
    pub layout: Vec<BindGroupLayoutEntry>,
    pub entries: Vec<BindGroupEntry>,
}

/// How a pipeline combines what it draws with what is there.
#[derive(Clone, Copy, Debug, PartialEq, Eq, Structural)]
pub enum BlendState {
    Replace,
    AlphaBlending,
    PremultipliedAlphaBlending,
}

/// How vertices make primitives.
#[derive(Clone, Copy, Debug, PartialEq, Eq, Structural)]
pub enum PrimitiveTopology {
    PointList,
    LineList,
    LineStrip,
    TriangleList,
    TriangleStrip,
}

/// Which winding of a triangle is its front.
#[derive(Clone, Copy, Debug, PartialEq, Eq, Structural)]
pub enum FrontFace {
    Ccw,
    Cw,
}

/// A face of a triangle.
#[derive(Clone, Copy, Debug, PartialEq, Eq, Structural)]
pub enum Face {
    Front,
    Back,
}

/// How a triangle is filled.
#[derive(Clone, Copy, Debug, PartialEq, Eq, Structural)]
pub enum PolygonMode {
    Fill,
    Line,
    Point,
}

/// Which channels of the target a pipeline writes.
#[derive(Clone, Copy, Debug, PartialEq, Eq, Structural)]
pub struct ColorWrites {
    pub red: bool,
    pub green: bool,
    pub blue: bool,
    pub alpha: bool,
}

/// A render pipeline.
#[derive(Debug, PartialEq)]
pub struct RenderPipelineDescriptor {
    pub shader: ShaderModule,
    pub vertex_entry_point: &'static str,
    pub fragment_entry_point: &'static str,
    /// The layout of the one bind group, at index 0.
    pub layout: Vec<BindGroupLayoutEntry>,
    /// The number of vertex buffers.
    pub vertex_buffers: u32,
    pub format: wgpu::TextureFormat,
    pub blend: BlendState,
    pub write_mask: ColorWrites,
    pub topology: PrimitiveTopology,
    pub front_face: FrontFace,
    /// The face that is culled, if any.
    pub cull_mode: Option<Face>,
    pub polygon_mode: PolygonMode,
    pub sample_count: u32,
}

/// What a buffer may be used for.
#[derive(Clone, Copy, Debug, PartialEq, Eq, Structural)]
pub struct BufferUsages {
    pub uniform: bool,
    pub copy_dst: bool,
}

/// A buffer that is made empty.
#[derive(Clone, Copy, Debug, PartialEq, Eq, Structural)]
pub struct BufferDescriptor {
    pub size: u64,
    pub usage: BufferUsages,
    pub mapped_at_creation: bool,
}

/// A buffer that is made with its contents.
#[derive(Debug, PartialEq)]
pub struct BufferInitDescriptor {
    pub contents: Vec<u8>,
    pub usage: BufferUsages,
}

/// Bytes to write into a uniform buffer through the queue.
#[derive(Debug, PartialEq)]
pub struct BufferWrite {
    pub buffer: UniformBuffer,
    pub offset: u64,
    pub data: Vec<u8>,
}

impl PipelineId {
    /// The texture that the pipeline's bind group samples.
    pub open spec fn samples(self) -> TextureView {
        match self {
            PipelineId::Copy => TextureView::Front,
            PipelineId::CopyBack => TextureView::Back,
            PipelineId::BlurRect => TextureView::Front,
        }
    }
}

impl UniformBuffer {
    /// The size of the buffer in bytes.
    pub open spec fn size(self) -> u64 {
        match self {
            UniformBuffer::WindowSize => 8,
            UniformBuffer::Rect => 16,
        }
    }
}

impl ShaderStages {
    pub open spec fn fragment_only() -> Self {
        ShaderStages { vertex: false, fragment: true, compute: false }
    }
}

impl ColorWrites {
    pub open spec fn all() -> Self {
        ColorWrites { red: true, green: true, blue: true, alpha: true }
    }
}

impl BufferUsages {
    /// A uniform that the queue writes to.
    pub open spec fn written_uniform() -> Self {
        BufferUsages { uniform: true, copy_dst: true }
    }
}

/// A resource can be bound where the layout asks for its kind, a buffer
/// where it is at least as large as the binding demands.
pub open spec fn resource_fits(ty: BindingType, resource: BindingResource) -> bool {
    match ty {
        BindingType::UniformBuffer { min_binding_size } => resource matches BindingResource::Buffer(
            b,
        ) && min_binding_size <= b.size(),
        BindingType::FilterableTexture => resource is TextureView,
        BindingType::FilteringSampler => resource is Sampler,
    }
}

impl BindGroupDescriptor {
    /// Every binding of the layout is numbered by its place and filled, in
    /// order, with a resource of the kind that it asks for.
    pub open spec fn is_complete(self) -> bool {
        &&& self.layout@.len() == self.entries@.len()
        &&& forall|i: int|
            0 <= i < self.layout@.len() ==> {
                &&& (#[trigger] self.layout@[i]).binding == i
                &&& self.entries@[i].binding == i
                &&& resource_fits(self.layout@[i].ty, self.entries@[i].resource)
            }
    }

    /// The texture that the group samples, where it samples exactly one.
    pub open spec fn samples(self, view: TextureView) -> bool {
        &&& exists|i: int|
            0 <= i < self.entries@.len() && (#[trigger] self.entries@[i]).resource
                == BindingResource::TextureView(view)
        &&& forall|i: int|
            0 <= i < self.entries@.len() && (#[trigger] self.entries@[i]).resource is TextureView
                ==> self.entries@[i].resource == BindingResource::TextureView(view)
    }
}

impl RenderPipelineDescriptor {
    /// The pipeline draws the full-screen quad with the given program into a
    /// target of the given format: a filled triangle strip without vertex
    /// buffers, of which no face is culled, blended over the target by alpha
    /// in all channels.
    pub open spec fn is_quad_pipeline(self, shader: ShaderModule, format: wgpu::TextureFormat)
        -> bool {
        &&& self.shader == shader
        &&& self.vertex_entry_point@ == VS_MAIN@
        &&& self.fragment_entry_point@ == FS_MAIN@
        &&& self.vertex_buffers == 0
        &&& self.format == format
        &&& self.blend == BlendState::AlphaBlending
        &&& self.write_mask == ColorWrites::all()
        &&& self.topology == PrimitiveTopology::TriangleStrip
        &&& self.front_face == FrontFace::Ccw
        &&& self.cull_mode is None
        &&& self.polygon_mode == PolygonMode::Fill
        &&& self.sample_count == 1
    }
}

/// The layout of the copy program's bind group: the texture, then its sampler.
pub open spec fn copy_layout() -> Seq<BindGroupLayoutEntry> {
    seq![
        BindGroupLayoutEntry {
            binding: 0,
            visibility: ShaderStages::fragment_only(),
            ty: BindingType::FilterableTexture,
        },
        BindGroupLayoutEntry {
            binding: 1,
            visibility: ShaderStages::fragment_only(),
            ty: BindingType::FilteringSampler,
        },
    ]
}

/// The bind group of the copy program on a view.
pub open spec fn copy_entries(view: TextureView) -> Seq<BindGroupEntry> {
    seq![
        BindGroupEntry { binding: 0, resource: BindingResource::TextureView(view) },
        BindGroupEntry { binding: 1, resource: BindingResource::Sampler },
    ]
}

/// The layout of the blur program's bind group: the window size (two words),
/// the selection (four words), the texture, then its sampler.
pub open spec fn blur_layout() -> Seq<BindGroupLayoutEntry> {
    seq![
        BindGroupLayoutEntry {
            binding: 0,
            visibility: ShaderStages::fragment_only(),
            ty: BindingType::UniformBuffer { min_binding_size: 8 },
        },
        BindGroupLayoutEntry {
            binding: 1,
            visibility: ShaderStages::fragment_only(),
            ty: BindingType::UniformBuffer { min_binding_size: 16 },
        },
        BindGroupLayoutEntry {
            binding: 2,
            visibility: ShaderStages::fragment_only(),
            ty: BindingType::FilterableTexture,
        },
        BindGroupLayoutEntry {
            binding: 3,
            visibility: ShaderStages::fragment_only(),
            ty: BindingType::FilteringSampler,
        },
    ]
}

/// The bind group of the blur program on a view.
pub open spec fn blur_entries(view: TextureView) -> Seq<BindGroupEntry> {
    seq![
        BindGroupEntry { binding: 0, resource: BindingResource::Buffer(UniformBuffer::WindowSize) },
        BindGroupEntry { binding: 1, resource: BindingResource::Buffer(UniformBuffer::Rect) },
        BindGroupEntry { binding: 2, resource: BindingResource::TextureView(view) },
        BindGroupEntry { binding: 3, resource: BindingResource::Sampler },
    ]
}

/// The pipelines of one window with their bind groups, and the uniform that
/// holds the selection. They are bound to the views of one pair of textures
/// and are made anew whenever those textures are.
#[derive(Debug, PartialEq)]
pub struct WindowPipelineRegistry {
    /// Copies the front texture to the surface.
    pub copy_pipeline: RenderPipelineDescriptor,
    pub copy_bind_group: BindGroupDescriptor,
    /// Copies the back texture to the front texture.
    pub copy_back_pipeline: RenderPipelineDescriptor,
    pub copy_back_bind_group: BindGroupDescriptor,
    /// Blurs the front texture into the back texture.
    pub blur_rect_pipeline: RenderPipelineDescriptor,
    pub blur_rect_bind_group: BindGroupDescriptor,
    /// The uniform buffer that holds the selection.
    pub rect_uniform: BufferDescriptor,
}

impl WindowPipelineRegistry {
    /// The registry is the one of a window whose surface has the given
    /// format, with `view` the front and `back_view` the back texture.
    pub open spec fn is_generated_for(
        &self,
        format: wgpu::TextureFormat,
        view: TextureView,
        back_view: TextureView,
    ) -> bool {
        &&& self.copy_pipeline.is_quad_pipeline(ShaderModule::CopyTexture, format)
        &&& self.copy_pipeline.layout@ == copy_layout()
        &&& self.copy_bind_group.layout@ == copy_layout()
        &&& self.copy_bind_group.entries@ == copy_entries(view)
        &&& self.copy_back_pipeline.is_quad_pipeline(ShaderModule::CopyTexture, format)
        &&& self.copy_back_pipeline.layout@ == copy_layout()
        &&& self.copy_back_bind_group.layout@ == copy_layout()
        &&& self.copy_back_bind_group.entries@ == copy_entries(back_view)
        &&& self.blur_rect_pipeline.is_quad_pipeline(ShaderModule::BlurRect, format)
        &&& self.blur_rect_pipeline.layout@ == blur_layout()
        &&& self.blur_rect_bind_group.layout@ == blur_layout()
        &&& self.blur_rect_bind_group.entries@ == blur_entries(view)
        &&& self.rect_uniform == (BufferDescriptor {
            size: 16,
            usage: BufferUsages::written_uniform(),
            mapped_at_creation: false,
        })
    }

    /// The pipeline of the given name.
    pub open spec fn pipeline_of(&self, id: PipelineId) -> RenderPipelineDescriptor {
        match id {
            PipelineId::Copy => self.copy_pipeline,
            PipelineId::CopyBack => self.copy_back_pipeline,
            PipelineId::BlurRect => self.blur_rect_pipeline,
        }
    }

    /// The bind group of the pipeline of the given name.
    pub open spec fn bind_group_of(&self, id: PipelineId) -> BindGroupDescriptor {
        match id {
            PipelineId::Copy => self.copy_bind_group,
            PipelineId::CopyBack => self.copy_back_bind_group,
            PipelineId::BlurRect => self.blur_rect_bind_group,
        }
    }

    /// The pipeline of the given name and its bind group.
    pub fn get(&self, id: PipelineId) -> (r: (&RenderPipelineDescriptor, &BindGroupDescriptor))
        ensures
            *r.0 == self.pipeline_of(id),
            *r.1 == self.bind_group_of(id),
    {
        match id {
            PipelineId::Copy => (&self.copy_pipeline, &self.copy_bind_group),
            PipelineId::CopyBack => (&self.copy_back_pipeline, &self.copy_back_bind_group),
            PipelineId::BlurRect => (&self.blur_rect_pipeline, &self.blur_rect_bind_group),
        }
    }

    /// The write that puts a selection into the rectangle uniform: its four
    /// bounds, from the start of the buffer.
    pub fn set_rect(&self, rect: Rect) -> (w: BufferWrite)
        ensures
            w.buffer == UniformBuffer::Rect,
            w.offset == 0,
            w.data@ == words_to_bytes(rect_words(rect)),
            w.offset + w.data@.len() <= UniformBuffer::Rect.size(),
    {
        BufferWrite { buffer: UniformBuffer::Rect, offset: 0, data: rect_bytes(rect) }
    }
}

/// Makes the pipelines of a window.
pub struct PipelineRegistry {}

impl PipelineRegistry {
    /// The uniform buffer that holds the logical size of the window, made
    /// with that size in it.
    pub fn create_window_size_buffer(size: LogicalSize) -> (b: BufferInitDescriptor)
        ensures
            b.contents@ == words_to_bytes(size_words(size)),
            b.contents@.len() == UniformBuffer::WindowSize.size(),
            b.usage == BufferUsages::written_uniform(),
    {
        BufferInitDescriptor {
            contents: size_bytes(size),
            usage: BufferUsages { uniform: true, copy_dst: true },
        }
    }

    fn fragment_entry(binding: u32, ty: BindingType) -> (e: BindGroupLayoutEntry)
        ensures
            e == (BindGroupLayoutEntry {
                binding,
                visibility: ShaderStages::fragment_only(),
                ty,
            }),
    {
        BindGroupLayoutEntry {
            binding,
            visibility: ShaderStages { vertex: false, fragment: true, compute: false },
            ty,
        }
    }

    fn quad_pipeline(
        shader: ShaderModule,
        layout: Vec<BindGroupLayoutEntry>,
        format: wgpu::TextureFormat,
    ) -> (p: RenderPipelineDescriptor)
        ensures
            p.is_quad_pipeline(shader, format),
            p.layout@ == layout@,
    {
        RenderPipelineDescriptor {
            shader,
            vertex_entry_point: VS_MAIN,
            fragment_entry_point: FS_MAIN,
            layout,
            vertex_buffers: 0,
            format,
            blend: BlendState::AlphaBlending,
            write_mask: ColorWrites { red: true, green: true, blue: true, alpha: true },
            topology: PrimitiveTopology::TriangleStrip,
            front_face: FrontFace::Ccw,
            cull_mode: None,
            polygon_mode: PolygonMode::Fill,
            sample_count: 1,
        }
    }

    fn copy_bind_group_layout() -> (layout: Vec<BindGroupLayoutEntry>)
        ensures
            layout@ == copy_layout(),
    {
        let mut layout: Vec<BindGroupLayoutEntry> = Vec::new();
        layout.push(Self::fragment_entry(0, BindingType::FilterableTexture));
        layout.push(Self::fragment_entry(1, BindingType::FilteringSampler));
        assert(layout@ =~= copy_layout());
        layout
    }

    fn blur_bind_group_layout() -> (layout: Vec<BindGroupLayoutEntry>)
        ensures
            layout@ == blur_layout(),
    {
        let mut layout: Vec<BindGroupLayoutEntry> = Vec::new();
        layout.push(
            Self::fragment_entry(0, BindingType::UniformBuffer { min_binding_size: 8 }),
        );
        layout.push(
            Self::fragment_entry(1, BindingType::UniformBuffer { min_binding_size: 16 }),
        );
        layout.push(Self::fragment_entry(2, BindingType::FilterableTexture));
        layout.push(Self::fragment_entry(3, BindingType::FilteringSampler));
        assert(layout@ =~= blur_layout());
        layout
    }

    /// The pipeline that copies the texture behind `view` to a target of the
    /// given format, and its bind group.
    pub fn create_copy_pipeline(format: wgpu::TextureFormat, view: TextureView) -> (r: (
        RenderPipelineDescriptor,
        BindGroupDescriptor,
    ))
        ensures
            r.0.is_quad_pipeline(ShaderModule::CopyTexture, format),
            r.0.layout@ == copy_layout(),
            r.1.layout@ == copy_layout(),
            r.1.entries@ == copy_entries(view),
            r.1.is_complete(),
            r.1.samples(view),
    {
        let mut entries: Vec<BindGroupEntry> = Vec::new();
        entries.push(BindGroupEntry { binding: 0, resource: BindingResource::TextureView(view) });
        entries.push(BindGroupEntry { binding: 1, resource: BindingResource::Sampler });
        assert(entries@ =~= copy_entries(view));
        let copy_bind_group = BindGroupDescriptor {
            layout: Self::copy_bind_group_layout(),
            entries,
        };
        let copy_pipeline = Self::quad_pipeline(
            ShaderModule::CopyTexture,
            Self::copy_bind_group_layout(),
            format,
        );
        proof {
            lemma_copy_group_is_complete(copy_bind_group, view);
        }
        (copy_pipeline, copy_bind_group)
    }

    /// The pipelines of a window on the given surface, with `view` the front
    /// and `back_view` the back texture, and the write that puts the
    /// surface's size in logical points into the window-size uniform. There
    /// are none where the surface's scale factor is not a positive normal
    /// number.
    pub fn generate_for_window(
        surface: &SurfaceRenderer,
        view: TextureView,
        back_view: TextureView,
    ) -> (r: Option<(WindowPipelineRegistry, BufferWrite)>)
        ensures
            r is Some <==> f64_is_positive_normal(surface@.scale_fac.double),
            r matches Some(g) ==> {
                &&& g.0.is_generated_for(surface@.config.format, view, back_view)
                &&& g.0.copy_bind_group.is_complete()
                &&& g.0.copy_back_bind_group.is_complete()
                &&& g.0.blur_rect_bind_group.is_complete()
                &&& g.0.copy_bind_group.samples(view)
                &&& g.0.copy_back_bind_group.samples(back_view)
                &&& g.0.blur_rect_bind_group.samples(view)
                &&& g.1.buffer == UniformBuffer::WindowSize
                &&& g.1.offset == 0
                &&& g.1.data@ == words_to_bytes(
                    size_words(logical_size_of(surface@.size, surface@.scale_fac.double)),
                )
            },
    {
        let logical_size = match surface.logical_size() {
            Some(size) => size,
            None => { return None; },
        };
        let format = surface.format();
        let (copy_pipeline, copy_bind_group) = Self::create_copy_pipeline(format, view);
        let (copy_back_pipeline, copy_back_bind_group) = Self::create_copy_pipeline(
            format,
            back_view,
        );
        let window_size = BufferWrite {
            buffer: UniformBuffer::WindowSize,
            offset: 0,
            data: size_bytes(logical_size),
        };
        let rect_uniform = BufferDescriptor {
            size: 16,
            usage: BufferUsages { uniform: true, copy_dst: true },
            mapped_at_creation: false,
        };
        let mut entries: Vec<BindGroupEntry> = Vec::new();
        entries.push(
            BindGroupEntry {
                binding: 0,
                resource: BindingResource::Buffer(UniformBuffer::WindowSize),
            },
        );
        entries.push(
            BindGroupEntry { binding: 1, resource: BindingResource::Buffer(UniformBuffer::Rect) },
        );
        entries.push(BindGroupEntry { binding: 2, resource: BindingResource::TextureView(view) });
        entries.push(BindGroupEntry { binding: 3, resource: BindingResource::Sampler });
        assert(entries@ =~= blur_entries(view));
        let blur_rect_bind_group = BindGroupDescriptor {
            layout: Self::blur_bind_group_layout(),
            entries,
        };
        let blur_rect_pipeline = Self::quad_pipeline(
            ShaderModule::BlurRect,
            Self::blur_bind_group_layout(),
            format,
        );
        proof {
            lemma_blur_group_is_complete(blur_rect_bind_group, view);
        }
        Some(
            (
                WindowPipelineRegistry {
                    copy_pipeline,
                    copy_bind_group,
                    copy_back_pipeline,
                    copy_back_bind_group,
                    blur_rect_pipeline,
                    blur_rect_bind_group,
                    rect_uniform,
                },
                window_size,
            ),
        )
    }
}

/// A bind group of the copy program is complete and samples its view.
pub proof fn lemma_copy_group_is_complete(group: BindGroupDescriptor, view: TextureView)
    requires
        group.layout@ == copy_layout(),
        group.entries@ == copy_entries(view),
    ensures
        group.is_complete(),
        group.samples(view),
{
    assert(group.entries@[0].resource == BindingResource::TextureView(view));
}

/// A bind group of the blur program is complete and samples its view: each
/// uniform is as large as its binding demands.
pub proof fn lemma_blur_group_is_complete(group: BindGroupDescriptor, view: TextureView)
    requires
        group.layout@ == blur_layout(),
        group.entries@ == blur_entries(view),
    ensures
        group.is_complete(),
        group.samples(view),
{
    assert(group.entries@[2].resource == BindingResource::TextureView(view));
}

} // verus!
