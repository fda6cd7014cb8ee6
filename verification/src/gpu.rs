//! Plain descriptions of the GPU objects a renderer owns, and the commands
//! by which the library asks for them to be made and used.

use crate::extent::{Extent, WorkgroupGrid};
use crate::surface::{SurfaceConfiguration, TextureFormat};
use crate::uniform::RaySamplingUniform;
use vstd::prelude::*;

verus! {

/// Format of the offscreen frame buffer, as both stages expect it.
pub const FRAME_BUFFER_FORMAT: TextureFormat = TextureFormat::Rgba8Unorm;

/// Vertices of the triangle that covers the viewport.
pub const FULLSCREEN_VERTICES: u32 = 3;

/// The colour a frame starts from before the triangle is drawn.
pub const CLEAR_COLOR: ClearColor = ClearColor::Transparent;

/// One of the two pipelines of a renderer.
#[derive(Clone, Copy, Debug, PartialEq, Eq, Structural)]
pub enum Stage {
    Compute,
    Render,
}

/// The shader stage that can see a binding.
#[derive(Clone, Copy, Debug, PartialEq, Eq, Structural)]
pub enum ShaderStage {
    Compute,
    Fragment,
}

/// What a slot of a bind group layout accepts.
#[derive(Clone, Copy, Debug, PartialEq, Eq, Structural)]
pub enum BindingType {
    /// A two-dimensional storage texture that the shader only writes.
    StorageTexture { format: TextureFormat },
    /// A uniform buffer, bound whole and at a fixed offset.
    UniformBuffer,
    /// A two-dimensional, single-sampled float texture read without filtering.
    SampledTexture,
    /// A sampler that does not filter.
    NonFilteringSampler,
}

/// One slot of a bind group layout.
#[derive(Clone, Copy, Debug, PartialEq, Eq, Structural)]
pub struct BindGroupLayoutEntry {
    pub binding: u32,
    pub visibility: ShaderStage,
    pub ty: BindingType,
}

/// The layout of a bind group with two slots.
#[derive(Clone, Copy, Debug, PartialEq, Eq, Structural)]
pub struct BindGroupLayout {
    pub first: BindGroupLayoutEntry,
    pub second: BindGroupLayoutEntry,
}

/// A resource bound to a slot.
#[derive(Clone, Copy, Debug, PartialEq, Eq, Structural)]
pub enum BindingResource {
    /// A view of the whole frame buffer with this identity.
    FrameBufferView { frame_buffer: u64 },
    /// The whole uniform buffer of the renderer.
    UniformBuffer,
    /// The sampler of the renderer.
    Sampler,
}

/// One filled slot of a bind group.
#[derive(Clone, Copy, Debug, PartialEq, Eq, Structural)]
pub struct BindGroupEntry {
    pub binding: u32,
    pub resource: BindingResource,
}

/// The resources handed to one pipeline.
#[derive(Clone, Copy, Debug, PartialEq, Eq, Structural)]
pub struct BindGroup {
    pub stage: Stage,
    pub first: BindGroupEntry,
    pub second: BindGroupEntry,
}

impl BindGroup {
    /// Whether one of the slots holds a view of the frame buffer `id`.
    pub open spec fn binds_frame_buffer(self, id: u64) -> bool {
        ||| self.first.resource == (BindingResource::FrameBufferView { frame_buffer: id })
        ||| self.second.resource == (BindingResource::FrameBufferView { frame_buffer: id })
    }
}

/// The offscreen image that the compute stage writes and the render stage
/// samples. `id` tells one frame buffer from the one it replaced.
#[derive(Clone, Copy, Debug, PartialEq, Eq, Structural)]
pub struct FrameBuffer {
    pub id: u64,
    pub extent: Extent,
    pub format: TextureFormat,
    pub mip_level_count: u32,
    pub sample_count: u32,
    pub storage_binding: bool,
    pub texture_binding: bool,
}

/// How texture coordinates outside the image are treated.
#[derive(Clone, Copy, Debug, PartialEq, Eq, Structural)]
pub enum AddressMode {
    ClampToEdge,
    Repeat,
    MirrorRepeat,
}

/// How texels are combined when sampling.
#[derive(Clone, Copy, Debug, PartialEq, Eq, Structural)]
pub enum FilterMode {
    Nearest,
    Linear,
}

/// The sampler through which the render stage reads the frame buffer.
#[derive(Clone, Copy, Debug, PartialEq, Eq, Structural)]
pub struct Sampler {
    pub address_mode: AddressMode,
    pub mag_filter: FilterMode,
    pub min_filter: FilterMode,
    pub mipmap_filter: FilterMode,
}

/// The compute pipeline.
#[derive(Clone, Copy, Debug, PartialEq, Eq, Structural)]
pub struct ComputeStage {
    pub layout: BindGroupLayout,
    pub tile: u32,
}

/// The render pipeline: one colour target that replaces what it draws over,
/// no depth buffer, and no vertex buffer.
#[derive(Clone, Copy, Debug, PartialEq, Eq, Structural)]
pub struct RenderStage {
    pub layout: BindGroupLayout,
    pub target_format: TextureFormat,
    pub sample_count: u32,
    pub vertex_buffers: u32,
}

/// The colour that the surface image is cleared to.
#[derive(Clone, Copy, Debug, PartialEq, Eq, Structural)]
pub enum ClearColor {
    Transparent,
    Black,
}

/// One compute pass: the compute pipeline with its bind group, dispatched
/// over `grid`.
#[derive(Clone, Copy, Debug, PartialEq, Eq, Structural)]
pub struct ComputePass {
    pub bind_group: BindGroup,
    pub grid: WorkgroupGrid,
}

/// One render pass onto the current surface image: clear, then draw
/// `vertices` vertices `instances` times with the render pipeline and its
/// bind group, and keep the result.
#[derive(Clone, Copy, Debug, PartialEq, Eq, Structural)]
pub struct RenderPass {
    pub bind_group: BindGroup,
    pub clear: ClearColor,
    pub store: bool,
    pub vertices: u32,
    pub instances: u32,
}

/// One step for the application to carry out on a renderer's device.
#[derive(Clone, Copy, Debug, PartialEq, Eq, Structural)]
pub enum GpuCommand {
    /// Configure the window surface.
    ConfigureSurface(SurfaceConfiguration),
    /// Create the frame buffer texture and a view of it.
    CreateFrameBuffer(FrameBuffer),
    /// Create the uniform buffer, holding the record.
    CreateUniformBuffer(RaySamplingUniform),
    /// Create the compute pipeline and the layout of its bind group.
    CreateComputePipeline(ComputeStage),
    /// Create the sampler.
    CreateSampler(Sampler),
    /// Create the render pipeline and the layout of its bind group.
    CreateRenderPipeline(RenderStage),
    /// Create the bind group of a stage and put it in place of the one
    /// before.
    CreateBindGroup(BindGroup),
    /// Let go of a frame buffer that nothing references any more.
    ReleaseFrameBuffer(u64),
    /// Copy the record over the whole uniform buffer.
    WriteUniform(RaySamplingUniform),
    /// Record a compute pass.
    Compute(ComputePass),
    /// Acquire the current surface image and record a render pass onto it.
    Render(RenderPass),
    /// Submit what was recorded to the queue.
    Submit,
    /// Present the surface image.
    Present,
}

impl GpuCommand {
    /// The commands that make what lasts as long as the renderer: the
    /// pipelines, the sampler and the uniform buffer.
    pub open spec fn makes_lasting_object(self) -> bool {
        ||| self is CreateUniformBuffer
        ||| self is CreateComputePipeline
        ||| self is CreateSampler
        ||| self is CreateRenderPipeline
    }
}

/// The frame buffer with the given identity and extent.
pub open spec fn frame_buffer_for(id: u64, extent: Extent) -> FrameBuffer {
    FrameBuffer {
        id,
        extent,
        format: FRAME_BUFFER_FORMAT,
        mip_level_count: 1,
        sample_count: 1,
        storage_binding: true,
        texture_binding: true,
    }
}

/// Layout of the compute stage's bind group: the frame buffer to write at
/// slot 0, the uniform record at slot 1.
pub open spec fn compute_layout() -> BindGroupLayout {
    BindGroupLayout {
        first: BindGroupLayoutEntry {
            binding: 0,
            visibility: ShaderStage::Compute,
            ty: BindingType::StorageTexture { format: FRAME_BUFFER_FORMAT },
        },
        second: BindGroupLayoutEntry {
            binding: 1,
            visibility: ShaderStage::Compute,
            ty: BindingType::UniformBuffer,
        },
    }
}

/// Layout of the render stage's bind group: the frame buffer to sample at
/// slot 0, the sampler at slot 1.
pub open spec fn render_layout() -> BindGroupLayout {
    BindGroupLayout {
        first: BindGroupLayoutEntry {
            binding: 0,
            visibility: ShaderStage::Fragment,
            ty: BindingType::SampledTexture,
        },
        second: BindGroupLayoutEntry {
            binding: 1,
            visibility: ShaderStage::Fragment,
            ty: BindingType::NonFilteringSampler,
        },
    }
}

/// The bind group of the compute stage over the given frame buffer.
pub open spec fn compute_bind_group_for(frame_buffer: u64) -> BindGroup {
    BindGroup {
        stage: Stage::Compute,
        first: BindGroupEntry {
            binding: 0,
            resource: BindingResource::FrameBufferView { frame_buffer },
        },
        second: BindGroupEntry { binding: 1, resource: BindingResource::UniformBuffer },
    }
}

/// The bind group of the render stage over the given frame buffer.
pub open spec fn render_bind_group_for(frame_buffer: u64) -> BindGroup {
    BindGroup {
        stage: Stage::Render,
        first: BindGroupEntry {
            binding: 0,
            resource: BindingResource::FrameBufferView { frame_buffer },
        },
        second: BindGroupEntry { binding: 1, resource: BindingResource::Sampler },
    }
}

/// The sampler of the render stage: a one-to-one pixel passthrough, with no
/// wrapping and no filtering.
pub open spec fn passthrough_sampler() -> Sampler {
    Sampler {
        address_mode: AddressMode::ClampToEdge,
        mag_filter: FilterMode::Nearest,
        min_filter: FilterMode::Nearest,
        mipmap_filter: FilterMode::Nearest,
    }
}

/// Whether a resource can fill a slot of the given type, where
/// `frame_buffer` is the frame buffer that is current.
pub open spec fn slot_accepts(
    ty: BindingType,
    resource: BindingResource,
    frame_buffer: FrameBuffer,
) -> bool {
    match (ty, resource) {
        (
            BindingType::StorageTexture { format },
            BindingResource::FrameBufferView { frame_buffer: id },
        ) => {
            id == frame_buffer.id && frame_buffer.format == format && frame_buffer.storage_binding
        },
        (BindingType::SampledTexture, BindingResource::FrameBufferView { frame_buffer: id }) => {
            id == frame_buffer.id && frame_buffer.texture_binding && frame_buffer.sample_count == 1
        },
        (BindingType::UniformBuffer, BindingResource::UniformBuffer) => true,
        (BindingType::NonFilteringSampler, BindingResource::Sampler) => true,
        _ => false,
    }
}

/// Whether a bind group fills the slots of a layout, each with a resource
/// of the right type, all taken from the current frame buffer.
pub open spec fn layout_accepts(
    layout: BindGroupLayout,
    group: BindGroup,
    frame_buffer: FrameBuffer,
) -> bool {
    &&& group.first.binding == layout.first.binding
    &&& group.second.binding == layout.second.binding
    &&& layout.first.binding != layout.second.binding
    &&& slot_accepts(layout.first.ty, group.first.resource, frame_buffer)
    &&& slot_accepts(layout.second.ty, group.second.resource, frame_buffer)
}

} // verus!
