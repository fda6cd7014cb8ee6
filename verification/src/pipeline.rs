//! The two pipelines of a renderer and the resources that connect them: the
//! frame buffer that the compute stage fills and the render stage samples,
//! one bind group for each stage, and the uniform record.

use crate::clock::FrameClock;
use crate::error::RendererError;
use crate::extent::{Extent, WORKGROUP_TILE};
use crate::gpu::{
    compute_bind_group_for, compute_layout, frame_buffer_for, layout_accepts, passthrough_sampler,
    render_bind_group_for, render_layout, AddressMode, BindGroup, BindGroupEntry, BindGroupLayout,
    BindGroupLayoutEntry, BindingResource, BindingType, ComputeStage, FilterMode, FrameBuffer,
    GpuCommand, RenderStage, Sampler, ShaderStage, Stage, FRAME_BUFFER_FORMAT,
};
use crate::surface::{SurfaceConfiguration, TextureFormat};
use crate::uniform::{seed_at, seed_from_elapsed, RaySamplingUniform, NANOS_PER_SECOND};
use vstd::prelude::*;

verus! {

/// Everything a `RenderPipeline` knows about its GPU objects.
#[derive(Clone, Copy, Debug, PartialEq, Eq, Structural)]
pub struct PipelineState {
    pub compute: ComputeStage,
    pub render: RenderStage,
    pub frame_buffer: FrameBuffer,
    pub compute_bind_group: BindGroup,
    pub render_bind_group: BindGroup,
    pub sampler: Sampler,
    /// The uniform record on the host.
    pub sampling_uniform: RaySamplingUniform,
    /// What the uniform buffer on the device holds.
    pub sampling_buffer: RaySamplingUniform,
}

/// The compute stage: its bind group layout and its tile size.
pub open spec fn compute_stage() -> ComputeStage {
    ComputeStage { layout: compute_layout(), tile: WORKGROUP_TILE }
}

/// The render stage that draws to a surface of the given format.
pub open spec fn render_stage_for(target_format: TextureFormat) -> RenderStage {
    RenderStage { layout: render_layout(), target_format, sample_count: 1, vertex_buffers: 0 }
}

/// The identity given to the frame buffer that replaces the one called `id`.
pub open spec fn next_frame_buffer_id(id: u64) -> u64 {
    if id == u64::MAX {
        0
    } else {
        (id + 1) as u64
    }
}

impl PipelineState {
    /// The size of the frame buffer.
    pub open spec fn extent(self) -> Extent {
        self.frame_buffer.extent
    }

    /// The format of the surface that the render stage draws to.
    pub open spec fn color_format(self) -> TextureFormat {
        self.render.target_format
    }

    /// The state is consistent: the stages are the ones this library
    /// builds, the frame buffer has pixels, both bind groups are made over
    /// the frame buffer that is current, and the uniform record carries the
    /// frame buffer's extent and is what the device holds.
    pub open spec fn wf(self) -> bool {
        &&& self.compute == compute_stage()
        &&& self.render == render_stage_for(self.render.target_format)
        &&& self.sampler == passthrough_sampler()
        &&& self.frame_buffer == frame_buffer_for(self.frame_buffer.id, self.frame_buffer.extent)
        &&& self.frame_buffer.extent.is_drawable()
        &&& self.compute_bind_group == compute_bind_group_for(self.frame_buffer.id)
        &&& self.render_bind_group == render_bind_group_for(self.frame_buffer.id)
        &&& self.sampling_uniform.extent == self.frame_buffer.extent
        &&& self.sampling_uniform.pad == 0
        &&& self.sampling_buffer == self.sampling_uniform
    }

    /// The state of a pipeline that was just made.
    pub open spec fn initial(
        target_format: TextureFormat,
        extent: Extent,
        seed: u32,
    ) -> PipelineState {
        let uniform = RaySamplingUniform { seed, pad: 0, extent };
        PipelineState {
            compute: compute_stage(),
            render: render_stage_for(target_format),
            frame_buffer: frame_buffer_for(0, extent),
            compute_bind_group: compute_bind_group_for(0),
            render_bind_group: render_bind_group_for(0),
            sampler: passthrough_sampler(),
            sampling_uniform: uniform,
            sampling_buffer: uniform,
        }
    }

    /// The commands that make the GPU objects of a new pipeline. Each bind
    /// group comes after the pipeline whose layout it fills and after the
    /// resources it binds.
    pub open spec fn setup_commands(self) -> Seq<GpuCommand> {
        seq![
            GpuCommand::CreateFrameBuffer(self.frame_buffer),
            GpuCommand::CreateUniformBuffer(self.sampling_buffer),
            GpuCommand::CreateComputePipeline(self.compute),
            GpuCommand::CreateBindGroup(self.compute_bind_group),
            GpuCommand::CreateSampler(self.sampler),
            GpuCommand::CreateRenderPipeline(self.render),
            GpuCommand::CreateBindGroup(self.render_bind_group),
        ]
    }

    /// Whether a request for the given extent makes a new frame buffer: the
    /// extent has pixels and is not the current one.
    pub open spec fn needs_rebuild(self, extent: Extent) -> bool {
        extent.is_drawable() && extent != self.frame_buffer.extent
    }

    /// The state with a new frame buffer of the given extent in place of
    /// the current one, both bind groups made anew over it, and the uniform
    /// record on both sides carrying the new extent.
    pub open spec fn rebuilt(self, extent: Extent) -> PipelineState {
        let id = next_frame_buffer_id(self.frame_buffer.id);
        let uniform = RaySamplingUniform { extent, ..self.sampling_uniform };
        PipelineState {
            frame_buffer: frame_buffer_for(id, extent),
            compute_bind_group: compute_bind_group_for(id),
            render_bind_group: render_bind_group_for(id),
            sampling_uniform: uniform,
            sampling_buffer: uniform,
            ..self
        }
    }

    /// The commands that replace the frame buffer: the replacement and the
    /// bind groups over it are made first, and only then is the old frame
    /// buffer let go.
    pub open spec fn rebuild_commands(self, extent: Extent) -> Seq<GpuCommand> {
        let after = self.rebuilt(extent);
        seq![
            GpuCommand::CreateFrameBuffer(after.frame_buffer),
            GpuCommand::CreateBindGroup(after.compute_bind_group),
            GpuCommand::CreateBindGroup(after.render_bind_group),
            GpuCommand::ReleaseFrameBuffer(self.frame_buffer.id),
        ]
    }

    /// The state after the extent was reconciled with `extent`.
    pub open spec fn resized(self, extent: Extent) -> PipelineState {
        if self.needs_rebuild(extent) {
            self.rebuilt(extent)
        } else {
            self
        }
    }

    /// The commands of `resize`: the rebuild, then the record with the new
    /// extent copied to the device; nothing where no rebuild is needed.
    pub open spec fn resize_commands(self, extent: Extent) -> Seq<GpuCommand> {
        if self.needs_rebuild(extent) {
            self.rebuild_commands(extent).push(
                GpuCommand::WriteUniform(self.rebuilt(extent).sampling_uniform),
            )
        } else {
            seq![]
        }
    }

    /// The state with the seed replaced, on the host and on the device.
    pub open spec fn seeded(self, seed: u32) -> PipelineState {
        let uniform = RaySamplingUniform { seed, ..self.sampling_uniform };
        PipelineState { sampling_uniform: uniform, sampling_buffer: uniform, ..self }
    }

    /// The state after one `update` for a frame of the given extent and
    /// seed. An extent without pixels leaves everything as it is.
    pub open spec fn updated(self, extent: Extent, seed: u32) -> PipelineState {
        if extent.is_drawable() {
            self.resized(extent).seeded(seed)
        } else {
            self
        }
    }

    /// The commands of one `update`: the rebuild where the extent changed,
    /// then one copy of the whole record to the device.
    pub open spec fn update_commands(self, extent: Extent, seed: u32) -> Seq<GpuCommand> {
        if !extent.is_drawable() {
            seq![]
        } else if self.needs_rebuild(extent) {
            self.rebuild_commands(extent).push(
                GpuCommand::WriteUniform(self.updated(extent, seed).sampling_uniform),
            )
        } else {
            seq![GpuCommand::WriteUniform(self.updated(extent, seed).sampling_uniform)]
        }
    }
}

/// The pipelines and resources of one renderer, with the clock that its
/// seeds are taken from.
#[derive(Clone, Copy, Debug)]
pub struct RenderPipeline {
    state: PipelineState,
    clock: FrameClock,
}

impl View for RenderPipeline {
    type V = PipelineState;

    closed spec fn view(&self) -> PipelineState {
        self.state
    }
}

impl RenderPipeline {
    /// What the pipeline knows is consistent.
    #[verifier::type_invariant]
    pub open spec fn wf(&self) -> bool {
        self@.wf()
    }

    /// What the pipeline knows about its GPU objects.
    pub fn state(&self) -> (state: PipelineState)
        ensures
            state == self@,
            state.wf(),
    {
        proof {
            use_type_invariant(self);
        }
        self.state
    }

    /// Describes the frame buffer of the given identity and size: a
    /// single-mip, single-sample image that the compute stage can write as a
    /// storage texture and the render stage can sample.
    pub fn create_raybuffer(id: u64, width: u32, height: u32) -> (raybuffer: FrameBuffer)
        ensures
            raybuffer == frame_buffer_for(id, Extent { width, height }),
    {
        FrameBuffer {
            id,
            extent: Extent { width, height },
            format: FRAME_BUFFER_FORMAT,
            mip_level_count: 1,
            sample_count: 1,
            storage_binding: true,
            texture_binding: true,
        }
    }

    /// Describes the bind group of the compute stage: the frame buffer as
    /// the storage image to write, and the uniform buffer.
    pub fn create_compute_bindgroup(raybuffer: &FrameBuffer) -> (group: BindGroup)
        ensures
            group == compute_bind_group_for(raybuffer.id),
            raybuffer == frame_buffer_for(raybuffer.id, raybuffer.extent) ==> layout_accepts(
                compute_layout(),
                group,
                *raybuffer,
            ),
    {
        BindGroup {
            stage: Stage::Compute,
            first: BindGroupEntry {
                binding: 0,
                resource: BindingResource::FrameBufferView { frame_buffer: raybuffer.id },
            },
            second: BindGroupEntry { binding: 1, resource: BindingResource::UniformBuffer },
        }
    }

    /// Describes the bind group of the render stage: the frame buffer as the
    /// texture to sample, and the sampler.
    pub fn create_render_bindgroup(raybuffer: &FrameBuffer) -> (group: BindGroup)
        ensures
            group == render_bind_group_for(raybuffer.id),
            raybuffer == frame_buffer_for(raybuffer.id, raybuffer.extent) ==> layout_accepts(
                render_layout(),
                group,
                *raybuffer,
            ),
    {
        BindGroup {
            stage: Stage::Render,
            first: BindGroupEntry {
                binding: 0,
                resource: BindingResource::FrameBufferView { frame_buffer: raybuffer.id },
            },
            second: BindGroupEntry { binding: 1, resource: BindingResource::Sampler },
        }
    }

    /// Describes the compute stage.
    pub fn create_compute_stage() -> (stage: ComputeStage)
        ensures
            stage == compute_stage(),
    {
        ComputeStage {
            layout: BindGroupLayout {
                first: BindGroupLayoutEntry {
                    binding: 0,
                    visibility: ShaderStage::Compute,
                    ty: BindingType::StorageTexture { format: FRAME_BUFFER_FORMAT },
                },
                second: BindGroupLayoutEntry {
                    binding: 1,
                    visibility: ShaderStage::Compute,
                    ty: BindingType::UniformBuffer,
                },
            },
            tile: WORKGROUP_TILE,
        }
    }

    /// Describes the render stage for a surface of the given format.
    pub fn create_render_stage(target_format: TextureFormat) -> (stage: RenderStage)
        ensures
            stage == render_stage_for(target_format),
    {
        RenderStage {
            layout: BindGroupLayout {
                first: BindGroupLayoutEntry {
                    binding: 0,
                    visibility: ShaderStage::Fragment,
                    ty: BindingType::SampledTexture,
                },
                second: BindGroupLayoutEntry {
                    binding: 1,
                    visibility: ShaderStage::Fragment,
                    ty: BindingType::NonFilteringSampler,
                },
            },
            target_format,
            sample_count: 1,
            vertex_buffers: 0,
        }
    }

    /// Describes the sampler.
    pub fn create_sampler() -> (sampler: Sampler)
        ensures
            sampler == passthrough_sampler(),
    {
        Sampler {
            address_mode: AddressMode::ClampToEdge,
            mag_filter: FilterMode::Nearest,
            min_filter: FilterMode::Nearest,
            mipmap_filter: FilterMode::Nearest,
        }
    }

    /// Makes the pipelines for a surface with the given configuration and a
    /// frame buffer of `width` by `height` pixels, and starts the clock. The
    /// first seed is read from the clock, so the contract leaves it open.
    pub fn new(config: &SurfaceConfiguration, width: u32, height: u32) -> (made: Result<
        (RenderPipeline, Vec<GpuCommand>),
        RendererError,
    >)
        ensures
            made is Ok <==> (Extent { width, height }).is_drawable(),
            made matches Err(error) ==> error == RendererError::ZeroExtent,
            made matches Ok((pipeline, commands)) ==> {
                &&& pipeline@ == PipelineState::initial(
                    config.format,
                    Extent { width, height },
                    pipeline@.sampling_uniform.seed,
                )
                &&& pipeline@.sampling_uniform.seed < NANOS_PER_SECOND
                &&& pipeline@.wf()
                &&& commands@ == pipeline@.setup_commands()
            },
    {
        let clock = FrameClock::start();
        let elapsed_nanos: u128 = clock.elapsed_nanos();
        RenderPipeline::new_at(config, width, height, clock, elapsed_nanos)
    }

    /// Makes the pipelines as `new` does, with a clock that the caller
    /// started and the time it showed when the first seed was taken.
    pub fn new_at(
        config: &SurfaceConfiguration,
        width: u32,
        height: u32,
        clock: FrameClock,
        elapsed_nanos: u128,
    ) -> (made: Result<(RenderPipeline, Vec<GpuCommand>), RendererError>)
        ensures
            made is Ok <==> (Extent { width, height }).is_drawable(),
            made matches Err(error) ==> error == RendererError::ZeroExtent,
            made matches Ok((pipeline, commands)) ==> {
                &&& pipeline@ == PipelineState::initial(
                    config.format,
                    Extent { width, height },
                    seed_at(elapsed_nanos),
                )
                &&& pipeline@.wf()
                &&& commands@ == pipeline@.setup_commands()
            },
    {
        if width == 0 || height == 0 {
            return Err(RendererError::ZeroExtent);
        }
        let raybuffer = RenderPipeline::create_raybuffer(0, width, height);
        let sampling_uniform = RaySamplingUniform {
            seed: seed_from_elapsed(elapsed_nanos),
            pad: 0,
            extent: Extent { width, height },
        };
        let compute = RenderPipeline::create_compute_stage();
        let compute_bind_group = RenderPipeline::create_compute_bindgroup(&raybuffer);
        let sampler = RenderPipeline::create_sampler();
        let render = RenderPipeline::create_render_stage(config.format);
        let render_bind_group = RenderPipeline::create_render_bindgroup(&raybuffer);

        let mut commands: Vec<GpuCommand> = Vec::new();
        commands.push(GpuCommand::CreateFrameBuffer(raybuffer));
        commands.push(GpuCommand::CreateUniformBuffer(sampling_uniform));
        commands.push(GpuCommand::CreateComputePipeline(compute));
        commands.push(GpuCommand::CreateBindGroup(compute_bind_group));
        commands.push(GpuCommand::CreateSampler(sampler));
        commands.push(GpuCommand::CreateRenderPipeline(render));
        commands.push(GpuCommand::CreateBindGroup(render_bind_group));

        let state = PipelineState {
            compute,
            render,
            frame_buffer: raybuffer,
            compute_bind_group,
            render_bind_group,
            sampler,
            sampling_uniform,
            sampling_buffer: sampling_uniform,
        };
        assert(commands@ =~= state.setup_commands());
        Ok((RenderPipeline { state, clock }, commands))
    }

    /// Replaces the frame buffer of `state` by one of the given extent and
    /// makes both bind groups anew over it.
    fn rebuild(state: PipelineState, extent: Extent) -> (out: (PipelineState, Vec<GpuCommand>))
        requires
            state.wf(),
            extent.is_drawable(),
        ensures
            out.0 == state.rebuilt(extent),
            out.0.wf(),
            out.1@ == state.rebuild_commands(extent),
    {
        let id: u64 = state.frame_buffer.id.wrapping_add(1);
        let raybuffer = RenderPipeline::create_raybuffer(id, extent.width, extent.height);
        let compute_bind_group = RenderPipeline::create_compute_bindgroup(&raybuffer);
        let render_bind_group = RenderPipeline::create_render_bindgroup(&raybuffer);
        let uniform = RaySamplingUniform {
            seed: state.sampling_uniform.seed,
            pad: state.sampling_uniform.pad,
            extent,
        };
        let mut commands: Vec<GpuCommand> = Vec::new();
        commands.push(GpuCommand::CreateFrameBuffer(raybuffer));
        commands.push(GpuCommand::CreateBindGroup(compute_bind_group));
        commands.push(GpuCommand::CreateBindGroup(render_bind_group));
        commands.push(GpuCommand::ReleaseFrameBuffer(state.frame_buffer.id));
        let after = PipelineState {
            compute: state.compute,
            render: state.render,
            frame_buffer: raybuffer,
            compute_bind_group,
            render_bind_group,
            sampler: state.sampler,
            sampling_uniform: uniform,
            sampling_buffer: uniform,
        };
        assert(commands@ =~= state.rebuild_commands(extent));
        (after, commands)
    }

    /// Reconciles the frame buffer with a surface of `width` by `height`
    /// pixels. Where that is a new extent with pixels, the frame buffer and
    /// both bind groups are replaced and the record with the new extent is
    /// copied to the device; otherwise nothing happens.
    pub fn resize(&mut self, width: u32, height: u32) -> (commands: Vec<GpuCommand>)
        ensures
            final(self)@ == old(self)@.resized(Extent { width, height }),
            final(self)@.wf(),
            commands@ == old(self)@.resize_commands(Extent { width, height }),
    {
        proof {
            use_type_invariant(&*self);
        }
        let extent = Extent { width, height };
        let current = self.state.frame_buffer.extent;
        if extent.drawable() && (current.width != width || current.height != height) {
            let (after, mut commands) = RenderPipeline::rebuild(self.state, extent);
            commands.push(GpuCommand::WriteUniform(after.sampling_uniform));
            self.state = after;
            commands
        } else {
            Vec::new()
        }
    }

    /// Prepares one frame for a surface of `width` by `height` pixels:
    /// replaces the frame buffer where the extent changed, takes a new seed
    /// from the clock, and copies the whole record to the device. The seed
    /// depends on the clock, so the contract speaks of whatever seed the
    /// record ends up with. With a zero width or height nothing happens.
    pub fn update(&mut self, width: u32, height: u32) -> (commands: Vec<GpuCommand>)
        ensures
            final(self)@ == old(self)@.updated(
                Extent { width, height },
                final(self)@.sampling_uniform.seed,
            ),
            final(self)@.wf(),
            commands@ == old(self)@.update_commands(
                Extent { width, height },
                final(self)@.sampling_uniform.seed,
            ),
            (Extent { width, height }).is_drawable() ==> final(self)@.sampling_uniform.seed
                < NANOS_PER_SECOND,
    {
        proof {
            use_type_invariant(&*self);
        }
        if width == 0 || height == 0 {
            return Vec::new();
        }
        let elapsed_nanos: u128 = self.clock.elapsed_nanos();
        self.update_at(width, height, elapsed_nanos)
    }

    /// Prepares one frame as `update` does, for a frame that starts
    /// `elapsed_nanos` after the pipeline was made.
    pub fn update_at(&mut self, width: u32, height: u32, elapsed_nanos: u128) -> (commands: Vec<
        GpuCommand,
    >)
        ensures
            final(self)@ == old(self)@.updated(Extent { width, height }, seed_at(elapsed_nanos)),
            final(self)@.wf(),
            commands@ == old(self)@.update_commands(
                Extent { width, height },
                seed_at(elapsed_nanos),
            ),
    {
        proof {
            use_type_invariant(&*self);
        }
        let extent = Extent { width, height };
        if !extent.drawable() {
            return Vec::new();
        }
        let current = self.state.frame_buffer.extent;
        let mut state = self.state;
        let mut commands: Vec<GpuCommand> = Vec::new();
        if current.width != width || current.height != height {
            let (after, rebuild_commands) = RenderPipeline::rebuild(state, extent);
            state = after;
            commands = rebuild_commands;
        }
        let uniform = RaySamplingUniform {
            seed: seed_from_elapsed(elapsed_nanos),
            pad: state.sampling_uniform.pad,
            extent: state.sampling_uniform.extent,
        };
        state = PipelineState {
            compute: state.compute,
            render: state.render,
            frame_buffer: state.frame_buffer,
            compute_bind_group: state.compute_bind_group,
            render_bind_group: state.render_bind_group,
            sampler: state.sampler,
            sampling_uniform: uniform,
            sampling_buffer: uniform,
        };
        commands.push(GpuCommand::WriteUniform(uniform));
        self.state = state;
        commands
    }
}

/// In a consistent state the two stages are wired to one frame buffer:
/// each bind group fills the layout of its stage with resources of the
/// right type, both bind the frame buffer that is current, the compute
/// stage writes it in the format it was made with, and the uniform record
/// on the device is the one on the host and carries its extent.
pub proof fn lemma_stages_share_the_frame_buffer(state: PipelineState)
    requires
        state.wf(),
    ensures
        layout_accepts(state.compute.layout, state.compute_bind_group, state.frame_buffer),
        layout_accepts(state.render.layout, state.render_bind_group, state.frame_buffer),
        state.compute_bind_group.binds_frame_buffer(state.frame_buffer.id),
        state.render_bind_group.binds_frame_buffer(state.frame_buffer.id),
        state.compute.layout.first.ty == (BindingType::StorageTexture {
            format: state.frame_buffer.format,
        }),
        state.sampling_buffer == state.sampling_uniform,
        state.sampling_buffer.extent == state.frame_buffer.extent,
{
}

/// Resizes and updates keep a consistent state consistent, whatever extent
/// and seed they are given, and a rebuild always changes the identity of
/// the frame buffer.
pub proof fn lemma_steps_keep_consistency(state: PipelineState, extent: Extent, seed: u32)
    requires
        state.wf(),
    ensures
        state.resized(extent).wf(),
        state.updated(extent, seed).wf(),
        state.needs_rebuild(extent) ==> state.resized(extent).frame_buffer.id
            != state.frame_buffer.id,
        !state.needs_rebuild(extent) ==> state.resized(extent) == state,
        extent.is_drawable() ==> state.updated(extent, seed).frame_buffer.extent == extent
            && state.updated(extent, seed).sampling_buffer.seed == seed,
{
}

} // verus!
