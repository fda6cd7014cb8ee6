//! The device of a renderer as its commands see it: which objects exist,
//! what they refer to, and how far the current frame has come. The model
//! says which command is in order in which state, and the lemmas show that
//! the commands of a renderer are always in order and leave the device as
//! the renderer believes it to be.

use crate::extent::{grid_for, Extent, WorkgroupGrid};
use crate::gpu::{
    layout_accepts, BindGroup, BindGroupLayout, BindingResource, ComputeStage, FrameBuffer,
    GpuCommand, RenderStage, Sampler, Stage, FULLSCREEN_VERTICES,
};
use crate::renderer::RendererState;
use crate::surface::SurfaceConfiguration;
use crate::uniform::RaySamplingUniform;
use vstd::prelude::*;

verus! {

/// How far the frame that is being recorded has come.
pub enum FramePhase {
    /// Nothing is recorded and no surface image is held.
    Idle,
    /// The compute pass is recorded.
    Computed,
    /// The render pass onto the acquired surface image is recorded too.
    Rendered,
    /// The passes are submitted; the surface image awaits presentation.
    Submitted,
}

/// The objects on the device of one renderer.
#[verifier::ext_equal]
pub struct DeviceState {
    pub surface: Option<SurfaceConfiguration>,
    pub frame_buffers: Map<u64, FrameBuffer>,
    pub uniform_buffer: Option<RaySamplingUniform>,
    pub compute: Option<ComputeStage>,
    pub render: Option<RenderStage>,
    pub sampler: Option<Sampler>,
    pub compute_bind_group: Option<BindGroup>,
    pub render_bind_group: Option<BindGroup>,
    pub phase: FramePhase,
}

/// The frame buffer that a bind group binds at its first slot.
pub open spec fn bound_frame_buffer(group: BindGroup) -> Option<u64> {
    match group.first.resource {
        BindingResource::FrameBufferView { frame_buffer } => Some(frame_buffer),
        _ => None,
    }
}

impl DeviceState {
    /// A device on which nothing was made yet.
    pub open spec fn empty() -> DeviceState {
        DeviceState {
            surface: None,
            frame_buffers: Map::empty(),
            uniform_buffer: None,
            compute: None,
            render: None,
            sampler: None,
            compute_bind_group: None,
            render_bind_group: None,
            phase: FramePhase::Idle,
        }
    }

    /// The device as a renderer in the given state believes it to be: the
    /// surface configured, one frame buffer, the objects of the pipelines,
    /// both bind groups, and no frame under way.
    pub open spec fn of(renderer: RendererState) -> DeviceState {
        let pipeline = renderer.pipeline;
        DeviceState {
            surface: Some(renderer.config),
            frame_buffers: Map::empty().insert(pipeline.frame_buffer.id, pipeline.frame_buffer),
            uniform_buffer: Some(pipeline.sampling_buffer),
            compute: Some(pipeline.compute),
            render: Some(pipeline.render),
            sampler: Some(pipeline.sampler),
            compute_bind_group: Some(pipeline.compute_bind_group),
            render_bind_group: Some(pipeline.render_bind_group),
            phase: FramePhase::Idle,
        }
    }

    /// No bind group that is in place binds the frame buffer `id`.
    pub open spec fn is_unbound(self, id: u64) -> bool {
        &&& self.compute_bind_group matches Some(group) ==> !group.binds_frame_buffer(id)
        &&& self.render_bind_group matches Some(group) ==> !group.binds_frame_buffer(id)
    }

    /// The bind group layout of the pipeline of a stage, once it is made.
    pub open spec fn layout_for(self, stage: Stage) -> Option<BindGroupLayout> {
        match stage {
            Stage::Compute => match self.compute {
                Some(compute) => Some(compute.layout),
                None => None,
            },
            Stage::Render => match self.render {
                Some(render) => Some(render.layout),
                None => None,
            },
        }
    }

    /// Whether a bind group can be made now: the pipeline whose layout it
    /// fills exists, the frame buffer it binds exists and suits the layout,
    /// and so do the uniform buffer and the sampler where it binds them.
    pub open spec fn can_bind(self, group: BindGroup) -> bool {
        &&& self.layout_for(group.stage) matches Some(layout)
        &&& bound_frame_buffer(group) matches Some(id)
        &&& self.frame_buffers.contains_key(id)
        &&& layout_accepts(layout, group, self.frame_buffers[id])
        &&& group.second.resource is UniformBuffer ==> self.uniform_buffer is Some
        &&& group.second.resource is Sampler ==> self.sampler is Some
    }

    /// Whether the compute pass can be recorded now: nothing of the frame is
    /// recorded yet, the pass uses the bind group that is in place, the
    /// uniform record on the device carries the extent of the frame buffer
    /// that the pass writes, and the grid is the one that covers it.
    pub open spec fn can_compute(self, bind_group: BindGroup, grid: WorkgroupGrid) -> bool {
        &&& self.phase is Idle
        &&& self.compute matches Some(stage)
        &&& self.compute_bind_group == Some(bind_group)
        &&& bound_frame_buffer(bind_group) matches Some(id)
        &&& self.frame_buffers.contains_key(id)
        &&& self.uniform_buffer matches Some(uniform)
        &&& uniform.extent == self.frame_buffers[id].extent
        &&& stage.tile > 0
        &&& grid == grid_for(self.frame_buffers[id].extent, stage.tile)
    }

    /// Whether the render pass can be recorded now: the compute pass is
    /// recorded, the pass uses the bind group that is in place, it samples
    /// the frame buffer that the compute pass wrote, that frame buffer has
    /// the size of the surface, and the pipeline draws in the format of the
    /// surface.
    pub open spec fn can_render(self, bind_group: BindGroup) -> bool {
        &&& self.phase is Computed
        &&& self.surface matches Some(config)
        &&& self.render matches Some(stage)
        &&& stage.target_format == config.format
        &&& self.render_bind_group == Some(bind_group)
        &&& self.compute_bind_group matches Some(written)
        &&& bound_frame_buffer(bind_group) matches Some(id)
        &&& bound_frame_buffer(written) == Some(id)
        &&& self.frame_buffers.contains_key(id)
        &&& self.frame_buffers[id].extent == config.extent()
    }

    /// Whether `command` is in order in this state.
    pub open spec fn accepts(self, command: GpuCommand) -> bool {
        match command {
            GpuCommand::ConfigureSurface(config) => {
                self.phase is Idle && config.extent().is_drawable()
            },
            GpuCommand::CreateFrameBuffer(frame_buffer) => {
                &&& frame_buffer.extent.is_drawable()
                &&& frame_buffer.mip_level_count == 1
                &&& frame_buffer.sample_count == 1
                &&& !self.frame_buffers.contains_key(frame_buffer.id)
            },
            GpuCommand::CreateUniformBuffer(_) => self.uniform_buffer is None,
            GpuCommand::CreateComputePipeline(_) => self.compute is None,
            GpuCommand::CreateSampler(_) => self.sampler is None,
            GpuCommand::CreateRenderPipeline(_) => self.render is None,
            GpuCommand::CreateBindGroup(group) => self.phase is Idle && self.can_bind(group),
            GpuCommand::ReleaseFrameBuffer(id) => {
                &&& self.phase is Idle
                &&& self.frame_buffers.contains_key(id)
                &&& self.is_unbound(id)
            },
            GpuCommand::WriteUniform(_) => self.phase is Idle && self.uniform_buffer is Some,
            GpuCommand::Compute(pass) => self.can_compute(pass.bind_group, pass.grid),
            GpuCommand::Render(pass) => {
                &&& self.can_render(pass.bind_group)
                &&& pass.vertices == FULLSCREEN_VERTICES
                &&& pass.instances == 1
                &&& pass.store
            },
            GpuCommand::Submit => self.phase is Rendered,
            GpuCommand::Present => self.phase is Submitted,
        }
    }

    /// The state after `command` was carried out.
    pub open spec fn after(self, command: GpuCommand) -> DeviceState {
        match command {
            GpuCommand::ConfigureSurface(config) => DeviceState { surface: Some(config), ..self },
            GpuCommand::CreateFrameBuffer(frame_buffer) => DeviceState {
                frame_buffers: self.frame_buffers.insert(frame_buffer.id, frame_buffer),
                ..self
            },
            GpuCommand::CreateUniformBuffer(uniform) => DeviceState {
                uniform_buffer: Some(uniform),
                ..self
            },
            GpuCommand::CreateComputePipeline(stage) => DeviceState {
                compute: Some(stage),
                ..self
            },
            GpuCommand::CreateSampler(sampler) => DeviceState { sampler: Some(sampler), ..self },
            GpuCommand::CreateRenderPipeline(stage) => DeviceState { render: Some(stage), ..self },
            GpuCommand::CreateBindGroup(group) => match group.stage {
                Stage::Compute => DeviceState { compute_bind_group: Some(group), ..self },
                Stage::Render => DeviceState { render_bind_group: Some(group), ..self },
            },
            GpuCommand::ReleaseFrameBuffer(id) => DeviceState {
                frame_buffers: self.frame_buffers.remove(id),
                ..self
            },
            GpuCommand::WriteUniform(uniform) => DeviceState {
                uniform_buffer: Some(uniform),
                ..self
            },
            GpuCommand::Compute(_) => DeviceState { phase: FramePhase::Computed, ..self },
            GpuCommand::Render(_) => DeviceState { phase: FramePhase::Rendered, ..self },
            GpuCommand::Submit => DeviceState { phase: FramePhase::Submitted, ..self },
            GpuCommand::Present => DeviceState { phase: FramePhase::Idle, ..self },
        }
    }

    /// The state after the commands from position `from` on were carried
    /// out in order, and `None` where one of them is out of order.
    pub open spec fn run_from(self, commands: Seq<GpuCommand>, from: int) -> Option<DeviceState>
        decreases commands.len() - from,
    {
        if from < 0 || from >= commands.len() {
            Some(self)
        } else if self.accepts(commands[from]) {
            self.after(commands[from]).run_from(commands, from + 1)
        } else {
            None
        }
    }

    /// The state after all of `commands` were carried out in order, and
    /// `None` where one of them is out of order.
    pub open spec fn run(self, commands: Seq<GpuCommand>) -> Option<DeviceState> {
        self.run_from(commands, 0)
    }
}

/// Running commands one list after another is running them as one list.
pub proof fn lemma_run_in_two_parts(
    device: DeviceState,
    first: Seq<GpuCommand>,
    second: Seq<GpuCommand>,
)
    ensures
        device.run(first + second) == (match device.run(first) {
            Some(between) => between.run(second),
            None => None,
        }),
{
    lemma_run_from_in_two_parts(device, first, second, 0);
}

proof fn lemma_run_from_in_two_parts(
    device: DeviceState,
    first: Seq<GpuCommand>,
    second: Seq<GpuCommand>,
    from: int,
)
    requires
        0 <= from <= first.len(),
    ensures
        device.run_from(first + second, from) == (match device.run_from(first, from) {
            Some(between) => between.run(second),
            None => None,
        }),
    decreases first.len() - from,
{
    let all = first + second;
    if from == first.len() {
        lemma_run_shifted(device, first, second, 0);
    } else {
        assert(all[from] == first[from]);
        if device.accepts(first[from]) {
            lemma_run_from_in_two_parts(device.after(first[from]), first, second, from + 1);
        }
    }
}

proof fn lemma_run_shifted(
    device: DeviceState,
    first: Seq<GpuCommand>,
    second: Seq<GpuCommand>,
    from: int,
)
    requires
        0 <= from <= second.len(),
    ensures
        device.run_from(first + second, first.len() + from) == device.run_from(second, from),
    decreases second.len() - from,
{
    let all = first + second;
    if from < second.len() {
        assert(all[first.len() + from] == second[from]);
        if device.accepts(second[from]) {
            lemma_run_shifted(device.after(second[from]), first, second, from + 1);
        }
    }
}

/// The commands that bring up a renderer are in order on a device on which
/// nothing was made, and leave it as the renderer believes it to be.
pub proof fn lemma_setup_is_in_order(renderer: RendererState)
    requires
        renderer.wf(),
    ensures
        DeviceState::empty().run(renderer.setup_commands()) == Some(DeviceState::of(renderer)),
{
    let commands = renderer.setup_commands();
    let pipeline = renderer.pipeline;
    assert(commands =~= seq![
        GpuCommand::ConfigureSurface(renderer.config),
        GpuCommand::CreateFrameBuffer(pipeline.frame_buffer),
        GpuCommand::CreateUniformBuffer(pipeline.sampling_buffer),
        GpuCommand::CreateComputePipeline(pipeline.compute),
        GpuCommand::CreateBindGroup(pipeline.compute_bind_group),
        GpuCommand::CreateSampler(pipeline.sampler),
        GpuCommand::CreateRenderPipeline(pipeline.render),
        GpuCommand::CreateBindGroup(pipeline.render_bind_group),
    ]);
    let d0 = DeviceState::empty();
    let d1 = d0.after(commands[0]);
    let d2 = d1.after(commands[1]);
    let d3 = d2.after(commands[2]);
    let d4 = d3.after(commands[3]);
    let d5 = d4.after(commands[4]);
    let d6 = d5.after(commands[5]);
    let d7 = d6.after(commands[6]);
    let d8 = d7.after(commands[7]);
    assert(d0.accepts(commands[0]));
    assert(d1.accepts(commands[1]));
    assert(d2.accepts(commands[2]));
    assert(d3.accepts(commands[3]));
    assert(d4.accepts(commands[4]));
    assert(d5.accepts(commands[5]));
    assert(d6.accepts(commands[6]));
    assert(d7.accepts(commands[7]));
    assert(d8 =~~= DeviceState::of(renderer));
    assert(d8.run_from(commands, 8) == Some(d8));
    assert(d7.run_from(commands, 7) == Some(d8));
    assert(d6.run_from(commands, 6) == Some(d8));
    assert(d5.run_from(commands, 5) == Some(d8));
    assert(d4.run_from(commands, 4) == Some(d8));
    assert(d3.run_from(commands, 3) == Some(d8));
    assert(d2.run_from(commands, 2) == Some(d8));
    assert(d1.run_from(commands, 1) == Some(d8));
    assert(d0.run_from(commands, 0) == Some(d8));
}

/// The commands of a resize are in order on the device of a consistent
/// renderer and leave it as the renderer believes it to be afterwards. In
/// particular the new frame buffer exists before a bind group is made over
/// it, and the old one is let go only when no bind group binds it any more.
pub proof fn lemma_resize_is_in_order(before: RendererState, extent: Extent)
    requires
        before.wf(),
    ensures
        DeviceState::of(before).run(before.resize_commands(extent)) == Some(
            DeviceState::of(before.resized(extent)),
        ),
{
    let commands = before.resize_commands(extent);
    let after = before.resized(extent);
    let d0 = DeviceState::of(before);
    if !extent.is_drawable() {
        assert(commands =~= Seq::<GpuCommand>::empty());
        assert(d0 =~~= DeviceState::of(after));
    } else if extent == before.config.extent() {
        assert(commands =~= seq![GpuCommand::ConfigureSurface(after.config)]);
        let d1 = d0.after(commands[0]);
        assert(d0.accepts(commands[0]));
        assert(d1 =~~= DeviceState::of(after));
        assert(d1.run_from(commands, 1) == Some(d1));
        assert(d0.run_from(commands, 0) == Some(d1));
    } else {
        assert(commands =~= seq![
            GpuCommand::ConfigureSurface(after.config),
            GpuCommand::CreateFrameBuffer(after.pipeline.frame_buffer),
            GpuCommand::CreateBindGroup(after.pipeline.compute_bind_group),
            GpuCommand::CreateBindGroup(after.pipeline.render_bind_group),
            GpuCommand::ReleaseFrameBuffer(before.pipeline.frame_buffer.id),
            GpuCommand::WriteUniform(after.pipeline.sampling_buffer),
        ]);
        let d1 = d0.after(commands[0]);
        let d2 = d1.after(commands[1]);
        let d3 = d2.after(commands[2]);
        let d4 = d3.after(commands[3]);
        let d5 = d4.after(commands[4]);
        let d6 = d5.after(commands[5]);
        assert(d0.accepts(commands[0]));
        assert(d1.accepts(commands[1]));
        assert(d2.accepts(commands[2]));
        assert(d3.accepts(commands[3]));
        assert(d4.accepts(commands[4]));
        assert(d5.accepts(commands[5]));
        assert(d6 =~~= DeviceState::of(after));
        assert(d6.run_from(commands, 6) == Some(d6));
        assert(d5.run_from(commands, 5) == Some(d6));
        assert(d4.run_from(commands, 4) == Some(d6));
        assert(d3.run_from(commands, 3) == Some(d6));
        assert(d2.run_from(commands, 2) == Some(d6));
        assert(d1.run_from(commands, 1) == Some(d6));
        assert(d0.run_from(commands, 0) == Some(d6));
    }
}

/// The commands of a frame are in order on the device of a consistent
/// renderer and leave it as the renderer believes it to be afterwards: the
/// record reaches the device before the compute pass that reads it, the
/// render pass samples what that compute pass wrote, and the surface image
/// is presented after the submission.
pub proof fn lemma_frame_is_in_order(before: RendererState, seed: u32)
    requires
        before.wf(),
    ensures
        DeviceState::of(before).run(before.frame_commands(seed)) == Some(
            DeviceState::of(before.updated(seed)),
        ),
{
    let commands = before.frame_commands(seed);
    let after = before.updated(seed);
    let d0 = DeviceState::of(before);
    if before.status is Stable {
        assert(before.pipeline.update_commands(before.config.extent(), seed) =~= seq![
            GpuCommand::WriteUniform(after.pipeline.sampling_uniform),
        ]);
        assert(commands =~= seq![
            GpuCommand::WriteUniform(after.pipeline.sampling_buffer),
            GpuCommand::Compute(after.compute_pass()),
            GpuCommand::Render(after.render_pass()),
            GpuCommand::Submit,
            GpuCommand::Present,
        ]);
        let d1 = d0.after(commands[0]);
        let d2 = d1.after(commands[1]);
        let d3 = d2.after(commands[2]);
        let d4 = d3.after(commands[3]);
        let d5 = d4.after(commands[4]);
        assert(d0.accepts(commands[0]));
        assert(d1.accepts(commands[1]));
        assert(d2.accepts(commands[2]));
        assert(d3.accepts(commands[3]));
        assert(d4.accepts(commands[4]));
        assert(d5 =~~= DeviceState::of(after));
        assert(d5.run_from(commands, 5) == Some(d5));
        assert(d4.run_from(commands, 4) == Some(d5));
        assert(d3.run_from(commands, 3) == Some(d5));
        assert(d2.run_from(commands, 2) == Some(d5));
        assert(d1.run_from(commands, 1) == Some(d5));
        assert(d0.run_from(commands, 0) == Some(d5));
    } else {
        assert(commands =~= Seq::<GpuCommand>::empty());
    }
}

/// The commands of a tick are in order on the device of a consistent
/// renderer and leave it as the renderer believes it to be afterwards.
pub proof fn lemma_tick_is_in_order(before: RendererState, resized_to: Option<Extent>, seed: u32)
    requires
        before.wf(),
    ensures
        DeviceState::of(before).run(before.tick_commands(resized_to, seed)) == Some(
            DeviceState::of(before.ticked(resized_to, seed)),
        ),
{
    match resized_to {
        Some(extent) => {
            let between = before.resized(extent);
            lemma_resize_is_in_order(before, extent);
            lemma_frame_is_in_order(between, seed);
            lemma_run_in_two_parts(
                DeviceState::of(before),
                before.resize_commands(extent),
                between.frame_commands(seed),
            );
        },
        None => {
            lemma_frame_is_in_order(before, seed);
        },
    }
}

} // verus!
