//! The renderer of one window: its surface configuration, its pipelines,
//! and the reconciliation of both with the window's size.

use crate::clock::FrameClock;
use crate::error::RendererError;
use crate::extent::{dispatch_grid, grid_for, Extent, WORKGROUP_TILE};
use crate::gpu::{
    layout_accepts, ComputePass, GpuCommand, RenderPass, CLEAR_COLOR, FULLSCREEN_VERTICES,
};
use crate::pipeline::{PipelineState, RenderPipeline};
use crate::surface::{
    preferred_format, preferred_present_mode, select_format, select_present_mode, PresentMode,
    SurfaceCapabilities, SurfaceConfiguration, TextureFormat,
};
use crate::uniform::{lemma_seed_differs_within_a_second, seed_at, NANOS_PER_SECOND};
use crate::window::{Window, WindowId};
use vstd::prelude::*;

verus! {

/// Whether a renderer's surface matches its window.
#[derive(Clone, Copy, Debug, PartialEq, Eq, Structural)]
pub enum RendererStatus {
    /// The surface is configured for the window's size.
    Stable,
    /// The window was resized to an extent without pixels, and the surface
    /// still has the configuration from before. No frame is drawn.
    Stale,
}

/// Everything a `Renderer` knows.
#[derive(Clone, Copy, Debug, PartialEq, Eq, Structural)]
pub struct RendererState {
    pub window_id: WindowId,
    pub config: SurfaceConfiguration,
    pub status: RendererStatus,
    pub pipeline: PipelineState,
}

impl RendererState {
    /// The pipelines are consistent, and the frame buffer has the extent
    /// and the render stage the format of the configured surface.
    pub open spec fn wf(self) -> bool {
        &&& self.pipeline.wf()
        &&& self.config.extent() == self.pipeline.extent()
        &&& self.config.format == self.pipeline.color_format()
    }

    /// The state of a renderer that was just made for `window`.
    pub open spec fn initial(
        window: Window,
        format: TextureFormat,
        present_mode: PresentMode,
        seed: u32,
    ) -> RendererState {
        RendererState {
            window_id: window.id,
            config: SurfaceConfiguration {
                format,
                width: window.physical_width,
                height: window.physical_height,
                present_mode,
            },
            status: RendererStatus::Stable,
            pipeline: PipelineState::initial(format, window.extent(), seed),
        }
    }

    /// The commands that bring up a new renderer: the surface is configured
    /// first, then the pipelines are made.
    pub open spec fn setup_commands(self) -> Seq<GpuCommand> {
        seq![GpuCommand::ConfigureSurface(self.config)] + self.pipeline.setup_commands()
    }

    /// The state after the window was found to have the given size. With
    /// pixels, the surface and the frame buffer take that size and the
    /// renderer is stable; without, only the status changes, to stale.
    pub open spec fn resized(self, extent: Extent) -> RendererState {
        if extent.is_drawable() {
            RendererState {
                config: self.config.resized(extent),
                status: RendererStatus::Stable,
                pipeline: self.pipeline.resized(extent),
                ..self
            }
        } else {
            RendererState { status: RendererStatus::Stale, ..self }
        }
    }

    /// The commands of a resize: the surface is configured anew, then the
    /// frame buffer is reconciled. Nothing for an extent without pixels.
    pub open spec fn resize_commands(self, extent: Extent) -> Seq<GpuCommand> {
        if extent.is_drawable() {
            seq![GpuCommand::ConfigureSurface(self.config.resized(extent))]
                + self.pipeline.resize_commands(extent)
        } else {
            seq![]
        }
    }

    /// The state after a frame with the given seed. A stale renderer draws
    /// no frame and stays as it is.
    pub open spec fn updated(self, seed: u32) -> RendererState {
        if self.status is Stable {
            RendererState { pipeline: self.pipeline.updated(self.config.extent(), seed), ..self }
        } else {
            self
        }
    }

    /// The compute pass of a frame: the current bind group, and a grid
    /// that covers the frame buffer.
    pub open spec fn compute_pass(self) -> ComputePass {
        ComputePass {
            bind_group: self.pipeline.compute_bind_group,
            grid: grid_for(self.pipeline.frame_buffer.extent, self.pipeline.compute.tile),
        }
    }

    /// The render pass of a frame: clear the surface image, draw the one
    /// triangle that covers the viewport, keep the result.
    pub open spec fn render_pass(self) -> RenderPass {
        RenderPass {
            bind_group: self.pipeline.render_bind_group,
            clear: CLEAR_COLOR,
            store: true,
            vertices: FULLSCREEN_VERTICES,
            instances: 1,
        }
    }

    /// The commands of one frame, for the state before it: the uniform
    /// update, then compute, then render, then submit, then present. Nothing
    /// for a stale renderer.
    pub open spec fn frame_commands(self, seed: u32) -> Seq<GpuCommand> {
        if self.status is Stable {
            self.pipeline.update_commands(self.config.extent(), seed) + seq![
                GpuCommand::Compute(self.updated(seed).compute_pass()),
                GpuCommand::Render(self.updated(seed).render_pass()),
                GpuCommand::Submit,
                GpuCommand::Present,
            ]
        } else {
            seq![]
        }
    }

    /// The state after one tick: the resize, where the window was resized
    /// since the tick before and now has the size `resized_to`, and then the
    /// frame.
    pub open spec fn ticked(self, resized_to: Option<Extent>, seed: u32) -> RendererState {
        match resized_to {
            Some(extent) => self.resized(extent).updated(seed),
            None => self.updated(seed),
        }
    }

    /// The commands of one tick: those of the resize, where there is one,
    /// and then those of the frame.
    pub open spec fn tick_commands(self, resized_to: Option<Extent>, seed: u32) -> Seq<GpuCommand> {
        match resized_to {
            Some(extent) => self.resize_commands(extent) + self.resized(extent).frame_commands(
                seed,
            ),
            None => self.frame_commands(seed),
        }
    }
}

/// The size that a resized window has now.
pub open spec fn resized_extent(resized: Option<&Window>) -> Option<Extent> {
    match resized {
        Some(window) => Some(window.extent()),
        None => None,
    }
}

/// The renderer of one window.
#[derive(Debug)]
pub struct Renderer {
    window_id: WindowId,
    config: SurfaceConfiguration,
    status: RendererStatus,
    pipeline: RenderPipeline,
}

impl View for Renderer {
    type V = RendererState;

    closed spec fn view(&self) -> RendererState {
        RendererState {
            window_id: self.window_id,
            config: self.config,
            status: self.status,
            pipeline: self.pipeline@,
        }
    }
}

impl Renderer {
    /// What the renderer knows is consistent.
    #[verifier::type_invariant]
    pub open spec fn wf(&self) -> bool {
        self@.wf()
    }

    /// The window that the renderer draws to.
    pub fn window_id(&self) -> (id: WindowId)
        ensures
            id == self@.window_id,
    {
        self.window_id
    }

    /// The configuration of the renderer's surface.
    pub fn config(&self) -> (config: SurfaceConfiguration)
        ensures
            config == self@.config,
    {
        self.config
    }

    /// Whether the surface matches the window.
    pub fn status(&self) -> (status: RendererStatus)
        ensures
            status == self@.status,
    {
        self.status
    }

    /// The pipelines of the renderer.
    pub fn pipeline(&self) -> (pipeline: &RenderPipeline)
        ensures
            pipeline@ == self@.pipeline,
    {
        &self.pipeline
    }

    /// Everything the renderer knows.
    pub fn state(&self) -> (state: RendererState)
        ensures
            state == self@,
            state.wf(),
    {
        proof {
            use_type_invariant(self);
        }
        RendererState {
            window_id: self.window_id,
            config: self.config,
            status: self.status,
            pipeline: self.pipeline.state(),
        }
    }

    /// Makes the renderer of `window` from what its surface supports: the
    /// surface's first format, the present mode that the window's vsync
    /// preference selects, and the window's size. Starts the renderer's
    /// clock; the first seed is read from it, so the contract leaves it open.
    pub fn new(window: &Window, capabilities: &SurfaceCapabilities) -> (made: Result<
        (Renderer, Vec<GpuCommand>),
        RendererError,
    >)
        ensures
            made is Ok <==> capabilities.formats@.len() > 0 && capabilities.present_modes@.len() > 0
                && window.extent().is_drawable(),
            made matches Err(error) ==> error == Renderer::refusal(*window, *capabilities),
            made matches Ok((renderer, commands)) ==> {
                &&& renderer@ == RendererState::initial(
                    *window,
                    preferred_format(capabilities.formats@).unwrap(),
                    preferred_present_mode(capabilities.present_modes@, window.vsync).unwrap(),
                    renderer@.pipeline.sampling_uniform.seed,
                )
                &&& renderer@.pipeline.sampling_uniform.seed < NANOS_PER_SECOND
                &&& renderer@.wf()
                &&& commands@ == renderer@.setup_commands()
            },
    {
        let clock = FrameClock::start();
        let elapsed_nanos: u128 = clock.elapsed_nanos();
        Renderer::new_at(window, capabilities, clock, elapsed_nanos)
    }

    /// The error with which a renderer is refused, where it is: a missing
    /// format is reported before a missing present mode, and that before a
    /// window without pixels.
    pub open spec fn refusal(window: Window, capabilities: SurfaceCapabilities) -> RendererError {
        if capabilities.formats@.len() == 0 {
            RendererError::NoSurfaceFormat
        } else if capabilities.present_modes@.len() == 0 {
            RendererError::NoPresentMode
        } else {
            RendererError::ZeroExtent
        }
    }

    /// Makes the renderer as `new` does, with a clock that the caller
    /// started and the time it showed when the first seed was taken.
    pub fn new_at(
        window: &Window,
        capabilities: &SurfaceCapabilities,
        clock: FrameClock,
        elapsed_nanos: u128,
    ) -> (made: Result<(Renderer, Vec<GpuCommand>), RendererError>)
        ensures
            made is Ok <==> capabilities.formats@.len() > 0 && capabilities.present_modes@.len() > 0
                && window.extent().is_drawable(),
            made matches Err(error) ==> error == Renderer::refusal(*window, *capabilities),
            made matches Ok((renderer, commands)) ==> {
                &&& renderer@ == RendererState::initial(
                    *window,
                    preferred_format(capabilities.formats@).unwrap(),
                    preferred_present_mode(capabilities.present_modes@, window.vsync).unwrap(),
                    seed_at(elapsed_nanos),
                )
                &&& renderer@.wf()
                &&& commands@ == renderer@.setup_commands()
            },
    {
        let format = match select_format(&capabilities.formats) {
            Some(format) => format,
            None => {
                return Err(RendererError::NoSurfaceFormat);
            },
        };
        let present_mode = match select_present_mode(&capabilities.present_modes, window.vsync) {
            Some(present_mode) => present_mode,
            None => {
                return Err(RendererError::NoPresentMode);
            },
        };
        let width: u32 = window.physical_width;
        let height: u32 = window.physical_height;
        let config = SurfaceConfiguration { format, width, height, present_mode };
        let (pipeline, pipeline_commands) = match RenderPipeline::new_at(
            &config,
            width,
            height,
            clock,
            elapsed_nanos,
        ) {
            Ok(made) => made,
            Err(error) => {
                return Err(error);
            },
        };
        let mut commands: Vec<GpuCommand> = Vec::new();
        commands.push(GpuCommand::ConfigureSurface(config));
        let mut pipeline_commands = pipeline_commands;
        commands.append(&mut pipeline_commands);
        let renderer = Renderer {
            window_id: window.id,
            config,
            status: RendererStatus::Stable,
            pipeline,
        };
        assert(commands@ =~= renderer@.setup_commands());
        Ok((renderer, commands))
    }

    /// Reconciles the renderer with the size that its window has now. With
    /// both dimensions nonzero the surface is configured for the new size,
    /// the frame buffer and both bind groups are replaced where the size
    /// changed, and the renderer is stable. Otherwise the renderer turns
    /// stale and nothing else changes.
    pub fn handle_resize(&mut self, window: &Window) -> (commands: Vec<GpuCommand>)
        ensures
            final(self)@ == old(self)@.resized(window.extent()),
            final(self)@.wf(),
            commands@ == old(self)@.resize_commands(window.extent()),
    {
        proof {
            use_type_invariant(&*self);
        }
        let width: u32 = window.physical_width;
        let height: u32 = window.physical_height;
        if width > 0 && height > 0 {
            let config = SurfaceConfiguration {
                format: self.config.format,
                width,
                height,
                present_mode: self.config.present_mode,
            };
            let mut pipeline = self.pipeline;
            let mut pipeline_commands = pipeline.resize(width, height);
            let mut commands: Vec<GpuCommand> = Vec::new();
            commands.push(GpuCommand::ConfigureSurface(config));
            commands.append(&mut pipeline_commands);
            *self = Renderer {
                window_id: self.window_id,
                config,
                status: RendererStatus::Stable,
                pipeline,
            };
            assert(commands@ =~= old(self)@.resize_commands(window.extent()));
            commands
        } else {
            self.status = RendererStatus::Stale;
            Vec::new()
        }
    }

    /// Runs one frame: updates the uniform record with a seed from the
    /// clock, then records the compute pass, the render pass onto the
    /// surface image, the submission and the presentation, in that order.
    /// A stale renderer does nothing. The seed depends on the clock, so the
    /// contract speaks of whatever seed the record ends up with.
    pub fn update(&mut self) -> (commands: Vec<GpuCommand>)
        ensures
            final(self)@ == old(self)@.updated(final(self)@.pipeline.sampling_uniform.seed),
            final(self)@.wf(),
            commands@ == old(self)@.frame_commands(final(self)@.pipeline.sampling_uniform.seed),
            old(self)@.status is Stable ==> final(self)@.pipeline.sampling_uniform.seed
                < NANOS_PER_SECOND,
    {
        proof {
            use_type_invariant(&*self);
        }
        match self.status {
            RendererStatus::Stale => Vec::new(),
            RendererStatus::Stable => {
                let mut pipeline = self.pipeline;
                let commands = pipeline.update(self.config.width, self.config.height);
                self.finish_frame(pipeline, commands)
            },
        }
    }

    /// Runs one frame as `update` does, for a frame that starts
    /// `elapsed_nanos` after the renderer was made.
    pub fn update_at(&mut self, elapsed_nanos: u128) -> (commands: Vec<GpuCommand>)
        ensures
            final(self)@ == old(self)@.updated(seed_at(elapsed_nanos)),
            final(self)@.wf(),
            commands@ == old(self)@.frame_commands(seed_at(elapsed_nanos)),
    {
        proof {
            use_type_invariant(&*self);
        }
        match self.status {
            RendererStatus::Stale => Vec::new(),
            RendererStatus::Stable => {
                let mut pipeline = self.pipeline;
                let commands = pipeline.update_at(
                    self.config.width,
                    self.config.height,
                    elapsed_nanos,
                );
                self.finish_frame(pipeline, commands)
            },
        }
    }

    /// Advances the renderer by one tick. Where its window was resized since
    /// the tick before, `resized` is the window as it is now, and the
    /// renderer is reconciled with it first; then the frame runs.
    pub fn tick(&mut self, resized: Option<&Window>) -> (commands: Vec<GpuCommand>)
        ensures
            final(self)@ == old(self)@.ticked(
                resized_extent(resized),
                final(self)@.pipeline.sampling_uniform.seed,
            ),
            final(self)@.wf(),
            commands@ == old(self)@.tick_commands(
                resized_extent(resized),
                final(self)@.pipeline.sampling_uniform.seed,
            ),
    {
        let mut commands: Vec<GpuCommand> = match resized {
            Some(window) => self.handle_resize(window),
            None => Vec::new(),
        };
        let ghost resize_commands = commands@;
        let mut frame = self.update();
        let ghost frame_commands = frame@;
        commands.append(&mut frame);
        assert(commands@ =~= resize_commands + frame_commands);
        commands
    }

    /// Puts the updated pipeline in place and adds the passes of the frame
    /// to the commands of the update.
    fn finish_frame(&mut self, pipeline: RenderPipeline, commands: Vec<GpuCommand>) -> (all: Vec<
        GpuCommand,
    >)
        requires
            old(self)@.wf(),
            old(self)@.status is Stable,
            pipeline@.wf(),
            pipeline@ == old(self)@.pipeline.updated(
                old(self)@.config.extent(),
                pipeline@.sampling_uniform.seed,
            ),
            commands@ == old(self)@.pipeline.update_commands(
                old(self)@.config.extent(),
                pipeline@.sampling_uniform.seed,
            ),
        ensures
            final(self)@ == old(self)@.updated(pipeline@.sampling_uniform.seed),
            final(self)@.wf(),
            all@ == old(self)@.frame_commands(pipeline@.sampling_uniform.seed),
    {
        let state = pipeline.state();
        let grid = dispatch_grid(state.frame_buffer.extent, state.compute.tile);
        let mut all = commands;
        all.push(
            GpuCommand::Compute(ComputePass { bind_group: state.compute_bind_group, grid }),
        );
        all.push(
            GpuCommand::Render(
                RenderPass {
                    bind_group: state.render_bind_group,
                    clear: CLEAR_COLOR,
                    store: true,
                    vertices: FULLSCREEN_VERTICES,
                    instances: 1,
                },
            ),
        );
        all.push(GpuCommand::Submit);
        all.push(GpuCommand::Present);
        self.pipeline = pipeline;
        assert(all@ =~= old(self)@.frame_commands(pipeline@.sampling_uniform.seed));
        all
    }
}

/// After a resize to an extent with pixels the renderer is stable, its
/// surface and its frame buffer have that extent, and both bind groups are
/// made over the frame buffer that is current, in a way their layouts
/// accept. Where the extent changed, that frame buffer is a new one: neither
/// bind group refers to the one before, which is let go only after its
/// replacement and the bind groups over it were made.
pub proof fn lemma_resize_rebinds_frame_buffer(before: RendererState, extent: Extent)
    requires
        before.wf(),
        extent.is_drawable(),
    ensures
        ({
            let after = before.resized(extent);
            let commands = before.resize_commands(extent);
            let old_id = before.pipeline.frame_buffer.id;
            let new_id = after.pipeline.frame_buffer.id;
            &&& after.wf()
            &&& after.status is Stable
            &&& after.window_id == before.window_id
            &&& after.config.extent() == extent
            &&& after.pipeline.frame_buffer.extent == extent
            &&& after.pipeline.sampling_buffer.extent == extent
            &&& after.pipeline.compute_bind_group.binds_frame_buffer(new_id)
            &&& after.pipeline.render_bind_group.binds_frame_buffer(new_id)
            &&& layout_accepts(
                after.pipeline.compute.layout,
                after.pipeline.compute_bind_group,
                after.pipeline.frame_buffer,
            )
            &&& layout_accepts(
                after.pipeline.render.layout,
                after.pipeline.render_bind_group,
                after.pipeline.frame_buffer,
            )
            &&& extent != before.config.extent() ==> {
                &&& new_id != old_id
                &&& !after.pipeline.compute_bind_group.binds_frame_buffer(old_id)
                &&& !after.pipeline.render_bind_group.binds_frame_buffer(old_id)
                &&& commands == seq![
                    GpuCommand::ConfigureSurface(after.config),
                    GpuCommand::CreateFrameBuffer(after.pipeline.frame_buffer),
                    GpuCommand::CreateBindGroup(after.pipeline.compute_bind_group),
                    GpuCommand::CreateBindGroup(after.pipeline.render_bind_group),
                    GpuCommand::ReleaseFrameBuffer(old_id),
                    GpuCommand::WriteUniform(after.pipeline.sampling_buffer),
                ]
            }
            &&& extent == before.config.extent() ==> {
                &&& after.pipeline == before.pipeline
                &&& commands == seq![GpuCommand::ConfigureSurface(after.config)]
            }
        }),
{
    let after = before.resized(extent);
    let commands = before.resize_commands(extent);
    if extent != before.config.extent() {
        assert(commands =~= seq![
            GpuCommand::ConfigureSurface(after.config),
            GpuCommand::CreateFrameBuffer(after.pipeline.frame_buffer),
            GpuCommand::CreateBindGroup(after.pipeline.compute_bind_group),
            GpuCommand::CreateBindGroup(after.pipeline.render_bind_group),
            GpuCommand::ReleaseFrameBuffer(before.pipeline.frame_buffer.id),
            GpuCommand::WriteUniform(after.pipeline.sampling_buffer),
        ]);
    } else {
        assert(commands =~= seq![GpuCommand::ConfigureSurface(after.config)]);
    }
}

/// Whatever a tick does, a renderer that was consistent stays so.
pub proof fn lemma_tick_keeps_consistency(
    before: RendererState,
    resized_to: Option<Extent>,
    seed: u32,
)
    requires
        before.wf(),
    ensures
        before.ticked(resized_to, seed).wf(),
        before.ticked(resized_to, seed).window_id == before.window_id,
{
}

/// In the commands of a tick, each compute dispatch comes right after the
/// copy of the uniform record to the device, and the extent in that record
/// is the extent of the frame buffer that is current then. The dispatch is
/// over that frame buffer, with a grid made for its extent, and there is
/// one dispatch at most.
pub proof fn lemma_uniform_extent_matches_at_dispatch(
    before: RendererState,
    resized_to: Option<Extent>,
    seed: u32,
    at: int,
)
    requires
        before.wf(),
        0 <= at < before.tick_commands(resized_to, seed).len(),
        before.tick_commands(resized_to, seed)[at] is Compute,
    ensures
        ({
            let commands = before.tick_commands(resized_to, seed);
            let after = before.ticked(resized_to, seed);
            &&& at > 0
            &&& commands[at - 1] == GpuCommand::WriteUniform(after.pipeline.sampling_buffer)
            &&& after.pipeline.sampling_buffer.extent == after.pipeline.frame_buffer.extent
            &&& commands[at] == GpuCommand::Compute(
                ComputePass {
                    bind_group: after.pipeline.compute_bind_group,
                    grid: grid_for(after.pipeline.frame_buffer.extent, WORKGROUP_TILE),
                },
            )
            &&& after.pipeline.compute_bind_group.binds_frame_buffer(after.pipeline.frame_buffer.id)
            &&& forall|other: int|
                0 <= other < commands.len() && #[trigger] commands[other] is Compute ==> other
                    == at
        }),
{
    let at_tick = match resized_to {
        Some(extent) => before.resized(extent),
        None => before,
    };
    let resize = match resized_to {
        Some(extent) => before.resize_commands(extent),
        None => seq![],
    };
    let frame = at_tick.frame_commands(seed);
    let commands = before.tick_commands(resized_to, seed);
    assert(commands =~= resize + frame);
    assert(at_tick.pipeline.update_commands(at_tick.config.extent(), seed) =~= seq![
        GpuCommand::WriteUniform(at_tick.updated(seed).pipeline.sampling_uniform),
    ]);
    assert forall|k: int| 0 <= k < resize.len() implies !(#[trigger] resize[k] is Compute) by {
        match resized_to {
            Some(extent) => {
                if extent.is_drawable() {
                    lemma_resize_rebinds_frame_buffer(before, extent);
                }
            },
            None => {},
        }
    }
    assert forall|k: int| 0 <= k < commands.len() && #[trigger] commands[k] is Compute implies k
        == resize.len() + 1 by {
        if k < resize.len() {
            assert(commands[k] == resize[k]);
        } else {
            assert(commands[k] == frame[k - resize.len()]);
        }
    }
    assert(commands[at - 1] == frame[0]);
    assert(commands[at] == frame[1]);
}

/// The frame of a stable renderer ends with the compute pass, the render
/// pass, the submission and the presentation, in that order and each once.
pub proof fn lemma_frame_is_compute_render_submit_present(before: RendererState, seed: u32)
    requires
        before.wf(),
        before.status is Stable,
    ensures
        ({
            let commands = before.frame_commands(seed);
            let after = before.updated(seed);
            &&& commands.len() == 5
            &&& commands[commands.len() - 4] == GpuCommand::Compute(after.compute_pass())
            &&& commands[commands.len() - 3] == GpuCommand::Render(after.render_pass())
            &&& commands[commands.len() - 2] == GpuCommand::Submit
            &&& commands[commands.len() - 1] == GpuCommand::Present
            &&& forall|k: int|
                0 <= k < commands.len() - 4 ==> !(#[trigger] commands[k] is Compute) && !(
                commands[k] is Render) && !(commands[k] is Submit) && !(commands[k] is Present)
            &&& after.render_pass().vertices == 3
            &&& after.render_pass().instances == 1
            &&& after.render_pass().store
        }),
{
    let commands = before.frame_commands(seed);
    let update = before.pipeline.update_commands(before.config.extent(), seed);
    assert(update =~= seq![
        GpuCommand::WriteUniform(before.updated(seed).pipeline.sampling_uniform),
    ]);
    assert(commands.len() == 5);
    assert(commands[0] == update[0]);
}

/// One tick replaces the frame buffer of a renderer once at most, and it
/// does so exactly where the window was resized to a new extent that has
/// pixels.
pub proof fn lemma_one_rebuild_per_tick(
    before: RendererState,
    resized_to: Option<Extent>,
    seed: u32,
)
    requires
        before.wf(),
    ensures
        ({
            let commands = before.tick_commands(resized_to, seed);
            &&& forall|i: int, j: int|
                0 <= i < commands.len() && 0 <= j < commands.len()
                    && #[trigger] commands[i] is CreateFrameBuffer
                    && #[trigger] commands[j] is CreateFrameBuffer ==> i == j
            &&& (exists|i: int|
                0 <= i < commands.len() && #[trigger] commands[i] is CreateFrameBuffer) <==> (
            resized_to matches Some(extent) && extent.is_drawable() && extent
                != before.config.extent())
        }),
{
    let at_tick = match resized_to {
        Some(extent) => before.resized(extent),
        None => before,
    };
    let resize = match resized_to {
        Some(extent) => before.resize_commands(extent),
        None => seq![],
    };
    let frame = at_tick.frame_commands(seed);
    let commands = before.tick_commands(resized_to, seed);
    assert(commands =~= resize + frame);
    assert(at_tick.wf());
    assert(at_tick.pipeline.update_commands(at_tick.config.extent(), seed) =~= seq![
        GpuCommand::WriteUniform(
            at_tick.pipeline.updated(at_tick.config.extent(), seed).sampling_uniform,
        ),
    ]);
    assert forall|k: int| 0 <= k < frame.len() implies !(
    #[trigger] frame[k] is CreateFrameBuffer) by {}
    let rebuilds = resized_to matches Some(extent) && extent.is_drawable() && extent
        != before.config.extent();
    match resized_to {
        Some(extent) => {
            if extent.is_drawable() {
                lemma_resize_rebinds_frame_buffer(before, extent);
            }
        },
        None => {},
    }
    assert forall|k: int|
        0 <= k < resize.len() && #[trigger] resize[k] is CreateFrameBuffer implies k == 1
        && rebuilds by {}
    assert forall|k: int|
        0 <= k < commands.len() && #[trigger] commands[k] is CreateFrameBuffer implies k == 1
        && rebuilds by {
        if k < resize.len() {
            assert(commands[k] == resize[k]);
        } else {
            assert(commands[k] == frame[k - resize.len()]);
        }
    }
    if rebuilds {
        assert(commands[1] == resize[1]);
        assert(commands[1] is CreateFrameBuffer);
    }
}

/// Pipelines, sampler and uniform buffer are made when the renderer is, and
/// never in a tick: what can fail in making them fails before the first
/// frame.
pub proof fn lemma_ticks_make_no_lasting_objects(
    before: RendererState,
    resized_to: Option<Extent>,
    seed: u32,
)
    requires
        before.wf(),
    ensures
        forall|k: int|
            0 <= k < before.tick_commands(resized_to, seed).len() ==> !(
            #[trigger] before.tick_commands(resized_to, seed)[k]).makes_lasting_object(),
{
    let at_tick = match resized_to {
        Some(extent) => before.resized(extent),
        None => before,
    };
    let resize = match resized_to {
        Some(extent) => before.resize_commands(extent),
        None => seq![],
    };
    let frame = at_tick.frame_commands(seed);
    let commands = before.tick_commands(resized_to, seed);
    assert(commands =~= resize + frame);
    assert(at_tick.wf());
    assert(at_tick.pipeline.update_commands(at_tick.config.extent(), seed) =~= seq![
        GpuCommand::WriteUniform(
            at_tick.pipeline.updated(at_tick.config.extent(), seed).sampling_uniform,
        ),
    ]);
    match resized_to {
        Some(extent) => {
            if extent.is_drawable() {
                lemma_resize_rebinds_frame_buffer(before, extent);
            }
        },
        None => {},
    }
    assert forall|k: int| 0 <= k < commands.len() implies !(
    #[trigger] commands[k]).makes_lasting_object() by {
        if k < resize.len() {
            assert(commands[k] == resize[k]);
        } else {
            assert(commands[k] == frame[k - resize.len()]);
        }
    }
}

/// Two frames in a row on a stable renderer, taken less than a second
/// apart on an advancing clock, carry different seeds, on the host and in
/// what is copied to the device.
pub proof fn lemma_consecutive_frames_differ_in_seed(
    before: RendererState,
    earlier: u128,
    later: u128,
)
    requires
        before.wf(),
        before.status is Stable,
        earlier < later,
        later - earlier < 1_000_000_000,
    ensures
        ({
            let first = before.updated(seed_at(earlier));
            let second = first.updated(seed_at(later));
            &&& first.pipeline.sampling_buffer.seed == seed_at(earlier)
            &&& second.pipeline.sampling_buffer.seed == seed_at(later)
            &&& first.pipeline.sampling_buffer.seed != second.pipeline.sampling_buffer.seed
            &&& first.pipeline.frame_buffer == second.pipeline.frame_buffer
            &&& before.frame_commands(seed_at(earlier))[0] != first.frame_commands(
                seed_at(later),
            )[0]
        }),
{
    lemma_seed_differs_within_a_second(earlier, later);
    let first = before.updated(seed_at(earlier));
    assert(before.pipeline.update_commands(before.config.extent(), seed_at(earlier)) =~= seq![
        GpuCommand::WriteUniform(first.pipeline.sampling_uniform),
    ]);
    assert(first.pipeline.update_commands(first.config.extent(), seed_at(later)) =~= seq![
        GpuCommand::WriteUniform(first.updated(seed_at(later)).pipeline.sampling_uniform),
    ]);
}

} // verus!
