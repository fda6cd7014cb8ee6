//! Verified core of a small real-time rendering setup: one renderer per
//! window, each running a compute pass that fills an offscreen frame buffer
//! and a render pass that shows it on the window surface.
//!
//! The library decides; it never touches a GPU itself. Every operation
//! returns the list of [`GpuCommand`]s that the embedding application has to
//! carry out, in order, on the device that belongs to the renderer.

pub mod clock;
pub mod device;
pub mod dispatcher;
pub mod driver;
pub mod error;
pub mod extent;
pub mod gpu;
pub mod pipeline;
pub mod renderer;
pub mod surface;
pub mod uniform;
pub mod window;

pub use clock::FrameClock;
pub use dispatcher::{dispatcher_system, Dispatcher};
pub use driver::{find_missing_window, render_system, Frame, RenderSystemState};
pub use error::RendererError;
pub use extent::{dispatch_grid, workgroup_count, Extent, WorkgroupGrid, WORKGROUP_TILE};
pub use gpu::{
    AddressMode, BindGroup, BindGroupEntry, BindGroupLayout, BindGroupLayoutEntry, BindingResource,
    BindingType, ClearColor, ComputePass, ComputeStage, FilterMode, FrameBuffer, GpuCommand,
    RenderPass, RenderStage, Sampler, ShaderStage, Stage, CLEAR_COLOR, FRAME_BUFFER_FORMAT,
    FULLSCREEN_VERTICES,
};
pub use pipeline::{PipelineState, RenderPipeline};
pub use renderer::{Renderer, RendererState, RendererStatus};
pub use surface::{
    select_format, select_present_mode, PresentMode, SurfaceCapabilities, SurfaceConfiguration,
    TextureFormat,
};
pub use uniform::{seed_from_elapsed, RaySamplingUniform, NANOS_PER_SECOND, UNIFORM_SIZE};
pub use window::{Window, WindowId, Windows};
