use window_renderer::{
    BindGroup, BindGroupEntry, BindingResource, ClearColor, ComputePass, Extent, FrameBuffer,
    FrameClock, GpuCommand, PresentMode, RaySamplingUniform, RenderPass, RenderPipeline, Renderer,
    RendererError, RendererStatus, Stage, SurfaceCapabilities, SurfaceConfiguration,
    TextureFormat, Window, WorkgroupGrid, CLEAR_COLOR, FULLSCREEN_VERTICES,
};

fn window(width: u32, height: u32) -> Window {
    Window { id: 7, physical_width: width, physical_height: height, vsync: true }
}

fn capabilities() -> SurfaceCapabilities {
    SurfaceCapabilities {
        formats: vec![TextureFormat::Bgra8UnormSrgb, TextureFormat::Rgba16Float],
        present_modes: vec![PresentMode::Immediate, PresentMode::Fifo],
    }
}

fn config(width: u32, height: u32) -> SurfaceConfiguration {
    SurfaceConfiguration {
        format: TextureFormat::Bgra8UnormSrgb,
        width,
        height,
        present_mode: PresentMode::Fifo,
    }
}

fn frame_buffer(id: u64, width: u32, height: u32) -> FrameBuffer {
    FrameBuffer {
        id,
        extent: Extent { width, height },
        format: TextureFormat::Rgba8Unorm,
        mip_level_count: 1,
        sample_count: 1,
        storage_binding: true,
        texture_binding: true,
    }
}

fn compute_group(frame_buffer: u64) -> BindGroup {
    BindGroup {
        stage: Stage::Compute,
        first: BindGroupEntry {
            binding: 0,
            resource: BindingResource::FrameBufferView { frame_buffer },
        },
        second: BindGroupEntry { binding: 1, resource: BindingResource::UniformBuffer },
    }
}

fn render_group(frame_buffer: u64) -> BindGroup {
    BindGroup {
        stage: Stage::Render,
        first: BindGroupEntry {
            binding: 0,
            resource: BindingResource::FrameBufferView { frame_buffer },
        },
        second: BindGroupEntry { binding: 1, resource: BindingResource::Sampler },
    }
}

fn uniform(seed: u32, width: u32, height: u32) -> RaySamplingUniform {
    RaySamplingUniform { seed, pad: 0, extent: Extent { width, height } }
}

fn passes(frame_buffer: u64, x: u32, y: u32) -> Vec<GpuCommand> {
    vec![
        GpuCommand::Compute(ComputePass {
            bind_group: compute_group(frame_buffer),
            grid: WorkgroupGrid { x, y, z: 1 },
        }),
        GpuCommand::Render(RenderPass {
            bind_group: render_group(frame_buffer),
            clear: ClearColor::Transparent,
            store: true,
            vertices: 3,
            instances: 1,
        }),
        GpuCommand::Submit,
        GpuCommand::Present,
    ]
}

fn renderer_640_by_480() -> Renderer {
    let (renderer, _) =
        Renderer::new_at(&window(640, 480), &capabilities(), FrameClock::start(), 0).unwrap();
    renderer
}

#[test]
fn new_renderer_configures_the_surface_before_it_builds_the_pipelines() {
    let (renderer, commands) = Renderer::new_at(
        &window(640, 480),
        &capabilities(),
        FrameClock::start(),
        2_000_000_005,
    )
    .unwrap();
    assert_eq!(
        commands,
        vec![
            GpuCommand::ConfigureSurface(config(640, 480)),
            GpuCommand::CreateFrameBuffer(frame_buffer(0, 640, 480)),
            GpuCommand::CreateUniformBuffer(uniform(5, 640, 480)),
            GpuCommand::CreateComputePipeline(RenderPipeline::create_compute_stage()),
            GpuCommand::CreateBindGroup(compute_group(0)),
            GpuCommand::CreateSampler(RenderPipeline::create_sampler()),
            GpuCommand::CreateRenderPipeline(RenderPipeline::create_render_stage(
                TextureFormat::Bgra8UnormSrgb
            )),
            GpuCommand::CreateBindGroup(render_group(0)),
        ]
    );
    assert_eq!(renderer.window_id(), 7);
    assert_eq!(renderer.config(), config(640, 480));
    assert_eq!(renderer.status(), RendererStatus::Stable);
    assert_eq!(renderer.pipeline().state(), renderer.state().pipeline);
    assert_eq!(renderer.state().pipeline.frame_buffer, frame_buffer(0, 640, 480));
}

#[test]
fn new_renderer_selects_by_the_vsync_preference() {
    let mut fast = window(640, 480);
    fast.vsync = false;
    let (renderer, _) = Renderer::new(&fast, &capabilities()).unwrap();
    assert_eq!(renderer.config().present_mode, PresentMode::Immediate);
    let (renderer, _) = Renderer::new(&window(640, 480), &capabilities()).unwrap();
    assert_eq!(renderer.config().present_mode, PresentMode::Fifo);
    assert_eq!(renderer.config().format, TextureFormat::Bgra8UnormSrgb);
    assert!(renderer.state().pipeline.sampling_uniform.seed < 1_000_000_000);
}

#[test]
fn new_renderer_is_refused_without_a_surface_format() {
    let none = SurfaceCapabilities { formats: Vec::new(), present_modes: Vec::new() };
    assert_eq!(Renderer::new(&window(640, 480), &none).err(), Some(RendererError::NoSurfaceFormat));
    let no_format =
        SurfaceCapabilities { formats: Vec::new(), present_modes: vec![PresentMode::Fifo] };
    assert_eq!(
        Renderer::new(&window(0, 0), &no_format).err(),
        Some(RendererError::NoSurfaceFormat)
    );
}

#[test]
fn new_renderer_is_refused_without_a_present_mode() {
    let no_mode =
        SurfaceCapabilities { formats: vec![TextureFormat::Bgra8Unorm], present_modes: Vec::new() };
    assert_eq!(
        Renderer::new(&window(640, 480), &no_mode).err(),
        Some(RendererError::NoPresentMode)
    );
    assert_eq!(Renderer::new(&window(0, 480), &no_mode).err(), Some(RendererError::NoPresentMode));
}

#[test]
fn new_renderer_is_refused_for_a_window_without_pixels() {
    for (width, height) in [(0u32, 480u32), (640, 0), (0, 0)] {
        let made = Renderer::new(&window(width, height), &capabilities());
        assert_eq!(made.err(), Some(RendererError::ZeroExtent));
    }
}

#[test]
fn error_messages_name_what_is_missing() {
    assert_eq!(
        RendererError::NoSurfaceFormat.message(),
        "Surface format not supported by adapter"
    );
    assert_eq!(
        RendererError::NoPresentMode.message(),
        "Surface presentation mode not supported by adapter"
    );
    assert_eq!(RendererError::ZeroExtent.message(), "Window has no pixels to render to");
    assert_eq!(RendererError::DuplicateWindow.message(), "Window already has a renderer");
}

#[test]
fn frame_is_uniform_then_compute_then_render_then_submit_then_present() {
    let mut renderer = renderer_640_by_480();
    let commands = renderer.update_at(1_000_000_123);
    let mut expected = vec![GpuCommand::WriteUniform(uniform(123, 640, 480))];
    expected.extend(passes(0, 40, 30));
    assert_eq!(commands, expected);
    assert_eq!(renderer.state().pipeline.sampling_buffer, uniform(123, 640, 480));
}

#[test]
fn frame_draws_one_triangle_once_over_a_cleared_surface() {
    let mut renderer = renderer_640_by_480();
    let commands = renderer.update();
    assert_eq!(commands.len(), 5);
    match commands[2] {
        GpuCommand::Render(pass) => {
            assert_eq!(pass.vertices, FULLSCREEN_VERTICES);
            assert_eq!(pass.vertices, 3);
            assert_eq!(pass.instances, 1);
            assert_eq!(pass.clear, CLEAR_COLOR);
            assert_eq!(pass.clear, ClearColor::Transparent);
            assert!(pass.store);
        }
        _ => panic!("the third command of a frame is the render pass"),
    }
}

#[test]
fn frame_uploads_the_extent_of_the_frame_buffer_before_the_dispatch() {
    let mut renderer = renderer_640_by_480();
    renderer.handle_resize(&window(1023, 769));
    let commands = renderer.update_at(8);
    let dispatch = commands
        .iter()
        .position(|command| matches!(command, GpuCommand::Compute(_)))
        .unwrap();
    assert!(dispatch > 0);
    let frame_buffer = renderer.state().pipeline.frame_buffer;
    assert_eq!(
        commands[dispatch - 1],
        GpuCommand::WriteUniform(uniform(8, frame_buffer.extent.width, frame_buffer.extent.height))
    );
    assert_eq!(frame_buffer.extent, Extent { width: 1023, height: 769 });
    assert_eq!(
        commands[dispatch],
        GpuCommand::Compute(ComputePass {
            bind_group: compute_group(frame_buffer.id),
            grid: WorkgroupGrid { x: 64, y: 49, z: 1 },
        })
    );
}

#[test]
fn consecutive_frames_carry_different_seeds() {
    let mut renderer = renderer_640_by_480();
    let first = renderer.update_at(5_000_000_000);
    let seed_of_first = renderer.state().pipeline.sampling_buffer.seed;
    let second = renderer.update_at(5_016_666_667);
    let seed_of_second = renderer.state().pipeline.sampling_buffer.seed;
    assert_eq!(seed_of_first, 0);
    assert_eq!(seed_of_second, 16_666_667);
    assert_ne!(first[0], second[0]);
    assert_eq!(first[1..], second[1..]);
}

#[test]
fn resize_rebuilds_the_frame_buffer_and_rebinds_both_groups() {
    let mut renderer = renderer_640_by_480();
    renderer.update_at(77);
    let commands = renderer.handle_resize(&window(800, 600));
    assert_eq!(
        commands,
        vec![
            GpuCommand::ConfigureSurface(config(800, 600)),
            GpuCommand::CreateFrameBuffer(frame_buffer(1, 800, 600)),
            GpuCommand::CreateBindGroup(compute_group(1)),
            GpuCommand::CreateBindGroup(render_group(1)),
            GpuCommand::ReleaseFrameBuffer(0),
            GpuCommand::WriteUniform(uniform(77, 800, 600)),
        ]
    );
    let state = renderer.state();
    assert_eq!(state.config, config(800, 600));
    assert_eq!(state.status, RendererStatus::Stable);
    assert_eq!(state.pipeline.frame_buffer, frame_buffer(1, 800, 600));
    assert_eq!(state.pipeline.compute_bind_group, compute_group(1));
    assert_eq!(state.pipeline.render_bind_group, render_group(1));
    assert_eq!(state.pipeline.sampling_buffer, uniform(77, 800, 600));
}

#[test]
fn resize_to_the_same_size_only_configures_the_surface() {
    let mut renderer = renderer_640_by_480();
    let before = renderer.state();
    let commands = renderer.handle_resize(&window(640, 480));
    assert_eq!(commands, vec![GpuCommand::ConfigureSurface(config(640, 480))]);
    assert_eq!(renderer.state(), before);
}

#[test]
fn resize_without_pixels_makes_the_renderer_stale_and_nothing_else() {
    for (width, height) in [(0u32, 600u32), (800, 0), (0, 0)] {
        let mut renderer = renderer_640_by_480();
        let before = renderer.state();
        assert_eq!(renderer.handle_resize(&window(width, height)), Vec::new());
        let after = renderer.state();
        assert_eq!(after.status, RendererStatus::Stale);
        assert_eq!(after.config, before.config);
        assert_eq!(after.pipeline, before.pipeline);
    }
}

#[test]
fn stale_renderer_draws_no_frame() {
    let mut renderer = renderer_640_by_480();
    renderer.handle_resize(&window(0, 0));
    let before = renderer.state();
    assert_eq!(renderer.update(), Vec::new());
    assert_eq!(renderer.update_at(12), Vec::new());
    assert_eq!(renderer.tick(None), Vec::new());
    assert_eq!(renderer.state(), before);
}

#[test]
fn tick_reconciles_before_it_draws() {
    let mut renderer = renderer_640_by_480();
    let commands = renderer.tick(Some(&window(800, 600)));
    assert_eq!(commands.len(), 11);
    assert_eq!(commands[0], GpuCommand::ConfigureSurface(config(800, 600)));
    assert_eq!(commands[1], GpuCommand::CreateFrameBuffer(frame_buffer(1, 800, 600)));
    assert_eq!(commands[7..], passes(1, 50, 38)[..]);
    let creations = commands
        .iter()
        .filter(|command| matches!(command, GpuCommand::CreateFrameBuffer(_)))
        .count();
    assert_eq!(creations, 1);
    let commands = renderer.tick(None);
    assert_eq!(commands.len(), 5);
}

#[test]
fn window_lifecycle_from_creation_over_resize_and_minimize_to_restore() {
    // created at 640 by 480
    let (mut renderer, setup) = Renderer::new(&window(640, 480), &capabilities()).unwrap();
    assert_eq!(setup[0], GpuCommand::ConfigureSurface(config(640, 480)));
    assert_eq!(renderer.config().width, 640);
    assert_eq!(renderer.config().height, 480);
    assert_eq!(renderer.state().pipeline.frame_buffer.extent, Extent { width: 640, height: 480 });

    // resized to 800 by 600: the next tick rebuilds and then draws
    let commands = renderer.tick(Some(&window(800, 600)));
    assert_eq!(renderer.config().width, 800);
    assert_eq!(renderer.config().height, 600);
    assert_eq!(renderer.state().pipeline.frame_buffer, frame_buffer(1, 800, 600));
    assert_eq!(renderer.state().pipeline.compute_bind_group, compute_group(1));
    assert_eq!(renderer.state().pipeline.render_bind_group, render_group(1));
    assert_eq!(commands[1], GpuCommand::CreateFrameBuffer(frame_buffer(1, 800, 600)));
    assert_eq!(commands[2], GpuCommand::CreateBindGroup(compute_group(1)));
    assert_eq!(commands[3], GpuCommand::CreateBindGroup(render_group(1)));
    assert_eq!(commands[4], GpuCommand::ReleaseFrameBuffer(0));
    assert_eq!(commands[commands.len() - 1], GpuCommand::Present);
    assert_eq!(commands[7..], passes(1, 50, 38)[..]);

    // minimized: no frame that tick, and none after it while it lasts
    assert_eq!(renderer.tick(Some(&window(0, 0))), Vec::new());
    assert_eq!(renderer.status(), RendererStatus::Stale);
    assert_eq!(renderer.tick(None), Vec::new());
    assert_eq!(renderer.config(), config(800, 600));

    // restored to 800 by 600: frames resume on the frame buffer that is there
    let commands = renderer.tick(Some(&window(800, 600)));
    assert_eq!(renderer.status(), RendererStatus::Stable);
    assert_eq!(commands[0], GpuCommand::ConfigureSurface(config(800, 600)));
    assert_eq!(commands.len(), 6);
    assert_eq!(commands[2..], passes(1, 50, 38)[..]);
    assert_eq!(renderer.tick(None).len(), 5);
}
