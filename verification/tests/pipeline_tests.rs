use window_renderer::{
    AddressMode, BindGroup, BindGroupEntry, BindGroupLayout, BindGroupLayoutEntry, BindingResource,
    BindingType, ComputeStage, Extent, FilterMode, FrameBuffer, FrameClock, GpuCommand,
    PresentMode, RaySamplingUniform, RenderPipeline, RenderStage, RendererError, Sampler,
    ShaderStage, Stage, SurfaceConfiguration, TextureFormat, FRAME_BUFFER_FORMAT,
};

fn config(width: u32, height: u32) -> SurfaceConfiguration {
    SurfaceConfiguration {
        format: TextureFormat::Bgra8UnormSrgb,
        width,
        height,
        present_mode: PresentMode::Fifo,
    }
}

fn frame_buffer(id: u64, width: u32, height: u32) -> FrameBuffer {
    FrameBuffer {
        id,
        extent: Extent { width, height },
        format: TextureFormat::Rgba8Unorm,
        mip_level_count: 1,
        sample_count: 1,
        storage_binding: true,
        texture_binding: true,
    }
}

fn compute_group(frame_buffer: u64) -> BindGroup {
    BindGroup {
        stage: Stage::Compute,
        first: BindGroupEntry {
            binding: 0,
            resource: BindingResource::FrameBufferView { frame_buffer },
        },
        second: BindGroupEntry { binding: 1, resource: BindingResource::UniformBuffer },
    }
}

fn render_group(frame_buffer: u64) -> BindGroup {
    BindGroup {
        stage: Stage::Render,
        first: BindGroupEntry {
            binding: 0,
            resource: BindingResource::FrameBufferView { frame_buffer },
        },
        second: BindGroupEntry { binding: 1, resource: BindingResource::Sampler },
    }
}

fn uniform(seed: u32, width: u32, height: u32) -> RaySamplingUniform {
    RaySamplingUniform { seed, pad: 0, extent: Extent { width, height } }
}

fn pipeline_640_by_480() -> RenderPipeline {
    let (pipeline, _) =
        RenderPipeline::new_at(&config(640, 480), 640, 480, FrameClock::start(), 0).unwrap();
    pipeline
}

#[test]
fn raybuffer_is_a_storage_and_sampled_image_of_the_given_size() {
    let raybuffer = RenderPipeline::create_raybuffer(4, 640, 480);
    assert_eq!(raybuffer, frame_buffer(4, 640, 480));
    assert_eq!(raybuffer.format, FRAME_BUFFER_FORMAT);
}

#[test]
fn compute_bindgroup_binds_the_raybuffer_and_the_uniform_buffer() {
    let raybuffer = RenderPipeline::create_raybuffer(9, 64, 64);
    assert_eq!(RenderPipeline::create_compute_bindgroup(&raybuffer), compute_group(9));
}

#[test]
fn render_bindgroup_binds_the_raybuffer_and_the_sampler() {
    let raybuffer = RenderPipeline::create_raybuffer(9, 64, 64);
    assert_eq!(RenderPipeline::create_render_bindgroup(&raybuffer), render_group(9));
}

#[test]
fn compute_stage_writes_a_storage_image_and_reads_a_uniform() {
    let stage = RenderPipeline::create_compute_stage();
    assert_eq!(
        stage,
        ComputeStage {
            layout: BindGroupLayout {
                first: BindGroupLayoutEntry {
                    binding: 0,
                    visibility: ShaderStage::Compute,
                    ty: BindingType::StorageTexture { format: TextureFormat::Rgba8Unorm },
                },
                second: BindGroupLayoutEntry {
                    binding: 1,
                    visibility: ShaderStage::Compute,
                    ty: BindingType::UniformBuffer,
                },
            },
            tile: 16,
        }
    );
}

#[test]
fn render_stage_samples_without_filtering_and_has_no_vertex_buffer() {
    let stage = RenderPipeline::create_render_stage(TextureFormat::Bgra8Unorm);
    assert_eq!(
        stage,
        RenderStage {
            layout: BindGroupLayout {
                first: BindGroupLayoutEntry {
                    binding: 0,
                    visibility: ShaderStage::Fragment,
                    ty: BindingType::SampledTexture,
                },
                second: BindGroupLayoutEntry {
                    binding: 1,
                    visibility: ShaderStage::Fragment,
                    ty: BindingType::NonFilteringSampler,
                },
            },
            target_format: TextureFormat::Bgra8Unorm,
            sample_count: 1,
            vertex_buffers: 0,
        }
    );
}

#[test]
fn sampler_clamps_and_takes_the_nearest_texel() {
    assert_eq!(
        RenderPipeline::create_sampler(),
        Sampler {
            address_mode: AddressMode::ClampToEdge,
            mag_filter: FilterMode::Nearest,
            min_filter: FilterMode::Nearest,
            mipmap_filter: FilterMode::Nearest,
        }
    );
}

#[test]
fn new_pipeline_lists_its_objects_in_dependency_order() {
    let (pipeline, commands) = RenderPipeline::new_at(
        &config(640, 480),
        640,
        480,
        FrameClock::start(),
        3_000_000_777,
    )
    .unwrap();
    assert_eq!(
        commands,
        vec![
            GpuCommand::CreateFrameBuffer(frame_buffer(0, 640, 480)),
            GpuCommand::CreateUniformBuffer(uniform(777, 640, 480)),
            GpuCommand::CreateComputePipeline(RenderPipeline::create_compute_stage()),
            GpuCommand::CreateBindGroup(compute_group(0)),
            GpuCommand::CreateSampler(RenderPipeline::create_sampler()),
            GpuCommand::CreateRenderPipeline(RenderPipeline::create_render_stage(
                TextureFormat::Bgra8UnormSrgb
            )),
            GpuCommand::CreateBindGroup(render_group(0)),
        ]
    );
    let state = pipeline.state();
    assert_eq!(state.frame_buffer, frame_buffer(0, 640, 480));
    assert_eq!(state.compute_bind_group, compute_group(0));
    assert_eq!(state.render_bind_group, render_group(0));
    assert_eq!(state.sampling_uniform, uniform(777, 640, 480));
    assert_eq!(state.sampling_buffer, state.sampling_uniform);
    assert_eq!(state.render.target_format, TextureFormat::Bgra8UnormSrgb);
}

#[test]
fn new_pipeline_takes_its_first_seed_from_the_clock() {
    let (pipeline, commands) = RenderPipeline::new(&config(320, 200), 320, 200).unwrap();
    let state = pipeline.state();
    assert!(state.sampling_uniform.seed < 1_000_000_000);
    assert_eq!(state.sampling_uniform.extent, Extent { width: 320, height: 200 });
    assert_eq!(commands.len(), 7);
    assert_eq!(commands[1], GpuCommand::CreateUniformBuffer(state.sampling_uniform));
}

#[test]
fn new_pipeline_is_refused_without_pixels() {
    for (width, height) in [(0u32, 480u32), (640, 0), (0, 0)] {
        let made = RenderPipeline::new(&config(width, height), width, height);
        assert_eq!(made.err(), Some(RendererError::ZeroExtent));
        let made =
            RenderPipeline::new_at(&config(width, height), width, height, FrameClock::start(), 1);
        assert_eq!(made.err(), Some(RendererError::ZeroExtent));
    }
}

#[test]
fn update_without_a_change_of_extent_only_writes_the_uniform() {
    let mut pipeline = pipeline_640_by_480();
    let commands = pipeline.update_at(640, 480, 41);
    assert_eq!(commands, vec![GpuCommand::WriteUniform(uniform(41, 640, 480))]);
    let state = pipeline.state();
    assert_eq!(state.frame_buffer, frame_buffer(0, 640, 480));
    assert_eq!(state.sampling_uniform, uniform(41, 640, 480));
    assert_eq!(state.sampling_buffer, uniform(41, 640, 480));
}

#[test]
fn update_with_a_new_extent_replaces_the_frame_buffer_first() {
    let mut pipeline = pipeline_640_by_480();
    let commands = pipeline.update_at(800, 600, 1_000_000_002);
    assert_eq!(
        commands,
        vec![
            GpuCommand::CreateFrameBuffer(frame_buffer(1, 800, 600)),
            GpuCommand::CreateBindGroup(compute_group(1)),
            GpuCommand::CreateBindGroup(render_group(1)),
            GpuCommand::ReleaseFrameBuffer(0),
            GpuCommand::WriteUniform(uniform(2, 800, 600)),
        ]
    );
    let state = pipeline.state();
    assert_eq!(state.frame_buffer, frame_buffer(1, 800, 600));
    assert_eq!(state.compute_bind_group, compute_group(1));
    assert_eq!(state.render_bind_group, render_group(1));
    assert_eq!(state.sampling_buffer, uniform(2, 800, 600));
}

#[test]
fn update_with_a_change_in_one_dimension_rebuilds() {
    let mut pipeline = pipeline_640_by_480();
    let commands = pipeline.update_at(640, 481, 0);
    assert_eq!(commands.len(), 5);
    assert_eq!(pipeline.state().frame_buffer, frame_buffer(1, 640, 481));
    let commands = pipeline.update_at(639, 481, 0);
    assert_eq!(commands.len(), 5);
    assert_eq!(pipeline.state().frame_buffer, frame_buffer(2, 639, 481));
}

#[test]
fn update_without_pixels_does_nothing() {
    let mut pipeline = pipeline_640_by_480();
    let before = pipeline.state();
    assert_eq!(pipeline.update_at(0, 480, 5), Vec::new());
    assert_eq!(pipeline.update_at(640, 0, 5), Vec::new());
    assert_eq!(pipeline.update(0, 0), Vec::new());
    assert_eq!(pipeline.state(), before);
}

#[test]
fn update_reads_the_seed_from_the_clock() {
    let mut pipeline = pipeline_640_by_480();
    let commands = pipeline.update(640, 480);
    let state = pipeline.state();
    assert!(state.sampling_uniform.seed < 1_000_000_000);
    assert_eq!(commands, vec![GpuCommand::WriteUniform(state.sampling_uniform)]);
    assert_eq!(state.sampling_buffer, state.sampling_uniform);
}

#[test]
fn resize_to_a_new_extent_rebuilds_and_uploads_the_extent() {
    let mut pipeline = pipeline_640_by_480();
    pipeline.update_at(640, 480, 99);
    let commands = pipeline.resize(800, 600);
    assert_eq!(
        commands,
        vec![
            GpuCommand::CreateFrameBuffer(frame_buffer(1, 800, 600)),
            GpuCommand::CreateBindGroup(compute_group(1)),
            GpuCommand::CreateBindGroup(render_group(1)),
            GpuCommand::ReleaseFrameBuffer(0),
            GpuCommand::WriteUniform(uniform(99, 800, 600)),
        ]
    );
    assert_eq!(pipeline.state().sampling_buffer, uniform(99, 800, 600));
}

#[test]
fn resize_to_the_same_or_an_empty_extent_does_nothing() {
    let mut pipeline = pipeline_640_by_480();
    let before = pipeline.state();
    assert_eq!(pipeline.resize(640, 480), Vec::new());
    assert_eq!(pipeline.resize(0, 480), Vec::new());
    assert_eq!(pipeline.resize(800, 0), Vec::new());
    assert_eq!(pipeline.state(), before);
}

#[test]
fn every_rebuild_gives_the_frame_buffer_a_new_identity() {
    let mut pipeline = pipeline_640_by_480();
    let mut seen = vec![pipeline.state().frame_buffer.id];
    for step in 1u32..20 {
        pipeline.resize(640 + step, 480);
        let state = pipeline.state();
        assert!(!seen.contains(&state.frame_buffer.id));
        assert_eq!(state.compute_bind_group, compute_group(state.frame_buffer.id));
        assert_eq!(state.render_bind_group, render_group(state.frame_buffer.id));
        seen.push(state.frame_buffer.id);
    }
}
