use render_core::app::{
    App, RenderAction, RenderError, RenderEvent, RenderPhase, RenderState, SubmitError,
};
use render_core::graphics::{
    BlendComponent, BlendFactor, BlendOperation, BlendState, BufferSlice, BufferUsage, Color,
    ColorTargetState, ColorWrite, Command, CommandBuffer, Face, FrontFace, GraphicSystem,
    IndexFormat, PhysicalSize, Pipeline, PolygonMode, PresentMode, PrimitiveTopology,
    ShaderModule, SwapChainError, SwapchainDescriptor, TextureFormat, TextureUsage, VertexFormat,
};

/// Three vertices of two 2-float attributes each.
const TRIANGLE: [f32; 12] = [-0.5, 0.5, 0.5, 0.0, -0.5, -0.5, 0.5, 0.5, 0.0, -0.5, 0.0, 0.5];

const QUAD: [f32; 16] =
    [-0.5, 0.5, 0.5, 0.0, -0.5, -0.5, 0.5, 0.5, 0.0, -0.5, 0.0, 0.5, 0.0, 0.5, 0.0, -0.5];

const INDICES: [u16; 6] = [0, 1, 2, 0, 2, 3];

fn system(width: u32, height: u32) -> GraphicSystem {
    GraphicSystem::new(
        ShaderModule { id: 7 },
        PhysicalSize::new(width, height),
        vec![VertexFormat::Float32x2, VertexFormat::Float32x2],
    )
}

fn triangle_app(width: u32, height: u32) -> App {
    let system = system(width, height);
    let bytes: Vec<u8> = bytemuck::cast_slice(&TRIANGLE).to_vec();
    let (vertices, _) = system.vertex_buffer("Vertex Buffer", BufferUsage::Vertex, bytes).unwrap();
    App::new(system, vertices, None)
}

fn quad_app(width: u32, height: u32) -> App {
    let system = system(width, height);
    let bytes: Vec<u8> = bytemuck::cast_slice(&QUAD).to_vec();
    let (vertices, _) = system.vertex_buffer("Vertex Buffer", BufferUsage::Vertex, bytes).unwrap();
    let (indices, _) = system.index_buffer("Index Buffer", BufferUsage::Index, &INDICES).unwrap();
    App::new(system, vertices, Some(indices))
}

/// A GPU that does what it is asked and counts it. The chain answers with
/// the scripted outcomes, in their order, and hands out an image once they
/// are used up.
struct FakeGpu {
    acquire_script: Vec<Result<(), SwapChainError>>,
    submit_script: Vec<Result<(), SubmitError>>,
    rebuilds: Vec<SwapchainDescriptor>,
    acquisitions: usize,
    submissions: Vec<(Pipeline, Vec<CommandBuffer>)>,
}

impl FakeGpu {
    fn new() -> FakeGpu {
        FakeGpu {
            acquire_script: Vec::new(),
            submit_script: Vec::new(),
            rebuilds: Vec::new(),
            acquisitions: 0,
            submissions: Vec::new(),
        }
    }

    fn calls(&self) -> usize {
        self.rebuilds.len() + self.acquisitions + self.submissions.len()
    }

    /// One call of the shell's `render`: steps the orchestrator from the
    /// tick to the end of the frame.
    fn render(&mut self, app: &mut App) -> Result<(), RenderError> {
        let mut event = RenderEvent::Tick;
        loop {
            assert!(app.expects(event));
            event = match app.render(event) {
                RenderAction::RebuildSwapchain(desc) => {
                    self.rebuilds.push(desc);
                    RenderEvent::SwapchainRebuilt
                }
                RenderAction::AcquireFrame => {
                    self.acquisitions += 1;
                    let outcome = if self.acquire_script.is_empty() {
                        Ok(())
                    } else {
                        self.acquire_script.remove(0)
                    };
                    RenderEvent::FrameAcquired(outcome)
                }
                RenderAction::Submit { pipeline, command_buffers } => {
                    self.submissions.push((pipeline, command_buffers));
                    let outcome = if self.submit_script.is_empty() {
                        Ok(())
                    } else {
                        self.submit_script.remove(0)
                    };
                    RenderEvent::Submitted(outcome)
                }
                RenderAction::Finish(result) => {
                    assert_eq!(app.phase(), RenderPhase::Idle);
                    return result;
                }
            };
        }
    }
}

fn begin() -> Command {
    Command::BeginRenderPass {
        label: "Main Render Pass",
        clear: Color { r: 87, g: 69, b: 79, a: 100 },
        store: true,
    }
}

fn whole() -> BufferSlice {
    BufferSlice { offset: 0, size: None }
}

#[test]
fn one_frame_is_one_submission_of_one_pass_with_one_draw_of_three_vertices() {
    let mut app = triangle_app(800, 600);
    assert_eq!(app.state(), RenderState::Ready);
    assert_eq!(app.size(), PhysicalSize::new(800, 600));
    let mut gpu = FakeGpu::new();
    assert_eq!(gpu.render(&mut app), Ok(()));
    assert_eq!(gpu.rebuilds.len(), 0);
    assert_eq!(gpu.acquisitions, 1);
    assert_eq!(gpu.submissions.len(), 1);
    let (_, command_buffers) = &gpu.submissions[0];
    assert_eq!(command_buffers.len(), 1);
    assert_eq!(command_buffers[0].label, "Main Command Encoder");
    let commands = &command_buffers[0].commands;
    assert_eq!(
        *commands,
        vec![
            begin(),
            Command::SetPipeline,
            Command::SetVertexBuffer { slot: 0, slice: whole() },
            Command::Draw { first_vertex: 0, end_vertex: 3, first_instance: 0, end_instance: 1 },
            Command::EndRenderPass,
        ]
    );
    let passes = commands.iter().filter(|c| matches!(c, Command::BeginRenderPass { .. })).count();
    let draws = commands
        .iter()
        .filter(|c| matches!(c, Command::Draw { .. } | Command::DrawIndexed { .. }))
        .count();
    assert_eq!(passes, 1);
    assert_eq!(draws, 1);
    assert_eq!(app.state(), RenderState::Ready);
}

#[test]
fn indexed_geometry_draws_every_index() {
    let mut app = quad_app(800, 600);
    let mut gpu = FakeGpu::new();
    assert_eq!(gpu.render(&mut app), Ok(()));
    assert_eq!(gpu.submissions.len(), 1);
    assert_eq!(
        gpu.submissions[0].1[0].commands,
        vec![
            begin(),
            Command::SetPipeline,
            Command::SetVertexBuffer { slot: 0, slice: whole() },
            Command::SetIndexBuffer { slice: whole(), format: IndexFormat::Uint16 },
            Command::DrawIndexed {
                first_index: 0,
                end_index: 6,
                base_vertex: 0,
                first_instance: 0,
                end_instance: 1,
            },
            Command::EndRenderPass,
        ]
    );
}

#[test]
fn frame_pipeline_has_the_fixed_state() {
    let mut app = triangle_app(800, 600);
    let mut gpu = FakeGpu::new();
    assert_eq!(gpu.render(&mut app), Ok(()));
    let desc = gpu.submissions[0].0.descriptor();
    assert_eq!(desc.label, "Render Pipeline");
    assert_eq!(desc.layout.label, "Pipeline Layout");
    assert!(desc.layout.bind_group_layouts.is_empty());
    assert!(desc.layout.push_constant_ranges.is_empty());
    assert_eq!(desc.vertex.module, ShaderModule { id: 7 });
    assert_eq!(desc.vertex.entry_point, "main");
    assert_eq!(desc.vertex.buffers.len(), 1);
    assert_eq!(desc.vertex.buffers[0].array_stride, 16);
    let offsets: Vec<u64> = desc.vertex.buffers[0].attributes.iter().map(|a| a.offset).collect();
    assert_eq!(offsets, vec![0, 8]);
    let fragment = desc.fragment.as_ref().unwrap();
    assert_eq!(fragment.module, ShaderModule { id: 7 });
    assert_eq!(fragment.entry_point, "main");
    let replace = BlendComponent {
        src_factor: BlendFactor::One,
        dst_factor: BlendFactor::Zero,
        operation: BlendOperation::Add,
    };
    assert_eq!(
        fragment.targets,
        vec![ColorTargetState {
            format: TextureFormat::Rgba8UnormSrgb,
            blend: Some(BlendState { color: replace, alpha: replace }),
            write_mask: ColorWrite { red: true, green: true, blue: true, alpha: true },
        }]
    );
    assert_eq!(desc.primitive.topology, PrimitiveTopology::TriangleList);
    assert_eq!(desc.primitive.strip_index_format, None);
    assert_eq!(desc.primitive.front_face, FrontFace::Ccw);
    assert_eq!(desc.primitive.cull_mode, Some(Face::Back));
    assert_eq!(desc.primitive.polygon_mode, PolygonMode::Fill);
    assert!(!desc.primitive.clamp_depth);
    assert!(!desc.primitive.conservative);
    assert_eq!(desc.multisample.count, 1);
    assert_eq!(desc.multisample.mask, !0);
    assert!(!desc.multisample.alpha_to_coverage_enabled);
}

#[test]
fn pipelines_of_two_frames_are_interchangeable() {
    let mut app = triangle_app(800, 600);
    let mut gpu = FakeGpu::new();
    assert_eq!(gpu.render(&mut app), Ok(()));
    assert_eq!(gpu.render(&mut app), Ok(()));
    assert_eq!(gpu.submissions.len(), 2);
    assert!(gpu.submissions[0].0.same_as(&gpu.submissions[1].0));
    assert_eq!(gpu.submissions[0].1, gpu.submissions[1].1);
}

#[test]
fn resize_to_zero_then_render_is_a_no_op() {
    let mut app = triangle_app(800, 600);
    let mut gpu = FakeGpu::new();
    app.resize(PhysicalSize::new(0, 0));
    assert_eq!(app.size(), PhysicalSize::new(0, 0));
    assert_eq!(app.state(), RenderState::Ready);
    assert_eq!(gpu.render(&mut app), Ok(()));
    assert_eq!(gpu.calls(), 0);
    assert_eq!(app.state(), RenderState::Ready);
    assert_eq!(app.phase(), RenderPhase::Idle);
}

#[test]
fn one_zero_dimension_is_enough_to_skip_the_frame() {
    let mut app = triangle_app(800, 600);
    let mut gpu = FakeGpu::new();
    app.resize(PhysicalSize::new(800, 0));
    assert_eq!(gpu.render(&mut app), Ok(()));
    app.resize(PhysicalSize::new(0, 600));
    assert_eq!(gpu.render(&mut app), Ok(()));
    assert_eq!(gpu.calls(), 0);
}

#[test]
fn rendering_resumes_after_a_non_zero_resize() {
    let mut app = triangle_app(800, 600);
    let mut gpu = FakeGpu::new();
    app.resize(PhysicalSize::new(0, 0));
    assert_eq!(gpu.render(&mut app), Ok(()));
    app.resize(PhysicalSize::new(640, 480));
    assert_eq!(app.state(), RenderState::Resizing);
    assert_eq!(gpu.render(&mut app), Ok(()));
    assert_eq!(gpu.rebuilds.len(), 1);
    assert_eq!(gpu.rebuilds[0].width, 640);
    assert_eq!(gpu.rebuilds[0].height, 480);
    assert_eq!(gpu.submissions.len(), 1);
    assert_eq!(app.state(), RenderState::Ready);
}

#[test]
fn resize_rebuilds_the_chain_before_the_next_frame() {
    let mut app = triangle_app(800, 600);
    let mut gpu = FakeGpu::new();
    app.resize(PhysicalSize::new(1024, 768));
    assert_eq!(app.state(), RenderState::Resizing);
    assert_eq!(app.render(RenderEvent::Tick).kind_name(), "rebuild");
    assert_eq!(app.phase(), RenderPhase::Rebuilding);
    assert_eq!(app.render(RenderEvent::SwapchainRebuilt).kind_name(), "acquire");
    assert_eq!(app.render(RenderEvent::FrameAcquired(Ok(()))).kind_name(), "submit");
    assert_eq!(app.phase(), RenderPhase::Submitting);
    assert_eq!(app.render(RenderEvent::Submitted(Ok(()))).kind_name(), "finish");
    assert_eq!(app.state(), RenderState::Ready);
    assert_eq!(gpu.render(&mut app), Ok(()));
    assert_eq!(gpu.rebuilds.len(), 0);
}

trait KindName {
    fn kind_name(&self) -> &'static str;
}

impl KindName for RenderAction {
    fn kind_name(&self) -> &'static str {
        match self {
            RenderAction::RebuildSwapchain(_) => "rebuild",
            RenderAction::AcquireFrame => "acquire",
            RenderAction::Submit { .. } => "submit",
            RenderAction::Finish(_) => "finish",
        }
    }
}

#[test]
fn resizing_twice_to_the_same_size_is_resizing_once() {
    let mut once = triangle_app(800, 600);
    let mut twice = triangle_app(800, 600);
    once.resize(PhysicalSize::new(1024, 768));
    twice.resize(PhysicalSize::new(1024, 768));
    twice.resize(PhysicalSize::new(1024, 768));
    assert_eq!(once.state(), twice.state());
    assert_eq!(once.size(), twice.size());
    let mut first = FakeGpu::new();
    let mut second = FakeGpu::new();
    assert_eq!(first.render(&mut once), Ok(()));
    assert_eq!(second.render(&mut twice), Ok(()));
    assert_eq!(first.rebuilds, second.rebuilds);
    assert_eq!(
        first.rebuilds,
        vec![SwapchainDescriptor {
            usage: TextureUsage {
                copy_src: false,
                copy_dst: false,
                sampled: false,
                storage: false,
                render_attachment: true,
            },
            format: TextureFormat::Rgba8UnormSrgb,
            width: 1024,
            height: 768,
            present_mode: PresentMode::Fifo,
        }]
    );
    assert_eq!(first.submissions[0].1, second.submissions[0].1);
}

#[test]
fn chain_that_is_stale_once_is_rebuilt_exactly_once() {
    for status in [SwapChainError::Outdated, SwapChainError::Lost] {
        let mut app = triangle_app(800, 600);
        let mut gpu = FakeGpu::new();
        gpu.acquire_script.push(Err(status));
        assert_eq!(gpu.render(&mut app), Ok(()));
        assert_eq!(app.state(), RenderState::Ready);
        assert_eq!(gpu.rebuilds.len(), 1);
        assert_eq!((gpu.rebuilds[0].width, gpu.rebuilds[0].height), (800, 600));
        assert_eq!(gpu.acquisitions, 2);
        assert_eq!(gpu.submissions.len(), 1);
        for _ in 0..3 {
            assert_eq!(gpu.render(&mut app), Ok(()));
        }
        assert_eq!(gpu.rebuilds.len(), 1);
        assert_eq!(gpu.acquisitions, 5);
        assert_eq!(gpu.submissions.len(), 4);
    }
}

#[test]
fn stale_chain_is_rebuilt_before_the_next_acquisition() {
    let mut app = triangle_app(800, 600);
    assert!(matches!(app.render(RenderEvent::Tick), RenderAction::AcquireFrame));
    match app.render(RenderEvent::FrameAcquired(Err(SwapChainError::Outdated))) {
        RenderAction::RebuildSwapchain(desc) => {
            assert_eq!((desc.width, desc.height), (800, 600));
        }
        other => panic!("the chain is rebuilt first, not {:?}", other),
    }
    assert_eq!(app.state(), RenderState::Resizing);
    assert_eq!(app.phase(), RenderPhase::Rebuilding);
    assert!(matches!(app.render(RenderEvent::SwapchainRebuilt), RenderAction::AcquireFrame));
    assert!(matches!(
        app.render(RenderEvent::FrameAcquired(Ok(()))),
        RenderAction::Submit { .. }
    ));
    assert!(matches!(app.render(RenderEvent::Submitted(Ok(()))), RenderAction::Finish(Ok(()))));
    assert_eq!(app.state(), RenderState::Ready);
    assert!(matches!(app.render(RenderEvent::Tick), RenderAction::AcquireFrame));
}

#[test]
fn chain_is_rebuilt_at_most_once_per_frame() {
    let mut app = triangle_app(800, 600);
    let mut gpu = FakeGpu::new();
    gpu.acquire_script.push(Err(SwapChainError::Lost));
    gpu.acquire_script.push(Err(SwapChainError::Lost));
    gpu.acquire_script.push(Err(SwapChainError::Outdated));
    assert_eq!(gpu.render(&mut app), Err(RenderError::Stale));
    assert_eq!((gpu.rebuilds.len(), gpu.acquisitions), (1, 2));
    assert_eq!(app.state(), RenderState::Resizing);
    assert_eq!(gpu.render(&mut app), Err(RenderError::Stale));
    assert_eq!((gpu.rebuilds.len(), gpu.acquisitions), (2, 3));
    assert_eq!(app.state(), RenderState::Resizing);
    assert_eq!(gpu.submissions.len(), 0);
    assert_eq!(gpu.render(&mut app), Ok(()));
    assert_eq!((gpu.rebuilds.len(), gpu.acquisitions), (3, 4));
    assert_eq!(app.state(), RenderState::Ready);
    assert_eq!(gpu.submissions.len(), 1);
}

#[test]
fn stale_twice_leaves_the_rebuild_to_the_next_frame() {
    let mut app = triangle_app(800, 600);
    let mut gpu = FakeGpu::new();
    gpu.acquire_script.push(Err(SwapChainError::Outdated));
    gpu.acquire_script.push(Err(SwapChainError::Outdated));
    assert_eq!(gpu.render(&mut app), Err(RenderError::Stale));
    assert_eq!(app.state(), RenderState::Resizing);
    assert!(matches!(app.render(RenderEvent::Tick), RenderAction::RebuildSwapchain(_)));
    assert!(matches!(app.render(RenderEvent::SwapchainRebuilt), RenderAction::AcquireFrame));
}

#[test]
fn out_of_memory_after_a_rebuild_is_fatal() {
    let mut app = triangle_app(800, 600);
    let mut gpu = FakeGpu::new();
    gpu.acquire_script.push(Err(SwapChainError::Lost));
    gpu.acquire_script.push(Err(SwapChainError::OutOfMemory));
    assert_eq!(gpu.render(&mut app), Err(RenderError::OutOfMemory));
    assert_eq!(app.state(), RenderState::Fatal);
    assert_eq!((gpu.rebuilds.len(), gpu.acquisitions, gpu.submissions.len()), (1, 2, 0));
}

#[test]
fn timeout_after_a_rebuild_keeps_the_rebuild_due() {
    let mut app = triangle_app(800, 600);
    let mut gpu = FakeGpu::new();
    gpu.acquire_script.push(Err(SwapChainError::Lost));
    gpu.acquire_script.push(Err(SwapChainError::Timeout));
    assert_eq!(gpu.render(&mut app), Err(RenderError::Timeout));
    assert_eq!(app.state(), RenderState::Resizing);
    assert_eq!(gpu.render(&mut app), Ok(()));
    assert_eq!(gpu.rebuilds.len(), 2);
    assert_eq!(app.state(), RenderState::Ready);
}

#[test]
fn out_of_memory_at_acquisition_is_fatal() {
    let mut app = triangle_app(800, 600);
    let mut gpu = FakeGpu::new();
    gpu.acquire_script.push(Err(SwapChainError::OutOfMemory));
    assert_eq!(gpu.render(&mut app), Err(RenderError::OutOfMemory));
    assert_eq!(app.state(), RenderState::Fatal);
    assert_eq!(gpu.submissions.len(), 0);
}

#[test]
fn out_of_memory_at_submission_is_fatal() {
    let mut app = triangle_app(800, 600);
    let mut gpu = FakeGpu::new();
    gpu.submit_script.push(Err(SubmitError::OutOfMemory));
    assert_eq!(gpu.render(&mut app), Err(RenderError::OutOfMemory));
    assert_eq!(app.state(), RenderState::Fatal);
    assert_eq!(app.phase(), RenderPhase::Idle);
}

#[test]
fn out_of_memory_while_resizing_is_fatal() {
    let mut app = triangle_app(800, 600);
    let mut gpu = FakeGpu::new();
    app.resize(PhysicalSize::new(320, 200));
    gpu.acquire_script.push(Err(SwapChainError::OutOfMemory));
    assert_eq!(gpu.render(&mut app), Err(RenderError::OutOfMemory));
    assert_eq!(app.state(), RenderState::Fatal);
    assert_eq!(gpu.rebuilds.len(), 1);
}

#[test]
fn fatal_orchestrator_makes_no_gpu_call() {
    let mut app = triangle_app(800, 600);
    let mut gpu = FakeGpu::new();
    gpu.acquire_script.push(Err(SwapChainError::OutOfMemory));
    assert_eq!(gpu.render(&mut app), Err(RenderError::OutOfMemory));
    let calls = gpu.calls();
    for _ in 0..5 {
        assert_eq!(gpu.render(&mut app), Err(RenderError::OutOfMemory));
        assert_eq!(app.state(), RenderState::Fatal);
    }
    app.resize(PhysicalSize::new(1024, 768));
    assert_eq!(app.state(), RenderState::Fatal);
    assert_eq!(gpu.render(&mut app), Err(RenderError::OutOfMemory));
    app.resize(PhysicalSize::new(0, 0));
    assert_eq!(gpu.render(&mut app), Err(RenderError::OutOfMemory));
    assert_eq!(gpu.calls(), calls);
}

#[test]
fn timeout_keeps_the_state() {
    let mut app = triangle_app(800, 600);
    let mut gpu = FakeGpu::new();
    gpu.acquire_script.push(Err(SwapChainError::Timeout));
    assert_eq!(gpu.render(&mut app), Err(RenderError::Timeout));
    assert_eq!(app.state(), RenderState::Ready);
    assert_eq!(gpu.submissions.len(), 0);
    assert_eq!(gpu.render(&mut app), Ok(()));
    assert_eq!(gpu.rebuilds.len(), 0);

    app.resize(PhysicalSize::new(400, 300));
    gpu.acquire_script.push(Err(SwapChainError::Timeout));
    assert_eq!(gpu.render(&mut app), Err(RenderError::Timeout));
    assert_eq!(app.state(), RenderState::Resizing);
}

#[test]
fn events_are_expected_in_the_order_of_the_frame() {
    let mut app = triangle_app(800, 600);
    assert!(app.expects(RenderEvent::Tick));
    assert!(!app.expects(RenderEvent::SwapchainRebuilt));
    assert!(!app.expects(RenderEvent::FrameAcquired(Ok(()))));
    assert!(!app.expects(RenderEvent::Submitted(Ok(()))));
    let _ = app.render(RenderEvent::Tick);
    assert!(app.expects(RenderEvent::FrameAcquired(Err(SwapChainError::Timeout))));
    assert!(!app.expects(RenderEvent::Tick));
    let _ = app.render(RenderEvent::FrameAcquired(Ok(())));
    assert!(app.expects(RenderEvent::Submitted(Err(SubmitError::OutOfMemory))));
    assert!(!app.expects(RenderEvent::FrameAcquired(Ok(()))));
    let _ = app.render(RenderEvent::Submitted(Ok(())));
    assert!(app.expects(RenderEvent::Tick));
    app.resize(PhysicalSize::new(10, 10));
    let _ = app.render(RenderEvent::Tick);
    assert!(app.expects(RenderEvent::SwapchainRebuilt));
}
