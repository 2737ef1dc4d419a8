use ferrum::command::{ClearValues, Command, DrawRecorder, NoopRecorder, PassContext, Pipeline, Recorder};
use ferrum::compiled::{
    AllocationPlan, CompileFailure, DescriptorWrite, GpuObject, GraphAllocation, RenderGraph,
    TransientRequest,
};
use ferrum::executor::{FrameAction, PassRecording, Submission};
use ferrum::game_object::{Material, Renderable};
use ferrum::queue_pool::{QueueFamilyProperties, QueueFlags, QueuePool};
use ferrum::render_context::{
    AcquireOutcome, FenceState, FrameEvent, FramePhase, FrameStatus, FrameSync, PresentOutcome,
    RenderContext, ResizeStep, SubmitOutcome, SwapchainParts, WaitOutcome, WindowManager,
};
use ferrum::render_graph::{
    BindSet, Binding, CompileError, DescriptorSetHandle, FrameBufferHandle, FrameDesc,
    GraphFrameBuffer, PassBuilder, PassField, RenderGraphBuilder, RenderTarget,
};
use ferrum::resources::{LayoutHandle, ResourceManager};
use ferrum::scene::Scene;
use ferrum::types::{
    Access, BindPoint, CommandPool, DescriptorSetLayout, DescriptorType, Extent2D, Fence, Format,
    FrameBuffer, GraphicsPipeline, Image, ImageLayout, ImageUsage, ImageView, LayoutBinding,
    PipelineLayout, PipelineStage, PushConstantRange, RenderPass, Sampler, Semaphore, Swapchain,
};

const SWAPCHAIN_PASS: u64 = 90;
const TRANSIENT_PASS: u64 = 91;
const QUEUE: u64 = 7;

fn extent(width: u32, height: u32) -> Extent2D {
    Extent2D { width, height }
}

fn parts(images: usize, generation: u64, resolution: Extent2D) -> SwapchainParts {
    SwapchainParts {
        resolution,
        swapchain: Swapchain { raw: 80 + generation },
        image_views: (0..images as u64).map(|i| ImageView { raw: generation * 1000 + 200 + i }).collect(),
        depth_image: Image { raw: generation * 1000 + 70 },
        depth_view: ImageView { raw: generation * 1000 + 71 },
        frame_buffers: (0..images as u64).map(|i| FrameBuffer { raw: generation * 1000 + 100 + i }).collect(),
    }
}

fn syncs(images: usize) -> Vec<FrameSync> {
    (0..images as u64)
        .map(|i| FrameSync::new(Semaphore { raw: 300 + i }, Semaphore { raw: 400 + i }, Fence { raw: 500 + i }))
        .collect()
}

fn context(images: usize, resolution: Extent2D) -> RenderContext {
    let window = WindowManager::new(
        Format::r8g8b8a8_srgb(),
        Format::d32_sfloat(),
        RenderPass { raw: SWAPCHAIN_PASS },
        RenderPass { raw: TRANSIENT_PASS },
        parts(images, 0, resolution),
        syncs(images),
    )
    .unwrap();
    let queues = QueuePool::new(
        vec![QueueFamilyProperties { queue_flags: QueueFlags::graphics(), queue_count: 1 }],
        vec![vec![QUEUE]],
    )
    .unwrap();
    RenderContext::new(window, queues)
}

fn pipeline(raw: u64, layout: u64) -> Pipeline {
    Pipeline::Graphics(GraphicsPipeline { raw, layout })
}

fn plain_layout(res: &mut ResourceManager, raw: u64) -> LayoutHandle {
    res.add_layout(PipelineLayout { raw, set_layouts: vec![], push_constants: vec![] })
}

fn noop() -> Box<dyn Recorder> {
    Box::new(NoopRecorder {})
}

fn draws(vertex_count: u32) -> Box<dyn Recorder> {
    Box::new(DrawRecorder { vertex_count })
}

fn pass(
    name: &str,
    target: RenderTarget,
    pipe: Pipeline,
    layout: LayoutHandle,
    recorder: Box<dyn Recorder>,
) -> PassBuilder {
    PassBuilder::new(name).use_pipeline(pipe, layout).target(target).execute(recorder)
}

fn transient(width: u32, height: u32) -> FrameDesc {
    FrameDesc { width, height, format: Format::r8g8b8a8_srgb(), usage: ImageUsage::color_target() }
}

fn frame_buffer(base: u64) -> GraphFrameBuffer {
    GraphFrameBuffer {
        frame: FrameBuffer { raw: base + 1 },
        image_view: ImageView { raw: base + 2 },
        sampler: Sampler { raw: base + 3 },
        image: Image { raw: base + 4 },
    }
}

fn command_buffers(images: usize, passes: usize) -> Vec<Vec<u64>> {
    (0..images as u64).map(|i| (0..passes as u64).map(|j| 1000 + 10 * i + j).collect()).collect()
}

fn allocation(images: usize, passes: usize, transients: usize, sets: usize) -> GraphAllocation {
    GraphAllocation {
        frame_buffers: (0..transients as u64).map(|t| Some(frame_buffer(40 + 10 * t))).collect(),
        pool: CommandPool { raw: 50 },
        cmd_bufs: command_buffers(images, passes),
        sets: (0..sets as u64).map(|s| 60 + s).collect(),
    }
}

/// Pass "a" renders a transient of 640 by 480; pass "b" samples it at set 0,
/// binding 0, and renders into the swapchain.
struct Composite {
    builder: RenderGraphBuilder,
    res: ResourceManager,
    target: FrameBufferHandle,
    set: DescriptorSetHandle,
}

fn composite() -> Composite {
    let mut res = ResourceManager::new();
    let mut builder = RenderGraphBuilder::new();
    let target = builder.create_frame_buffer(transient(640, 480));
    let set = builder.create_descriptor_set(DescriptorSetLayout {
        raw: 31,
        bindings: vec![LayoutBinding::sampled_image(0)],
    });
    builder.bind_resource_to_set(0, set, target);
    let first = plain_layout(&mut res, 11);
    let second = res.add_layout(PipelineLayout { raw: 12, set_layouts: vec![31], push_constants: vec![] });
    builder.add_pass(
        pass("a", RenderTarget::FrameBuffer(target), pipeline(21, 11), first, draws(3))
            .build()
            .unwrap(),
    );
    builder.add_pass(
        pass("b", RenderTarget::Swapchain, pipeline(22, 12), second, draws(3))
            .bind_descriptor_set(0, set)
            .build()
            .unwrap(),
    );
    Composite { builder, res, target, set }
}

fn compiled_composite(ctx: &RenderContext) -> RenderGraph {
    let Composite { builder, res, .. } = composite();
    let images = ctx.window.image_count();
    builder.compile(ctx, &res, allocation(images, 2, 1, 1)).unwrap()
}

fn single_pass(recorder: Box<dyn Recorder>) -> (RenderGraphBuilder, ResourceManager) {
    let mut res = ResourceManager::new();
    let mut builder = RenderGraphBuilder::new();
    let layout = plain_layout(&mut res, 11);
    builder.add_pass(pass("main", RenderTarget::Swapchain, pipeline(21, 11), layout, recorder).build().unwrap());
    (builder, res)
}

/// Plays one frame against a device that always succeeds and hands out the
/// image `image`. Returns the submission.
fn play_frame(graph: &RenderGraph, ctx: &mut RenderContext, scene: &Scene, image: u32) -> Submission {
    let slot = ctx.window.slot();
    let sync = ctx.window.frame_sync(slot);
    assert!(ctx.window.expects(FrameEvent::Begin));
    let mut action = graph.execute(ctx, scene, FrameEvent::Begin);
    if sync.state != FenceState::Unsignaled {
        assert_eq!(action, FrameAction::WaitFence { fence: sync.in_flight_fence, timeout: u64::MAX });
        action = graph.execute(ctx, scene, FrameEvent::FenceWaited(WaitOutcome::Signaled));
        assert_eq!(
            action,
            FrameAction::AcquireImage {
                reset: Some(sync.in_flight_fence),
                swapchain: ctx.window.swapchain(),
                semaphore: sync.image_available,
                timeout: u64::MAX
            }
        );
    } else {
        assert_eq!(
            action,
            FrameAction::AcquireImage {
                reset: None,
                swapchain: ctx.window.swapchain(),
                semaphore: sync.image_available,
                timeout: u64::MAX
            }
        );
    }
    assert!(ctx.window.expects(FrameEvent::Acquired(AcquireOutcome::Image(image))));
    let submission = match graph.execute(ctx, scene, FrameEvent::Acquired(AcquireOutcome::Image(image))) {
        FrameAction::Submit(submission) => submission,
        other => panic!("expected a submission, got {:?}", other),
    };
    assert_eq!(submission.queue, QUEUE);
    assert_eq!(submission.image_index, image);
    assert_eq!(submission.resets, graph.command_buffers(image as usize));
    assert_eq!(submission.resets.len(), graph.pass_count());
    assert_eq!(submission.wait, sync.image_available);
    assert_eq!(submission.wait_stage, PipelineStage::ColorAttachmentOutput);
    assert_eq!(submission.signal, sync.render_finished);
    assert_eq!(submission.fence, sync.in_flight_fence);
    let action = graph.execute(ctx, scene, FrameEvent::Submitted(SubmitOutcome::Done));
    assert_eq!(
        action,
        FrameAction::Present {
            queue: QUEUE,
            swapchain: ctx.window.swapchain(),
            image_index: image,
            wait: sync.render_finished
        }
    );
    assert_eq!(ctx.window.frame_sync(slot).state, FenceState::Pending);
    let action = graph.execute(ctx, scene, FrameEvent::Presented(PresentOutcome::Done));
    assert_eq!(action, FrameAction::Done(FrameStatus::Presented));
    assert_eq!(ctx.window.phase(), FramePhase::Idle);
    submission
}

fn begin_swapchain(image: u64, resolution: Extent2D) -> Command {
    Command::BeginRenderPass {
        render_pass: SWAPCHAIN_PASS,
        framebuffer: 100 + image,
        extent: resolution,
        clear: ClearValues { red: 5, green: 5, blue: 5, alpha: 255, depth: 255, stencil: 0 },
    }
}

fn draw(vertex_count: u32) -> Command {
    Command::Draw { vertex_count, instance_count: 1, first_vertex: 0, first_instance: 0 }
}

fn barrier(image: u64) -> Command {
    Command::ImageBarrier {
        image,
        old_layout: ImageLayout::ColorAttachmentOptimal,
        new_layout: ImageLayout::ShaderReadOnlyOptimal,
        src_stage: PipelineStage::ColorAttachmentOutput,
        dst_stage: PipelineStage::FragmentShader,
        src_access: Access::Nothing,
        dst_access: Access::ShaderRead,
    }
}

#[test]
fn single_pass_clear() {
    let mut ctx = context(2, extent(800, 600));
    let (builder, res) = single_pass(noop());
    let graph = builder.compile(&ctx, &res, allocation(2, 1, 0, 0)).unwrap();
    let submission = play_frame(&graph, &mut ctx, &Scene::new(), 0);
    assert_eq!(
        submission.recordings,
        vec![PassRecording {
            cmd: 1000,
            commands: vec![
                Command::Begin { simultaneous_use: false },
                begin_swapchain(0, extent(800, 600)),
                Command::EndRenderPass,
                Command::End,
            ],
        }]
    );
    assert_eq!(ctx.window.current_frame(), 1);
}

#[test]
fn triangle() {
    let mut ctx = context(2, extent(800, 600));
    let (builder, res) = single_pass(draws(3));
    let graph = builder.compile(&ctx, &res, allocation(2, 1, 0, 0)).unwrap();
    let submission = play_frame(&graph, &mut ctx, &Scene::new(), 1);
    assert_eq!(
        submission.recordings,
        vec![PassRecording {
            cmd: 1010,
            commands: vec![
                Command::Begin { simultaneous_use: false },
                begin_swapchain(1, extent(800, 600)),
                Command::BindPipeline { bind_point: BindPoint::Graphics, pipeline: 21 },
                Command::SetViewport { extent: extent(800, 600) },
                Command::SetScissor { extent: extent(800, 600) },
                draw(3),
                Command::EndRenderPass,
                Command::End,
            ],
        }]
    );
}

#[test]
fn two_pass_composite() {
    let mut ctx = context(2, extent(800, 600));
    let graph = compiled_composite(&ctx);
    let submission = play_frame(&graph, &mut ctx, &Scene::new(), 0);
    let target = frame_buffer(40);
    assert_eq!(
        submission.recordings,
        vec![
            PassRecording {
                cmd: 1000,
                commands: vec![
                    Command::Begin { simultaneous_use: false },
                    Command::BeginRenderPass {
                        render_pass: TRANSIENT_PASS,
                        framebuffer: target.frame.raw,
                        extent: extent(640, 480),
                        clear: ClearValues::default_clear(),
                    },
                    Command::BindPipeline { bind_point: BindPoint::Graphics, pipeline: 21 },
                    Command::SetViewport { extent: extent(640, 480) },
                    Command::SetScissor { extent: extent(640, 480) },
                    draw(3),
                    Command::EndRenderPass,
                    barrier(target.image.raw),
                    Command::End,
                ],
            },
            PassRecording {
                cmd: 1001,
                commands: vec![
                    Command::Begin { simultaneous_use: false },
                    begin_swapchain(0, extent(800, 600)),
                    Command::BindPipeline { bind_point: BindPoint::Graphics, pipeline: 22 },
                    Command::BindDescriptorSet { bind_point: BindPoint::Graphics, layout: 12, index: 0, set: 60 },
                    Command::SetViewport { extent: extent(800, 600) },
                    Command::SetScissor { extent: extent(800, 600) },
                    draw(3),
                    Command::EndRenderPass,
                    Command::End,
                ],
            },
        ]
    );
}

#[test]
fn producer_ends_and_barrier_precede_consumer_begin() {
    let mut ctx = context(3, extent(800, 600));
    let graph = compiled_composite(&ctx);
    let submission = play_frame(&graph, &mut ctx, &Scene::new(), 2);
    let stream: Vec<Command> = submission.recordings.iter().flat_map(|r| r.commands.clone()).collect();
    let end = stream.iter().position(|c| *c == Command::EndRenderPass).unwrap();
    let fence = stream.iter().position(|c| *c == barrier(frame_buffer(40).image.raw)).unwrap();
    let begin = stream.iter().position(|c| *c == begin_swapchain(2, extent(800, 600))).unwrap();
    assert_eq!(fence, end + 1);
    assert!(fence < begin);
}

#[test]
fn resize() {
    let mut ctx = context(2, extent(800, 600));
    let mut graph = compiled_composite(&ctx);
    let scene = Scene::new();
    play_frame(&graph, &mut ctx, &scene, 0);
    let steps = ctx.window.resize_plan();
    assert_eq!(
        steps,
        vec![
            ResizeStep::DeviceWaitIdle,
            ResizeStep::DestroyFrameBuffer(FrameBuffer { raw: 100 }),
            ResizeStep::DestroyFrameBuffer(FrameBuffer { raw: 101 }),
            ResizeStep::DestroyImageView(ImageView { raw: 200 }),
            ResizeStep::DestroyImageView(ImageView { raw: 201 }),
            ResizeStep::DestroyImageView(ImageView { raw: 71 }),
            ResizeStep::DestroyImage(Image { raw: 70 }),
            ResizeStep::CreateSwapchain { old: Swapchain { raw: 80 } },
            ResizeStep::DestroySwapchain(Swapchain { raw: 80 }),
            ResizeStep::CreateSwapchainParts,
            ResizeStep::RebuildTransients,
            ResizeStep::RefreshDescriptorWrites,
        ]
    );
    let rebuilt = parts(2, 1, extent(1024, 768));
    assert!(ctx.window.accepts_parts(&rebuilt));
    ctx.window.resize(rebuilt);
    let released = graph.resize(extent(1024, 768), vec![frame_buffer(140)]);
    assert_eq!(
        released,
        vec![GpuObject::Sampler(43), GpuObject::FrameBuffer(41), GpuObject::ImageView(42), GpuObject::Image(44)]
    );
    assert_eq!(ctx.window.resolution(), extent(1024, 768));
    assert_eq!(ctx.window.swapchain(), Swapchain { raw: 81 });
    assert_eq!(ctx.window.current_frame(), 1);
    assert_eq!(ctx.window.frame_sync(0).state, FenceState::Signaled);
    assert_eq!(ctx.window.frame_sync(0).in_flight_fence, Fence { raw: 500 });
    assert_eq!(
        graph.descriptor_writes(),
        vec![DescriptorWrite {
            set: 60,
            binding: 0,
            ty: DescriptorType::CombinedImageSampler,
            layout: ImageLayout::ShaderReadOnlyOptimal,
            view: ImageView { raw: 142 },
            sampler: Sampler { raw: 143 },
        }]
    );
    let mut last = None;
    for frame in 0..4u32 {
        last = Some(play_frame(&graph, &mut ctx, &scene, frame % 2));
    }
    let last = last.unwrap();
    assert_eq!(ctx.window.current_frame(), 5);
    assert_eq!(
        last.recordings[1].commands[1],
        Command::BeginRenderPass {
            render_pass: SWAPCHAIN_PASS,
            framebuffer: 1101,
            extent: extent(1024, 768),
            clear: ClearValues::default_clear(),
        }
    );
    assert_eq!(
        last.recordings[0].commands[1],
        Command::BeginRenderPass {
            render_pass: TRANSIENT_PASS,
            framebuffer: 141,
            extent: extent(1024, 768),
            clear: ClearValues::default_clear(),
        }
    );
    assert_eq!(last.recordings[0].commands[7], barrier(144));
    assert_eq!(last.recordings[1].commands[4], Command::SetViewport { extent: extent(1024, 768) });
}

#[test]
fn three_frames_in_flight() {
    let mut ctx = context(3, extent(800, 600));
    let (builder, res) = single_pass(draws(3));
    let graph = builder.compile(&ctx, &res, allocation(3, 1, 0, 0)).unwrap();
    let scene = Scene::new();
    let pending = |ctx: &RenderContext| {
        (0..3).filter(|&s| ctx.window.frame_sync(s).state == FenceState::Pending).count()
    };
    for frame in 0..20u64 {
        assert_eq!(ctx.window.slot() as u64, frame % 3);
        assert_eq!(ctx.window.frames_in_flight() as u64, frame.min(3));
        assert_eq!(ctx.window.frames_in_flight(), pending(&ctx));
        // Every command buffer whose completion the host has not seen
        // belongs to a frame in flight, and each frame has one pass.
        let submission = play_frame(&graph, &mut ctx, &scene, (frame % 3) as u32);
        assert_eq!(submission.recordings.len(), 1);
        assert!(ctx.window.frames_in_flight() <= 3);
        assert_eq!(ctx.window.current_frame(), frame + 1);
    }
    assert_eq!(ctx.window.frames_in_flight(), 3);
}

#[test]
fn a_slot_is_submitted_only_after_its_fence_was_seen() {
    let mut ctx = context(2, extent(800, 600));
    let (builder, res) = single_pass(noop());
    let graph = builder.compile(&ctx, &res, allocation(2, 1, 0, 0)).unwrap();
    let scene = Scene::new();
    play_frame(&graph, &mut ctx, &scene, 0);
    play_frame(&graph, &mut ctx, &scene, 1);
    // Slot 0 comes around again with its fence pending: the frame has to
    // wait, and a submission is not accepted before the wait has ended.
    assert_eq!(ctx.window.slot(), 0);
    assert_eq!(ctx.window.frame_sync(0).state, FenceState::Pending);
    assert!(!ctx.window.expects(FrameEvent::Submitted(SubmitOutcome::Done)));
    assert!(!ctx.window.expects(FrameEvent::Acquired(AcquireOutcome::Image(0))));
    let action = graph.execute(&mut ctx, &scene, FrameEvent::Begin);
    assert_eq!(action, FrameAction::WaitFence { fence: Fence { raw: 500 }, timeout: u64::MAX });
    assert!(!ctx.window.expects(FrameEvent::Submitted(SubmitOutcome::Done)));
    assert!(!ctx.window.expects(FrameEvent::Begin));
    graph.execute(&mut ctx, &scene, FrameEvent::FenceWaited(WaitOutcome::Signaled));
    assert_eq!(ctx.window.frame_sync(0).state, FenceState::Unsignaled);
    assert_eq!(ctx.window.frame_sync(1).state, FenceState::Pending);
}

#[test]
fn command_buffers_are_reused_across_frames() {
    let mut ctx = context(2, extent(800, 600));
    let graph = compiled_composite(&ctx);
    let scene = Scene::new();
    let first = play_frame(&graph, &mut ctx, &scene, 1);
    let second = play_frame(&graph, &mut ctx, &scene, 1);
    let third = play_frame(&graph, &mut ctx, &scene, 0);
    for j in 0..2 {
        assert_eq!(first.recordings[j].cmd, second.recordings[j].cmd);
        assert_eq!(first.recordings[j].cmd, graph.command_buffer(1, j));
        assert_eq!(third.recordings[j].cmd, graph.command_buffer(0, j));
        assert_ne!(first.recordings[j].cmd, third.recordings[j].cmd);
    }
    assert_eq!(graph.command_buffer(1, 0), 1010);
    assert_eq!(graph.command_buffer(1, 1), 1011);
}

#[test]
fn out_of_date_on_acquire_ends_the_frame_without_submitting() {
    let mut ctx = context(2, extent(800, 600));
    let graph = compiled_composite(&ctx);
    let scene = Scene::new();
    graph.execute(&mut ctx, &scene, FrameEvent::Begin);
    graph.execute(&mut ctx, &scene, FrameEvent::FenceWaited(WaitOutcome::Signaled));
    let action = graph.execute(&mut ctx, &scene, FrameEvent::Acquired(AcquireOutcome::OutOfDate));
    assert_eq!(action, FrameAction::Done(FrameStatus::NeedsRecreate));
    assert_eq!(ctx.window.current_frame(), 0);
    assert_eq!(ctx.window.phase(), FramePhase::Idle);
    // The fence was reset and never submitted: the next frame on this slot
    // must not wait on it.
    assert_eq!(ctx.window.frame_sync(0).state, FenceState::Unsignaled);
    let submission = play_frame(&graph, &mut ctx, &scene, 0);
    assert_eq!(submission.fence, Fence { raw: 500 });
}

#[test]
fn every_way_a_frame_can_end() {
    let scene = Scene::new();
    let run = |events: &[FrameEvent]| {
        let mut ctx = context(2, extent(800, 600));
        let graph = compiled_composite(&ctx);
        let mut last = None;
        for event in events {
            assert!(ctx.window.expects(*event));
            last = Some(graph.execute(&mut ctx, &scene, *event));
        }
        (last.unwrap(), ctx.window.current_frame(), ctx.window.phase())
    };
    let begin = FrameEvent::Begin;
    let seen = FrameEvent::FenceWaited(WaitOutcome::Signaled);
    let image = FrameEvent::Acquired(AcquireOutcome::Image(1));
    let sent = FrameEvent::Submitted(SubmitOutcome::Done);
    let idle = FramePhase::Idle;
    assert_eq!(
        run(&[begin, FrameEvent::FenceWaited(WaitOutcome::Timeout)]),
        (FrameAction::Done(FrameStatus::Timeout), 0, idle)
    );
    assert_eq!(
        run(&[begin, FrameEvent::FenceWaited(WaitOutcome::DeviceLost)]),
        (FrameAction::Done(FrameStatus::DeviceLost), 0, idle)
    );
    assert_eq!(
        run(&[begin, seen, FrameEvent::Acquired(AcquireOutcome::Suboptimal)]),
        (FrameAction::Done(FrameStatus::NeedsRecreate), 0, idle)
    );
    assert_eq!(
        run(&[begin, seen, FrameEvent::Acquired(AcquireOutcome::Timeout)]),
        (FrameAction::Done(FrameStatus::Timeout), 0, idle)
    );
    assert_eq!(
        run(&[begin, seen, FrameEvent::Acquired(AcquireOutcome::DeviceLost)]),
        (FrameAction::Done(FrameStatus::DeviceLost), 0, idle)
    );
    assert_eq!(
        run(&[begin, seen, image, FrameEvent::Submitted(SubmitOutcome::DeviceLost)]),
        (FrameAction::Done(FrameStatus::DeviceLost), 0, idle)
    );
    assert_eq!(
        run(&[begin, seen, image, sent, FrameEvent::Presented(PresentOutcome::Done)]),
        (FrameAction::Done(FrameStatus::Presented), 1, idle)
    );
    assert_eq!(
        run(&[begin, seen, image, sent, FrameEvent::Presented(PresentOutcome::OutOfDate)]),
        (FrameAction::Done(FrameStatus::NeedsRecreate), 1, idle)
    );
    assert_eq!(
        run(&[begin, seen, image, sent, FrameEvent::Presented(PresentOutcome::Suboptimal)]),
        (FrameAction::Done(FrameStatus::NeedsRecreate), 1, idle)
    );
    assert_eq!(
        run(&[begin, seen, image, sent, FrameEvent::Presented(PresentOutcome::DeviceLost)]),
        (FrameAction::Done(FrameStatus::DeviceLost), 0, idle)
    );
}

#[test]
fn events_out_of_turn_are_not_expected() {
    let mut ctx = context(2, extent(800, 600));
    let graph = compiled_composite(&ctx);
    let scene = Scene::new();
    assert!(ctx.window.expects(FrameEvent::Begin));
    assert!(!ctx.window.expects(FrameEvent::FenceWaited(WaitOutcome::Signaled)));
    assert!(!ctx.window.expects(FrameEvent::Presented(PresentOutcome::Done)));
    graph.execute(&mut ctx, &scene, FrameEvent::Begin);
    graph.execute(&mut ctx, &scene, FrameEvent::FenceWaited(WaitOutcome::Signaled));
    assert!(ctx.window.expects(FrameEvent::Acquired(AcquireOutcome::Image(1))));
    assert!(!ctx.window.expects(FrameEvent::Acquired(AcquireOutcome::Image(2))));
    assert!(!ctx.window.accepts_parts(&parts(2, 1, extent(1, 1))));
}

struct ListingRecorder;

impl Recorder for ListingRecorder {
    fn record(&self, ctx: &mut PassContext, renderables: &[Renderable]) {
        ctx.bind_pipeline();
        for renderable in renderables {
            ctx.push_constants(ferrum::types::ShaderStages::vertex(), 0, &renderable.transform_index().to_le_bytes());
            ctx.draw_indexed(renderable.mesh as u32);
        }
    }
}

#[test]
fn recorders_get_the_renderables_of_their_pass() {
    let mut ctx = context(2, extent(640, 480));
    let (builder, res) = single_pass(Box::new(ListingRecorder));
    let graph = builder.compile(&ctx, &res, allocation(2, 1, 0, 0)).unwrap();
    let mut scene = Scene::new();
    scene.set_renderables(
        "main",
        vec![Renderable::new(36, Material::new("main", 2)), Renderable::new(6, Material::new("main", 3))],
    );
    scene.set_renderables("other", vec![Renderable::new(1, Material::new("other", 4))]);
    let submission = play_frame(&graph, &mut ctx, &scene, 0);
    let commands = &submission.recordings[0].commands;
    assert_eq!(commands.len(), 2 + 3 + 4 + 2);
    assert_eq!(
        commands[5],
        Command::PushConstants {
            layout: 11,
            stages: ferrum::types::ShaderStages::vertex(),
            offset: 0,
            data: vec![2, 0, 0, 0]
        }
    );
    assert_eq!(
        commands[8],
        Command::DrawIndexed { index_count: 6, instance_count: 1, first_index: 0, vertex_offset: 0, first_instance: 0 }
    );
}

#[test]
fn pass_builder_reports_missing_fields() {
    let res_layout = LayoutHandle { key: 1 };
    assert_eq!(
        PassBuilder::new("p").execute(noop()).build().err(),
        Some(CompileError::MissingField(PassField::Pipeline))
    );
    assert_eq!(PassBuilder::new("p").build().err(), Some(CompileError::MissingField(PassField::Pipeline)));
    assert_eq!(
        PassBuilder::new("p").use_pipeline(pipeline(1, 2), res_layout).build().err(),
        Some(CompileError::MissingField(PassField::Recorder))
    );
    let built = PassBuilder::new("p")
        .use_pipeline(pipeline(1, 2), res_layout)
        .execute(noop())
        .bind_descriptor_set(0, DescriptorSetHandle { key: 5 })
        .push_constant(PushConstantRange::default_budget())
        .target(RenderTarget::FrameBuffer(FrameBufferHandle { key: 9 }))
        .build()
        .ok()
        .unwrap();
    assert_eq!(built.name, "p");
    assert_eq!(built.pipeline, pipeline(1, 2));
    assert_eq!(built.layout, res_layout);
    assert_eq!(built.bind_sets, vec![BindSet { set: 0, set_handle: DescriptorSetHandle { key: 5 } }]);
    assert_eq!(built.push_constants, vec![PushConstantRange::default_budget()]);
    assert_eq!(built.target, RenderTarget::FrameBuffer(FrameBufferHandle { key: 9 }));
    assert_eq!(PassBuilder::new("q").target, RenderTarget::Swapchain);
}

#[test]
fn builder_keeps_declarations_in_order() {
    let Composite { builder, target, set, .. } = composite();
    assert_eq!(builder.pass_count(), 2);
    assert_eq!(builder.transient_count(), 1);
    assert_eq!(builder.set_count(), 1);
    assert_eq!(builder.bind_count(), 1);
    assert_eq!(builder.pass(0).name, "a");
    assert_eq!(builder.pass(1).name, "b");
    assert_eq!(builder.bind(0), Binding { bind: 0, set, frame: target });
    assert_eq!(builder.transient_desc(0), transient(640, 480));
    assert_eq!(builder.transient_handle(0), target);
    assert_eq!(builder.set_handle(0), set);
    assert_eq!(builder.transient_position(target), Some(0));
    assert_eq!(builder.set_position(set), Some(0));
    assert_eq!(builder.transient_position(FrameBufferHandle { key: 3 }), None);
    assert_eq!(builder.set_layout(0).raw, 31);
}

#[test]
fn valid_graph_validates() {
    let Composite { builder, res, .. } = composite();
    assert_eq!(builder.validate(&res), Ok(()));
    let (single, res) = single_pass(noop());
    assert_eq!(single.validate(&res), Ok(()));
    assert_eq!(RenderGraphBuilder::new().validate(&ResourceManager::new()), Ok(()));
}

#[test]
fn dangling_bind_rejection() {
    let mut res = ResourceManager::new();
    let mut builder = RenderGraphBuilder::new();
    let orphan = builder.create_frame_buffer(transient(640, 480));
    let set = builder.create_descriptor_set(DescriptorSetLayout {
        raw: 31,
        bindings: vec![LayoutBinding::sampled_image(0)],
    });
    builder.bind_resource_to_set(0, set, orphan);
    let layout = res.add_layout(PipelineLayout { raw: 12, set_layouts: vec![31], push_constants: vec![] });
    builder.add_pass(
        pass("b", RenderTarget::Swapchain, pipeline(22, 12), layout, noop())
            .bind_descriptor_set(0, set)
            .build()
            .unwrap(),
    );
    assert_eq!(builder.validate(&res), Err(CompileError::DanglingBind(orphan)));
    let ctx = context(2, extent(800, 600));
    let given = allocation(2, 1, 1, 1);
    let failure = builder.compile(&ctx, &res, given.clone()).err().unwrap();
    assert_eq!(failure.error, CompileError::DanglingBind(orphan));
    // Everything that had been allocated comes back, last created first.
    assert_eq!(
        failure.release,
        vec![
            GpuObject::DescriptorSet(60),
            GpuObject::CommandBuffer(1010),
            GpuObject::CommandBuffer(1000),
            GpuObject::CommandPool(50),
            GpuObject::Sampler(43),
            GpuObject::FrameBuffer(41),
            GpuObject::ImageView(42),
            GpuObject::Image(44),
        ]
    );
    assert_eq!(failure.release, given.release_order());
}

#[test]
fn release_order_skips_what_was_not_allocated() {
    let given = GraphAllocation {
        frame_buffers: vec![Some(frame_buffer(40)), None, Some(frame_buffer(60))],
        pool: CommandPool { raw: 50 },
        cmd_bufs: vec![vec![1, 2], vec![], vec![3]],
        sets: vec![],
    };
    assert_eq!(
        given.release_order(),
        vec![
            GpuObject::CommandBuffer(3),
            GpuObject::CommandBuffer(2),
            GpuObject::CommandBuffer(1),
            GpuObject::CommandPool(50),
            GpuObject::Sampler(63),
            GpuObject::FrameBuffer(61),
            GpuObject::ImageView(62),
            GpuObject::Image(64),
            GpuObject::Sampler(43),
            GpuObject::FrameBuffer(41),
            GpuObject::ImageView(42),
            GpuObject::Image(44),
        ]
    );
}

#[test]
fn binds_to_unknown_handles_dangle() {
    let Composite { mut builder, res, target, set } = composite();
    builder.bind_resource_to_set(0, set, FrameBufferHandle { key: 77 });
    assert_eq!(builder.validate(&res), Err(CompileError::DanglingBind(FrameBufferHandle { key: 77 })));

    let Composite { mut builder, res, target: t2, .. } = composite();
    builder.bind_resource_to_set(0, DescriptorSetHandle { key: 78 }, t2);
    assert_eq!(builder.validate(&res), Err(CompileError::DanglingBind(t2)));
    assert_eq!(target, t2);

    let Composite { mut builder, res, target, set } = composite();
    builder.bind_resource_to_set(5, set, target);
    assert_eq!(builder.validate(&res), Err(CompileError::DanglingBind(target)));
}

#[test]
fn the_first_dangling_bind_is_reported() {
    let Composite { mut builder, res, set, .. } = composite();
    let second = builder.create_frame_buffer(transient(1, 1));
    let third = builder.create_frame_buffer(transient(2, 2));
    builder.bind_resource_to_set(0, set, second);
    builder.bind_resource_to_set(0, set, third);
    assert_eq!(builder.validate(&res), Err(CompileError::DanglingBind(second)));
}

#[test]
fn unknown_target_is_rejected() {
    let (mut builder, mut res) = single_pass(noop());
    let layout = plain_layout(&mut res, 13);
    let stray = FrameBufferHandle { key: (1 << 32) | 9 };
    builder.add_pass(pass("x", RenderTarget::FrameBuffer(stray), pipeline(23, 13), layout, noop()).build().unwrap());
    assert_eq!(builder.validate(&res), Err(CompileError::UnknownTarget(stray)));
}

#[test]
fn duplicate_producer_is_rejected() {
    let Composite { mut builder, mut res, target, .. } = composite();
    let layout = plain_layout(&mut res, 13);
    builder.add_pass(pass("c", RenderTarget::FrameBuffer(target), pipeline(23, 13), layout, noop()).build().unwrap());
    assert_eq!(builder.validate(&res), Err(CompileError::DuplicateProducer(target)));
}

#[test]
fn consumer_before_producer_is_rejected() {
    let mut res = ResourceManager::new();
    let mut builder = RenderGraphBuilder::new();
    let target = builder.create_frame_buffer(transient(640, 480));
    let set = builder.create_descriptor_set(DescriptorSetLayout {
        raw: 31,
        bindings: vec![LayoutBinding::sampled_image(0)],
    });
    builder.bind_resource_to_set(0, set, target);
    let first = plain_layout(&mut res, 11);
    let second = res.add_layout(PipelineLayout { raw: 12, set_layouts: vec![31], push_constants: vec![] });
    builder.add_pass(
        pass("b", RenderTarget::Swapchain, pipeline(22, 12), second, noop())
            .bind_descriptor_set(0, set)
            .build()
            .unwrap(),
    );
    builder.add_pass(pass("a", RenderTarget::FrameBuffer(target), pipeline(21, 11), first, noop()).build().unwrap());
    assert_eq!(builder.validate(&res), Err(CompileError::ProducerAfterConsumer(target)));
}

#[test]
fn a_pass_cannot_sample_its_own_target() {
    let mut res = ResourceManager::new();
    let mut builder = RenderGraphBuilder::new();
    let target = builder.create_frame_buffer(transient(640, 480));
    let set = builder.create_descriptor_set(DescriptorSetLayout {
        raw: 31,
        bindings: vec![LayoutBinding::sampled_image(0)],
    });
    builder.bind_resource_to_set(0, set, target);
    let layout = res.add_layout(PipelineLayout { raw: 12, set_layouts: vec![31], push_constants: vec![] });
    builder.add_pass(
        pass("a", RenderTarget::FrameBuffer(target), pipeline(22, 12), layout, noop())
            .bind_descriptor_set(0, set)
            .build()
            .unwrap(),
    );
    assert_eq!(builder.validate(&res), Err(CompileError::ProducerAfterConsumer(target)));
}

fn with_second_pass(
    change: impl FnOnce(PassBuilder, DescriptorSetHandle, &mut ResourceManager) -> PassBuilder,
) -> Result<(), CompileError> {
    let mut res = ResourceManager::new();
    let mut builder = RenderGraphBuilder::new();
    let target = builder.create_frame_buffer(transient(640, 480));
    let set = builder.create_descriptor_set(DescriptorSetLayout {
        raw: 31,
        bindings: vec![LayoutBinding::sampled_image(0)],
    });
    builder.bind_resource_to_set(0, set, target);
    let first = plain_layout(&mut res, 11);
    builder.add_pass(pass("a", RenderTarget::FrameBuffer(target), pipeline(21, 11), first, noop()).build().unwrap());
    let second = change(PassBuilder::new("b").execute(noop()), set, &mut res);
    builder.add_pass(second.build().unwrap());
    builder.validate(&res)
}

fn sampled_layout(res: &mut ResourceManager) -> LayoutHandle {
    res.add_layout(PipelineLayout { raw: 12, set_layouts: vec![31], push_constants: vec![] })
}

#[test]
fn layout_mismatch_is_rejected() {
    let mismatch = Err(CompileError::LayoutMismatch(1));
    // The reference: everything matches.
    assert_eq!(
        with_second_pass(|p, set, res| p.use_pipeline(pipeline(22, 12), sampled_layout(res)).bind_descriptor_set(0, set)),
        Ok(())
    );
    // The layout handle is not held.
    assert_eq!(with_second_pass(|p, _, _| p.use_pipeline(pipeline(22, 12), LayoutHandle { key: 99 })), mismatch);
    // The pipeline was created with another layout.
    assert_eq!(
        with_second_pass(|p, set, res| p.use_pipeline(pipeline(22, 13), sampled_layout(res)).bind_descriptor_set(0, set)),
        mismatch
    );
    // The pass binds fewer sets than the layout has.
    assert_eq!(with_second_pass(|p, _, res| p.use_pipeline(pipeline(22, 12), sampled_layout(res))), mismatch);
    // The set index is not contiguous from 0.
    assert_eq!(
        with_second_pass(|p, set, res| p.use_pipeline(pipeline(22, 12), sampled_layout(res)).bind_descriptor_set(1, set)),
        mismatch
    );
    // The bound set is not of this graph.
    assert_eq!(
        with_second_pass(|p, _, res| {
            p.use_pipeline(pipeline(22, 12), sampled_layout(res)).bind_descriptor_set(0, DescriptorSetHandle { key: 5 })
        }),
        mismatch
    );
    // The set has another descriptor-set layout than the pipeline layout.
    assert_eq!(
        with_second_pass(|p, set, res| {
            let layout = res.add_layout(PipelineLayout { raw: 12, set_layouts: vec![32], push_constants: vec![] });
            p.use_pipeline(pipeline(22, 12), layout).bind_descriptor_set(0, set)
        }),
        mismatch
    );
    // The same set index twice.
    assert_eq!(
        with_second_pass(|p, set, res| {
            let layout = res.add_layout(PipelineLayout { raw: 12, set_layouts: vec![31, 31], push_constants: vec![] });
            p.use_pipeline(pipeline(22, 12), layout).bind_descriptor_set(0, set).bind_descriptor_set(0, set)
        }),
        mismatch
    );
    // Push-constant ranges differ.
    assert_eq!(
        with_second_pass(|p, set, res| {
            p.use_pipeline(pipeline(22, 12), sampled_layout(res))
                .bind_descriptor_set(0, set)
                .push_constant(PushConstantRange::default_budget())
        }),
        mismatch
    );
}

#[test]
fn sets_are_bound_by_set_index_whatever_the_order_of_declaration() {
    let mut ctx = context(1, extent(8, 8));
    let mut res = ResourceManager::new();
    let mut builder = RenderGraphBuilder::new();
    let low = builder.create_descriptor_set(DescriptorSetLayout { raw: 31, bindings: vec![] });
    let high = builder.create_descriptor_set(DescriptorSetLayout { raw: 32, bindings: vec![] });
    let layout = res.add_layout(PipelineLayout {
        raw: 12,
        set_layouts: vec![31, 32],
        push_constants: vec![PushConstantRange::default_budget()],
    });
    builder.add_pass(
        pass("p", RenderTarget::Swapchain, pipeline(22, 12), layout, draws(3))
            .bind_descriptor_set(1, high)
            .bind_descriptor_set(0, low)
            .push_constant(PushConstantRange::default_budget())
            .build()
            .unwrap(),
    );
    let graph = builder.compile(&ctx, &res, allocation(1, 1, 0, 2)).unwrap();
    assert_eq!(graph.planned_sets(0), vec![60, 61]);
    assert_eq!(graph.descriptor_set(low), Some(60));
    assert_eq!(graph.descriptor_set(high), Some(61));
    let submission = play_frame(&graph, &mut ctx, &Scene::new(), 0);
    assert_eq!(
        submission.recordings[0].commands[3..5],
        [
            Command::BindDescriptorSet { bind_point: BindPoint::Graphics, layout: 12, index: 0, set: 60 },
            Command::BindDescriptorSet { bind_point: BindPoint::Graphics, layout: 12, index: 1, set: 61 },
        ]
    );
}

#[test]
fn compile_takes_over_the_allocation() {
    let ctx = context(2, extent(800, 600));
    let Composite { builder, res, target, set } = composite();
    let graph = builder.compile(&ctx, &res, allocation(2, 2, 1, 1)).unwrap();
    assert_eq!(graph.queue(), QUEUE);
    assert_eq!(graph.pool(), CommandPool { raw: 50 });
    assert_eq!(graph.pass_count(), 2);
    assert_eq!(graph.image_count(), 2);
    assert_eq!(graph.transient_count(), 1);
    assert_eq!(graph.planned_extent(0), Some(extent(640, 480)));
    assert_eq!(graph.planned_extent(1), None);
    assert_eq!(graph.source_pass(0).name, "a");
    assert_eq!(graph.source_pass(1).name, "b");
    assert_eq!(graph.frame_buffer(target), Some(frame_buffer(40)));
    assert_eq!(graph.frame_buffer(FrameBufferHandle { key: 1 }), None);
    assert_eq!(graph.descriptor_set(set), Some(60));
    assert_eq!(graph.descriptor_set(DescriptorSetHandle { key: 1 }), None);
    assert_eq!(graph.planned_target(0), Some(frame_buffer(40)));
    assert_eq!(graph.planned_target(1), None);
    assert_eq!(graph.planned_sets(0), Vec::<u64>::new());
    assert_eq!(graph.planned_sets(1), vec![60]);
    assert_eq!(graph.command_buffer(0, 0), 1000);
    assert_eq!(graph.command_buffer(1, 1), 1011);
}

#[test]
fn every_bind_is_written_as_a_combined_image_sampler() {
    let ctx = context(2, extent(800, 600));
    let Composite { mut builder, res, target, set } = composite();
    // The same transient at a second binding of the same set: both writes
    // are emitted.
    let wide = builder.create_descriptor_set(DescriptorSetLayout {
        raw: 33,
        bindings: vec![LayoutBinding::sampled_image(0), LayoutBinding::sampled_image(1)],
    });
    builder.bind_resource_to_set(1, wide, target);
    builder.bind_resource_to_set(0, wide, target);
    let graph = builder.compile(&ctx, &res, allocation(2, 2, 1, 2)).unwrap();
    let write = |set: u64, binding: u32| DescriptorWrite {
        set,
        binding,
        ty: DescriptorType::CombinedImageSampler,
        layout: ImageLayout::ShaderReadOnlyOptimal,
        view: frame_buffer(40).image_view,
        sampler: frame_buffer(40).sampler,
    };
    assert_eq!(graph.descriptor_writes(), vec![write(60, 0), write(61, 1), write(61, 0)]);
    assert_eq!(graph.descriptor_set(set), Some(60));
}

#[test]
fn failed_transient_allocation_names_the_transient() {
    let ctx = context(2, extent(800, 600));
    let Composite { mut builder, res, .. } = composite();
    let second = builder.create_frame_buffer(transient(64, 64));
    let mut given = allocation(2, 2, 2, 1);
    given.frame_buffers[1] = None;
    assert!(given.fits_builder(&builder, 2));
    let CompileFailure { error, release } = builder.compile(&ctx, &res, given.clone()).err().unwrap();
    assert_eq!(error, CompileError::TransientAllocation(second));
    assert_eq!(release, given.release_order());
    assert_eq!(release.len(), 1 + 4 + 1 + 4);
}

#[test]
fn a_device_without_graphics_queue_cannot_compile() {
    let window = WindowManager::new(
        Format::r8g8b8a8_srgb(),
        Format::d32_sfloat(),
        RenderPass { raw: SWAPCHAIN_PASS },
        RenderPass { raw: TRANSIENT_PASS },
        parts(2, 0, extent(800, 600)),
        syncs(2),
    )
    .unwrap();
    let compute = QueueFlags { graphics: false, compute: true, transfer: true, sparse_binding: false };
    let families = vec![QueueFamilyProperties { queue_flags: compute, queue_count: 1 }];
    let queues = QueuePool::new(families, vec![vec![3]]).unwrap();
    let ctx = RenderContext::new(window, queues);
    let Composite { builder, res, .. } = composite();
    let failure = builder.compile(&ctx, &res, allocation(2, 2, 1, 1)).err().unwrap();
    assert_eq!(failure.error, CompileError::NoGraphicsQueue);
    assert_eq!(failure.release.len(), 4 + 1 + 4 + 1);
}

#[test]
fn broken_rules_come_before_missing_objects() {
    let ctx = context(2, extent(800, 600));
    let Composite { mut builder, res, set, .. } = composite();
    let orphan = builder.create_frame_buffer(transient(64, 64));
    builder.bind_resource_to_set(0, set, orphan);
    let mut given = allocation(2, 2, 2, 1);
    given.frame_buffers[0] = None;
    let failure = builder.compile(&ctx, &res, given).err().unwrap();
    assert_eq!(failure.error, CompileError::DanglingBind(orphan));
}

#[test]
fn allocation_has_to_fit_the_builder() {
    let Composite { builder, .. } = composite();
    assert!(allocation(2, 2, 1, 1).fits_builder(&builder, 2));
    assert!(!allocation(2, 2, 1, 1).fits_builder(&builder, 3));
    assert!(!allocation(2, 1, 1, 1).fits_builder(&builder, 2));
    assert!(!allocation(2, 2, 0, 1).fits_builder(&builder, 2));
    assert!(!allocation(2, 2, 1, 2).fits_builder(&builder, 2));
}

#[test]
fn resize_round_trip_restores_extents_and_writes() {
    let ctx = context(2, extent(800, 600));
    let mut res = ResourceManager::new();
    let mut builder = RenderGraphBuilder::new();
    let target = builder.create_frame_buffer(transient(800, 600));
    let set = builder.create_descriptor_set(DescriptorSetLayout {
        raw: 31,
        bindings: vec![LayoutBinding::sampled_image(0)],
    });
    builder.bind_resource_to_set(0, set, target);
    let first = plain_layout(&mut res, 11);
    let second = res.add_layout(PipelineLayout { raw: 12, set_layouts: vec![31], push_constants: vec![] });
    builder.add_pass(pass("a", RenderTarget::FrameBuffer(target), pipeline(21, 11), first, noop()).build().unwrap());
    builder.add_pass(
        pass("b", RenderTarget::Swapchain, pipeline(22, 12), second, noop())
            .bind_descriptor_set(0, set)
            .build()
            .unwrap(),
    );
    let mut graph = builder.compile(&ctx, &res, allocation(2, 2, 1, 1)).unwrap();
    let writes = graph.descriptor_writes();
    let objects = graph.frame_buffer(target).unwrap();

    let released = graph.resize(extent(1024, 768), vec![frame_buffer(140)]);
    assert_eq!(released.len(), 4);
    assert_ne!(graph.descriptor_writes(), writes);
    assert_eq!(graph.frame_buffer(target), Some(frame_buffer(140)));
    assert_eq!(graph.planned_target(0), Some(frame_buffer(140)));

    let released = graph.resize(extent(800, 600), vec![objects]);
    assert_eq!(
        released,
        vec![GpuObject::Sampler(143), GpuObject::FrameBuffer(141), GpuObject::ImageView(142), GpuObject::Image(144)]
    );
    assert_eq!(graph.descriptor_writes(), writes);
    assert_eq!(graph.frame_buffer(target), Some(objects));
    assert_eq!(graph.planned_target(0), Some(objects));
    assert_eq!(graph.planned_sets(1), vec![60]);
    assert_eq!(graph.command_buffer(1, 1), 1011);
}

#[test]
fn set_transient_extent_keeps_handles_format_and_usage() {
    let Composite { mut builder, res, target, .. } = composite();
    let other = builder.create_frame_buffer(FrameDesc {
        width: 1,
        height: 2,
        format: Format::d32_sfloat(),
        usage: ImageUsage::empty(),
    });
    builder.set_transient_extent(extent(1024, 768));
    assert_eq!(builder.transient_desc(0), transient(1024, 768));
    assert_eq!(
        builder.transient_desc(1),
        FrameDesc { width: 1024, height: 768, format: Format::d32_sfloat(), usage: ImageUsage::empty() }
    );
    assert_eq!(builder.transient_handle(0), target);
    assert_eq!(builder.transient_handle(1), other);
    assert_eq!(builder.validate(&res), Ok(()));
    builder.set_transient_extent(extent(640, 480));
    assert_eq!(builder.transient_desc(0), transient(640, 480));
}

#[test]
fn window_needs_one_of_everything_per_image() {
    let make = |views: usize, buffers: usize, slots: usize| {
        let mut given = parts(views, 0, extent(1, 1));
        given.frame_buffers.truncate(buffers);
        while given.frame_buffers.len() < buffers {
            given.frame_buffers.push(FrameBuffer { raw: 1 });
        }
        WindowManager::new(
            Format::r8g8b8a8_srgb(),
            Format::d32_sfloat(),
            RenderPass { raw: 1 },
            RenderPass { raw: 2 },
            given,
            syncs(slots),
        )
    };
    assert!(make(2, 2, 2).is_some());
    assert!(make(0, 0, 0).is_none());
    assert!(make(1, 2, 2).is_none());
    assert!(make(2, 1, 2).is_none());
    assert!(make(2, 2, 3).is_none());
    let window = make(3, 3, 3).unwrap();
    assert_eq!(window.image_count(), 3);
    assert_eq!(window.current_frame(), 0);
    assert_eq!(window.phase(), FramePhase::Idle);
    assert_eq!(window.slot(), 0);
    assert_eq!(window.frame_buffer(2), FrameBuffer { raw: 102 });
    assert_eq!(window.image_view(1), ImageView { raw: 201 });
    assert_eq!(window.depth_view(), ImageView { raw: 71 });
    assert_eq!(window.depth_image(), Image { raw: 70 });
    assert_eq!(window.render_pass(), RenderPass { raw: 1 });
    assert_eq!(window.transient_pass(), RenderPass { raw: 2 });
    assert_eq!(window.frame_sync(1).state, FenceState::Signaled);
}

#[test]
fn allocation_plan_lists_what_the_graph_needs() {
    let ctx = context(3, extent(800, 600));
    let Composite { builder, target, .. } = composite();
    assert_eq!(
        builder.allocation_plan(&ctx),
        AllocationPlan {
            transients: vec![TransientRequest {
                handle: target,
                desc: transient(640, 480),
                render_pass: RenderPass { raw: TRANSIENT_PASS },
                depth_view: ImageView { raw: 71 },
                layers: 1,
            }],
            reset_command_buffer: true,
            images: 3,
            buffers_per_image: 2,
            set_layouts: vec![31],
        }
    );
    let empty = RenderGraphBuilder::new().allocation_plan(&ctx);
    assert!(empty.transients.is_empty() && empty.set_layouts.is_empty());
    assert_eq!((empty.images, empty.buffers_per_image), (3, 0));
}

#[test]
fn teardown_releases_everything_last_created_first() {
    let ctx = context(2, extent(800, 600));
    let graph = compiled_composite(&ctx);
    assert_eq!(graph.command_buffers(1), vec![1010, 1011]);
    assert_eq!(graph.teardown(), allocation(2, 2, 1, 1).release_order());
    let graph = compiled_composite(&ctx);
    assert_eq!(
        graph.teardown(),
        vec![
            GpuObject::DescriptorSet(60),
            GpuObject::CommandBuffer(1011),
            GpuObject::CommandBuffer(1010),
            GpuObject::CommandBuffer(1001),
            GpuObject::CommandBuffer(1000),
            GpuObject::CommandPool(50),
            GpuObject::Sampler(43),
            GpuObject::FrameBuffer(41),
            GpuObject::ImageView(42),
            GpuObject::Image(44),
        ]
    );
}
