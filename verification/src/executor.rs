//! Executing a compiled graph: one step of the frame protocol at a time,
//! with the whole frame recorded once its swapchain image is known.

use crate::command::{ClearValues, Command, PassContext};
use crate::compiled::RenderGraph;
use crate::render_context::{FrameEvent, FrameStatus, Paced, RenderContext, WindowManager};
use crate::render_graph::FrameBufferHandle;
use crate::scene::Scene;
use crate::types::{
    Access, DescriptorType, Extent2D, Fence, ImageLayout, PipelineStage, Semaphore, Swapchain,
};
use vstd::prelude::*;

verus! {

/// The commands of one pass, for the command buffer they are recorded into.
#[derive(Clone, Debug, PartialEq, Eq)]
pub struct PassRecording {
    pub cmd: u64,
    pub commands: Vec<Command>,
}

/// One queue submission: the command buffers to reset, the recorded passes
/// of a frame, in the order in which they run, and what the submission
/// waits on and signals.
#[derive(Clone, Debug, PartialEq, Eq)]
pub struct Submission {
    pub queue: u64,
    pub image_index: u32,
    pub resets: Vec<u64>,
    pub recordings: Vec<PassRecording>,
    pub wait: Semaphore,
    pub wait_stage: PipelineStage,
    pub signal: Semaphore,
    pub fence: Fence,
}

/// What the caller does next for a frame.
#[derive(Clone, Debug, PartialEq, Eq)]
pub enum FrameAction {
    /// Wait on the fence for at most `timeout` nanoseconds.
    WaitFence { fence: Fence, timeout: u64 },
    /// Reset the fence, if one is given, then acquire the next image of the
    /// swapchain, signalling the semaphore.
    AcquireImage { reset: Option<Fence>, swapchain: Swapchain, semaphore: Semaphore, timeout: u64 },
    /// Record the command buffers and submit them in one batch.
    Submit(Submission),
    /// Present the image.
    Present { queue: u64, swapchain: Swapchain, image_index: u32, wait: Semaphore },
    /// The frame is over.
    Done(FrameStatus),
}

/// The barrier after a pass that renders into a transient: the image leaves
/// the attachment layout for the layout in which later passes sample it.
pub open spec fn transient_barrier(image: u64) -> Command {
    Command::ImageBarrier {
        image,
        old_layout: ImageLayout::ColorAttachmentOptimal,
        new_layout: ImageLayout::ShaderReadOnlyOptimal,
        src_stage: PipelineStage::ColorAttachmentOutput,
        dst_stage: PipelineStage::FragmentShader,
        src_access: Access::Nothing,
        dst_access: Access::ShaderRead,
    }
}

impl RenderGraph {
    /// The resolution that pass `j` renders at: that of the swapchain where
    /// it renders into the swapchain, the declared extent of its transient
    /// otherwise.
    pub open spec fn resolution_of(&self, window: &WindowManager, j: int) -> Extent2D {
        match self.target_extent(j) {
            None => window.extent(),
            Some(extent) => extent,
        }
    }

    /// The command that begins the render pass of pass `j` for a swapchain
    /// image: on the image's framebuffer where the pass renders into the
    /// swapchain, on the transient's own otherwise, over the whole
    /// resolution of the pass, with the standard clear values.
    pub open spec fn begin_of(&self, window: &WindowManager, image_index: int, j: int) -> Command {
        match self.target_frame(j) {
            None => Command::BeginRenderPass {
                render_pass: window.pass().raw,
                framebuffer: window.framebuffers()[image_index].raw,
                extent: self.resolution_of(window, j),
                clear: ClearValues::standard(),
            },
            Some(fb) => Command::BeginRenderPass {
                render_pass: window.offscreen_pass().raw,
                framebuffer: fb.frame.raw,
                extent: self.resolution_of(window, j),
                clear: ClearValues::standard(),
            },
        }
    }

    /// The number of commands that close the recording of pass `j`: the end
    /// of the render pass, the barrier of a transient, and the end of the
    /// command buffer.
    pub open spec fn tail_of(&self, j: int) -> int {
        if self.target_frame(j) is Some {
            3
        } else {
            2
        }
    }

    /// Whether `ctx` is a context of pass `j` for the command buffer `cmd`:
    /// it holds the pipeline of the pass, its descriptor sets by set index,
    /// and the resolution the pass renders at.
    pub open spec fn context_of(&self, ctx: PassContext, window: &WindowManager, cmd: u64, j: int) -> bool {
        &&& ctx.wf()
        &&& ctx.command_buffer() == cmd
        &&& ctx.pipeline() == self.decl().passes[j].pipeline
        &&& ctx.sets() == self.pass_sets(j)
        &&& ctx.extent() == self.resolution_of(window, j)
    }

    /// Whether `recording` is a recording of pass `j` for a swapchain image:
    /// into the command buffer of the image and the pass; begun for a single
    /// submission; the render pass begun; then what the recorder emitted
    /// through a context of the pass, draw commands only; the render pass
    /// ended; for a transient the barrier; the buffer ended.
    pub open spec fn records_pass(
        &self,
        recording: PassRecording,
        window: &WindowManager,
        image_index: int,
        j: int,
    ) -> bool {
        let c = recording.commands@;
        let tail = self.tail_of(j);
        &&& recording.cmd == self.buffers()[image_index][j]
        &&& c.len() >= 2 + tail
        &&& c[0] == (Command::Begin { simultaneous_use: false })
        &&& c[1] == self.begin_of(window, image_index, j)
        &&& forall|k: int| 2 <= k < c.len() - tail ==> (#[trigger] c[k]).is_draw_command()
        &&& exists|ctx: PassContext|
            #![trigger ctx.recorded()]
            self.context_of(ctx, window, recording.cmd, j) && ctx.recorded() == c.subrange(
                2,
                c.len() - tail,
            )
        &&& c[c.len() - tail] == Command::EndRenderPass
        &&& (self.target_frame(j) matches Some(fb) ==> c[c.len() - 2] == transient_barrier(
            fb.image.raw,
        ))
        &&& c[c.len() - 1] == Command::End
    }

    /// Whether `recordings` is a recording of a whole frame for a swapchain
    /// image: one recording per pass, in the order of the passes.
    pub open spec fn records_frame(
        &self,
        recordings: Seq<PassRecording>,
        window: &WindowManager,
        image_index: int,
    ) -> bool {
        &&& recordings.len() == self.decl().passes.len()
        &&& forall|j: int|
            0 <= j < recordings.len() ==> self.records_pass(
                #[trigger] recordings[j],
                window,
                image_index,
                j,
            )
    }

    /// Records pass `j` of a frame for a swapchain image.
    fn record_pass(&self, window: &WindowManager, scene: &Scene, image_index: usize, j: usize) -> (r:
        PassRecording)
        requires
            self.wf(),
            window.wf(),
            scene.wf(),
            self.buffers().len() == window.syncs().len(),
            image_index < window.syncs().len(),
            j < self.decl().passes.len(),
        ensures
            self.records_pass(r, window, image_index as int, j as int),
    {
        let pass = self.source_pass(j);
        let cmd = self.command_buffer(image_index, j);
        let target = self.planned_target(j);
        let resolution = match self.planned_extent(j) {
            Some(extent) => extent,
            None => window.resolution(),
        };
        let mut commands: Vec<Command> = Vec::new();
        commands.push(Command::Begin { simultaneous_use: false });
        match target {
            None => {
                commands.push(
                    Command::BeginRenderPass {
                        render_pass: window.render_pass().raw,
                        framebuffer: window.frame_buffer(image_index).raw,
                        extent: resolution,
                        clear: ClearValues::default_clear(),
                    },
                );
            },
            Some(fb) => {
                commands.push(
                    Command::BeginRenderPass {
                        render_pass: window.transient_pass().raw,
                        framebuffer: fb.frame.raw,
                        extent: resolution,
                        clear: ClearValues::default_clear(),
                    },
                );
            },
        }
        let sets = self.planned_sets(j);
        let mut ctx = PassContext::start(cmd, pass.pipeline, sets, resolution);
        let renderables = scene.renderables_for(pass.name.as_str());
        pass.execute.record(&mut ctx, renderables.as_slice());
        let ghost recorded = ctx;
        let mut body = ctx.finish();
        let ghost drawn = body@;
        let ghost head = commands@;
        commands.append(&mut body);
        commands.push(Command::EndRenderPass);
        if let Some(fb) = target {
            commands.push(
                Command::ImageBarrier {
                    image: fb.image.raw,
                    old_layout: ImageLayout::ColorAttachmentOptimal,
                    new_layout: ImageLayout::ShaderReadOnlyOptimal,
                    src_stage: PipelineStage::ColorAttachmentOutput,
                    dst_stage: PipelineStage::FragmentShader,
                    src_access: Access::Nothing,
                    dst_access: Access::ShaderRead,
                },
            );
        }
        commands.push(Command::End);
        proof {
            let c = commands@;
            let tail = self.tail_of(j as int);
            assert(c.len() == 2 + drawn.len() + tail);
            assert forall|k: int| 2 <= k < c.len() - tail implies (#[trigger] c[k]).is_draw_command() by {
                assert(c[k] == drawn[k - 2]);
            }
            assert(recorded.recorded() =~= c.subrange(2, c.len() - tail));
            assert(self.context_of(recorded, window, cmd, j as int));
        }
        PassRecording { cmd, commands }
    }

    /// Records every pass of a frame for a swapchain image, in the order of
    /// the passes.
    pub fn record_frame(&self, window: &WindowManager, scene: &Scene, image_index: u32) -> (r: Vec<
        PassRecording,
    >)
        requires
            self.wf(),
            window.wf(),
            scene.wf(),
            self.buffers().len() == window.syncs().len(),
            image_index < window.syncs().len(),
        ensures
            self.records_frame(r@, window, image_index as int),
    {
        let n = self.pass_count();
        let mut recordings: Vec<PassRecording> = Vec::new();
        let mut j: usize = 0;
        while j < n
            invariant
                self.wf(),
                window.wf(),
                scene.wf(),
                self.buffers().len() == window.syncs().len(),
                image_index < window.syncs().len(),
                n == self.decl().passes.len(),
                j <= n,
                recordings@.len() == j,
                forall|m: int|
                    0 <= m < j ==> self.records_pass(
                        #[trigger] recordings@[m],
                        window,
                        image_index as int,
                        m,
                    ),
            decreases n - j,
        {
            let recording = self.record_pass(window, scene, image_index as usize, j);
            recordings.push(recording);
            j += 1;
        }
        recordings
    }

    /// Whether `action` is what the frame protocol asks for after `event`,
    /// with the frame recorded where the protocol asks for its submission.
    pub open spec fn answers(&self, before: &WindowManager, event: FrameEvent, action: FrameAction) -> bool {
        match before.asks(event) {
            Paced::Wait { fence } => action matches FrameAction::WaitFence { fence: f, timeout }
                && f == fence && timeout == u64::MAX,
            Paced::Acquire { reset, semaphore } => action matches FrameAction::AcquireImage {
                reset: r,
                swapchain,
                semaphore: s,
                timeout,
            } && r == reset && swapchain == before.chain() && s == semaphore && timeout
                == u64::MAX,
            Paced::Record { image_index, wait, signal, fence } => action matches FrameAction::Submit(
                submission,
            ) && submission.queue == self.queue_handle() && submission.image_index == image_index
                && submission.resets@ == self.buffers()[image_index as int] && submission.wait
                == wait && submission.wait_stage
                == PipelineStage::ColorAttachmentOutput && submission.signal == signal
                && submission.fence == fence && self.records_frame(
                submission.recordings@,
                before,
                image_index as int,
            ),
            Paced::Present { image_index, wait, swapchain } => action matches FrameAction::Present {
                queue,
                swapchain: c,
                image_index: i,
                wait: w,
            } && queue == self.queue_handle() && c == swapchain && i == image_index && w == wait,
            Paced::Done(status) => action matches FrameAction::Done(s) && s == status,
        }
    }

    /// Takes a frame one step further: hands the protocol what happened
    /// since the last step and returns what to do next. A frame starts with
    /// `FrameEvent::Begin` and is over when the action is `Done`.
    pub fn execute(&self, ctx: &mut RenderContext, scene: &Scene, event: FrameEvent) -> (r:
        FrameAction)
        requires
            self.wf(),
            scene.wf(),
            old(ctx).window.wf(),
            old(ctx).window.pacing().accepts(event),
            old(ctx).window.can_count(),
            self.buffers().len() == old(ctx).window.syncs().len(),
        ensures
            final(ctx).window.wf(),
            final(ctx).window.pacing() == old(ctx).window.pacing().step(event),
            old(ctx).window.same_objects(&final(ctx).window),
            final(ctx).queue_pool == old(ctx).queue_pool,
            self.answers(&old(ctx).window, event, r),
    {
        let paced = ctx.window.advance(event);
        match paced {
            Paced::Wait { fence } => FrameAction::WaitFence { fence, timeout: u64::MAX },
            Paced::Acquire { reset, semaphore } => FrameAction::AcquireImage {
                reset,
                swapchain: ctx.window.swapchain(),
                semaphore,
                timeout: u64::MAX,
            },
            Paced::Record { image_index, wait, signal, fence } => {
                let resets = self.command_buffers(image_index as usize);
                let recordings = self.record_frame(&ctx.window, scene, image_index);
                proof {
                    self.lemma_recording_same_objects(
                        recordings@,
                        &old(ctx).window,
                        &ctx.window,
                        image_index as int,
                    );
                }
                FrameAction::Submit(
                    Submission {
                        queue: self.queue(),
                        image_index,
                        resets,
                        recordings,
                        wait,
                        wait_stage: PipelineStage::ColorAttachmentOutput,
                        signal,
                        fence,
                    },
                )
            },
            Paced::Present { image_index, wait, swapchain } => FrameAction::Present {
                queue: self.queue(),
                swapchain,
                image_index,
                wait,
            },
            Paced::Done(status) => FrameAction::Done(status),
        }
    }

    /// A recording of a frame depends on the swapchain's objects only, not
    /// on its pacing state.
    pub proof fn lemma_recording_same_objects(
        &self,
        recordings: Seq<PassRecording>,
        before: &WindowManager,
        after: &WindowManager,
        image_index: int,
    )
        requires
            before.same_objects(after),
            self.records_frame(recordings, after, image_index),
        ensures
            self.records_frame(recordings, before, image_index),
    {
        assert forall|j: int| 0 <= j < recordings.len() implies self.records_pass(
            #[trigger] recordings[j],
            before,
            image_index,
            j,
        ) by {
            assert(self.records_pass(recordings[j], after, image_index, j));
            assert(self.begin_of(before, image_index, j) == self.begin_of(after, image_index, j));
            let c = recordings[j].commands@;
            let ctx = choose|ctx: PassContext|
                #![trigger ctx.recorded()]
                self.context_of(ctx, after, recordings[j].cmd, j) && ctx.recorded() == c.subrange(
                    2,
                    c.len() - self.tail_of(j),
                );
            assert(self.context_of(ctx, before, recordings[j].cmd, j));
        }
    }
}

/// The number of commands in the recordings before the `j`-th.
pub open spec fn offset_of(recordings: Seq<PassRecording>, j: int) -> int
    decreases j,
{
    if j <= 0 {
        0
    } else {
        offset_of(recordings, j - 1) + recordings[j - 1].commands@.len()
    }
}

/// The commands of the first `n` recordings, one recording after the other:
/// the order in which the queue runs the commands of a submission.
pub open spec fn stream_of(recordings: Seq<PassRecording>, n: int) -> Seq<Command>
    decreases n,
{
    if n <= 0 {
        Seq::empty()
    } else {
        stream_of(recordings, n - 1) + recordings[n - 1].commands@
    }
}

/// The whole command stream of a submission.
pub open spec fn stream(recordings: Seq<PassRecording>) -> Seq<Command> {
    stream_of(recordings, recordings.len() as int)
}

/// In the stream of the first `n` recordings, the `k`-th command of the
/// `j`-th recording stands at the offset of the recording plus `k`, and
/// offsets grow with the position of the recording.
pub proof fn lemma_stream_position(recordings: Seq<PassRecording>, n: int, j: int, k: int)
    requires
        0 <= j < n <= recordings.len(),
        0 <= k < recordings[j].commands@.len(),
    ensures
        stream_of(recordings, n).len() == offset_of(recordings, n),
        0 <= offset_of(recordings, j) + k < offset_of(recordings, j + 1) <= offset_of(recordings, n),
        stream_of(recordings, n)[offset_of(recordings, j) + k] == recordings[j].commands@[k],
    decreases n,
{
    lemma_stream_length(recordings, n);
    lemma_stream_length(recordings, j);
    if j == n - 1 {
        lemma_stream_length(recordings, n - 1);
    } else {
        lemma_stream_position(recordings, n - 1, j, k);
    }
}

/// The stream of the first `n` recordings has as many commands as the
/// recordings together.
pub proof fn lemma_stream_length(recordings: Seq<PassRecording>, n: int)
    requires
        0 <= n <= recordings.len(),
    ensures
        stream_of(recordings, n).len() == offset_of(recordings, n),
        offset_of(recordings, n) >= 0,
    decreases n,
{
    if n > 0 {
        lemma_stream_length(recordings, n - 1);
    }
}

impl RenderGraph {
    /// A transient is rendered, and made readable, before it is sampled.
    ///
    /// Where pass `a` renders into transient `t` and pass `b` samples `t`,
    /// `a` comes before `b`, and in the command stream of every recorded
    /// frame the end of `a`'s render pass is followed at once by the barrier
    /// on `t`'s image, and both stand before the begin of `b`'s render pass.
    pub proof fn lemma_producer_precedes_consumer(
        &self,
        window: &WindowManager,
        image_index: int,
        recordings: Seq<PassRecording>,
        a: int,
        b: int,
        t: FrameBufferHandle,
    )
        requires
            self.wf(),
            self.records_frame(recordings, window, image_index),
            self.decl().produces(a, t),
            0 <= b < self.decl().passes.len(),
            self.decl().samples(b, t),
        ensures
            a < b,
            ({
                let commands = stream(recordings);
                let end = offset_of(recordings, a) + recordings[a].commands@.len() - 3;
                let begin = offset_of(recordings, b) + 1;
                &&& 0 <= end < end + 1 < begin < commands.len()
                &&& commands[end] == Command::EndRenderPass
                &&& commands[end + 1] == transient_barrier(self.frame_of(t).image.raw)
                &&& commands[begin] == self.begin_of(window, image_index, b)
            }),
    {
        let d = self.decl();
        let i = choose|i: int|
            0 <= i < d.binds.len() && (#[trigger] d.binds[i]).frame == t && d.consumes(
                b,
                d.binds[i].set,
            );
        assert(!d.bind_misordered(i));
        assert(d.produces(a, d.binds[i].frame) && d.consumes(b, d.binds[i].set));
        assert(a < b);
        let n = recordings.len() as int;
        let ra = recordings[a];
        let rb = recordings[b];
        assert(self.records_pass(ra, window, image_index, a));
        assert(self.records_pass(rb, window, image_index, b));
        assert(self.target_frame(a) == Some(self.frame_of(t)));
        let len_a = ra.commands@.len() as int;
        lemma_stream_position(recordings, n, a, len_a - 3);
        lemma_stream_position(recordings, n, a, len_a - 2);
        lemma_stream_position(recordings, n, b, 1);
        lemma_offsets_grow(recordings, a + 1, b);
    }

    /// Frames drawn to the same swapchain image record each pass into the
    /// same command buffer: the one compiled for that image and pass.
    pub proof fn lemma_buffer_identity(
        &self,
        first: Seq<PassRecording>,
        first_window: &WindowManager,
        second: Seq<PassRecording>,
        second_window: &WindowManager,
        image_index: int,
        j: int,
    )
        requires
            self.records_frame(first, first_window, image_index),
            self.records_frame(second, second_window, image_index),
            0 <= j < self.decl().passes.len(),
        ensures
            first[j].cmd == second[j].cmd,
            first[j].cmd == self.buffers()[image_index][j],
    {
        assert(self.records_pass(first[j], first_window, image_index, j));
        assert(self.records_pass(second[j], second_window, image_index, j));
    }

    /// Every edge of a compiled graph has its descriptor update: binding
    /// `b` of set `s` is a combined image sampler that reads the colour view
    /// of transient `t` in the layout for shader reads, and both `s` and `t`
    /// are of the graph.
    pub proof fn lemma_bind_consistency(&self, i: int)
        requires
            self.wf(),
            0 <= i < self.decl().binds.len(),
        ensures
            self.writes().len() == self.decl().binds.len(),
            self.decl().transient_keys.contains(self.decl().binds[i].frame.key),
            self.decl().set_keys.contains(self.decl().binds[i].set.key),
            self.writes()[i].set == self.set_of(self.decl().binds[i].set),
            self.writes()[i].binding == self.decl().binds[i].bind,
            self.writes()[i].ty == DescriptorType::CombinedImageSampler,
            self.writes()[i].layout == ImageLayout::ShaderReadOnlyOptimal,
            self.writes()[i].view == self.frame_of(self.decl().binds[i].frame).image_view,
            self.writes()[i].sampler == self.frame_of(self.decl().binds[i].frame).sampler,
    {
        assert(!self.decl().bind_dangling(i));
    }
}

/// The offset of a recording is at most the offset of a later one.
pub proof fn lemma_offsets_grow(recordings: Seq<PassRecording>, j: int, n: int)
    requires
        0 <= j <= n <= recordings.len(),
    ensures
        offset_of(recordings, j) <= offset_of(recordings, n),
    decreases n - j,
{
    if j < n {
        lemma_offsets_grow(recordings, j, n - 1);
    }
}

} // verus!
