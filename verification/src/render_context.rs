//! The swapchain side of rendering: the per-image objects, the per-slot
//! synchronisation triples, and the protocol that paces frames so that a
//! slot is reused only after the host has seen its fence signalled.

use crate::queue_pool::QueuePool;
use crate::types::{
    Extent2D, Fence, Format, FrameBuffer, Image, ImageView, RenderPass, Semaphore, Swapchain,
};
use vstd::prelude::*;

verus! {

/// What the host knows of a slot's fence.
#[derive(Clone, Copy, Debug, PartialEq, Eq, Structural)]
pub enum FenceState {
    /// Signalled: no submission uses the slot.
    Signaled,
    /// Reset by the host and not yet handed to a submission.
    Unsignaled,
    /// Handed to a submission that the host has not yet seen complete.
    Pending,
}

/// The synchronisation objects of one frame slot.
#[derive(Clone, Copy, Debug, PartialEq, Eq, Structural)]
pub struct FrameSync {
    pub image_available: Semaphore,
    pub render_finished: Semaphore,
    pub in_flight_fence: Fence,
    pub state: FenceState,
}

impl FrameSync {
    /// The triple of a slot that has not been used; its fence was created
    /// signalled.
    pub fn new(image_available: Semaphore, render_finished: Semaphore, in_flight_fence: Fence) -> (r:
        FrameSync)
        ensures
            r == (FrameSync {
                image_available,
                render_finished,
                in_flight_fence,
                state: FenceState::Signaled,
            }),
    {
        FrameSync { image_available, render_finished, in_flight_fence, state: FenceState::Signaled }
    }
}

/// How a frame ended.
#[derive(Clone, Copy, Debug, PartialEq, Eq, Structural)]
pub enum FrameStatus {
    /// The image was presented.
    Presented,
    /// The swapchain no longer fits the surface; resize and try again.
    NeedsRecreate,
    /// The device is lost; tear down and start over.
    DeviceLost,
    /// A wait exceeded its bound.
    Timeout,
}

/// How the wait on a slot's fence ended.
#[derive(Clone, Copy, Debug, PartialEq, Eq, Structural)]
pub enum WaitOutcome {
    Signaled,
    Timeout,
    DeviceLost,
}

/// How acquiring the next swapchain image ended.
#[derive(Clone, Copy, Debug, PartialEq, Eq, Structural)]
pub enum AcquireOutcome {
    Image(u32),
    OutOfDate,
    Suboptimal,
    Timeout,
    DeviceLost,
}

/// How the queue submission ended.
#[derive(Clone, Copy, Debug, PartialEq, Eq, Structural)]
pub enum SubmitOutcome {
    Done,
    DeviceLost,
}

/// How presenting ended.
#[derive(Clone, Copy, Debug, PartialEq, Eq, Structural)]
pub enum PresentOutcome {
    Done,
    OutOfDate,
    Suboptimal,
    DeviceLost,
}

/// What happened since the last step of a frame.
#[derive(Clone, Copy, Debug, PartialEq, Eq, Structural)]
pub enum FrameEvent {
    /// A frame is to be drawn.
    Begin,
    FenceWaited(WaitOutcome),
    Acquired(AcquireOutcome),
    Submitted(SubmitOutcome),
    Presented(PresentOutcome),
}

/// Where a frame stands.
#[derive(Clone, Copy, Debug, PartialEq, Eq, Structural)]
pub enum FramePhase {
    /// Between frames.
    Idle,
    /// The host waits on the slot's fence.
    AwaitFence,
    /// The host waits for the next image.
    AwaitImage,
    /// The frame is recorded for this image and about to be submitted.
    AwaitSubmit { image_index: u32 },
    /// The frame is submitted and about to be presented.
    AwaitPresent { image_index: u32 },
}

/// What the pacing protocol asks for next.
#[derive(Clone, Copy, Debug, PartialEq, Eq, Structural)]
pub enum Paced {
    /// Wait on the fence, without bound.
    Wait { fence: Fence },
    /// Reset the fence, if one is given, then acquire the next image with
    /// the semaphore as the one to signal, without bound.
    Acquire { reset: Option<Fence>, semaphore: Semaphore },
    /// Record the frame for this image and submit it: wait on
    /// `wait` at colour attachment output, signal `signal`, and hand `fence`
    /// to the submission.
    Record { image_index: u32, wait: Semaphore, signal: Semaphore, fence: Fence },
    /// Present the image once `wait` is signalled.
    Present { image_index: u32, wait: Semaphore, swapchain: Swapchain },
    /// The frame is over.
    Done(FrameStatus),
}

/// The pacing state of a swapchain: what the host knows of each slot's
/// fence, the number of frames drawn, and where the current frame stands.
pub struct Pacing {
    pub fences: Seq<FenceState>,
    pub frame: int,
    pub phase: FramePhase,
}

impl Pacing {
    /// The slot of the current frame.
    pub open spec fn slot(self) -> int {
        self.frame % (self.fences.len() as int)
    }

    /// Well-formedness: there is a slot; a frame that is past its wait holds
    /// a fence that the host has reset; a frame that is submitted holds a
    /// pending fence; and an acquired image is one of the swapchain's.
    pub open spec fn wf(self) -> bool {
        &&& self.fences.len() > 0
        &&& self.frame >= 0
        &&& match self.phase {
            FramePhase::Idle => true,
            FramePhase::AwaitFence => self.fences[self.slot()] != FenceState::Unsignaled,
            FramePhase::AwaitImage => self.fences[self.slot()] == FenceState::Unsignaled,
            FramePhase::AwaitSubmit { image_index } => self.fences[self.slot()]
                == FenceState::Unsignaled && image_index < self.fences.len(),
            FramePhase::AwaitPresent { image_index } => self.fences[self.slot()]
                == FenceState::Pending && image_index < self.fences.len(),
        }
    }

    /// Whether `event` is what the current phase waits for.
    pub open spec fn accepts(self, event: FrameEvent) -> bool {
        match (self.phase, event) {
            (FramePhase::Idle, FrameEvent::Begin) => true,
            (FramePhase::AwaitFence, FrameEvent::FenceWaited(_)) => true,
            (FramePhase::AwaitImage, FrameEvent::Acquired(outcome)) => match outcome {
                AcquireOutcome::Image(i) => i < self.fences.len(),
                _ => true,
            },
            (FramePhase::AwaitSubmit { .. }, FrameEvent::Submitted(_)) => true,
            (FramePhase::AwaitPresent { .. }, FrameEvent::Presented(_)) => true,
            _ => false,
        }
    }

    /// The state with the fence of the current slot in state `to`.
    pub open spec fn with_fence(self, to: FenceState) -> Pacing {
        Pacing { fences: self.fences.update(self.slot(), to), ..self }
    }

    /// The state in phase `to`.
    pub open spec fn in_phase(self, to: FramePhase) -> Pacing {
        Pacing { phase: to, ..self }
    }

    /// The state after `event`.
    ///
    /// A frame begins with the wait on its slot's fence, unless the host
    /// holds the fence reset from a frame that ended before it submitted;
    /// then the frame goes on to acquire at once. A fence seen signalled is
    /// reset. An acquired image leads to recording and submission, which
    /// makes the fence pending; presenting, whatever it reports short of a
    /// lost device, ends the frame and moves on to the next slot. Every
    /// other outcome ends the frame where it stands.
    pub open spec fn step(self, event: FrameEvent) -> Pacing {
        match event {
            FrameEvent::Begin => if self.fences[self.slot()] == FenceState::Unsignaled {
                self.in_phase(FramePhase::AwaitImage)
            } else {
                self.in_phase(FramePhase::AwaitFence)
            },
            FrameEvent::FenceWaited(outcome) => match outcome {
                WaitOutcome::Signaled => self.with_fence(FenceState::Unsignaled).in_phase(
                    FramePhase::AwaitImage,
                ),
                _ => self.in_phase(FramePhase::Idle),
            },
            FrameEvent::Acquired(outcome) => match outcome {
                AcquireOutcome::Image(image_index) => self.in_phase(
                    FramePhase::AwaitSubmit { image_index },
                ),
                _ => self.in_phase(FramePhase::Idle),
            },
            FrameEvent::Submitted(outcome) => match outcome {
                SubmitOutcome::Done => self.with_fence(FenceState::Pending).in_phase(
                    FramePhase::AwaitPresent { image_index: self.phase->AwaitSubmit_image_index },
                ),
                SubmitOutcome::DeviceLost => self.in_phase(FramePhase::Idle),
            },
            FrameEvent::Presented(outcome) => match outcome {
                PresentOutcome::DeviceLost => self.in_phase(FramePhase::Idle),
                _ => Pacing { frame: self.frame + 1, ..self.in_phase(FramePhase::Idle) },
            },
        }
    }

    /// How the frame ends with `event`, if it does.
    pub open spec fn status(self, event: FrameEvent) -> Option<FrameStatus> {
        match event {
            FrameEvent::Begin => None,
            FrameEvent::FenceWaited(outcome) => match outcome {
                WaitOutcome::Signaled => None,
                WaitOutcome::Timeout => Some(FrameStatus::Timeout),
                WaitOutcome::DeviceLost => Some(FrameStatus::DeviceLost),
            },
            FrameEvent::Acquired(outcome) => match outcome {
                AcquireOutcome::Image(_) => None,
                AcquireOutcome::OutOfDate => Some(FrameStatus::NeedsRecreate),
                AcquireOutcome::Suboptimal => Some(FrameStatus::NeedsRecreate),
                AcquireOutcome::Timeout => Some(FrameStatus::Timeout),
                AcquireOutcome::DeviceLost => Some(FrameStatus::DeviceLost),
            },
            FrameEvent::Submitted(outcome) => match outcome {
                SubmitOutcome::Done => None,
                SubmitOutcome::DeviceLost => Some(FrameStatus::DeviceLost),
            },
            FrameEvent::Presented(outcome) => match outcome {
                PresentOutcome::Done => Some(FrameStatus::Presented),
                PresentOutcome::OutOfDate => Some(FrameStatus::NeedsRecreate),
                PresentOutcome::Suboptimal => Some(FrameStatus::NeedsRecreate),
                PresentOutcome::DeviceLost => Some(FrameStatus::DeviceLost),
            },
        }
    }

    /// The number of slots whose fence is pending: the frames in flight.
    pub open spec fn in_flight(self) -> nat {
        self.fences.filter(|s: FenceState| s == FenceState::Pending).len()
    }

    /// Whether `event` hands the fence of the current slot to a submission.
    pub open spec fn submits(self, event: FrameEvent) -> bool {
        self.phase is AwaitSubmit && event == FrameEvent::Submitted(SubmitOutcome::Done)
    }

    /// Whether `event` is the host seeing the fence of the current slot
    /// signalled.
    pub open spec fn observes_signal(self, event: FrameEvent) -> bool {
        self.phase is AwaitFence && event == FrameEvent::FenceWaited(WaitOutcome::Signaled)
    }
}

/// The swapchain and what hangs on it: per image a colour view and a
/// framebuffer, the shared depth image and view, per slot a synchronisation
/// triple, and the count of frames drawn.
pub struct WindowManager {
    resolution: Extent2D,
    color_format: Format,
    depth_format: Format,
    frame_sync: Vec<FrameSync>,
    frame_buffers: Vec<FrameBuffer>,
    image_views: Vec<ImageView>,
    current_frame: u64,
    depth_image: Image,
    depth_view: ImageView,
    render_pass: RenderPass,
    transient_pass: RenderPass,
    swapchain: Swapchain,
    phase: FramePhase,
}

/// The objects that depend on the swapchain's extent, as they are handed
/// over when the swapchain is created or rebuilt.
#[derive(Clone, Debug, PartialEq, Eq)]
pub struct SwapchainParts {
    pub resolution: Extent2D,
    pub swapchain: Swapchain,
    pub image_views: Vec<ImageView>,
    pub depth_image: Image,
    pub depth_view: ImageView,
    pub frame_buffers: Vec<FrameBuffer>,
}

impl WindowManager {
    /// The synchronisation triples, by slot.
    pub closed spec fn syncs(&self) -> Seq<FrameSync> {
        self.frame_sync@
    }

    /// The framebuffers, by image index.
    pub closed spec fn framebuffers(&self) -> Seq<FrameBuffer> {
        self.frame_buffers@
    }

    /// The colour views, by image index.
    pub closed spec fn views(&self) -> Seq<ImageView> {
        self.image_views@
    }

    /// The resolution of the swapchain images.
    pub closed spec fn extent(&self) -> Extent2D {
        self.resolution
    }

    /// The swapchain.
    pub closed spec fn chain(&self) -> Swapchain {
        self.swapchain
    }

    /// The render pass of passes that render into the swapchain; it leaves
    /// the colour attachment ready to present.
    pub closed spec fn pass(&self) -> RenderPass {
        self.render_pass
    }

    /// The render pass of passes that render into a transient; it is
    /// compatible with the other and leaves the colour attachment in the
    /// attachment layout.
    pub closed spec fn offscreen_pass(&self) -> RenderPass {
        self.transient_pass
    }

    /// The shared depth image and its view.
    pub closed spec fn depth(&self) -> (Image, ImageView) {
        (self.depth_image, self.depth_view)
    }

    /// The colour format and the depth format.
    pub closed spec fn formats(&self) -> (Format, Format) {
        (self.color_format, self.depth_format)
    }

    /// The pacing state.
    pub closed spec fn pacing(&self) -> Pacing {
        Pacing {
            fences: Seq::new(self.frame_sync@.len(), |i: int| self.frame_sync@[i].state),
            frame: self.current_frame as int,
            phase: self.phase,
        }
    }

    /// The number of frames drawn is below the limit of its counter.
    pub open spec fn can_count(&self) -> bool {
        self.pacing().frame < u64::MAX
    }

    /// Well-formedness: as many views, framebuffers and slots as the
    /// swapchain has images, and a well-formed pacing state.
    pub open spec fn wf(&self) -> bool {
        &&& self.views().len() == self.syncs().len()
        &&& self.framebuffers().len() == self.syncs().len()
        &&& self.pacing().fences.len() == self.syncs().len()
        &&& forall|i: int|
            0 <= i < self.syncs().len() ==> #[trigger] self.pacing().fences[i]
                == self.syncs()[i].state
        &&& self.pacing().wf()
    }

    /// The synchronisation triple of the current slot.
    pub open spec fn current_sync(&self) -> FrameSync {
        self.syncs()[self.pacing().slot()]
    }

    /// What the protocol asks for after `event`.
    pub open spec fn asks(&self, event: FrameEvent) -> Paced {
        let sync = self.current_sync();
        match self.pacing().status(event) {
            Some(status) => Paced::Done(status),
            None => match event {
                FrameEvent::Begin => if sync.state == FenceState::Unsignaled {
                    Paced::Acquire { reset: None, semaphore: sync.image_available }
                } else {
                    Paced::Wait { fence: sync.in_flight_fence }
                },
                FrameEvent::FenceWaited(_) => Paced::Acquire {
                    reset: Some(sync.in_flight_fence),
                    semaphore: sync.image_available,
                },
                FrameEvent::Acquired(outcome) => Paced::Record {
                    image_index: outcome->Image_0,
                    wait: sync.image_available,
                    signal: sync.render_finished,
                    fence: sync.in_flight_fence,
                },
                FrameEvent::Submitted(_) => Paced::Present {
                    image_index: self.pacing().phase->AwaitSubmit_image_index,
                    wait: sync.render_finished,
                    swapchain: self.chain(),
                },
                FrameEvent::Presented(_) => Paced::Done(FrameStatus::Presented),
            },
        }
    }

    /// Whether `later` is this swapchain with only its pacing state changed.
    pub open spec fn same_objects(&self, later: &WindowManager) -> bool {
        &&& later.views() == self.views()
        &&& later.framebuffers() == self.framebuffers()
        &&& later.extent() == self.extent()
        &&& later.chain() == self.chain()
        &&& later.pass() == self.pass()
        &&& later.offscreen_pass() == self.offscreen_pass()
        &&& later.depth() == self.depth()
        &&& later.formats() == self.formats()
        &&& later.syncs().len() == self.syncs().len()
        &&& forall|i: int|
            0 <= i < self.syncs().len() ==> {
                &&& (#[trigger] later.syncs()[i]).image_available == self.syncs()[i].image_available
                &&& later.syncs()[i].render_finished == self.syncs()[i].render_finished
                &&& later.syncs()[i].in_flight_fence == self.syncs()[i].in_flight_fence
            }
    }

    /// A swapchain of the given parts that has drawn no frame. There is none
    /// unless there is at least one image and one view, one framebuffer and
    /// one slot per image.
    pub fn new(
        color_format: Format,
        depth_format: Format,
        render_pass: RenderPass,
        transient_pass: RenderPass,
        parts: SwapchainParts,
        frame_sync: Vec<FrameSync>,
    ) -> (r: Option<WindowManager>)
        ensures
            r is Some <==> frame_sync@.len() > 0 && parts.image_views@.len() == frame_sync@.len()
                && parts.frame_buffers@.len() == frame_sync@.len(),
            r matches Some(w) ==> w.wf() && w.syncs() == frame_sync@ && w.views()
                == parts.image_views@ && w.framebuffers() == parts.frame_buffers@ && w.extent()
                == parts.resolution && w.chain() == parts.swapchain && w.pass() == render_pass
                && w.offscreen_pass() == transient_pass
                && w.depth() == (parts.depth_image, parts.depth_view) && w.formats() == (
                color_format,
                depth_format,
            ) && w.pacing().frame == 0 && w.pacing().phase == FramePhase::Idle && w.can_count(),
    {
        let n = frame_sync.len();
        if n == 0 || parts.image_views.len() != n || parts.frame_buffers.len() != n {
            return None;
        }
        Some(
            WindowManager {
                resolution: parts.resolution,
                color_format,
                depth_format,
                frame_sync,
                frame_buffers: parts.frame_buffers,
                image_views: parts.image_views,
                current_frame: 0,
                depth_image: parts.depth_image,
                depth_view: parts.depth_view,
                render_pass,
                transient_pass,
                swapchain: parts.swapchain,
                phase: FramePhase::Idle,
            },
        )
    }

    /// The number of swapchain images, which is the number of frame slots.
    pub fn image_count(&self) -> (n: usize)
        ensures
            n == self.syncs().len(),
    {
        self.frame_sync.len()
    }

    /// The resolution of the swapchain images.
    pub fn resolution(&self) -> (r: Extent2D)
        ensures
            r == self.extent(),
    {
        self.resolution
    }

    /// The framebuffer of an image.
    pub fn frame_buffer(&self, image_index: usize) -> (r: FrameBuffer)
        requires
            image_index < self.framebuffers().len(),
        ensures
            r == self.framebuffers()[image_index as int],
    {
        self.frame_buffers[image_index]
    }

    /// The colour view of an image.
    pub fn image_view(&self, image_index: usize) -> (r: ImageView)
        requires
            image_index < self.views().len(),
        ensures
            r == self.views()[image_index as int],
    {
        self.image_views[image_index]
    }

    /// The synchronisation triple of a slot.
    pub fn frame_sync(&self, slot: usize) -> (r: FrameSync)
        requires
            slot < self.syncs().len(),
        ensures
            r == self.syncs()[slot as int],
    {
        self.frame_sync[slot]
    }

    /// The shared depth view.
    pub fn depth_view(&self) -> (r: ImageView)
        ensures
            r == self.depth().1,
    {
        self.depth_view
    }

    /// The shared depth image.
    pub fn depth_image(&self) -> (r: Image)
        ensures
            r == self.depth().0,
    {
        self.depth_image
    }

    /// The render pass of passes that render into the swapchain.
    pub fn render_pass(&self) -> (r: RenderPass)
        ensures
            r == self.pass(),
    {
        self.render_pass
    }

    /// The render pass of passes that render into a transient.
    pub fn transient_pass(&self) -> (r: RenderPass)
        ensures
            r == self.offscreen_pass(),
    {
        self.transient_pass
    }

    /// The swapchain.
    pub fn swapchain(&self) -> (r: Swapchain)
        ensures
            r == self.chain(),
    {
        self.swapchain
    }

    /// The number of frames drawn.
    pub fn current_frame(&self) -> (r: u64)
        ensures
            r == self.pacing().frame,
    {
        self.current_frame
    }

    /// Where the current frame stands.
    pub fn phase(&self) -> (r: FramePhase)
        ensures
            r == self.pacing().phase,
    {
        self.phase
    }

    /// The slot of the current frame.
    pub fn slot(&self) -> (r: usize)
        requires
            self.wf(),
        ensures
            r == self.pacing().slot(),
            r < self.syncs().len(),
    {
        let n = self.frame_sync.len() as u64;
        (self.current_frame % n) as usize
    }

    /// The number of frames in flight: the slots whose fence was handed to a
    /// submission that the host has not yet seen complete.
    pub fn frames_in_flight(&self) -> (n: usize)
        requires
            self.wf(),
        ensures
            n == self.pacing().in_flight(),
            n <= self.syncs().len(),
    {
        let ghost fences = self.pacing().fences;
        let ghost pending = |s: FenceState| s == FenceState::Pending;
        let mut count: usize = 0;
        let mut i: usize = 0;
        while i < self.frame_sync.len()
            invariant
                self.wf(),
                fences == self.pacing().fences,
                pending == |s: FenceState| s == FenceState::Pending,
                i <= self.frame_sync@.len(),
                fences.len() == self.frame_sync@.len(),
                count == fences.take(i as int).filter(pending).len(),
                count <= i,
            decreases self.frame_sync@.len() - i,
        {
            proof {
                assert(fences.take(i + 1).drop_last() == fences.take(i as int));
                assert(fences.take(i + 1).last() == self.frame_sync@[i as int].state);
                reveal(Seq::filter);
            }
            if self.frame_sync[i].state == FenceState::Pending {
                count += 1;
            }
            i += 1;
        }
        assert(fences.take(i as int) == fences);
        count
    }

    /// Whether `event` can be handed to `advance`: the current phase waits
    /// for it, and the frame counter has room where the event ends a frame.
    pub fn expects(&self, event: FrameEvent) -> (r: bool)
        requires
            self.wf(),
        ensures
            r == (self.pacing().accepts(event) && self.can_count()),
    {
        if self.current_frame == u64::MAX {
            return false;
        }
        match (self.phase, event) {
            (FramePhase::Idle, FrameEvent::Begin) => true,
            (FramePhase::AwaitFence, FrameEvent::FenceWaited(_)) => true,
            (FramePhase::AwaitImage, FrameEvent::Acquired(outcome)) => match outcome {
                AcquireOutcome::Image(i) => (i as usize) < self.frame_sync.len(),
                _ => true,
            },
            (FramePhase::AwaitSubmit { .. }, FrameEvent::Submitted(_)) => true,
            (FramePhase::AwaitPresent { .. }, FrameEvent::Presented(_)) => true,
            _ => false,
        }
    }

    /// Sets what the host knows of the fence of `slot`.
    fn mark(&mut self, slot: usize, state: FenceState)
        requires
            slot < old(self).syncs().len(),
        ensures
            old(self).same_objects(final(self)),
            final(self).pacing() == (Pacing {
                fences: old(self).pacing().fences.update(slot as int, state),
                ..old(self).pacing()
            }),
            final(self).can_count() == old(self).can_count(),
            final(self).syncs()[slot as int].state == state,
            forall|i: int|
                0 <= i < old(self).syncs().len() && i != slot ==> final(self).syncs()[i]
                    == old(self).syncs()[i],
    {
        let mut sync = self.frame_sync[slot];
        sync.state = state;
        self.frame_sync.set(slot, sync);
        assert(self.pacing().fences =~= old(self).pacing().fences.update(slot as int, state));
    }

    /// Takes the protocol one step: hands it what happened and returns what
    /// it asks for next.
    pub fn advance(&mut self, event: FrameEvent) -> (r: Paced)
        requires
            old(self).wf(),
            old(self).pacing().accepts(event),
            old(self).can_count(),
        ensures
            final(self).wf(),
            final(self).pacing() == old(self).pacing().step(event),
            old(self).same_objects(final(self)),
            r == old(self).asks(event),
    {
        let slot = self.slot();
        let sync = self.frame_sync[slot];
        proof {
            lemma_step_keeps_wf(old(self).pacing(), event);
        }
        match event {
            FrameEvent::Begin => {
                if sync.state == FenceState::Unsignaled {
                    self.phase = FramePhase::AwaitImage;
                    Paced::Acquire { reset: None, semaphore: sync.image_available }
                } else {
                    self.phase = FramePhase::AwaitFence;
                    Paced::Wait { fence: sync.in_flight_fence }
                }
            },
            FrameEvent::FenceWaited(outcome) => match outcome {
                WaitOutcome::Signaled => {
                    self.mark(slot, FenceState::Unsignaled);
                    self.phase = FramePhase::AwaitImage;
                    Paced::Acquire {
                        reset: Some(sync.in_flight_fence),
                        semaphore: sync.image_available,
                    }
                },
                WaitOutcome::Timeout => {
                    self.phase = FramePhase::Idle;
                    Paced::Done(FrameStatus::Timeout)
                },
                WaitOutcome::DeviceLost => {
                    self.phase = FramePhase::Idle;
                    Paced::Done(FrameStatus::DeviceLost)
                },
            },
            FrameEvent::Acquired(outcome) => match outcome {
                AcquireOutcome::Image(image_index) => {
                    self.phase = FramePhase::AwaitSubmit { image_index };
                    Paced::Record {
                        image_index,
                        wait: sync.image_available,
                        signal: sync.render_finished,
                        fence: sync.in_flight_fence,
                    }
                },
                AcquireOutcome::OutOfDate => {
                    self.phase = FramePhase::Idle;
                    Paced::Done(FrameStatus::NeedsRecreate)
                },
                AcquireOutcome::Suboptimal => {
                    self.phase = FramePhase::Idle;
                    Paced::Done(FrameStatus::NeedsRecreate)
                },
                AcquireOutcome::Timeout => {
                    self.phase = FramePhase::Idle;
                    Paced::Done(FrameStatus::Timeout)
                },
                AcquireOutcome::DeviceLost => {
                    self.phase = FramePhase::Idle;
                    Paced::Done(FrameStatus::DeviceLost)
                },
            },
            FrameEvent::Submitted(outcome) => {
                let image_index = match self.phase {
                    FramePhase::AwaitSubmit { image_index } => image_index,
                    _ => 0,
                };
                match outcome {
                    SubmitOutcome::Done => {
                        self.mark(slot, FenceState::Pending);
                        self.phase = FramePhase::AwaitPresent { image_index };
                        Paced::Present {
                            image_index,
                            wait: sync.render_finished,
                            swapchain: self.swapchain,
                        }
                    },
                    SubmitOutcome::DeviceLost => {
                        self.phase = FramePhase::Idle;
                        Paced::Done(FrameStatus::DeviceLost)
                    },
                }
            },
            FrameEvent::Presented(outcome) => {
                self.phase = FramePhase::Idle;
                match outcome {
                    PresentOutcome::Done => {
                        self.current_frame = self.current_frame + 1;
                        Paced::Done(FrameStatus::Presented)
                    },
                    PresentOutcome::OutOfDate => {
                        self.current_frame = self.current_frame + 1;
                        Paced::Done(FrameStatus::NeedsRecreate)
                    },
                    PresentOutcome::Suboptimal => {
                        self.current_frame = self.current_frame + 1;
                        Paced::Done(FrameStatus::NeedsRecreate)
                    },
                    PresentOutcome::DeviceLost => Paced::Done(FrameStatus::DeviceLost),
                }
            },
        }
    }
}

/// One step of rebuilding the swapchain for a new extent.
#[derive(Clone, Copy, Debug, PartialEq, Eq, Structural)]
pub enum ResizeStep {
    /// Wait until the device has finished all work.
    DeviceWaitIdle,
    /// Destroy a framebuffer of the old swapchain.
    DestroyFrameBuffer(FrameBuffer),
    /// Destroy a colour view of the old swapchain, or the old depth view.
    DestroyImageView(ImageView),
    /// Destroy the old depth image.
    DestroyImage(Image),
    /// Create the new swapchain, naming the current one as the one it
    /// replaces.
    CreateSwapchain { old: Swapchain },
    /// Destroy the swapchain that was replaced.
    DestroySwapchain(Swapchain),
    /// Create the colour views, the depth image and view, and the
    /// framebuffers at the new extent.
    CreateSwapchainParts,
    /// Rebuild the transients of the graph at the new extent.
    RebuildTransients,
    /// Write the descriptors of the graph anew.
    RefreshDescriptorWrites,
}

impl WindowManager {
    /// The steps of rebuilding the swapchain, in order. The synchronisation
    /// triples and the command pool are not touched.
    pub open spec fn resize_steps(&self) -> Seq<ResizeStep> {
        seq![ResizeStep::DeviceWaitIdle] + Seq::new(
            self.framebuffers().len(),
            |i: int| ResizeStep::DestroyFrameBuffer(self.framebuffers()[i]),
        ) + Seq::new(self.views().len(), |i: int| ResizeStep::DestroyImageView(self.views()[i]))
            + seq![
            ResizeStep::DestroyImageView(self.depth().1),
            ResizeStep::DestroyImage(self.depth().0),
            ResizeStep::CreateSwapchain { old: self.chain() },
            ResizeStep::DestroySwapchain(self.chain()),
            ResizeStep::CreateSwapchainParts,
            ResizeStep::RebuildTransients,
            ResizeStep::RefreshDescriptorWrites,
        ]
    }

    /// The steps of rebuilding the swapchain, in order.
    pub fn resize_plan(&self) -> (r: Vec<ResizeStep>)
        ensures
            r@ == self.resize_steps(),
    {
        let mut steps: Vec<ResizeStep> = Vec::new();
        steps.push(ResizeStep::DeviceWaitIdle);
        let ghost head = steps@;
        let mut i: usize = 0;
        while i < self.frame_buffers.len()
            invariant
                i <= self.frame_buffers@.len(),
                steps@ == head + Seq::new(
                    i as nat,
                    |k: int| ResizeStep::DestroyFrameBuffer(self.framebuffers()[k]),
                ),
            decreases self.frame_buffers@.len() - i,
        {
            steps.push(ResizeStep::DestroyFrameBuffer(self.frame_buffers[i]));
            i += 1;
            assert(steps@ =~= head + Seq::new(
                i as nat,
                |k: int| ResizeStep::DestroyFrameBuffer(self.framebuffers()[k]),
            ));
        }
        let ghost middle = steps@;
        let mut i: usize = 0;
        while i < self.image_views.len()
            invariant
                i <= self.image_views@.len(),
                steps@ == middle + Seq::new(
                    i as nat,
                    |k: int| ResizeStep::DestroyImageView(self.views()[k]),
                ),
            decreases self.image_views@.len() - i,
        {
            steps.push(ResizeStep::DestroyImageView(self.image_views[i]));
            i += 1;
            assert(steps@ =~= middle + Seq::new(
                i as nat,
                |k: int| ResizeStep::DestroyImageView(self.views()[k]),
            ));
        }
        steps.push(ResizeStep::DestroyImageView(self.depth_view));
        steps.push(ResizeStep::DestroyImage(self.depth_image));
        steps.push(ResizeStep::CreateSwapchain { old: self.swapchain });
        steps.push(ResizeStep::DestroySwapchain(self.swapchain));
        steps.push(ResizeStep::CreateSwapchainParts);
        steps.push(ResizeStep::RebuildTransients);
        steps.push(ResizeStep::RefreshDescriptorWrites);
        assert(steps@ =~= self.resize_steps());
        steps
    }

    /// Whether `parts` can take the place of the swapchain's parts: no frame
    /// is under way, and there is one view and one framebuffer per slot.
    pub open spec fn takes(&self, parts: &SwapchainParts) -> bool {
        &&& self.pacing().phase == FramePhase::Idle
        &&& parts.image_views@.len() == self.syncs().len()
        &&& parts.frame_buffers@.len() == self.syncs().len()
    }

    /// Whether `parts` can take the place of the swapchain's parts.
    pub fn accepts_parts(&self, parts: &SwapchainParts) -> (r: bool)
        ensures
            r == self.takes(parts),
    {
        self.phase == FramePhase::Idle && parts.image_views.len() == self.frame_sync.len()
            && parts.frame_buffers.len() == self.frame_sync.len()
    }

    /// Installs the parts of the rebuilt swapchain. The slots keep their
    /// semaphores and fences and the frame count stays; since the device was
    /// idle when the swapchain was rebuilt, a fence that was pending is now
    /// known to be signalled.
    pub fn resize(&mut self, parts: SwapchainParts)
        requires
            old(self).wf(),
            old(self).takes(&parts),
        ensures
            final(self).wf(),
            final(self).extent() == parts.resolution,
            final(self).chain() == parts.swapchain,
            final(self).views() == parts.image_views@,
            final(self).framebuffers() == parts.frame_buffers@,
            final(self).depth() == (parts.depth_image, parts.depth_view),
            final(self).pass() == old(self).pass(),
            final(self).offscreen_pass() == old(self).offscreen_pass(),
            final(self).formats() == old(self).formats(),
            final(self).can_count() == old(self).can_count(),
            final(self).pacing().frame == old(self).pacing().frame,
            final(self).pacing().phase == FramePhase::Idle,
            final(self).syncs().len() == old(self).syncs().len(),
            forall|i: int|
                0 <= i < old(self).syncs().len() ==> (#[trigger] final(self).syncs()[i]) == (
                FrameSync {
                    state: if old(self).syncs()[i].state == FenceState::Pending {
                        FenceState::Signaled
                    } else {
                        old(self).syncs()[i].state
                    },
                    ..old(self).syncs()[i]
                }),
    {
        let n = self.frame_sync.len();
        let mut i: usize = 0;
        while i < n
            invariant
                n == self.frame_sync@.len(),
                n == old(self).frame_sync@.len(),
                i <= n,
                self.current_frame == old(self).current_frame,
                self.phase == old(self).phase,
                self.render_pass == old(self).render_pass,
                self.transient_pass == old(self).transient_pass,
                self.color_format == old(self).color_format,
                self.depth_format == old(self).depth_format,
                forall|k: int|
                    0 <= k < i ==> (#[trigger] self.frame_sync@[k]) == (FrameSync {
                        state: if old(self).frame_sync@[k].state == FenceState::Pending {
                            FenceState::Signaled
                        } else {
                            old(self).frame_sync@[k].state
                        },
                        ..old(self).frame_sync@[k]
                    }),
                forall|k: int| i <= k < n ==> self.frame_sync@[k] == old(self).frame_sync@[k],
            decreases n - i,
        {
            let sync = self.frame_sync[i];
            if sync.state == FenceState::Pending {
                self.frame_sync.set(i, FrameSync { state: FenceState::Signaled, ..sync });
            }
            i += 1;
        }
        self.resolution = parts.resolution;
        self.swapchain = parts.swapchain;
        self.image_views = parts.image_views;
        self.frame_buffers = parts.frame_buffers;
        self.depth_image = parts.depth_image;
        self.depth_view = parts.depth_view;
    }
}

/// A step that the pacing state accepts leaves it well-formed.
pub proof fn lemma_step_keeps_wf(pre: Pacing, event: FrameEvent)
    requires
        pre.wf(),
        pre.accepts(event),
    ensures
        pre.step(event).wf(),
        pre.step(event).fences.len() == pre.fences.len(),
{
    let post = pre.step(event);
    assert(0 <= pre.slot() < pre.fences.len()) by (nonlinear_arith)
        requires
            pre.frame >= 0,
            pre.fences.len() > 0,
            pre.slot() == pre.frame % (pre.fences.len() as int),
    ;
    if post.frame == pre.frame + 1 {
        assert(0 <= post.slot() < post.fences.len()) by (nonlinear_arith)
            requires
                post.frame >= 0,
                post.fences.len() > 0,
                post.slot() == post.frame % (post.fences.len() as int),
        ;
    }
}

/// The state after a sequence of events, each taken from the state the ones
/// before it led to.
pub open spec fn run(start: Pacing, events: Seq<FrameEvent>) -> Pacing
    decreases events.len(),
{
    if events.len() == 0 {
        start
    } else {
        run(start, events.drop_last()).step(events.last())
    }
}

/// Whether every event of the sequence is accepted by the state the ones
/// before it led to.
pub open spec fn accepted(start: Pacing, events: Seq<FrameEvent>) -> bool {
    forall|n: int|
        0 <= n < events.len() ==> (#[trigger] run(start, events.take(n))).accepts(events[n])
}

/// However many frames are drawn, the pacing state stays well-formed and at
/// most as many frames are in flight as there are slots.
pub proof fn lemma_frames_in_flight_bounded(start: Pacing, events: Seq<FrameEvent>)
    requires
        start.wf(),
        accepted(start, events),
    ensures
        run(start, events).wf(),
        run(start, events).fences.len() == start.fences.len(),
        run(start, events).in_flight() <= start.fences.len(),
    decreases events.len(),
{
    if events.len() > 0 {
        let shorter = events.drop_last();
        assert forall|n: int| 0 <= n < shorter.len() implies (#[trigger] run(
            start,
            shorter.take(n),
        )).accepts(shorter[n]) by {
            assert(shorter.take(n) == events.take(n));
        }
        lemma_frames_in_flight_bounded(start, shorter);
        assert(events.take(events.len() - 1) == shorter);
        lemma_step_keeps_wf(run(start, shorter), events.last());
    }
}

/// A step either leaves a pending fence pending, or it is the host seeing
/// that very fence signalled.
pub proof fn lemma_pending_until_seen(pre: Pacing, event: FrameEvent, slot: int)
    requires
        pre.wf(),
        pre.accepts(event),
        0 <= slot < pre.fences.len(),
        pre.fences[slot] == FenceState::Pending,
    ensures
        pre.step(event).fences[slot] == FenceState::Pending || (pre.observes_signal(event)
            && pre.slot() == slot),
{
    assert(0 <= pre.slot() < pre.fences.len()) by (nonlinear_arith)
        requires
            pre.frame >= 0,
            pre.fences.len() > 0,
            pre.slot() == pre.frame % (pre.fences.len() as int),
    ;
}

/// A slot is reused only after the host has seen its fence signalled.
///
/// Take any run of the protocol and two of its steps, the `first` before the
/// `second`, that both hand the fence of the same slot to a submission.
/// Then between the two there is a step at which the host, waiting for that
/// slot, saw the fence signalled.
pub proof fn lemma_fence_seen_before_reuse(
    start: Pacing,
    events: Seq<FrameEvent>,
    first: int,
    second: int,
)
    requires
        start.wf(),
        accepted(start, events),
        0 <= first < second < events.len(),
        run(start, events.take(first)).submits(events[first]),
        run(start, events.take(second)).submits(events[second]),
        run(start, events.take(first)).slot() == run(start, events.take(second)).slot(),
    ensures
        exists|seen: int|
            first < seen < second && (#[trigger] run(start, events.take(seen))).observes_signal(
                events[seen],
            ) && run(start, events.take(seen)).slot() == run(start, events.take(first)).slot(),
{
    let before = run(start, events.take(first));
    let slot = before.slot();
    lemma_prefix_run(start, events, first);
    lemma_prefix_run(start, events, first + 1);
    lemma_prefix_run(start, events, second);
    assert(0 <= slot < before.fences.len()) by (nonlinear_arith)
        requires
            before.frame >= 0,
            before.fences.len() > 0,
            slot == before.frame % (before.fences.len() as int),
    ;
    assert(events.take(first + 1).drop_last() == events.take(first));
    assert(run(start, events.take(first + 1)).fences[slot] == FenceState::Pending);
    lemma_pending_or_seen(start, events, first, second, slot);
}

/// The state after the first `n` events of a run is well-formed and has the
/// run's slots.
proof fn lemma_prefix_run(start: Pacing, events: Seq<FrameEvent>, n: int)
    requires
        start.wf(),
        accepted(start, events),
        0 <= n <= events.len(),
    ensures
        run(start, events.take(n)).wf(),
        run(start, events.take(n)).fences.len() == start.fences.len(),
{
    let prefix = events.take(n);
    assert forall|m: int| 0 <= m < prefix.len() implies (#[trigger] run(
        start,
        prefix.take(m),
    )).accepts(prefix[m]) by {
        assert(prefix.take(m) == events.take(m));
    }
    lemma_frames_in_flight_bounded(start, prefix);
}

/// From the step after `first` up to step `n`, the fence of `slot` is still
/// pending or the host has seen it signalled at a step in between.
proof fn lemma_pending_or_seen(
    start: Pacing,
    events: Seq<FrameEvent>,
    first: int,
    n: int,
    slot: int,
)
    requires
        start.wf(),
        accepted(start, events),
        0 <= first < n <= events.len(),
        0 <= slot < start.fences.len(),
        run(start, events.take(first + 1)).fences[slot] == FenceState::Pending,
    ensures
        run(start, events.take(n)).fences[slot] == FenceState::Pending || exists|seen: int|
            first < seen < n && (#[trigger] run(start, events.take(seen))).observes_signal(
                events[seen],
            ) && run(start, events.take(seen)).slot() == slot,
    decreases n - first,
{
    if n > first + 1 {
        lemma_pending_or_seen(start, events, first, n - 1, slot);
        let pre = run(start, events.take(n - 1));
        lemma_prefix_run(start, events, n - 1);
        assert(events.take(n).drop_last() == events.take(n - 1));
        assert(run(start, events.take(n)) == pre.step(events[n - 1]));
        if pre.fences[slot] == FenceState::Pending {
            lemma_pending_until_seen(pre, events[n - 1], slot);
        }
    }
}

/// The render context: the swapchain side and the device's queues.
pub struct RenderContext {
    pub window: WindowManager,
    pub queue_pool: QueuePool,
}

impl RenderContext {
    /// A context of a swapchain and the queues of its device.
    pub fn new(window: WindowManager, queue_pool: QueuePool) -> (r: RenderContext)
        ensures
            r.window == window,
            r.queue_pool == queue_pool,
    {
        RenderContext { window, queue_pool }
    }
}

} // verus!
