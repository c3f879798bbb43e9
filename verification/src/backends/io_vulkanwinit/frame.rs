//! The handling of window events by the Vulkan backend: closing the loop, and the
//! steps of drawing one frame with the resources of its frame slot.
use vstd::prelude::*;
use super::swapchain::MAX_FRAME_LATENCY;

verus! {

/// The window events that the backend tells apart.
#[derive(Clone, Copy, Debug, PartialEq, Eq)]
pub enum WindowEventKind {
    CloseRequested,
    RedrawRequested,
    Other,
}

/// What the event loop reports to the frame logic.
#[derive(Clone, Copy, Debug, PartialEq, Eq)]
pub enum FrameEvent {
    /// A window event arrived.
    Window(WindowEventKind),
    /// The last action succeeded.
    Done,
    /// The swapchain handed out the image with this index.
    ImageAcquired(u32),
    /// The last action failed.
    Failed,
}

/// A step of drawing a frame that went wrong.
#[derive(Clone, Copy, Debug, PartialEq, Eq)]
pub enum FrameFailure {
    FenceWait,
    FenceReset,
    Acquire,
    /// The swapchain named an image that the backend has no resources for.
    ImageOutOfRange,
    Present,
}

impl FrameFailure {
    pub open spec fn spec_message(self) -> Seq<char> {
        match self {
            FrameFailure::FenceWait => "Wait for fence failed."@,
            FrameFailure::FenceReset => "Reset fences failed."@,
            FrameFailure::Acquire => "Failed to acquire the next swapchain image."@,
            FrameFailure::ImageOutOfRange => "The acquired swapchain image is out of range."@,
            FrameFailure::Present => "Failed to present the swapchain image."@,
        }
    }

    /// The message with which drawing stops.
    pub fn message(&self) -> (r: &'static str)
        ensures
            r@ == self.spec_message(),
    {
        match self {
            FrameFailure::FenceWait => "Wait for fence failed.",
            FrameFailure::FenceReset => "Reset fences failed.",
            FrameFailure::Acquire => "Failed to acquire the next swapchain image.",
            FrameFailure::ImageOutOfRange => "The acquired swapchain image is out of range.",
            FrameFailure::Present => "Failed to present the swapchain image.",
        }
    }
}

/// What the event loop is to do next.
#[derive(Clone, Copy, Debug, PartialEq, Eq)]
pub enum FrameAction {
    /// Leave the event loop.
    ExitLoop,
    /// Wait for the reuse fence of the slot.
    WaitForFence { slot: usize },
    /// Reset the reuse fence of the slot.
    ResetFence { slot: usize },
    /// Acquire the next swapchain image, signalling the slot's present semaphore.
    AcquireImage { slot: usize },
    /// Record the draw commands into the slot's command buffer and submit them, waiting
    /// on the slot's present semaphore and signalling the image's rendering semaphore.
    RecordAndSubmit { slot: usize, image: usize },
    /// Present the image once its rendering semaphore is signalled.
    Present { slot: usize, image: usize },
    /// Nothing to do for this event.
    Continue,
    /// Stop: the named step failed.
    Abort(FrameFailure),
}

/// Where the drawing of the current frame stands.
#[derive(Clone, Copy, Debug, PartialEq, Eq)]
pub enum FramePhase {
    Idle,
    Waiting { slot: usize },
    Resetting { slot: usize },
    Acquiring { slot: usize },
    Recording { slot: usize, image: usize },
    Presenting { slot: usize, image: usize },
    Halted,
}

/// The frame counter of the backend, the number of swapchain images, and the frame in
/// progress.
#[derive(Clone, Copy, Debug, PartialEq, Eq)]
pub struct FrameLoop {
    pub frame_index: usize,
    pub image_count: usize,
    pub phase: FramePhase,
}

/// The slot, among those of the frames in flight, that frame number `frame_index` uses.
pub open spec fn frame_slot(frame_index: usize) -> usize {
    (frame_index % MAX_FRAME_LATENCY) as usize
}

/// The state after `event` and the action that it calls for.
pub open spec fn frame_step(s: FrameLoop, event: FrameEvent) -> (FrameLoop, FrameAction) {
    match s.phase {
        FramePhase::Idle => match event {
            FrameEvent::Window(WindowEventKind::CloseRequested) => (s, FrameAction::ExitLoop),
            FrameEvent::Window(WindowEventKind::RedrawRequested) => {
                let slot = frame_slot(s.frame_index);
                (
                    FrameLoop { phase: FramePhase::Waiting { slot }, ..s },
                    FrameAction::WaitForFence { slot },
                )
            },
            _ => (s, FrameAction::Continue),
        },
        FramePhase::Waiting { slot } => match event {
            FrameEvent::Done => (
                FrameLoop { phase: FramePhase::Resetting { slot }, ..s },
                FrameAction::ResetFence { slot },
            ),
            FrameEvent::Failed => (
                FrameLoop { phase: FramePhase::Halted, ..s },
                FrameAction::Abort(FrameFailure::FenceWait),
            ),
            _ => (s, FrameAction::Continue),
        },
        FramePhase::Resetting { slot } => match event {
            FrameEvent::Done => (
                FrameLoop { phase: FramePhase::Acquiring { slot }, ..s },
                FrameAction::AcquireImage { slot },
            ),
            FrameEvent::Failed => (
                FrameLoop { phase: FramePhase::Halted, ..s },
                FrameAction::Abort(FrameFailure::FenceReset),
            ),
            _ => (s, FrameAction::Continue),
        },
        FramePhase::Acquiring { slot } => match event {
            FrameEvent::ImageAcquired(index) => if (index as int) < s.image_count {
                let image = index as usize;
                (
                    FrameLoop { phase: FramePhase::Recording { slot, image }, ..s },
                    FrameAction::RecordAndSubmit { slot, image },
                )
            } else {
                (
                    FrameLoop { phase: FramePhase::Halted, ..s },
                    FrameAction::Abort(FrameFailure::ImageOutOfRange),
                )
            },
            FrameEvent::Failed => (
                FrameLoop { phase: FramePhase::Halted, ..s },
                FrameAction::Abort(FrameFailure::Acquire),
            ),
            _ => (s, FrameAction::Continue),
        },
        FramePhase::Recording { slot, image } => match event {
            FrameEvent::Done => (
                FrameLoop { phase: FramePhase::Presenting { slot, image }, ..s },
                FrameAction::Present { slot, image },
            ),
            _ => (s, FrameAction::Continue),
        },
        FramePhase::Presenting { slot, image } => match event {
            FrameEvent::Done => (
                FrameLoop { frame_index: (s.frame_index + 1) as usize, phase: FramePhase::Idle, ..s },
                FrameAction::Continue,
            ),
            FrameEvent::Failed => (
                FrameLoop { phase: FramePhase::Halted, ..s },
                FrameAction::Abort(FrameFailure::Present),
            ),
            _ => (s, FrameAction::Continue),
        },
        FramePhase::Halted => (s, FrameAction::Continue),
    }
}

impl FrameLoop {
    /// No frame is in progress and none has been drawn; the swapchain has
    /// `image_count` images.
    pub fn new(image_count: usize) -> (r: FrameLoop)
        ensures
            r == (FrameLoop { frame_index: 0, image_count, phase: FramePhase::Idle }),
    {
        FrameLoop { frame_index: 0, image_count, phase: FramePhase::Idle }
    }

    /// Takes an event and returns the next action. Completing a frame counts it.
    pub fn step(&mut self, event: FrameEvent) -> (r: FrameAction)
        requires
            old(self).phase is Presenting && event == FrameEvent::Done ==> old(self).frame_index
                < usize::MAX,
        ensures
            (*final(self), r) == frame_step(*old(self), event),
    {
        match self.phase {
            FramePhase::Idle => match event {
                FrameEvent::Window(WindowEventKind::CloseRequested) => FrameAction::ExitLoop,
                FrameEvent::Window(WindowEventKind::RedrawRequested) => {
                    let slot = self.frame_index % MAX_FRAME_LATENCY;
                    self.phase = FramePhase::Waiting { slot };
                    FrameAction::WaitForFence { slot }
                },
                _ => FrameAction::Continue,
            },
            FramePhase::Waiting { slot } => match event {
                FrameEvent::Done => {
                    self.phase = FramePhase::Resetting { slot };
                    FrameAction::ResetFence { slot }
                },
                FrameEvent::Failed => {
                    self.phase = FramePhase::Halted;
                    FrameAction::Abort(FrameFailure::FenceWait)
                },
                _ => FrameAction::Continue,
            },
            FramePhase::Resetting { slot } => match event {
                FrameEvent::Done => {
                    self.phase = FramePhase::Acquiring { slot };
                    FrameAction::AcquireImage { slot }
                },
                FrameEvent::Failed => {
                    self.phase = FramePhase::Halted;
                    FrameAction::Abort(FrameFailure::FenceReset)
                },
                _ => FrameAction::Continue,
            },
            FramePhase::Acquiring { slot } => match event {
                FrameEvent::ImageAcquired(index) => {
                    if (index as usize) < self.image_count {
                        let image = index as usize;
                        self.phase = FramePhase::Recording { slot, image };
                        FrameAction::RecordAndSubmit { slot, image }
                    } else {
                        self.phase = FramePhase::Halted;
                        FrameAction::Abort(FrameFailure::ImageOutOfRange)
                    }
                },
                FrameEvent::Failed => {
                    self.phase = FramePhase::Halted;
                    FrameAction::Abort(FrameFailure::Acquire)
                },
                _ => FrameAction::Continue,
            },
            FramePhase::Recording { slot, image } => match event {
                FrameEvent::Done => {
                    self.phase = FramePhase::Presenting { slot, image };
                    FrameAction::Present { slot, image }
                },
                _ => FrameAction::Continue,
            },
            FramePhase::Presenting { slot, image } => match event {
                FrameEvent::Done => {
                    self.frame_index = self.frame_index + 1;
                    self.phase = FramePhase::Idle;
                    FrameAction::Continue
                },
                FrameEvent::Failed => {
                    self.phase = FramePhase::Halted;
                    FrameAction::Abort(FrameFailure::Present)
                },
                _ => FrameAction::Continue,
            },
            FramePhase::Halted => FrameAction::Continue,
        }
    }
}

/// Every frame slot names one of the frames in flight.
pub proof fn lemma_slot_in_range(frame_index: usize)
    ensures
        frame_slot(frame_index) < MAX_FRAME_LATENCY,
{
}

/// A redraw that succeeds step by step waits for, resets, acquires with, records into
/// and presents from the slot of the current frame, in that order, and then counts the
/// frame: the next redraw uses the next frame number.
pub proof fn lemma_redraw_cycle(s: FrameLoop, image: u32)
    requires
        s.phase == FramePhase::Idle,
        s.frame_index < usize::MAX,
        image < s.image_count,
    ensures
        ({
            let slot = frame_slot(s.frame_index);
            let i = image as usize;
            let r1 = frame_step(s, FrameEvent::Window(WindowEventKind::RedrawRequested));
            let r2 = frame_step(r1.0, FrameEvent::Done);
            let r3 = frame_step(r2.0, FrameEvent::Done);
            let r4 = frame_step(r3.0, FrameEvent::ImageAcquired(image));
            let r5 = frame_step(r4.0, FrameEvent::Done);
            let r6 = frame_step(r5.0, FrameEvent::Done);
            &&& r1.1 == FrameAction::WaitForFence { slot }
            &&& r2.1 == FrameAction::ResetFence { slot }
            &&& r3.1 == FrameAction::AcquireImage { slot }
            &&& r4.1 == FrameAction::RecordAndSubmit { slot, image: i }
            &&& r5.1 == FrameAction::Present { slot, image: i }
            &&& r6.1 == FrameAction::Continue
            &&& r6.0 == FrameLoop {
                frame_index: (s.frame_index + 1) as usize,
                image_count: s.image_count,
                phase: FramePhase::Idle,
            }
        }),
{
}

/// A close request between frames leaves the event loop and changes nothing else.
pub proof fn lemma_close_exits(s: FrameLoop)
    requires
        s.phase == FramePhase::Idle,
    ensures
        frame_step(s, FrameEvent::Window(WindowEventKind::CloseRequested)) == (s, FrameAction::ExitLoop),
{
}

/// Once a step has failed, no event leads to further device work.
pub proof fn lemma_halted_is_final(s: FrameLoop, event: FrameEvent)
    requires
        s.phase == FramePhase::Halted,
    ensures
        frame_step(s, event) == (s, FrameAction::Continue),
{
}

/// The frame counter changes only when a presented frame completes, and then by one;
/// the number of swapchain images never changes.
pub proof fn lemma_counter_moves_by_completed_frames(s: FrameLoop, event: FrameEvent)
    requires
        s.frame_index < usize::MAX,
    ensures
        frame_step(s, event).0.image_count == s.image_count,
        frame_step(s, event).0.frame_index == if s.phase is Presenting && event == FrameEvent::Done {
            s.frame_index + 1
        } else {
            s.frame_index as int
        },
{
}

/// Draw commands and presentation only ever name a swapchain image that exists, and
/// every aborted step halts the drawing.
pub proof fn lemma_images_in_range(s: FrameLoop, event: FrameEvent)
    requires
        s.phase matches FramePhase::Recording { image, .. } ==> image < s.image_count,
        s.phase matches FramePhase::Presenting { image, .. } ==> image < s.image_count,
    ensures
        frame_step(s, event).1 matches FrameAction::RecordAndSubmit { image, .. } ==> image < s.image_count,
        frame_step(s, event).1 matches FrameAction::Present { image, .. } ==> image < s.image_count,
        frame_step(s, event).1 is Abort ==> frame_step(s, event).0.phase is Halted,
        frame_step(s, event).1 is ExitLoop ==> event == FrameEvent::Window(WindowEventKind::CloseRequested),
{
}

} // verus!
