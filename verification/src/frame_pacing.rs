use vstd::prelude::*;

verus! {

/// Resize events arriving during the first few frames belong to window
/// creation, not to a user resize; they are ignored rather than answered
/// with a swapchain rebuild.
pub const RESIZE_WARMUP_FRAMES: usize = 10;

/// The per-frame counters of the render loop: a monotone frame number and
/// the rotating index that picks the semaphore pair for the next acquire.
#[derive(Clone, Copy, PartialEq, Eq, Structural, Debug)]
pub struct FramePacing {
    pub frame: usize,
    pub current_swapchain_image: usize,
    pub present_image_count: usize,
}

/// What a loop tick turns into once the pacing state has been consulted:
/// either the swapchain (and then the pipeline) must be rebuilt, or a frame
/// is rendered using the semaphore pair in `semaphore_slot`.
#[derive(Clone, Copy, PartialEq, Eq, Structural, Debug)]
pub enum TickAction {
    RecreateSwapchain,
    Render { semaphore_slot: usize },
}

/// Outcome of asking the presentation engine for the next image.
#[derive(Clone, Copy, PartialEq, Eq, Structural, Debug)]
pub enum AcquireOutcome {
    Acquired { present_index: u32 },
    OutOfDate,
}

/// Outcome of queueing the rendered image for presentation.
#[derive(Clone, Copy, PartialEq, Eq, Structural, Debug)]
pub enum PresentOutcome {
    Presented,
    Suboptimal,
    OutOfDate,
}

impl FramePacing {
    pub open spec fn wf(self) -> bool {
        &&& self.present_image_count > 0
        &&& self.current_swapchain_image < self.present_image_count
    }

    pub fn new(present_image_count: usize) -> (r: Self)
        requires
            present_image_count > 0,
        ensures
            r.wf(),
            r.frame == 0,
            r.current_swapchain_image == 0,
            r.present_image_count == present_image_count,
    {
        Self { frame: 0, current_swapchain_image: 0, present_image_count }
    }

    /// Bumps the frame counter and returns the number of the frame that is
    /// now beginning.
    pub fn increment_frame(&mut self) -> (r: usize)
        requires
            old(self).wf(),
            old(self).frame < usize::MAX,
        ensures
            final(self).wf(),
            r == old(self).frame,
            final(self).frame == old(self).frame + 1,
            final(self).current_swapchain_image == old(self).current_swapchain_image,
            final(self).present_image_count == old(self).present_image_count,
    {
        let frame = self.frame;
        self.frame = frame + 1;
        frame
    }

    /// Returns the semaphore slot to use for this frame's acquire and
    /// rotates to the next one, wrapping at the present-image count.
    pub fn get_next_swapchain_image_index(&mut self) -> (r: usize)
        requires
            old(self).wf(),
        ensures
            final(self).wf(),
            r == old(self).current_swapchain_image,
            final(self).current_swapchain_image == (old(self).current_swapchain_image + 1) % (
            old(self).present_image_count as int),
            final(self).frame == old(self).frame,
            final(self).present_image_count == old(self).present_image_count,
    {
        let current_swapchain_image = self.current_swapchain_image;
        self.current_swapchain_image = (current_swapchain_image + 1) % self.present_image_count;
        current_swapchain_image
    }
}

/// Decides what one loop tick does. A resize tick rebuilds the swapchain
/// only past the warmup frames; every other tick renders, consuming one
/// rotation of the semaphore-slot counter. The frame counter advances either
/// way.
pub fn next_tick_action(pacing: &mut FramePacing, resized: bool) -> (r: TickAction)
    requires
        old(pacing).wf(),
        old(pacing).frame < usize::MAX,
    ensures
        final(pacing).wf(),
        final(pacing).frame == old(pacing).frame + 1,
        final(pacing).present_image_count == old(pacing).present_image_count,
        (r == TickAction::RecreateSwapchain) <==> (resized && old(pacing).frame
            > RESIZE_WARMUP_FRAMES),
        match r {
            TickAction::RecreateSwapchain => final(pacing).current_swapchain_image == old(
                pacing,
            ).current_swapchain_image,
            TickAction::Render { semaphore_slot } => {
                &&& semaphore_slot == old(pacing).current_swapchain_image
                &&& final(pacing).current_swapchain_image == (old(
                    pacing,
                ).current_swapchain_image + 1) % (old(pacing).present_image_count as int)
            },
        },
{
    let frame = pacing.increment_frame();
    if resized && frame > RESIZE_WARMUP_FRAMES {
        TickAction::RecreateSwapchain
    } else {
        let semaphore_slot = pacing.get_next_swapchain_image_index();
        TickAction::Render { semaphore_slot }
    }
}

/// Interprets the acquire outcome: an out-of-date surface abandons the frame
/// (the caller recreates the swapchain on a later tick); otherwise the
/// acquired present-image index drives the draw.
pub fn handle_acquire_outcome(outcome: AcquireOutcome) -> (r: Option<u32>)
    ensures
        match outcome {
            AcquireOutcome::Acquired { present_index } => r == Some(present_index),
            AcquireOutcome::OutOfDate => r is None,
        },
{
    match outcome {
        AcquireOutcome::Acquired { present_index } => Some(present_index),
        AcquireOutcome::OutOfDate => None,
    }
}

/// Interprets the present outcome: only a clean present counts as a drawn
/// frame; a suboptimal or out-of-date surface ends the frame early and is
/// left for a later swapchain rebuild, never treated as fatal.
pub fn presentation_succeeded(outcome: PresentOutcome) -> (r: bool)
    ensures
        r <==> outcome == PresentOutcome::Presented,
{
    match outcome {
        PresentOutcome::Presented => true,
        PresentOutcome::Suboptimal => false,
        PresentOutcome::OutOfDate => false,
    }
}

} // verus!
