use quadgrid::frame_pacing::{
    handle_acquire_outcome, next_tick_action, presentation_succeeded, AcquireOutcome, FramePacing,
    PresentOutcome, TickAction,
};
use quadgrid::frame_sync::{
    create_standard_fences, record_submit_commandbuffer, CommandBufferSlot, ReuseFence,
};
use quadgrid::dimensions::Dimensions;
use quadgrid::resources::RenderResources;

#[test]
fn reuse_fences_start_signaled() {
    let fences = create_standard_fences(2);
    assert_eq!(fences.len(), 2);
    for fence in fences {
        assert!(fence.signaled);
        assert!(!fence.pending);
    }
}

#[test]
fn fence_protocol_wait_reset_submit() {
    let mut fence = ReuseFence::new_signaled();
    fence.wait();
    assert!(fence.signaled);
    fence.reset();
    assert!(!fence.signaled);
    assert!(!fence.pending);
    fence.submit();
    assert!(fence.pending);
    assert!(!fence.signaled);
}

#[test]
fn submission_arms_the_reuse_gate() {
    let mut slot = CommandBufferSlot::new();
    record_submit_commandbuffer(&mut slot);
    assert_eq!(slot.submitted_batches, 1);
    // the fence now gates the buffer: a raw resubmission is impossible until
    // the in-flight batch retires and the fence has been waited out
    assert!(slot.reuse_fence.pending);
    assert!(!slot.reuse_fence.signaled);
    // the choke-point helper serializes by waiting first, so back-to-back
    // frames go through it without racing on the buffer
    record_submit_commandbuffer(&mut slot);
    assert_eq!(slot.submitted_batches, 2);
    assert!(slot.reuse_fence.pending);
}

#[test]
fn swapchain_image_index_rotates() {
    let mut pacing = FramePacing::new(3);
    assert_eq!(pacing.get_next_swapchain_image_index(), 0);
    assert_eq!(pacing.get_next_swapchain_image_index(), 1);
    assert_eq!(pacing.get_next_swapchain_image_index(), 2);
    assert_eq!(pacing.get_next_swapchain_image_index(), 0);
}

#[test]
fn frame_counter_counts_from_zero() {
    let mut pacing = FramePacing::new(2);
    assert_eq!(pacing.increment_frame(), 0);
    assert_eq!(pacing.increment_frame(), 1);
    assert_eq!(pacing.frame, 2);
}

#[test]
fn early_resize_is_ignored_late_resize_rebuilds() {
    let mut pacing = FramePacing::new(2);
    // frame 0: a resize right at startup does not rebuild
    match next_tick_action(&mut pacing, true) {
        TickAction::Render { semaphore_slot } => assert_eq!(semaphore_slot, 0),
        TickAction::RecreateSwapchain => panic!("startup resize must not rebuild"),
    }
    // advance past the warmup frames
    while pacing.frame <= 10 {
        match next_tick_action(&mut pacing, false) {
            TickAction::Render { .. } => {}
            TickAction::RecreateSwapchain => panic!("no resize was reported"),
        }
    }
    match next_tick_action(&mut pacing, true) {
        TickAction::RecreateSwapchain => {}
        TickAction::Render { .. } => panic!("late resize must rebuild"),
    }
}

#[test]
fn acquire_and_present_outcomes() {
    assert_eq!(
        handle_acquire_outcome(AcquireOutcome::Acquired { present_index: 1 }),
        Some(1)
    );
    assert_eq!(handle_acquire_outcome(AcquireOutcome::OutOfDate), None);
    assert!(presentation_succeeded(PresentOutcome::Presented));
    assert!(!presentation_succeeded(PresentOutcome::Suboptimal));
    assert!(!presentation_succeeded(PresentOutcome::OutOfDate));
}

#[test]
fn out_of_date_acquire_skips_frame_then_recovers() {
    let mut pacing = FramePacing::new(2);
    let mut slot = CommandBufferSlot::new();
    let mut resources = RenderResources::create(Dimensions::new(800, 600, 1), 2);

    // frames 0 through 4 render normally
    for _ in 0..5 {
        match next_tick_action(&mut pacing, false) {
            TickAction::Render { .. } => {
                assert_eq!(handle_acquire_outcome(AcquireOutcome::Acquired { present_index: 0 }), Some(0));
                record_submit_commandbuffer(&mut slot);
                assert!(presentation_succeeded(PresentOutcome::Presented));
            }
            TickAction::RecreateSwapchain => panic!("no resize was reported"),
        }
    }
    assert_eq!(pacing.frame, 5);
    let drawn_before = slot.submitted_batches;

    // frame 5: the surface reports out of date at acquire; the frame is
    // abandoned without submitting anything and without tearing down state
    match next_tick_action(&mut pacing, false) {
        TickAction::Render { .. } => {
            assert_eq!(handle_acquire_outcome(AcquireOutcome::OutOfDate), None);
        }
        TickAction::RecreateSwapchain => panic!("no resize was reported"),
    }
    assert_eq!(slot.submitted_batches, drawn_before);

    // the caller recreates the swapchain before the next frame
    resources.recreate_swapchain(Dimensions::new(1024, 768, 1));

    // frame 6 succeeds
    match next_tick_action(&mut pacing, false) {
        TickAction::Render { .. } => {
            assert_eq!(handle_acquire_outcome(AcquireOutcome::Acquired { present_index: 1 }), Some(1));
            record_submit_commandbuffer(&mut slot);
            assert!(presentation_succeeded(PresentOutcome::Presented));
        }
        TickAction::RecreateSwapchain => panic!("no resize was reported"),
    }
    assert_eq!(slot.submitted_batches, drawn_before + 1);
    assert_eq!(pacing.frame, 7);
}
