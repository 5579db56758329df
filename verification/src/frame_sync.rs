use vstd::prelude::*;

verus! {

/// CPU-side state of a command buffer's reuse fence.
///
/// `signaled` is what a fence query would report now; `pending` says that a
/// submitted batch the GPU has not retired yet will signal the fence. A fence
/// is never both: submission demands an unsignaled fence, and the one pending
/// batch is exactly what ends by signaling it.
#[derive(Clone, Copy, PartialEq, Eq, Structural, Debug)]
pub struct ReuseFence {
    pub signaled: bool,
    pub pending: bool,
}

impl ReuseFence {
    pub open spec fn wf(self) -> bool {
        !(self.signaled && self.pending)
    }

    /// A fence may be handed to a queue submission only when it is neither
    /// signaled nor tied to an in-flight batch.
    pub open spec fn can_submit(self) -> bool {
        !self.signaled && !self.pending
    }

    /// Fences guarding command buffer reuse are created pre-signaled, so the
    /// first frame's wait passes immediately.
    pub fn new_signaled() -> (r: Self)
        ensures
            r.wf(),
            r.signaled,
            !r.pending,
    {
        Self { signaled: true, pending: false }
    }

    /// Blocks until the fence is signaled. Waiting on a fence that is neither
    /// signaled nor pending would block forever, so that state is excluded.
    pub fn wait(&mut self)
        requires
            old(self).wf(),
            old(self).signaled || old(self).pending,
        ensures
            final(self).wf(),
            final(self).signaled,
            !final(self).pending,
    {
        self.signaled = true;
        self.pending = false;
    }

    /// Resets the fence to unsignaled. Resetting a fence an in-flight batch
    /// still points at is invalid, so a pending fence is excluded.
    pub fn reset(&mut self)
        requires
            old(self).wf(),
            !old(self).pending,
        ensures
            final(self).wf(),
            !final(self).signaled,
            !final(self).pending,
    {
        self.signaled = false;
    }

    /// Hands the fence to a queue submission: the GPU will signal it when the
    /// batch retires.
    pub fn submit(&mut self)
        requires
            old(self).wf(),
            old(self).can_submit(),
        ensures
            final(self).wf(),
            final(self).pending,
            !final(self).signaled,
    {
        self.pending = true;
    }
}

/// One reusable command buffer together with the fence that gates its reuse.
#[derive(Clone, Copy, PartialEq, Eq, Structural, Debug)]
pub struct CommandBufferSlot {
    pub reuse_fence: ReuseFence,
    pub submitted_batches: u64,
}

impl CommandBufferSlot {
    pub open spec fn wf(self) -> bool {
        self.reuse_fence.wf()
    }

    pub fn new() -> (r: Self)
        ensures
            r.wf(),
            r.reuse_fence.signaled,
            !r.reuse_fence.pending,
            r.submitted_batches == 0,
    {
        Self { reuse_fence: ReuseFence::new_signaled(), submitted_batches: 0 }
    }
}

/// The single choke point for command submission: wait for the slot's reuse
/// fence (the GPU has retired the buffer's previous batch), reset fence and
/// buffer, record, and submit with the fence re-armed. Because the wait comes
/// first, two calls on the same slot can never race on the buffer: the second
/// is serialized behind the retirement of the first.
pub fn record_submit_commandbuffer(slot: &mut CommandBufferSlot)
    requires
        old(slot).wf(),
        old(slot).reuse_fence.signaled || old(slot).reuse_fence.pending,
        old(slot).submitted_batches < u64::MAX,
    ensures
        final(slot).wf(),
        final(slot).reuse_fence.pending,
        !final(slot).reuse_fence.signaled,
        final(slot).submitted_batches == old(slot).submitted_batches + 1,
{
    slot.reuse_fence.wait();
    slot.reuse_fence.reset();
    slot.reuse_fence.submit();
    slot.submitted_batches = slot.submitted_batches + 1;
}

/// Creates the pre-signaled reuse fences the engine starts with, one per
/// reusable command buffer.
pub fn create_standard_fences(fence_count: u32) -> (r: Vec<ReuseFence>)
    ensures
        r@.len() == fence_count,
        forall|i: int|
            0 <= i < r@.len() ==> (#[trigger] r@[i]).signaled && !r@[i].pending,
{
    let mut fences: Vec<ReuseFence> = Vec::new();
    let mut i: u32 = 0;
    while i < fence_count
        invariant
            i <= fence_count,
            fences@.len() == i,
            forall|k: int|
                0 <= k < fences@.len() ==> (#[trigger] fences@[k]).signaled && !fences@[k].pending,
        decreases fence_count - i,
    {
        fences.push(ReuseFence::new_signaled());
        i += 1;
    }
    fences
}

/// Law: while a submitted batch is still in flight, its fence cannot be
/// handed to another submission; reuse is gated on waiting the fence out.
pub proof fn lemma_fence_gates_reuse(f: ReuseFence)
    requires
        f.pending,
    ensures
        !f.can_submit(),
{
}

} // verus!
