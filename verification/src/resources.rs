use vstd::prelude::*;

use crate::dimensions::Dimensions;

verus! {

/// A uniform color value as the shader consumes it: three 32-bit lanes and a
/// padding lane, each carried as the raw bit pattern the GPU reads. The
/// lifecycle logic only stores and forwards these lanes.
#[derive(Clone, Copy, PartialEq, Eq, Structural, Debug)]
pub struct UniformColor {
    pub x_bits: u32,
    pub y_bits: u32,
    pub z_bits: u32,
    pub pad_bits: u32,
}

/// Everything needed to rebuild the graphics pipeline after a swapchain
/// rebuild: the two compiled shader binaries and the uniform data they were
/// first set up with.
#[derive(Clone, PartialEq, Eq, Debug)]
pub struct PipelineExtras {
    pub vertex_bytes: Vec<u8>,
    pub frag_bytes: Vec<u8>,
    pub raw_ubo_data: Vec<UniformColor>,
}

/// The depth image, which swapchain recreation must release out of its
/// normal scope order. `dropped` guards the release so a second call finds
/// nothing left to do.
#[derive(Clone, Copy, PartialEq, Eq, Structural, Debug)]
pub struct DepthImageSlot {
    pub handle: u64,
    pub dropped: bool,
}

impl DepthImageSlot {
    /// The state this slot reaches once released, however often release is
    /// invoked.
    pub open spec fn freed(self) -> Self {
        DepthImageSlot { handle: self.handle, dropped: true }
    }

    /// Releases the depth image's driver objects early, ahead of end of
    /// scope. Safe to call again: later calls find `dropped` set and leave
    /// the slot exactly as the first call did.
    pub fn intentionally_free(&mut self)
        ensures
            *final(self) == old(self).freed(),
    {
        if self.dropped {
            return ;
        }
        self.dropped = true;
    }
}

/// Law: early release is idempotent; releasing an already released slot
/// changes nothing.
pub proof fn lemma_intentionally_free_idempotent(s: DepthImageSlot)
    ensures
        s.freed().freed() == s.freed(),
{
}

/// The resources whose lifetime is tied to one surface resolution: they are
/// destroyed together and recreated together on resize. Each driver object
/// is modeled by the handle it was created as.
#[derive(Clone, PartialEq, Eq, Debug)]
pub struct SwapchainResources {
    pub swapchain: u64,
    pub render_pass: u64,
    pub depth_image: DepthImageSlot,
    pub present_image_views: Vec<u64>,
    pub framebuffers: Vec<u64>,
    pub resolution: Dimensions,
}

impl SwapchainResources {
    pub open spec fn image_count(self) -> int {
        self.present_image_views@.len() as int
    }

    pub open spec fn all_below(self, bound: u64) -> bool {
        &&& self.swapchain < bound
        &&& self.render_pass < bound
        &&& self.depth_image.handle < bound
        &&& forall|i: int|
            0 <= i < self.present_image_views@.len() ==> #[trigger] self.present_image_views@[i]
                < bound
        &&& forall|i: int|
            0 <= i < self.framebuffers@.len() ==> #[trigger] self.framebuffers@[i] < bound
    }

    pub open spec fn all_at_or_above(self, bound: u64) -> bool {
        &&& self.swapchain >= bound
        &&& self.render_pass >= bound
        &&& self.depth_image.handle >= bound
        &&& forall|i: int|
            0 <= i < self.present_image_views@.len() ==> #[trigger] self.present_image_views@[i]
                >= bound
        &&& forall|i: int|
            0 <= i < self.framebuffers@.len() ==> #[trigger] self.framebuffers@[i] >= bound
    }

    pub open spec fn contains_handle(self, h: u64) -> bool {
        ||| h == self.swapchain
        ||| h == self.render_pass
        ||| h == self.depth_image.handle
        ||| exists|i: int|
            0 <= i < self.present_image_views@.len() && #[trigger] self.present_image_views@[i]
                == h
        ||| exists|i: int| 0 <= i < self.framebuffers@.len() && #[trigger] self.framebuffers@[i] == h
    }
}

/// The pipeline-specific objects the orchestrator owns: one texture with its
/// sampler and view, the descriptor machinery, the two shader modules, and
/// the pipeline itself. They survive a swapchain rebuild unchanged except
/// for the pipeline group, which embeds the render pass handle and must be
/// rebuilt by its owner afterwards.
///
/// `render_pass` records which render pass the pipeline was built against.
/// It is a reference, not an owned object, so it stands outside the handle
/// bounds below; a swapchain rebuild replaces the render pass and leaves the
/// pipeline stale until the owner rebuilds it.
#[derive(Clone, Copy, PartialEq, Eq, Structural, Debug)]
pub struct PipelineData {
    pub texture: u64,
    pub sampler: u64,
    pub texture_view: u64,
    pub descriptor_pool: u64,
    pub descriptor_set_layouts: u64,
    pub vertex_shader: u64,
    pub fragment_shader: u64,
    pub pipeline_layout: u64,
    pub graphics_pipeline: u64,
    pub render_pass: u64,
}

impl PipelineData {
    pub open spec fn all_below(self, bound: u64) -> bool {
        &&& self.texture < bound
        &&& self.sampler < bound
        &&& self.texture_view < bound
        &&& self.descriptor_pool < bound
        &&& self.descriptor_set_layouts < bound
        &&& self.vertex_shader < bound
        &&& self.fragment_shader < bound
        &&& self.pipeline_layout < bound
        &&& self.graphics_pipeline < bound
    }

    pub open spec fn all_at_or_above(self, bound: u64) -> bool {
        &&& self.texture >= bound
        &&& self.sampler >= bound
        &&& self.texture_view >= bound
        &&& self.descriptor_pool >= bound
        &&& self.descriptor_set_layouts >= bound
        &&& self.vertex_shader >= bound
        &&& self.fragment_shader >= bound
        &&& self.pipeline_layout >= bound
        &&& self.graphics_pipeline >= bound
    }

    pub open spec fn contains_handle(self, h: u64) -> bool {
        ||| h == self.texture
        ||| h == self.sampler
        ||| h == self.texture_view
        ||| h == self.descriptor_pool
        ||| h == self.descriptor_set_layouts
        ||| h == self.vertex_shader
        ||| h == self.fragment_shader
        ||| h == self.pipeline_layout
        ||| h == self.graphics_pipeline
    }
}

/// Builds one swapchain resource set, handing out handles sequentially from
/// `start`. Returns the set and the next unused handle.
fn build_swapchain_set(start: u64, resolution: Dimensions, image_count: usize) -> (r: (
    SwapchainResources,
    u64,
))
    requires
        start as int + 3 + 2 * (image_count as int) <= u64::MAX as int,
    ensures
        r.0.all_at_or_above(start),
        r.0.all_below(r.1),
        r.1 as int == start as int + 3 + 2 * (image_count as int),
        r.0.resolution == resolution,
        r.0.image_count() == image_count as int,
        r.0.framebuffers@.len() == image_count,
        !r.0.depth_image.dropped,
{
    let swapchain = start;
    let render_pass = start + 1;
    let depth_handle = start + 2;
    let mut next: u64 = start + 3;

    let mut present_image_views: Vec<u64> = Vec::new();
    let mut i: usize = 0;
    while i < image_count
        invariant
            i <= image_count,
            present_image_views@.len() == i,
            next as int == start as int + 3 + i as int,
            start as int + 3 + 2 * (image_count as int) <= u64::MAX as int,
            forall|k: int|
                0 <= k < i ==> start <= #[trigger] present_image_views@[k] < next,
        decreases image_count - i,
    {
        present_image_views.push(next);
        next = next + 1;
        i += 1;
    }

    let mut framebuffers: Vec<u64> = Vec::new();
    let mut j: usize = 0;
    while j < image_count
        invariant
            j <= image_count,
            framebuffers@.len() == j,
            next as int == start as int + 3 + image_count as int + j as int,
            start as int + 3 + 2 * (image_count as int) <= u64::MAX as int,
            forall|k: int|
                0 <= k < present_image_views@.len() ==> start <= #[trigger] present_image_views@[k]
                    < next,
            forall|k: int| 0 <= k < j ==> start <= #[trigger] framebuffers@[k] < next,
        decreases image_count - j,
    {
        framebuffers.push(next);
        next = next + 1;
        j += 1;
    }

    let set = SwapchainResources {
        swapchain,
        render_pass,
        depth_image: DepthImageSlot { handle: depth_handle, dropped: false },
        present_image_views,
        framebuffers,
        resolution,
    };
    (set, next)
}

/// The orchestrator's resource inventory: the command pool that survives
/// every rebuild, the swapchain-dependent set, the pipeline objects with the
/// inputs needed to rebuild them, and the handle counter that keeps every
/// handle ever issued distinct.
#[derive(Clone, PartialEq, Eq, Debug)]
pub struct RenderResources {
    pub command_pool: u64,
    pub swapchain_set: SwapchainResources,
    pub pipeline_data: Option<PipelineData>,
    pub pipeline_extras: Option<PipelineExtras>,
    pub next_handle: u64,
}

impl RenderResources {
    pub open spec fn wf(self) -> bool {
        &&& self.command_pool < self.next_handle
        &&& self.swapchain_set.all_below(self.next_handle)
        &&& self.swapchain_set.framebuffers@.len() == self.swapchain_set.image_count()
        &&& match self.pipeline_data {
            Some(pd) => pd.all_below(self.next_handle) && pd.render_pass < self.next_handle
                && self.pipeline_extras is Some,
            None => true,
        }
    }

    /// Whether the pipeline (if one exists) was built against the render
    /// pass of the current swapchain set. A swapchain rebuild falsifies
    /// this; rebuilding the pipeline restores it.
    pub open spec fn pipeline_matches_render_pass(self) -> bool {
        match self.pipeline_data {
            Some(pd) => pd.render_pass == self.swapchain_set.render_pass,
            None => true,
        }
    }

    /// Every handle this inventory currently holds a driver object under.
    pub open spec fn owns_handle(self, h: u64) -> bool {
        ||| h == self.command_pool
        ||| self.swapchain_set.contains_handle(h)
        ||| match self.pipeline_data {
            Some(pd) => pd.contains_handle(h),
            None => false,
        }
    }

    /// Initial construction against the first surface resolution: command
    /// pool first, then the swapchain set. The pipeline comes later, once
    /// its shader binaries and uniform data are at hand.
    pub fn create(resolution: Dimensions, image_count: usize) -> (r: Self)
        requires
            4 + 2 * (image_count as int) <= u64::MAX as int,
        ensures
            r.wf(),
            r.swapchain_set.resolution == resolution,
            r.swapchain_set.image_count() == image_count as int,
            r.pipeline_data is None,
            r.pipeline_extras is None,
            !r.swapchain_set.depth_image.dropped,
            r.next_handle as int == 4 + 2 * (image_count as int),
    {
        let command_pool = 0u64;
        let (swapchain_set, next_handle) = build_swapchain_set(1, resolution, image_count);
        RenderResources {
            command_pool,
            swapchain_set,
            pipeline_data: None,
            pipeline_extras: None,
            next_handle,
        }
    }

    /// Builds the pipeline objects and stores the inputs they were built
    /// from, so a later swapchain rebuild can rebuild them.
    pub fn create_pipeline(&mut self, extras: PipelineExtras)
        requires
            old(self).wf(),
            old(self).next_handle as int + 9 <= u64::MAX as int,
        ensures
            final(self).wf(),
            final(self).command_pool == old(self).command_pool,
            final(self).swapchain_set == old(self).swapchain_set,
            final(self).pipeline_extras == Some(extras),
            final(self).next_handle as int == old(self).next_handle as int + 9,
            final(self).pipeline_matches_render_pass(),
            match final(self).pipeline_data {
                Some(pd) => pd.all_at_or_above(old(self).next_handle),
                None => false,
            },
    {
        let base = self.next_handle;
        let pipeline_data = PipelineData {
            texture: base,
            sampler: base + 1,
            texture_view: base + 2,
            descriptor_pool: base + 3,
            descriptor_set_layouts: base + 4,
            vertex_shader: base + 5,
            fragment_shader: base + 6,
            pipeline_layout: base + 7,
            graphics_pipeline: base + 8,
            render_pass: self.swapchain_set.render_pass,
        };
        self.next_handle = base + 9;
        self.pipeline_data = Some(pipeline_data);
        self.pipeline_extras = Some(extras);
    }

    /// Rebuilds the pipeline objects from the stored inputs. The pipeline
    /// embeds the render pass handle, so this must follow every swapchain
    /// rebuild. A call before any pipeline exists does nothing.
    pub fn recreate_pipeline(&mut self)
        requires
            old(self).wf(),
            old(self).next_handle as int + 9 <= u64::MAX as int,
        ensures
            final(self).wf(),
            final(self).command_pool == old(self).command_pool,
            final(self).swapchain_set == old(self).swapchain_set,
            final(self).pipeline_extras == old(self).pipeline_extras,
            final(self).next_handle as int <= old(self).next_handle as int + 9,
            old(self).pipeline_data is None ==> *final(self) == *old(self),
            old(self).pipeline_data is Some ==> final(self).pipeline_matches_render_pass(),
            old(self).pipeline_data is Some ==> match final(self).pipeline_data {
                Some(pd) => pd.all_at_or_above(old(self).next_handle),
                None => false,
            },
    {
        if self.pipeline_data.is_none() {
            return ;
        }
        self.pipeline_data = None;
        let base = self.next_handle;
        let pipeline_data = PipelineData {
            texture: base,
            sampler: base + 1,
            texture_view: base + 2,
            descriptor_pool: base + 3,
            descriptor_set_layouts: base + 4,
            vertex_shader: base + 5,
            fragment_shader: base + 6,
            pipeline_layout: base + 7,
            graphics_pipeline: base + 8,
            render_pass: self.swapchain_set.render_pass,
        };
        self.next_handle = base + 9;
        self.pipeline_data = Some(pipeline_data);
    }

    /// Tears down the swapchain-dependent set — depth image released early,
    /// then views and swapchain with it — and rebuilds every member of the
    /// set against the new resolution, with handles never issued before.
    /// Nothing outside the set is touched: the command pool and the pipeline
    /// objects keep their handles (the caller rebuilds the pipeline next).
    pub fn recreate_swapchain(&mut self, new_resolution: Dimensions)
        requires
            old(self).wf(),
            old(self).next_handle as int + 3 + 2 * old(self).swapchain_set.image_count()
                <= u64::MAX as int,
        ensures
            final(self).wf(),
            final(self).command_pool == old(self).command_pool,
            final(self).pipeline_data == old(self).pipeline_data,
            final(self).pipeline_extras == old(self).pipeline_extras,
            final(self).swapchain_set.resolution == new_resolution,
            final(self).swapchain_set.image_count() == old(self).swapchain_set.image_count(),
            final(self).swapchain_set.all_at_or_above(old(self).next_handle),
            !final(self).swapchain_set.depth_image.dropped,
            old(self).pipeline_data is Some ==> !final(self).pipeline_matches_render_pass(),
            final(self).next_handle as int == old(self).next_handle as int + 3 + 2 * old(
                self,
            ).swapchain_set.image_count(),
    {
        self.swapchain_set.depth_image.intentionally_free();
        let image_count = self.swapchain_set.present_image_views.len();
        let (swapchain_set, next_handle) = build_swapchain_set(
            self.next_handle,
            new_resolution,
            image_count,
        );
        self.swapchain_set = swapchain_set;
        self.next_handle = next_handle;
    }
}

/// Law: a swapchain rebuild hands out only fresh handles. Any handle the
/// inventory owned before the rebuild — swapchain, render pass, depth image,
/// a view or framebuffer, the command pool, a pipeline object — is absent
/// from the rebuilt set.
pub proof fn lemma_recreated_set_is_fresh(pre: RenderResources, post: RenderResources, h: u64)
    requires
        pre.wf(),
        post.swapchain_set.all_at_or_above(pre.next_handle),
        pre.owns_handle(h),
    ensures
        !post.swapchain_set.contains_handle(h),
{
    assert(h < pre.next_handle);
}

/// One resource category in the final teardown sequence, in the granularity
/// the shutdown path releases them.
#[derive(Clone, Copy, PartialEq, Eq, Structural, Debug)]
pub enum TeardownStep {
    DepthImage,
    Framebuffers,
    RenderPass,
    PresentCompleteSemaphores,
    RenderingCompleteSemaphores,
    DrawReuseFence,
    SetupReuseFence,
    PresentImageViews,
    Swapchain,
    PipelineObjects,
    CommandPool,
    Surface,
    StagedImages,
    Device,
    Debugger,
    Instance,
}

/// Whether this step releases objects created from the logical device (as
/// opposed to instance-level objects and the device itself).
pub open spec fn device_created(s: TeardownStep) -> bool {
    match s {
        TeardownStep::Surface => false,
        TeardownStep::Device => false,
        TeardownStep::Debugger => false,
        TeardownStep::Instance => false,
        _ => true,
    }
}

/// `a` consumes `b`: the objects of step `a` hold driver references into the
/// objects of step `b`, so `a` must be released strictly before `b`.
pub open spec fn consumes(a: TeardownStep, b: TeardownStep) -> bool {
    ||| (a == TeardownStep::Framebuffers && b == TeardownStep::RenderPass)
    ||| (a == TeardownStep::PresentImageViews && b == TeardownStep::Swapchain)
    ||| (b == TeardownStep::Device && device_created(a))
    ||| (a == TeardownStep::Device && b == TeardownStep::Instance)
    ||| (a == TeardownStep::Debugger && b == TeardownStep::Instance)
    ||| (a == TeardownStep::Surface && b == TeardownStep::Instance)
}

/// Where each step stands in the teardown sequence.
pub open spec fn teardown_position(s: TeardownStep) -> int {
    match s {
        TeardownStep::DepthImage => 0,
        TeardownStep::Framebuffers => 1,
        TeardownStep::RenderPass => 2,
        TeardownStep::PresentCompleteSemaphores => 3,
        TeardownStep::RenderingCompleteSemaphores => 4,
        TeardownStep::DrawReuseFence => 5,
        TeardownStep::SetupReuseFence => 6,
        TeardownStep::PresentImageViews => 7,
        TeardownStep::Swapchain => 8,
        TeardownStep::PipelineObjects => 9,
        TeardownStep::CommandPool => 10,
        TeardownStep::Surface => 11,
        TeardownStep::StagedImages => 12,
        TeardownStep::Device => 13,
        TeardownStep::Debugger => 14,
        TeardownStep::Instance => 15,
    }
}

/// The whole teardown sequence: consumers first, producers after, the device
/// next to last among driver objects, the instance last of all.
pub open spec fn teardown_plan() -> Seq<TeardownStep> {
    seq![
        TeardownStep::DepthImage,
        TeardownStep::Framebuffers,
        TeardownStep::RenderPass,
        TeardownStep::PresentCompleteSemaphores,
        TeardownStep::RenderingCompleteSemaphores,
        TeardownStep::DrawReuseFence,
        TeardownStep::SetupReuseFence,
        TeardownStep::PresentImageViews,
        TeardownStep::Swapchain,
        TeardownStep::PipelineObjects,
        TeardownStep::CommandPool,
        TeardownStep::Surface,
        TeardownStep::StagedImages,
        TeardownStep::Device,
        TeardownStep::Debugger,
        TeardownStep::Instance,
    ]
}

/// The sequence positions agree with the plan: each step stands in the plan
/// exactly at its position.
pub proof fn lemma_teardown_position_in_plan(s: TeardownStep)
    ensures
        0 <= teardown_position(s) < teardown_plan().len(),
        teardown_plan()[teardown_position(s)] == s,
{
}

/// Law: the teardown sequence respects the dependency graph. Whenever step
/// `a` consumes step `b`, the sequence releases `a` strictly before `b`; in
/// particular every device-created object goes before the device, and the
/// device, the debug messenger and the surface all go before the instance.
pub proof fn lemma_teardown_respects_dependencies(a: TeardownStep, b: TeardownStep)
    requires
        consumes(a, b),
    ensures
        teardown_position(a) < teardown_position(b),
{
}

/// The explicit shutdown sequence, independent of any scope-exit order: the
/// shell walks this list and releases each step in turn.
pub fn teardown_order() -> (r: Vec<TeardownStep>)
    ensures
        r@ == teardown_plan(),
{
    let mut order: Vec<TeardownStep> = Vec::new();
    order.push(TeardownStep::DepthImage);
    order.push(TeardownStep::Framebuffers);
    order.push(TeardownStep::RenderPass);
    order.push(TeardownStep::PresentCompleteSemaphores);
    order.push(TeardownStep::RenderingCompleteSemaphores);
    order.push(TeardownStep::DrawReuseFence);
    order.push(TeardownStep::SetupReuseFence);
    order.push(TeardownStep::PresentImageViews);
    order.push(TeardownStep::Swapchain);
    order.push(TeardownStep::PipelineObjects);
    order.push(TeardownStep::CommandPool);
    order.push(TeardownStep::Surface);
    order.push(TeardownStep::StagedImages);
    order.push(TeardownStep::Device);
    order.push(TeardownStep::Debugger);
    order.push(TeardownStep::Instance);
    proof {
        assert(order@ =~= teardown_plan());
    }
    order
}


/// One step of the swapchain-rebuild sequence: the device-idle wait, the
/// destruction of each member of the doomed set, and the rebuild against the
/// new resolution.
#[derive(Clone, Copy, PartialEq, Eq, Structural, Debug)]
pub enum RecreateStep {
    DeviceIdleWait,
    RenderPassAndFramebuffers,
    DepthImage,
    PresentImageViews,
    Swapchain,
    RebuildAgainstNewResolution,
}

/// Whether this step destroys driver objects an in-flight frame could still
/// be reading.
pub open spec fn recreate_step_destroys(s: RecreateStep) -> bool {
    match s {
        RecreateStep::DeviceIdleWait => false,
        RecreateStep::RenderPassAndFramebuffers => true,
        RecreateStep::DepthImage => true,
        RecreateStep::PresentImageViews => true,
        RecreateStep::Swapchain => true,
        RecreateStep::RebuildAgainstNewResolution => false,
    }
}

/// Where each step stands in the rebuild sequence.
pub open spec fn recreate_position(s: RecreateStep) -> int {
    match s {
        RecreateStep::DeviceIdleWait => 0,
        RecreateStep::RenderPassAndFramebuffers => 1,
        RecreateStep::DepthImage => 2,
        RecreateStep::PresentImageViews => 3,
        RecreateStep::Swapchain => 4,
        RecreateStep::RebuildAgainstNewResolution => 5,
    }
}

/// The swapchain-rebuild sequence: wait for the device to be idle, so no
/// in-flight work references the doomed objects, then destroy render pass
/// and framebuffers, depth image, image views and swapchain, then rebuild
/// them all against the new resolution.
pub open spec fn recreate_plan() -> Seq<RecreateStep> {
    seq![
        RecreateStep::DeviceIdleWait,
        RecreateStep::RenderPassAndFramebuffers,
        RecreateStep::DepthImage,
        RecreateStep::PresentImageViews,
        RecreateStep::Swapchain,
        RecreateStep::RebuildAgainstNewResolution,
    ]
}

/// The sequence positions agree with the plan: each step stands in the plan
/// exactly at its position.
pub proof fn lemma_recreate_position_in_plan(s: RecreateStep)
    ensures
        0 <= recreate_position(s) < recreate_plan().len(),
        recreate_plan()[recreate_position(s)] == s,
{
}

/// Law: the rebuild sequence completes the device-idle wait before any
/// member of the swapchain-dependent set is destroyed, and destroys every
/// member before anything is rebuilt.
pub proof fn lemma_recreate_waits_before_destroying(s: RecreateStep)
    requires
        recreate_step_destroys(s),
    ensures
        recreate_position(RecreateStep::DeviceIdleWait) < recreate_position(s),
        recreate_position(s) < recreate_position(RecreateStep::RebuildAgainstNewResolution),
{
}

/// The explicit rebuild sequence, independent of any scope-exit order: the
/// shell walks this list when a resize forces a swapchain rebuild.
pub fn recreate_order() -> (r: Vec<RecreateStep>)
    ensures
        r@ == recreate_plan(),
{
    let mut order: Vec<RecreateStep> = Vec::new();
    order.push(RecreateStep::DeviceIdleWait);
    order.push(RecreateStep::RenderPassAndFramebuffers);
    order.push(RecreateStep::DepthImage);
    order.push(RecreateStep::PresentImageViews);
    order.push(RecreateStep::Swapchain);
    order.push(RecreateStep::RebuildAgainstNewResolution);
    proof {
        assert(order@ =~= recreate_plan());
    }
    order
}

} // verus!
