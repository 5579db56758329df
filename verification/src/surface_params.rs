use vstd::prelude::*;

verus! {

/// Bit for the identity transform in a surface's transform flag mask.
pub const TRANSFORM_IDENTITY: u32 = 0x1;

/// The slice of a surface's capabilities that swapchain creation reads:
/// image-count limits and transform support, as plain values. A
/// `max_image_count` of zero means the surface imposes no upper limit.
#[derive(Clone, Copy, PartialEq, Eq, Structural, Debug)]
pub struct SurfaceCapabilities {
    pub min_image_count: u32,
    pub max_image_count: u32,
    pub supported_transforms: u32,
    pub current_transform: u32,
}

/// A presentation mode the surface may offer. Mailbox is the low-latency
/// triple-buffering mode; FIFO is the strict queue every surface supports.
#[derive(Clone, Copy, PartialEq, Eq, Structural, Debug)]
pub enum PresentMode {
    Immediate,
    Mailbox,
    Fifo,
    FifoRelaxed,
}

/// Desired swapchain length: one image more than the surface's minimum, for
/// headroom, clamped to the surface's maximum where one exists.
pub fn get_standard_surface_image_count(surface_capabilities: &SurfaceCapabilities) -> (r: u32)
    requires
        surface_capabilities.min_image_count < u32::MAX,
    ensures
        (surface_capabilities.max_image_count > 0 && surface_capabilities.min_image_count + 1
            > surface_capabilities.max_image_count) ==> r == surface_capabilities.max_image_count,
        !(surface_capabilities.max_image_count > 0 && surface_capabilities.min_image_count + 1
            > surface_capabilities.max_image_count) ==> r == surface_capabilities.min_image_count
            + 1,
{
    let mut desired_image_count = surface_capabilities.min_image_count + 1;
    if surface_capabilities.max_image_count > 0 && desired_image_count
        > surface_capabilities.max_image_count {
        desired_image_count = surface_capabilities.max_image_count;
    }
    desired_image_count
}

/// Pre-transform for swapchain creation: identity where the surface supports
/// it, else whatever transform the surface currently applies.
pub fn get_surface_capabilities_pre_transform(
    surface_capabilities: &SurfaceCapabilities,
) -> (r: u32)
    ensures
        (surface_capabilities.supported_transforms & TRANSFORM_IDENTITY != 0) ==> r
            == TRANSFORM_IDENTITY,
        (surface_capabilities.supported_transforms & TRANSFORM_IDENTITY == 0) ==> r
            == surface_capabilities.current_transform,
{
    if surface_capabilities.supported_transforms & TRANSFORM_IDENTITY != 0 {
        TRANSFORM_IDENTITY
    } else {
        surface_capabilities.current_transform
    }
}

/// Present-mode choice over the modes the surface offers: mailbox when
/// available, else the always-supported FIFO fallback.
pub fn get_mailbox_or_fifo_present_mode(present_modes: &Vec<PresentMode>) -> (r: PresentMode)
    ensures
        (exists|i: int|
            0 <= i < present_modes@.len() && present_modes@[i] == PresentMode::Mailbox) ==> r
            == PresentMode::Mailbox,
        !(exists|i: int|
            0 <= i < present_modes@.len() && present_modes@[i] == PresentMode::Mailbox) ==> r
            == PresentMode::Fifo,
{
    let mut i: usize = 0;
    while i < present_modes.len()
        invariant
            i <= present_modes@.len(),
            forall|k: int| 0 <= k < i ==> present_modes@[k] != PresentMode::Mailbox,
        decreases present_modes@.len() - i,
    {
        if matches!(present_modes[i], PresentMode::Mailbox) {
            assert(present_modes@[i as int] == PresentMode::Mailbox);
            return PresentMode::Mailbox;
        }
        i += 1;
    }
    PresentMode::Fifo
}

} // verus!
