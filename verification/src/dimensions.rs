use vstd::prelude::*;

verus! {

/// Extent of an image or surface, in texels. `depth` is 1 for 2D render
/// targets and 0 where a 2D source image carries no depth at all.
#[derive(Clone, Copy, PartialEq, Eq, Structural, Debug)]
pub struct Dimensions {
    pub width: u32,
    pub height: u32,
    pub depth: u32,
}

impl Dimensions {
    pub fn new(width: u32, height: u32, depth: u32) -> (r: Self)
        ensures
            r.width == width,
            r.height == height,
            r.depth == depth,
    {
        Self { width, height, depth }
    }
}

} // verus!
