use vstd::prelude::*;

verus! {

/// One vertex of a quad: a homogeneous 2D position (four 32-bit lanes) and a
/// texture coordinate (two 32-bit lanes).
///
/// Each lane holds the raw 32-bit encoding of the value the graphics pipeline
/// reads. The geometry buffer only stores, copies and compares lanes; it never
/// interprets them numerically, so carrying them as plain `u32` bit patterns
/// loses nothing and keeps the whole buffer logic in reach of verification.
#[derive(Clone, Copy, PartialEq, Eq, Structural, Debug)]
pub struct Vertex {
    pub pos_x: u32,
    pub pos_y: u32,
    pub pos_z: u32,
    pub pos_w: u32,
    pub tex_u: u32,
    pub tex_v: u32,
}

} // verus!
