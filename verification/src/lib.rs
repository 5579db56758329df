//! Core logic of a real-time quad renderer: the CPU-side geometry buffer that
//! mirrors a mutable quad list into host-coherent GPU memory, the fence-gated
//! frame-synchronization protocol, the swapchain configuration rules, and the
//! handle-lifecycle model for swapchain recreation.
//!
//! Everything that must talk to the GPU driver or the window system lives in
//! an unverified shell around this crate; the shell hands plain values in and
//! carries the decisions made here back out.

pub mod coherent_quads;
pub mod device_select;
pub mod dimensions;
pub mod frame_pacing;
pub mod frame_sync;
pub mod image_data;
pub mod memory_types;
pub mod resources;
pub mod surface_params;
pub mod vertex;
