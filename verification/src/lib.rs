//! GPU-resident sphere renderer core: camera pose math, byte-exact device
//! record layout, fixed-capacity resource and pipeline plans, and the
//! per-frame uniform protocol.
//!
//! Scalar quantities that the GPU consumes as 32-bit floats are carried
//! throughout as their IEEE-754 bit patterns (`u32`), so that record layout,
//! capacity accounting and the frame protocol can be stated and checked
//! exactly; the floating-point arithmetic itself is delegated to `glam`
//! behind a small set of trusted operations.

use vstd::prelude::*;

pub mod camera;
pub mod fbits;
pub mod frame;
pub mod layout;
pub mod pipeline;
pub mod scene;

verus! {

/// Number of sphere instances the sphere storage buffer is sized for.
pub const SPHERE_CAPACITY: u64 = 1000000;

/// Number of materials the material storage buffer is sized for.
pub const MATERIAL_CAPACITY: u64 = 100;

/// Bit pattern of the float `1.0`, the homogeneous coordinate appended to
/// positions in the per-frame uniform records.
pub const ONE_F32_BITS: u32 = 0x3F800000;

/// Bit pattern of the float `-1.0`.
pub const NEG_ONE_F32_BITS: u32 = 0xBF800000;

} // verus!
