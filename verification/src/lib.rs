//! A verified model of a minimal GPU rendering setup: a presentation
//! surface with a swapchain, and a single textured-quad render pipeline.
//!
//! The library models every GPU object as plain data (descriptors, byte
//! buffers, command lists) so that the configuration and geometry logic
//! can be verified. Driver calls themselves (adapter and device requests,
//! buffer uploads, command submission) happen outside the library, which
//! receives their outcomes as plain values and decides what follows.

pub mod binding;
pub mod command;
pub mod device;
pub mod geometry;
pub mod packing;
pub mod quad;
pub mod swapchain;

use vstd::prelude::*;

verus! {

} // verus!
