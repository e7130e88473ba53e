//! A real-time rendering runtime, as verified state and rules: the device
//! context's swapchain and depth buffer, uniform resource objects, the per-frame
//! render protocol with its failure handling, and the event dispatcher that
//! orders the application's callbacks.

use vstd::prelude::*;

pub mod device;
pub mod dispatcher;
pub mod frame;
pub mod resource;

verus! {

/// Adds one to `x`.
pub fn add_one(x: i32) -> (r: i32)
    requires
        x < i32::MAX,
    ensures
        r == x + 1,
{
    x + 1
}

} // verus!
