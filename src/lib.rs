use vstd::prelude::*;

pub mod error;
pub mod memory;
pub mod instance;
pub mod device;
pub mod command_buffer;
pub mod fence;
pub mod buffer;
pub mod swapchain;
pub mod descriptors;
pub mod image;
pub mod render_pass;

verus! {

/// Adds two integers: the smoke check of the native bindings.
pub fn bad_add(a: i32, b: i32) -> (r: i32)
    requires
        i32::MIN <= a + b <= i32::MAX,
    ensures
        r == a + b,
{
    a + b
}

} // verus!
