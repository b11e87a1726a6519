use vstd::prelude::*;

verus! {

/// Failures surfaced by the lifetime and submission core.
#[derive(Debug, Clone, Copy, PartialEq, Eq, Structural)]
pub enum RenderError {
    /// The driver could not be loaded or the connection could not be created.
    InitializationError,
    /// No accelerator offers a queue family with the required capabilities.
    NoSuitableDeviceError,
    /// The chosen accelerator lacks a queue family for a requested role.
    NoSuitableQueueError,
    /// No memory type satisfies both the resource's bitmask and the requested visibility.
    MemoryTypeNotFoundError,
    /// The device ran out of memory while allocating.
    AllocationFailure,
    /// Native object creation failed with the given driver result code.
    ResourceCreationError(i32),
    /// A descriptor pool has no room left for the requested sets.
    PoolExhaustedError,
    /// Submission or waiting failed (busy fence, lost device).
    SynchronizationError,
    /// The surface cannot support the requested swap chain.
    SwapChainCreationError,
    /// The surface changed; the swap chain must be recreated before retrying.
    SurfaceOutOfDate,
    /// An image index outside the swap chain was given.
    ImageIndexOutOfRange,
}

/// A native object's creation: its handle, or `ResourceCreationError` with the driver's
/// result code.
pub fn resource_created(created: Result<u64, i32>) -> (r: Result<u64, RenderError>)
    ensures
        match created {
            Ok(handle) => r == Ok::<u64, RenderError>(handle),
            Err(code) => r == Err::<u64, RenderError>(RenderError::ResourceCreationError(code)),
        },
{
    match created {
        Ok(handle) => Ok(handle),
        Err(code) => Err(RenderError::ResourceCreationError(code)),
    }
}

} // verus!
