use std::sync::Arc;
use vstd::layout::size_of;
use vstd::prelude::*;

use crate::device::Device;
use crate::error::RenderError;
use crate::memory::{
    find_memorytype_index, flags_contain, is_first_suitable, no_suitable_type, MemoryRequirements,
    HOST_VISIBLE,
};

verus! {

/// How the queue families share a buffer.
#[derive(Debug, Clone, PartialEq, Eq)]
pub enum BufferSharingMode {
    Exclusive,
    /// Shared by the queue families listed.
    Concurrent(Vec<u32>),
}

/// What a buffer is for and where its memory must be visible.
#[derive(Debug, Clone)]
pub struct BufferCreateInfo {
    pub usage: u32,
    pub share_mode: BufferSharingMode,
    /// Memory property bits the backing memory must have.
    pub visibility: u32,
}

/// A native buffer with the memory type chosen for it. It holds its device.
#[derive(Debug)]
pub struct RawBuffer {
    handle: u64,
    device: Arc<Device>,
    size: u64,
    requirements: MemoryRequirements,
    memory_type_index: u32,
}

impl RawBuffer {
    pub closed spec fn spec_handle(&self) -> u64 {
        self.handle
    }

    pub closed spec fn spec_device(&self) -> Device {
        *self.device
    }

    pub closed spec fn spec_size(&self) -> u64 {
        self.size
    }

    pub closed spec fn spec_requirements(&self) -> MemoryRequirements {
        self.requirements
    }

    pub closed spec fn spec_memory_type_index(&self) -> u32 {
        self.memory_type_index
    }

    /// A buffer of `size` bytes whose native handle and memory requirements the device
    /// gave. The memory type is the first one that the requirements allow and that has
    /// every bit of `info.visibility`; where there is none, creation fails.
    pub fn new(
        device: Arc<Device>,
        info: &BufferCreateInfo,
        size: u64,
        handle: u64,
        requirements: MemoryRequirements,
    ) -> (r: Result<RawBuffer, RenderError>)
        requires
            device.wf(),
            requirements.size >= size,
        ensures
            match r {
                Ok(b) => {
                    &&& b.spec_handle() == handle
                    &&& b.spec_device() == *device
                    &&& b.spec_size() == size
                    &&& b.spec_requirements() == requirements
                    &&& b.spec_requirements().size >= b.spec_size()
                    &&& is_first_suitable(
                        requirements,
                        device.spec_physical().memory_properties.memory_types@,
                        info.visibility,
                        b.spec_memory_type_index() as int,
                    )
                },
                Err(e) => {
                    &&& e == RenderError::MemoryTypeNotFoundError
                    &&& no_suitable_type(
                        requirements,
                        device.spec_physical().memory_properties.memory_types@,
                        info.visibility,
                    )
                },
            },
    {
        let found = find_memorytype_index(
            &requirements,
            device.physical_device_memory_properties(),
            info.visibility,
        );
        match found {
            Some(memory_type_index) => Ok(
                RawBuffer { handle, device, size, requirements, memory_type_index },
            ),
            None => Err(RenderError::MemoryTypeNotFoundError),
        }
    }

    pub fn as_raw(&self) -> (r: u64)
        ensures
            r == self.spec_handle(),
    {
        self.handle
    }

    pub fn size(&self) -> (r: u64)
        ensures
            r == self.spec_size(),
    {
        self.size
    }

    pub fn requirements(&self) -> (r: MemoryRequirements)
        ensures
            r == self.spec_requirements(),
    {
        self.requirements
    }

    pub fn memory_type_index(&self) -> (r: u32)
        ensures
            r == self.spec_memory_type_index(),
    {
        self.memory_type_index
    }
}

/// The memory the device is asked for to back a buffer: the size its requirements
/// give, from the memory type chosen for it.
#[derive(Debug, Clone, Copy, PartialEq, Eq, Structural)]
pub struct MemoryAllocation {
    pub size: u64,
    pub memory_type_index: u32,
}

/// The allocation that backs `buffer`.
pub open spec fn allocation_for(buffer: RawBuffer) -> MemoryAllocation {
    MemoryAllocation {
        size: buffer.spec_requirements().size,
        memory_type_index: buffer.spec_memory_type_index(),
    }
}

/// What to ask the device for to back `buffer`.
pub fn allocation_request(buffer: &RawBuffer) -> (r: MemoryAllocation)
    ensures
        r == allocation_for(*buffer),
{
    MemoryAllocation {
        size: buffer.requirements().size,
        memory_type_index: buffer.memory_type_index(),
    }
}

/// A buffer with its memory bound at offset 0. Where the memory is host-visible it
/// stays mapped for the buffer's whole life, and the mapped view holds exactly the data
/// it was made from.
#[derive(Debug)]
pub struct Subbuffer<T> {
    buffer: RawBuffer,
    size: u64,
    count: u64,
    memory: u64,
    allocation: MemoryAllocation,
    offset: u64,
    device: Arc<Device>,
    mapped: Option<Vec<T>>,
}

/// The number of bytes that `n` elements of `T` take.
pub open spec fn byte_size<T>(n: nat) -> nat {
    n * size_of::<T>()
}

impl<T> Subbuffer<T> {
    /// The buffer sits at the start of its memory, and the mapped view holds as many
    /// elements as the buffer.
    #[verifier::type_invariant]
    closed spec fn inv(&self) -> bool {
        &&& self.offset == 0
        &&& self.mapped matches Some(v) ==> v@.len() == self.count
    }
}

impl<T: Copy> Subbuffer<T> {
    pub closed spec fn spec_size(&self) -> u64 {
        self.size
    }

    /// The number of elements the buffer holds.
    pub closed spec fn spec_len(&self) -> u64 {
        self.count
    }

    pub closed spec fn spec_memory(&self) -> u64 {
        self.memory
    }

    /// The allocation the memory was made by.
    pub closed spec fn spec_allocation(&self) -> MemoryAllocation {
        self.allocation
    }

    pub closed spec fn spec_offset(&self) -> u64 {
        self.offset
    }

    pub closed spec fn spec_device(&self) -> Device {
        *self.device
    }

    pub closed spec fn spec_buffer(&self) -> RawBuffer {
        self.buffer
    }

    /// What the host sees through the mapping, when the memory is mapped.
    pub closed spec fn spec_mapped(&self) -> Option<Seq<T>> {
        match self.mapped {
            Some(v) => Some(v@),
            None => None,
        }
    }

    /// `self` is what `from_data` makes of `data` under `info`.
    pub open spec fn made_from(&self, info: BufferCreateInfo, data: Seq<T>) -> bool {
        &&& self.spec_size() == byte_size::<T>(data.len())
        &&& self.spec_len() == data.len()
        &&& self.spec_offset() == 0
        &&& self.spec_allocation() == allocation_for(self.spec_buffer())
        &&& flags_contain(info.visibility, HOST_VISIBLE) ==> self.spec_mapped() == Some(data)
        &&& !flags_contain(info.visibility, HOST_VISIBLE) ==> self.spec_mapped() is None
    }

    /// Makes a buffer holding `data` from what the driver answered at each step:
    /// `allocation` is the memory it gave for `allocation_request(&buffer)` (or its error
    /// code), `binding` whether it bound that memory to the buffer at offset 0, and
    /// `mapping` whether it mapped the memory, which only host-visible memory is. The data
    /// is then copied into the mapping. A failed allocation or mapping fails with
    /// `AllocationFailure`; a failed binding with `ResourceCreationError` and its code.
    pub fn from_data(
        device: Arc<Device>,
        info: &BufferCreateInfo,
        data: &[T],
        buffer: RawBuffer,
        allocation: Result<u64, i32>,
        binding: Result<(), i32>,
        mapping: Result<(), i32>,
    ) -> (r: Result<Subbuffer<T>, RenderError>)
        requires
            byte_size::<T>(data@.len() as nat) <= u64::MAX,
            buffer.spec_size() == byte_size::<T>(data@.len() as nat),
        ensures
            match (allocation, binding) {
                (Err(_), _) => r == Err::<Subbuffer<T>, RenderError>(RenderError::AllocationFailure),
                (Ok(_), Err(code)) => r == Err::<Subbuffer<T>, RenderError>(
                    RenderError::ResourceCreationError(code),
                ),
                (Ok(memory), Ok(())) => if flags_contain(info.visibility, HOST_VISIBLE)
                    && mapping is Err {
                    r == Err::<Subbuffer<T>, RenderError>(RenderError::AllocationFailure)
                } else {
                    r matches Ok(b) && {
                        &&& b.made_from(*info, data@)
                        &&& b.spec_memory() == memory
                        &&& b.spec_device() == *device
                        &&& b.spec_buffer() == buffer
                    }
                },
            },
    {
        let memory = match allocation {
            Ok(m) => m,
            Err(_) => {
                return Err(RenderError::AllocationFailure);
            },
        };
        match binding {
            Ok(()) => {},
            Err(code) => {
                return Err(RenderError::ResourceCreationError(code));
            },
        }
        let size = buffer.size();
        let mapped = if info.visibility & HOST_VISIBLE == HOST_VISIBLE {
            if mapping.is_err() {
                return Err(RenderError::AllocationFailure);
            }
            let mut copy: Vec<T> = Vec::new();
            let mut i: usize = 0;
            while i < data.len()
                invariant
                    i <= data@.len(),
                    copy@ == data@.subrange(0, i as int),
                decreases data@.len() - i,
            {
                copy.push(data[i]);
                i = i + 1;
            }
            assert(copy@ =~= data@);
            Some(copy)
        } else {
            None
        };
        let allocation = allocation_request(&buffer);
        Ok(
            Subbuffer {
                buffer,
                size,
                count: data.len() as u64,
                memory,
                allocation,
                offset: 0,
                device,
                mapped,
            },
        )
    }

    /// Whether the memory is mapped, so that `read` may be called.
    pub fn is_host_visible(&self) -> (r: bool)
        ensures
            r == self.spec_mapped() is Some,
    {
        self.mapped.is_some()
    }

    /// The mapped view of a host-visible buffer.
    pub fn read(&self) -> (r: &[T])
        requires
            self.spec_mapped() is Some,
        ensures
            r@ == self.spec_mapped()->Some_0,
            r@.len() == self.spec_len(),
    {
        proof {
            use_type_invariant(self);
        }
        match &self.mapped {
            Some(v) => v.as_slice(),
            None => {
                assert(false);
                &[]
            },
        }
    }

    /// Size in bytes.
    pub fn size(&self) -> (r: u64)
        ensures
            r == self.spec_size(),
    {
        self.size
    }

    /// Number of elements: as many as `read` returns where the memory is mapped.
    pub fn len(&self) -> (r: u64)
        ensures
            r == self.spec_len(),
            self.spec_mapped() matches Some(m) ==> r == m.len(),
    {
        proof {
            use_type_invariant(self);
        }
        self.count
    }

    /// Where the buffer starts in its memory.
    pub fn offset(&self) -> (r: u64)
        ensures
            r == self.spec_offset(),
            r == 0,
    {
        proof {
            use_type_invariant(self);
        }
        self.offset
    }

    pub fn memory(&self) -> (r: u64)
        ensures
            r == self.spec_memory(),
    {
        self.memory
    }

    pub fn buffer(&self) -> (r: &RawBuffer)
        ensures
            *r == self.spec_buffer(),
    {
        &self.buffer
    }
}

/// Data written into a host-visible buffer by `from_data` reads back unchanged.
pub proof fn lemma_from_data_round_trip<T: Copy>(
    info: BufferCreateInfo,
    data: Seq<T>,
    b: Subbuffer<T>,
)
    requires
        flags_contain(info.visibility, HOST_VISIBLE),
        b.made_from(info, data),
    ensures
        b.spec_mapped() is Some,
        b.spec_mapped()->Some_0 == data,
        b.spec_len() == data.len(),
{
}

} // verus!
