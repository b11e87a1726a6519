use vstd::prelude::*;

verus! {

/// Memory property bit: memory local to the accelerator.
pub const DEVICE_LOCAL: u32 = 0x1;

/// Memory property bit: memory that the host can map.
pub const HOST_VISIBLE: u32 = 0x2;

/// Memory property bit: host writes need no explicit flush.
pub const HOST_COHERENT: u32 = 0x4;

/// Memory property bit: host reads are cached.
pub const HOST_CACHED: u32 = 0x8;

/// The most memory types a physical accelerator reports.
pub const MAX_MEMORY_TYPES: usize = 32;

/// What the device demands of the memory behind one resource.
#[derive(Debug, Clone, Copy, PartialEq, Eq, Structural)]
pub struct MemoryRequirements {
    pub size: u64,
    pub alignment: u64,
    /// Bit `i` is set when memory type `i` may back the resource.
    pub memory_type_bits: u32,
}

/// One memory type of a physical accelerator.
#[derive(Debug, Clone, Copy, PartialEq, Eq, Structural)]
pub struct MemoryType {
    pub property_flags: u32,
    pub heap_index: u32,
}

/// The memory types of a physical accelerator, in the order it reports them.
#[derive(Debug, Clone)]
pub struct MemoryProperties {
    pub memory_types: Vec<MemoryType>,
}

/// Whether bit `index` of `bits` is set.
pub open spec fn type_bit_set(bits: u32, index: u32) -> bool {
    bits & (1u32 << index) != 0
}

/// Whether `have` holds every property bit of `want`.
pub open spec fn flags_contain(have: u32, want: u32) -> bool {
    have & want == want
}

/// Whether memory type `index` may back a resource with `req` and offers `flags`.
pub open spec fn memory_type_suitable(
    req: MemoryRequirements,
    types: Seq<MemoryType>,
    flags: u32,
    index: int,
) -> bool {
    &&& 0 <= index < types.len()
    &&& index < 32
    &&& type_bit_set(req.memory_type_bits, index as u32)
    &&& flags_contain(types[index].property_flags, flags)
}

/// Memory type `index` is suitable and no lower index is.
pub open spec fn is_first_suitable(
    req: MemoryRequirements,
    types: Seq<MemoryType>,
    flags: u32,
    index: int,
) -> bool {
    &&& memory_type_suitable(req, types, flags, index)
    &&& forall|j: int| 0 <= j < index ==> !memory_type_suitable(req, types, flags, j)
}

/// No memory type is suitable.
pub open spec fn no_suitable_type(req: MemoryRequirements, types: Seq<MemoryType>, flags: u32) -> bool {
    forall|j: int| 0 <= j < types.len() ==> !memory_type_suitable(req, types, flags, j)
}

/// Selects the first memory type, in ascending index order, whose bit is set in the
/// requirement's bitmask and whose properties include every bit of `flags`.
pub fn find_memorytype_index(
    memory_req: &MemoryRequirements,
    memory_prop: &MemoryProperties,
    flags: u32,
) -> (r: Option<u32>)
    ensures
        match r {
            Some(i) => is_first_suitable(*memory_req, memory_prop.memory_types@, flags, i as int),
            None => no_suitable_type(*memory_req, memory_prop.memory_types@, flags),
        },
{
    // Types past the last bit of the mask can never be suitable.
    let reported = memory_prop.memory_types.len();
    let count: usize = if reported < MAX_MEMORY_TYPES {
        reported
    } else {
        MAX_MEMORY_TYPES
    };
    let mut index: usize = 0;
    while index < count
        invariant
            count <= memory_prop.memory_types@.len(),
            count == memory_prop.memory_types@.len() || count == 32,
            count <= 32,
            index <= count,
            forall|j: int|
                0 <= j < index ==> !memory_type_suitable(
                    *memory_req,
                    memory_prop.memory_types@,
                    flags,
                    j,
                ),
        decreases count - index,
    {
        let bit: u32 = 1u32 << (index as u32);
        let props = memory_prop.memory_types[index].property_flags;
        if bit & memory_req.memory_type_bits != 0 && props & flags == flags {
            let bits = memory_req.memory_type_bits;
            assert(bits & bit == bit & bits) by (bit_vector);
            return Some(index as u32);
        }
        let bits = memory_req.memory_type_bits;
        assert(bits & bit == bit & bits) by (bit_vector);
        index = index + 1;
    }
    None
}

} // verus!
