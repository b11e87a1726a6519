use std::sync::Arc;
use vstd::prelude::*;

use crate::error::RenderError;
use crate::instance::Instance;
use crate::memory::{flags_contain, MemoryProperties};

verus! {

/// Queue capability bit: graphics work.
pub const QUEUE_GRAPHICS: u32 = 0x1;

/// Queue capability bit: compute work.
pub const QUEUE_COMPUTE: u32 = 0x2;

/// Queue capability bit: transfer work.
pub const QUEUE_TRANSFER: u32 = 0x4;

/// One queue family of a physical accelerator, as the driver reports it.
#[derive(Debug, Clone, Copy, PartialEq, Eq, Structural)]
pub struct QueueFamilyInfo {
    pub queue_flags: u32,
    pub queue_count: u32,
    /// Whether this family can present to the surface the device is made for.
    pub present_support: bool,
}

/// Accelerator kind: none of the others.
pub const DEVICE_TYPE_OTHER: u32 = 0;

/// Accelerator kind: a GPU sharing the host's memory.
pub const DEVICE_TYPE_INTEGRATED_GPU: u32 = 1;

/// Accelerator kind: a separate GPU.
pub const DEVICE_TYPE_DISCRETE_GPU: u32 = 2;

/// Accelerator kind: a GPU inside a virtual machine.
pub const DEVICE_TYPE_VIRTUAL_GPU: u32 = 3;

/// Accelerator kind: the host processor.
pub const DEVICE_TYPE_CPU: u32 = 4;

/// A physical accelerator, as the driver enumerates it.
#[derive(Debug, Clone)]
pub struct PhysicalDeviceInfo {
    pub handle: u64,
    pub device_type: u32,
    /// Whether the accelerator offers the swap-chain extension.
    pub supports_swapchain: bool,
    pub queue_families: Vec<QueueFamilyInfo>,
    pub memory_properties: MemoryProperties,
}

/// The accelerator and queue family a device is built on.
#[derive(Debug, Clone, Copy, PartialEq, Eq, Structural)]
pub struct DeviceSelection {
    pub physical_index: usize,
    pub queue_family_index: u32,
}

/// Whether a queue family can take graphics work, and present when that is needed.
pub open spec fn family_suitable(f: QueueFamilyInfo, need_present: bool) -> bool {
    &&& flags_contain(f.queue_flags, QUEUE_GRAPHICS)
    &&& need_present ==> f.present_support
}

/// Whether an accelerator has at least one suitable queue family.
pub open spec fn device_suitable(d: PhysicalDeviceInfo, need_present: bool) -> bool {
    exists|j: int|
        0 <= j < d.queue_families@.len() && family_suitable(
            #[trigger] d.queue_families@[j],
            need_present,
        )
}

/// The first queue family of `device` that is suitable, in enumeration order.
pub fn first_suitable_family(device: &PhysicalDeviceInfo, need_present: bool) -> (r: Option<u32>)
    requires
        device.queue_families@.len() <= u32::MAX,
    ensures
        match r {
            Some(j) => {
                &&& j < device.queue_families@.len()
                &&& family_suitable(device.queue_families@[j as int], need_present)
                &&& forall|k: int|
                    0 <= k < j ==> !family_suitable(device.queue_families@[k], need_present)
            },
            None => !device_suitable(*device, need_present),
        },
{
    let n = device.queue_families.len();
    let mut j: usize = 0;
    while j < n
        invariant
            n == device.queue_families@.len(),
            n <= u32::MAX,
            j <= n,
            forall|k: int| 0 <= k < j ==> !family_suitable(device.queue_families@[k], need_present),
        decreases n - j,
    {
        let f = device.queue_families[j];
        let graphics = f.queue_flags & QUEUE_GRAPHICS == QUEUE_GRAPHICS;
        if graphics && (!need_present || f.present_support) {
            return Some(j as u32);
        }
        j = j + 1;
    }
    None
}

/// `s` names the first accelerator, in enumeration order, that has a suitable queue
/// family, and the first such family on it.
pub open spec fn is_first_selection(
    devices: Seq<PhysicalDeviceInfo>,
    need_present: bool,
    s: DeviceSelection,
) -> bool {
    &&& s.physical_index < devices.len()
    &&& s.queue_family_index < devices[s.physical_index as int].queue_families@.len()
    &&& family_suitable(
        devices[s.physical_index as int].queue_families@[s.queue_family_index as int],
        need_present,
    )
    &&& forall|i: int| 0 <= i < s.physical_index ==> !device_suitable(devices[i], need_present)
    &&& forall|k: int|
        0 <= k < s.queue_family_index ==> !family_suitable(
            devices[s.physical_index as int].queue_families@[k],
            need_present,
        )
}

/// No accelerator has a suitable queue family.
pub open spec fn no_suitable_device(devices: Seq<PhysicalDeviceInfo>, need_present: bool) -> bool {
    forall|i: int| 0 <= i < devices.len() ==> !device_suitable(devices[i], need_present)
}

/// Picks the first accelerator, in enumeration order, that has a suitable queue family,
/// and the first such family on it.
pub fn select_physical_device(devices: &Vec<PhysicalDeviceInfo>, need_present: bool) -> (r: Result<
    DeviceSelection,
    RenderError,
>)
    requires
        forall|i: int| 0 <= i < devices@.len() ==> devices@[i].queue_families@.len() <= u32::MAX,
    ensures
        match r {
            Ok(s) => is_first_selection(devices@, need_present, s),
            Err(e) => e == RenderError::NoSuitableDeviceError && no_suitable_device(
                devices@,
                need_present,
            ),
        },
{
    let n = devices.len();
    let mut i: usize = 0;
    while i < n
        invariant
            n == devices@.len(),
            i <= n,
            forall|k: int| 0 <= k < n ==> devices@[k].queue_families@.len() <= u32::MAX,
            forall|k: int| 0 <= k < i ==> !device_suitable(devices@[k], need_present),
        decreases n - i,
    {
        match first_suitable_family(&devices[i], need_present) {
            Some(family) => {
                return Ok(DeviceSelection { physical_index: i, queue_family_index: family });
            },
            None => {},
        }
        i = i + 1;
    }
    Err(RenderError::NoSuitableDeviceError)
}

/// How much an accelerator kind is preferred: lower is better. Separate GPUs come
/// first, then integrated, virtual, the host processor, other kinds, and unknown kinds.
pub open spec fn device_type_rank(device_type: u32) -> u32 {
    if device_type == DEVICE_TYPE_DISCRETE_GPU {
        0
    } else if device_type == DEVICE_TYPE_INTEGRATED_GPU {
        1
    } else if device_type == DEVICE_TYPE_VIRTUAL_GPU {
        2
    } else if device_type == DEVICE_TYPE_CPU {
        3
    } else if device_type == DEVICE_TYPE_OTHER {
        4
    } else {
        5
    }
}

pub fn type_rank(device_type: u32) -> (r: u32)
    ensures
        r == device_type_rank(device_type),
{
    if device_type == DEVICE_TYPE_DISCRETE_GPU {
        0
    } else if device_type == DEVICE_TYPE_INTEGRATED_GPU {
        1
    } else if device_type == DEVICE_TYPE_VIRTUAL_GPU {
        2
    } else if device_type == DEVICE_TYPE_CPU {
        3
    } else if device_type == DEVICE_TYPE_OTHER {
        4
    } else {
        5
    }
}

/// Accelerator `i` offers the swap-chain extension, no such accelerator is of a more
/// preferred kind, and none before it is of as preferred a kind.
pub open spec fn is_preferred(devices: Seq<PhysicalDeviceInfo>, i: int) -> bool {
    &&& 0 <= i < devices.len()
    &&& devices[i].supports_swapchain
    &&& forall|k: int|
        0 <= k < devices.len() && devices[k].supports_swapchain ==> device_type_rank(
            devices[i].device_type,
        ) <= device_type_rank(#[trigger] devices[k].device_type)
    &&& forall|k: int|
        0 <= k < i && devices[k].supports_swapchain ==> device_type_rank(devices[i].device_type)
            < device_type_rank(#[trigger] devices[k].device_type)
}

/// No accelerator offers the swap-chain extension.
pub open spec fn no_swapchain_device(devices: Seq<PhysicalDeviceInfo>) -> bool {
    forall|k: int| 0 <= k < devices.len() ==> !(#[trigger] devices[k]).supports_swapchain
}

/// Among the accelerators that offer the swap-chain extension, the first of the most
/// preferred kind.
pub fn preferred_physical_device(devices: &Vec<PhysicalDeviceInfo>) -> (r: Result<
    usize,
    RenderError,
>)
    ensures
        match r {
            Ok(i) => is_preferred(devices@, i as int),
            Err(e) => e == RenderError::NoSuitableDeviceError && no_swapchain_device(devices@),
        },
{
    let mut best: Option<usize> = None;
    let mut i: usize = 0;
    while i < devices.len()
        invariant
            i <= devices@.len(),
            match best {
                Some(b) => {
                    &&& b < i
                    &&& devices@[b as int].supports_swapchain
                    &&& forall|k: int|
                        0 <= k < i && devices@[k].supports_swapchain ==> device_type_rank(
                            devices@[b as int].device_type,
                        ) <= device_type_rank(#[trigger] devices@[k].device_type)
                    &&& forall|k: int|
                        0 <= k < b && devices@[k].supports_swapchain ==> device_type_rank(
                            devices@[b as int].device_type,
                        ) < device_type_rank(#[trigger] devices@[k].device_type)
                },
                None => forall|k: int| 0 <= k < i ==> !(#[trigger] devices@[k]).supports_swapchain,
            },
        decreases devices@.len() - i,
    {
        if devices[i].supports_swapchain {
            match best {
                Some(b) => {
                    if type_rank(devices[i].device_type) < type_rank(devices[b].device_type) {
                        best = Some(i);
                    }
                },
                None => {
                    best = Some(i);
                },
            }
        }
        i = i + 1;
    }
    match best {
        Some(b) => Ok(b),
        None => Err(RenderError::NoSuitableDeviceError),
    }
}

/// Whether family `j` can serve a role that needs any bit of `role`, can present, and
/// is not taken yet.
pub open spec fn free_for_role(families: Seq<QueueFamilyInfo>, role: u32, taken: Seq<u32>, j: int) -> bool {
    &&& 0 <= j < families.len()
    &&& families[j].queue_flags & role != 0
    &&& families[j].present_support
    &&& !taken.contains(j as u32)
}

/// Family `j` is the first that is free for the role.
pub open spec fn first_free(families: Seq<QueueFamilyInfo>, role: u32, taken: Seq<u32>, j: int) -> bool {
    &&& free_for_role(families, role, taken, j)
    &&& forall|k: int| 0 <= k < j ==> !free_for_role(families, role, taken, k)
}

/// `assigned` gives each of the first roles, in turn, the first family still free for it.
pub open spec fn greedy_assignment(families: Seq<QueueFamilyInfo>, roles: Seq<u32>, assigned: Seq<u32>) -> bool {
    &&& assigned.len() <= roles.len()
    &&& forall|i: int|
        0 <= i < assigned.len() ==> first_free(
            families,
            roles[i],
            assigned.subrange(0, i),
            #[trigger] assigned[i] as int,
        )
}

/// The roles a device with role queues serves, in the order they pick families.
pub open spec fn role_order() -> Seq<u32> {
    seq![QUEUE_GRAPHICS, QUEUE_COMPUTE, QUEUE_TRANSFER]
}

/// Handing out families greedily, some role finds none left for it.
pub open spec fn assignment_blocked(families: Seq<QueueFamilyInfo>, roles: Seq<u32>) -> bool {
    exists|w: Seq<u32>|
        #![trigger greedy_assignment(families, roles, w)]
        w.len() < roles.len() && greedy_assignment(families, roles, w) && forall|j: int|
            !free_for_role(families, roles[w.len() as int], w, j)
}

/// Gives each role, in order, a queue family of its own: the first one that takes some
/// of the role's work, can present, and no earlier role took. When a role finds none,
/// there is no suitable queue.
pub fn assign_queue_families(device: &PhysicalDeviceInfo, roles: &Vec<u32>) -> (r: Result<
    Vec<u32>,
    RenderError,
>)
    requires
        device.queue_families@.len() <= u32::MAX,
    ensures
        match r {
            Ok(assigned) => assigned@.len() == roles@.len() && greedy_assignment(
                device.queue_families@,
                roles@,
                assigned@,
            ),
            Err(e) => e == RenderError::NoSuitableQueueError && assignment_blocked(
                device.queue_families@,
                roles@,
            ),
        },
{
    let families = &device.queue_families;
    let n = families.len();
    let mut assigned: Vec<u32> = Vec::new();
    let mut i: usize = 0;
    while i < roles.len()
        invariant
            n == families@.len(),
            families == &device.queue_families,
            n <= u32::MAX,
            i <= roles@.len(),
            assigned@.len() == i,
            greedy_assignment(families@, roles@, assigned@),
        decreases roles@.len() - i,
    {
        let role = roles[i];
        let mut j: usize = 0;
        let mut found: Option<u32> = None;
        while j < n
            invariant_except_break
                found is None,
            invariant
                n == families@.len(),
                n <= u32::MAX,
                j <= n,
                forall|k: int| 0 <= k < j ==> !free_for_role(families@, role, assigned@, k),
            ensures
                match found {
                    Some(x) => first_free(families@, role, assigned@, x as int),
                    None => forall|k: int| 0 <= k < n ==> !free_for_role(families@, role, assigned@, k),
                },
            decreases n - j,
        {
            let f = families[j];
            if f.queue_flags & role != 0 && f.present_support && !contains_index(&assigned, j as u32) {
                found = Some(j as u32);
                break;
            }
            j = j + 1;
        }
        match found {
            Some(index) => {
                let ghost before = assigned@;
                assigned.push(index);
                proof {
                    assert forall|k: int| 0 <= k < assigned@.len() implies first_free(
                        families@,
                        roles@[k],
                        assigned@.subrange(0, k),
                        #[trigger] assigned@[k] as int,
                    ) by {
                        if k < before.len() {
                            assert(assigned@.subrange(0, k) =~= before.subrange(0, k));
                        } else {
                            assert(assigned@.subrange(0, k) =~= before);
                        }
                    }
                }
            },
            None => {
                proof {
                    assert forall|k: int| !free_for_role(families@, role, assigned@, k) by {
                        if 0 <= k < n {
                        }
                    }
                    assert(greedy_assignment(families@, roles@, assigned@));
                }
                return Err(RenderError::NoSuitableQueueError);
            },
        }
        i = i + 1;
    }
    Ok(assigned)
}

/// Whether `index` occurs in `list`.
pub fn contains_index(list: &Vec<u32>, index: u32) -> (r: bool)
    ensures
        r == list@.contains(index),
{
    let mut k: usize = 0;
    while k < list.len()
        invariant
            k <= list@.len(),
            forall|m: int| 0 <= m < k ==> list@[m] != index,
        decreases list@.len() - k,
    {
        if list[k] == index {
            assert(list@[k as int] == index);
            return true;
        }
        k = k + 1;
    }
    false
}

/// Where the graphics and compute roles find their queues inside the chosen family.
#[derive(Debug, Clone, Copy, PartialEq, Eq, Structural)]
pub struct QueuePlan {
    /// How many queues to create in the family, each of priority 1.0.
    pub queue_count: u32,
    pub graphics_index: u32,
    pub compute_index: u32,
}

/// Both roles draw from one family: compute gets a queue of its own when the family
/// offers two, and shares the graphics queue otherwise.
pub fn queue_plan(family: &QueueFamilyInfo) -> (r: QueuePlan)
    ensures
        family.queue_count >= 2 ==> r == (QueuePlan {
            queue_count: 2,
            graphics_index: 0,
            compute_index: 1,
        }),
        family.queue_count < 2 ==> r == (QueuePlan {
            queue_count: 1,
            graphics_index: 0,
            compute_index: 0,
        }),
{
    if family.queue_count >= 2 {
        QueuePlan { queue_count: 2, graphics_index: 0, compute_index: 1 }
    } else {
        QueuePlan { queue_count: 1, graphics_index: 0, compute_index: 0 }
    }
}

/// The native queues a device hands out, one per role.
#[derive(Debug, Clone, Copy, PartialEq, Eq, Structural)]
pub struct Queues {
    pub graphics: u64,
    pub compute: u64,
}

/// A connection to one physical accelerator. It holds its `Instance`, so the connection
/// to the driver outlives every device made from it.
#[derive(Debug)]
pub struct Device {
    handle: u64,
    physical_index: usize,
    physical_device: PhysicalDeviceInfo,
    instance: Arc<Instance>,
    queue_family_index: u32,
    queues: Queues,
}

impl Device {
    pub open spec fn wf(&self) -> bool {
        &&& self.spec_queue_family_index() < self.spec_physical().queue_families@.len()
        &&& family_suitable(
            self.spec_physical().queue_families@[self.spec_queue_family_index() as int],
            false,
        )
    }

    pub closed spec fn spec_handle(&self) -> u64 {
        self.handle
    }

    /// Where the accelerator stood in the enumeration the device was chosen from.
    pub closed spec fn spec_physical_index(&self) -> usize {
        self.physical_index
    }

    pub closed spec fn spec_physical(&self) -> PhysicalDeviceInfo {
        self.physical_device
    }

    pub closed spec fn spec_instance(&self) -> Instance {
        *self.instance
    }

    pub closed spec fn spec_queue_family_index(&self) -> u32 {
        self.queue_family_index
    }

    pub closed spec fn spec_queues(&self) -> Queues {
        self.queues
    }

    /// A device on the first enumerated accelerator with a queue family that takes
    /// graphics work (and presents, when `need_present`), its queues from the first such
    /// family. `handle` and `queues` are what the driver made for that choice, which
    /// `select_physical_device` gives beforehand. Without such an accelerator creation
    /// fails with `NoSuitableDeviceError`.
    pub fn new(
        instance: Arc<Instance>,
        devices: Vec<PhysicalDeviceInfo>,
        need_present: bool,
        handle: u64,
        queues: Queues,
    ) -> (r: Result<Device, RenderError>)
        requires
            forall|i: int| 0 <= i < devices@.len() ==> devices@[i].queue_families@.len() <= u32::MAX,
        ensures
            match r {
                Ok(d) => {
                    &&& d.wf()
                    &&& is_first_selection(
                        devices@,
                        need_present,
                        DeviceSelection {
                            physical_index: d.spec_physical_index(),
                            queue_family_index: d.spec_queue_family_index(),
                        },
                    )
                    &&& d.spec_physical() == devices@[d.spec_physical_index() as int]
                    &&& d.spec_handle() == handle
                    &&& d.spec_instance() == *instance
                    &&& d.spec_queues() == queues
                },
                Err(e) => e == RenderError::NoSuitableDeviceError && no_suitable_device(
                    devices@,
                    need_present,
                ),
            },
    {
        let selection = match select_physical_device(&devices, need_present) {
            Ok(s) => s,
            Err(e) => {
                return Err(e);
            },
        };
        let mut devices = devices;
        let physical_device = devices.remove(selection.physical_index);
        Ok(
            Device {
                handle,
                physical_index: selection.physical_index,
                physical_device,
                instance,
                queue_family_index: selection.queue_family_index,
                queues,
            },
        )
    }

    /// A device on the preferred accelerator (see `preferred_physical_device`) with a
    /// queue family of its own for each of the graphics, compute and transfer roles, as
    /// `assign_queue_families` hands them out; the graphics family serves `queue`.
    /// Returns the device and the three families. Fails with `NoSuitableDeviceError`
    /// when no accelerator offers the swap-chain extension, and with
    /// `NoSuitableQueueError` when some role finds no family.
    pub fn with_role_queues(
        instance: Arc<Instance>,
        devices: Vec<PhysicalDeviceInfo>,
        handle: u64,
        queues: Queues,
    ) -> (r: Result<(Device, Vec<u32>), RenderError>)
        requires
            forall|i: int| 0 <= i < devices@.len() ==> devices@[i].queue_families@.len() <= u32::MAX,
        ensures
            match r {
                Ok((d, families)) => {
                    &&& d.wf()
                    &&& is_preferred(devices@, d.spec_physical_index() as int)
                    &&& d.spec_physical() == devices@[d.spec_physical_index() as int]
                    &&& families@.len() == 3
                    &&& greedy_assignment(d.spec_physical().queue_families@, role_order(), families@)
                    &&& d.spec_queue_family_index() == families@[0]
                    &&& d.spec_handle() == handle
                    &&& d.spec_instance() == *instance
                    &&& d.spec_queues() == queues
                },
                Err(e) => if no_swapchain_device(devices@) {
                    e == RenderError::NoSuitableDeviceError
                } else {
                    &&& e == RenderError::NoSuitableQueueError
                    &&& exists|i: int|
                        is_preferred(devices@, i) && assignment_blocked(
                            #[trigger] devices@[i].queue_families@,
                            role_order(),
                        )
                },
            },
    {
        let chosen = match preferred_physical_device(&devices) {
            Ok(i) => i,
            Err(e) => {
                return Err(e);
            },
        };
        let roles = vec![QUEUE_GRAPHICS, QUEUE_COMPUTE, QUEUE_TRANSFER];
        assert(roles@ =~= role_order());
        let families = match assign_queue_families(&devices[chosen], &roles) {
            Ok(f) => f,
            Err(e) => {
                assert(is_preferred(devices@, chosen as int));
                return Err(e);
            },
        };
        let graphics = families[0];
        proof {
            let fams = devices@[chosen as int].queue_families@;
            assert(first_free(fams, roles@[0], families@.subrange(0, 0), families@[0] as int));
            let flags = fams[graphics as int].queue_flags;
            assert(flags & 1u32 != 0 ==> flags & 1u32 == 1u32) by (bit_vector);
        }
        let mut devices = devices;
        let physical_device = devices.remove(chosen);
        Ok(
            (
                Device {
                    handle,
                    physical_index: chosen,
                    physical_device,
                    instance,
                    queue_family_index: graphics,
                    queues,
                },
                families,
            ),
        )
    }

    pub fn as_raw(&self) -> (r: u64)
        ensures
            r == self.spec_handle(),
    {
        self.handle
    }

    pub fn physical(&self) -> (r: &PhysicalDeviceInfo)
        ensures
            *r == self.spec_physical(),
    {
        &self.physical_device
    }

    pub fn instance(&self) -> (r: &Arc<Instance>)
        ensures
            **r == self.spec_instance(),
    {
        &self.instance
    }

    pub fn queue_family_index(&self) -> (r: u32)
        ensures
            r == self.spec_queue_family_index(),
    {
        self.queue_family_index
    }

    pub fn physical_device_memory_properties(&self) -> (r: &MemoryProperties)
        ensures
            *r == self.spec_physical().memory_properties,
    {
        &self.physical_device.memory_properties
    }

    /// The queue that takes graphics work.
    pub fn queue(&self) -> (r: u64)
        ensures
            r == self.spec_queues().graphics,
    {
        self.queues.graphics
    }

    /// The queue that takes compute work.
    pub fn compute_queue(&self) -> (r: u64)
        ensures
            r == self.spec_queues().compute,
    {
        self.queues.compute
    }
}

} // verus!
