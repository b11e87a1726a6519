use std::sync::Arc;

use rendering::command_buffer::{CommandBuffer, CommandBufferState, CommandPool, RecordedCommand};
use rendering::device::{
    assign_queue_families, contains_index, preferred_physical_device, queue_plan,
    select_physical_device, type_rank, Device, PhysicalDeviceInfo, QueueFamilyInfo, Queues,
    DEVICE_TYPE_CPU, DEVICE_TYPE_DISCRETE_GPU, DEVICE_TYPE_INTEGRATED_GPU, DEVICE_TYPE_OTHER,
    DEVICE_TYPE_VIRTUAL_GPU, QUEUE_COMPUTE, QUEUE_GRAPHICS, QUEUE_TRANSFER,
};
use rendering::error::{resource_created, RenderError};
use rendering::fence::Fence;
use rendering::instance::{with_debug_extension, Instance, API_VERSION_1_3};
use rendering::memory::{MemoryProperties, MemoryType, DEVICE_LOCAL, HOST_COHERENT, HOST_VISIBLE};

fn family(flags: u32, count: u32, present: bool) -> QueueFamilyInfo {
    QueueFamilyInfo { queue_flags: flags, queue_count: count, present_support: present }
}

fn physical(handle: u64, families: Vec<QueueFamilyInfo>) -> PhysicalDeviceInfo {
    PhysicalDeviceInfo {
        handle,
        device_type: 2,
        supports_swapchain: true,
        queue_families: families,
        memory_properties: MemoryProperties {
            memory_types: vec![
                MemoryType { property_flags: DEVICE_LOCAL, heap_index: 0 },
                MemoryType { property_flags: HOST_VISIBLE | HOST_COHERENT, heap_index: 1 },
            ],
        },
    }
}

fn new_device(instance: Arc<Instance>) -> Arc<Device> {
    let devices = vec![physical(10, vec![family(QUEUE_GRAPHICS | QUEUE_COMPUTE, 2, true)])];
    Arc::new(Device::new(instance, devices, false, 20, Queues { graphics: 30, compute: 31 }).unwrap())
}

#[test]
fn create_instances() {
    let instance = Arc::new(Instance::new(Ok(1)).unwrap());
    println!("created instance");

    let device = new_device(instance.clone());

    let mut fence = Fence::new(device.clone(), 40);

    let cmd_alloc = Arc::new(CommandPool::new(device.clone(), 50));

    let mut command_buffer = CommandBuffer::new(cmd_alloc.clone(), device.clone(), 60);

    command_buffer.begin();

    command_buffer.end();

    fence.submit_command_buffers(vec![command_buffer], Ok(())).unwrap();
}

#[test]
fn end_to_end_submit_and_wait() {
    let instance = Arc::new(Instance::new(Ok(1)).unwrap());
    let device = new_device(instance);
    let mut fence = Fence::new(device.clone(), 40);
    let pool = Arc::new(CommandPool::new(device.clone(), 50));
    let mut cb = CommandBuffer::new(pool, device.clone(), 60);
    cb.begin();
    cb.end();
    assert_eq!(cb.state(), CommandBufferState::Executable);

    let buffers = vec![cb];
    let submission = fence.submission(device.queue(), &buffers).unwrap();
    assert_eq!(submission.queue, 30);
    assert_eq!(submission.fence, 40);
    assert_eq!(submission.command_buffers, vec![60]);

    fence.submit_command_buffers(buffers, Ok(())).unwrap();
    assert!(!fence.is_signaled());
    assert_eq!(fence.pinned_count(), 1);

    let mut done = fence.wait_for_finished(Ok(())).unwrap();
    assert!(fence.is_signaled());
    assert_eq!(fence.pinned_count(), 0);
    assert_eq!(done.len(), 1);
    assert_eq!(done[0].as_raw(), 60);
    assert_eq!(done[0].state(), CommandBufferState::Initial);

    // Re-recordable once the wait has been observed.
    done[0].begin();
    assert_eq!(done[0].state(), CommandBufferState::Recording);
    done[0].end();
    drop(done);
}

#[test]
fn first_wait_on_new_fence_returns_at_once() {
    let device = new_device(Arc::new(Instance::new(Ok(1)).unwrap()));
    let mut fence = Fence::new(device, 40);
    assert!(fence.is_signaled());
    let done = fence.wait_for_finished(Ok(())).unwrap();
    assert!(done.is_empty());
    assert!(fence.is_signaled());
}

#[test]
fn busy_fence_refuses_submission() {
    let device = new_device(Arc::new(Instance::new(Ok(1)).unwrap()));
    let pool = Arc::new(CommandPool::new(device.clone(), 50));
    let mut fence = Fence::new(device.clone(), 40);
    let mut handles = CommandBuffer::new_count(pool, device.clone(), vec![61, 62]);
    assert_eq!(handles.len(), 2);
    for cb in handles.iter_mut() {
        cb.begin();
        cb.end();
    }
    let second = handles.pop().unwrap();
    fence.submit_command_buffers(handles, Ok(())).unwrap();
    let buffers = vec![second];
    assert_eq!(
        fence.submission(device.queue(), &buffers).unwrap_err(),
        RenderError::SynchronizationError
    );
    assert_eq!(
        fence.submit_command_buffers(buffers, Ok(())).unwrap_err(),
        RenderError::SynchronizationError
    );
    assert_eq!(fence.pinned_count(), 1);
}

#[test]
fn failed_wait_keeps_buffers_pinned() {
    let device = new_device(Arc::new(Instance::new(Ok(1)).unwrap()));
    let pool = Arc::new(CommandPool::new(device.clone(), 50));
    let mut fence = Fence::new(device.clone(), 40);
    let mut cb = CommandBuffer::new(pool, device, 60);
    cb.begin();
    cb.end();
    fence.submit_command_buffers(vec![cb], Ok(())).unwrap();
    assert_eq!(fence.wait_for_finished(Err(-4)).unwrap_err(), RenderError::SynchronizationError);
    assert_eq!(fence.pinned_count(), 1);
    assert!(!fence.is_signaled());
    let done = fence.wait_for_finished(Ok(())).unwrap();
    assert_eq!(done.len(), 1);
}

#[test]
fn refused_submission_pins_nothing() {
    let device = new_device(Arc::new(Instance::new(Ok(1)).unwrap()));
    let pool = Arc::new(CommandPool::new(device.clone(), 50));
    let mut fence = Fence::new(device.clone(), 40);
    let mut cb = CommandBuffer::new(pool, device, 60);
    cb.begin();
    cb.end();
    assert_eq!(
        fence.submit_command_buffers(vec![cb], Err(-4)).unwrap_err(),
        RenderError::SynchronizationError
    );
    assert!(fence.is_signaled());
    assert_eq!(fence.pinned_count(), 0);
}

#[test]
fn recording_keeps_commands_in_order() {
    let device = new_device(Arc::new(Instance::new(Ok(1)).unwrap()));
    let pool = Arc::new(CommandPool::new(device.clone(), 50));
    assert_eq!(pool.queue_family_index(), 0);
    let mut cb = CommandBuffer::new(pool, device, 60);
    assert_eq!(cb.state(), CommandBufferState::Initial);
    cb.begin();
    cb.begin_render_pass(0);
    cb.begin_rendering();
    assert_eq!(
        cb.commands(),
        &vec![RecordedCommand::BeginRenderPass { contents: 0 }, RecordedCommand::BeginRendering]
    );
    cb.end();
    assert_eq!(cb.state(), CommandBufferState::Executable);
}

#[test]
fn device_selection_first_match() {
    let devices = vec![
        physical(1, vec![family(QUEUE_COMPUTE, 1, true)]),
        physical(2, vec![family(QUEUE_TRANSFER, 1, true), family(QUEUE_GRAPHICS, 1, false)]),
        physical(3, vec![family(QUEUE_GRAPHICS, 1, true)]),
    ];
    let sel = select_physical_device(&devices, false).unwrap();
    assert_eq!((sel.physical_index, sel.queue_family_index), (1, 1));
    let sel = select_physical_device(&devices, true).unwrap();
    assert_eq!((sel.physical_index, sel.queue_family_index), (2, 0));
}

#[test]
fn device_selection_fails_without_graphics() {
    let devices = vec![physical(1, vec![family(QUEUE_COMPUTE | QUEUE_TRANSFER, 4, true)])];
    assert_eq!(
        select_physical_device(&devices, false).unwrap_err(),
        RenderError::NoSuitableDeviceError
    );
    assert_eq!(select_physical_device(&vec![], false).unwrap_err(), RenderError::NoSuitableDeviceError);
}

#[test]
fn queue_plan_shares_family() {
    let p = queue_plan(&family(QUEUE_GRAPHICS, 4, false));
    assert_eq!((p.queue_count, p.graphics_index, p.compute_index), (2, 0, 1));
    let p = queue_plan(&family(QUEUE_GRAPHICS, 1, false));
    assert_eq!((p.queue_count, p.graphics_index, p.compute_index), (1, 0, 0));
}

#[test]
fn device_accessors() {
    let instance = Arc::new(Instance::new(Ok(7)).unwrap());
    let device = new_device(instance);
    assert_eq!(device.as_raw(), 20);
    assert_eq!(device.queue(), 30);
    assert_eq!(device.compute_queue(), 31);
    assert_eq!(device.queue_family_index(), 0);
    assert_eq!(device.physical().handle, 10);
    assert_eq!(device.instance().as_raw(), 7);
    assert_eq!(device.physical_device_memory_properties().memory_types.len(), 2);
}

#[test]
fn instance_extensions() {
    let names = with_debug_extension(vec!["VK_KHR_surface".to_string()]);
    assert_eq!(names, vec!["VK_KHR_surface".to_string(), "VK_EXT_debug_utils".to_string()]);
    let instance = Instance::from_display_handle(vec!["VK_KHR_surface".to_string()], Ok(3)).unwrap();
    assert_eq!(instance.as_raw(), 3);
    assert_eq!(instance.enabled_extensions(), &names);
    assert_eq!(Instance::new(Ok(4)).unwrap().enabled_extensions(), &vec!["VK_EXT_debug_utils".to_string()]);
    assert_eq!(API_VERSION_1_3, (1 << 22) | (3 << 12));
}

#[test]
fn failed_connection_is_an_initialization_error() {
    assert_eq!(Instance::new(Err(-9)).unwrap_err(), RenderError::InitializationError);
    assert_eq!(
        Instance::from_extensions(vec![], Err(-7)).unwrap_err(),
        RenderError::InitializationError
    );
    assert_eq!(
        Instance::from_display_handle(vec![], Err(-7)).unwrap_err(),
        RenderError::InitializationError
    );
    assert_eq!(Instance::from_extensions(vec![], Ok(5)).unwrap().as_raw(), 5);
}

#[test]
fn creation_errors_carry_the_code() {
    assert_eq!(resource_created(Ok(5)), Ok(5));
    assert_eq!(resource_created(Err(-2)), Err(RenderError::ResourceCreationError(-2)));
}

fn typed(handle: u64, device_type: u32, swapchain: bool) -> PhysicalDeviceInfo {
    let mut d = physical(handle, vec![family(QUEUE_GRAPHICS, 1, true)]);
    d.device_type = device_type;
    d.supports_swapchain = swapchain;
    d
}

#[test]
fn preferred_device_by_kind() {
    let devices = vec![
        typed(1, DEVICE_TYPE_CPU, true),
        typed(2, DEVICE_TYPE_DISCRETE_GPU, false),
        typed(3, DEVICE_TYPE_INTEGRATED_GPU, true),
        typed(4, DEVICE_TYPE_INTEGRATED_GPU, true),
    ];
    assert_eq!(preferred_physical_device(&devices), Ok(2));
    let devices = vec![typed(1, 99, true), typed(2, DEVICE_TYPE_OTHER, true), typed(3, DEVICE_TYPE_VIRTUAL_GPU, true)];
    assert_eq!(preferred_physical_device(&devices), Ok(2));
    let devices = vec![typed(1, DEVICE_TYPE_DISCRETE_GPU, false)];
    assert_eq!(preferred_physical_device(&devices), Err(RenderError::NoSuitableDeviceError));
    assert_eq!(type_rank(DEVICE_TYPE_DISCRETE_GPU), 0);
    assert_eq!(type_rank(DEVICE_TYPE_OTHER), 4);
}

#[test]
fn queue_families_one_per_role() {
    let d = physical(
        1,
        vec![
            family(QUEUE_GRAPHICS | QUEUE_COMPUTE | QUEUE_TRANSFER, 16, true),
            family(QUEUE_COMPUTE | QUEUE_TRANSFER, 2, false),
            family(QUEUE_COMPUTE | QUEUE_TRANSFER, 2, true),
            family(QUEUE_TRANSFER, 1, true),
        ],
    );
    let roles = vec![QUEUE_GRAPHICS, QUEUE_COMPUTE, QUEUE_TRANSFER];
    assert_eq!(assign_queue_families(&d, &roles), Ok(vec![0, 2, 3]));
    let roles = vec![QUEUE_GRAPHICS, QUEUE_GRAPHICS];
    assert_eq!(assign_queue_families(&d, &roles), Err(RenderError::NoSuitableQueueError));
    assert_eq!(assign_queue_families(&d, &vec![]), Ok(vec![]));
    assert!(contains_index(&vec![4, 2], 2));
    assert!(!contains_index(&vec![4, 2], 3));
}

#[test]
fn device_takes_the_first_selection() {
    let instance = Arc::new(Instance::new(Ok(1)).unwrap());
    let devices = vec![
        physical(1, vec![family(QUEUE_COMPUTE, 1, true)]),
        physical(2, vec![family(QUEUE_TRANSFER, 1, true), family(QUEUE_GRAPHICS, 1, false)]),
        physical(3, vec![family(QUEUE_GRAPHICS, 1, true)]),
    ];
    let queues = Queues { graphics: 30, compute: 31 };
    let d = Device::new(instance.clone(), devices.clone(), false, 20, queues).unwrap();
    assert_eq!((d.physical().handle, d.queue_family_index()), (2, 1));
    let d = Device::new(instance.clone(), devices, true, 20, queues).unwrap();
    assert_eq!((d.physical().handle, d.queue_family_index()), (3, 0));
    let none = vec![physical(1, vec![family(QUEUE_COMPUTE, 1, true)])];
    assert_eq!(
        Device::new(instance, none, false, 20, queues).unwrap_err(),
        RenderError::NoSuitableDeviceError
    );
}

#[test]
fn device_with_role_queues() {
    let instance = Arc::new(Instance::new(Ok(1)).unwrap());
    let queues = Queues { graphics: 30, compute: 31 };
    let mut cpu = physical(1, vec![family(QUEUE_GRAPHICS | QUEUE_COMPUTE | QUEUE_TRANSFER, 1, true)]);
    cpu.device_type = DEVICE_TYPE_CPU;
    let gpu = physical(
        2,
        vec![
            family(QUEUE_GRAPHICS | QUEUE_COMPUTE, 4, true),
            family(QUEUE_COMPUTE, 2, true),
            family(QUEUE_TRANSFER, 1, true),
        ],
    );
    let (d, families) = Device::with_role_queues(instance.clone(), vec![cpu.clone(), gpu], 20, queues).unwrap();
    assert_eq!(d.physical().handle, 2);
    assert_eq!(families, vec![0, 1, 2]);
    assert_eq!(d.queue_family_index(), 0);

    // The only accelerator cannot give three roles a family each.
    assert_eq!(
        Device::with_role_queues(instance.clone(), vec![cpu.clone()], 20, queues).unwrap_err(),
        RenderError::NoSuitableQueueError
    );
    cpu.supports_swapchain = false;
    assert_eq!(
        Device::with_role_queues(instance, vec![cpu], 20, queues).unwrap_err(),
        RenderError::NoSuitableDeviceError
    );
}
