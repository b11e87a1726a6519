use std::sync::Arc;

use rendering::buffer::{allocation_request, BufferCreateInfo, BufferSharingMode, MemoryAllocation, RawBuffer, Subbuffer};
use rendering::descriptors::{descriptor_count, DescriptorPool, DescriptorSetLayout, DescriptorSets, DescriptorType};
use rendering::device::{Device, PhysicalDeviceInfo, QueueFamilyInfo, Queues, QUEUE_GRAPHICS};
use rendering::error::RenderError;
use rendering::image::{Extent3D, Image, ImageCreateInfo, ImageView, ImageViewCreateInfo};
use rendering::instance::Instance;
use rendering::memory::{MemoryProperties, MemoryRequirements, MemoryType, DEVICE_LOCAL, HOST_COHERENT, HOST_VISIBLE};
use rendering::render_pass::{RenderPass, LAYOUT_PRESENT_SRC, LOAD_OP_CLEAR};

fn resource_device() -> Arc<Device> {
    let physical = PhysicalDeviceInfo {
        handle: 10,
        device_type: 2,
        supports_swapchain: true,
        queue_families: vec![QueueFamilyInfo { queue_flags: QUEUE_GRAPHICS, queue_count: 1, present_support: false }],
        memory_properties: MemoryProperties {
            memory_types: vec![
                MemoryType { property_flags: DEVICE_LOCAL, heap_index: 0 },
                MemoryType { property_flags: HOST_VISIBLE | HOST_COHERENT, heap_index: 1 },
            ],
        },
    };
    Arc::new(Device::new(Arc::new(Instance::new(Ok(1)).unwrap()), vec![physical], false, 20, Queues { graphics: 30, compute: 30 }).unwrap())
}

fn info(visibility: u32) -> BufferCreateInfo {
    BufferCreateInfo { usage: 0x20, share_mode: BufferSharingMode::Exclusive, visibility }
}

fn buffer_from<T: Copy>(device: &Arc<Device>, visibility: u32, data: &[T]) -> Subbuffer<T> {
    let size = std::mem::size_of_val(data) as u64;
    let req = MemoryRequirements { size: size.max(64), alignment: 64, memory_type_bits: 0b11 };
    let raw = RawBuffer::new(device.clone(), &info(visibility), size, 100, req).unwrap();
    Subbuffer::from_data(device.clone(), &info(visibility), data, raw, Ok(200), Ok(()), Ok(())).unwrap()
}

#[test]
fn buffer_round_trip_empty() {
    let device = resource_device();
    let b = buffer_from::<u32>(&device, HOST_VISIBLE, &[]);
    assert_eq!(b.read(), &[] as &[u32]);
    assert_eq!(b.size(), 0);
    assert_eq!(b.len(), 0);
}

#[test]
fn buffer_round_trip_one() {
    let device = resource_device();
    let b = buffer_from(&device, HOST_VISIBLE, &[0xdead_beef_u32]);
    assert_eq!(b.read(), &[0xdead_beef_u32]);
    assert_eq!(b.size(), 4);
    assert_eq!(b.len(), 1);
}

#[test]
fn buffer_round_trip_many() {
    let device = resource_device();
    let data: Vec<[f32; 3]> = (0..100).map(|i| [i as f32, -(i as f32), 0.5]).collect();
    let b = buffer_from(&device, HOST_VISIBLE | HOST_COHERENT, &data);
    assert_eq!(b.read(), data.as_slice());
    assert_eq!(b.size(), 1200);
    assert_eq!(b.len(), 100);
}

#[test]
fn raw_buffer_picks_memory_type() {
    let device = resource_device();
    let req = MemoryRequirements { size: 64, alignment: 16, memory_type_bits: 0b11 };
    let raw = RawBuffer::new(device.clone(), &info(HOST_VISIBLE), 64, 100, req).unwrap();
    assert_eq!(raw.memory_type_index(), 1);
    assert_eq!(raw.requirements(), req);
    assert_eq!(raw.as_raw(), 100);
    assert_eq!(raw.size(), 64);
    let raw = RawBuffer::new(device.clone(), &info(DEVICE_LOCAL), 64, 100, req).unwrap();
    assert_eq!(raw.memory_type_index(), 0);
}

#[test]
fn raw_buffer_without_memory_type() {
    let device = resource_device();
    let req = MemoryRequirements { size: 64, alignment: 16, memory_type_bits: 0b01 };
    let err = RawBuffer::new(device, &info(HOST_VISIBLE), 64, 100, req).unwrap_err();
    assert_eq!(err, RenderError::MemoryTypeNotFoundError);
}

#[test]
fn device_local_buffer_is_not_mapped_and_allocation_failure() {
    let device = resource_device();
    let data = [1u16, 2, 3];
    let req = MemoryRequirements { size: 6, alignment: 2, memory_type_bits: 0b11 };
    let raw = RawBuffer::new(device.clone(), &info(DEVICE_LOCAL), 6, 100, req).unwrap();
    let b = Subbuffer::from_data(device.clone(), &info(DEVICE_LOCAL), &data, raw, Ok(7), Ok(()), Err(-5)).unwrap();
    assert!(!b.is_host_visible());
    assert_eq!(b.size(), 6);
    assert_eq!(b.len(), 3);
    let raw = RawBuffer::new(device.clone(), &info(HOST_VISIBLE), 6, 101, req).unwrap();
    let err = Subbuffer::from_data(device, &info(HOST_VISIBLE), &data, raw, Err(-2), Ok(()), Ok(())).unwrap_err();
    assert_eq!(err, RenderError::AllocationFailure);
}

fn binding(ty: u32, count: u32, binding: u32) -> DescriptorType {
    DescriptorType { ty, stage_flags: 0x20, count, binding }
}

#[test]
fn descriptor_counts_sum_by_type() {
    let entries = vec![binding(7, 2, 0), binding(6, 1, 1), binding(7, 3, 2)];
    assert_eq!(descriptor_count(&entries, 7), 5);
    assert_eq!(descriptor_count(&entries, 6), 1);
    assert_eq!(descriptor_count(&entries, 1), 0);
}

#[test]
fn descriptor_pool_capacity() {
    let device = resource_device();
    let layout = Arc::new(DescriptorSetLayout::new(device.clone(), vec![binding(7, 1, 0), binding(6, 1, 1)], 300));
    assert_eq!(layout.as_raw(), 300);
    let mut pool = DescriptorPool::new(device.clone(), 2, vec![binding(7, 2, 0), binding(6, 1, 0)], 400);
    assert_eq!(pool.as_raw(), 400);

    let sets = DescriptorSets::new(&mut pool, vec![layout.clone()], Ok(vec![500])).unwrap();
    assert_eq!(sets.as_raw(), &vec![500]);
    assert_eq!(sets.pool().as_raw(), 400);
    assert!(Arc::ptr_eq(sets.pool(), pool.storage()));
    assert_eq!(pool.allocated_sets(), 1);

    // Only one descriptor of type 6 was reserved.
    let err = DescriptorSets::new(&mut pool, vec![layout.clone()], Ok(vec![501])).unwrap_err();
    assert_eq!(err, RenderError::PoolExhaustedError);
    assert_eq!(pool.allocated_sets(), 1);

    let only_seven = Arc::new(DescriptorSetLayout::new(device.clone(), vec![binding(7, 1, 0)], 301));
    DescriptorSets::new(&mut pool, vec![only_seven.clone()], Ok(vec![502])).unwrap();
    assert_eq!(pool.allocated_sets(), 2);

    // The set limit is reached.
    let err = DescriptorSets::new(&mut pool, vec![], Ok(vec![])).map(|_| ());
    assert!(err.is_ok());
    let err = DescriptorSets::new(&mut pool, vec![only_seven], Ok(vec![503])).unwrap_err();
    assert_eq!(err, RenderError::PoolExhaustedError);
}

#[test]
fn descriptor_pool_too_many_sets_and_driver_refusal() {
    let device = resource_device();
    let layout = Arc::new(DescriptorSetLayout::new(device.clone(), vec![binding(7, 1, 0)], 300));
    let mut pool = DescriptorPool::new(device.clone(), 1, vec![binding(7, 10, 0)], 400);
    let err = DescriptorSets::new(&mut pool, vec![layout.clone(), layout.clone()], Ok(vec![1, 2])).unwrap_err();
    assert_eq!(err, RenderError::PoolExhaustedError);
    let err = DescriptorSets::new(&mut pool, vec![layout.clone()], Err(-1000069000)).unwrap_err();
    assert_eq!(err, RenderError::PoolExhaustedError);
    let err = DescriptorSets::new(&mut pool, vec![layout.clone()], Err(-12)).unwrap_err();
    assert_eq!(err, RenderError::PoolExhaustedError);
    let err = DescriptorSets::new(&mut pool, vec![layout.clone()], Err(-2)).unwrap_err();
    assert_eq!(err, RenderError::ResourceCreationError(-2));
    assert_eq!(pool.allocated_sets(), 0);
    DescriptorSets::new(&mut pool, vec![layout], Ok(vec![1])).unwrap();
    assert_eq!(pool.allocated_sets(), 1);
}

#[test]
fn image_view_holds_its_image() {
    let device = resource_device();
    let info = ImageCreateInfo {
        format: 44,
        extent: Extent3D { width: 8, height: 8, depth: 1 },
        mip_levels: 1,
        array_layers: 1,
        usage: 0x10,
    };
    let image = Arc::new(Image::new(device.clone(), info, 600));
    let view_info = ImageViewCreateInfo {
        format: 44,
        aspect_mask: 1,
        base_mip_level: 0,
        level_count: 1,
        base_array_layer: 0,
        layer_count: 1,
    };
    let view = ImageView::new(device, image.clone(), view_info, 601);
    assert_eq!(Arc::strong_count(&image), 2);
    assert_eq!(view.image().as_raw(), 600);
    assert_eq!(view.as_raw(), 601);
    assert_eq!(image.info(), info);
    drop(view);
    assert_eq!(Arc::strong_count(&image), 1);
}

#[test]
fn resources_hold_their_device() {
    let device = resource_device();
    let before = Arc::strong_count(&device);
    let pass = RenderPass::new(device.clone(), 44, 700);
    assert_eq!(Arc::strong_count(&device), before + 1);
    assert_eq!(pass.as_raw(), 700);
    assert_eq!(pass.attachments().len(), 1);
    assert_eq!(pass.attachments()[0].format, 44);
    assert_eq!(pass.attachments()[0].load_op, LOAD_OP_CLEAR);
    assert_eq!(pass.attachments()[0].final_layout, LAYOUT_PRESENT_SRC);
    assert_eq!(pass.references()[0].attachment, 0);
    drop(pass);
    assert_eq!(Arc::strong_count(&device), before);
}

#[test]
fn zero_sized_elements_keep_their_count() {
    let device = resource_device();
    let b = buffer_from(&device, HOST_VISIBLE, &[(), ()]);
    assert_eq!(b.size(), 0);
    assert_eq!(b.len(), 2);
    assert_eq!(b.read().len(), 2);
}

#[test]
fn buffer_memory_request_and_binding() {
    let device = resource_device();
    let data = [7u32; 4];
    let req = MemoryRequirements { size: 256, alignment: 64, memory_type_bits: 0b10 };
    let raw = RawBuffer::new(device.clone(), &info(HOST_VISIBLE), 16, 100, req).unwrap();
    assert_eq!(allocation_request(&raw), MemoryAllocation { size: 256, memory_type_index: 1 });
    let b = Subbuffer::from_data(device.clone(), &info(HOST_VISIBLE), &data, raw, Ok(9), Ok(()), Ok(())).unwrap();
    assert_eq!(b.offset(), 0);
    assert_eq!(b.memory(), 9);
    assert_eq!(b.buffer().as_raw(), 100);
    assert!(b.is_host_visible());

    let raw = RawBuffer::new(device.clone(), &info(HOST_VISIBLE), 16, 101, req).unwrap();
    let err = Subbuffer::from_data(device.clone(), &info(HOST_VISIBLE), &data, raw, Ok(9), Err(-2), Ok(())).unwrap_err();
    assert_eq!(err, RenderError::ResourceCreationError(-2));
    let raw = RawBuffer::new(device.clone(), &info(HOST_VISIBLE), 16, 102, req).unwrap();
    let err = Subbuffer::from_data(device, &info(HOST_VISIBLE), &data, raw, Ok(9), Ok(()), Err(-5)).unwrap_err();
    assert_eq!(err, RenderError::AllocationFailure);
}
