use std::sync::Arc;
use vstd::prelude::*;

use crate::device::Device;

verus! {

/// A size in texels.
#[derive(Debug, Clone, Copy, PartialEq, Eq, Structural)]
pub struct Extent3D {
    pub width: u32,
    pub height: u32,
    pub depth: u32,
}

/// How an image is laid out and used.
#[derive(Debug, Clone, Copy, PartialEq, Eq, Structural)]
pub struct ImageCreateInfo {
    pub format: u32,
    pub extent: Extent3D,
    pub mip_levels: u32,
    pub array_layers: u32,
    pub usage: u32,
}

/// Which part of an image a view shows, and how.
#[derive(Debug, Clone, Copy, PartialEq, Eq, Structural)]
pub struct ImageViewCreateInfo {
    pub format: u32,
    pub aspect_mask: u32,
    pub base_mip_level: u32,
    pub level_count: u32,
    pub base_array_layer: u32,
    pub layer_count: u32,
}

/// A native image. It holds its device.
#[derive(Debug)]
pub struct Image {
    handle: u64,
    device: Arc<Device>,
    info: ImageCreateInfo,
}

impl Image {
    pub closed spec fn spec_handle(&self) -> u64 {
        self.handle
    }

    pub closed spec fn spec_device(&self) -> Device {
        *self.device
    }

    pub closed spec fn spec_info(&self) -> ImageCreateInfo {
        self.info
    }

    pub fn new(device: Arc<Device>, info: ImageCreateInfo, handle: u64) -> (r: Image)
        ensures
            r.spec_handle() == handle,
            r.spec_device() == *device,
            r.spec_info() == info,
    {
        Image { handle, device, info }
    }

    pub fn as_raw(&self) -> (r: u64)
        ensures
            r == self.spec_handle(),
    {
        self.handle
    }

    pub fn info(&self) -> (r: ImageCreateInfo)
        ensures
            r == self.spec_info(),
    {
        self.info
    }
}

/// A view of an image. It holds the image it shows, so the image lives at least as
/// long as the view.
#[derive(Debug)]
pub struct ImageView {
    handle: u64,
    info: ImageViewCreateInfo,
    device: Arc<Device>,
    image: Arc<Image>,
}

impl ImageView {
    pub closed spec fn spec_handle(&self) -> u64 {
        self.handle
    }

    pub closed spec fn spec_device(&self) -> Device {
        *self.device
    }

    pub closed spec fn spec_image(&self) -> Image {
        *self.image
    }

    pub closed spec fn spec_info(&self) -> ImageViewCreateInfo {
        self.info
    }

    pub fn new(device: Arc<Device>, image: Arc<Image>, info: ImageViewCreateInfo, handle: u64) -> (r:
        ImageView)
        ensures
            r.spec_handle() == handle,
            r.spec_device() == *device,
            r.spec_image() == *image,
            r.spec_info() == info,
    {
        ImageView { handle, info, device, image }
    }

    pub fn as_raw(&self) -> (r: u64)
        ensures
            r == self.spec_handle(),
    {
        self.handle
    }

    pub fn image(&self) -> (r: &Arc<Image>)
        ensures
            **r == self.spec_image(),
    {
        &self.image
    }
}

} // verus!
