use std::sync::Arc;
use vstd::prelude::*;

use crate::device::Device;
use crate::error::RenderError;
use crate::fence::Fence;
use crate::instance::Instance;
use crate::memory::flags_contain;

verus! {

/// Present mode: images go to the display at once, tearing allowed.
pub const PRESENT_MODE_IMMEDIATE: u32 = 0;

/// Present mode: the newest image replaces the queued one; never blocks.
pub const PRESENT_MODE_MAILBOX: u32 = 1;

/// Present mode: a first-in first-out queue; always available.
pub const PRESENT_MODE_FIFO: u32 = 2;

/// Surface transform bit: no transform.
pub const TRANSFORM_IDENTITY: u32 = 0x1;

/// Driver result: the surface changed and the swap chain no longer matches it.
pub const ERROR_OUT_OF_DATE: i32 = -1000001004;

/// A size in pixels.
#[derive(Debug, Clone, Copy, PartialEq, Eq, Structural)]
pub struct Extent2D {
    pub width: u32,
    pub height: u32,
}

/// A pixel format with its color space.
#[derive(Debug, Clone, Copy, PartialEq, Eq, Structural)]
pub struct SurfaceFormat {
    pub format: u32,
    pub color_space: u32,
}

/// What a surface supports, as the driver reports it.
#[derive(Debug, Clone, Copy, PartialEq, Eq, Structural)]
pub struct SurfaceCapabilities {
    pub min_image_count: u32,
    /// Zero when there is no upper bound.
    pub max_image_count: u32,
    /// A width of `u32::MAX` means the swap chain sets the size.
    pub current_extent: Extent2D,
    pub supported_transforms: u32,
    pub current_transform: u32,
}

impl SurfaceCapabilities {
    /// The image-count bounds are consistent.
    pub open spec fn wf(&self) -> bool {
        &&& self.min_image_count >= 1
        &&& self.min_image_count < u32::MAX
        &&& self.max_image_count > 0 ==> self.min_image_count <= self.max_image_count
    }
}

/// The negotiated surface settings a swap chain is built from.
#[derive(Debug, Clone, Copy, PartialEq, Eq, Structural)]
pub struct SurfaceInfos {
    pub capabilities: SurfaceCapabilities,
    pub present_mode: u32,
    pub format: SurfaceFormat,
}

/// The present mode chosen among those offered: mailbox where offered, else FIFO.
pub open spec fn preferred_present_mode(modes: Seq<u32>) -> u32 {
    if modes.contains(PRESENT_MODE_MAILBOX) {
        PRESENT_MODE_MAILBOX
    } else {
        PRESENT_MODE_FIFO
    }
}

/// Picks the non-blocking mailbox mode where the surface offers it, and otherwise the
/// FIFO mode every surface supports.
pub fn choose_present_mode(modes: &Vec<u32>) -> (r: u32)
    ensures
        r == preferred_present_mode(modes@),
{
    let mut i: usize = 0;
    while i < modes.len()
        invariant
            i <= modes@.len(),
            forall|k: int| 0 <= k < i ==> modes@[k] != PRESENT_MODE_MAILBOX,
        decreases modes@.len() - i,
    {
        if modes[i] == PRESENT_MODE_MAILBOX {
            assert(modes@.contains(PRESENT_MODE_MAILBOX));
            return PRESENT_MODE_MAILBOX;
        }
        i = i + 1;
    }
    PRESENT_MODE_FIFO
}

/// The settings negotiated from what the driver reports.
pub open spec fn negotiated(
    capabilities: SurfaceCapabilities,
    present_modes: Seq<u32>,
    formats: Seq<SurfaceFormat>,
) -> Result<SurfaceInfos, RenderError> {
    if formats.len() > 0 && capabilities.wf() {
        Ok(
            SurfaceInfos {
                capabilities,
                present_mode: preferred_present_mode(present_modes),
                format: formats[0],
            },
        )
    } else {
        Err(RenderError::SwapChainCreationError)
    }
}

/// Settles the surface settings from what the driver reports: its capabilities, the
/// preferred present mode, and the first format. A surface with no format, or with
/// inconsistent image-count bounds, cannot carry a swap chain.
pub fn negotiate(capabilities: SurfaceCapabilities, present_modes: &Vec<u32>, formats: &Vec<
    SurfaceFormat,
>) -> (r: Result<SurfaceInfos, RenderError>)
    ensures
        r == negotiated(capabilities, present_modes@, formats@),
{
    if formats.len() == 0 || capabilities.min_image_count == 0 || capabilities.min_image_count
        == u32::MAX || (capabilities.max_image_count > 0 && capabilities.min_image_count
        > capabilities.max_image_count) {
        return Err(RenderError::SwapChainCreationError);
    }
    let present_mode = choose_present_mode(present_modes);
    Ok(SurfaceInfos { capabilities, present_mode, format: formats[0] })
}

/// The image count asked for: one more than the minimum, held to the maximum when
/// there is one.
pub open spec fn desired_image_count_of(caps: SurfaceCapabilities) -> int {
    if caps.max_image_count > 0 && caps.min_image_count + 1 > caps.max_image_count {
        caps.max_image_count as int
    } else {
        caps.min_image_count + 1
    }
}

pub fn desired_image_count(caps: &SurfaceCapabilities) -> (r: u32)
    requires
        caps.min_image_count < u32::MAX,
    ensures
        r as int == desired_image_count_of(*caps),
{
    let mut count = caps.min_image_count + 1;
    if caps.max_image_count > 0 && count > caps.max_image_count {
        count = caps.max_image_count;
    }
    count
}

/// The image count lies between the surface's bounds: at least the minimum, and at
/// most the maximum when there is one.
pub proof fn lemma_image_count_within_bounds(caps: SurfaceCapabilities)
    requires
        caps.wf(),
    ensures
        caps.min_image_count <= desired_image_count_of(caps),
        caps.max_image_count > 0 ==> desired_image_count_of(caps) <= caps.max_image_count,
{
}

/// The identity transform where the surface supports it, else its current transform.
pub fn pre_transform(caps: &SurfaceCapabilities) -> (r: u32)
    ensures
        flags_contain(caps.supported_transforms, TRANSFORM_IDENTITY) ==> r == TRANSFORM_IDENTITY,
        !flags_contain(caps.supported_transforms, TRANSFORM_IDENTITY) ==> r
            == caps.current_transform,
{
    if caps.supported_transforms & TRANSFORM_IDENTITY == TRANSFORM_IDENTITY {
        TRANSFORM_IDENTITY
    } else {
        caps.current_transform
    }
}

/// The size of the swap chain's images: the surface's own size, unless the surface
/// leaves it to the swap chain, in which case the window's size.
pub fn swap_extent(caps: &SurfaceCapabilities, window_size: Extent2D) -> (r: Extent2D)
    ensures
        caps.current_extent.width == u32::MAX ==> r == window_size,
        caps.current_extent.width != u32::MAX ==> r == caps.current_extent,
{
    if caps.current_extent.width == u32::MAX {
        window_size
    } else {
        caps.current_extent
    }
}

/// What the driver is asked to build a swap chain with.
#[derive(Debug, Clone, Copy, PartialEq, Eq, Structural)]
pub struct SwapchainCreateInfo {
    pub min_image_count: u32,
    pub format: SurfaceFormat,
    pub extent: Extent2D,
    pub pre_transform: u32,
    pub present_mode: u32,
}

/// The creation request for a swap chain on a surface with the settings `infos`, in a
/// window of `window_size`: the desired image count, the negotiated format and present
/// mode, the surface's extent (or the window's, where the surface leaves it open), and
/// the identity transform where supported, else the current one.
pub open spec fn create_info_of(infos: SurfaceInfos, window_size: Extent2D) -> SwapchainCreateInfo {
    SwapchainCreateInfo {
        min_image_count: desired_image_count_of(infos.capabilities) as u32,
        format: infos.format,
        extent: if infos.capabilities.current_extent.width == u32::MAX {
            window_size
        } else {
            infos.capabilities.current_extent
        },
        pre_transform: if flags_contain(infos.capabilities.supported_transforms, TRANSFORM_IDENTITY) {
            TRANSFORM_IDENTITY
        } else {
            infos.capabilities.current_transform
        },
        present_mode: infos.present_mode,
    }
}

/// The creation request for a swap chain on a surface with the settings `infos`, in a
/// window of `window_size`.
pub fn swapchain_create_info(infos: &SurfaceInfos, window_size: Extent2D) -> (r:
    SwapchainCreateInfo)
    requires
        infos.capabilities.wf(),
    ensures
        r == create_info_of(*infos, window_size),
        r.min_image_count as int == desired_image_count_of(infos.capabilities),
{
    SwapchainCreateInfo {
        min_image_count: desired_image_count(&infos.capabilities),
        format: infos.format,
        extent: swap_extent(&infos.capabilities, window_size),
        pre_transform: pre_transform(&infos.capabilities),
        present_mode: infos.present_mode,
    }
}

/// What the driver reports of a surface for one accelerator.
#[derive(Debug, Clone)]
pub struct SurfaceQuery {
    pub capabilities: SurfaceCapabilities,
    pub present_modes: Vec<u32>,
    pub formats: Vec<SurfaceFormat>,
}

/// A presentation target bound to a window. Its negotiated settings are cached, and
/// must be negotiated again whenever the window's size changes.
#[derive(Debug)]
pub struct Surface {
    handle: u64,
    instance: Arc<Instance>,
    infos: Option<SurfaceInfos>,
}

impl Surface {
    pub closed spec fn spec_handle(&self) -> u64 {
        self.handle
    }

    pub closed spec fn spec_instance(&self) -> Instance {
        *self.instance
    }

    pub closed spec fn spec_infos(&self) -> Option<SurfaceInfos> {
        self.infos
    }

    /// A surface with the given native handle and nothing negotiated yet.
    pub fn new(instance: Arc<Instance>, handle: u64) -> (r: Surface)
        ensures
            r.spec_handle() == handle,
            r.spec_instance() == *instance,
            r.spec_infos() is None,
    {
        Surface { handle, instance, infos: None }
    }

    pub fn as_raw(&self) -> (r: u64)
        ensures
            r == self.spec_handle(),
    {
        self.handle
    }

    /// Negotiates the settings anew from what the driver reported (`queried`, or its
    /// error code) and caches them. A failed query fails with `SwapChainCreationError`.
    /// On failure the cache is emptied: what was there describes an older surface.
    pub fn setup_infos(&mut self, queried: Result<SurfaceQuery, i32>) -> (r: Result<
        SurfaceInfos,
        RenderError,
    >)
        ensures
            r == (match queried {
                Ok(q) => negotiated(q.capabilities, q.present_modes@, q.formats@),
                Err(_) => Err(RenderError::SwapChainCreationError),
            }),
            final(self).spec_infos() == (match r {
                Ok(i) => Some(i),
                Err(_) => None::<SurfaceInfos>,
            }),
            final(self).spec_handle() == old(self).spec_handle(),
            final(self).spec_instance() == old(self).spec_instance(),
    {
        let r = match queried {
            Ok(q) => negotiate(q.capabilities, &q.present_modes, &q.formats),
            Err(_) => Err(RenderError::SwapChainCreationError),
        };
        self.infos = match r {
            Ok(i) => Some(i),
            Err(_) => None,
        };
        r
    }

    /// The cached settings; they exist once `setup_infos` has succeeded.
    pub fn infos(&self) -> (r: SurfaceInfos)
        requires
            self.spec_infos() is Some,
        ensures
            r == self.spec_infos()->Some_0,
    {
        match self.infos {
            Some(i) => i,
            None => {
                assert(false);
                SurfaceInfos {
                    capabilities: SurfaceCapabilities {
                        min_image_count: 0,
                        max_image_count: 0,
                        current_extent: Extent2D { width: 0, height: 0 },
                        supported_transforms: 0,
                        current_transform: 0,
                    },
                    present_mode: 0,
                    format: SurfaceFormat { format: 0, color_space: 0 },
                }
            },
        }
    }
}

/// What the driver is asked to present.
#[derive(Debug, Clone, Copy, PartialEq, Eq, Structural)]
pub struct PresentRequest {
    pub swapchain: u64,
    pub image_index: u32,
    pub wait_semaphore: u64,
}

/// The queue of presentable images of one surface, with the semaphore that hands the
/// displayed image between device and compositor.
#[derive(Debug)]
pub struct Swapchain {
    handle: u64,
    device: Arc<Device>,
    surface: Arc<Surface>,
    images: Vec<u64>,
    infos: SurfaceInfos,
    request: SwapchainCreateInfo,
    present_semaphore: u64,
}

impl Swapchain {
    pub closed spec fn spec_handle(&self) -> u64 {
        self.handle
    }

    pub closed spec fn spec_device(&self) -> Device {
        *self.device
    }

    pub closed spec fn spec_images(&self) -> Seq<u64> {
        self.images@
    }

    pub closed spec fn spec_infos(&self) -> SurfaceInfos {
        self.infos
    }

    pub closed spec fn spec_extent(&self) -> Extent2D {
        self.request.extent
    }

    pub closed spec fn spec_surface(&self) -> Surface {
        *self.surface
    }

    /// The request the swap chain was built from.
    pub closed spec fn spec_request(&self) -> SwapchainCreateInfo {
        self.request
    }

    pub closed spec fn spec_present_semaphore(&self) -> u64 {
        self.present_semaphore
    }

    /// The swap chain the driver built on `surface` from `info`, the request
    /// `swapchain_create_info` makes of the surface's negotiated settings for a window of
    /// `window_size`; `created` is its native handle and images, or the driver's error
    /// code. A refusal, or a swap chain without images, fails with
    /// `SwapChainCreationError`. The swap chain holds its surface.
    pub fn new(
        device: Arc<Device>,
        surface: Arc<Surface>,
        window_size: Extent2D,
        info: &SwapchainCreateInfo,
        created: Result<(u64, Vec<u64>), i32>,
        present_semaphore: u64,
    ) -> (r: Result<Swapchain, RenderError>)
        requires
            surface.spec_infos() is Some,
            surface.spec_infos()->Some_0.capabilities.wf(),
            *info == create_info_of(surface.spec_infos()->Some_0, window_size),
        ensures
            match created {
                Ok((handle, images)) => if images@.len() > 0 {
                    r matches Ok(s) && {
                        let infos = surface.spec_infos()->Some_0;
                        let caps = infos.capabilities;
                        &&& s.spec_handle() == handle
                        &&& s.spec_images() == images@
                        &&& s.spec_device() == *device
                        &&& s.spec_surface() == *surface
                        &&& s.spec_infos() == infos
                        &&& s.spec_request() == *info
                        &&& s.spec_extent() == info.extent
                        &&& s.spec_present_semaphore() == present_semaphore
                        &&& s.spec_request().min_image_count as int == desired_image_count_of(caps)
                        &&& caps.min_image_count <= s.spec_request().min_image_count
                        &&& caps.max_image_count > 0 ==> s.spec_request().min_image_count
                            <= caps.max_image_count
                        &&& s.spec_request().pre_transform == (if flags_contain(
                            caps.supported_transforms,
                            TRANSFORM_IDENTITY,
                        ) {
                            TRANSFORM_IDENTITY
                        } else {
                            caps.current_transform
                        })
                        &&& s.spec_request().format == infos.format
                    }
                } else {
                    r == Err::<Swapchain, RenderError>(RenderError::SwapChainCreationError)
                },
                Err(_) => r == Err::<Swapchain, RenderError>(RenderError::SwapChainCreationError),
            },
    {
        proof {
            lemma_image_count_within_bounds(surface.spec_infos()->Some_0.capabilities);
        }
        match created {
            Ok((handle, images)) => {
                if images.len() == 0 {
                    return Err(RenderError::SwapChainCreationError);
                }
                let infos = surface.infos();
                Ok(
                    Swapchain {
                        handle,
                        device,
                        surface,
                        images,
                        infos,
                        request: *info,
                        present_semaphore,
                    },
                )
            },
            Err(_) => Err(RenderError::SwapChainCreationError),
        }
    }

    pub fn surface(&self) -> (r: &Arc<Surface>)
        ensures
            **r == self.spec_surface(),
    {
        &self.surface
    }

    pub fn request(&self) -> (r: SwapchainCreateInfo)
        ensures
            r == self.spec_request(),
    {
        self.request
    }

    pub fn as_raw(&self) -> (r: u64)
        ensures
            r == self.spec_handle(),
    {
        self.handle
    }

    pub fn image_count(&self) -> (r: usize)
        ensures
            r == self.spec_images().len(),
    {
        self.images.len()
    }

    pub fn images(&self) -> (r: &Vec<u64>)
        ensures
            r@ == self.spec_images(),
    {
        &self.images
    }

    pub fn resolution(&self) -> (r: Extent2D)
        ensures
            r == self.spec_extent(),
    {
        self.request.extent
    }

    pub fn format(&self) -> (r: SurfaceFormat)
        ensures
            r == self.spec_infos().format,
    {
        self.infos.format
    }

    pub fn present_semaphore(&self) -> (r: u64)
        ensures
            r == self.spec_present_semaphore(),
    {
        self.present_semaphore
    }

    /// Checks what the driver answered to an acquire: an image index and whether the
    /// swap chain is suboptimal, or an error code. Only an index of one of this swap
    /// chain's images is handed on; an out-of-date answer asks for recreation.
    pub fn aquire_next_image(&self, acquired: Result<(u32, bool), i32>) -> (r: Result<
        (u32, bool),
        RenderError,
    >)
        ensures
            r matches Ok((index, _)) ==> index < self.spec_images().len(),
            match acquired {
                Ok((index, suboptimal)) => if index < self.spec_images().len() {
                    r == Ok::<(u32, bool), RenderError>((index, suboptimal))
                } else {
                    r == Err::<(u32, bool), RenderError>(RenderError::ImageIndexOutOfRange)
                },
                Err(code) => r == Err::<(u32, bool), RenderError>(result_error(code)),
            },
    {
        match acquired {
            Ok((index, suboptimal)) => {
                if (index as usize) < self.images.len() {
                    Ok((index, suboptimal))
                } else {
                    Err(RenderError::ImageIndexOutOfRange)
                }
            },
            Err(code) => Err(error_of_result(code)),
        }
    }

    /// What to hand the driver to present image `index`; an index outside the swap
    /// chain is refused.
    pub fn present(&self, index: u32) -> (r: Result<PresentRequest, RenderError>)
        ensures
            index < self.spec_images().len() ==> r == Ok::<PresentRequest, RenderError>(
                PresentRequest {
                    swapchain: self.spec_handle(),
                    image_index: index,
                    wait_semaphore: self.spec_present_semaphore(),
                },
            ),
            index >= self.spec_images().len() ==> r == Err::<PresentRequest, RenderError>(
                RenderError::ImageIndexOutOfRange,
            ),
    {
        if (index as usize) < self.images.len() {
            Ok(
                PresentRequest {
                    swapchain: self.handle,
                    image_index: index,
                    wait_semaphore: self.present_semaphore,
                },
            )
        } else {
            Err(RenderError::ImageIndexOutOfRange)
        }
    }

    /// The swap chain may be rebuilt only once no submission can still use its images:
    /// every fence given has been waited on.
    pub fn can_recreate(&self, fences: &Vec<Fence>) -> (r: bool)
        ensures
            r == forall|i: int| 0 <= i < fences@.len() ==> (#[trigger] fences@[i]).spec_signaled(),
    {
        let mut i: usize = 0;
        while i < fences.len()
            invariant
                i <= fences@.len(),
                forall|k: int| 0 <= k < i ==> (#[trigger] fences@[k]).spec_signaled(),
            decreases fences@.len() - i,
        {
            if !fences[i].is_signaled() {
                return false;
            }
            i = i + 1;
        }
        true
    }
}

/// What a frame does next.
#[derive(Debug, Clone, Copy, PartialEq, Eq, Structural)]
pub enum FrameAction {
    /// The window has no area: draw nothing this frame.
    Skip,
    /// Rebuild the swap chain before acquiring.
    Recreate,
    /// Acquire an image and draw.
    Acquire,
}

/// The decisions of the draw loop: when to skip a frame and when the swap chain must
/// be rebuilt. An out-of-date or suboptimal answer marks the swap chain for
/// recreation; the frame that saw it is dropped or finished, and the next frame
/// rebuilds first.
#[derive(Debug, Clone, Copy, PartialEq, Eq, Structural)]
pub struct FrameState {
    pub recreate_swapchain: bool,
}

impl FrameState {
    pub fn new() -> (r: FrameState)
        ensures
            !r.recreate_swapchain,
    {
        FrameState { recreate_swapchain: false }
    }

    /// The step a frame starts with, for a window of `extent`.
    pub fn next_action(&self, extent: Extent2D) -> (r: FrameAction)
        ensures
            extent.width == 0 || extent.height == 0 ==> r == FrameAction::Skip,
            extent.width != 0 && extent.height != 0 && self.recreate_swapchain ==> r
                == FrameAction::Recreate,
            extent.width != 0 && extent.height != 0 && !self.recreate_swapchain ==> r
                == FrameAction::Acquire,
    {
        if extent.width == 0 || extent.height == 0 {
            FrameAction::Skip
        } else if self.recreate_swapchain {
            FrameAction::Recreate
        } else {
            FrameAction::Acquire
        }
    }

    /// The swap chain was rebuilt.
    pub fn recreated(&mut self)
        ensures
            !final(self).recreate_swapchain,
    {
        self.recreate_swapchain = false;
    }

    /// Takes the answer to an acquire: the image to draw into, `None` when the frame
    /// must be dropped because the surface is out of date, or any other error.
    pub fn on_acquire(&mut self, acquired: Result<(u32, bool), RenderError>) -> (r: Result<
        Option<u32>,
        RenderError,
    >)
        ensures
            match acquired {
                Ok((index, suboptimal)) => {
                    &&& r == Ok::<Option<u32>, RenderError>(Some(index))
                    &&& final(self).recreate_swapchain == (old(self).recreate_swapchain
                        || suboptimal)
                },
                Err(e) => if e == RenderError::SurfaceOutOfDate {
                    &&& r == Ok::<Option<u32>, RenderError>(None)
                    &&& final(self).recreate_swapchain
                } else {
                    &&& r == Err::<Option<u32>, RenderError>(e)
                    &&& *final(self) == *old(self)
                },
            },
    {
        match acquired {
            Ok((index, suboptimal)) => {
                if suboptimal {
                    self.recreate_swapchain = true;
                }
                Ok(Some(index))
            },
            Err(e) => {
                if e == RenderError::SurfaceOutOfDate {
                    self.recreate_swapchain = true;
                    Ok(None)
                } else {
                    Err(e)
                }
            },
        }
    }

    /// Takes the answer to a present.
    pub fn on_present(&mut self, presented: Result<bool, RenderError>) -> (r: Result<
        (),
        RenderError,
    >)
        ensures
            match presented {
                Ok(suboptimal) => {
                    &&& r is Ok
                    &&& final(self).recreate_swapchain == (old(self).recreate_swapchain
                        || suboptimal)
                },
                Err(e) => if e == RenderError::SurfaceOutOfDate {
                    &&& r is Ok
                    &&& final(self).recreate_swapchain
                } else {
                    &&& r == Err::<(), RenderError>(e)
                    &&& *final(self) == *old(self)
                },
            },
    {
        match presented {
            Ok(suboptimal) => {
                if suboptimal {
                    self.recreate_swapchain = true;
                }
                Ok(())
            },
            Err(e) => {
                if e == RenderError::SurfaceOutOfDate {
                    self.recreate_swapchain = true;
                    Ok(())
                } else {
                    Err(e)
                }
            },
        }
    }
}

/// The error a failed acquire or present stands for: an out-of-date surface asks for
/// recreation; anything else is a synchronization failure.
pub open spec fn result_error(code: i32) -> RenderError {
    if code == ERROR_OUT_OF_DATE {
        RenderError::SurfaceOutOfDate
    } else {
        RenderError::SynchronizationError
    }
}

pub fn error_of_result(code: i32) -> (r: RenderError)
    ensures
        r == result_error(code),
{
    if code == ERROR_OUT_OF_DATE {
        RenderError::SurfaceOutOfDate
    } else {
        RenderError::SynchronizationError
    }
}

/// Checks what the driver answered to a present: whether the swap chain is suboptimal,
/// or an error code.
pub fn present_result(presented: Result<bool, i32>) -> (r: Result<bool, RenderError>)
    ensures
        match presented {
            Ok(suboptimal) => r == Ok::<bool, RenderError>(suboptimal),
            Err(code) => r == Err::<bool, RenderError>(result_error(code)),
        },
{
    match presented {
        Ok(suboptimal) => Ok(suboptimal),
        Err(code) => Err(error_of_result(code)),
    }
}

} // verus!
