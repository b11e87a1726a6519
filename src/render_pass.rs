use std::sync::Arc;
use vstd::prelude::*;

use crate::device::Device;

verus! {

/// Image layout: contents undefined.
pub const LAYOUT_UNDEFINED: u32 = 0;

/// Image layout: written as a color attachment.
pub const LAYOUT_COLOR_ATTACHMENT_OPTIMAL: u32 = 2;

/// Image layout: ready to be presented.
pub const LAYOUT_PRESENT_SRC: u32 = 1000001002;

/// Load operation: clear the attachment when the pass begins.
pub const LOAD_OP_CLEAR: u32 = 1;

/// Store operation: keep what the pass wrote.
pub const STORE_OP_STORE: u32 = 0;

/// One attachment of a render pass.
#[derive(Debug, Clone, Copy, PartialEq, Eq, Structural)]
pub struct AttachmentDescription {
    pub format: u32,
    pub samples: u32,
    pub load_op: u32,
    pub store_op: u32,
    pub initial_layout: u32,
    pub final_layout: u32,
}

/// A reference from a subpass to an attachment, with the layout it is used in.
#[derive(Debug, Clone, Copy, PartialEq, Eq, Structural)]
pub struct AttachmentReference {
    pub attachment: u32,
    pub layout: u32,
}

/// The one color attachment of a pass that draws an image for presentation: cleared
/// first, stored at the end, then handed to the display.
pub open spec fn color_attachment(format: u32) -> AttachmentDescription {
    AttachmentDescription {
        format,
        samples: 1,
        load_op: LOAD_OP_CLEAR,
        store_op: STORE_OP_STORE,
        initial_layout: LAYOUT_UNDEFINED,
        final_layout: LAYOUT_PRESENT_SRC,
    }
}

/// A render pass with one graphics subpass writing one color attachment. It holds its
/// device.
#[derive(Debug)]
pub struct RenderPass {
    handle: u64,
    device: Arc<Device>,
    attachments_refs: Vec<AttachmentReference>,
    attachment_decriptors: Vec<AttachmentDescription>,
}

impl RenderPass {
    pub closed spec fn spec_handle(&self) -> u64 {
        self.handle
    }

    pub closed spec fn spec_device(&self) -> Device {
        *self.device
    }

    pub closed spec fn spec_references(&self) -> Seq<AttachmentReference> {
        self.attachments_refs@
    }

    pub closed spec fn spec_attachments(&self) -> Seq<AttachmentDescription> {
        self.attachment_decriptors@
    }

    /// The attachments and references of a presentation pass for images of `format`.
    pub fn describe(format: u32) -> (r: (Vec<AttachmentReference>, Vec<AttachmentDescription>))
        ensures
            r.0@ == seq![AttachmentReference { attachment: 0, layout: LAYOUT_COLOR_ATTACHMENT_OPTIMAL }],
            r.1@ == seq![color_attachment(format)],
    {
        let refs = vec![AttachmentReference { attachment: 0, layout: LAYOUT_COLOR_ATTACHMENT_OPTIMAL }];
        let descs = vec![
            AttachmentDescription {
                format,
                samples: 1,
                load_op: LOAD_OP_CLEAR,
                store_op: STORE_OP_STORE,
                initial_layout: LAYOUT_UNDEFINED,
                final_layout: LAYOUT_PRESENT_SRC,
            },
        ];
        (refs, descs)
    }

    /// The pass the driver built, with native handle `handle`, for images of `format`.
    pub fn new(device: Arc<Device>, format: u32, handle: u64) -> (r: RenderPass)
        ensures
            r.spec_handle() == handle,
            r.spec_device() == *device,
            r.spec_references() == seq![AttachmentReference { attachment: 0, layout: LAYOUT_COLOR_ATTACHMENT_OPTIMAL }],
            r.spec_attachments() == seq![color_attachment(format)],
    {
        let (attachments_refs, attachment_decriptors) = RenderPass::describe(format);
        RenderPass { handle, device, attachments_refs, attachment_decriptors }
    }

    pub fn as_raw(&self) -> (r: u64)
        ensures
            r == self.spec_handle(),
    {
        self.handle
    }

    pub fn attachments(&self) -> (r: &Vec<AttachmentDescription>)
        ensures
            r@ == self.spec_attachments(),
    {
        &self.attachment_decriptors
    }

    pub fn references(&self) -> (r: &Vec<AttachmentReference>)
        ensures
            r@ == self.spec_references(),
    {
        &self.attachments_refs
    }
}

} // verus!
