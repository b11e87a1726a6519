use std::sync::Arc;
use vstd::prelude::*;

use crate::device::Device;

verus! {

/// Where a command buffer stands in its recording and execution cycle.
#[derive(Debug, Clone, Copy, PartialEq, Eq, Structural)]
pub enum CommandBufferState {
    Initial,
    Recording,
    Executable,
    /// Submitted, and the device may still be executing it.
    Pending,
}

/// A command recorded into a command buffer.
#[derive(Debug, Clone, Copy, PartialEq, Eq, Structural)]
pub enum RecordedCommand {
    BeginRendering,
    BeginRenderPass { contents: u32 },
}

/// An allocator of command-buffer storage, bound to the device's queue family.
#[derive(Debug)]
pub struct CommandPool {
    handle: u64,
    device: Arc<Device>,
    queue_family_index: u32,
}

impl CommandPool {
    pub closed spec fn spec_handle(&self) -> u64 {
        self.handle
    }

    pub closed spec fn spec_device(&self) -> Device {
        *self.device
    }

    pub closed spec fn spec_queue_family_index(&self) -> u32 {
        self.queue_family_index
    }

    /// A pool with the given native handle, serving the device's queue family.
    pub fn new(device: Arc<Device>, handle: u64) -> (r: CommandPool)
        ensures
            r.spec_handle() == handle,
            r.spec_device() == *device,
            r.spec_queue_family_index() == device.spec_queue_family_index(),
    {
        let queue_family_index = device.queue_family_index();
        CommandPool { handle, device, queue_family_index }
    }

    pub fn as_raw(&self) -> (r: u64)
        ensures
            r == self.spec_handle(),
    {
        self.handle
    }

    pub fn queue_family_index(&self) -> (r: u32)
        ensures
            r == self.spec_queue_family_index(),
    {
        self.queue_family_index
    }
}

/// A recordable unit of device work. It holds its device and its pool, so neither
/// can go away while it lives.
#[derive(Debug)]
pub struct CommandBuffer {
    handle: u64,
    state: CommandBufferState,
    commands: Vec<RecordedCommand>,
    device: Arc<Device>,
    allocator: Arc<CommandPool>,
}

/// `b` is `a` back in its initial state, with nothing recorded.
pub open spec fn reset_of(a: CommandBuffer, b: CommandBuffer) -> bool {
    &&& b.spec_handle() == a.spec_handle()
    &&& b.spec_device() == a.spec_device()
    &&& b.spec_pool() == a.spec_pool()
    &&& b.spec_state() == CommandBufferState::Initial
    &&& b.spec_commands() == Seq::<RecordedCommand>::empty()
}

/// `b` is `a`, submitted: same commands, now pending.
pub open spec fn submitted_of(a: CommandBuffer, b: CommandBuffer) -> bool {
    &&& b.spec_handle() == a.spec_handle()
    &&& b.spec_device() == a.spec_device()
    &&& b.spec_pool() == a.spec_pool()
    &&& b.spec_state() == CommandBufferState::Pending
    &&& b.spec_commands() == a.spec_commands()
}

impl CommandBuffer {
    pub closed spec fn spec_handle(&self) -> u64 {
        self.handle
    }

    pub closed spec fn spec_state(&self) -> CommandBufferState {
        self.state
    }

    pub closed spec fn spec_commands(&self) -> Seq<RecordedCommand> {
        self.commands@
    }

    pub closed spec fn spec_device(&self) -> Device {
        *self.device
    }

    pub closed spec fn spec_pool(&self) -> CommandPool {
        *self.allocator
    }

    /// Wraps the native handles that `allocator` handed out, one command buffer each,
    /// in the order given.
    pub fn new_count(allocator: Arc<CommandPool>, device: Arc<Device>, handles: Vec<u64>) -> (r:
        Vec<CommandBuffer>)
        ensures
            r@.len() == handles@.len(),
            forall|i: int|
                0 <= i < r@.len() ==> {
                    &&& (#[trigger] r@[i]).spec_handle() == handles@[i]
                    &&& r@[i].spec_state() == CommandBufferState::Initial
                    &&& r@[i].spec_commands() == Seq::<RecordedCommand>::empty()
                    &&& r@[i].spec_device() == *device
                    &&& r@[i].spec_pool() == *allocator
                },
    {
        let mut buffers: Vec<CommandBuffer> = Vec::new();
        let mut i: usize = 0;
        while i < handles.len()
            invariant
                i <= handles@.len(),
                buffers@.len() == i,
                forall|k: int|
                    0 <= k < i ==> {
                        &&& (#[trigger] buffers@[k]).spec_handle() == handles@[k]
                        &&& buffers@[k].spec_state() == CommandBufferState::Initial
                        &&& buffers@[k].spec_commands() == Seq::<RecordedCommand>::empty()
                        &&& buffers@[k].spec_device() == *device
                        &&& buffers@[k].spec_pool() == *allocator
                    },
            decreases handles@.len() - i,
        {
            let b = CommandBuffer::new(allocator.clone(), device.clone(), handles[i]);
            buffers.push(b);
            i = i + 1;
        }
        buffers
    }

    /// Wraps one native handle that `allocator` handed out.
    pub fn new(allocator: Arc<CommandPool>, device: Arc<Device>, handle: u64) -> (r: CommandBuffer)
        ensures
            r.spec_handle() == handle,
            r.spec_state() == CommandBufferState::Initial,
            r.spec_commands() == Seq::<RecordedCommand>::empty(),
            r.spec_device() == *device,
            r.spec_pool() == *allocator,
    {
        CommandBuffer {
            handle,
            state: CommandBufferState::Initial,
            commands: Vec::new(),
            device,
            allocator,
        }
    }

    /// Starts recording; only a buffer in its initial state may begin.
    pub fn begin(&mut self)
        requires
            old(self).spec_state() == CommandBufferState::Initial,
        ensures
            final(self).spec_state() == CommandBufferState::Recording,
            final(self).spec_commands() == Seq::<RecordedCommand>::empty(),
            final(self).spec_handle() == old(self).spec_handle(),
            final(self).spec_device() == old(self).spec_device(),
            final(self).spec_pool() == old(self).spec_pool(),
    {
        self.state = CommandBufferState::Recording;
        self.commands = Vec::new();
    }

    /// Records the start of dynamic rendering.
    pub fn begin_rendering(&mut self)
        requires
            old(self).spec_state() == CommandBufferState::Recording,
        ensures
            final(self).spec_state() == CommandBufferState::Recording,
            final(self).spec_commands() == old(self).spec_commands().push(
                RecordedCommand::BeginRendering,
            ),
            final(self).spec_handle() == old(self).spec_handle(),
            final(self).spec_device() == old(self).spec_device(),
            final(self).spec_pool() == old(self).spec_pool(),
    {
        self.commands.push(RecordedCommand::BeginRendering);
    }

    /// Records the start of a render pass whose subpass contents are given.
    pub fn begin_render_pass(&mut self, contents: u32)
        requires
            old(self).spec_state() == CommandBufferState::Recording,
        ensures
            final(self).spec_state() == CommandBufferState::Recording,
            final(self).spec_commands() == old(self).spec_commands().push(
                RecordedCommand::BeginRenderPass { contents },
            ),
            final(self).spec_handle() == old(self).spec_handle(),
            final(self).spec_device() == old(self).spec_device(),
            final(self).spec_pool() == old(self).spec_pool(),
    {
        self.commands.push(RecordedCommand::BeginRenderPass { contents });
    }

    /// Ends recording; the buffer may then be submitted.
    pub fn end(&mut self)
        requires
            old(self).spec_state() == CommandBufferState::Recording,
        ensures
            final(self).spec_state() == CommandBufferState::Executable,
            final(self).spec_commands() == old(self).spec_commands(),
            final(self).spec_handle() == old(self).spec_handle(),
            final(self).spec_device() == old(self).spec_device(),
            final(self).spec_pool() == old(self).spec_pool(),
    {
        self.state = CommandBufferState::Executable;
    }

    pub fn as_raw(&self) -> (r: u64)
        ensures
            r == self.spec_handle(),
    {
        self.handle
    }

    pub fn state(&self) -> (r: CommandBufferState)
        ensures
            r == self.spec_state(),
    {
        self.state
    }

    pub fn commands(&self) -> (r: &Vec<RecordedCommand>)
        ensures
            r@ == self.spec_commands(),
    {
        &self.commands
    }

    /// Hands the buffer to the device.
    pub(crate) fn into_pending(self) -> (r: CommandBuffer)
        requires
            self.spec_state() == CommandBufferState::Executable,
        ensures
            submitted_of(self, r),
    {
        let mut b = self;
        b.state = CommandBufferState::Pending;
        b
    }

    /// Takes the buffer back once the device has finished it.
    pub(crate) fn into_completed(self) -> (r: CommandBuffer)
        requires
            self.spec_state() == CommandBufferState::Pending,
        ensures
            reset_of(self, r),
    {
        let mut b = self;
        b.state = CommandBufferState::Initial;
        b.commands = Vec::new();
        b
    }
}

} // verus!
