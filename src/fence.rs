use std::sync::Arc;
use vstd::prelude::*;

use crate::command_buffer::{reset_of, submitted_of, CommandBuffer, CommandBufferState};
use crate::device::Device;
use crate::error::RenderError;

verus! {

/// What the driver is asked to run: the buffers, on a queue, guarded by a fence.
#[derive(Debug, Clone)]
pub struct Submission {
    pub queue: u64,
    pub fence: u64,
    pub command_buffers: Vec<u64>,
}

/// Whether every buffer has ended recording and may be submitted.
pub open spec fn all_executable(buffers: Seq<CommandBuffer>) -> bool {
    forall|i: int| 0 <= i < buffers.len() ==> (#[trigger] buffers[i]).spec_state()
        == CommandBufferState::Executable
}

/// `after` is `before` once a wait has seen its work finish, and `done` is what the
/// wait handed back: every pinned buffer, in order, reset.
pub open spec fn waited(before: Fence, after: Fence, done: Seq<CommandBuffer>) -> bool {
    &&& done.len() == before.spec_pinned().len()
    &&& forall|i: int| 0 <= i < done.len() ==> reset_of(before.spec_pinned()[i], #[trigger] done[i])
    &&& after.spec_signaled()
    &&& after.spec_pinned() == Seq::<CommandBuffer>::empty()
}

/// A completion signal that keeps alive every command buffer submitted under it
/// until a wait has seen the device finish them.
#[derive(Debug)]
pub struct Fence {
    handle: u64,
    device: Arc<Device>,
    signaled: bool,
    pending_resources: Vec<CommandBuffer>,
}

impl Fence {
    pub closed spec fn spec_handle(&self) -> u64 {
        self.handle
    }

    pub closed spec fn spec_device(&self) -> Device {
        *self.device
    }

    /// Whether the fence reports the guarded work complete.
    pub closed spec fn spec_signaled(&self) -> bool {
        self.signaled
    }

    /// The command buffers the fence keeps alive.
    pub closed spec fn spec_pinned(&self) -> Seq<CommandBuffer> {
        self.pending_resources@
    }

    /// A fence never reports completion while it still pins work, and everything it
    /// pins is pending on the device.
    pub open spec fn wf(&self) -> bool {
        &&& self.spec_signaled() ==> self.spec_pinned().len() == 0
        &&& forall|i: int|
            0 <= i < self.spec_pinned().len() ==> (#[trigger] self.spec_pinned()[i]).spec_state()
                == CommandBufferState::Pending
    }

    /// A fence made signaled, so that the first wait returns at once.
    pub fn new(device: Arc<Device>, handle: u64) -> (r: Fence)
        ensures
            r.wf(),
            r.spec_handle() == handle,
            r.spec_device() == *device,
            r.spec_signaled(),
            r.spec_pinned() == Seq::<CommandBuffer>::empty(),
    {
        Fence { handle, device, signaled: true, pending_resources: Vec::new() }
    }

    pub fn as_raw(&self) -> (r: u64)
        ensures
            r == self.spec_handle(),
    {
        self.handle
    }

    pub fn is_signaled(&self) -> (r: bool)
        ensures
            r == self.spec_signaled(),
    {
        self.signaled
    }

    pub fn pinned_count(&self) -> (r: usize)
        ensures
            r == self.spec_pinned().len(),
    {
        self.pending_resources.len()
    }

    /// What to hand the driver for these buffers on `queue`. A fence whose earlier
    /// work has not been waited on takes no new submission.
    pub fn submission(&self, queue: u64, command_buffers: &Vec<CommandBuffer>) -> (r: Result<
        Submission,
        RenderError,
    >)
        ensures
            self.spec_signaled() ==> (r matches Ok(s) && s.queue == queue && s.fence
                == self.spec_handle() && s.command_buffers@.len() == command_buffers@.len() && (
            forall|i: int|
                0 <= i < command_buffers@.len() ==> s.command_buffers@[i]
                    == (#[trigger] command_buffers@[i]).spec_handle())),
            !self.spec_signaled() ==> r == Err::<Submission, RenderError>(
                RenderError::SynchronizationError,
            ),
    {
        if !self.signaled {
            return Err(RenderError::SynchronizationError);
        }
        let mut raw: Vec<u64> = Vec::new();
        let mut i: usize = 0;
        while i < command_buffers.len()
            invariant
                i <= command_buffers@.len(),
                raw@.len() == i,
                forall|k: int|
                    0 <= k < i ==> raw@[k] == (#[trigger] command_buffers@[k]).spec_handle(),
            decreases command_buffers@.len() - i,
        {
            raw.push(command_buffers[i].as_raw());
            i = i + 1;
        }
        Ok(Submission { queue, fence: self.handle, command_buffers: raw })
    }

    /// Takes ownership of the submitted buffers once the driver has accepted them
    /// (`queue_result` is what the driver returned). The fence then pins them until a
    /// wait sees them finished. A busy fence or a refused submission is an error, and
    /// leaves the fence as it was.
    pub fn submit_command_buffers(
        &mut self,
        command_buffers: Vec<CommandBuffer>,
        queue_result: Result<(), i32>,
    ) -> (r: Result<(), RenderError>)
        requires
            old(self).wf(),
            all_executable(command_buffers@),
        ensures
            final(self).wf(),
            final(self).spec_handle() == old(self).spec_handle(),
            final(self).spec_device() == old(self).spec_device(),
            old(self).spec_signaled() && queue_result is Ok ==> {
                &&& r is Ok
                &&& !final(self).spec_signaled()
                &&& final(self).spec_pinned().len() == command_buffers@.len()
                &&& forall|i: int|
                    0 <= i < command_buffers@.len() ==> submitted_of(
                        #[trigger] command_buffers@[i],
                        final(self).spec_pinned()[i],
                    )
            },
            !(old(self).spec_signaled() && queue_result is Ok) ==> {
                &&& r == Err::<(), RenderError>(RenderError::SynchronizationError)
                &&& *final(self) == *old(self)
            },
    {
        if !self.signaled || queue_result.is_err() {
            return Err(RenderError::SynchronizationError);
        }
        let ghost given = command_buffers@;
        let mut rest = command_buffers;
        let mut pinned: Vec<CommandBuffer> = Vec::new();
        while rest.len() > 0
            invariant
                pinned@.len() + rest@.len() == given.len(),
                rest@ == given.subrange(pinned@.len() as int, given.len() as int),
                all_executable(given),
                forall|i: int|
                    0 <= i < pinned@.len() ==> submitted_of(given[i], #[trigger] pinned@[i]),
            decreases rest@.len(),
        {
            let cb = rest.remove(0);
            assert(given[pinned@.len() as int] == cb);
            pinned.push(cb.into_pending());
        }
        self.pending_resources = pinned;
        self.signaled = false;
        Ok(())
    }

    /// Records the outcome of waiting for the device (`wait_result` is what the driver
    /// returned). After a successful wait the fence is signaled, pins nothing, and hands
    /// back every buffer it pinned, in submission order, ready to be recorded again or
    /// dropped. A failed wait is an error and leaves the fence as it was.
    pub fn wait_for_finished(&mut self, wait_result: Result<(), i32>) -> (r: Result<
        Vec<CommandBuffer>,
        RenderError,
    >)
        requires
            old(self).wf(),
        ensures
            final(self).wf(),
            final(self).spec_handle() == old(self).spec_handle(),
            final(self).spec_device() == old(self).spec_device(),
            wait_result is Ok ==> (r matches Ok(done) && waited(*old(self), *final(self), done@)),
            wait_result is Err ==> {
                &&& r == Err::<Vec<CommandBuffer>, RenderError>(RenderError::SynchronizationError)
                &&& *final(self) == *old(self)
            },
    {
        if wait_result.is_err() {
            return Err(RenderError::SynchronizationError);
        }
        let ghost held = self.pending_resources@;
        let mut done: Vec<CommandBuffer> = Vec::new();
        while self.pending_resources.len() > 0
            invariant
                done@.len() + self.pending_resources@.len() == held.len(),
                self.pending_resources@ == held.subrange(done@.len() as int, held.len() as int),
                self.handle == old(self).handle,
                self.device == old(self).device,
                forall|i: int|
                    0 <= i < held.len() ==> (#[trigger] held[i]).spec_state()
                        == CommandBufferState::Pending,
                forall|i: int| 0 <= i < done@.len() ==> reset_of(held[i], #[trigger] done@[i]),
            decreases self.pending_resources@.len(),
        {
            let cb = self.pending_resources.remove(0);
            assert(held[done@.len() as int] == cb);
            done.push(cb.into_completed());
        }
        self.signaled = true;
        assert(self.pending_resources@ =~= Seq::<CommandBuffer>::empty());
        assert(waited(*old(self), *self, done@));
        Ok(done)
    }
}

/// A fence reports completion only when it pins nothing; and after a successful wait
/// every buffer it pinned is back in its initial state, so it may begin recording
/// again, or be dropped.
pub proof fn lemma_waited_buffers_rerecordable(before: Fence, after: Fence, done: Seq<CommandBuffer>)
    requires
        before.wf(),
        after.wf(),
        waited(before, after, done),
    ensures
        before.spec_signaled() ==> before.spec_pinned().len() == 0,
        after.spec_pinned().len() == 0,
        forall|i: int|
            0 <= i < done.len() ==> (#[trigger] done[i]).spec_state() == CommandBufferState::Initial
                && done[i].spec_handle() == before.spec_pinned()[i].spec_handle(),
{
    assert forall|i: int| 0 <= i < done.len() implies (#[trigger] done[i]).spec_state()
        == CommandBufferState::Initial && done[i].spec_handle() == before.spec_pinned()[i].spec_handle() by {
        assert(reset_of(before.spec_pinned()[i], done[i]));
    }
}

} // verus!
