use vstd::prelude::*;
use tokio::sync::oneshot::Receiver;
use crate::completion::{CallbackArg, CALLBACK_MAGIC};
use crate::error::DaosError;

verus! {

/// What tearing down an event should do next, once the native layer has
/// been asked whether the event is still queued.
#[derive(Clone, Copy, Debug, PartialEq, Eq, Structural)]
pub enum ReleaseStep {
    /// The event was already released: nothing to do.
    Nothing,
    /// Asking the native layer failed: report it and leave the event alone.
    TestFailed(i32),
    /// The operation is still queued: report it and leave the event pending,
    /// never finalised, since finalising it would corrupt the queue.
    StillQueued,
    /// The operation has left the queue: finalise the event.
    Finalize,
}

/// One completion event, holding the native event record `E` while it is
/// live, and whether its single continuation has been registered.
#[derive(Debug)]
pub struct DaosEvent<E> {
    event: Option<Box<E>>,
    registered: bool,
}

impl<E> DaosEvent<E> {
    /// Whether the event still holds its native record.
    pub closed spec fn live(&self) -> bool {
        self.event is Some
    }

    /// Whether a continuation has been registered on the event.
    pub closed spec fn has_callback(&self) -> bool {
        self.registered
    }

    /// Takes over a native event record whose initialisation returned `init_ret`.
    pub fn new(event: Box<E>, init_ret: i32) -> (r: Result<DaosEvent<E>, DaosError>)
        ensures
            init_ret != 0 ==> r is Err && r->Err_0 == DaosError::Native(init_ret),
            init_ret == 0 ==> r is Ok && r->Ok_0.live() && !r->Ok_0.has_callback(),
    {
        if init_ret != 0 {
            return Err(DaosError::Native(init_ret));
        }
        Ok(DaosEvent { event: Some(event), registered: false })
    }

    pub fn is_live(&self) -> (r: bool)
        ensures
            r == self.live(),
    {
        self.event.is_some()
    }

    /// The native event record, for the native calls that take it.
    pub fn as_mut(&mut self) -> (r: &mut E)
        requires
            old(self).live(),
        ensures
            final(self).live(),
            final(self).has_callback() == old(self).has_callback(),
    {
        match &mut self.event {
            Some(b) => &mut **b,
            None => unreached(),
        }
    }

    /// Arms the event's single continuation: returns the record to hand to the
    /// native callback and the receiving half to wait on. An event takes one
    /// continuation in its whole lifetime.
    pub fn register_callback(&mut self) -> (r: Result<(CallbackArg, Receiver<i32>), DaosError>)
        ensures
            final(self).live() == old(self).live(),
            !old(self).live() ==> r is Err && r->Err_0 == DaosError::MissingHandle && final(self).has_callback()
                == old(self).has_callback(),
            old(self).live() && old(self).has_callback() ==> r is Err && r->Err_0
                == DaosError::ProtocolViolation && final(self).has_callback(),
            old(self).live() && !old(self).has_callback() ==> r is Ok && r->Ok_0.0.armed_spec()
                && r->Ok_0.0.tag() == CALLBACK_MAGIC && final(self).has_callback(),
    {
        if self.event.is_none() {
            return Err(DaosError::MissingHandle);
        }
        if self.registered {
            return Err(DaosError::ProtocolViolation);
        }
        let (tx, rx) = tokio::sync::oneshot::channel::<i32>();
        self.registered = true;
        Ok((CallbackArg::new(tx), rx))
    }

    /// Decides how to tear the event down from the native test of its status:
    /// `test_ret` is the code of the test and `completed` whether the
    /// operation has left the queue.
    pub fn release_step(&self, test_ret: i32, completed: bool) -> (r: ReleaseStep)
        ensures
            !self.live() ==> r == ReleaseStep::Nothing,
            self.live() && test_ret != 0 ==> r == ReleaseStep::TestFailed(test_ret),
            self.live() && test_ret == 0 && !completed ==> r == ReleaseStep::StillQueued,
            self.live() && test_ret == 0 && completed ==> r == ReleaseStep::Finalize,
    {
        if self.event.is_none() {
            ReleaseStep::Nothing
        } else if test_ret != 0 {
            ReleaseStep::TestFailed(test_ret)
        } else if !completed {
            ReleaseStep::StillQueued
        } else {
            ReleaseStep::Finalize
        }
    }

    /// Records the result of finalising the event: on success the native
    /// record is handed back for freeing and the event is no longer live.
    pub fn finalized(&mut self, fini_ret: i32) -> (r: Result<Box<E>, DaosError>)
        requires
            old(self).live(),
        ensures
            fini_ret != 0 ==> r is Err && r->Err_0 == DaosError::Native(fini_ret) && final(self).live(),
            fini_ret == 0 ==> r is Ok && !final(self).live(),
            final(self).has_callback() == old(self).has_callback(),
    {
        if fini_ret != 0 {
            return Err(DaosError::Native(fini_ret));
        }
        match self.event.take() {
            Some(b) => Ok(b),
            None => Err(DaosError::MissingHandle),
        }
    }

    /// Gives up the native record without finalising it, for an event that
    /// must stay pending in the native queue.
    pub fn take_pending(&mut self) -> (r: Option<Box<E>>)
        ensures
            r is Some == old(self).live(),
            !final(self).live(),
            final(self).has_callback() == old(self).has_callback(),
    {
        self.event.take()
    }
}

} // verus!
