use vstd::prelude::*;
use crate::error::DaosError;
use crate::handle::DaosHandle;

verus! {

/// Longest wait of one poll of the native queue, in milliseconds; the poller
/// notices a shutdown request only between polls.
pub const POLL_TIMEOUT_MS: i64 = 50;

/// Most completions taken from the native queue by one poll.
pub const POLL_BATCH: u32 = 10;

/// Where the queue's poller thread stands.
#[derive(Clone, Copy, Debug, PartialEq, Eq, Structural)]
pub enum PollerState {
    Running,
    /// Asked to stop; it stops before its next poll.
    Signalled,
    /// Joined.
    Stopped,
}

/// The next thing to do to tear a queue down.
#[derive(Clone, Copy, Debug, PartialEq, Eq, Structural)]
pub enum TeardownAction {
    /// Send the poller its shutdown signal.
    SignalShutdown,
    /// Wait for the poller thread to end.
    JoinPoller,
    /// Destroy the native queue.
    Destroy(DaosHandle),
    /// The queue is gone already.
    Nothing,
}

/// The lifecycle of one completion queue and its single poller: the native
/// handle is released only after the poller has stopped.
#[derive(Debug)]
pub struct QueueLifecycle {
    pub handle: Option<DaosHandle>,
    pub poller: PollerState,
}

impl QueueLifecycle {
    /// Number of teardown actions still ahead.
    pub open spec fn remaining(&self) -> nat {
        match self.handle {
            None => 0,
            Some(_) => match self.poller {
                PollerState::Running => 3,
                PollerState::Signalled => 2,
                PollerState::Stopped => 1,
            },
        }
    }

    /// Records the creation of the native queue (`ret` its result code); on
    /// success its poller is taken to be running.
    pub fn created(ret: i32, handle: DaosHandle) -> (r: Result<QueueLifecycle, DaosError>)
        ensures
            ret != 0 ==> r == Err::<QueueLifecycle, DaosError>(DaosError::Native(ret)),
            ret == 0 ==> r is Ok && r->Ok_0.handle == Some(handle) && r->Ok_0.poller == PollerState::Running,
    {
        if ret != 0 {
            return Err(DaosError::Native(ret));
        }
        Ok(QueueLifecycle { handle: Some(handle), poller: PollerState::Running })
    }

    /// The handle that events are created on, while the queue exists.
    pub fn get_handle(&self) -> (r: Option<DaosHandle>)
        ensures
            r == self.handle,
    {
        self.handle
    }

    /// The next teardown action. Once the native queue is destroyed there is
    /// nothing left to do, so tearing down twice is harmless.
    pub fn next_teardown(&self) -> (r: TeardownAction)
        ensures
            self.handle is None ==> r == TeardownAction::Nothing,
            self.handle is Some && self.poller == PollerState::Running ==> r == TeardownAction::SignalShutdown,
            self.handle is Some && self.poller == PollerState::Signalled ==> r == TeardownAction::JoinPoller,
            self.handle is Some && self.poller == PollerState::Stopped ==> r == TeardownAction::Destroy(
                self.handle->0,
            ),
    {
        match self.handle {
            None => TeardownAction::Nothing,
            Some(h) => match self.poller {
                PollerState::Running => TeardownAction::SignalShutdown,
                PollerState::Signalled => TeardownAction::JoinPoller,
                PollerState::Stopped => TeardownAction::Destroy(h),
            },
        }
    }

    /// The shutdown signal went out (or the poller had already gone).
    pub fn shutdown_signalled(&mut self)
        ensures
            final(self).handle == old(self).handle,
            old(self).poller == PollerState::Running ==> final(self).poller == PollerState::Signalled,
            old(self).poller != PollerState::Running ==> final(self).poller == old(self).poller,
            old(self).handle is Some && old(self).poller == PollerState::Running ==> final(self).remaining()
                < old(self).remaining(),
    {
        if self.poller == PollerState::Running {
            self.poller = PollerState::Signalled;
        }
    }

    /// The poller thread has ended.
    pub fn poller_joined(&mut self)
        ensures
            final(self).handle == old(self).handle,
            final(self).poller == PollerState::Stopped,
            old(self).handle is Some && old(self).poller == PollerState::Signalled ==> final(self).remaining()
                < old(self).remaining(),
    {
        self.poller = PollerState::Stopped;
    }

    /// Records the result `ret` of destroying the native queue; the handle is
    /// released only when it succeeded.
    pub fn destroyed(&mut self, ret: i32) -> (r: Result<(), DaosError>)
        ensures
            final(self).poller == old(self).poller,
            ret == 0 ==> r is Ok && final(self).handle is None && final(self).remaining() == 0,
            ret != 0 ==> r == Err::<(), DaosError>(DaosError::Native(ret)) && final(self).handle
                == old(self).handle,
    {
        if ret != 0 {
            return Err(DaosError::Native(ret));
        }
        self.handle = None;
        Ok(())
    }
}

} // verus!
