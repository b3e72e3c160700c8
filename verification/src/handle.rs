//! Handles: the capability primitive.
//!
//! A handle names one kernel resource and has one owner. It is released
//! once; after that every operation on it is refused here, before anything
//! reaches the kernel.

use vstd::prelude::*;
use crate::abi::{low_half, low_half_of, Request, SysReturn};
use crate::signal::{fired, is_subset, lemma_fired_within};
use crate::status::{status_of, translate, wait_error_of, HandleError, KernelStatus, WaitError};

verus! {

/// What a handle is: the identifier that the kernel assigned, and whether
/// the resource is still held.
pub struct HandleView {
    pub id: u32,
    pub open: bool,
}

/// A kernel-assigned identifier of one resource, owned by whoever holds
/// the value.
#[derive(Debug)]
pub struct Handle {
    id: u32,
    open: bool,
}

/// A release that the kernel refused, or that was asked of a handle already
/// released. Either shows a fault in the owner's bookkeeping, which the
/// process does not survive: the caller aborts.
#[derive(Clone, Copy, Debug, PartialEq, Eq, Structural)]
pub struct Fatal {
    pub status: KernelStatus,
}

impl View for Handle {
    type V = HandleView;

    closed spec fn view(&self) -> HandleView {
        HandleView { id: self.id, open: self.open }
    }
}

/// The handle that a reply to a resource-creating call yields: on
/// `NoError` a new open handle, whose identifier is the low half of the
/// extra word; the kernel's status otherwise.
pub open spec fn acquired(reply: SysReturn) -> Result<HandleView, KernelStatus> {
    let status = status_of(reply.status as int);
    if status == KernelStatus::NoError {
        Ok(HandleView { id: low_half(reply.extra), open: true })
    } else {
        Err(status)
    }
}

/// What a reply to `Request::WaitOne` on `mask` says of a live resource.
///
/// On `NoError` the wait reports the watched conditions among those
/// signalled; if none of them is watched the wake was spurious, and the
/// wait ends as interrupted. Every other status ends the wait with its
/// error.
pub open spec fn signal_outcome(mask: u32, reply: SysReturn) -> Result<u32, WaitError> {
    match wait_error_of(status_of(reply.status as int)) {
        Some(error) => Err(error),
        None => {
            let reported = fired(low_half(reply.extra), mask);
            if reported == 0 {
                Err(WaitError::Interrupted)
            } else {
                Ok(reported)
            }
        },
    }
}

/// How a wait on `mask` ends when the kernel answers `reply`: a released
/// handle is refused whatever the reply, an open one goes by the reply.
pub open spec fn wait_outcome(handle: HandleView, mask: u32, reply: SysReturn) -> Result<
    u32,
    WaitError,
> {
    if !handle.open {
        Err(WaitError::HandleError(HandleError::InvalidHandle))
    } else {
        signal_outcome(mask, reply)
    }
}

/// The handle after its release was read, whatever the kernel answered.
pub open spec fn released(handle: HandleView) -> HandleView {
    HandleView { id: handle.id, open: false }
}

/// How a release ends when the kernel answers `reply`: done on `NoError`,
/// fatal on every other status and on a handle already released.
pub open spec fn close_outcome(handle: HandleView, reply: SysReturn) -> Result<(), Fatal> {
    let status = status_of(reply.status as int);
    if !handle.open {
        Err(Fatal { status: KernelStatus::InvalidHandle })
    } else if status == KernelStatus::NoError {
        Ok(())
    } else {
        Err(Fatal { status })
    }
}

/// Reads the kernel's answer to a wait on `mask` for a resource that is
/// held.
///
/// A signalled mask is never empty and never holds a condition that was
/// not asked for.
pub fn read_signals(mask: u32, reply: SysReturn) -> (res: Result<u32, WaitError>)
    ensures
        res == signal_outcome(mask, reply),
        res matches Ok(signalled) ==> signalled != 0 && is_subset(signalled, mask),
{
    match translate(reply.status).wait_error() {
        Some(error) => Err(error),
        None => {
            let signals = low_half_of(reply.extra);
            let reported = signals & mask;
            proof {
                lemma_fired_within(signals, mask);
            }
            if reported == 0 {
                Err(WaitError::Interrupted)
            } else {
                Ok(reported)
            }
        },
    }
}

impl Handle {
    /// Takes ownership of the resource that a resource-creating call
    /// returned. Unlike the named-channel functions this keeps the kernel's
    /// reason for a refusal.
    pub fn acquire(reply: SysReturn) -> (res: Result<Handle, KernelStatus>)
        ensures
            match res {
                Ok(handle) => acquired(reply) == Ok::<HandleView, KernelStatus>(handle@),
                Err(status) => acquired(reply) == Err::<HandleView, KernelStatus>(status),
            },
    {
        let status = translate(reply.status);
        match status {
            KernelStatus::NoError => Ok(Handle { id: low_half_of(reply.extra), open: true }),
            _ => Err(status),
        }
    }

    /// The identifier that the kernel assigned.
    pub fn id(&self) -> (id: u32)
        ensures
            id == self@.id,
    {
        self.id
    }

    /// Whether the resource is still held.
    pub fn is_open(&self) -> (open: bool)
        ensures
            open == self@.open,
    {
        self.open
    }

    /// The request that blocks until a condition of `mask` holds of this
    /// handle. A released handle sends nothing.
    pub fn wait_request(&self, mask: u32) -> (res: Result<Request<'static>, WaitError>)
        ensures
            self@.open ==> res == Ok::<Request<'static>, WaitError>(
                Request::WaitOne { handle: self@.id, mask },
            ),
            !self@.open ==> res == Err::<Request<'static>, WaitError>(
                WaitError::HandleError(HandleError::InvalidHandle),
            ),
    {
        if self.open {
            Ok(Request::WaitOne { handle: self.id, mask })
        } else {
            Err(WaitError::HandleError(HandleError::InvalidHandle))
        }
    }

    /// Reads the kernel's answer to a wait on `mask`.
    ///
    /// A signalled mask is never empty and never holds a condition that
    /// was not asked for.
    pub fn wait(&self, mask: u32, reply: SysReturn) -> (res: Result<u32, WaitError>)
        ensures
            res == wait_outcome(self@, mask, reply),
            res matches Ok(signalled) ==> signalled != 0 && is_subset(signalled, mask),
    {
        if !self.open {
            return Err(WaitError::HandleError(HandleError::InvalidHandle));
        }
        read_signals(mask, reply)
    }

    /// The request that releases the resource. A handle already released
    /// sends nothing: asking for its release is fatal.
    pub fn close_request(&self) -> (res: Result<Request<'static>, Fatal>)
        ensures
            self@.open ==> res == Ok::<Request<'static>, Fatal>(
                Request::CloseHandle { handle: self@.id },
            ),
            !self@.open ==> res == Err::<Request<'static>, Fatal>(
                Fatal { status: KernelStatus::InvalidHandle },
            ),
    {
        if self.open {
            Ok(Request::CloseHandle { handle: self.id })
        } else {
            Err(Fatal { status: KernelStatus::InvalidHandle })
        }
    }

    /// Reads the kernel's answer to the release. Whatever the answer, the
    /// handle is released afterwards: nothing more is sent for it.
    pub fn close(&mut self, reply: SysReturn) -> (res: Result<(), Fatal>)
        ensures
            res == close_outcome(old(self)@, reply),
            final(self)@ == released(old(self)@),
        no_unwind
    {
        if !self.open {
            return Err(Fatal { status: KernelStatus::InvalidHandle });
        }
        self.open = false;
        let status = translate(reply.status);
        match status {
            KernelStatus::NoError => Ok(()),
            _ => Err(Fatal { status }),
        }
    }
}

/// What can be waited on: anything that holds one handle. Channels,
/// listeners and poll sets wait, and join poll sets, through this one
/// interface.
pub trait Waitable {
    /// The handle that stands for the value in the kernel.
    spec fn handle_view(&self) -> HandleView;

    /// The handle that stands for the value in the kernel.
    fn handle(&self) -> (handle: &Handle)
        ensures
            handle@ == self.handle_view(),
    ;

    /// The request that blocks until a condition of `mask` holds.
    fn wait_request(&self, mask: u32) -> (res: Result<Request<'static>, WaitError>)
        ensures
            self.handle_view().open ==> res == Ok::<Request<'static>, WaitError>(
                Request::WaitOne { handle: self.handle_view().id, mask },
            ),
            !self.handle_view().open ==> res == Err::<Request<'static>, WaitError>(
                WaitError::HandleError(HandleError::InvalidHandle),
            ),
    {
        self.handle().wait_request(mask)
    }

    /// Reads the kernel's answer to a wait on `mask`.
    fn wait(&self, mask: u32, reply: SysReturn) -> (res: Result<u32, WaitError>)
        ensures
            res == wait_outcome(self.handle_view(), mask, reply),
            res matches Ok(signalled) ==> signalled != 0 && is_subset(signalled, mask),
    {
        self.handle().wait(mask, reply)
    }
}

impl Waitable for Handle {
    open spec fn handle_view(&self) -> HandleView {
        self@
    }

    fn handle(&self) -> (handle: &Handle) {
        self
    }
}

} // verus!
