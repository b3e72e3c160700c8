//! Channels and channel listeners.
//!
//! A channel is a message endpoint; a listener is a named rendezvous point
//! that yields channels. Both hold one handle, and both are named in the
//! kernel's registry, which alone decides whether a name can be had.

use vstd::prelude::*;
use crate::abi::{Request, SysReturn};
use crate::handle::{acquired, close_outcome, released, Fatal, Handle, HandleView, Waitable};
use crate::status::{status_of, KernelStatus};

verus! {

/// A bidirectional message endpoint.
#[derive(Debug)]
pub struct Channel {
    handle: Handle,
}

/// The registration of this process as the server of one name.
#[derive(Debug)]
pub struct ChannelListener {
    handle: Handle,
}

/// The channel that an accept on `listener` yields when the kernel answers
/// `reply`: none from a released listener, none unless the kernel reports
/// `NoError`.
pub open spec fn accepted(listener: HandleView, reply: SysReturn) -> Option<HandleView> {
    if !listener.open {
        None
    } else {
        match acquired(reply) {
            Ok(channel) => Some(channel),
            Err(_) => None,
        }
    }
}

impl View for Channel {
    type V = HandleView;

    closed spec fn view(&self) -> HandleView {
        self.handle@
    }
}

impl View for ChannelListener {
    type V = HandleView;

    closed spec fn view(&self) -> HandleView {
        self.handle@
    }
}

impl Waitable for Channel {
    open spec fn handle_view(&self) -> HandleView {
        self@
    }

    fn handle(&self) -> (handle: &Handle) {
        &self.handle
    }
}

impl Waitable for ChannelListener {
    open spec fn handle_view(&self) -> HandleView {
        self@
    }

    fn handle(&self) -> (handle: &Handle) {
        &self.handle
    }
}

/// Reads the kernel's answer to `Request::RequestChannel`.
///
/// The channel is there exactly when the kernel reports `NoError`, and it
/// is open on the handle that the reply carries. Why a name could not be
/// had is not told apart here; `Handle::acquire` keeps the reason.
pub fn request_channel(reply: SysReturn) -> (res: Option<Channel>)
    ensures
        res.is_some() <==> status_of(reply.status as int) == KernelStatus::NoError,
        res matches Some(channel) ==> acquired(reply) == Ok::<HandleView, KernelStatus>(
            channel@,
        ),
{
    match Handle::acquire(reply) {
        Ok(handle) => Some(Channel { handle }),
        Err(_) => None,
    }
}

/// Reads the kernel's answer to `Request::RegisterChannelListener`.
///
/// The listener is there exactly when the kernel reports `NoError`; a name
/// that is taken or not permitted gives `None`.
pub fn register_channel_listener(reply: SysReturn) -> (res: Option<ChannelListener>)
    ensures
        res.is_some() <==> status_of(reply.status as int) == KernelStatus::NoError,
        res matches Some(listener) ==> acquired(reply) == Ok::<HandleView, KernelStatus>(
            listener@,
        ),
{
    match Handle::acquire(reply) {
        Ok(handle) => Some(ChannelListener { handle }),
        Err(_) => None,
    }
}

impl Channel {
    /// The request that releases the channel.
    pub fn close_request(&self) -> (res: Result<Request<'static>, Fatal>)
        ensures
            self@.open ==> res == Ok::<Request<'static>, Fatal>(
                Request::CloseHandle { handle: self@.id },
            ),
            !self@.open ==> res == Err::<Request<'static>, Fatal>(
                Fatal { status: KernelStatus::InvalidHandle },
            ),
    {
        self.handle.close_request()
    }

    /// Reads the kernel's answer to the release. The channel is closed
    /// afterwards, whatever the answer.
    pub fn close(&mut self, reply: SysReturn) -> (res: Result<(), Fatal>)
        ensures
            res == close_outcome(old(self)@, reply),
            final(self)@ == released(old(self)@),
    {
        self.handle.close(reply)
    }
}

impl ChannelListener {
    /// The request that takes one pending connection. A released listener
    /// sends nothing.
    pub fn accept_request(&self) -> (res: Option<Request<'static>>)
        ensures
            self@.open ==> res == Some(
                Request::AcceptChannel { listener: self@.id },
            ),
            !self@.open ==> res.is_none(),
    {
        if self.handle.is_open() {
            Some(Request::AcceptChannel { listener: self.handle.id() })
        } else {
            None
        }
    }

    /// Reads the kernel's answer to an accept.
    ///
    /// Gives a new open channel of its own when the kernel reports
    /// `NoError`, and `None` when no connection was pending after all or
    /// the listener is gone. The listener stays as it was: it can accept
    /// again.
    pub fn accept(&self, reply: SysReturn) -> (res: Option<Channel>)
        ensures
            res.is_some() == accepted(self@, reply).is_some(),
            res matches Some(channel) ==> accepted(self@, reply) == Some(
                channel@,
            ),
    {
        if !self.handle.is_open() {
            return None;
        }
        match Handle::acquire(reply) {
            Ok(handle) => Some(Channel { handle }),
            Err(_) => None,
        }
    }

    /// The request that releases the listener.
    pub fn close_request(&self) -> (res: Result<Request<'static>, Fatal>)
        ensures
            self@.open ==> res == Ok::<Request<'static>, Fatal>(
                Request::CloseHandle { handle: self@.id },
            ),
            !self@.open ==> res == Err::<Request<'static>, Fatal>(
                Fatal { status: KernelStatus::InvalidHandle },
            ),
    {
        self.handle.close_request()
    }

    /// Reads the kernel's answer to the release. The listener is closed
    /// afterwards, whatever the answer: no further accept succeeds.
    pub fn close(&mut self, reply: SysReturn) -> (res: Result<(), Fatal>)
        ensures
            res == close_outcome(old(self)@, reply),
            final(self)@ == released(old(self)@),
    {
        self.handle.close(reply)
    }
}

} // verus!
