//! What holds of every resource over its life: a release is final, and a
//! refusal is never read as success.

use vstd::prelude::*;
use crate::abi::SysReturn;
use crate::channel::accepted;
use crate::handle::{
    acquired, close_outcome, released, signal_outcome, wait_outcome, Fatal, HandleView,
};
use crate::pollset::{join_outcome, poll_outcome, PollSetView};
use crate::status::{status_of, HandleError, KernelStatus, WaitError};

verus! {

/// After `close`, which leaves a handle `released`, nothing succeeds on
/// the same handle, whatever the kernel would answer: a wait is refused as on an invalid handle, an
/// accept yields no channel, no poll set takes the handle as a member, and
/// a second release is fatal.
pub proof fn lemma_release_is_final(
    handle: HandleView,
    mask: u32,
    reply: SysReturn,
    set: PollSetView,
)
    ensures
        join_outcome(set, released(handle)) == Err::<(), HandleError>(HandleError::InvalidHandle),
        wait_outcome(released(handle), mask, reply) == Err::<u32, WaitError>(
            WaitError::HandleError(HandleError::InvalidHandle),
        ),
        accepted(released(handle), reply).is_none(),
        close_outcome(released(handle), reply) == Err::<(), Fatal>(
            Fatal { status: KernelStatus::InvalidHandle },
        ),
{
}

/// A poll set that was released is refused in the same way: it takes no
/// member, and a wait on it fails whatever its members report.
pub proof fn lemma_released_poll_set_refuses(
    set: PollSetView,
    member: HandleView,
    requested: u32,
    replies: Seq<SysReturn>,
)
    requires
        !set.handle.open,
    ensures
        join_outcome(set, member) == Err::<(), HandleError>(HandleError::InvalidHandle),
        poll_outcome(set, requested, replies) == Err::<Seq<(u32, u32)>, WaitError>(
            WaitError::HandleError(HandleError::InvalidHandle),
        ),
{
}

/// What the kernel refuses, the library does not report as done: on every
/// status but `NoError` a wait ends in an error, no handle is acquired, no
/// channel is accepted, and a release is fatal.
pub proof fn lemma_refusal_is_never_success(handle: HandleView, mask: u32, reply: SysReturn)
    requires
        status_of(reply.status as int) != KernelStatus::NoError,
    ensures
        signal_outcome(mask, reply).is_err(),
        wait_outcome(handle, mask, reply).is_err(),
        acquired(reply).is_err(),
        accepted(handle, reply).is_none(),
        close_outcome(handle, reply).is_err(),
{
}

} // verus!
