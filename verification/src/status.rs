//! The error translator: from the kernel's numeric status word to typed
//! errors.

use vstd::prelude::*;

verus! {

/// What the kernel reports of one system call.
#[derive(Clone, Copy, Debug, PartialEq, Eq, Structural)]
pub enum KernelStatus {
    NoError,
    NotAllowed,
    InvalidHandle,
    Cancelled,
    TimedOut,
    Interrupted,
    /// Any status word that has no meaning assigned.
    Unknown,
}

/// Why an operation on a capability was refused.
#[derive(Clone, Copy, Debug, PartialEq, Eq, Structural)]
pub enum HandleError {
    InvalidHandle,
    NotAllowed,
}

/// Why a blocking wait ended without a signal.
#[derive(Clone, Copy, Debug, PartialEq, Eq, Structural)]
pub enum WaitError {
    Cancelled,
    TimedOut,
    Interrupted,
    HandleError(HandleError),
    Unknown,
}

/// The status that a status word stands for.
pub open spec fn status_of(word: int) -> KernelStatus {
    if word == 0 {
        KernelStatus::NoError
    } else if word == 1 {
        KernelStatus::NotAllowed
    } else if word == 2 {
        KernelStatus::InvalidHandle
    } else if word == 3 {
        KernelStatus::Cancelled
    } else if word == 4 {
        KernelStatus::TimedOut
    } else if word == 5 {
        KernelStatus::Interrupted
    } else {
        KernelStatus::Unknown
    }
}

/// The handle-level error that a status carries, if it carries one.
pub open spec fn handle_error_of(status: KernelStatus) -> Option<HandleError> {
    match status {
        KernelStatus::InvalidHandle => Some(HandleError::InvalidHandle),
        KernelStatus::NotAllowed => Some(HandleError::NotAllowed),
        _ => None,
    }
}

/// The error with which a wait ends on a status; none on `NoError`.
pub open spec fn wait_error_of(status: KernelStatus) -> Option<WaitError> {
    match status {
        KernelStatus::NoError => None,
        KernelStatus::NotAllowed => Some(WaitError::HandleError(HandleError::NotAllowed)),
        KernelStatus::InvalidHandle => Some(WaitError::HandleError(HandleError::InvalidHandle)),
        KernelStatus::Cancelled => Some(WaitError::Cancelled),
        KernelStatus::TimedOut => Some(WaitError::TimedOut),
        KernelStatus::Interrupted => Some(WaitError::Interrupted),
        KernelStatus::Unknown => Some(WaitError::Unknown),
    }
}

/// Maps a status word to its status. Total: a word without a meaning is
/// `Unknown`.
pub fn translate(status_word: usize) -> (status: KernelStatus)
    ensures
        status == status_of(status_word as int),
    no_unwind
{
    if status_word == 0 {
        KernelStatus::NoError
    } else if status_word == 1 {
        KernelStatus::NotAllowed
    } else if status_word == 2 {
        KernelStatus::InvalidHandle
    } else if status_word == 3 {
        KernelStatus::Cancelled
    } else if status_word == 4 {
        KernelStatus::TimedOut
    } else if status_word == 5 {
        KernelStatus::Interrupted
    } else {
        KernelStatus::Unknown
    }
}

impl KernelStatus {
    /// The word that the kernel uses for this status; `Unknown` has none.
    pub open spec fn spec_word(self) -> Option<int> {
        match self {
            KernelStatus::NoError => Some(0int),
            KernelStatus::NotAllowed => Some(1int),
            KernelStatus::InvalidHandle => Some(2int),
            KernelStatus::Cancelled => Some(3int),
            KernelStatus::TimedOut => Some(4int),
            KernelStatus::Interrupted => Some(5int),
            KernelStatus::Unknown => None,
        }
    }

    /// The word that the kernel uses for this status; `Unknown` has none.
    pub fn word(self) -> (word: Option<usize>)
        ensures
            word.is_some() == self.spec_word().is_some(),
            word matches Some(w) ==> self.spec_word() == Some(w as int),
    {
        match self {
            KernelStatus::NoError => Some(0),
            KernelStatus::NotAllowed => Some(1),
            KernelStatus::InvalidHandle => Some(2),
            KernelStatus::Cancelled => Some(3),
            KernelStatus::TimedOut => Some(4),
            KernelStatus::Interrupted => Some(5),
            KernelStatus::Unknown => None,
        }
    }

    /// Whether the call succeeded.
    pub fn is_ok(self) -> (ok: bool)
        ensures
            ok == (self == KernelStatus::NoError),
    {
        match self {
            KernelStatus::NoError => true,
            _ => false,
        }
    }

    /// The handle-level error in this status, for an operation that fails
    /// for handle reasons only.
    pub fn handle_error(self) -> (error: Option<HandleError>)
        ensures
            error == handle_error_of(self),
    {
        match self {
            KernelStatus::InvalidHandle => Some(HandleError::InvalidHandle),
            KernelStatus::NotAllowed => Some(HandleError::NotAllowed),
            _ => None,
        }
    }

    /// The error with which a blocking wait ends on this status.
    pub fn wait_error(self) -> (error: Option<WaitError>)
        ensures
            error == wait_error_of(self),
    {
        match self {
            KernelStatus::NoError => None,
            KernelStatus::NotAllowed => Some(WaitError::HandleError(HandleError::NotAllowed)),
            KernelStatus::InvalidHandle => Some(WaitError::HandleError(HandleError::InvalidHandle)),
            KernelStatus::Cancelled => Some(WaitError::Cancelled),
            KernelStatus::TimedOut => Some(WaitError::TimedOut),
            KernelStatus::Interrupted => Some(WaitError::Interrupted),
            KernelStatus::Unknown => Some(WaitError::Unknown),
        }
    }
}

/// Every status that has a word is the translation of that word, and a
/// word translates to `Unknown` exactly when no status has it.
pub proof fn lemma_translate_inverts_word(status: KernelStatus, word: int)
    ensures
        status.spec_word() matches Some(w) ==> status_of(w) == status,
        status_of(word) == KernelStatus::Unknown <==> !(0 <= word <= 5),
        status_of(word) != KernelStatus::Unknown ==> status_of(word).spec_word() == Some(word),
{
}

/// A wait ends in an error on every status but `NoError`, and the three
/// ways a wait is cut short stay distinct.
pub proof fn lemma_wait_error_distinguishes(a: KernelStatus, b: KernelStatus)
    ensures
        wait_error_of(a).is_none() <==> a == KernelStatus::NoError,
        wait_error_of(a) == wait_error_of(b) ==> a == b,
        handle_error_of(a) matches Some(e) ==> wait_error_of(a) == Some(WaitError::HandleError(e)),
{
}

} // verus!
