//! Signal masks: sets of readiness conditions, one bit each.
//!
//! A mask says which conditions a wait watches, and which of them fired.

use vstd::prelude::*;

verus! {

/// A set of readiness conditions.
pub type SignalMask = u32;

/// The endpoint has something to read, or a connection to accept.
pub const READABLE: u32 = 1;

/// The endpoint can take a message.
pub const WRITABLE: u32 = 2;

/// The endpoint's resource is gone.
pub const CLOSED: u32 = 4;

/// No condition of `a` is missing from `b`.
pub open spec fn is_subset(a: u32, b: u32) -> bool {
    a & !b == 0
}

/// The conditions among `signals` that a wait on `watched` reports.
pub open spec fn fired(signals: u32, watched: u32) -> u32 {
    signals & watched
}

/// What fired is part of what was watched and of what was signalled, and
/// watching everything that was signalled loses nothing.
pub proof fn lemma_fired_within(signals: u32, watched: u32)
    ensures
        is_subset(fired(signals, watched), watched),
        is_subset(fired(signals, watched), signals),
        is_subset(signals, watched) ==> fired(signals, watched) == signals,
        fired(signals, 0) == 0,
{
    assert((signals & watched) & !watched == 0) by (bit_vector);
    assert((signals & watched) & !signals == 0) by (bit_vector);
    assert(signals & !watched == 0 ==> signals & watched == signals) by (bit_vector);
    assert(signals & 0 == 0) by (bit_vector);
}

} // verus!
