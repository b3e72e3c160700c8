//! Time: readings of the kernel's monotonic clock.

use vstd::prelude::*;
use core::cmp::Ordering;
use crate::abi::{low_half, low_half_of, SysReturn};

verus! {

/// A reading of the kernel clock: a signed 64-bit count of ticks.
#[derive(Clone, Copy, Debug, PartialEq, Eq, Structural)]
pub struct Time(i64);

impl View for Time {
    type V = int;

    closed spec fn view(&self) -> int {
        self.0 as int
    }
}

/// The tick count that two 32-bit halves make: `high` above `low`, read as
/// a signed 64-bit number.
pub open spec fn ticks_of(low: u32, high: u32) -> int {
    let raw = high * 0x1_0000_0000 + low;
    if raw < 0x8000_0000_0000_0000 {
        raw
    } else {
        raw - 0x1_0000_0000_0000_0000
    }
}

/// The low half of a tick count as the kernel splits it.
pub open spec fn low_ticks(ticks: i64) -> u32 {
    (ticks % 0x1_0000_0000) as u32
}

/// The high half of a tick count as the kernel splits it.
pub open spec fn high_ticks(ticks: i64) -> u32 {
    ((ticks / 0x1_0000_0000) % 0x1_0000_0000) as u32
}

/// The tick count that a reply to `Request::GetTime` carries: the low half
/// in the status word, the high half in the extra word.
pub open spec fn reading(reply: SysReturn) -> int {
    ticks_of(low_half(reply.status), low_half(reply.extra))
}

/// Reads the kernel's answer to `Request::GetTime`.
pub fn get_time(reply: SysReturn) -> (time: Time)
    ensures
        time@ == reading(reply),
{
    let low = low_half_of(reply.status);
    let high = low_half_of(reply.extra);
    let combined: u64 = ((high as u64) << 32) | (low as u64);
    assert(combined == high * 0x1_0000_0000 + low) by (bit_vector)
        requires
            combined == ((high as u64) << 32) | (low as u64),
    ;
    let ticks = #[verifier::truncate] (combined as i64);
    assert(combined < 0x8000_0000_0000_0000 ==> ticks == combined) by (bit_vector)
        requires
            ticks == combined as i64,
    ;
    assert(combined >= 0x8000_0000_0000_0000 ==> ticks == combined - 0x1_0000_0000_0000_0000)
        by (bit_vector)
        requires
            ticks == combined as i64,
    ;
    Time(ticks)
}

impl Time {
    /// The reading of a given tick count.
    pub fn from_ticks(ticks: i64) -> (time: Time)
        ensures
            time@ == ticks,
    {
        Time(ticks)
    }

    /// The tick count of the reading.
    pub fn ticks(&self) -> (ticks: i64)
        ensures
            ticks == self@,
    {
        self.0
    }
}

impl PartialOrd for Time {
    fn partial_cmp(&self, other: &Time) -> (r: Option<Ordering>) {
        if self.0 < other.0 {
            Some(Ordering::Less)
        } else if self.0 > other.0 {
            Some(Ordering::Greater)
        } else {
            Some(Ordering::Equal)
        }
    }
}

impl vstd::std_specs::cmp::PartialOrdSpecImpl for Time {
    open spec fn obeys_partial_cmp_spec() -> bool {
        true
    }

    open spec fn partial_cmp_spec(&self, other: &Time) -> Option<Ordering> {
        if self@ < other@ {
            Some(Ordering::Less)
        } else if self@ > other@ {
            Some(Ordering::Greater)
        } else {
            Some(Ordering::Equal)
        }
    }
}

/// Splitting a tick count into halves and joining them again gives the
/// count back.
pub proof fn lemma_ticks_round_trip(ticks: i64)
    ensures
        ticks_of(low_ticks(ticks), high_ticks(ticks)) == ticks,
{
}

/// Reading keeps the clock's order: of two replies that carry tick counts
/// `earlier <= later`, the first never reads as the later time.
pub proof fn lemma_reading_keeps_order(
    first: SysReturn,
    second: SysReturn,
    earlier: i64,
    later: i64,
)
    requires
        low_half(first.status) == low_ticks(earlier),
        low_half(first.extra) == high_ticks(earlier),
        low_half(second.status) == low_ticks(later),
        low_half(second.extra) == high_ticks(later),
        earlier <= later,
    ensures
        reading(first) == earlier,
        reading(second) == later,
        reading(first) <= reading(second),
{
    lemma_ticks_round_trip(earlier);
    lemma_ticks_round_trip(later);
}

} // verus!
