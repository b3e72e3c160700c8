//! Poll sets: waiting on many handles at once.
//!
//! A poll set keeps a record of members, each a handle identifier with the
//! conditions watched on it. It does not own its members. One wait probes
//! every member and reports all that are signalled, in the order in which
//! they joined.

use vstd::prelude::*;
use crate::abi::{low_half, Request, SysReturn};
use crate::handle::{
    acquired, close_outcome, read_signals, released, signal_outcome, Fatal, Handle, HandleView,
    Waitable,
};
use crate::signal::{is_subset, lemma_fired_within, CLOSED};
use crate::status::{status_of, HandleError, KernelStatus, WaitError};

verus! {

/// One member of a poll set: the identifier of its handle and the
/// conditions watched on it.
#[derive(Clone, Copy, Debug, PartialEq, Eq, Structural)]
pub struct Member {
    pub id: u32,
    pub interest: u32,
}

/// What a poll set is: its own handle, and its members in the order in
/// which they joined.
pub struct PollSetView {
    pub handle: HandleView,
    pub members: Seq<Member>,
}

/// A group of handles that are waited on together.
#[derive(Debug)]
pub struct PollSet {
    handle: Handle,
    members: Vec<Member>,
}

impl View for PollSet {
    type V = PollSetView;

    closed spec fn view(&self) -> PollSetView {
        PollSetView { handle: self.handle@, members: self.members@ }
    }
}

/// No handle is a member twice.
pub open spec fn distinct_ids(members: Seq<Member>) -> bool {
    forall|i: int, j: int|
        #![trigger members[i], members[j]]
        0 <= i < j < members.len() ==> members[i].id != members[j].id
}

/// Whether the handle `id` is a member.
pub open spec fn is_member(members: Seq<Member>, id: u32) -> bool {
    exists|i: int| 0 <= i < members.len() && #[trigger] members[i].id == id
}

/// Where the handle `id` stands among the members, if it is one.
pub open spec fn position(members: Seq<Member>, id: u32) -> int {
    choose|i: int| 0 <= i < members.len() && #[trigger] members[i].id == id
}

/// The members after `member` joined: in its old place with its new
/// interest if its handle was a member already, last otherwise.
pub open spec fn with_member(members: Seq<Member>, member: Member) -> Seq<Member> {
    if is_member(members, member.id) {
        members.update(position(members, member.id), member)
    } else {
        members.push(member)
    }
}

/// The members after the handle `id` left; the others keep their order.
pub open spec fn without_member(members: Seq<Member>, id: u32) -> Seq<Member> {
    if is_member(members, id) {
        members.remove(position(members, id))
    } else {
        members
    }
}

/// Whether `member` can join `set`: both have to be open.
pub open spec fn join_outcome(set: PollSetView, member: HandleView) -> Result<(), HandleError> {
    if set.handle.open && member.open {
        Ok(())
    } else {
        Err(HandleError::InvalidHandle)
    }
}

/// The request that probes one member in a wait on `requested`.
pub open spec fn probe(member: Member, requested: u32) -> Request<'static> {
    Request::WaitOne { handle: member.id, mask: member.interest & requested }
}

/// What one member reports in a wait on `requested` when the kernel
/// answers its probe with `reply`.
///
/// A member is signalled with the conditions that fired among those both
/// watched on it and requested. A member whose handle the kernel no longer
/// knows is signalled as closed, whatever was watched. Any other answer
/// signals nothing.
pub open spec fn member_signal(member: Member, requested: u32, reply: SysReturn) -> Option<u32> {
    match signal_outcome(member.interest & requested, reply) {
        Ok(signalled) => Some(signalled),
        Err(WaitError::HandleError(HandleError::InvalidHandle)) => Some(CLOSED),
        Err(_) => None,
    }
}

/// Whether the kernel's answer shows the member ready: a condition that is
/// both watched on it and requested has fired.
pub open spec fn is_ready(member: Member, requested: u32, reply: SysReturn) -> bool {
    signal_outcome(member.interest & requested, reply).is_ok()
}

/// Whether the kernel's answer shows that the member's handle is gone.
pub open spec fn is_gone(reply: SysReturn) -> bool {
    status_of(reply.status as int) == KernelStatus::InvalidHandle
}

/// The entries that the first `n` members report, in member order.
pub open spec fn signalled_upto(
    members: Seq<Member>,
    requested: u32,
    replies: Seq<SysReturn>,
    n: nat,
) -> Seq<(u32, u32)>
    decreases n,
{
    if n == 0 {
        Seq::empty()
    } else {
        let before = signalled_upto(members, requested, replies, (n - 1) as nat);
        match member_signal(members[n - 1], requested, replies[n - 1]) {
            Some(signals) => before.push((members[n - 1].id, signals)),
            None => before,
        }
    }
}

/// How many members a wait reads: those that have a reply.
pub open spec fn probed(members: Seq<Member>, replies: Seq<SysReturn>) -> nat {
    if members.len() <= replies.len() {
        members.len()
    } else {
        replies.len()
    }
}

/// The entries that a wait reports: one for each signalled member, in
/// member order.
pub open spec fn signalled(members: Seq<Member>, requested: u32, replies: Seq<SysReturn>) -> Seq<
    (u32, u32),
> {
    signalled_upto(members, requested, replies, probed(members, replies))
}

/// How a wait on `requested` ends when the kernel answers the members'
/// probes with `replies`, one for each member in order.
///
/// A released poll set is refused. A wait that finds members signalled
/// reports them all. A wait that finds none ends with the error of the
/// first member's probe, or as interrupted where there is no member to
/// ask.
pub open spec fn poll_outcome(set: PollSetView, requested: u32, replies: Seq<SysReturn>) -> Result<
    Seq<(u32, u32)>,
    WaitError,
> {
    let entries = signalled(set.members, requested, replies);
    if !set.handle.open {
        Err(WaitError::HandleError(HandleError::InvalidHandle))
    } else if entries.len() > 0 {
        Ok(entries)
    } else if probed(set.members, replies) == 0 {
        Err(WaitError::Interrupted)
    } else {
        match signal_outcome(set.members[0].interest & requested, replies[0]) {
            Err(error) => Err(error),
            Ok(_) => Err(WaitError::Interrupted),
        }
    }
}

/// Reads the kernel's answer to one member's probe.
pub fn read_member(member: Member, requested: u32, reply: SysReturn) -> (res: Option<u32>)
    ensures
        res == member_signal(member, requested, reply),
{
    match read_signals(member.interest & requested, reply) {
        Ok(signalled) => Some(signalled),
        Err(WaitError::HandleError(HandleError::InvalidHandle)) => Some(CLOSED),
        Err(_) => None,
    }
}

impl Waitable for PollSet {
    open spec fn handle_view(&self) -> HandleView {
        self@.handle
    }

    fn handle(&self) -> (handle: &Handle) {
        &self.handle
    }
}

impl PollSet {
    #[verifier::type_invariant]
    spec fn members_distinct(&self) -> bool {
        distinct_ids(self.members@)
    }

    /// Reads the kernel's answer to `Request::CreatePollSet`: an empty
    /// poll set on `NoError`, nothing otherwise.
    pub fn new(reply: SysReturn) -> (res: Option<PollSet>)
        ensures
            res.is_some() <==> status_of(reply.status as int) == KernelStatus::NoError,
            res matches Some(set) ==> acquired(reply) == Ok::<HandleView, KernelStatus>(
                set@.handle,
            ) && set@.members == Seq::<Member>::empty(),
    {
        match Handle::acquire(reply) {
            Ok(handle) => Some(PollSet { handle, members: Vec::new() }),
            Err(_) => None,
        }
    }

    /// Where the handle `id` stands among the members.
    fn find(&self, id: u32) -> (res: Option<usize>)
        ensures
            res.is_some() == is_member(self@.members, id),
            res matches Some(at) ==> at < self@.members.len() && self@.members[at as int].id == id
                && position(self@.members, id) == at,
    {
        proof {
            use_type_invariant(self);
        }
        let mut at: usize = 0;
        while at < self.members.len()
            invariant
                at <= self.members.len(),
                distinct_ids(self.members@),
                forall|k: int| 0 <= k < at ==> (#[trigger] self.members@[k]).id != id,
            decreases self.members.len() - at,
        {
            if self.members[at].id == id {
                assert(self.members@[at as int].id == id);
                return Some(at);
            }
            at += 1;
        }
        None
    }

    /// Hands the member record out, so that it can be changed and put back
    /// whole. The set is empty meanwhile.
    fn take_members(&mut self) -> (members: Vec<Member>)
        ensures
            members@ == old(self).members@,
            final(self).members@ == Seq::<Member>::empty(),
            final(self).handle == old(self).handle,
    {
        let mut members: Vec<Member> = Vec::new();
        core::mem::swap(&mut self.members, &mut members);
        members
    }

    /// Registers `member` with the conditions watched on it. A member that
    /// joins again keeps its place and takes the new interest. The poll
    /// set borrows the member and does not own it: the member has to stay
    /// alive for as long as it is registered.
    ///
    /// Nothing is registered with a released poll set, and a released
    /// member cannot join.
    pub fn add<W: Waitable>(&mut self, member: &W, interest: u32) -> (res: Result<(), HandleError>)
        ensures
            res == join_outcome(old(self)@, member.handle_view()),
            final(self)@.handle == old(self)@.handle,
            final(self)@.members == if res.is_ok() {
                with_member(old(self)@.members, Member { id: member.handle_view().id, interest })
            } else {
                old(self)@.members
            },
            distinct_ids(final(self)@.members),
    {
        proof {
            use_type_invariant(&*self);
        }
        if !self.handle.is_open() || !member.handle().is_open() {
            return Err(HandleError::InvalidHandle);
        }
        let entry = Member { id: member.handle().id(), interest };
        let found = self.find(entry.id);
        let mut members = self.take_members();
        match found {
            Some(at) => {
                members.set(at, entry);
            },
            None => {
                members.push(entry);
            },
        }
        self.members = members;
        Ok(())
    }

    /// Deregisters `member`, whether or not either is still open. Nothing
    /// changes if it was not registered.
    pub fn remove<W: Waitable>(&mut self, member: &W)
        ensures
            final(self)@.handle == old(self)@.handle,
            final(self)@.members == without_member(old(self)@.members, member.handle_view().id),
            distinct_ids(final(self)@.members),
    {
        proof {
            use_type_invariant(&*self);
        }
        match self.find(member.handle().id()) {
            Some(at) => {
                let mut members = self.take_members();
                members.remove(at);
                self.members = members;
            },
            None => {},
        }
    }

    /// How many members are registered.
    pub fn len(&self) -> (len: usize)
        ensures
            len == self@.members.len(),
    {
        self.members.len()
    }

    /// The conditions watched on `member`, if it is registered.
    pub fn interest<W: Waitable>(&self, member: &W) -> (res: Option<u32>)
        ensures
            res == interest_of(self@.members, member.handle_view().id),
    {
        match self.find(member.handle().id()) {
            Some(at) => Some(self.members[at].interest),
            None => None,
        }
    }

    /// The requests that probe the members in a wait on `requested`: one
    /// for each member, in member order, each for the conditions both
    /// watched on the member and requested. A released poll set sends
    /// nothing.
    pub fn wait_requests(&self, requested: u32) -> (res: Result<Vec<Request<'static>>, WaitError>)
        ensures
            res.is_ok() == self@.handle.open,
            res matches Err(error) ==> error == WaitError::HandleError(HandleError::InvalidHandle),
            res matches Ok(requests) ==> requests@ == Seq::new(
                self@.members.len(),
                |i: int| probe(self@.members[i], requested),
            ),
            distinct_ids(self@.members),
    {
        proof {
            use_type_invariant(self);
        }
        if !self.handle.is_open() {
            return Err(WaitError::HandleError(HandleError::InvalidHandle));
        }
        let mut requests: Vec<Request<'static>> = Vec::new();
        let mut at: usize = 0;
        while at < self.members.len()
            invariant
                at <= self.members.len(),
                requests@ == Seq::new(at as nat, |i: int| probe(self.members@[i], requested)),
            decreases self.members.len() - at,
        {
            let member = self.members[at];
            requests.push(Request::WaitOne { handle: member.id, mask: member.interest & requested });
            at += 1;
        }
        Ok(requests)
    }

    /// Reads the kernel's answers to the members' probes, `replies[i]` for
    /// the member at `i`.
    ///
    /// Every member that is signalled is reported, once, in member order:
    /// a wait does not stop at the first. A member that the kernel no
    /// longer knows is reported as closed. No entry names a handle that is
    /// not a member, and none is empty.
    pub fn wait(&self, requested: u32, replies: &Vec<SysReturn>) -> (res: Result<
        Vec<(u32, u32)>,
        WaitError,
    >)
        ensures
            match res {
                Ok(entries) => poll_outcome(self@, requested, replies@) == Ok::<
                    Seq<(u32, u32)>,
                    WaitError,
                >(entries@),
                Err(error) => poll_outcome(self@, requested, replies@) == Err::<
                    Seq<(u32, u32)>,
                    WaitError,
                >(error),
            },
            res matches Ok(entries) ==> entries@.len() > 0 && distinct_entries(entries@),
            distinct_ids(self@.members),
    {
        proof {
            use_type_invariant(self);
        }
        if !self.handle.is_open() {
            return Err(WaitError::HandleError(HandleError::InvalidHandle));
        }
        let count = if self.members.len() <= replies.len() {
            self.members.len()
        } else {
            replies.len()
        };
        let mut entries: Vec<(u32, u32)> = Vec::new();
        let mut at: usize = 0;
        while at < count
            invariant
                at <= count,
                count == probed(self.members@, replies@),
                entries@ == signalled_upto(self.members@, requested, replies@, at as nat),
            decreases count - at,
        {
            let member = self.members[at];
            match read_member(member, requested, replies[at]) {
                Some(signals) => {
                    entries.push((member.id, signals));
                },
                None => {},
            }
            at += 1;
        }
        proof {
            lemma_entries_distinct(self.members@, requested, replies@, count as nat);
        }
        if entries.len() > 0 {
            Ok(entries)
        } else if count == 0 {
            Err(WaitError::Interrupted)
        } else {
            match read_signals(self.members[0].interest & requested, replies[0]) {
                Err(error) => Err(error),
                Ok(_) => Err(WaitError::Interrupted),
            }
        }
    }

    /// The request that releases the poll set.
    pub fn close_request(&self) -> (res: Result<Request<'static>, Fatal>)
        ensures
            self@.handle.open ==> res == Ok::<Request<'static>, Fatal>(
                Request::CloseHandle { handle: self@.handle.id },
            ),
            !self@.handle.open ==> res == Err::<Request<'static>, Fatal>(
                Fatal { status: KernelStatus::InvalidHandle },
            ),
    {
        self.handle.close_request()
    }

    /// Reads the kernel's answer to the release. The poll set is closed
    /// afterwards, whatever the answer; its members are not touched.
    pub fn close(&mut self, reply: SysReturn) -> (res: Result<(), Fatal>)
        ensures
            res == close_outcome(old(self)@.handle, reply),
            final(self)@.handle == released(old(self)@.handle),
            final(self)@.members == old(self)@.members,
    {
        proof {
            use_type_invariant(&*self);
        }
        self.handle.close(reply)
    }
}

/// No handle has two entries.
pub open spec fn distinct_entries(entries: Seq<(u32, u32)>) -> bool {
    forall|i: int, j: int|
        #![trigger entries[i], entries[j]]
        0 <= i < j < entries.len() ==> entries[i].0 != entries[j].0
}

/// Every entry that the first `n` members report is the report of one of
/// them.
proof fn lemma_entries_are_reports(
    members: Seq<Member>,
    requested: u32,
    replies: Seq<SysReturn>,
    n: nat,
    k: int,
)
    requires
        0 <= k < signalled_upto(members, requested, replies, n).len(),
    ensures
        exists|i: int|
            0 <= i < n && #[trigger] member_signal(members[i], requested, replies[i]) == Some(
                signalled_upto(members, requested, replies, n)[k].1,
            ) && members[i].id == signalled_upto(members, requested, replies, n)[k].0,
    decreases n,
{
    if n > 0 {
        let before = signalled_upto(members, requested, replies, (n - 1) as nat);
        if k < before.len() {
            lemma_entries_are_reports(members, requested, replies, (n - 1) as nat, k);
        } else {
            assert(member_signal(members[n - 1], requested, replies[n - 1]).is_some());
        }
    }
}

/// Every member among the first `n` that is signalled has its entry.
proof fn lemma_reports_are_entries(
    members: Seq<Member>,
    requested: u32,
    replies: Seq<SysReturn>,
    n: nat,
    i: int,
)
    requires
        0 <= i < n,
        member_signal(members[i], requested, replies[i]).is_some(),
    ensures
        signalled_upto(members, requested, replies, n).contains(
            (members[i].id, member_signal(members[i], requested, replies[i]).unwrap()),
        ),
    decreases n,
{
    let entries = signalled_upto(members, requested, replies, n);
    let before = signalled_upto(members, requested, replies, (n - 1) as nat);
    let entry = (members[i].id, member_signal(members[i], requested, replies[i]).unwrap());
    if i == n - 1 {
        assert(entries[entries.len() - 1] == entry);
    } else {
        lemma_reports_are_entries(members, requested, replies, (n - 1) as nat, i);
        let k = choose|k: int| 0 <= k < before.len() && before[k] == entry;
        assert(entries[k] == entry);
    }
}

/// Where no handle is a member twice, no handle has two entries.
proof fn lemma_entries_distinct(
    members: Seq<Member>,
    requested: u32,
    replies: Seq<SysReturn>,
    n: nat,
)
    requires
        distinct_ids(members),
        n <= members.len(),
    ensures
        distinct_entries(signalled_upto(members, requested, replies, n)),
    decreases n,
{
    if n > 0 {
        let entries = signalled_upto(members, requested, replies, n);
        let before = signalled_upto(members, requested, replies, (n - 1) as nat);
        lemma_entries_distinct(members, requested, replies, (n - 1) as nat);
        assert forall|i: int, j: int| 0 <= i < j < entries.len() implies entries[i].0
            != entries[j].0 by {
            if j >= before.len() {
                lemma_entries_are_reports(members, requested, replies, (n - 1) as nat, i);
            }
        }
    }
}

/// The conditions watched on the handle `id`, if it is a member.
pub open spec fn interest_of(members: Seq<Member>, id: u32) -> Option<u32> {
    if is_member(members, id) {
        Some(members[position(members, id)].interest)
    } else {
        None
    }
}

/// Joining registers the member with its interest, keeps every handle a
/// member only once, and leaves all other members as they were.
pub proof fn lemma_join_registers(members: Seq<Member>, member: Member, other: u32)
    requires
        distinct_ids(members),
        other != member.id,
    ensures
        distinct_ids(with_member(members, member)),
        interest_of(with_member(members, member), member.id) == Some(member.interest),
        interest_of(with_member(members, member), other) == interest_of(members, other),
{
    let after = with_member(members, member);
    if is_member(members, member.id) {
        let at = position(members, member.id);
        assert(after[at].id == member.id);
        assert(position(after, member.id) == at) by {
            let found = position(after, member.id);
            if found < at {
                assert(after[found].id != after[at].id);
            } else if at < found {
                assert(after[at].id != after[found].id);
            }
        }
        if is_member(members, other) {
            let there = position(members, other);
            assert(after[there] == members[there]);
            assert(after[there].id == other);
            let found = position(after, other);
            if found < there {
                assert(after[found].id != after[there].id);
            } else if there < found {
                assert(after[there].id != after[found].id);
            }
        } else if is_member(after, other) {
            let found = position(after, other);
            assert(members[found].id == other);
        }
    } else {
        let last = members.len() as int;
        assert(after[last].id == member.id);
        assert(position(after, member.id) == last) by {
            let found = position(after, member.id);
            if found < last {
                assert(members[found].id == member.id);
            }
        }
        if is_member(members, other) {
            let there = position(members, other);
            assert(after[there].id == other);
            let found = position(after, other);
            if found < there {
                assert(after[found].id != after[there].id);
            } else if there < found {
                assert(after[there].id != after[found].id);
            }
        } else if is_member(after, other) {
            let found = position(after, other);
            assert(members[found].id == other);
        }
    }
}

/// Leaving deregisters the member, and only it; where the handle was no
/// member, nothing changes.
pub proof fn lemma_leave_deregisters(members: Seq<Member>, id: u32, other: u32)
    requires
        distinct_ids(members),
        other != id,
    ensures
        distinct_ids(without_member(members, id)),
        interest_of(without_member(members, id), id).is_none(),
        interest_of(without_member(members, id), other) == interest_of(members, other),
        !is_member(members, id) ==> without_member(members, id) == members,
{
    let after = without_member(members, id);
    if is_member(members, id) {
        let at = position(members, id);
        assert forall|i: int| 0 <= i < after.len() implies #[trigger] after[i] == members[if i
            < at {
            i
        } else {
            i + 1
        }] by {}
        assert forall|i: int, j: int| 0 <= i < j < after.len() implies after[i].id
            != after[j].id by {
            let from_i = if i < at { i } else { i + 1 };
            let from_j = if j < at { j } else { j + 1 };
            assert(members[from_i].id != members[from_j].id);
        }
        if is_member(after, id) {
            let found = position(after, id);
            let from = if found < at { found } else { found + 1 };
            assert(members[from].id == id);
            if from < at {
                assert(members[from].id != members[at].id);
            } else {
                assert(members[at].id != members[from].id);
            }
        }
        if is_member(members, other) {
            let there = position(members, other);
            let to = if there < at { there } else { there - 1 };
            assert(after[to] == members[there]);
            assert(after[to].id == other);
            let found = position(after, other);
            if found < to {
                assert(after[found].id != after[to].id);
            } else if to < found {
                assert(after[to].id != after[found].id);
            }
        } else if is_member(after, other) {
            let found = position(after, other);
            let from = if found < at { found } else { found + 1 };
            assert(members[from].id == other);
        }
    }
}

/// Whether the entry at `k` reports `signals` of the handle `id`, and no
/// other entry names that handle.
pub open spec fn is_entry_once(entries: Seq<(u32, u32)>, k: int, id: u32, signals: u32) -> bool {
    &&& 0 <= k < entries.len()
    &&& entries[k] == (id, signals)
    &&& forall|j: int| 0 <= j < entries.len() && j != k ==> (#[trigger] entries[j]).0 != id
}

/// Whether the handle `id` has exactly one entry, and that entry reports
/// `signals`.
pub open spec fn reported_once(entries: Seq<(u32, u32)>, id: u32, signals: u32) -> bool {
    exists|k: int| is_entry_once(entries, k, id, signals)
}

/// One wait reports every ready member: where two members are ready at
/// once, both stand in the same result, each with what fired on it.
pub proof fn lemma_wait_reports_all_ready(
    set: PollSetView,
    requested: u32,
    replies: Seq<SysReturn>,
    a: int,
    b: int,
)
    requires
        set.handle.open,
        0 <= a < probed(set.members, replies),
        0 <= b < probed(set.members, replies),
        is_ready(set.members[a], requested, replies[a]),
        is_ready(set.members[b], requested, replies[b]),
    ensures
        poll_outcome(set, requested, replies) matches Ok(entries) && entries.contains(
            (
                set.members[a].id,
                signal_outcome(set.members[a].interest & requested, replies[a]).unwrap(),
            ),
        ) && entries.contains(
            (
                set.members[b].id,
                signal_outcome(set.members[b].interest & requested, replies[b]).unwrap(),
            ),
        ),
{
    let n = probed(set.members, replies);
    lemma_reports_are_entries(set.members, requested, replies, n, a);
    lemma_reports_are_entries(set.members, requested, replies, n, b);
}

/// A member whose handle is gone does not make the wait fail: it is
/// reported exactly once, as closed.
pub proof fn lemma_gone_member_reported_once(
    set: PollSetView,
    requested: u32,
    replies: Seq<SysReturn>,
    at: int,
)
    requires
        set.handle.open,
        distinct_ids(set.members),
        0 <= at < probed(set.members, replies),
        is_gone(replies[at]),
    ensures
        poll_outcome(set, requested, replies) matches Ok(entries) && reported_once(
            entries,
            set.members[at].id,
            CLOSED,
        ),
{
    let n = probed(set.members, replies);
    let entries = signalled_upto(set.members, requested, replies, n);
    lemma_reports_are_entries(set.members, requested, replies, n, at);
    lemma_entries_distinct(set.members, requested, replies, n);
    assert(member_signal(set.members[at], requested, replies[at]) == Some(CLOSED));
    assert(entries.contains((set.members[at].id, CLOSED)));
    let k = choose|k: int| 0 <= k < entries.len() && entries[k] == (set.members[at].id, CLOSED);
    assert forall|j: int| 0 <= j < entries.len() && j != k implies (#[trigger] entries[j]).0
        != set.members[at].id by {
        if j < k {
            assert(entries[j].0 != entries[k].0);
        } else {
            assert(entries[k].0 != entries[j].0);
        }
    }
    assert(is_entry_once(entries, k, set.members[at].id, CLOSED));
}

/// No entry names a stranger or an unwatched condition: each entry is the
/// report of a member, not empty, and either within what is both watched
/// on that member and requested, or `CLOSED` for a member that is gone.
pub proof fn lemma_entries_are_watched(
    set: PollSetView,
    requested: u32,
    replies: Seq<SysReturn>,
    entries: Seq<(u32, u32)>,
    k: int,
)
    requires
        poll_outcome(set, requested, replies) == Ok::<Seq<(u32, u32)>, WaitError>(entries),
        0 <= k < entries.len(),
    ensures
        entries[k].1 != 0,
        exists|i: int|
            {
                &&& 0 <= i < probed(set.members, replies)
                &&& (#[trigger] set.members[i]).id == entries[k].0
                &&& if is_gone(replies[i]) {
                    entries[k].1 == CLOSED
                } else {
                    is_subset(entries[k].1, set.members[i].interest & requested)
                }
            },
{
    let n = probed(set.members, replies);
    lemma_entries_are_reports(set.members, requested, replies, n, k);
    let i = choose|i: int|
        0 <= i < n && #[trigger] member_signal(set.members[i], requested, replies[i]) == Some(
            entries[k].1,
        ) && set.members[i].id == entries[k].0;
    lemma_fired_within(low_half(replies[i].extra), set.members[i].interest & requested);
    assert(set.members[i].id == entries[k].0);
}

/// A member that is neither ready nor gone is not reported.
pub proof fn lemma_pending_member_not_reported(
    set: PollSetView,
    requested: u32,
    replies: Seq<SysReturn>,
    entries: Seq<(u32, u32)>,
    at: int,
)
    requires
        poll_outcome(set, requested, replies) == Ok::<Seq<(u32, u32)>, WaitError>(entries),
        distinct_ids(set.members),
        0 <= at < set.members.len(),
        at < replies.len() ==> !is_ready(set.members[at], requested, replies[at]) && !is_gone(
            replies[at],
        ),
    ensures
        forall|k: int| 0 <= k < entries.len() ==> (#[trigger] entries[k]).0 != set.members[at].id,
{
    let n = probed(set.members, replies);
    assert forall|k: int| 0 <= k < entries.len() implies (#[trigger] entries[k]).0
        != set.members[at].id by {
        lemma_entries_are_reports(set.members, requested, replies, n, k);
    }
}

} // verus!
