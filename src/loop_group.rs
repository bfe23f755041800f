//! A loop group: one ticker that wakes on a fixed interval and sends every
//! member task a `Schedule` for the same instant.
//!
//! The ticker's thread calls `LoopGroup::tick` with the instant it woke at,
//! sends the command it gets to each of `LoopGroup::members`, in order,
//! reports how many of those sends failed with `LoopGroup::end_tick`, and
//! sleeps for `LoopGroup::interval`. A single failed send stops the group for
//! good, and with it the ticks of every other member: a dead member is not
//! dropped from the group.
use vstd::prelude::*;
use crate::task_loop::{LoopState, runs, lemma_runs_at_most_schedules};
use crate::tasks::{ToTask, schedule_count};

verus! {

/// The state of a loop group, in mathematical form. `M` is what the group
/// sends through: a member's control sender.
pub struct GroupState<M> {
    /// Time between two ticks, in nanoseconds.
    pub interval: nat,
    /// The members, in the order they joined.
    pub members: Seq<M>,
    /// Members that asked to join and are taken in at the next tick.
    pub pending: Seq<M>,
    /// Whether the group still ticks.
    pub running: bool,
}

/// What happens to a loop group.
pub enum GroupEvent<M> {
    /// A task asks to join.
    Join(M),
    /// The ticker wakes at the given instant.
    Tick(u64),
    /// The sends of the last tick are done; the given number of them failed.
    Report(usize),
}

/// A new group with the given interval.
pub open spec fn group_new<M>(interval: nat) -> GroupState<M> {
    GroupState { interval, members: Seq::empty(), pending: Seq::empty(), running: true }
}

/// A join request: queued while the group runs, handed back once it has stopped.
pub open spec fn group_join<M>(g: GroupState<M>, member: M) -> (GroupState<M>, Result<(), M>) {
    if g.running {
        (GroupState { pending: g.pending.push(member), ..g }, Ok(()))
    } else {
        (g, Err(member))
    }
}

/// A tick at `now`: a running group takes in the pending members and sends
/// every member `Schedule(now)`; a stopped one sends nothing.
pub open spec fn group_tick<M>(g: GroupState<M>, now: u64) -> (GroupState<M>, Option<ToTask>) {
    if g.running {
        (
            GroupState { members: g.members + g.pending, pending: Seq::empty(), ..g },
            Some(ToTask::Schedule(now)),
        )
    } else {
        (g, None)
    }
}

/// The end of a tick in which `failures` sends failed.
pub open spec fn group_report<M>(g: GroupState<M>, failures: usize) -> GroupState<M> {
    GroupState { running: g.running && failures == 0, ..g }
}

/// One event.
pub open spec fn group_step<M>(g: GroupState<M>, e: GroupEvent<M>) -> GroupState<M> {
    match e {
        GroupEvent::Join(m) => group_join(g, m).0,
        GroupEvent::Tick(now) => group_tick(g, now).0,
        GroupEvent::Report(failures) => group_report(g, failures),
    }
}

/// The group `g` after the events `events`, one by one.
pub open spec fn group_after<M>(g: GroupState<M>, events: Seq<GroupEvent<M>>) -> GroupState<M>
    decreases events.len(),
{
    if events.len() == 0 {
        g
    } else {
        group_step(group_after(g, events.drop_last()), events.last())
    }
}

/// The number of ticks among `events`.
pub open spec fn tick_count<M>(events: Seq<GroupEvent<M>>) -> nat
    decreases events.len(),
{
    if events.len() == 0 {
        0
    } else {
        tick_count(events.drop_last()) + if events.last() is Tick {
            1nat
        } else {
            0nat
        }
    }
}

/// The commands that the member at position `i` of the group `g` is sent
/// over the events `events`, in order.
pub open spec fn delivered<M>(g: GroupState<M>, events: Seq<GroupEvent<M>>, i: int) -> Seq<
    Option<ToTask>,
>
    decreases events.len(),
{
    if events.len() == 0 {
        Seq::empty()
    } else {
        let earlier = delivered(g, events.drop_last(), i);
        match events.last() {
            GroupEvent::Tick(now) => {
                let (after, sent) = group_tick(group_after(g, events.drop_last()), now);
                if sent is Some && 0 <= i < after.members.len() {
                    earlier.push(sent)
                } else {
                    earlier
                }
            },
            _ => earlier,
        }
    }
}

/// A loop group's ticker.
pub struct LoopGroup<M> {
    interval: u64,
    members: Vec<M>,
    pending: Vec<M>,
    running: bool,
}

impl<M> View for LoopGroup<M> {
    type V = GroupState<M>;

    closed spec fn view(&self) -> GroupState<M> {
        GroupState {
            interval: self.interval as nat,
            members: self.members@,
            pending: self.pending@,
            running: self.running,
        }
    }
}

impl<M> LoopGroup<M> {
    /// A running group with no members that ticks every `loop_epoch`
    /// nanoseconds.
    pub fn new(loop_epoch: u64) -> (r: LoopGroup<M>)
        ensures
            r@ == group_new::<M>(loop_epoch as nat),
    {
        LoopGroup { interval: loop_epoch, members: Vec::new(), pending: Vec::new(), running: true }
    }

    /// Asks for `member` to be sent the group's ticks from the next tick on.
    /// A stopped group hands the member back.
    pub fn add_member(&mut self, member: M) -> (r: Result<(), M>)
        ensures
            (final(self)@, r) == group_join(old(self)@, member),
    {
        if self.running {
            self.pending.push(member);
            Ok(())
        } else {
            Err(member)
        }
    }

    /// Starts the tick at the instant `now`, and gives the command to send to
    /// every member, or `None` once the group has stopped.
    pub fn tick(&mut self, now: u64) -> (r: Option<ToTask>)
        ensures
            (final(self)@, r) == group_tick(old(self)@, now),
    {
        if self.running {
            self.members.append(&mut self.pending);
            Some(ToTask::Schedule(now))
        } else {
            None
        }
    }

    /// Ends a tick in which `failures` of the sends failed. Any failure stops
    /// the group.
    pub fn end_tick(&mut self, failures: usize)
        ensures
            final(self)@ == group_report(old(self)@, failures),
    {
        if failures != 0 {
            self.running = false;
        }
    }

    /// The members, in the order they joined.
    pub fn members(&self) -> (r: &Vec<M>)
        ensures
            r@ == self@.members,
    {
        &self.members
    }

    /// Time between two ticks, in nanoseconds.
    pub fn interval(&self) -> (r: u64)
        ensures
            r == self@.interval,
    {
        self.interval
    }

    /// Whether the group still ticks.
    pub fn is_running(&self) -> (r: bool)
        ensures
            r == self@.running,
    {
        self.running
    }
}

/// A member is sent at most one command per tick.
proof fn lemma_delivered_at_most_ticks<M>(g: GroupState<M>, events: Seq<GroupEvent<M>>, i: int)
    ensures
        schedule_count(delivered(g, events, i)) <= delivered(g, events, i).len(),
        delivered(g, events, i).len() <= tick_count(events),
    decreases events.len(),
{
    if events.len() > 0 {
        lemma_delivered_at_most_ticks(g, events.drop_last(), i);
    }
    lemma_schedule_count_at_most_len(delivered(g, events, i));
}

proof fn lemma_schedule_count_at_most_len(msgs: Seq<Option<ToTask>>)
    ensures
        schedule_count(msgs) <= msgs.len(),
    decreases msgs.len(),
{
    if msgs.len() > 0 {
        lemma_schedule_count_at_most_len(msgs.drop_last());
    }
}

/// A task driven by a loop group runs at most once per tick of the group:
/// over any events of the group, the member at position `i`, whatever the
/// state of its loop, runs at most as many times as the group ticked.
pub proof fn lemma_member_runs_at_most_ticks<M>(
    g: GroupState<M>,
    events: Seq<GroupEvent<M>>,
    i: int,
    s: LoopState,
)
    ensures
        runs(s, delivered(g, events, i)) <= tick_count(events),
{
    lemma_runs_at_most_schedules(s, delivered(g, events, i));
    lemma_delivered_at_most_ticks(g, events, i);
}

} // verus!
