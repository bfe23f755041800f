//! The loop that a task's own thread runs.
//!
//! The thread blocks on its control channel. Each command, or the news that
//! the channel is closed, goes to `TaskLoop::receive`, which says whether to
//! stop or to run the task at some instant. Before a run, the thread sleeps
//! until that instant and then takes the time since the previous run from
//! `TaskLoop::begin_run`. What the task returns does not change the loop.
use vstd::prelude::*;
use crate::tasks::{ToTask, is_schedule, schedule_count};

verus! {

/// What the task's thread does after a command.
#[derive(Clone, Copy, Debug, PartialEq, Eq, Structural)]
pub enum TaskStep {
    /// Leave the loop; the thread ends.
    Stop,
    /// Sleep until the instant `at` if it is still ahead, then run the task once.
    Run { at: u64 },
}

/// The state of a task's loop, in mathematical form.
pub struct LoopState {
    /// The instant of the last run, or of the thread's start before any run.
    pub last_run: nat,
    /// Whether the loop has stopped.
    pub exited: bool,
}

/// Where a loop in state `s` goes on the command `msg` (`None`: the control
/// channel is closed), and what its thread does.
pub open spec fn loop_step(s: LoopState, msg: Option<ToTask>) -> (LoopState, TaskStep) {
    if s.exited {
        (s, TaskStep::Stop)
    } else {
        match msg {
            Some(ToTask::Schedule(at)) => (s, TaskStep::Run { at }),
            _ => (LoopState { exited: true, ..s }, TaskStep::Stop),
        }
    }
}

/// The state of a loop in state `s` after the commands `msgs`, one by one.
pub open spec fn loop_after(s: LoopState, msgs: Seq<Option<ToTask>>) -> LoopState
    decreases msgs.len(),
{
    if msgs.len() == 0 {
        s
    } else {
        loop_step(loop_after(s, msgs.drop_last()), msgs.last()).0
    }
}

/// How many times a loop in state `s` runs its task on the commands `msgs`.
pub open spec fn runs(s: LoopState, msgs: Seq<Option<ToTask>>) -> nat
    decreases msgs.len(),
{
    if msgs.len() == 0 {
        0
    } else {
        let before = loop_after(s, msgs.drop_last());
        runs(s, msgs.drop_last()) + if loop_step(before, msgs.last()).1 is Run {
            1nat
        } else {
            0nat
        }
    }
}

/// The decisions of one task's thread.
pub struct TaskLoop {
    last_run: u64,
    exited: bool,
}

impl View for TaskLoop {
    type V = LoopState;

    closed spec fn view(&self) -> LoopState {
        LoopState { last_run: self.last_run as nat, exited: self.exited }
    }
}

impl TaskLoop {
    /// The loop of a thread that started at the instant `start`.
    pub fn new(start: u64) -> (r: TaskLoop)
        ensures
            r@ == (LoopState { last_run: start as nat, exited: false }),
    {
        TaskLoop { last_run: start, exited: false }
    }

    /// Handles the next command, or `None` once the control channel is closed.
    pub fn receive(&mut self, msg: Option<ToTask>) -> (step: TaskStep)
        ensures
            (final(self)@, step) == loop_step(old(self)@, msg),
    {
        if self.exited {
            return TaskStep::Stop;
        }
        match msg {
            Some(ToTask::Schedule(at)) => TaskStep::Run { at },
            _ => {
                self.exited = true;
                TaskStep::Stop
            },
        }
    }

    /// Starts a run at the instant `now` and gives the time since the previous
    /// run (or since the thread started), in nanoseconds.
    pub fn begin_run(&mut self, now: u64) -> (delta: u64)
        requires
            !old(self)@.exited,
            old(self)@.last_run <= now,
        ensures
            delta == now - old(self)@.last_run,
            final(self)@ == (LoopState { last_run: now as nat, exited: false }),
    {
        let delta = now - self.last_run;
        self.last_run = now;
        delta
    }

    /// The instant of the last run, or of the thread's start before any run.
    pub fn last_run(&self) -> (r: u64)
        ensures
            r == self@.last_run,
    {
        self.last_run
    }

    /// Whether the loop has stopped.
    pub fn has_exited(&self) -> (r: bool)
        ensures
            r == self@.exited,
    {
        self.exited
    }
}

/// A stopped loop stays stopped and runs nothing, whatever it is sent.
pub proof fn lemma_exited_loop_stays_idle(s: LoopState, msgs: Seq<Option<ToTask>>)
    requires
        s.exited,
    ensures
        loop_after(s, msgs) == s,
        runs(s, msgs) == 0,
    decreases msgs.len(),
{
    if msgs.len() > 0 {
        lemma_exited_loop_stays_idle(s, msgs.drop_last());
    }
}

/// Running the commands `a` and then `b` is running `a + b`.
proof fn lemma_runs_split(s: LoopState, a: Seq<Option<ToTask>>, b: Seq<Option<ToTask>>)
    ensures
        loop_after(s, a + b) == loop_after(loop_after(s, a), b),
        runs(s, a + b) == runs(s, a) + runs(loop_after(s, a), b),
    decreases b.len(),
{
    if b.len() == 0 {
        assert(a + b =~= a);
    } else {
        lemma_runs_split(s, a, b.drop_last());
        assert((a + b).drop_last() =~= a + b.drop_last());
        assert((a + b).last() == b.last());
    }
}

/// A task that is never sent `Schedule` is never run.
pub proof fn lemma_unscheduled_task_never_runs(s: LoopState, msgs: Seq<Option<ToTask>>)
    requires
        forall|i: int| 0 <= i < msgs.len() ==> !is_schedule(#[trigger] msgs[i]),
    ensures
        runs(s, msgs) == 0,
    decreases msgs.len(),
{
    if msgs.len() > 0 {
        let rest = msgs.drop_last();
        assert forall|i: int| 0 <= i < rest.len() implies !is_schedule(#[trigger] rest[i]) by {
            assert(rest[i] == msgs[i]);
        }
        lemma_unscheduled_task_never_runs(s, rest);
        assert(!is_schedule(msgs[msgs.len() - 1]));
    }
}

/// Once a task's loop takes `Exit`, the task is not run again, even for
/// `Schedule` commands queued behind the `Exit`; the loop has stopped.
pub proof fn lemma_no_run_after_exit(s: LoopState, msgs: Seq<Option<ToTask>>, i: int)
    requires
        0 <= i < msgs.len(),
        msgs[i] == Some(ToTask::Exit),
    ensures
        runs(s, msgs) == runs(s, msgs.take(i)),
        loop_after(s, msgs).exited,
{
    let head = msgs.take(i + 1);
    let tail = msgs.skip(i + 1);
    assert(head + tail =~= msgs);
    assert(head.drop_last() =~= msgs.take(i));
    lemma_runs_split(s, head, tail);
    lemma_exited_loop_stays_idle(loop_after(s, head), tail);
}

/// A loop runs its task at most once per `Schedule` it is sent.
pub proof fn lemma_runs_at_most_schedules(s: LoopState, msgs: Seq<Option<ToTask>>)
    ensures
        runs(s, msgs) <= schedule_count(msgs),
    decreases msgs.len(),
{
    if msgs.len() > 0 {
        lemma_runs_at_most_schedules(s, msgs.drop_last());
    }
}

} // verus!
