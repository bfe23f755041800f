//! The task master: the registrar that tracks every task it started, tells
//! the runtime which loop group a new task joins, and hands out the tasks to
//! stop when it is told to exit.
//!
//! Its thread reads requests from its intake channel. For `AddTask` it asks
//! the task how it wants to be driven, starts the task's thread and tracker,
//! and passes both to `TaskMaster::add_task`, which keeps the tracker and
//! gives back the loop group to join, if any. For `Exit` it takes
//! `TaskMaster::shutdown`'s trackers, sends each one `Exit` once (a failed
//! send is logged and ignored) and ends. Task threads are not waited for.
use vstd::prelude::*;
use crate::task_loop::{LoopState, TaskStep, loop_step};
use crate::tasks::{TaskType, ToAdam, ToTask};

verus! {

/// The state of a task master, in mathematical form. `T` is a task tracker.
pub struct MasterState<T> {
    /// The tracked tasks, in the order they were added.
    pub trackers: Seq<T>,
    /// Whether the task master still accepts tasks.
    pub running: bool,
}

/// The loop group that a task of the given type joins, if any.
pub open spec fn group_of<G>(task_type: TaskType<G>) -> Option<G> {
    match task_type {
        TaskType::Rare => None,
        TaskType::Looping(group) => Some(group),
    }
}

/// A new task master: running, with no tasks.
pub open spec fn master_new<T>() -> MasterState<T> {
    MasterState { trackers: Seq::empty(), running: true }
}

/// A new task of type `task_type`, tracked by `tracker`: a running task
/// master keeps the tracker and names the group to join; a stopped one does
/// neither.
pub open spec fn master_add<T, G>(m: MasterState<T>, task_type: TaskType<G>, tracker: T) -> (
    MasterState<T>,
    Option<G>,
) {
    if m.running {
        (MasterState { trackers: m.trackers.push(tracker), ..m }, group_of(task_type))
    } else {
        (m, None)
    }
}

/// The exit of a task master: it stops, and hands out every tracker it
/// held, each to be sent `Exit` once.
pub open spec fn master_shutdown<T>(m: MasterState<T>) -> (MasterState<T>, Seq<T>) {
    (MasterState { trackers: Seq::empty(), running: false }, m.trackers)
}

/// The registrar of running tasks.
pub struct TaskMaster<T> {
    trackers: Vec<T>,
    running: bool,
}

impl<T> View for TaskMaster<T> {
    type V = MasterState<T>;

    closed spec fn view(&self) -> MasterState<T> {
        MasterState { trackers: self.trackers@, running: self.running }
    }
}

impl<T> TaskMaster<T> {
    /// A running task master with no tasks.
    pub fn new() -> (r: TaskMaster<T>)
        ensures
            r@ == master_new::<T>(),
    {
        TaskMaster { trackers: Vec::new(), running: true }
    }

    /// Tracks a new task of type `task_type`, and gives the loop group that
    /// its control sender is to join, if any.
    pub fn add_task<G>(&mut self, task_type: TaskType<G>, tracker: T) -> (join: Option<G>)
        ensures
            (final(self)@, join) == master_add(old(self)@, task_type, tracker),
    {
        if !self.running {
            return None;
        }
        self.trackers.push(tracker);
        match task_type {
            TaskType::Rare => None,
            TaskType::Looping(group) => Some(group),
        }
    }

    /// Stops the task master and hands out every tracked task, in the order
    /// they were added, to be sent `Exit`.
    pub fn shutdown(&mut self) -> (to_stop: Vec<T>)
        ensures
            (final(self)@, to_stop@) == master_shutdown(old(self)@),
    {
        let mut to_stop = Vec::new();
        to_stop.append(&mut self.trackers);
        self.running = false;
        to_stop
    }

    /// The tracked tasks, in the order they were added.
    pub fn trackers(&self) -> (r: &Vec<T>)
        ensures
            r@ == self@.trackers,
    {
        &self.trackers
    }

    /// Whether the task master still accepts tasks.
    pub fn is_running(&self) -> (r: bool)
        ensures
            r == self@.running,
    {
        self.running
    }
}

/// The requests that submit `tasks` to the task master: one `AddTask` per
/// task, in order.
pub fn add_task_requests<K>(tasks: Vec<K>) -> (requests: Vec<ToAdam<K>>)
    ensures
        requests@.len() == tasks@.len(),
        forall|i: int|
            0 <= i < tasks@.len() ==> #[trigger] requests@[i] == ToAdam::AddTask(tasks@[i]),
{
    let ghost all = tasks@;
    let mut rest = tasks;
    let mut requests: Vec<ToAdam<K>> = Vec::new();
    while rest.len() > 0
        invariant
            requests@.len() + rest@.len() == all.len(),
            rest@ == all.skip(requests@.len() as int),
            forall|i: int|
                0 <= i < requests@.len() ==> #[trigger] requests@[i] == ToAdam::AddTask(all[i]),
        decreases rest@.len(),
    {
        let task = rest.remove(0);
        requests.push(ToAdam::AddTask(task));
    }
    requests
}

/// The task master `m` after adding each task of `adds`, given as its type
/// and its tracker, in order.
pub open spec fn master_after_adds<T, G>(m: MasterState<T>, adds: Seq<(TaskType<G>, T)>) -> MasterState<T>
    decreases adds.len(),
{
    if adds.len() == 0 {
        m
    } else {
        master_add(master_after_adds(m, adds.drop_last()), adds.last().0, adds.last().1).0
    }
}

proof fn lemma_adds_are_tracked<T, G>(adds: Seq<(TaskType<G>, T)>)
    ensures
        master_after_adds(master_new::<T>(), adds).running,
        master_after_adds(master_new::<T>(), adds).trackers == adds.map_values(
            |a: (TaskType<G>, T)| a.1,
        ),
    decreases adds.len(),
{
    if adds.len() > 0 {
        lemma_adds_are_tracked(adds.drop_last());
        assert(adds.map_values(|a: (TaskType<G>, T)| a.1) =~= adds.drop_last().map_values(
            |a: (TaskType<G>, T)| a.1,
        ).push(adds.last().1));
    }
}

/// Tasks added to a new task master, then stopped one by one with `Exit`,
/// then the task master told to exit: the task master hands out every task
/// exactly once, in the order they were added, so each is sent one more
/// `Exit`; a task whose loop has already stopped takes that `Exit` without
/// running or changing; and a second exit of the task master hands out no
/// task at all.
pub proof fn lemma_exit_reaches_each_task_once<T, G>(adds: Seq<(TaskType<G>, T)>, s: LoopState)
    requires
        s.exited,
    ensures
        master_shutdown(master_after_adds(master_new::<T>(), adds)).1 == adds.map_values(
            |a: (TaskType<G>, T)| a.1,
        ),
        master_shutdown(master_shutdown(master_after_adds(master_new::<T>(), adds)).0).1 == Seq::<
            T,
        >::empty(),
        loop_step(s, Some(ToTask::Exit)) == (s, TaskStep::Stop),
{
    lemma_adds_are_tracked(adds);
}

} // verus!
