//! The messages that tasks, loop groups and the task master exchange, and how
//! a task asks to be driven.
//!
//! Instants are counted in nanoseconds on one monotonic clock, from an origin
//! that the runtime picks when it starts.
use vstd::prelude::*;

verus! {

/// A command on a task's control channel.
#[derive(Clone, Copy, Debug, PartialEq, Eq, Structural)]
pub enum ToTask {
    /// Stop the task's thread; commands queued behind this one are dropped.
    Exit,
    /// Run the task once, at or after the given instant.
    Schedule(u64),
}

/// A request to the task master.
pub enum ToAdam<K> {
    /// Stop the task master and send `Exit` to every task it tracks.
    Exit,
    /// Start and track a new task.
    AddTask(K),
}

/// How a task asks to be driven. `G` is the handle of a loop group.
#[derive(Debug)]
pub enum TaskType<G> {
    /// Run only when something sends the task a `Schedule`.
    Rare,
    /// Run on every tick of the given loop group.
    Looping(G),
}

/// Whether a control command asks for a run.
pub open spec fn is_schedule(msg: Option<ToTask>) -> bool {
    msg matches Some(ToTask::Schedule(_))
}

/// The number of commands in `msgs` that ask for a run.
pub open spec fn schedule_count(msgs: Seq<Option<ToTask>>) -> nat
    decreases msgs.len(),
{
    if msgs.len() == 0 {
        0
    } else {
        schedule_count(msgs.drop_last()) + if is_schedule(msgs.last()) {
            1nat
        } else {
            0nat
        }
    }
}

} // verus!
