//! A task that asks the window for a redraw each time it runs.
use vstd::prelude::*;
use crate::tasks::ToTask;

verus! {

/// What a look at a task's own control channel, without waiting, found.
#[derive(Clone, Copy, Debug, PartialEq, Eq, Structural)]
pub enum ControlPoll {
    /// A command, which the look takes off the channel.
    Received(ToTask),
    /// No command was waiting.
    Empty,
    /// Every sender of the channel is gone.
    Disconnected,
}

/// What the redraw task does in one run.
#[derive(Clone, Copy, Debug, PartialEq, Eq, Structural)]
pub struct RedrawStep {
    /// Ask the window for a redraw.
    pub redraw: bool,
    /// Send `Exit` to the task's own control channel.
    pub exit_self: bool,
}

/// The redraw task, on a loop group `G`, for a window `W`.
pub struct QueueRender<W, G> {
    pub window: W,
    pub loop_group: G,
}

impl<W, G> QueueRender<W, G> {
    /// One run: look at the control channel first; once it is disconnected,
    /// stop the task instead of redrawing, else redraw.
    pub fn on_poll(&self, poll: ControlPoll) -> (step: RedrawStep)
        ensures
            step.redraw == !(poll is Disconnected),
            step.exit_self == (poll is Disconnected),
    {
        match poll {
            ControlPoll::Disconnected => RedrawStep { redraw: false, exit_self: true },
            _ => RedrawStep { redraw: true, exit_self: false },
        }
    }
}

} // verus!
