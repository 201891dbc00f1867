use vstd::prelude::*;

verus! {

/// A control message addressed to the task whose identifier is `to`.
///
/// Durations are whole milliseconds.
#[derive(Clone, Copy, Debug, PartialEq, Eq, Structural)]
pub enum Event {
    /// Terminate the task: its work is not run (if not yet started), and a
    /// recurring task is not rescheduled.
    Shutdown { to: usize },
    /// Insert one additional pause of `on` milliseconds before the task's next action.
    Freeze { to: usize, on: u64 },
}

impl Event {
    /// The identifier of the task that the event addresses.
    pub open spec fn target(self) -> usize {
        match self {
            Event::Shutdown { to } => to,
            Event::Freeze { to, .. } => to,
        }
    }

    /// The identifier of the task that the event addresses.
    pub fn to(&self) -> (r: usize)
        ensures
            r == self.target(),
    {
        match self {
            Event::Shutdown { to } => *to,
            Event::Freeze { to, .. } => *to,
        }
    }
}

} // verus!
