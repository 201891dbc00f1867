//! The decisions of the three control loops, as state machines.
//!
//! A driver (the runtime side) performs each [`Action`] that a machine asks for
//! and feeds back what it observed as an [`Input`]. The machines hold no timer,
//! channel or clock of their own, so every decision they make is stated here
//! exactly, over plain values.
use vstd::prelude::*;

use crate::event::Event;

verus! {

/// What the driver observed while performing the last action.
#[derive(Clone, Copy, Debug, PartialEq, Eq, Structural)]
pub enum Input {
    /// One event was taken from the shared channel.
    Received(Event),
    /// The channel held nothing that could be taken (empty or closed).
    Empty,
    /// The timer that the driver was waiting on has run out.
    Elapsed,
    /// The unit of work has completed.
    Finished,
}

/// What the driver is asked to do next.
#[derive(Clone, Copy, Debug, PartialEq, Eq, Structural)]
pub enum Action {
    /// Take at most one pending event from the channel, without waiting;
    /// report `Received` or `Empty`.
    Check,
    /// Wait for an event or for the end of the current timer, whichever comes
    /// first; report `Received` or `Elapsed`.
    Listen,
    /// Start a new timer of this many milliseconds, then `Listen`.
    Watch(u64),
    /// Wait for the end of the current timer, taking no event; report `Elapsed`.
    Wait,
    /// Start a new timer of this many milliseconds and wait for its end, taking
    /// no event; report `Elapsed`.
    Sleep(u64),
    /// Run the unit of work and wait for it; report `Finished`.
    Run,
    /// End the control loop.
    Stop,
}

/// Where a delayed one-shot task stands.
#[derive(Clone, Copy, Debug, PartialEq, Eq, Structural)]
pub enum ViaPhase {
    /// The delay is running and the channel is watched.
    Racing,
    /// A freeze of `on` milliseconds was seen: the delay runs out without
    /// watching the channel, then the extra pause follows.
    Frozen { on: u64 },
    /// The extra pause of a freeze is running.
    Extending,
    /// The work was started, or the task was shut down.
    Done,
}

/// The control loop of a task that runs its work once, after a delay.
#[derive(Clone, Copy, Debug, PartialEq, Eq, Structural)]
pub struct ViaControl {
    pub id: usize,
    pub delay: u64,
    pub phase: ViaPhase,
}

impl ViaControl {
    /// The machine's answer to `input`: its next state and the action it asks for.
    pub open spec fn next(self, input: Input) -> (ViaControl, Action) {
        match self.phase {
            ViaPhase::Racing => match input {
                Input::Received(Event::Shutdown { to }) if to == self.id => (
                    ViaControl { phase: ViaPhase::Done, ..self },
                    Action::Stop,
                ),
                Input::Received(Event::Freeze { to, on }) if to == self.id => (
                    ViaControl { phase: ViaPhase::Frozen { on }, ..self },
                    Action::Wait,
                ),
                Input::Elapsed => (ViaControl { phase: ViaPhase::Done, ..self }, Action::Run),
                _ => (self, Action::Listen),
            },
            ViaPhase::Frozen { on } => match input {
                Input::Elapsed => (
                    ViaControl { phase: ViaPhase::Extending, ..self },
                    Action::Sleep(on),
                ),
                _ => (self, Action::Wait),
            },
            ViaPhase::Extending => match input {
                Input::Elapsed => (ViaControl { phase: ViaPhase::Done, ..self }, Action::Run),
                _ => (self, Action::Wait),
            },
            ViaPhase::Done => (self, Action::Stop),
        }
    }

    /// The actions that the machine asks for, one per input, when fed `inputs` in turn.
    pub open spec fn run(self, inputs: Seq<Input>) -> Seq<Action>
        decreases inputs.len(),
    {
        if inputs.len() == 0 {
            Seq::empty()
        } else {
            let (c, a) = self.next(inputs[0]);
            seq![a] + c.run(inputs.drop_first())
        }
    }

    /// The state that the machine reaches when fed `inputs` in turn.
    pub open spec fn after(self, inputs: Seq<Input>) -> ViaControl
        decreases inputs.len(),
    {
        if inputs.len() == 0 {
            self
        } else {
            self.next(inputs[0]).0.after(inputs.drop_first())
        }
    }

    /// A task `id` that runs its work once `delay` milliseconds have passed,
    /// with the first action of its control loop: start the delay and watch
    /// the channel.
    pub fn new(id: usize, delay: u64) -> (r: (ViaControl, Action))
        ensures
            r.0 == (ViaControl { id, delay, phase: ViaPhase::Racing }),
            r.1 == Action::Watch(delay),
    {
        (ViaControl { id, delay, phase: ViaPhase::Racing }, Action::Watch(delay))
    }

    /// Feeds `input` to the machine and returns the action it asks for.
    pub fn step(&mut self, input: Input) -> (r: Action)
        ensures
            (*final(self), r) == old(self).next(input),
    {
        match self.phase {
            ViaPhase::Racing => match input {
                Input::Received(Event::Shutdown { to }) if to == self.id => {
                    self.phase = ViaPhase::Done;
                    Action::Stop
                },
                Input::Received(Event::Freeze { to, on }) if to == self.id => {
                    self.phase = ViaPhase::Frozen { on };
                    Action::Wait
                },
                Input::Elapsed => {
                    self.phase = ViaPhase::Done;
                    Action::Run
                },
                _ => Action::Listen,
            },
            ViaPhase::Frozen { on } => match input {
                Input::Elapsed => {
                    self.phase = ViaPhase::Extending;
                    Action::Sleep(on)
                },
                _ => Action::Wait,
            },
            ViaPhase::Extending => match input {
                Input::Elapsed => {
                    self.phase = ViaPhase::Done;
                    Action::Run
                },
                _ => Action::Wait,
            },
            ViaPhase::Done => Action::Stop,
        }
    }

    /// Whether the control loop has ended.
    pub fn is_done(&self) -> (r: bool)
        ensures
            r == (self.phase == ViaPhase::Done),
    {
        match self.phase {
            ViaPhase::Done => true,
            _ => false,
        }
    }
}

/// Where a periodic task stands.
#[derive(Clone, Copy, Debug, PartialEq, Eq, Structural)]
pub enum EveryPhase {
    /// About to take one pending event from the channel.
    Checking,
    /// The extra pause of a freeze is running; the period follows.
    Pausing,
    /// The period is running; the work follows.
    Waiting,
    /// The task was shut down.
    Stopped,
}

/// The control loop of a task that runs its work once per period, until it is
/// shut down.
#[derive(Clone, Copy, Debug, PartialEq, Eq, Structural)]
pub struct EveryControl {
    pub id: usize,
    pub period: u64,
    pub phase: EveryPhase,
}

impl EveryControl {
    /// The machine's answer to `input`: its next state and the action it asks for.
    pub open spec fn next(self, input: Input) -> (EveryControl, Action) {
        match self.phase {
            EveryPhase::Checking => match input {
                Input::Received(Event::Shutdown { to }) if to == self.id => (
                    EveryControl { phase: EveryPhase::Stopped, ..self },
                    Action::Stop,
                ),
                Input::Received(Event::Freeze { to, on }) if to == self.id => (
                    EveryControl { phase: EveryPhase::Pausing, ..self },
                    Action::Sleep(on),
                ),
                Input::Received(_) | Input::Empty => (
                    EveryControl { phase: EveryPhase::Waiting, ..self },
                    Action::Sleep(self.period),
                ),
                _ => (self, Action::Check),
            },
            EveryPhase::Pausing => match input {
                Input::Elapsed => (
                    EveryControl { phase: EveryPhase::Waiting, ..self },
                    Action::Sleep(self.period),
                ),
                _ => (self, Action::Wait),
            },
            EveryPhase::Waiting => match input {
                Input::Elapsed => (
                    EveryControl { phase: EveryPhase::Checking, ..self },
                    Action::Run,
                ),
                _ => (self, Action::Wait),
            },
            EveryPhase::Stopped => (self, Action::Stop),
        }
    }

    /// The actions that the machine asks for, one per input, when fed `inputs` in turn.
    pub open spec fn run(self, inputs: Seq<Input>) -> Seq<Action>
        decreases inputs.len(),
    {
        if inputs.len() == 0 {
            Seq::empty()
        } else {
            let (c, a) = self.next(inputs[0]);
            seq![a] + c.run(inputs.drop_first())
        }
    }

    /// The state that the machine reaches when fed `inputs` in turn.
    pub open spec fn after(self, inputs: Seq<Input>) -> EveryControl
        decreases inputs.len(),
    {
        if inputs.len() == 0 {
            self
        } else {
            self.next(inputs[0]).0.after(inputs.drop_first())
        }
    }

    /// A task `id` that runs its work every `period` milliseconds, with the
    /// first action of its control loop: look for an event.
    pub fn new(id: usize, period: u64) -> (r: (EveryControl, Action))
        ensures
            r.0 == (EveryControl { id, period, phase: EveryPhase::Checking }),
            r.1 == Action::Check,
    {
        (EveryControl { id, period, phase: EveryPhase::Checking }, Action::Check)
    }

    /// Feeds `input` to the machine and returns the action it asks for.
    pub fn step(&mut self, input: Input) -> (r: Action)
        ensures
            (*final(self), r) == old(self).next(input),
    {
        match self.phase {
            EveryPhase::Checking => match input {
                Input::Received(Event::Shutdown { to }) if to == self.id => {
                    self.phase = EveryPhase::Stopped;
                    Action::Stop
                },
                Input::Received(Event::Freeze { to, on }) if to == self.id => {
                    self.phase = EveryPhase::Pausing;
                    Action::Sleep(on)
                },
                Input::Received(_) | Input::Empty => {
                    self.phase = EveryPhase::Waiting;
                    Action::Sleep(self.period)
                },
                _ => Action::Check,
            },
            EveryPhase::Pausing => match input {
                Input::Elapsed => {
                    self.phase = EveryPhase::Waiting;
                    Action::Sleep(self.period)
                },
                _ => Action::Wait,
            },
            EveryPhase::Waiting => match input {
                Input::Elapsed => {
                    self.phase = EveryPhase::Checking;
                    Action::Run
                },
                _ => Action::Wait,
            },
            EveryPhase::Stopped => Action::Stop,
        }
    }

    /// Whether the control loop has ended.
    pub fn is_done(&self) -> (r: bool)
        ensures
            r == (self.phase == EveryPhase::Stopped),
    {
        match self.phase {
            EveryPhase::Stopped => true,
            _ => false,
        }
    }
}

/// Where a task with an absolute deadline stands.
#[derive(Clone, Copy, Debug, PartialEq, Eq, Structural)]
pub enum OnPhase {
    /// About to take one pending event from the channel, then read the clock.
    Checking,
    /// The deadline is ahead: waiting for an event or for the time left.
    Watching,
    /// The extra pause of a freeze is running.
    Pausing,
    /// The work was started, or the task was shut down.
    Done,
}

/// The control loop of a task that runs its work once, when the clock reaches
/// its deadline. Instants are milliseconds since the Unix epoch, in UTC.
#[derive(Clone, Copy, Debug, PartialEq, Eq, Structural)]
pub struct OnControl {
    pub id: usize,
    pub deadline: i64,
    pub phase: OnPhase,
}

/// `t` moved later by `d` milliseconds, held at the latest instant that an
/// `i64` can hold.
pub open spec fn later(t: i64, d: u64) -> i64 {
    if t + d > i64::MAX {
        i64::MAX
    } else {
        (t + d) as i64
    }
}

impl OnControl {
    /// The answer to an event, in the phases where the channel is watched.
    pub open spec fn react(self, e: Event) -> (OnControl, Action) {
        match e {
            Event::Shutdown { to } if to == self.id => (
                OnControl { phase: OnPhase::Done, ..self },
                Action::Stop,
            ),
            Event::Freeze { to, on } if to == self.id => (
                OnControl { deadline: later(self.deadline, on), phase: OnPhase::Pausing, ..self },
                Action::Sleep(on),
            ),
            _ => (OnControl { phase: OnPhase::Checking, ..self }, Action::Check),
        }
    }

    /// The machine's answer to `input`, the clock reading `now`: its next state
    /// and the action it asks for.
    pub open spec fn next(self, input: Input, now: i64) -> (OnControl, Action) {
        match self.phase {
            OnPhase::Checking => match input {
                Input::Received(e) => self.react(e),
                Input::Empty => if now >= self.deadline {
                    (OnControl { phase: OnPhase::Done, ..self }, Action::Run)
                } else {
                    (
                        OnControl { phase: OnPhase::Watching, ..self },
                        Action::Watch((self.deadline - now) as u64),
                    )
                },
                _ => (self, Action::Check),
            },
            OnPhase::Watching => match input {
                Input::Received(e) => self.react(e),
                Input::Elapsed => (OnControl { phase: OnPhase::Checking, ..self }, Action::Check),
                _ => (self, Action::Listen),
            },
            OnPhase::Pausing => match input {
                Input::Elapsed => (OnControl { phase: OnPhase::Checking, ..self }, Action::Check),
                _ => (self, Action::Wait),
            },
            OnPhase::Done => (self, Action::Stop),
        }
    }

    /// The actions that the machine asks for, one per input, when fed `inputs`
    /// in turn, the clock reading `clock[i]` with the `i`-th.
    pub open spec fn run(self, inputs: Seq<Input>, clock: Seq<i64>) -> Seq<Action>
        recommends
            clock.len() == inputs.len(),
        decreases inputs.len(),
    {
        if inputs.len() == 0 {
            Seq::empty()
        } else {
            let (c, a) = self.next(inputs[0], clock[0]);
            seq![a] + c.run(inputs.drop_first(), clock.drop_first())
        }
    }

    /// A task `id` that runs its work once the clock reaches `deadline`, with
    /// the first action of its control loop: look for an event.
    pub fn new(id: usize, deadline: i64) -> (r: (OnControl, Action))
        ensures
            r.0 == (OnControl { id, deadline, phase: OnPhase::Checking }),
            r.1 == Action::Check,
    {
        (OnControl { id, deadline, phase: OnPhase::Checking }, Action::Check)
    }

    fn react_to(&mut self, e: Event) -> (r: Action)
        ensures
            (*final(self), r) == old(self).react(e),
    {
        match e {
            Event::Shutdown { to } if to == self.id => {
                self.phase = OnPhase::Done;
                Action::Stop
            },
            Event::Freeze { to, on } if to == self.id => {
                self.deadline = if self.deadline as i128 + on as i128 > i64::MAX as i128 {
                    i64::MAX
                } else {
                    (self.deadline as i128 + on as i128) as i64
                };
                self.phase = OnPhase::Pausing;
                Action::Sleep(on)
            },
            _ => {
                self.phase = OnPhase::Checking;
                Action::Check
            },
        }
    }

    /// Feeds `input` to the machine, the clock reading `now`, and returns the
    /// action it asks for.
    pub fn step(&mut self, input: Input, now: i64) -> (r: Action)
        ensures
            (*final(self), r) == old(self).next(input, now),
    {
        match self.phase {
            OnPhase::Checking => match input {
                Input::Received(e) => self.react_to(e),
                Input::Empty => if now >= self.deadline {
                    self.phase = OnPhase::Done;
                    Action::Run
                } else {
                    self.phase = OnPhase::Watching;
                    Action::Watch((self.deadline as i128 - now as i128) as u64)
                },
                _ => Action::Check,
            },
            OnPhase::Watching => match input {
                Input::Received(e) => self.react_to(e),
                Input::Elapsed => {
                    self.phase = OnPhase::Checking;
                    Action::Check
                },
                _ => Action::Listen,
            },
            OnPhase::Pausing => match input {
                Input::Elapsed => {
                    self.phase = OnPhase::Checking;
                    Action::Check
                },
                _ => Action::Wait,
            },
            OnPhase::Done => Action::Stop,
        }
    }

    /// Whether the control loop has ended.
    pub fn is_done(&self) -> (r: bool)
        ensures
            r == (self.phase == OnPhase::Done),
    {
        match self.phase {
            OnPhase::Done => true,
            _ => false,
        }
    }
}

} // verus!
