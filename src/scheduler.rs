use vstd::prelude::*;

use crate::rt::Runtime;

verus! {

/// Owns one control channel, shared by every task that it schedules.
///
/// It keeps no registry of tasks: each control loop holds a clone of the
/// receiving handle, and that is all that ties it to the scheduler.
pub struct Scheduler<R: Runtime> {
    sender: R::Sender,
    receiver: R::Receiver,
}

impl<R: Runtime> Scheduler<R> {
    /// A scheduler over a fresh channel pair of the runtime.
    pub fn new() -> (r: Self)
        ensures
            call_ensures(R::channel, (), (r.sending(), r.receiving())),
    {
        let (sender, receiver) = R::channel();
        Scheduler { sender, receiver }
    }

    /// The sending handle that the scheduler owns.
    pub closed spec fn sending(&self) -> R::Sender {
        self.sender
    }

    /// The receiving handle that the scheduler holds.
    pub closed spec fn receiving(&self) -> R::Receiver {
        self.receiver
    }

    /// The sending handle, through which events reach the tasks.
    pub fn sender(&self) -> (r: &R::Sender)
        ensures
            *r == self.sending(),
    {
        &self.sender
    }

    /// The receiving handle, of which each control loop takes a clone.
    pub fn receiver(&self) -> (r: &R::Receiver)
        ensures
            *r == self.receiving(),
    {
        &self.receiver
    }
}

impl<R: Runtime> Default for Scheduler<R> {
    /// A scheduler over a fresh channel pair of the runtime.
    fn default() -> (r: Self)
        ensures
            call_ensures(R::channel, (), (r.sending(), r.receiving())),
    {
        Self::new()
    }
}

} // verus!
