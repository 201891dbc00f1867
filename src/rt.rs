//! The capabilities that an execution environment lends to the scheduler.
//!
//! Only the parts that need no `await` stand here: the channel pair and its
//! non-blocking receive. Spawning, sleeping and sending are awaited, and are
//! added to these traits by the asynchronous side.
use vstd::prelude::*;

use crate::event::Event;

verus! {

/// The receiving handle of the control channel.
///
/// Clones share one queue: an event is taken by exactly one of them, whichever
/// asks first.
pub trait EventReceiver: Clone + Send + Sync + 'static {
    type Error: Send + 'static;

    /// Takes the next queued event without waiting. Fails both when the queue
    /// is empty and when it is closed.
    fn try_recv(&mut self) -> Result<Event, Self::Error>;
}

/// The sending handle of the control channel, owned by one scheduler.
pub trait EventSender: Send + Sync + 'static {
    /// Why an event could not be sent: the receiving side is gone (or, for a
    /// binding that does not wait, the queue is full).
    type Error: Send + 'static;
}

/// An execution environment: here, its channel pair.
pub trait Runtime {
    type Sender: EventSender;
    type Receiver: EventReceiver;

    /// A fresh channel pair over events.
    fn channel() -> (Self::Sender, Self::Receiver);
}

} // verus!
