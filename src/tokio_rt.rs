//! The binding of the runtime capabilities to tokio.
use vstd::prelude::*;

use std::sync::Arc;
use tokio::sync::mpsc;
use tokio::sync::mpsc::error::{SendError, TryRecvError};
use tokio::sync::{Mutex, MutexGuard, TryLockError};

use crate::event::Event;
use crate::rt;

verus! {

#[verifier::external_type_specification]
#[verifier::external_body]
#[verifier::reject_recursive_types(T)]
pub struct ExMpscSender<T>(tokio::sync::mpsc::Sender<T>);

#[verifier::external_type_specification]
#[verifier::external_body]
#[verifier::reject_recursive_types(T)]
pub struct ExMpscReceiver<T>(tokio::sync::mpsc::Receiver<T>);

#[verifier::external_type_specification]
#[verifier::external_body]
#[verifier::reject_recursive_types(T)]
pub struct ExSendError<T>(SendError<T>);

#[verifier::external_type_specification]
#[verifier::external_body]
#[verifier::reject_recursive_types(T)]
pub struct ExMutex<T: ?Sized>(Mutex<T>);

#[verifier::external_type_specification]
#[verifier::external_body]
#[verifier::reject_recursive_types(T)]
pub struct ExMutexGuard<'a, T: ?Sized>(MutexGuard<'a, T>);

#[verifier::external_type_specification]
#[verifier::external_body]
pub struct ExTryLockError(TryLockError);

/// How many events the control channel holds before a sender has to wait.
pub const CAPACITY: usize = 512;

/// The largest capacity that a tokio channel takes (`u32::MAX >> 3`, the
/// least that its limit is on any platform).
pub const MAX_CAPACITY: usize = 536870911;

/// The number of events that the channel of `s` holds before a sender waits.
pub uninterp spec fn bound_of(s: mpsc::Sender<Event>) -> usize;

/// Relies on tokio's `mpsc::channel`, which panics on a zero capacity and on
/// one above its permit limit, and stores the capacity as the channel's bound
/// (the one that `Sender::max_capacity` returns): a bounded channel pair over
/// events.
#[verifier::external_body]
fn event_channel(capacity: usize) -> (r: (mpsc::Sender<Event>, mpsc::Receiver<Event>))
    requires
        0 < capacity <= MAX_CAPACITY,
    ensures
        bound_of(r.0) == capacity,
{
    mpsc::channel(capacity)
}

/// Relies on tokio's `Mutex::new`: the queue behind an asynchronous lock.
#[verifier::external_body]
fn lock_queue(queue: mpsc::Receiver<Event>) -> (r: Mutex<mpsc::Receiver<Event>>) {
    Mutex::new(queue)
}

/// Relies on tokio's `Mutex::try_lock`: the queue, held until the guard is
/// dropped, or an error at once where another handle holds it.
#[verifier::external_body]
fn hold_queue(queue: &Mutex<mpsc::Receiver<Event>>) -> (r: Result<
    MutexGuard<'_, mpsc::Receiver<Event>>,
    TryLockError,
>) {
    queue.try_lock()
}

/// Relies on tokio's `mpsc::Receiver::try_recv`: the next queued event, if
/// one is there now, without waiting; else whether the queue is only empty or
/// closed for good.
#[verifier::external_body]
fn take_event(queue: &mut MutexGuard<'_, mpsc::Receiver<Event>>) -> (r: Result<Event, RecvError>)
    ensures
        r is Err ==> r->Err_0 != RecvError::Busy,
{
    match queue.try_recv() {
        Ok(event) => Ok(event),
        Err(TryRecvError::Empty) => Err(RecvError::Empty),
        Err(TryRecvError::Disconnected) => Err(RecvError::Closed),
    }
}

/// Why a tokio receiving handle took no event.
#[derive(Clone, Copy, Debug, PartialEq, Eq, Structural)]
pub enum RecvError {
    /// Another handle was taking an event at that moment.
    Busy,
    /// The queue held no event.
    Empty,
    /// The queue is empty and every sender is gone.
    Closed,
}

/// The tokio runtime.
pub struct Tokio;

/// The sending handle of a tokio control channel.
pub struct TokioSender(mpsc::Sender<Event>);

/// The receiving handle of a tokio control channel. Clones share the queue.
#[derive(Clone)]
pub struct TokioReceiver(Arc<Mutex<mpsc::Receiver<Event>>>);

impl TokioSender {
    pub fn new(sender: mpsc::Sender<Event>) -> (r: Self)
        ensures
            r.handle() == sender,
    {
        TokioSender(sender)
    }

    /// The tokio handle that this one wraps.
    pub closed spec fn handle(&self) -> mpsc::Sender<Event> {
        self.0
    }

    /// The tokio handle that this one wraps.
    pub fn inner(&self) -> (r: &mpsc::Sender<Event>)
        ensures
            *r == self.handle(),
    {
        &self.0
    }
}

impl TokioReceiver {
    pub fn new(receiver: mpsc::Receiver<Event>) -> (r: Self) {
        TokioReceiver(Arc::new(lock_queue(receiver)))
    }

    /// The locked queue that this handle shares with its clones.
    pub closed spec fn shared(&self) -> Arc<Mutex<mpsc::Receiver<Event>>> {
        self.0
    }

    /// The locked queue that this handle shares with its clones, for an
    /// asynchronous receive.
    pub fn queue(&self) -> (r: &Arc<Mutex<mpsc::Receiver<Event>>>)
        ensures
            *r == self.shared(),
    {
        &self.0
    }
}

impl rt::EventSender for TokioSender {
    type Error = SendError<Event>;
}

impl rt::EventReceiver for TokioReceiver {
    type Error = RecvError;

    /// Never waits: where another handle holds the queue, it fails with `Busy`.
    fn try_recv(&mut self) -> (r: Result<Event, RecvError>) {
        match hold_queue(&self.0) {
            Ok(mut queue) => take_event(&mut queue),
            Err(_) => Err(RecvError::Busy),
        }
    }
}

impl rt::Runtime for Tokio {
    type Sender = TokioSender;
    type Receiver = TokioReceiver;

    fn channel() -> (r: (TokioSender, TokioReceiver))
        ensures
            bound_of(r.0.handle()) == CAPACITY,
    {
        let (sender, receiver) = event_channel(CAPACITY);
        (TokioSender::new(sender), TokioReceiver::new(receiver))
    }
}

} // verus!
