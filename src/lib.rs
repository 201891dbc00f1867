//! Runtime-agnostic scheduling of asynchronous work: run a unit of work after a
//! delay, on a fixed period, or once an absolute deadline is reached, and steer
//! each scheduled task through `Shutdown` and `Freeze` events.
//!
//! Every control loop is a state machine (see [`control`]): it is fed what the
//! runtime observed (an event, an empty channel, an elapsed timer, finished work)
//! and answers with the next thing to do.

pub mod control;
pub mod event;
pub mod laws;
pub mod rt;
pub mod scheduler;
pub mod tokio_rt;

pub use control::{Action, EveryControl, EveryPhase, Input, OnControl, OnPhase, ViaControl, ViaPhase};
pub use event::Event;
pub use rt::{EventReceiver, EventSender, Runtime};
pub use scheduler::Scheduler;
pub use tokio_rt::{RecvError, Tokio, TokioReceiver, TokioSender};
