use nebulas::tokio_rt::CAPACITY;
use nebulas::{Event, EventReceiver, RecvError, Runtime, Scheduler, Tokio};

#[test]
fn receiver_clones_compete_for_events() {
    let scheduler: Scheduler<Tokio> = Scheduler::new();
    let mut first = scheduler.receiver().clone();
    let mut second = scheduler.receiver().clone();
    scheduler.sender().inner().try_send(Event::Shutdown { to: 1 }).unwrap();
    assert_eq!(first.try_recv(), Ok(Event::Shutdown { to: 1 }));
    assert_eq!(second.try_recv(), Err(RecvError::Empty));
}

#[test]
fn events_come_out_in_order() {
    let (sender, mut receiver) = Tokio::channel();
    sender.inner().try_send(Event::Freeze { to: 2, on: 5 }).unwrap();
    sender.inner().try_send(Event::Shutdown { to: 3 }).unwrap();
    assert_eq!(receiver.try_recv(), Ok(Event::Freeze { to: 2, on: 5 }));
    assert_eq!(receiver.try_recv(), Ok(Event::Shutdown { to: 3 }));
    assert_eq!(receiver.try_recv(), Err(RecvError::Empty));
}

#[test]
fn channel_holds_its_capacity() {
    let (sender, _receiver) = Tokio::channel();
    for i in 0..CAPACITY {
        sender.inner().try_send(Event::Shutdown { to: i }).unwrap();
    }
    assert!(sender.inner().try_send(Event::Shutdown { to: 0 }).is_err());
}

#[test]
fn send_fails_once_every_receiver_is_gone() {
    let (sender, receiver) = Tokio::channel();
    let clone = receiver.clone();
    drop(receiver);
    drop(clone);
    let rt = tokio::runtime::Builder::new_current_thread().build().unwrap();
    let sent = rt.block_on(sender.inner().send(Event::Shutdown { to: 1 }));
    assert!(sent.is_err());
}

#[test]
fn receive_reports_closed_channel() {
    let (sender, mut receiver) = Tokio::channel();
    drop(sender);
    assert_eq!(receiver.try_recv(), Err(RecvError::Closed));
}

#[test]
fn channel_bound_is_the_capacity() {
    let (sender, _receiver) = Tokio::channel();
    assert_eq!(sender.inner().max_capacity(), CAPACITY);
    assert_eq!(CAPACITY, 512);
}

#[test]
fn receive_never_waits_for_a_held_queue() {
    let (sender, mut receiver) = Tokio::channel();
    sender.inner().try_send(Event::Shutdown { to: 4 }).unwrap();
    let other = receiver.clone();
    let held = other.queue().try_lock().unwrap();
    assert_eq!(receiver.try_recv(), Err(RecvError::Busy));
    drop(held);
    assert_eq!(receiver.try_recv(), Ok(Event::Shutdown { to: 4 }));
}

#[test]
fn default_scheduler_has_a_working_pair() {
    let scheduler: Scheduler<Tokio> = Scheduler::default();
    let mut receiver = scheduler.receiver().clone();
    scheduler.sender().inner().try_send(Event::Freeze { to: 1, on: 7 }).unwrap();
    assert_eq!(receiver.try_recv(), Ok(Event::Freeze { to: 1, on: 7 }));
}
