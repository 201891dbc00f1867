use nebulas::{Action, Event, EveryControl, EveryPhase, Input, OnControl, OnPhase, ViaControl, ViaPhase};

fn feed_via(control: &mut ViaControl, inputs: &[Input]) -> Vec<Action> {
    inputs.iter().map(|i| control.step(*i)).collect()
}

fn feed_every(control: &mut EveryControl, inputs: &[Input]) -> Vec<Action> {
    inputs.iter().map(|i| control.step(*i)).collect()
}

#[test]
fn event_target() {
    assert_eq!(Event::Shutdown { to: 3 }.to(), 3);
    assert_eq!(Event::Freeze { to: 9, on: 20 }.to(), 9);
}

#[test]
fn via_starts_its_delay() {
    let (control, action) = ViaControl::new(1, 50);
    assert_eq!(action, Action::Watch(50));
    assert_eq!(control.phase, ViaPhase::Racing);
    assert!(!control.is_done());
}

#[test]
fn via_shutdown_after_ten_ms_prevents_work() {
    // delay of 50 ms; the shutdown arrives while the delay still runs
    let (mut control, _) = ViaControl::new(1, 50);
    let actions = feed_via(
        &mut control,
        &[Input::Received(Event::Shutdown { to: 1 }), Input::Elapsed, Input::Finished],
    );
    assert_eq!(actions, vec![Action::Stop, Action::Stop, Action::Stop]);
    assert!(!actions.contains(&Action::Run));
    assert!(control.is_done());
}

#[test]
fn via_late_shutdown_runs_work_once() {
    // the delay of 50 ms runs out before the shutdown is sent
    let (mut control, _) = ViaControl::new(1, 50);
    let actions = feed_via(
        &mut control,
        &[Input::Elapsed, Input::Finished, Input::Received(Event::Shutdown { to: 1 }), Input::Elapsed],
    );
    assert_eq!(actions, vec![Action::Run, Action::Stop, Action::Stop, Action::Stop]);
    assert_eq!(actions.iter().filter(|a| **a == Action::Run).count(), 1);
}

#[test]
fn via_ignores_events_for_other_tasks() {
    let (mut control, _) = ViaControl::new(1, 50);
    let actions = feed_via(
        &mut control,
        &[
            Input::Received(Event::Shutdown { to: 2 }),
            Input::Received(Event::Freeze { to: 7, on: 10 }),
            Input::Elapsed,
        ],
    );
    assert_eq!(actions, vec![Action::Listen, Action::Listen, Action::Run]);
}

#[test]
fn via_freeze_adds_a_pause() {
    let (mut control, _) = ViaControl::new(4, 50);
    let actions = feed_via(
        &mut control,
        &[Input::Received(Event::Freeze { to: 4, on: 30 }), Input::Elapsed, Input::Elapsed, Input::Finished],
    );
    assert_eq!(actions, vec![Action::Wait, Action::Sleep(30), Action::Run, Action::Stop]);
}

#[test]
fn every_ticks_until_shutdown() {
    let (mut control, action) = EveryControl::new(5, 100);
    assert_eq!(action, Action::Check);
    let quiet = [Input::Empty, Input::Elapsed, Input::Finished];
    for _ in 0..3 {
        assert_eq!(feed_every(&mut control, &quiet), vec![Action::Sleep(100), Action::Run, Action::Check]);
    }
    let actions = feed_every(
        &mut control,
        &[Input::Received(Event::Shutdown { to: 5 }), Input::Empty, Input::Elapsed, Input::Elapsed],
    );
    assert_eq!(actions, vec![Action::Stop; 4]);
    assert_eq!(control.phase, EveryPhase::Stopped);
    assert!(control.is_done());
}

#[test]
fn every_freeze_pauses_then_ticks() {
    let (mut control, _) = EveryControl::new(5, 100);
    let actions = feed_every(
        &mut control,
        &[Input::Received(Event::Freeze { to: 5, on: 40 }), Input::Elapsed, Input::Elapsed, Input::Finished],
    );
    assert_eq!(actions, vec![Action::Sleep(40), Action::Sleep(100), Action::Run, Action::Check]);
    assert_eq!(control.phase, EveryPhase::Checking);
}

#[test]
fn every_event_for_another_task_is_dropped() {
    let (mut control, _) = EveryControl::new(5, 100);
    assert_eq!(control.step(Input::Received(Event::Shutdown { to: 6 })), Action::Sleep(100));
    assert_eq!(control.phase, EveryPhase::Waiting);
}

#[test]
fn on_past_deadline_runs_at_first_check() {
    let (mut control, action) = OnControl::new(2, 1_000);
    assert_eq!(action, Action::Check);
    assert_eq!(control.step(Input::Empty, 1_500), Action::Run);
    assert_eq!(control.step(Input::Finished, 1_600), Action::Stop);
    assert_eq!(control.phase, OnPhase::Done);
}

#[test]
fn on_deadline_reached_exactly_runs() {
    let (mut control, _) = OnControl::new(2, 1_000);
    assert_eq!(control.step(Input::Empty, 1_000), Action::Run);
}

#[test]
fn on_future_deadline_waits_for_time_left() {
    let (mut control, _) = OnControl::new(2, 1_000);
    assert_eq!(control.step(Input::Empty, 400), Action::Watch(600));
    assert_eq!(control.phase, OnPhase::Watching);
    assert_eq!(control.step(Input::Elapsed, 1_000), Action::Check);
    assert_eq!(control.step(Input::Empty, 1_000), Action::Run);
}

#[test]
fn on_freeze_moves_deadline() {
    let (mut control, _) = OnControl::new(2, 1_000);
    assert_eq!(control.step(Input::Received(Event::Freeze { to: 2, on: 250 }), 900), Action::Sleep(250));
    assert_eq!(control.deadline, 1_250);
    assert_eq!(control.phase, OnPhase::Pausing);
    assert_eq!(control.step(Input::Elapsed, 1_150), Action::Check);
    assert_eq!(control.step(Input::Empty, 1_150), Action::Watch(100));
}

#[test]
fn on_freeze_saturates_at_latest_instant() {
    let (mut control, _) = OnControl::new(2, i64::MAX - 5);
    control.step(Input::Received(Event::Freeze { to: 2, on: u64::MAX }), 0);
    assert_eq!(control.deadline, i64::MAX);
}

#[test]
fn on_largest_wait_fits() {
    let (mut control, _) = OnControl::new(2, i64::MAX);
    assert_eq!(control.step(Input::Empty, i64::MIN), Action::Watch(u64::MAX));
}

#[test]
fn on_shutdown_prevents_work() {
    let (mut control, _) = OnControl::new(2, 1_000);
    assert_eq!(control.step(Input::Empty, 0), Action::Watch(1_000));
    assert_eq!(control.step(Input::Received(Event::Shutdown { to: 2 }), 10), Action::Stop);
    assert_eq!(control.step(Input::Empty, 5_000), Action::Stop);
    assert!(control.is_done());
}
