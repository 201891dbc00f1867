//! What holds of every run of the control loops.
use vstd::prelude::*;

use crate::control::{
    later, Action, EveryControl, EveryPhase, Input, OnControl, OnPhase, ViaControl, ViaPhase,
};
use crate::event::Event;

verus! {

/// An input that carries no event addressed to task `id`.
pub open spec fn quiet_for(input: Input, id: usize) -> bool {
    match input {
        Input::Received(e) => e.target() != id,
        _ => true,
    }
}

/// `n` quiet periods of a periodic task: the check finds nothing, the period
/// runs out, the work finishes.
pub open spec fn quiet_periods(n: nat) -> Seq<Input>
    decreases n,
{
    if n == 0 {
        Seq::empty()
    } else {
        seq![Input::Empty, Input::Elapsed, Input::Finished] + quiet_periods((n - 1) as nat)
    }
}

/// Once a delayed task is done, it only ever asks to stop.
pub proof fn via_done_stays_done(c: ViaControl, inputs: Seq<Input>)
    requires
        c.phase == ViaPhase::Done,
    ensures
        c.run(inputs).len() == inputs.len(),
        forall|k: int| 0 <= k < inputs.len() ==> c.run(inputs)[k] == Action::Stop,
    decreases inputs.len(),
{
    if inputs.len() > 0 {
        via_done_stays_done(c, inputs.drop_first());
    }
}

/// Once a periodic task is stopped, it only ever asks to stop.
pub proof fn every_stopped_stays_stopped(c: EveryControl, inputs: Seq<Input>)
    requires
        c.phase == EveryPhase::Stopped,
    ensures
        c.run(inputs).len() == inputs.len(),
        forall|k: int| 0 <= k < inputs.len() ==> c.run(inputs)[k] == Action::Stop,
    decreases inputs.len(),
{
    if inputs.len() > 0 {
        every_stopped_stays_stopped(c, inputs.drop_first());
    }
}

/// Once a deadline task is done, it only ever asks to stop.
pub proof fn on_done_stays_done(c: OnControl, inputs: Seq<Input>, clock: Seq<i64>)
    requires
        c.phase == OnPhase::Done,
        clock.len() == inputs.len(),
    ensures
        c.run(inputs, clock).len() == inputs.len(),
        forall|k: int| 0 <= k < inputs.len() ==> c.run(inputs, clock)[k] == Action::Stop,
    decreases inputs.len(),
{
    if inputs.len() > 0 {
        on_done_stays_done(c, inputs.drop_first(), clock.drop_first());
    }
}

/// A delayed task that takes `Shutdown` for itself while its delay runs stops
/// at once and never runs its work, whatever comes after.
pub proof fn via_shutdown_prevents_work(c: ViaControl, inputs: Seq<Input>)
    requires
        c.phase == ViaPhase::Racing,
    ensures
        ({
            let r = c.run(seq![Input::Received(Event::Shutdown { to: c.id })] + inputs);
            &&& r.len() == inputs.len() + 1
            &&& r[0] == Action::Stop
            &&& forall|k: int| 0 <= k < r.len() ==> r[k] != Action::Run
        }),
{
    let all = seq![Input::Received(Event::Shutdown { to: c.id })] + inputs;
    assert(all.drop_first() =~= inputs);
    let d = ViaControl { phase: ViaPhase::Done, ..c };
    via_done_stays_done(d, inputs);
}

/// A periodic task that takes `Shutdown` for itself at its event check stops
/// at once and never runs its work again, whatever comes after.
pub proof fn every_shutdown_ends_ticks(c: EveryControl, inputs: Seq<Input>)
    requires
        c.phase == EveryPhase::Checking,
    ensures
        ({
            let r = c.run(seq![Input::Received(Event::Shutdown { to: c.id })] + inputs);
            &&& r.len() == inputs.len() + 1
            &&& r[0] == Action::Stop
            &&& forall|k: int| 0 <= k < r.len() ==> r[k] != Action::Run
        }),
{
    let all = seq![Input::Received(Event::Shutdown { to: c.id })] + inputs;
    assert(all.drop_first() =~= inputs);
    let d = EveryControl { phase: EveryPhase::Stopped, ..c };
    every_stopped_stays_stopped(d, inputs);
}

/// A deadline task that takes `Shutdown` for itself while it watches the
/// channel stops at once and never runs its work, whatever comes after.
pub proof fn on_shutdown_prevents_work(c: OnControl, now: i64, inputs: Seq<Input>, clock: Seq<i64>)
    requires
        c.phase == OnPhase::Checking || c.phase == OnPhase::Watching,
        clock.len() == inputs.len(),
    ensures
        ({
            let r = c.run(
                seq![Input::Received(Event::Shutdown { to: c.id })] + inputs,
                seq![now] + clock,
            );
            &&& r.len() == inputs.len() + 1
            &&& r[0] == Action::Stop
            &&& forall|k: int| 0 <= k < r.len() ==> r[k] != Action::Run
        }),
{
    let all = seq![Input::Received(Event::Shutdown { to: c.id })] + inputs;
    let times = seq![now] + clock;
    assert(all.drop_first() =~= inputs);
    assert(times.drop_first() =~= clock);
    let d = OnControl { phase: OnPhase::Done, ..c };
    on_done_stays_done(d, inputs, clock);
}

/// A delayed task that takes `Freeze` for itself while its delay runs keeps
/// going: it lets the delay run out, then pauses `on` milliseconds more, and
/// only then runs its work.
pub proof fn via_freeze_extends(c: ViaControl, on: u64)
    requires
        c.phase == ViaPhase::Racing,
    ensures
        c.run(
            seq![Input::Received(Event::Freeze { to: c.id, on }), Input::Elapsed, Input::Elapsed],
        ) == seq![Action::Wait, Action::Sleep(on), Action::Run],
{
    let i = seq![Input::Received(Event::Freeze { to: c.id, on }), Input::Elapsed, Input::Elapsed];
    assert(i.drop_first() =~= seq![Input::Elapsed, Input::Elapsed]);
    assert(i.drop_first().drop_first() =~= seq![Input::Elapsed]);
    assert(i.drop_first().drop_first().drop_first() =~= Seq::<Input>::empty());
    let c1 = ViaControl { phase: ViaPhase::Frozen { on }, ..c };
    let c2 = ViaControl { phase: ViaPhase::Extending, ..c };
    let c3 = ViaControl { phase: ViaPhase::Done, ..c };
    assert(c3.run(Seq::empty()) =~= Seq::<Action>::empty());
    assert(c2.run(seq![Input::Elapsed]) =~= seq![Action::Run]);
    assert(c1.run(seq![Input::Elapsed, Input::Elapsed]) =~= seq![Action::Sleep(on), Action::Run]);
    assert(c.run(i) =~= seq![Action::Wait, Action::Sleep(on), Action::Run]);
}

/// A periodic task that takes `Freeze` for itself at its event check pauses
/// `on` milliseconds, then waits its period, runs its work, and goes on to its
/// next check.
pub proof fn every_freeze_extends(c: EveryControl, on: u64)
    requires
        c.phase == EveryPhase::Checking,
    ensures
        ({
            let i = seq![
                Input::Received(Event::Freeze { to: c.id, on }),
                Input::Elapsed,
                Input::Elapsed,
            ];
            &&& c.run(i) == seq![Action::Sleep(on), Action::Sleep(c.period), Action::Run]
            &&& c.after(i) == c
        }),
{
    let i = seq![Input::Received(Event::Freeze { to: c.id, on }), Input::Elapsed, Input::Elapsed];
    assert(i.drop_first() =~= seq![Input::Elapsed, Input::Elapsed]);
    assert(i.drop_first().drop_first() =~= seq![Input::Elapsed]);
    assert(i.drop_first().drop_first().drop_first() =~= Seq::<Input>::empty());
    let c1 = EveryControl { phase: EveryPhase::Pausing, ..c };
    let c2 = EveryControl { phase: EveryPhase::Waiting, ..c };
    assert(c.run(Seq::empty()) =~= Seq::<Action>::empty());
    assert(c2.run(seq![Input::Elapsed]) =~= seq![Action::Run]);
    assert(c1.run(seq![Input::Elapsed, Input::Elapsed]) =~= seq![
        Action::Sleep(c.period),
        Action::Run,
    ]);
    assert(c.run(i) =~= seq![Action::Sleep(on), Action::Sleep(c.period), Action::Run]);
    assert(seq![Input::Elapsed].drop_first() =~= Seq::<Input>::empty());
    assert(seq![Input::Elapsed, Input::Elapsed].drop_first() =~= seq![Input::Elapsed]);
    assert(c.after(Seq::empty()) == c);
    assert(c2.after(seq![Input::Elapsed]) == c);
    assert(c1.after(seq![Input::Elapsed, Input::Elapsed]) == c);
}

/// A deadline task that takes `Freeze` for itself while it watches the channel
/// moves its deadline `on` milliseconds later, pauses that long, and then
/// checks again: it does not end.
pub proof fn on_freeze_extends(c: OnControl, on: u64, now: i64, then: i64)
    requires
        c.phase == OnPhase::Checking || c.phase == OnPhase::Watching,
    ensures
        ({
            let (c1, a) = c.next(Input::Received(Event::Freeze { to: c.id, on }), now);
            &&& a == Action::Sleep(on)
            &&& c1.deadline == later(c.deadline, on)
            &&& c1.deadline >= c.deadline
            &&& c1.next(Input::Elapsed, then) == (
            OnControl { deadline: c1.deadline, phase: OnPhase::Checking, ..c },
            Action::Check)
        }),
{
}

/// A delayed task that sees no event for itself runs its work exactly once:
/// when its delay runs out, and never again after, whatever comes.
pub proof fn via_runs_once(c: ViaControl, quiet: Seq<Input>, rest: Seq<Input>)
    requires
        c.phase == ViaPhase::Racing,
        forall|k: int| 0 <= k < quiet.len() ==> quiet[k] != Input::Elapsed && quiet_for(#[trigger] quiet[k], c.id),
    ensures
        ({
            let r = c.run(quiet + seq![Input::Elapsed] + rest);
            &&& r.len() == quiet.len() + 1 + rest.len()
            &&& forall|k: int| 0 <= k < quiet.len() ==> r[k] == Action::Listen
            &&& r[quiet.len() as int] == Action::Run
            &&& forall|k: int| quiet.len() < k < r.len() ==> r[k] == Action::Stop
        }),
    decreases quiet.len(),
{
    let all = quiet + seq![Input::Elapsed] + rest;
    if quiet.len() == 0 {
        assert(all.drop_first() =~= rest);
        via_done_stays_done(ViaControl { phase: ViaPhase::Done, ..c }, rest);
    } else {
        let q = quiet.drop_first();
        assert(all.drop_first() =~= q + seq![Input::Elapsed] + rest);
        assert(quiet_for(quiet[0], c.id));
        assert(forall|k: int| 0 <= k < q.len() ==> q[k] == quiet[k + 1]);
        via_runs_once(c, q, rest);
    }
}

/// What a periodic task of period `p` asks for over `n` quiet periods: wait
/// the period, run the work, check again; `n` times.
pub open spec fn ticks(p: u64, n: nat) -> Seq<Action>
    decreases n,
{
    if n == 0 {
        Seq::empty()
    } else {
        seq![Action::Sleep(p), Action::Run, Action::Check] + ticks(p, (n - 1) as nat)
    }
}

/// A periodic task that sees no event, over `n` periods, asks each time to
/// wait its period, then runs its work, then checks again, and is back where
/// it started.
pub proof fn every_ticks_each_period(c: EveryControl, n: nat)
    requires
        c.phase == EveryPhase::Checking,
    ensures
        c.run(quiet_periods(n)) == ticks(c.period, n),
        c.after(quiet_periods(n)) == c,
    decreases n,
{
    if n > 0 {
        let m = (n - 1) as nat;
        let i = quiet_periods(n);
        let tail = quiet_periods(m);
        every_ticks_each_period(c, m);
        assert(i.drop_first() =~= seq![Input::Elapsed, Input::Finished] + tail);
        assert(i.drop_first().drop_first() =~= seq![Input::Finished] + tail);
        assert(i.drop_first().drop_first().drop_first() =~= tail);
        let c1 = EveryControl { phase: EveryPhase::Waiting, ..c };
        assert(c.next(Input::Empty) == (c1, Action::Sleep(c.period)));
        assert(c1.next(Input::Elapsed) == (c, Action::Run));
        assert(c.next(Input::Finished) == (c, Action::Check));
        let s2 = seq![Input::Finished] + tail;
        assert(c.run(s2) == seq![Action::Check] + c.run(tail));
        assert(c.after(s2) == c.after(tail));
        let s1 = seq![Input::Elapsed, Input::Finished] + tail;
        assert(s1.drop_first() =~= s2);
        assert(c1.run(s1) == seq![Action::Run] + c.run(s2));
        assert(c1.after(s1) == c.after(s2));
        assert(c.run(i) == seq![Action::Sleep(c.period)] + c1.run(s1));
        assert(c.run(i) =~= seq![Action::Sleep(c.period), Action::Run, Action::Check] + c.run(tail));
    }
}

/// A deadline task asks to run its work only at a check where the clock has
/// reached its deadline.
pub proof fn on_runs_only_when_due(c: OnControl, input: Input, now: i64)
    ensures
        c.next(input, now).1 == Action::Run ==> c.phase == OnPhase::Checking && now >= c.deadline,
{
}

/// A deadline task whose deadline has passed runs its work at its next check
/// that finds no event, then ends; one whose deadline is ahead waits out the
/// time left instead, still watching the channel.
pub proof fn on_runs_when_due(c: OnControl, now: i64, inputs: Seq<Input>, clock: Seq<i64>)
    requires
        c.phase == OnPhase::Checking,
        clock.len() == inputs.len(),
    ensures
        now >= c.deadline ==> {
            let r = c.run(seq![Input::Empty] + inputs, seq![now] + clock);
            &&& r[0] == Action::Run
            &&& forall|k: int| 1 <= k < r.len() ==> r[k] == Action::Stop
        },
        now < c.deadline ==> c.next(Input::Empty, now) == (
        OnControl { phase: OnPhase::Watching, ..c },
        Action::Watch((c.deadline - now) as u64)),
{
    let all = seq![Input::Empty] + inputs;
    let times = seq![now] + clock;
    assert(all.drop_first() =~= inputs);
    assert(times.drop_first() =~= clock);
    on_done_stays_done(OnControl { phase: OnPhase::Done, ..c }, inputs, clock);
}

} // verus!
