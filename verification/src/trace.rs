//! Whole cycles: what holds of every sequence of events that a shell may
//! report, and of everything it is asked to do in return.

use vstd::prelude::*;

use crate::cycle::{Action, Cycle, Event, EDGE_TIMEOUT_SECS, TRIGGER_PULSE_MICROS};
use crate::error::MeasureError;

verus! {

/// The state of a cycle that was in `start` and then took `events`, in
/// order.
pub open spec fn run_from(start: Cycle, events: Seq<Event>) -> Cycle
    decreases events.len(),
{
    if events.len() == 0 {
        start
    } else {
        run_from(start, events.drop_last()).next(events.last())
    }
}

/// The state of a fresh cycle after it took `events`, in order.
pub open spec fn run(events: Seq<Event>) -> Cycle {
    run_from(Cycle::Idle, events)
}

/// Everything the shell was asked to do, in order, by a fresh cycle that
/// took `events`: the action of the fresh cycle, then one action for each
/// event that was accepted.
pub open spec fn issued(events: Seq<Event>) -> Seq<Action>
    decreases events.len(),
{
    if events.len() == 0 {
        seq![Cycle::Idle.spec_action()]
    } else {
        let before = run(events.drop_last());
        let earlier = issued(events.drop_last());
        if before.accepts(events.last()) {
            earlier.push(before.next(events.last()).spec_action())
        } else {
            earlier
        }
    }
}

/// The one sequence of actions by which a fresh cycle gets to `state`.
pub open spec fn script(state: Cycle) -> Seq<Action> {
    let read = Action::ReadEcho;
    let pulse = Action::SendPulse { hold_micros: TRIGGER_PULSE_MICROS };
    let rise = Action::AwaitRise { timeout_secs: EDGE_TIMEOUT_SECS };
    let fall = Action::AwaitFall { timeout_secs: EDGE_TIMEOUT_SECS };
    match state {
        Cycle::Idle => seq![read],
        Cycle::Triggering => seq![read, pulse],
        Cycle::AwaitingRise => seq![read, pulse, rise],
        Cycle::AwaitingFall { .. } => seq![read, pulse, rise, fall],
        Cycle::Done { pulse: length } => seq![read, pulse, rise, fall, Action::Report { pulse: length }],
        Cycle::Failed { error } => match error {
            MeasureError::PreconditionViolation => seq![read, Action::Fail { error }],
            MeasureError::RiseTimeout => seq![read, pulse, rise, Action::Fail { error }],
            MeasureError::FallTimeout => seq![read, pulse, rise, fall, Action::Fail { error }],
        },
    }
}

/// Taking `first` and then `second` is taking the two in one go.
pub proof fn lemma_run_from_concat(start: Cycle, first: Seq<Event>, second: Seq<Event>)
    ensures
        run_from(start, first + second) == run_from(run_from(start, first), second),
    decreases second.len(),
{
    if second.len() == 0 {
        assert(first + second =~= first);
    } else {
        assert((first + second).drop_last() =~= first + second.drop_last());
        assert((first + second).last() == second.last());
        lemma_run_from_concat(start, first, second.drop_last());
    }
}

/// A cycle that has ended stays as it is, whatever is reported to it.
pub proof fn law_finished_cycle_never_changes(state: Cycle, events: Seq<Event>)
    requires
        state.spec_is_finished(),
    ensures
        run_from(state, events) == state,
    decreases events.len(),
{
    if events.len() > 0 {
        law_finished_cycle_never_changes(state, events.drop_last());
    }
}

/// What the shell was asked to do depends only on the state that the cycle
/// has reached: it is the script of that state.
pub proof fn law_issued_is_script_of_state(events: Seq<Event>)
    ensures
        issued(events) == script(run(events)),
    decreases events.len(),
{
    if events.len() > 0 {
        law_issued_is_script_of_state(events.drop_last());
        let before = run(events.drop_last());
        if before.accepts(events.last()) {
            assert(issued(events) =~= script(before.next(events.last())));
        }
    } else {
        assert(issued(events) =~= script(Cycle::Idle));
    }
}

/// A cycle never asks for more than five things: the shell is not kept
/// busy forever.
pub proof fn law_cycle_is_bounded(events: Seq<Event>)
    ensures
        1 <= issued(events).len() <= 5,
{
    law_issued_is_script_of_state(events);
}

/// Where the echo line reads high at the start, the cycle fails with
/// `PreconditionViolation` whatever is reported afterwards, and the shell is
/// never asked to send the trigger pulse.
pub proof fn law_echo_high_fails_without_pulse(after: Seq<Event>)
    ensures
        run(seq![Event::EchoLevel { high: true }] + after) == (Cycle::Failed {
            error: MeasureError::PreconditionViolation,
        }),
        issued(seq![Event::EchoLevel { high: true }] + after) == seq![
            Action::ReadEcho,
            Action::Fail { error: MeasureError::PreconditionViolation },
        ],
        forall|i: int|
            0 <= i < issued(seq![Event::EchoLevel { high: true }] + after).len() ==> !(
            #[trigger] issued(seq![Event::EchoLevel { high: true }] + after)[i] is SendPulse),
{
    let first = seq![Event::EchoLevel { high: true }];
    let failed = Cycle::Failed { error: MeasureError::PreconditionViolation };
    assert(run(first) == failed) by {
        assert(first.drop_last() =~= Seq::<Event>::empty());
        assert(run_from(Cycle::Idle, first.drop_last()) == Cycle::Idle);
    }
    lemma_run_from_concat(Cycle::Idle, first, after);
    law_finished_cycle_never_changes(failed, after);
    law_issued_is_script_of_state(first + after);
}

/// Where the wait for the rise runs out of time, the cycle fails with
/// `RiseTimeout` whatever is reported afterwards, and the shell is never
/// asked to compute a distance.
pub proof fn law_rise_timeout_fails_without_report(before: Seq<Event>, after: Seq<Event>)
    requires
        run(before) is AwaitingRise,
    ensures
        run(before.push(Event::TimedOut) + after) == (Cycle::Failed {
            error: MeasureError::RiseTimeout,
        }),
        forall|i: int|
            0 <= i < issued(before.push(Event::TimedOut) + after).len() ==> !(
            #[trigger] issued(before.push(Event::TimedOut) + after)[i] is Report),
{
    let upto = before.push(Event::TimedOut);
    let failed = Cycle::Failed { error: MeasureError::RiseTimeout };
    assert(run(upto) == failed) by {
        assert(upto.drop_last() =~= before);
    }
    lemma_run_from_concat(Cycle::Idle, upto, after);
    law_finished_cycle_never_changes(failed, after);
    law_issued_is_script_of_state(upto + after);
}

/// Where the echo line rose but the wait for the fall runs out of time,
/// the cycle fails with `FallTimeout` whatever is reported afterwards, and
/// the shell is never asked to compute a distance.
pub proof fn law_fall_timeout_fails_without_report(before: Seq<Event>, after: Seq<Event>)
    requires
        run(before) is AwaitingFall,
    ensures
        run(before.push(Event::TimedOut) + after) == (Cycle::Failed {
            error: MeasureError::FallTimeout,
        }),
        forall|i: int|
            0 <= i < issued(before.push(Event::TimedOut) + after).len() ==> !(
            #[trigger] issued(before.push(Event::TimedOut) + after)[i] is Report),
{
    let upto = before.push(Event::TimedOut);
    let failed = Cycle::Failed { error: MeasureError::FallTimeout };
    assert(run(upto) == failed) by {
        assert(upto.drop_last() =~= before);
    }
    lemma_run_from_concat(Cycle::Idle, upto, after);
    law_finished_cycle_never_changes(failed, after);
    law_issued_is_script_of_state(upto + after);
}

/// The shell is asked to compute a distance from a pulse length exactly
/// when the cycle is done with that length.
pub proof fn law_report_iff_done(events: Seq<Event>, pulse: u64)
    ensures
        issued(events).contains(Action::Report { pulse }) <==> run(events) == (Cycle::Done {
            pulse,
        }),
{
    law_issued_is_script_of_state(events);
    let actions = issued(events);
    let report = Action::Report { pulse };
    if run(events) == (Cycle::Done { pulse }) {
        assert(actions[4] == report);
    }
    if actions.contains(report) {
        let i = choose|i: int| 0 <= i < actions.len() && actions[i] == report;
        assert(actions[i] == report);
    }
}

/// A cycle that is done asked for exactly one wait for the rise and then
/// exactly one wait for the fall, each with the full time budget, after one
/// reading of the echo line and one trigger pulse.
pub proof fn law_done_after_one_rise_and_one_fall(events: Seq<Event>)
    requires
        run(events) is Done,
    ensures
        issued(events) == seq![
            Action::ReadEcho,
            Action::SendPulse { hold_micros: 10 },
            Action::AwaitRise { timeout_secs: 2 },
            Action::AwaitFall { timeout_secs: 2 },
            Action::Report { pulse: run(events)->pulse },
        ],
{
    law_issued_is_script_of_state(events);
}

/// However late the echo line rises, the wait for its fall gets the full
/// time budget: the two budgets are independent.
pub proof fn law_fall_budget_is_independent_of_rise(at: u64)
    ensures
        Cycle::AwaitingRise.accepts(Event::EchoRose { at }),
        Cycle::AwaitingRise.next(Event::EchoRose { at }).spec_action() == (Action::AwaitFall {
            timeout_secs: EDGE_TIMEOUT_SECS,
        }),
{
}

/// Whether `events` holds a rise at `rose_at`.
pub open spec fn saw_rise(events: Seq<Event>, rose_at: u64) -> bool {
    exists|i: int| 0 <= i < events.len() && #[trigger] events[i] == (Event::EchoRose { at: rose_at })
}

/// Whether `events` holds a rise and, later, a fall that is stamped `pulse`
/// ticks after that rise.
pub open spec fn saw_pulse(events: Seq<Event>, pulse: u64) -> bool {
    exists|i: int, j: int|
        0 <= i < j < events.len() && (#[trigger] events[i]) is EchoRose && (
        #[trigger] events[j]) is EchoFell && events[j]->EchoFell_at - events[i]->EchoRose_at
            == pulse
}

/// The pulse length of a cycle that is done is the time between two edges
/// that were reported: a rise, and a fall that came after it.
pub proof fn law_pulse_is_time_between_edges(events: Seq<Event>)
    ensures
        run(events) matches Cycle::AwaitingFall { rose_at } ==> saw_rise(events, rose_at),
        run(events) matches Cycle::Done { pulse } ==> saw_pulse(events, pulse),
    decreases events.len(),
{
    if events.len() > 0 {
        let earlier = events.drop_last();
        let last = events.len() - 1;
        law_pulse_is_time_between_edges(earlier);
        let before = run(earlier);
        let after = run(events);
        assert(after == before.next(events.last()));
        match after {
            Cycle::AwaitingFall { rose_at } => {
                if before.accepts(events.last()) {
                    assert(events[last] == (Event::EchoRose { at: rose_at }));
                } else {
                    let i = choose|i: int|
                        0 <= i < earlier.len() && #[trigger] earlier[i] == (Event::EchoRose {
                            at: rose_at,
                        });
                    assert(events[i] == earlier[i]);
                }
            },
            Cycle::Done { pulse } => {
                if before.accepts(events.last()) {
                    let rose_at = before->rose_at;
                    let i = choose|i: int|
                        0 <= i < earlier.len() && #[trigger] earlier[i] == (Event::EchoRose {
                            at: rose_at,
                        });
                    assert(events[i] == earlier[i]);
                    assert(events[i] is EchoRose && events[last] is EchoFell);
                } else {
                    let (i, j) = choose|i: int, j: int|
                        0 <= i < j < earlier.len() && (#[trigger] earlier[i]) is EchoRose && (
                        #[trigger] earlier[j]) is EchoFell && earlier[j]->EchoFell_at
                            - earlier[i]->EchoRose_at == pulse;
                    assert(events[i] == earlier[i] && events[j] == earlier[j]);
                    assert(events[i] is EchoRose && events[j] is EchoFell);
                }
            },
            _ => {},
        }
    }
}

} // verus!
