//! The decisions of a worker. A worker takes targets from a queue, probes each
//! and reports it, until the queue is closed and empty. Taking, probing and
//! printing are done by whoever drives the worker; what to do next is decided
//! here.

use crate::report::{line_is, report, report_text, spec_report, ScanResult};
use crate::target::{socket_text, Target};
use vstd::prelude::*;

verus! {

/// Where a worker stands.
#[derive(Clone, Debug, PartialEq, Eq)]
pub enum WorkerState {
    /// It waits for the queue to hand it a target or to say that it is closed.
    Receiving,
    /// It waits for the answer of the probe of this target.
    Probing(Target),
    /// It has stopped for good.
    Stopped,
}

/// What happened to a worker.
#[derive(Clone, Debug, PartialEq, Eq)]
pub enum WorkerEvent {
    /// The queue handed over a target.
    Received(Target),
    /// The queue is closed and empty.
    Closed,
    /// The probe found the port open, or not.
    Probed(bool),
}

/// What a worker has to do next.
#[derive(Clone, Debug, PartialEq, Eq)]
pub enum WorkerAction {
    /// Take from the queue, waiting until it has a target or is closed.
    Receive,
    /// Probe this address, a host and a port.
    Probe(String),
    /// Return.
    Stop,
}

/// What a step leads to: the new state and, after an open port, the line to
/// print.
#[derive(Clone, Debug, PartialEq, Eq)]
pub struct WorkerStep {
    pub state: WorkerState,
    pub line: Option<String>,
}

/// The state after `event` in `state`. A target leads from receiving to
/// probing it, the answer of the probe back to receiving, and the closing of
/// the queue to the stop. An event that the state does not wait for changes
/// nothing.
pub open spec fn next_state(state: WorkerState, event: WorkerEvent) -> WorkerState {
    match (state, event) {
        (WorkerState::Receiving, WorkerEvent::Received(target)) => WorkerState::Probing(target),
        (WorkerState::Receiving, WorkerEvent::Closed) => WorkerState::Stopped,
        (WorkerState::Probing(_), WorkerEvent::Probed(_)) => WorkerState::Receiving,
        _ => state,
    }
}

/// The line that `event` in `state` gives rise to: the report of the target
/// whose probe has answered, and nothing otherwise.
pub open spec fn step_line(state: WorkerState, event: WorkerEvent) -> Option<Seq<char>> {
    match (state, event) {
        (WorkerState::Probing(target), WorkerEvent::Probed(open)) => spec_report(
            target.host@,
            target.port,
            open,
        ),
        _ => None,
    }
}

/// Takes a worker from `state` over `event`.
pub fn worker_step(state: WorkerState, event: WorkerEvent) -> (step: WorkerStep)
    ensures
        step.state == next_state(state, event),
        line_is(step.line, step_line(state, event)),
{
    match state {
        WorkerState::Receiving => match event {
            WorkerEvent::Received(target) => WorkerStep {
                state: WorkerState::Probing(target),
                line: None,
            },
            WorkerEvent::Closed => WorkerStep { state: WorkerState::Stopped, line: None },
            WorkerEvent::Probed(_) => WorkerStep { state: WorkerState::Receiving, line: None },
        },
        WorkerState::Probing(target) => match event {
            WorkerEvent::Probed(open) => {
                let line = report(&ScanResult { target, open });
                WorkerStep { state: WorkerState::Receiving, line }
            },
            _ => WorkerStep { state: WorkerState::Probing(target), line: None },
        },
        WorkerState::Stopped => WorkerStep { state: WorkerState::Stopped, line: None },
    }
}

/// Whether `action` is what a worker in `state` has to do: take from the queue
/// while receiving, probe the target's address while probing, and return once
/// stopped.
pub open spec fn action_of(state: WorkerState, action: WorkerAction) -> bool {
    match state {
        WorkerState::Receiving => action is Receive,
        WorkerState::Probing(target) => action matches WorkerAction::Probe(address)
            && address@ == socket_text(target.host@, target.port),
        WorkerState::Stopped => action is Stop,
    }
}

/// What a worker in `state` has to do next.
pub fn worker_action(state: &WorkerState) -> (action: WorkerAction)
    ensures
        action_of(*state, action),
{
    match state {
        WorkerState::Receiving => WorkerAction::Receive,
        WorkerState::Probing(target) => WorkerAction::Probe(target.address()),
        WorkerState::Stopped => WorkerAction::Stop,
    }
}

/// The state that a worker reaches from `state` over `events`, one after the
/// other.
pub open spec fn state_after(state: WorkerState, events: Seq<WorkerEvent>) -> WorkerState
    decreases events.len(),
{
    if events.len() == 0 {
        state
    } else {
        state_after(next_state(state, events[0]), events.drop_first())
    }
}

/// The lines that a worker gives rise to on its way from `state` over
/// `events`, in their order.
pub open spec fn lines_after(state: WorkerState, events: Seq<WorkerEvent>) -> Seq<Seq<char>>
    decreases events.len(),
{
    if events.len() == 0 {
        Seq::empty()
    } else {
        let rest = lines_after(next_state(state, events[0]), events.drop_first());
        match step_line(state, events[0]) {
            Some(line) => seq![line] + rest,
            None => rest,
        }
    }
}

/// What a worker meets that does what it has to while the queue hands it
/// `targets`, the probes answer as `answers` say, and the queue is then closed.
pub open spec fn drain_events(targets: Seq<Target>, answers: Seq<bool>) -> Seq<WorkerEvent>
    decreases targets.len(),
{
    if targets.len() == 0 {
        seq![WorkerEvent::Closed]
    } else {
        seq![WorkerEvent::Received(targets[0]), WorkerEvent::Probed(answers[0])] + drain_events(
            targets.drop_first(),
            answers.drop_first(),
        )
    }
}

/// The reports of those of `targets` whose probe answered yes, in their order.
pub open spec fn open_reports(targets: Seq<Target>, answers: Seq<bool>) -> Seq<Seq<char>>
    decreases targets.len(),
{
    if targets.len() == 0 {
        Seq::empty()
    } else {
        let rest = open_reports(targets.drop_first(), answers.drop_first());
        if answers[0] {
            seq![report_text(targets[0].host@, targets[0].port)] + rest
        } else {
            rest
        }
    }
}

/// A worker drains what it is handed: over any finite run of targets, with
/// any answers of the probes, it comes to a stop once the queue is closed, and
/// it has then reported the open targets, each once and in their order.
pub proof fn lemma_worker_drains(targets: Seq<Target>, answers: Seq<bool>)
    requires
        targets.len() == answers.len(),
    ensures
        state_after(WorkerState::Receiving, drain_events(targets, answers)) is Stopped,
        lines_after(WorkerState::Receiving, drain_events(targets, answers)) == open_reports(
            targets,
            answers,
        ),
    decreases targets.len(),
{
    let events = drain_events(targets, answers);
    if targets.len() == 0 {
        reveal_with_fuel(state_after, 2);
        reveal_with_fuel(lines_after, 2);
    } else {
        let rest = drain_events(targets.drop_first(), answers.drop_first());
        let probing = WorkerState::Probing(targets[0]);
        lemma_worker_drains(targets.drop_first(), answers.drop_first());
        assert(events.drop_first().drop_first() =~= rest);
        assert(state_after(probing, events.drop_first()) == state_after(
            WorkerState::Receiving,
            rest,
        ));
        assert(lines_after(WorkerState::Receiving, events) == lines_after(
            probing,
            events.drop_first(),
        ));
    }
}

/// A worker stops for no other reason than the closing of the queue: while
/// none of `events` is the closing, a worker that has not stopped does not.
pub proof fn lemma_worker_waits(state: WorkerState, events: Seq<WorkerEvent>)
    requires
        !(state is Stopped),
        forall|i: int| 0 <= i < events.len() ==> !(events[i] is Closed),
    ensures
        !(state_after(state, events) is Stopped),
    decreases events.len(),
{
    if events.len() > 0 {
        lemma_worker_waits(next_state(state, events[0]), events.drop_first());
    }
}

} // verus!
