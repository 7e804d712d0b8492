//! The lifecycle coordinator: a state machine that arbitrates between the
//! pipeline's natural end-of-stream and an operator's cancellation, so that
//! teardown is requested at most once and a cancelled run does not return
//! before the pipeline has actually stopped.
//!
//! The coordinator makes decisions only. Its caller starts the pipeline,
//! runs the polling task, listens for the cancellation signal, and feeds
//! each observation back as a [`CoordinatorEvent`]; the coordinator answers
//! with the [`CoordinatorAction`] to perform next.

use vstd::prelude::*;

use crate::dispatcher::BusCommandType;

verus! {

/// How a run ended: the pipeline reached end-of-stream on its own, the
/// operator cancelled and the pipeline was then gracefully stopped, or the
/// run failed (the start failed, the graceful-stop request failed, or the
/// polling task aborted).
#[derive(Debug, Clone, Copy, PartialEq, Eq, Structural)]
pub enum RunOutcome {
    FinishedNaturally,
    FinishedByCancellation,
    Faulted,
}

/// The coordinator's states. `Stopped` and `Faulted` are terminal.
/// `CancelRequested` is the window between observing the cancellation signal
/// and the graceful-stop request being acknowledged; `Stopping` is the wait,
/// after a successful request, for the polling task to observe the pipeline
/// actually stop.
#[derive(Debug, Clone, Copy, PartialEq, Eq, Structural)]
pub enum CoordinatorState {
    Created,
    Running,
    CancelRequested,
    Stopping,
    Stopped,
    Faulted,
}

/// What the coordinator's caller observed: the outcome of starting the
/// pipeline, the polling task finishing (it saw the `Eos` command, so the
/// pipeline reached a stopped state) or aborting unexpectedly, the one-shot
/// external cancellation signal, and the outcome of the graceful-stop
/// request.
#[derive(Debug, Clone, Copy, PartialEq, Eq, Structural)]
pub enum CoordinatorEvent {
    StartSucceeded,
    StartFailed,
    PollerFinished,
    PollerAborted,
    CancelSignalled,
    StopRequestSucceeded,
    StopRequestFailed,
}

/// What the caller must do next: launch the polling task, request the
/// graceful stop, await the polling task to completion, report the run's
/// outcome, or nothing.
#[derive(Debug, Clone, Copy, PartialEq, Eq, Structural)]
pub enum CoordinatorAction {
    LaunchPoller,
    RequestGracefulStop,
    AwaitPoller,
    ReportOutcome(RunOutcome),
    DoNothing,
}

/// The coordinator's transition function. Pairs outside the table (an event
/// that cannot arrive in the state, or any event in a terminal state) leave
/// the state unchanged.
pub open spec fn spec_next_state(s: CoordinatorState, e: CoordinatorEvent) -> CoordinatorState {
    match (s, e) {
        (CoordinatorState::Created, CoordinatorEvent::StartSucceeded) => CoordinatorState::Running,
        (CoordinatorState::Created, CoordinatorEvent::StartFailed) => CoordinatorState::Faulted,
        (CoordinatorState::Running, CoordinatorEvent::PollerFinished) => CoordinatorState::Stopped,
        (CoordinatorState::Running, CoordinatorEvent::PollerAborted) => CoordinatorState::Faulted,
        (CoordinatorState::Running, CoordinatorEvent::CancelSignalled) => CoordinatorState::CancelRequested,
        (CoordinatorState::CancelRequested, CoordinatorEvent::StopRequestSucceeded) => CoordinatorState::Stopping,
        (CoordinatorState::CancelRequested, CoordinatorEvent::StopRequestFailed) => CoordinatorState::Faulted,
        (CoordinatorState::CancelRequested, CoordinatorEvent::PollerFinished) => CoordinatorState::Stopped,
        (CoordinatorState::CancelRequested, CoordinatorEvent::PollerAborted) => CoordinatorState::Faulted,
        (CoordinatorState::Stopping, CoordinatorEvent::PollerFinished) => CoordinatorState::Stopped,
        (CoordinatorState::Stopping, CoordinatorEvent::PollerAborted) => CoordinatorState::Faulted,
        _ => s,
    }
}

/// The action owed for each transition. A run outcome is reported exactly on
/// the transitions into a terminal state; `FinishedByCancellation` is
/// reported only on `PollerFinished`, never on the cancellation signal
/// itself.
pub open spec fn spec_action(s: CoordinatorState, e: CoordinatorEvent) -> CoordinatorAction {
    match (s, e) {
        (CoordinatorState::Created, CoordinatorEvent::StartSucceeded) => CoordinatorAction::LaunchPoller,
        (CoordinatorState::Created, CoordinatorEvent::StartFailed) => CoordinatorAction::ReportOutcome(RunOutcome::Faulted),
        (CoordinatorState::Running, CoordinatorEvent::PollerFinished) => CoordinatorAction::ReportOutcome(RunOutcome::FinishedNaturally),
        (CoordinatorState::Running, CoordinatorEvent::PollerAborted) => CoordinatorAction::ReportOutcome(RunOutcome::Faulted),
        (CoordinatorState::Running, CoordinatorEvent::CancelSignalled) => CoordinatorAction::RequestGracefulStop,
        (CoordinatorState::CancelRequested, CoordinatorEvent::StopRequestSucceeded) => CoordinatorAction::AwaitPoller,
        (CoordinatorState::CancelRequested, CoordinatorEvent::StopRequestFailed) => CoordinatorAction::ReportOutcome(RunOutcome::Faulted),
        (CoordinatorState::CancelRequested, CoordinatorEvent::PollerFinished) => CoordinatorAction::ReportOutcome(RunOutcome::FinishedByCancellation),
        (CoordinatorState::CancelRequested, CoordinatorEvent::PollerAborted) => CoordinatorAction::ReportOutcome(RunOutcome::Faulted),
        (CoordinatorState::Stopping, CoordinatorEvent::PollerFinished) => CoordinatorAction::ReportOutcome(RunOutcome::FinishedByCancellation),
        (CoordinatorState::Stopping, CoordinatorEvent::PollerAborted) => CoordinatorAction::ReportOutcome(RunOutcome::Faulted),
        _ => CoordinatorAction::DoNothing,
    }
}

/// Whether `s` is terminal: the run is over and no further event changes
/// anything.
pub open spec fn spec_is_terminal(s: CoordinatorState) -> bool {
    s is Stopped || s is Faulted
}

/// The lifecycle coordinator. Holds nothing but its current state; every
/// decision is a function of that state and the observed event.
pub struct Coordinator {
    state: CoordinatorState,
}

impl Coordinator {
    /// The coordinator's current state.
    pub closed spec fn spec_state(&self) -> CoordinatorState {
        self.state
    }

    /// A fresh coordinator, in `Created`.
    pub fn new() -> (r: Coordinator)
        ensures
            r.spec_state() == CoordinatorState::Created,
    {
        Coordinator { state: CoordinatorState::Created }
    }

    /// The current state, for the caller's reporting.
    pub fn state(&self) -> (s: CoordinatorState)
        ensures
            s == self.spec_state(),
    {
        self.state
    }

    /// One step of the coordinator: move by the transition table and return
    /// the action the caller must perform.
    pub fn step(&mut self, event: CoordinatorEvent) -> (action: CoordinatorAction)
        ensures
            final(self).spec_state() == spec_next_state(old(self).spec_state(), event),
            action == spec_action(old(self).spec_state(), event),
    {
        let s = self.state;
        match (s, event) {
            (CoordinatorState::Created, CoordinatorEvent::StartSucceeded) => {
                self.state = CoordinatorState::Running;
                CoordinatorAction::LaunchPoller
            },
            (CoordinatorState::Created, CoordinatorEvent::StartFailed) => {
                self.state = CoordinatorState::Faulted;
                CoordinatorAction::ReportOutcome(RunOutcome::Faulted)
            },
            (CoordinatorState::Running, CoordinatorEvent::PollerFinished) => {
                self.state = CoordinatorState::Stopped;
                CoordinatorAction::ReportOutcome(RunOutcome::FinishedNaturally)
            },
            (CoordinatorState::Running, CoordinatorEvent::PollerAborted) => {
                self.state = CoordinatorState::Faulted;
                CoordinatorAction::ReportOutcome(RunOutcome::Faulted)
            },
            (CoordinatorState::Running, CoordinatorEvent::CancelSignalled) => {
                self.state = CoordinatorState::CancelRequested;
                CoordinatorAction::RequestGracefulStop
            },
            (CoordinatorState::CancelRequested, CoordinatorEvent::StopRequestSucceeded) => {
                self.state = CoordinatorState::Stopping;
                CoordinatorAction::AwaitPoller
            },
            (CoordinatorState::CancelRequested, CoordinatorEvent::StopRequestFailed) => {
                self.state = CoordinatorState::Faulted;
                CoordinatorAction::ReportOutcome(RunOutcome::Faulted)
            },
            (CoordinatorState::CancelRequested, CoordinatorEvent::PollerFinished) => {
                self.state = CoordinatorState::Stopped;
                CoordinatorAction::ReportOutcome(RunOutcome::FinishedByCancellation)
            },
            (CoordinatorState::CancelRequested, CoordinatorEvent::PollerAborted) => {
                self.state = CoordinatorState::Faulted;
                CoordinatorAction::ReportOutcome(RunOutcome::Faulted)
            },
            (CoordinatorState::Stopping, CoordinatorEvent::PollerFinished) => {
                self.state = CoordinatorState::Stopped;
                CoordinatorAction::ReportOutcome(RunOutcome::FinishedByCancellation)
            },
            (CoordinatorState::Stopping, CoordinatorEvent::PollerAborted) => {
                self.state = CoordinatorState::Faulted;
                CoordinatorAction::ReportOutcome(RunOutcome::Faulted)
            },
            _ => CoordinatorAction::DoNothing,
        }
    }
}

/// The coordinator's state after the whole sequence `events`, from `s0`.
pub open spec fn spec_state_after(s0: CoordinatorState, events: Seq<CoordinatorEvent>) -> CoordinatorState
    decreases events.len(),
{
    if events.len() == 0 {
        s0
    } else {
        spec_next_state(spec_state_after(s0, events.drop_last()), events.last())
    }
}

/// The action owed at step `i` of a run over `events` from `s0`.
pub open spec fn spec_action_at(s0: CoordinatorState, events: Seq<CoordinatorEvent>, i: int) -> CoordinatorAction {
    spec_action(spec_state_after(s0, events.take(i)), events[i])
}

/// A measure under which every transition is monotone: the coordinator
/// never moves back toward `Created` or `Running`.
spec fn spec_rank(s: CoordinatorState) -> int {
    match s {
        CoordinatorState::Created => 0,
        CoordinatorState::Running => 1,
        CoordinatorState::CancelRequested => 2,
        CoordinatorState::Stopping => 3,
        CoordinatorState::Stopped => 4,
        CoordinatorState::Faulted => 4,
    }
}

/// One more event moves the run state by one transition.
proof fn lemma_state_after_take_step(s0: CoordinatorState, events: Seq<CoordinatorEvent>, i: int)
    requires
        0 <= i < events.len(),
    ensures
        spec_state_after(s0, events.take(i + 1)) == spec_next_state(
            spec_state_after(s0, events.take(i)),
            events[i],
        ),
{
    let t = events.take(i + 1);
    assert(t.drop_last() =~= events.take(i));
    assert(t.last() == events[i]);
}

/// No transition lowers the rank.
proof fn lemma_rank_monotone_step(s: CoordinatorState, e: CoordinatorEvent)
    ensures
        spec_rank(spec_next_state(s, e)) >= spec_rank(s),
{
}

/// Along any run, the rank never decreases.
proof fn lemma_rank_monotone_run(s0: CoordinatorState, events: Seq<CoordinatorEvent>, i: int, j: int)
    requires
        0 <= i <= j <= events.len(),
    ensures
        spec_rank(spec_state_after(s0, events.take(i))) <= spec_rank(
            spec_state_after(s0, events.take(j)),
        ),
    decreases j - i,
{
    if i < j {
        lemma_rank_monotone_run(s0, events, i, j - 1);
        lemma_state_after_take_step(s0, events, j - 1);
        lemma_rank_monotone_step(spec_state_after(s0, events.take(j - 1)), events[j - 1]);
    }
}

/// Law: `FinishedByCancellation` is reported only on the event that the
/// polling task finished — and the polling task finishes only after
/// observing the `Eos` command, i.e. after the pipeline actually reached a
/// stopped state. It is never reported on the cancellation signal or on the
/// stop request's acknowledgement themselves.
pub proof fn lemma_cancellation_reported_only_after_stop(s: CoordinatorState, e: CoordinatorEvent)
    ensures
        spec_action(s, e) == CoordinatorAction::ReportOutcome(RunOutcome::FinishedByCancellation)
            ==> e is PollerFinished,
{
}

/// Law (run form): wherever a run from `Created` reports
/// `FinishedByCancellation`, the polling task had finished at or before
/// that step — however the cancellation raced the natural end-of-stream.
pub proof fn lemma_run_cancellation_awaits_poller(events: Seq<CoordinatorEvent>, i: int)
    requires
        0 <= i < events.len(),
        spec_action_at(CoordinatorState::Created, events, i) == CoordinatorAction::ReportOutcome(
            RunOutcome::FinishedByCancellation,
        ),
    ensures
        exists|j: int| 0 <= j <= i && events[j] is PollerFinished,
{
    lemma_cancellation_reported_only_after_stop(
        spec_state_after(CoordinatorState::Created, events.take(i)),
        events[i],
    );
    assert(0 <= i <= i && events[i] is PollerFinished);
}

/// Law: graceful teardown is requested at most once per run from `Created`.
/// The one `RequestGracefulStop` leaves `Running` for good, and only
/// `Running` ever asks for the stop.
pub proof fn lemma_stop_requested_at_most_once(events: Seq<CoordinatorEvent>, i: int, j: int)
    requires
        0 <= i < j < events.len(),
        spec_action_at(CoordinatorState::Created, events, i) == CoordinatorAction::RequestGracefulStop,
    ensures
        spec_action_at(CoordinatorState::Created, events, j) != CoordinatorAction::RequestGracefulStop,
{
    let s0 = CoordinatorState::Created;
    let si = spec_state_after(s0, events.take(i));
    assert(si is Running && events[i] is CancelSignalled);
    lemma_state_after_take_step(s0, events, i);
    assert(spec_state_after(s0, events.take(i + 1)) == CoordinatorState::CancelRequested);
    lemma_rank_monotone_run(s0, events, i + 1, j);
    assert(spec_rank(spec_state_after(s0, events.take(j))) >= 2);
}

/// Law: terminal states absorb — once the run is over, no event changes the
/// state and no action is owed.
pub proof fn lemma_terminal_absorbs(s: CoordinatorState, e: CoordinatorEvent)
    ensures
        spec_is_terminal(s) ==> spec_next_state(s, e) == s && spec_action(s, e)
            == CoordinatorAction::DoNothing,
{
}

/// Law: a run outcome is reported at most once per run from `Created`.
/// Reporting moves the machine into a terminal state, and terminal states
/// absorb every further event without acting.
pub proof fn lemma_outcome_reported_at_most_once(events: Seq<CoordinatorEvent>, i: int, j: int)
    requires
        0 <= i < j < events.len(),
        spec_action_at(CoordinatorState::Created, events, i) matches CoordinatorAction::ReportOutcome(_),
    ensures
        spec_action_at(CoordinatorState::Created, events, j) == CoordinatorAction::DoNothing,
{
    let s0 = CoordinatorState::Created;
    let si = spec_state_after(s0, events.take(i));
    lemma_state_after_take_step(s0, events, i);
    assert(spec_is_terminal(spec_state_after(s0, events.take(i + 1))));
    lemma_rank_monotone_run(s0, events, i + 1, j);
    let sj = spec_state_after(s0, events.take(j));
    assert(spec_rank(sj) >= 4);
    assert(spec_is_terminal(sj));
}

/// The polling task's loop policy: only the `Eos` command ends the loop. An
/// `Error` command is surfaced but non-terminal — the run keeps draining,
/// since a reported error alone does not guarantee the pipeline ever reaches
/// a stopped state.
pub fn poller_should_stop(cmd: Option<BusCommandType>) -> (stop: bool)
    ensures
        stop <==> cmd == Some(BusCommandType::Eos),
{
    match cmd {
        Some(BusCommandType::Eos) => true,
        _ => false,
    }
}

/// The hosting process's exit contract: zero exactly on a run that finished,
/// naturally or by cancellation; nonzero exactly on a faulted run.
pub fn exit_code(outcome: RunOutcome) -> (code: i32)
    ensures
        code == 0 <==> !(outcome is Faulted),
        code == 1 <==> outcome is Faulted,
{
    match outcome {
        RunOutcome::Faulted => 1,
        _ => 0,
    }
}

} // verus!
