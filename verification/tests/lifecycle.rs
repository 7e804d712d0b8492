use pipeline_lifecycle::coordinator::{
    exit_code, poller_should_stop, Coordinator, CoordinatorAction, CoordinatorEvent,
    CoordinatorState, RunOutcome,
};
use pipeline_lifecycle::dispatcher::{
    BusCommandType, BusDispatcher, DebugSettings, DispatchEffect, PipelineStatus, ReportedState,
};

fn state_changed(source_is_pipeline: bool, target: ReportedState) -> PipelineStatus {
    PipelineStatus::StateChanged {
        source_is_pipeline,
        target,
    }
}

fn quiet_dispatcher() -> BusDispatcher {
    BusDispatcher::new(DebugSettings { make_dot: false })
}

#[test]
fn no_event_pending_is_not_terminal() {
    let mut d = quiet_dispatcher();
    let step = d.handle_pipeline_message(None);
    assert_eq!(step.command, None);
    assert_eq!(step.effect, DispatchEffect::NoEffect);
}

#[test]
fn started_emitted_once_per_running_edge() {
    let mut d = quiet_dispatcher();
    let first = d.handle_pipeline_message(Some(state_changed(true, ReportedState::Running)));
    assert_eq!(first.command, Some(BusCommandType::Started));
    // The library may re-report the same state; no duplicate command.
    let again = d.handle_pipeline_message(Some(state_changed(true, ReportedState::Running)));
    assert_eq!(again.command, None);
    let third = d.handle_pipeline_message(Some(state_changed(true, ReportedState::Running)));
    assert_eq!(third.command, None);
}

#[test]
fn ended_emitted_once_per_stopped_edge() {
    let mut d = quiet_dispatcher();
    d.handle_pipeline_message(Some(state_changed(true, ReportedState::Running)));
    let first = d.handle_pipeline_message(Some(state_changed(true, ReportedState::FullyStopped)));
    assert_eq!(first.command, Some(BusCommandType::Ended));
    let again = d.handle_pipeline_message(Some(state_changed(true, ReportedState::FullyStopped)));
    assert_eq!(again.command, None);
}

#[test]
fn stopped_report_before_any_start_emits_nothing() {
    let mut d = quiet_dispatcher();
    let step = d.handle_pipeline_message(Some(state_changed(true, ReportedState::FullyStopped)));
    assert_eq!(step.command, None);
}

#[test]
fn element_sourced_state_change_emits_nothing() {
    let mut d = quiet_dispatcher();
    let step = d.handle_pipeline_message(Some(state_changed(false, ReportedState::Running)));
    assert_eq!(step.command, None);
    assert_eq!(step.effect, DispatchEffect::NoEffect);
    // Still not started: a later pipeline-sourced report is the real edge.
    let real = d.handle_pipeline_message(Some(state_changed(true, ReportedState::Running)));
    assert_eq!(real.command, Some(BusCommandType::Started));
}

#[test]
fn error_event_emits_error_command() {
    let mut d = quiet_dispatcher();
    let step = d.handle_pipeline_message(Some(PipelineStatus::Error));
    assert_eq!(step.command, Some(BusCommandType::Error));
    assert_eq!(step.effect, DispatchEffect::NoEffect);
}

#[test]
fn warning_event_emits_nothing() {
    let mut d = quiet_dispatcher();
    let step = d.handle_pipeline_message(Some(PipelineStatus::Warning));
    assert_eq!(step.command, None);
    assert_eq!(step.effect, DispatchEffect::NoEffect);
}

#[test]
fn latency_event_asks_for_recompute_only() {
    let mut d = quiet_dispatcher();
    let step = d.handle_pipeline_message(Some(PipelineStatus::LatencyChanged));
    assert_eq!(step.command, None);
    assert_eq!(step.effect, DispatchEffect::RecomputeLatency);
}

#[test]
fn eos_command_follows_successful_stop_request() {
    let mut d = quiet_dispatcher();
    let step = d.handle_pipeline_message(Some(PipelineStatus::Eos));
    assert_eq!(step.command, None);
    assert_eq!(step.effect, DispatchEffect::RequestFullStop);
    assert_eq!(d.stop_request_outcome(true), Some(BusCommandType::Eos));
}

#[test]
fn failed_stop_request_emits_nothing_and_polling_continues() {
    let mut d = quiet_dispatcher();
    d.handle_pipeline_message(Some(state_changed(true, ReportedState::Running)));
    let step = d.handle_pipeline_message(Some(PipelineStatus::Eos));
    assert_eq!(step.effect, DispatchEffect::RequestFullStop);
    assert_eq!(d.stop_request_outcome(false), None);
    // The run keeps polling; a later end-of-stream can still succeed.
    let retry = d.handle_pipeline_message(Some(PipelineStatus::Eos));
    assert_eq!(retry.effect, DispatchEffect::RequestFullStop);
    assert_eq!(d.stop_request_outcome(true), Some(BusCommandType::Eos));
}

#[test]
fn snapshot_asked_only_when_diagnostics_enabled() {
    let mut with_dot = BusDispatcher::new(DebugSettings { make_dot: true });
    let mut without_dot = quiet_dispatcher();
    let steady = state_changed(true, ReportedState::Other);
    let a = with_dot.handle_pipeline_message(Some(steady));
    let b = without_dot.handle_pipeline_message(Some(steady));
    assert_eq!(a.effect, DispatchEffect::DumpSnapshot);
    assert_eq!(b.effect, DispatchEffect::NoEffect);
    // The diagnostics channel never changes the commands.
    assert_eq!(a.command, b.command);
    assert_eq!(a.command, None);
}

#[test]
fn diagnostics_do_not_change_boundary_commands() {
    let mut with_dot = BusDispatcher::new(DebugSettings { make_dot: true });
    let step = with_dot.handle_pipeline_message(Some(state_changed(true, ReportedState::Running)));
    assert_eq!(step.command, Some(BusCommandType::Started));
    assert_eq!(step.effect, DispatchEffect::NoEffect);
}

#[test]
fn poller_stops_only_on_eos_command() {
    assert!(poller_should_stop(Some(BusCommandType::Eos)));
    assert!(!poller_should_stop(Some(BusCommandType::Error)));
    assert!(!poller_should_stop(Some(BusCommandType::Started)));
    assert!(!poller_should_stop(Some(BusCommandType::Ended)));
    assert!(!poller_should_stop(None));
}

#[test]
fn scenario_natural_finish() {
    // The pipeline starts, reaches running, signals end-of-stream, and
    // reports fully stopped; the run finishes naturally with the commands
    // observed in order [Started, Eos, Ended].
    let mut coordinator = Coordinator::new();
    assert_eq!(
        coordinator.step(CoordinatorEvent::StartSucceeded),
        CoordinatorAction::LaunchPoller
    );

    let mut d = quiet_dispatcher();
    let mut commands: Vec<BusCommandType> = Vec::new();
    let bus = [
        Some(state_changed(true, ReportedState::Running)),
        None,
        Some(PipelineStatus::Eos),
        Some(state_changed(true, ReportedState::FullyStopped)),
    ];
    let mut finished = false;
    for status in bus {
        let step = d.handle_pipeline_message(status);
        let command = if step.effect == DispatchEffect::RequestFullStop {
            // The graceful-stop request succeeds on this run.
            d.stop_request_outcome(true)
        } else {
            step.command
        };
        if let Some(c) = command {
            commands.push(c);
        }
        if poller_should_stop(command) {
            finished = true;
        }
    }
    assert_eq!(
        commands,
        vec![BusCommandType::Started, BusCommandType::Eos, BusCommandType::Ended]
    );
    assert!(finished);

    assert_eq!(
        coordinator.step(CoordinatorEvent::PollerFinished),
        CoordinatorAction::ReportOutcome(RunOutcome::FinishedNaturally)
    );
    assert_eq!(coordinator.state(), CoordinatorState::Stopped);
    assert_eq!(exit_code(RunOutcome::FinishedNaturally), 0);
}

#[test]
fn scenario_cancellation_before_eos() {
    // Cancellation fires while the pipeline is running; the stop request is
    // acknowledged, the poller then observes the induced end-of-stream and
    // stop, and only then is the cancellation reported.
    let mut coordinator = Coordinator::new();
    coordinator.step(CoordinatorEvent::StartSucceeded);

    let mut d = quiet_dispatcher();
    let step = d.handle_pipeline_message(Some(state_changed(true, ReportedState::Running)));
    assert_eq!(step.command, Some(BusCommandType::Started));

    assert_eq!(
        coordinator.step(CoordinatorEvent::CancelSignalled),
        CoordinatorAction::RequestGracefulStop
    );
    assert_eq!(coordinator.state(), CoordinatorState::CancelRequested);
    assert_eq!(
        coordinator.step(CoordinatorEvent::StopRequestSucceeded),
        CoordinatorAction::AwaitPoller
    );
    assert_eq!(coordinator.state(), CoordinatorState::Stopping);

    // The pipeline is slow to stop: a few empty polls first.
    assert_eq!(d.handle_pipeline_message(None).command, None);
    assert_eq!(d.handle_pipeline_message(None).command, None);
    // Still no outcome reported: the coordinator is waiting on the poller.
    assert_eq!(coordinator.state(), CoordinatorState::Stopping);

    // The graceful stop induces the end-of-stream and the stopped report.
    let eos = d.handle_pipeline_message(Some(PipelineStatus::Eos));
    assert_eq!(eos.effect, DispatchEffect::RequestFullStop);
    let command = d.stop_request_outcome(true);
    assert!(poller_should_stop(command));

    assert_eq!(
        coordinator.step(CoordinatorEvent::PollerFinished),
        CoordinatorAction::ReportOutcome(RunOutcome::FinishedByCancellation)
    );
    assert_eq!(coordinator.state(), CoordinatorState::Stopped);
    assert_eq!(exit_code(RunOutcome::FinishedByCancellation), 0);
}

#[test]
fn scenario_start_failure() {
    // Starting the pipeline fails: the run is faulted at once, and the
    // polling task is never launched.
    let mut coordinator = Coordinator::new();
    let action = coordinator.step(CoordinatorEvent::StartFailed);
    assert_eq!(action, CoordinatorAction::ReportOutcome(RunOutcome::Faulted));
    assert_ne!(action, CoordinatorAction::LaunchPoller);
    assert_eq!(coordinator.state(), CoordinatorState::Faulted);
    assert_eq!(exit_code(RunOutcome::Faulted), 1);
}

#[test]
fn scenario_error_without_eos_does_not_terminate() {
    // A reported error alone is non-terminal: the poller keeps draining and
    // the coordinator stays running — the documented hang when no
    // end-of-stream ever follows.
    let mut coordinator = Coordinator::new();
    coordinator.step(CoordinatorEvent::StartSucceeded);

    let mut d = quiet_dispatcher();
    d.handle_pipeline_message(Some(state_changed(true, ReportedState::Running)));
    let step = d.handle_pipeline_message(Some(PipelineStatus::Error));
    assert_eq!(step.command, Some(BusCommandType::Error));
    assert!(!poller_should_stop(step.command));
    let idle = d.handle_pipeline_message(None);
    assert!(!poller_should_stop(idle.command));
    assert_eq!(coordinator.state(), CoordinatorState::Running);
}

#[test]
fn stop_request_failure_faults_the_run() {
    let mut coordinator = Coordinator::new();
    coordinator.step(CoordinatorEvent::StartSucceeded);
    coordinator.step(CoordinatorEvent::CancelSignalled);
    assert_eq!(
        coordinator.step(CoordinatorEvent::StopRequestFailed),
        CoordinatorAction::ReportOutcome(RunOutcome::Faulted)
    );
    assert_eq!(coordinator.state(), CoordinatorState::Faulted);
}

#[test]
fn poller_abort_faults_the_run() {
    let mut coordinator = Coordinator::new();
    coordinator.step(CoordinatorEvent::StartSucceeded);
    assert_eq!(
        coordinator.step(CoordinatorEvent::PollerAborted),
        CoordinatorAction::ReportOutcome(RunOutcome::Faulted)
    );
    assert_eq!(coordinator.state(), CoordinatorState::Faulted);
}

#[test]
fn cancellation_racing_a_natural_finish_still_awaits_the_stop() {
    // The poller finishes in the window between the cancellation signal and
    // the stop request's acknowledgement: the pipeline has stopped, so the
    // cancelled run may report.
    let mut coordinator = Coordinator::new();
    coordinator.step(CoordinatorEvent::StartSucceeded);
    coordinator.step(CoordinatorEvent::CancelSignalled);
    assert_eq!(
        coordinator.step(CoordinatorEvent::PollerFinished),
        CoordinatorAction::ReportOutcome(RunOutcome::FinishedByCancellation)
    );
    assert_eq!(coordinator.state(), CoordinatorState::Stopped);
}

#[test]
fn terminal_states_absorb_every_event() {
    let mut stopped = Coordinator::new();
    stopped.step(CoordinatorEvent::StartSucceeded);
    stopped.step(CoordinatorEvent::PollerFinished);
    assert_eq!(stopped.state(), CoordinatorState::Stopped);
    assert_eq!(stopped.step(CoordinatorEvent::CancelSignalled), CoordinatorAction::DoNothing);
    assert_eq!(stopped.step(CoordinatorEvent::PollerFinished), CoordinatorAction::DoNothing);
    assert_eq!(stopped.state(), CoordinatorState::Stopped);

    let mut faulted = Coordinator::new();
    faulted.step(CoordinatorEvent::StartFailed);
    assert_eq!(faulted.step(CoordinatorEvent::StartSucceeded), CoordinatorAction::DoNothing);
    assert_eq!(faulted.state(), CoordinatorState::Faulted);
}
