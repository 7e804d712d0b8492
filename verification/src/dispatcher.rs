//! The bus dispatcher: pulls one status event at a time off the pipeline's
//! bus and reduces it to the small command vocabulary the lifecycle
//! coordinator reacts to, tracking whether the pipeline has started.
//!
//! The dispatcher is pure state translation. Everything it asks of the
//! outside world (recomputing latency, dumping a diagnostic snapshot,
//! requesting the transition to fully-stopped) is returned as a
//! [`DispatchEffect`] for the caller to perform; the outcome of the one
//! effect that matters, the full-stop request after end-of-stream, is handed
//! back through [`BusDispatcher::stop_request_outcome`].

use vstd::prelude::*;

verus! {

/// Configuration of the optional diagnostics side channel: when `make_dot`
/// is set, steady-state `StateChanged` events ask for a debug-graph snapshot.
/// Presence or absence of the channel never changes commands or state.
#[derive(Debug, Default, Clone, Copy, PartialEq, Eq, Structural)]
pub struct DebugSettings {
    pub make_dot: bool,
}

/// The state a `StateChanged` event reports the pipeline as entering.
/// Only two states matter to the lifecycle: "running" and "fully stopped";
/// every other reported state is steady-state noise.
#[derive(Debug, Clone, Copy, PartialEq, Eq, Structural)]
pub enum ReportedState {
    Running,
    FullyStopped,
    Other,
}

/// One discrete status event polled from the pipeline's bus, immutable once
/// observed. `StateChanged` carries whether the event's source is the
/// pipeline itself (as opposed to one of its elements) and the state it
/// reports entering; the dispatcher reads nothing else of it.
#[derive(Debug, Clone, Copy, PartialEq, Eq, Structural)]
pub enum PipelineStatus {
    Error,
    Warning,
    LatencyChanged,
    StateChanged { source_is_pipeline: bool, target: ReportedState },
    Eos,
}

/// The dispatcher's output vocabulary: the strict reduction of
/// `PipelineStatus` to the transitions the coordinator must react to.
/// A command is emitted only on a state-boundary crossing, never on
/// steady-state events.
#[derive(Debug, Clone, Copy, PartialEq, Eq, Structural)]
pub enum BusCommandType {
    Eos,
    Started,
    Ended,
    Error,
}

/// The side effect the caller must perform for the event just dispatched.
/// `RecomputeLatency` and `DumpSnapshot` are best-effort: their failure is
/// logged and never alters the state machine. After `RequestFullStop` the
/// caller reports the request's outcome to
/// [`BusDispatcher::stop_request_outcome`], which decides whether the `Eos`
/// command is emitted.
#[derive(Debug, Clone, Copy, PartialEq, Eq, Structural)]
pub enum DispatchEffect {
    NoEffect,
    RecomputeLatency,
    DumpSnapshot,
    RequestFullStop,
}

/// What one dispatch step tells its caller: the command emitted at the step,
/// if any, and the effect to perform.
#[derive(Debug, Clone, Copy, PartialEq, Eq)]
pub struct DispatchStep {
    pub command: Option<BusCommandType>,
    pub effect: DispatchEffect,
}

/// The `started` flag after observing `status` with the flag at `started`:
/// set on the first pipeline-sourced report of "running", cleared again on a
/// pipeline-sourced report of "fully stopped", unchanged otherwise.
pub open spec fn spec_next_started(started: bool, status: PipelineStatus) -> bool {
    match status {
        PipelineStatus::StateChanged { source_is_pipeline, target } => {
            if source_is_pipeline && target is FullyStopped && started {
                false
            } else if source_is_pipeline && target is Running && !started {
                true
            } else {
                started
            }
        },
        _ => started,
    }
}

/// The command emitted at the step that observes `status` with the flag at
/// `started`. The `Eos` command is absent here on purpose: it depends on the
/// outcome of the full-stop request, see [`spec_eos_command`].
pub open spec fn spec_step_command(started: bool, status: PipelineStatus) -> Option<BusCommandType> {
    match status {
        PipelineStatus::Error => Some(BusCommandType::Error),
        PipelineStatus::StateChanged { source_is_pipeline, target } => {
            if source_is_pipeline && target is FullyStopped && started {
                Some(BusCommandType::Ended)
            } else if source_is_pipeline && target is Running && !started {
                Some(BusCommandType::Started)
            } else {
                None
            }
        },
        _ => None,
    }
}

/// The effect the caller must perform for `status`: recompute latency on a
/// latency change, request the full stop on end-of-stream, and dump a
/// diagnostic snapshot on a steady-state pipeline-sourced `StateChanged`
/// when the diagnostics channel is enabled.
pub open spec fn spec_step_effect(make_dot: bool, started: bool, status: PipelineStatus) -> DispatchEffect {
    match status {
        PipelineStatus::LatencyChanged => DispatchEffect::RecomputeLatency,
        PipelineStatus::Eos => DispatchEffect::RequestFullStop,
        PipelineStatus::StateChanged { source_is_pipeline, target } => {
            if source_is_pipeline && target is FullyStopped && started {
                DispatchEffect::NoEffect
            } else if source_is_pipeline && target is Running && !started {
                DispatchEffect::NoEffect
            } else if source_is_pipeline && make_dot {
                DispatchEffect::DumpSnapshot
            } else {
                DispatchEffect::NoEffect
            }
        },
        _ => DispatchEffect::NoEffect,
    }
}

/// The command owed after a full-stop request: `Eos` exactly when the
/// request succeeded, nothing when it failed (the run then keeps polling).
pub open spec fn spec_eos_command(stop_succeeded: bool) -> Option<BusCommandType> {
    if stop_succeeded {
        Some(BusCommandType::Eos)
    } else {
        None
    }
}

/// The `started` flag after dispatching the whole sequence `events`,
/// starting from `started`.
pub open spec fn spec_started_after(started: bool, events: Seq<PipelineStatus>) -> bool
    decreases events.len(),
{
    if events.len() == 0 {
        started
    } else {
        spec_next_started(spec_started_after(started, events.drop_last()), events.last())
    }
}

/// The commands emitted step by step over `events`, starting with the flag
/// at `started`: one entry per event, in the order the events were observed.
pub open spec fn spec_run_commands(started: bool, events: Seq<PipelineStatus>) -> Seq<Option<BusCommandType>>
    decreases events.len(),
{
    if events.len() == 0 {
        Seq::empty()
    } else {
        spec_run_commands(started, events.drop_last()).push(
            spec_step_command(spec_started_after(started, events.drop_last()), events.last()),
        )
    }
}

/// A run emits one command slot per event, in order.
pub proof fn lemma_run_commands_len(started: bool, events: Seq<PipelineStatus>)
    ensures
        spec_run_commands(started, events).len() == events.len(),
    decreases events.len(),
{
    if events.len() > 0 {
        lemma_run_commands_len(started, events.drop_last());
    }
}

/// The command at step `i` is the step command of the flag reached over the
/// first `i` events.
proof fn lemma_run_commands_at(started: bool, events: Seq<PipelineStatus>, i: int)
    requires
        0 <= i < events.len(),
    ensures
        spec_run_commands(started, events)[i] == spec_step_command(
            spec_started_after(started, events.take(i)),
            events[i],
        ),
    decreases events.len(),
{
    lemma_run_commands_len(started, events.drop_last());
    if i == events.len() - 1 {
        assert(events.take(i) =~= events.drop_last());
    } else {
        lemma_run_commands_at(started, events.drop_last(), i);
        assert(events.drop_last().take(i) =~= events.take(i));
    }
}

/// One more event moves the flag by one application of `spec_next_started`.
proof fn lemma_started_after_take_step(started: bool, events: Seq<PipelineStatus>, i: int)
    requires
        0 <= i < events.len(),
    ensures
        spec_started_after(started, events.take(i + 1)) == spec_next_started(
            spec_started_after(started, events.take(i)),
            events[i],
        ),
{
    let t = events.take(i + 1);
    assert(t.drop_last() =~= events.take(i));
    assert(t.last() == events[i]);
}

/// Law: over any sequence of status events, `Started` is emitted at a step
/// exactly when that step crosses the not-started→running boundary, and
/// `Ended` exactly when it crosses the started→fully-stopped boundary. In
/// particular, a report repeating the pipeline's current state crosses no
/// boundary and emits no further command (idempotence), so each command
/// comes exactly once per edge.
pub proof fn lemma_started_ended_exactly_on_edges(started: bool, events: Seq<PipelineStatus>, i: int)
    requires
        0 <= i < events.len(),
    ensures
        ({
            let before = spec_started_after(started, events.take(i));
            let after = spec_started_after(started, events.take(i + 1));
            &&& (spec_run_commands(started, events)[i] == Some(BusCommandType::Started) <==> (!before
                && after))
            &&& (spec_run_commands(started, events)[i] == Some(BusCommandType::Ended) <==> (before
                && !after))
        }),
{
    lemma_run_commands_at(started, events, i);
    lemma_started_after_take_step(started, events, i);
}

/// Law: the `Eos` command is emitted exactly when the graceful-stop request
/// made for an observed end-of-stream succeeds. The end-of-stream event
/// itself emits nothing and leaves the `started` flag alone; it only asks
/// for the full stop, and a failed request owes no command, so the run
/// keeps polling.
pub proof fn lemma_eos_command_iff_stop_succeeds(make_dot: bool, started: bool, stop_succeeded: bool)
    ensures
        spec_step_effect(make_dot, started, PipelineStatus::Eos) == DispatchEffect::RequestFullStop,
        spec_step_command(started, PipelineStatus::Eos) is None,
        spec_next_started(started, PipelineStatus::Eos) == started,
        spec_eos_command(stop_succeeded) == Some(BusCommandType::Eos) <==> stop_succeeded,
{
}

/// The bus dispatcher. It owns the single `started` flag of the lifecycle:
/// initialized false, set on the observed transition into "running", cleared
/// on the observed transition into "fully stopped". The flag is mutated only
/// inside [`BusDispatcher::handle_pipeline_message`] and never observed
/// concurrently from outside.
pub struct BusDispatcher {
    started: bool,
    debug_params: DebugSettings,
}

impl BusDispatcher {
    /// Whether the dispatcher has observed the pipeline start and not yet
    /// observed it fully stop.
    pub closed spec fn spec_started(&self) -> bool {
        self.started
    }

    /// Whether the diagnostics side channel is enabled.
    pub closed spec fn spec_make_dot(&self) -> bool {
        self.debug_params.make_dot
    }

    /// A fresh dispatcher: not started, with the given diagnostics setting.
    pub fn new(debug_params: DebugSettings) -> (r: BusDispatcher)
        ensures
            !r.spec_started(),
            r.spec_make_dot() == debug_params.make_dot,
    {
        BusDispatcher { started: false, debug_params }
    }

    /// One dispatch step over the event just polled, or over "no event
    /// pending" (`None`), which is not a terminal state: the caller may
    /// yield and poll again. Classifies the event by the translation table,
    /// updates the `started` flag, and returns the emitted command together
    /// with the effect the caller must perform.
    pub fn handle_pipeline_message(&mut self, status: Option<PipelineStatus>) -> (step: DispatchStep)
        ensures
            final(self).spec_make_dot() == old(self).spec_make_dot(),
            status is None ==> {
                &&& final(self).spec_started() == old(self).spec_started()
                &&& step.command is None
                &&& step.effect == DispatchEffect::NoEffect
            },
            status matches Some(ev) ==> {
                &&& final(self).spec_started() == spec_next_started(old(self).spec_started(), ev)
                &&& step.command == spec_step_command(old(self).spec_started(), ev)
                &&& step.effect == spec_step_effect(old(self).spec_make_dot(), old(self).spec_started(), ev)
            },
    {
        match status {
            None => DispatchStep { command: None, effect: DispatchEffect::NoEffect },
            Some(PipelineStatus::Error) => DispatchStep {
                command: Some(BusCommandType::Error),
                effect: DispatchEffect::NoEffect,
            },
            Some(PipelineStatus::Warning) => DispatchStep {
                command: None,
                effect: DispatchEffect::NoEffect,
            },
            Some(PipelineStatus::LatencyChanged) => DispatchStep {
                command: None,
                effect: DispatchEffect::RecomputeLatency,
            },
            Some(PipelineStatus::StateChanged { source_is_pipeline, target }) => {
                if source_is_pipeline && matches!(target, ReportedState::FullyStopped) && self.started {
                    self.started = false;
                    DispatchStep { command: Some(BusCommandType::Ended), effect: DispatchEffect::NoEffect }
                } else if source_is_pipeline && matches!(target, ReportedState::Running) && !self.started {
                    self.started = true;
                    DispatchStep { command: Some(BusCommandType::Started), effect: DispatchEffect::NoEffect }
                } else if source_is_pipeline && self.debug_params.make_dot {
                    DispatchStep { command: None, effect: DispatchEffect::DumpSnapshot }
                } else {
                    DispatchStep { command: None, effect: DispatchEffect::NoEffect }
                }
            },
            Some(PipelineStatus::Eos) => DispatchStep {
                command: None,
                effect: DispatchEffect::RequestFullStop,
            },
        }
    }

    /// After a [`DispatchEffect::RequestFullStop`], turns the outcome of the
    /// graceful-stop request into the step's command: `Eos` exactly when the
    /// request succeeded. A failed request is logged by the caller and the
    /// run keeps polling; the `started` flag is untouched either way.
    pub fn stop_request_outcome(&self, stop_succeeded: bool) -> (cmd: Option<BusCommandType>)
        ensures
            cmd == spec_eos_command(stop_succeeded),
    {
        if stop_succeeded {
            Some(BusCommandType::Eos)
        } else {
            None
        }
    }
}

} // verus!
