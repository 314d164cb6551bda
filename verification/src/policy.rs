//! The recovery policy: a pure decision function from a classified event
//! and the supervisor's state to a recovery action and the next state.

use vstd::prelude::*;
use crate::events::{PipelineState, SupervisionEvent};

verus! {

/// Why the supervisor stopped.
#[derive(Clone, Copy, Debug, PartialEq, Eq, Structural)]
pub enum TerminationReason {
    /// The engine signalled a successful end of stream.
    EndOfStream,
    /// The engine reported an unrecoverable error.
    EngineError,
    /// The event source closed with no prior terminal event.
    EventSourceClosed,
}

/// The supervisor's own state. Exactly one is active at a time; only the
/// supervisor loop holds and mutates it.
#[derive(Clone, Copy, Debug, PartialEq, Eq, Structural)]
pub enum SupervisorState {
    /// Before the initial transition to playing has been confirmed.
    Starting,
    /// The pipeline is playing normally.
    Playing,
    /// Paused on purpose, while the pipeline buffers.
    PausedExpected,
    /// Paused without a request from this policy; a resume has been asked for.
    PausedUnexpected,
    /// The loop has exited and the final cleanup transition is in progress.
    ShuttingDown,
    /// The loop is done.
    Terminated { reason: TerminationReason },
}

/// What the supervisor loop is to do with the engine after a decision.
#[derive(Clone, Copy, Debug, PartialEq, Eq, Structural)]
pub enum RecoveryAction {
    NoOp,
    RequestState(PipelineState),
    RecalculateLatency,
    LogDiagnostics,
}

/// A state in which the supervisor loop must exit.
pub open spec fn is_terminal_spec(s: SupervisorState) -> bool {
    s is Terminated
}

/// Whether the loop must exit in state `s`.
pub fn is_terminal(s: SupervisorState) -> (b: bool)
    ensures
        b == is_terminal_spec(s),
{
    match s {
        SupervisorState::Terminated { .. } => true,
        _ => false,
    }
}

/// The recovery policy. Rules, in priority order:
/// end of stream terminates with reason end-of-stream; a fatal error logs
/// diagnostics and terminates with reason error; a root pause that was not
/// requested while playing asks for a resume and waits in `PausedUnexpected`;
/// a root change to playing confirms a pending start or resume; buffering
/// below one hundred percent pauses, buffering complete resumes; a latency
/// update recalculates latency; clock loss asks for playing again so the
/// clock is re-elected; everything else is a no-op. Stage-level state
/// changes and unknown events never change the state.
pub open spec fn decide_spec(e: SupervisionEvent, s: SupervisorState) -> (RecoveryAction,
    SupervisorState) {
    match e {
        SupervisionEvent::EndOfStream => (
            RecoveryAction::NoOp,
            SupervisorState::Terminated { reason: TerminationReason::EndOfStream },
        ),
        SupervisionEvent::FatalError { .. } => (
            RecoveryAction::LogDiagnostics,
            SupervisorState::Terminated { reason: TerminationReason::EngineError },
        ),
        SupervisionEvent::StateChanged { is_pipeline_root, new, .. } => {
            if is_pipeline_root && new == PipelineState::Paused && s == SupervisorState::Playing {
                (
                    RecoveryAction::RequestState(PipelineState::Playing),
                    SupervisorState::PausedUnexpected,
                )
            } else if is_pipeline_root && new == PipelineState::Playing && (s
                == SupervisorState::Starting || s == SupervisorState::PausedUnexpected) {
                (RecoveryAction::NoOp, SupervisorState::Playing)
            } else {
                (RecoveryAction::NoOp, s)
            }
        },
        SupervisionEvent::BufferingProgress { percent } => {
            if percent < 100 {
                (
                    RecoveryAction::RequestState(PipelineState::Paused),
                    SupervisorState::PausedExpected,
                )
            } else {
                (RecoveryAction::RequestState(PipelineState::Playing), SupervisorState::Playing)
            }
        },
        SupervisionEvent::LatencyUpdated => (RecoveryAction::RecalculateLatency, s),
        SupervisionEvent::ClockLost => (RecoveryAction::RequestState(PipelineState::Playing), s),
        _ => (RecoveryAction::NoOp, s),
    }
}

/// Decide what to do about one classified event. Deterministic and pure;
/// the caller executes the action and adopts the returned state.
pub fn decide(e: &SupervisionEvent, s: SupervisorState) -> (r: (RecoveryAction, SupervisorState))
    ensures
        r == decide_spec(*e, s),
{
    match e {
        SupervisionEvent::EndOfStream => (
            RecoveryAction::NoOp,
            SupervisorState::Terminated { reason: TerminationReason::EndOfStream },
        ),
        SupervisionEvent::FatalError { .. } => (
            RecoveryAction::LogDiagnostics,
            SupervisorState::Terminated { reason: TerminationReason::EngineError },
        ),
        SupervisionEvent::StateChanged { is_pipeline_root, new, .. } => {
            if *is_pipeline_root && *new == PipelineState::Paused && s
                == SupervisorState::Playing {
                (
                    RecoveryAction::RequestState(PipelineState::Playing),
                    SupervisorState::PausedUnexpected,
                )
            } else if *is_pipeline_root && *new == PipelineState::Playing && (s
                == SupervisorState::Starting || s == SupervisorState::PausedUnexpected) {
                (RecoveryAction::NoOp, SupervisorState::Playing)
            } else {
                (RecoveryAction::NoOp, s)
            }
        },
        SupervisionEvent::BufferingProgress { percent } => {
            if *percent < 100 {
                (
                    RecoveryAction::RequestState(PipelineState::Paused),
                    SupervisorState::PausedExpected,
                )
            } else {
                (RecoveryAction::RequestState(PipelineState::Playing), SupervisorState::Playing)
            }
        },
        SupervisionEvent::LatencyUpdated => (RecoveryAction::RecalculateLatency, s),
        SupervisionEvent::ClockLost => (RecoveryAction::RequestState(PipelineState::Playing), s),
        _ => (RecoveryAction::NoOp, s),
    }
}

/// The event shapes on which the policy wants the stages enumerated for
/// diagnostics: an unrequested pause of the pipeline root while playing.
pub open spec fn wants_stage_diagnostics_spec(e: SupervisionEvent, s: SupervisorState) -> bool {
    &&& e matches SupervisionEvent::StateChanged {
        is_pipeline_root: true,
        new: PipelineState::Paused,
        ..
    }
    &&& s == SupervisorState::Playing
}

/// Whether the loop should enumerate and log every stage's path and state
/// before executing the decided action.
pub fn needs_stage_diagnostics(e: &SupervisionEvent, s: SupervisorState) -> (b: bool)
    ensures
        b == wants_stage_diagnostics_spec(*e, s),
{
    match e {
        SupervisionEvent::StateChanged { is_pipeline_root, new, .. } => {
            *is_pipeline_root && *new == PipelineState::Paused && s == SupervisorState::Playing
        },
        _ => false,
    }
}

/// The label under which a termination reason is reported.
pub open spec fn reason_label_spec(r: TerminationReason) -> Seq<char> {
    match r {
        TerminationReason::EndOfStream => "eos"@,
        TerminationReason::EngineError => "error"@,
        TerminationReason::EventSourceClosed => "event-source-closed"@,
    }
}

/// Report a termination reason as its label.
pub fn reason_label(r: TerminationReason) -> (s: String)
    ensures
        s@ == reason_label_spec(r),
{
    match r {
        TerminationReason::EndOfStream => "eos".to_owned(),
        TerminationReason::EngineError => "error".to_owned(),
        TerminationReason::EventSourceClosed => "event-source-closed".to_owned(),
    }
}

/// The policy terminates exactly on terminal events: end of stream and a
/// fatal error always decide termination, and no other event does so from
/// a live state.
pub proof fn lemma_decide_termination(e: SupervisionEvent, s: SupervisorState)
    ensures
        e is EndOfStream || e is FatalError ==> is_terminal_spec(decide_spec(e, s).1),
        !(e is EndOfStream) && !(e is FatalError) && !is_terminal_spec(s) ==> !is_terminal_spec(
            decide_spec(e, s).1,
        ),
{
}

/// An unrequested pause of the pipeline root while playing always decides a
/// resume request and moves the supervisor to `PausedUnexpected`.
pub proof fn lemma_unexpected_pause_triggers_resume(
    element_path: Option<String>,
    old_state: PipelineState,
)
    ensures
        decide_spec(
            SupervisionEvent::StateChanged {
                element_path,
                old: old_state,
                new: PipelineState::Paused,
                is_pipeline_root: true,
            },
            SupervisorState::Playing,
        ) == (
            RecoveryAction::RequestState(PipelineState::Playing),
            SupervisorState::PausedUnexpected,
        ),
{
}

} // verus!
