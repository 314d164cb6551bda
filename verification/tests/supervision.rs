use pipeline_supervisor::config::{input_location, output_location};
use pipeline_supervisor::events::{
    classify, event_severity, LogSeverity, PipelineState, RawEvent, SourceRef, SupervisionEvent,
};
use pipeline_supervisor::policy::{
    decide, is_terminal, needs_stage_diagnostics, reason_label, RecoveryAction, SupervisorState,
    TerminationReason,
};
use pipeline_supervisor::supervisor::{
    enumerate_stage_diagnostics, run_supervision, transition_requires_abort, StageSnapshot,
    TransitionOutcome,
};

const ROOT: u64 = 7;

fn root_state_change(old: PipelineState, new: PipelineState) -> RawEvent {
    RawEvent::StateChanged {
        source: Some(SourceRef { id: ROOT, path: "/pipeline0".to_string() }),
        old,
        new,
    }
}

fn stage_state_change(old: PipelineState, new: PipelineState) -> RawEvent {
    RawEvent::StateChanged {
        source: Some(SourceRef { id: 21, path: "/pipeline0/decode0".to_string() }),
        old,
        new,
    }
}

#[test]
fn classify_eos() {
    assert_eq!(classify(&RawEvent::Eos, ROOT), SupervisionEvent::EndOfStream);
}

#[test]
fn classify_error_keeps_details() {
    let raw = RawEvent::Error {
        source_path: Some("src0".to_string()),
        message: "decode failed".to_string(),
        debug_info: None,
    };
    assert_eq!(
        classify(&raw, ROOT),
        SupervisionEvent::FatalError {
            source_path: Some("src0".to_string()),
            message: "decode failed".to_string(),
            debug_info: None,
        }
    );
}

#[test]
fn classify_marks_root_state_change() {
    let ev = classify(&root_state_change(PipelineState::Playing, PipelineState::Paused), ROOT);
    assert_eq!(
        ev,
        SupervisionEvent::StateChanged {
            element_path: Some("/pipeline0".to_string()),
            old: PipelineState::Playing,
            new: PipelineState::Paused,
            is_pipeline_root: true,
        }
    );
}

#[test]
fn classify_marks_stage_state_change() {
    let ev = classify(&stage_state_change(PipelineState::Ready, PipelineState::Paused), ROOT);
    assert!(matches!(
        ev,
        SupervisionEvent::StateChanged { is_pipeline_root: false, .. }
    ));
}

#[test]
fn classify_state_change_without_source_is_not_root() {
    let raw = RawEvent::StateChanged {
        source: None,
        old: PipelineState::Playing,
        new: PipelineState::Paused,
    };
    assert_eq!(
        classify(&raw, ROOT),
        SupervisionEvent::StateChanged {
            element_path: None,
            old: PipelineState::Playing,
            new: PipelineState::Paused,
            is_pipeline_root: false,
        }
    );
}

#[test]
fn classify_remaining_shapes() {
    assert_eq!(
        classify(&RawEvent::Buffering { percent: 42 }, ROOT),
        SupervisionEvent::BufferingProgress { percent: 42 }
    );
    assert_eq!(classify(&RawEvent::Latency, ROOT), SupervisionEvent::LatencyUpdated);
    assert_eq!(
        classify(&RawEvent::StreamStatus { info: "enter".to_string() }, ROOT),
        SupervisionEvent::StreamStatus { info: "enter".to_string() }
    );
    assert_eq!(classify(&RawEvent::DurationChanged, ROOT), SupervisionEvent::DurationChanged);
    assert_eq!(classify(&RawEvent::ClockLost, ROOT), SupervisionEvent::ClockLost);
}

#[test]
fn classify_unknown_shape_is_unclassified_not_an_error() {
    let raw = RawEvent::Other { description: "tag".to_string() };
    assert_eq!(
        classify(&raw, ROOT),
        SupervisionEvent::Unclassified { raw_description: "tag".to_string() }
    );
}

#[test]
fn decide_eos_terminates() {
    let (action, next) = decide(&SupervisionEvent::EndOfStream, SupervisorState::Playing);
    assert_eq!(action, RecoveryAction::NoOp);
    assert_eq!(next, SupervisorState::Terminated { reason: TerminationReason::EndOfStream });
    assert!(is_terminal(next));
}

#[test]
fn decide_fatal_error_logs_diagnostics_and_terminates() {
    let ev = SupervisionEvent::FatalError {
        source_path: Some("src0".to_string()),
        message: "decode failed".to_string(),
        debug_info: None,
    };
    let (action, next) = decide(&ev, SupervisorState::Playing);
    assert_eq!(action, RecoveryAction::LogDiagnostics);
    assert_eq!(next, SupervisorState::Terminated { reason: TerminationReason::EngineError });
}

#[test]
fn decide_unexpected_root_pause_requests_resume() {
    let ev = classify(&root_state_change(PipelineState::Playing, PipelineState::Paused), ROOT);
    let (action, next) = decide(&ev, SupervisorState::Playing);
    assert_eq!(action, RecoveryAction::RequestState(PipelineState::Playing));
    assert_eq!(next, SupervisorState::PausedUnexpected);
    assert!(needs_stage_diagnostics(&ev, SupervisorState::Playing));
}

#[test]
fn decide_stage_pause_is_informational() {
    let ev = classify(&stage_state_change(PipelineState::Playing, PipelineState::Paused), ROOT);
    let (action, next) = decide(&ev, SupervisorState::Playing);
    assert_eq!(action, RecoveryAction::NoOp);
    assert_eq!(next, SupervisorState::Playing);
    assert!(!needs_stage_diagnostics(&ev, SupervisorState::Playing));
}

#[test]
fn decide_expected_pause_is_not_recovered() {
    let ev = classify(&root_state_change(PipelineState::Playing, PipelineState::Paused), ROOT);
    let (action, next) = decide(&ev, SupervisorState::PausedExpected);
    assert_eq!(action, RecoveryAction::NoOp);
    assert_eq!(next, SupervisorState::PausedExpected);
    assert!(!needs_stage_diagnostics(&ev, SupervisorState::PausedExpected));
}

#[test]
fn decide_root_playing_confirms_start_and_resume() {
    let ev = classify(&root_state_change(PipelineState::Paused, PipelineState::Playing), ROOT);
    let (action, next) = decide(&ev, SupervisorState::Starting);
    assert_eq!(action, RecoveryAction::NoOp);
    assert_eq!(next, SupervisorState::Playing);
    let (action, next) = decide(&ev, SupervisorState::PausedUnexpected);
    assert_eq!(action, RecoveryAction::NoOp);
    assert_eq!(next, SupervisorState::Playing);
}

#[test]
fn decide_buffering_below_complete_pauses() {
    let ev = SupervisionEvent::BufferingProgress { percent: 42 };
    let (action, next) = decide(&ev, SupervisorState::Playing);
    assert_eq!(action, RecoveryAction::RequestState(PipelineState::Paused));
    assert_eq!(next, SupervisorState::PausedExpected);
}

#[test]
fn decide_buffering_complete_resumes() {
    let ev = SupervisionEvent::BufferingProgress { percent: 100 };
    let (action, next) = decide(&ev, SupervisorState::PausedExpected);
    assert_eq!(action, RecoveryAction::RequestState(PipelineState::Playing));
    assert_eq!(next, SupervisorState::Playing);
}

#[test]
fn decide_buffering_complete_is_idempotent_while_playing() {
    // The policy is event-driven, not edge-triggered: every completion
    // event decides a fresh resume request.
    let ev = SupervisionEvent::BufferingProgress { percent: 100 };
    let mut state = SupervisorState::Playing;
    for _ in 0..3 {
        let (action, next) = decide(&ev, state);
        assert_eq!(action, RecoveryAction::RequestState(PipelineState::Playing));
        assert_eq!(next, SupervisorState::Playing);
        state = next;
    }
}

#[test]
fn decide_latency_update_recalculates_without_state_change() {
    let (action, next) = decide(&SupervisionEvent::LatencyUpdated, SupervisorState::Playing);
    assert_eq!(action, RecoveryAction::RecalculateLatency);
    assert_eq!(next, SupervisorState::Playing);
}

#[test]
fn decide_clock_lost_requests_playing_without_state_change() {
    let (action, next) = decide(&SupervisionEvent::ClockLost, SupervisorState::PausedExpected);
    assert_eq!(action, RecoveryAction::RequestState(PipelineState::Playing));
    assert_eq!(next, SupervisorState::PausedExpected);
}

#[test]
fn decide_informational_events_are_noops() {
    for ev in [
        SupervisionEvent::StreamStatus { info: "enter".to_string() },
        SupervisionEvent::DurationChanged,
        SupervisionEvent::Unclassified { raw_description: "tag".to_string() },
    ] {
        let (action, next) = decide(&ev, SupervisorState::Playing);
        assert_eq!(action, RecoveryAction::NoOp);
        assert_eq!(next, SupervisorState::Playing);
    }
}

#[test]
fn diagnostics_enumerate_every_stage_once_in_order() {
    let stages = vec![
        StageSnapshot { path: "/pipeline0/filesrc0".to_string(), state: PipelineState::Paused },
        StageSnapshot { path: "/pipeline0/decode0".to_string(), state: PipelineState::Playing },
        StageSnapshot { path: "/pipeline0/mux".to_string(), state: PipelineState::Ready },
    ];
    let records = enumerate_stage_diagnostics(&stages);
    assert_eq!(records.len(), stages.len());
    for (record, stage) in records.iter().zip(stages.iter()) {
        assert_eq!(record.stage_path, stage.path);
        assert_eq!(record.stage_state, stage.state);
    }
}

#[test]
fn diagnostics_of_no_stages_are_empty() {
    assert_eq!(enumerate_stage_diagnostics(&Vec::new()).len(), 0);
}

#[test]
fn buffering_sequence_requests_paused_then_playing() {
    let events = vec![RawEvent::Buffering { percent: 42 }, RawEvent::Buffering { percent: 100 }];
    let run = run_supervision(&events, ROOT);
    assert_eq!(
        run.requests,
        vec![
            PipelineState::Playing,
            PipelineState::Paused,
            PipelineState::Playing,
            PipelineState::Null,
        ]
    );
    assert_eq!(run.outcome.reason, TerminationReason::EventSourceClosed);
    assert!(!run.outcome.eos_observed);
}

#[test]
fn fatal_error_outcome_still_runs_cleanup_once() {
    let events = vec![RawEvent::Error {
        source_path: Some("src0".to_string()),
        message: "decode failed".to_string(),
        debug_info: None,
    }];
    let run = run_supervision(&events, ROOT);
    assert_eq!(run.outcome.reason, TerminationReason::EngineError);
    assert_eq!(reason_label(run.outcome.reason), "error");
    assert!(!run.outcome.eos_observed);
    assert_eq!(run.requests, vec![PipelineState::Playing, PipelineState::Null]);
    let cleanups = run.requests.iter().filter(|t| **t == PipelineState::Null).count();
    assert_eq!(cleanups, 1);
}

#[test]
fn eos_outcome_records_end_of_stream() {
    let run = run_supervision(&vec![RawEvent::Eos], ROOT);
    assert_eq!(run.outcome.reason, TerminationReason::EndOfStream);
    assert_eq!(reason_label(run.outcome.reason), "eos");
    assert!(run.outcome.eos_observed);
    assert_eq!(run.requests, vec![PipelineState::Playing, PipelineState::Null]);
}

#[test]
fn nothing_is_processed_after_termination() {
    let events = vec![RawEvent::Eos, RawEvent::Buffering { percent: 42 }];
    let run = run_supervision(&events, ROOT);
    assert_eq!(run.requests, vec![PipelineState::Playing, PipelineState::Null]);
    assert_eq!(run.outcome.reason, TerminationReason::EndOfStream);
}

#[test]
fn source_closing_without_terminal_event_records_closure() {
    let events = vec![
        RawEvent::Latency,
        RawEvent::DurationChanged,
        root_state_change(PipelineState::Ready, PipelineState::Playing),
    ];
    let run = run_supervision(&events, ROOT);
    assert_eq!(run.outcome.reason, TerminationReason::EventSourceClosed);
    assert_eq!(reason_label(run.outcome.reason), "event-source-closed");
    assert!(!run.outcome.eos_observed);
    assert_eq!(*run.requests.last().unwrap(), PipelineState::Null);
}

#[test]
fn empty_event_source_still_runs_cleanup() {
    let run = run_supervision(&Vec::new(), ROOT);
    assert_eq!(run.requests, vec![PipelineState::Playing, PipelineState::Null]);
    assert_eq!(run.outcome.reason, TerminationReason::EventSourceClosed);
    assert!(!run.outcome.eos_observed);
}

#[test]
fn unexpected_pause_then_confirmation_round_trip() {
    let events = vec![
        root_state_change(PipelineState::Ready, PipelineState::Playing),
        root_state_change(PipelineState::Playing, PipelineState::Paused),
        root_state_change(PipelineState::Paused, PipelineState::Playing),
    ];
    let run = run_supervision(&events, ROOT);
    assert_eq!(
        run.requests,
        vec![PipelineState::Playing, PipelineState::Playing, PipelineState::Null]
    );
    assert_eq!(run.outcome.reason, TerminationReason::EventSourceClosed);
}

#[test]
fn transition_failure_is_fatal_outside_shutdown() {
    let failure = TransitionOutcome::Failure { engine_error: "refused".to_string() };
    assert!(transition_requires_abort(&failure, SupervisorState::Playing));
    assert!(transition_requires_abort(&failure, SupervisorState::Starting));
    assert!(!transition_requires_abort(&failure, SupervisorState::ShuttingDown));
    assert!(!transition_requires_abort(&TransitionOutcome::Success, SupervisorState::Playing));
    assert!(!transition_requires_abort(&TransitionOutcome::Async, SupervisorState::Playing));
}

#[test]
fn reason_labels() {
    assert_eq!(reason_label(TerminationReason::EndOfStream), "eos");
    assert_eq!(reason_label(TerminationReason::EngineError), "error");
    assert_eq!(reason_label(TerminationReason::EventSourceClosed), "event-source-closed");
}

#[test]
fn event_severities_cover_four_levels() {
    assert_eq!(event_severity(&SupervisionEvent::EndOfStream), LogSeverity::Info);
    assert_eq!(
        event_severity(&SupervisionEvent::FatalError {
            source_path: None,
            message: "m".to_string(),
            debug_info: None,
        }),
        LogSeverity::Error
    );
    assert_eq!(event_severity(&SupervisionEvent::ClockLost), LogSeverity::Warn);
    assert_eq!(
        event_severity(&SupervisionEvent::Unclassified { raw_description: "tag".to_string() }),
        LogSeverity::Debug
    );
}

#[test]
fn media_locations_fall_back_to_defaults() {
    assert_eq!(input_location(None), "input.mp3");
    assert_eq!(output_location(None), "output.mp4");
    assert_eq!(input_location(Some("song.flac".to_string())), "song.flac");
    assert_eq!(output_location(Some("clip.mkv".to_string())), "clip.mkv");
}
