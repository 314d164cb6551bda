//! Raw engine events and their classification into supervision events.
//!
//! The engine's bus delivers an open-ended union of message shapes. The
//! classifier maps each raw event to exactly one variant of the closed
//! `SupervisionEvent` set; shapes it does not know become `Unclassified`,
//! so no event is ever dropped silently.

use vstd::prelude::*;

verus! {

/// A state of the pipeline or of one of its stages, as the engine reports it.
#[derive(Clone, Copy, Debug, PartialEq, Eq, Structural)]
pub enum PipelineState {
    Null,
    Ready,
    Paused,
    Playing,
}

/// Identity and path of the object that emitted a raw event.
///
/// `id` is a stable identity token for the emitting object (the surrounding
/// program derives it from the engine object's identity); the classifier
/// compares it against the supervised pipeline's own token to tell root
/// transitions from stage-level ones.
#[derive(Clone, Debug, PartialEq, Eq)]
pub struct SourceRef {
    pub id: u64,
    pub path: String,
}

/// A raw engine event, reduced to plain values.
#[derive(Clone, Debug, PartialEq, Eq)]
pub enum RawEvent {
    Eos,
    Error { source_path: Option<String>, message: String, debug_info: Option<String> },
    StateChanged { source: Option<SourceRef>, old: PipelineState, new: PipelineState },
    Buffering { percent: i32 },
    Latency,
    StreamStatus { info: String },
    DurationChanged,
    ClockLost,
    Other { description: String },
}

/// A classified event: the closed variant set the recovery policy works on.
#[derive(Clone, Debug, PartialEq, Eq)]
pub enum SupervisionEvent {
    EndOfStream,
    FatalError { source_path: Option<String>, message: String, debug_info: Option<String> },
    StateChanged {
        element_path: Option<String>,
        old: PipelineState,
        new: PipelineState,
        is_pipeline_root: bool,
    },
    BufferingProgress { percent: i32 },
    LatencyUpdated,
    StreamStatus { info: String },
    DurationChanged,
    ClockLost,
    Unclassified { raw_description: String },
}

/// What `classify` returns: each raw shape maps to exactly one variant, and
/// a `StateChanged` is marked as root exactly when its source identity
/// equals the supervised pipeline's.
pub open spec fn classify_spec(raw: RawEvent, pipeline_root_id: u64) -> SupervisionEvent {
    match raw {
        RawEvent::Eos => SupervisionEvent::EndOfStream,
        RawEvent::Error { source_path, message, debug_info } => SupervisionEvent::FatalError {
            source_path,
            message,
            debug_info,
        },
        RawEvent::StateChanged { source, old, new } => SupervisionEvent::StateChanged {
            element_path: match source {
                Option::Some(s) => Option::Some(s.path),
                Option::None => Option::None,
            },
            old,
            new,
            is_pipeline_root: match source {
                Option::Some(s) => s.id == pipeline_root_id,
                Option::None => false,
            },
        },
        RawEvent::Buffering { percent } => SupervisionEvent::BufferingProgress { percent },
        RawEvent::Latency => SupervisionEvent::LatencyUpdated,
        RawEvent::StreamStatus { info } => SupervisionEvent::StreamStatus { info },
        RawEvent::DurationChanged => SupervisionEvent::DurationChanged,
        RawEvent::ClockLost => SupervisionEvent::ClockLost,
        RawEvent::Other { description } => SupervisionEvent::Unclassified {
            raw_description: description,
        },
    }
}

/// Classify one raw event against the supervised pipeline's identity token.
///
/// Total and pure: every raw shape produces exactly one variant.
pub fn classify(raw: &RawEvent, pipeline_root_id: u64) -> (ev: SupervisionEvent)
    ensures
        ev == classify_spec(*raw, pipeline_root_id),
{
    match raw {
        RawEvent::Eos => SupervisionEvent::EndOfStream,
        RawEvent::Error { source_path, message, debug_info } => SupervisionEvent::FatalError {
            source_path: match source_path {
                Option::Some(s) => Option::Some(s.clone()),
                Option::None => Option::None,
            },
            message: message.clone(),
            debug_info: match debug_info {
                Option::Some(s) => Option::Some(s.clone()),
                Option::None => Option::None,
            },
        },
        RawEvent::StateChanged { source, old, new } => SupervisionEvent::StateChanged {
            element_path: match source {
                Option::Some(s) => Option::Some(s.path.clone()),
                Option::None => Option::None,
            },
            old: *old,
            new: *new,
            is_pipeline_root: match source {
                Option::Some(s) => s.id == pipeline_root_id,
                Option::None => false,
            },
        },
        RawEvent::Buffering { percent } => SupervisionEvent::BufferingProgress {
            percent: *percent,
        },
        RawEvent::Latency => SupervisionEvent::LatencyUpdated,
        RawEvent::StreamStatus { info } => SupervisionEvent::StreamStatus { info: info.clone() },
        RawEvent::DurationChanged => SupervisionEvent::DurationChanged,
        RawEvent::ClockLost => SupervisionEvent::ClockLost,
        RawEvent::Other { description } => SupervisionEvent::Unclassified {
            raw_description: description.clone(),
        },
    }
}

/// A severity of the structured log stream.
#[derive(Clone, Copy, Debug, PartialEq, Eq, Structural)]
pub enum LogSeverity {
    Debug,
    Info,
    Warn,
    Error,
}

/// The severity at which a classified event is logged: fatal errors at
/// error, clock loss at warn, stage chatter and unknown shapes at debug,
/// the rest at info.
pub open spec fn event_severity_spec(e: SupervisionEvent) -> LogSeverity {
    match e {
        SupervisionEvent::EndOfStream => LogSeverity::Info,
        SupervisionEvent::FatalError { .. } => LogSeverity::Error,
        SupervisionEvent::StateChanged { .. } => LogSeverity::Debug,
        SupervisionEvent::BufferingProgress { .. } => LogSeverity::Info,
        SupervisionEvent::LatencyUpdated => LogSeverity::Info,
        SupervisionEvent::StreamStatus { .. } => LogSeverity::Debug,
        SupervisionEvent::DurationChanged => LogSeverity::Info,
        SupervisionEvent::ClockLost => LogSeverity::Warn,
        SupervisionEvent::Unclassified { .. } => LogSeverity::Debug,
    }
}

/// The severity at which to log a classified event.
pub fn event_severity(e: &SupervisionEvent) -> (s: LogSeverity)
    ensures
        s == event_severity_spec(*e),
{
    match e {
        SupervisionEvent::EndOfStream => LogSeverity::Info,
        SupervisionEvent::FatalError { .. } => LogSeverity::Error,
        SupervisionEvent::StateChanged { .. } => LogSeverity::Debug,
        SupervisionEvent::BufferingProgress { .. } => LogSeverity::Info,
        SupervisionEvent::LatencyUpdated => LogSeverity::Info,
        SupervisionEvent::StreamStatus { .. } => LogSeverity::Debug,
        SupervisionEvent::DurationChanged => LogSeverity::Info,
        SupervisionEvent::ClockLost => LogSeverity::Warn,
        SupervisionEvent::Unclassified { .. } => LogSeverity::Debug,
    }
}

/// Classification is total and shape-faithful: each raw shape yields the one
/// matching variant, and only it; unknown shapes always yield `Unclassified`.
pub proof fn lemma_classify_total(raw: RawEvent, pipeline_root_id: u64)
    ensures
        classify_spec(raw, pipeline_root_id) is EndOfStream <==> raw is Eos,
        classify_spec(raw, pipeline_root_id) is FatalError <==> raw is Error,
        classify_spec(raw, pipeline_root_id) is StateChanged <==> raw is StateChanged,
        classify_spec(raw, pipeline_root_id) is BufferingProgress <==> raw is Buffering,
        classify_spec(raw, pipeline_root_id) is LatencyUpdated <==> raw is Latency,
        classify_spec(raw, pipeline_root_id) is StreamStatus <==> raw is StreamStatus,
        classify_spec(raw, pipeline_root_id) is DurationChanged <==> raw is DurationChanged,
        classify_spec(raw, pipeline_root_id) is ClockLost <==> raw is ClockLost,
        classify_spec(raw, pipeline_root_id) is Unclassified <==> raw is Other,
{
}

} // verus!
