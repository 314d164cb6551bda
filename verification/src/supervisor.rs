//! The supervisor loop's decision core: per-event processing over the
//! stream of classified events, the outcome it reports, and the diagnostic
//! enumeration of stages.

use vstd::prelude::*;
use crate::events::{classify, classify_spec, PipelineState, RawEvent, SupervisionEvent};
use crate::policy::{
    decide, decide_spec, is_terminal, is_terminal_spec, RecoveryAction, SupervisorState,
    TerminationReason,
};

verus! {

/// What the engine answers to a requested state transition.
#[derive(Clone, Debug, PartialEq, Eq)]
pub enum TransitionOutcome {
    /// The transition completed.
    Success,
    /// The transition continues asynchronously; a later state-change event
    /// confirms it.
    Async,
    /// The engine refused the transition.
    Failure { engine_error: String },
}

/// What the supervisor reports when it is done.
#[derive(Clone, Copy, Debug, PartialEq, Eq, Structural)]
pub struct SupervisionOutcome {
    pub reason: TerminationReason,
    /// Whether end of stream was actually observed, as opposed to exit via
    /// error or exhaustion of the event source.
    pub eos_observed: bool,
}

/// One stage of the pipeline as probed for diagnostics: its path and the
/// state it was in.
#[derive(Clone, Debug, PartialEq, Eq)]
pub struct StageSnapshot {
    pub path: String,
    pub state: PipelineState,
}

/// One diagnostic log record about a stage.
#[derive(Clone, Debug, PartialEq, Eq)]
pub struct DiagnosticRecord {
    pub stage_path: String,
    pub stage_state: PipelineState,
}

/// Produce one diagnostic record per probed stage: every stage exactly
/// once, in the order the probe handed them over.
pub fn enumerate_stage_diagnostics(stages: &Vec<StageSnapshot>) -> (r: Vec<DiagnosticRecord>)
    ensures
        r@.len() == stages@.len(),
        forall|i: int|
            0 <= i < stages@.len() ==> r@[i].stage_path@ == stages@[i].path@ && r@[i].stage_state
                == stages@[i].state,
{
    let mut r: Vec<DiagnosticRecord> = Vec::new();
    let mut i: usize = 0;
    while i < stages.len()
        invariant
            i <= stages@.len(),
            r@.len() == i,
            forall|j: int|
                0 <= j < i ==> r@[j].stage_path@ == stages@[j].path@ && r@[j].stage_state
                    == stages@[j].state,
        decreases stages@.len() - i,
    {
        r.push(
            DiagnosticRecord {
                stage_path: stages[i].path.clone(),
                stage_state: stages[i].state,
            },
        );
        i = i + 1;
    }
    r
}

/// Whether a transition answer must abort the loop: a refusal is fatal,
/// except during the best-effort final state change of shutdown.
pub fn transition_requires_abort(outcome: &TransitionOutcome, s: SupervisorState) -> (b: bool)
    ensures
        b == (*outcome is Failure && !(s is ShuttingDown)),
{
    match outcome {
        TransitionOutcome::Failure { .. } => match s {
            SupervisorState::ShuttingDown => false,
            _ => true,
        },
        _ => false,
    }
}

/// The state the decided action asks the engine to enter, if any.
pub open spec fn requested_target(a: RecoveryAction) -> Option<PipelineState> {
    match a {
        RecoveryAction::RequestState(t) => Option::Some(t),
        _ => Option::None,
    }
}

/// Process a sequence of classified events from state `s`: the transition
/// requests the policy issues, in order, and the state the supervisor is
/// left in. Once a terminal state is reached the loop has exited and the
/// rest of the sequence is not processed.
pub open spec fn process_spec(events: Seq<SupervisionEvent>, s: SupervisorState) -> (Seq<
    PipelineState,
>, SupervisorState)
    decreases events.len(),
{
    if events.len() == 0 {
        (Seq::<PipelineState>::empty(), s)
    } else if is_terminal_spec(s) {
        (Seq::<PipelineState>::empty(), s)
    } else {
        let step = decide_spec(events[0], s);
        let head = match requested_target(step.0) {
            Option::Some(t) => seq![t],
            Option::None => Seq::<PipelineState>::empty(),
        };
        let rest = process_spec(events.drop_first(), step.1);
        (head + rest.0, rest.1)
    }
}

/// The classified view of a raw event sequence.
pub open spec fn classified_spec(raws: Seq<RawEvent>, pipeline_root_id: u64) -> Seq<
    SupervisionEvent,
> {
    raws.map_values(|raw: RawEvent| classify_spec(raw, pipeline_root_id))
}

/// On a sequence of events none of which is terminal, the supervisor never
/// terminates on its own: from a live state it is still live after the
/// whole sequence.
pub proof fn lemma_no_spontaneous_termination(events: Seq<SupervisionEvent>, s: SupervisorState)
    requires
        !is_terminal_spec(s),
        forall|i: int|
            0 <= i < events.len() ==> !(#[trigger] events[i] is EndOfStream) && !(events[i]
                is FatalError),
    ensures
        !is_terminal_spec(process_spec(events, s).1),
    decreases events.len(),
{
    if events.len() > 0 {
        let step = decide_spec(events[0], s);
        crate::policy::lemma_decide_termination(events[0], s);
        assert(forall|i: int|
            0 <= i < events.drop_first().len() ==> !(#[trigger] events.drop_first()[i]
                is EndOfStream) && !(events.drop_first()[i] is FatalError)) by {
            assert(forall|i: int|
                0 <= i < events.drop_first().len() ==> events.drop_first()[i] == events[i + 1]);
        }
        lemma_no_spontaneous_termination(events.drop_first(), step.1);
    }
}

/// The policy never asks for the null state: cleanup is the loop's own
/// final step, not a policy decision.
pub proof fn lemma_policy_never_requests_null(events: Seq<SupervisionEvent>, s: SupervisorState)
    ensures
        forall|i: int|
            0 <= i < process_spec(events, s).0.len() ==> #[trigger] process_spec(events, s).0[i]
                != PipelineState::Null,
    decreases events.len(),
{
    if events.len() > 0 && !is_terminal_spec(s) {
        let step = decide_spec(events[0], s);
        lemma_policy_never_requests_null(events.drop_first(), step.1);
    }
}

/// Buffering completion is event-driven, not edge-triggered: a run of
/// buffering-complete events while already playing decides a resume request
/// for every one of them and leaves the supervisor playing.
pub proof fn lemma_buffering_complete_idempotent(events: Seq<SupervisionEvent>)
    requires
        forall|i: int|
            0 <= i < events.len() ==> #[trigger] events[i] == (SupervisionEvent::BufferingProgress {
                percent: 100,
            }),
    ensures
        process_spec(events, SupervisorState::Playing).1 == SupervisorState::Playing,
        process_spec(events, SupervisorState::Playing).0 == Seq::new(
            events.len(),
            |i: int| PipelineState::Playing,
        ),
    decreases events.len(),
{
    if events.len() > 0 {
        assert(forall|i: int|
            0 <= i < events.drop_first().len() ==> #[trigger] events.drop_first()[i] == (
            SupervisionEvent::BufferingProgress { percent: 100 })) by {
            assert(forall|i: int|
                0 <= i < events.drop_first().len() ==> events.drop_first()[i] == events[i + 1]);
        }
        lemma_buffering_complete_idempotent(events.drop_first());
        assert(process_spec(events, SupervisorState::Playing).0 =~= Seq::new(
            events.len(),
            |i: int| PipelineState::Playing,
        ));
    } else {
        assert(process_spec(events, SupervisorState::Playing).0 =~= Seq::new(
            events.len(),
            |i: int| PipelineState::Playing,
        ));
    }
}

/// The outcome the supervisor reports when its loop stops in state `sf`.
pub open spec fn outcome_spec(sf: SupervisorState) -> SupervisionOutcome {
    match sf {
        SupervisorState::Terminated { reason } => SupervisionOutcome {
            reason,
            eos_observed: reason == TerminationReason::EndOfStream,
        },
        _ => SupervisionOutcome {
            reason: TerminationReason::EventSourceClosed,
            eos_observed: false,
        },
    }
}

/// Every transition the supervisor requests over a full run, in order: the
/// initial transition to playing, the policy's requests, and the final
/// cleanup transition to the null state.
pub open spec fn run_requests_spec(raws: Seq<RawEvent>, pipeline_root_id: u64) -> Seq<
    PipelineState,
> {
    seq![PipelineState::Playing] + process_spec(
        classified_spec(raws, pipeline_root_id),
        SupervisorState::Starting,
    ).0 + seq![PipelineState::Null]
}

/// The outcome of a full run over a raw event sequence.
pub open spec fn run_outcome_spec(raws: Seq<RawEvent>, pipeline_root_id: u64) -> SupervisionOutcome {
    outcome_spec(
        process_spec(classified_spec(raws, pipeline_root_id), SupervisorState::Starting).1,
    )
}

/// A full run of the supervisor: every transition request it issued, in
/// order, and the outcome it reports.
pub struct SupervisionRun {
    pub requests: Vec<PipelineState>,
    pub outcome: SupervisionOutcome,
}

/// Run the supervisor over the whole sequence of raw events the source
/// yields before closing, starting from `Starting`: classify each event,
/// decide, record the requested transitions, and stop processing once a
/// terminal state is reached. The initial request for playing and the
/// unconditional final cleanup request for the null state are recorded
/// around the loop's own requests.
pub fn run_supervision(events: &Vec<RawEvent>, pipeline_root_id: u64) -> (r: SupervisionRun)
    ensures
        r.requests@ == run_requests_spec(events@, pipeline_root_id),
        r.outcome == run_outcome_spec(events@, pipeline_root_id),
{
    let ghost cs = classified_spec(events@, pipeline_root_id);
    let mut requests: Vec<PipelineState> = Vec::new();
    requests.push(PipelineState::Playing);
    let mut state = SupervisorState::Starting;
    let mut i: usize = 0;
    proof {
        assert(cs.skip(0) =~= cs);
    }
    while i < events.len()
        invariant
            i <= events@.len(),
            cs == classified_spec(events@, pipeline_root_id),
            cs.len() == events@.len(),
            !is_terminal_spec(state) ==> seq![PipelineState::Playing] + process_spec(
                cs,
                SupervisorState::Starting,
            ).0 == requests@ + process_spec(cs.skip(i as int), state).0,
            !is_terminal_spec(state) ==> process_spec(cs, SupervisorState::Starting).1
                == process_spec(cs.skip(i as int), state).1,
            is_terminal_spec(state) ==> seq![PipelineState::Playing] + process_spec(
                cs,
                SupervisorState::Starting,
            ).0 == requests@,
            is_terminal_spec(state) ==> process_spec(cs, SupervisorState::Starting).1 == state,
        decreases events@.len() - i,
    {
        if !is_terminal(state) {
            let ev = classify(&events[i], pipeline_root_id);
            proof {
                assert(cs[i as int] == classify_spec(events@[i as int], pipeline_root_id));
                assert(cs.skip(i as int)[0] == cs[i as int]);
                assert(cs.skip(i as int).drop_first() =~= cs.skip(i as int + 1));
            }
            let (action, next) = decide(&ev, state);
            let ghost head = match requested_target(action) {
                Option::Some(t) => seq![t],
                Option::None => Seq::<PipelineState>::empty(),
            };
            let ghost before = requests@;
            if let RecoveryAction::RequestState(target) = action {
                requests.push(target);
            }
            proof {
                assert(requests@ =~= before + head);
                assert(before + (head + process_spec(cs.skip(i as int + 1), next).0) =~= (before
                    + head) + process_spec(cs.skip(i as int + 1), next).0);
                if is_terminal_spec(next) {
                    assert(process_spec(cs.skip(i as int + 1), next).0
                        =~= Seq::<PipelineState>::empty());
                    assert((before + head) + Seq::<PipelineState>::empty() =~= before + head);
                }
            }
            state = next;
        }
        i = i + 1;
    }
    proof {
        if !is_terminal_spec(state) {
            assert(cs.skip(i as int) =~= Seq::<SupervisionEvent>::empty());
        }
    }
    requests.push(PipelineState::Null);
    let outcome = match state {
        SupervisorState::Terminated { reason } => SupervisionOutcome {
            reason,
            eos_observed: reason == TerminationReason::EndOfStream,
        },
        _ => SupervisionOutcome {
            reason: TerminationReason::EventSourceClosed,
            eos_observed: false,
        },
    };
    proof {
        assert(requests@ =~= run_requests_spec(events@, pipeline_root_id));
    }
    SupervisionRun { requests, outcome }
}

/// When the event source closes without a terminal event, the run records
/// exhaustion: reason event-source-closed, and end of stream not observed.
pub proof fn lemma_exhaustion_records_source_closed(raws: Seq<RawEvent>, pipeline_root_id: u64)
    requires
        forall|i: int|
            0 <= i < raws.len() ==> !(#[trigger] raws[i] is Eos) && !(raws[i] is Error),
    ensures
        run_outcome_spec(raws, pipeline_root_id) == (SupervisionOutcome {
            reason: TerminationReason::EventSourceClosed,
            eos_observed: false,
        }),
{
    let cs = classified_spec(raws, pipeline_root_id);
    assert forall|i: int|
        0 <= i < cs.len() implies !(#[trigger] cs[i] is EndOfStream) && !(cs[i]
        is FatalError) by {
        crate::events::lemma_classify_total(raws[i], pipeline_root_id);
    }
    lemma_no_spontaneous_termination(cs, SupervisorState::Starting);
}

/// On every exit path the final cleanup transition to the null state is
/// requested exactly once, as the very last request of the run.
pub proof fn lemma_final_cleanup_exactly_once(raws: Seq<RawEvent>, pipeline_root_id: u64)
    ensures
        run_requests_spec(raws, pipeline_root_id).len() >= 2,
        run_requests_spec(raws, pipeline_root_id).last() == PipelineState::Null,
        forall|i: int|
            0 <= i < run_requests_spec(raws, pipeline_root_id).len() - 1
                ==> #[trigger] run_requests_spec(raws, pipeline_root_id)[i]
                != PipelineState::Null,
{
    lemma_policy_never_requests_null(
        classified_spec(raws, pipeline_root_id),
        SupervisorState::Starting,
    );
}

} // verus!
