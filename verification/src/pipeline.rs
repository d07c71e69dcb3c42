//! The work on one file, step by step: find the schema the file declares,
//! have it compiled, hold the file against it.

use crate::decimal::{signed_decimal, write_signed_decimal};
use crate::duration::Duration;
use crate::error::{LibXml2Error, ValidationError};
use crate::libxml2::ValidationResult;
use crate::schema_loader::SchemaReference;
use crate::text::{concat2, string_of};
use crate::validator::FileValidationResult;
use vstd::prelude::*;

verus! {

/// How far the work on a file has come.
#[derive(Debug, PartialEq, Eq)]
pub enum FileState {
    /// Nothing has been done yet.
    Start,
    /// The file is being scanned for the schema it declares.
    Extracting,
    /// The schema `url` is being compiled, or waited for.
    Resolving { url: String },
    /// The engine holds the file against the schema `url`.
    Validating { url: String },
    /// The file has its result.
    Finished,
}

/// What came back from the worker that ran the engine.
#[derive(Debug, PartialEq, Eq)]
pub enum EngineReport {
    /// The engine gave a verdict.
    Verdict(ValidationResult),
    /// The engine could not be run on the file.
    Failed(LibXml2Error),
    /// The worker did not come back; the text says why.
    Lost(String),
}

/// What the pipeline is told.
#[derive(Debug, PartialEq, Eq)]
pub enum FileEvent {
    /// The work is to begin.
    Begin,
    /// The scan ended: with the references the file declares, or a failure.
    Extracted(Result<Vec<SchemaReference>, ValidationError>),
    /// The compiled schema is there, or could not be had.
    Resolved(Result<(), ValidationError>),
    /// The engine's worker ended.
    Validated(EngineReport),
    /// The time allowed for the file is over.
    TimedOut,
}

/// What the pipeline asks for next.
#[derive(Debug, PartialEq, Eq)]
pub enum FileAction {
    /// Read the file and scan its lines for schema declarations.
    Extract,
    /// Have the schema that `reference` names compiled.
    Resolve { reference: SchemaReference },
    /// Run the engine on the file, against the compiled schema `url`.
    Validate { url: String },
    /// The file has its result.
    Finish(FileValidationResult),
}

/// The reason given for a file that declares no schema.
pub open spec fn no_schema_reason() -> Seq<char> {
    "no schema URL"@
}

/// The message for a file whose time ran out.
pub open spec fn timeout_message() -> Seq<char> {
    "validation timeout"@
}

/// Whether `event` is what `state` waits for. The end of the allowed time
/// may come in any state but the last.
pub open spec fn expected(state: FileState, event: FileEvent) -> bool {
    match (state, event) {
        (FileState::Finished, _) => false,
        (_, FileEvent::TimedOut) => true,
        (FileState::Start, FileEvent::Begin) => true,
        (FileState::Extracting, FileEvent::Extracted(_)) => true,
        (FileState::Resolving { .. }, FileEvent::Resolved(_)) => true,
        (FileState::Validating { .. }, FileEvent::Validated(_)) => true,
        _ => false,
    }
}

/// Whether `result` is what the engine's report on the file `path`, held
/// against the schema `url`, comes to after the time `took`.
pub open spec fn settles(
    result: FileValidationResult,
    report: EngineReport,
    path: Seq<char>,
    url: Seq<char>,
    took: Duration,
) -> bool {
    match report {
        EngineReport::Verdict(ValidationResult::Valid) => result.reports_valid(path, url, took),
        EngineReport::Verdict(ValidationResult::Invalid { error_count, errors }) =>
            result.reports_invalid(path, url, error_count, errors@, took),
        EngineReport::Verdict(ValidationResult::InternalError { code }) => result.reports_error(
            path,
            "LibXML2 internal error: "@ + ("Internal error code: "@ + signed_decimal(code as int)),
            took,
        ),
        EngineReport::Failed(e) => result.reports_error(
            path,
            "LibXML2 internal error: "@ + e.display(),
            took,
        ),
        EngineReport::Lost(why) => result.reports_error(
            path,
            "Concurrent operation error: "@ + ("Join error: "@ + why@),
            took,
        ),
    }
}

/// The result that the engine's report on the file `path` comes to.
pub fn settle(report: EngineReport, path: &str, url: String, took: Duration) -> (r:
    FileValidationResult)
    ensures
        settles(r, report, path@, url@, took),
        r.well_formed(),
{
    match report {
        EngineReport::Verdict(verdict) => match verdict {
            ValidationResult::Valid => FileValidationResult::valid(path.to_owned(), url, took),
            ValidationResult::Invalid { error_count, errors } => FileValidationResult::invalid(
                path.to_owned(),
                url,
                error_count,
                took,
                errors,
            ),
            ValidationResult::InternalError { code } => {
                let number = string_of(&write_signed_decimal(code as i64));
                FileValidationResult::error(
                    path.to_owned(),
                    ValidationError::LibXml2Internal {
                        details: concat2("Internal error code: ", number.as_str()),
                    },
                    took,
                )
            },
        },
        EngineReport::Failed(e) => FileValidationResult::error(
            path.to_owned(),
            ValidationError::from(e),
            took,
        ),
        EngineReport::Lost(why) => FileValidationResult::error(
            path.to_owned(),
            ValidationError::Concurrency { details: concat2("Join error: ", why.as_str()) },
            took,
        ),
    }
}

/// Whether `next` and `action` are the pipeline's answer to `event` in the
/// state `state`, for the file `path` that has taken `elapsed` so far and
/// may take `timeout`.
pub open spec fn file_result(
    path: Seq<char>,
    state: FileState,
    event: FileEvent,
    elapsed: Duration,
    timeout: Duration,
    next: FileState,
    action: FileAction,
) -> bool {
    if !expected(state, event) {
        &&& next is Finished
        &&& action matches FileAction::Finish(result)
        &&& result.path@ == path
        &&& result.status is Error
    } else {
        match (state, event) {
            (_, FileEvent::TimedOut) => {
                &&& next is Finished
                &&& action matches FileAction::Finish(result)
                &&& result.reports_error(path, timeout_message(), timeout)
            },
            (_, FileEvent::Begin) => {
                &&& next is Extracting
                &&& action is Extract
            },
            (_, FileEvent::Extracted(Ok(refs))) => if refs@.len() == 0 {
                &&& next is Finished
                &&& action matches FileAction::Finish(result)
                &&& result.reports_skip(path, no_schema_reason(), elapsed)
            } else {
                &&& next matches FileState::Resolving { url }
                &&& url@ == refs@[0].url@
                &&& action == (FileAction::Resolve { reference: refs@[0] })
            },
            (_, FileEvent::Extracted(Err(e))) => {
                &&& next is Finished
                &&& action matches FileAction::Finish(result)
                &&& if e is SchemaUrlNotFound {
                    result.reports_skip(path, no_schema_reason(), elapsed)
                } else {
                    result.reports_error(path, e.display(), elapsed)
                }
            },
            (FileState::Resolving { url }, FileEvent::Resolved(Ok(_))) => {
                &&& next matches FileState::Validating { url: kept }
                &&& kept@ == url@
                &&& action matches FileAction::Validate { url: asked }
                &&& asked@ == url@
            },
            (_, FileEvent::Resolved(Err(e))) => {
                &&& next is Finished
                &&& action matches FileAction::Finish(result)
                &&& result.reports_error(path, e.display(), elapsed)
            },
            (FileState::Validating { url }, FileEvent::Validated(report)) => {
                &&& next is Finished
                &&& action matches FileAction::Finish(result)
                &&& settles(result, report, path, url@, elapsed)
            },
            // The state waits for no other event.
            _ => true,
        }
    }
}

/// One step of the work on the file `path`, which has taken `elapsed` so
/// far and may take `timeout`.
///
/// A file that declares no schema is skipped, for the reason
/// `no schema URL`; of several declarations the first counts. A scan or a
/// schema that fails gives the file the result `Error` with the text of the
/// failure. What the engine reports becomes the result as `settle` says. A
/// file whose time is over gets the result `Error` with the message
/// `validation timeout` and the allowed time as its duration, whatever was
/// under way. An event that the state did not wait for also ends the work,
/// with the failure `Concurrency`.
pub fn file_step(
    path: &str,
    state: FileState,
    event: FileEvent,
    elapsed: Duration,
    timeout: Duration,
) -> (r: (FileState, FileAction))
    ensures
        file_result(path@, state, event, elapsed, timeout, r.0, r.1),
        r.1 is Finish <==> r.0 is Finished,
        r.1 matches FileAction::Finish(result) ==> result.well_formed() && result.path@ == path@,
{
    match (state, event) {
        (FileState::Finished, _) => (
            FileState::Finished,
            FileAction::Finish(unexpected_event(path, elapsed)),
        ),
        (_, FileEvent::TimedOut) => {
            let message = "validation timeout".to_owned();
            let mut error_details: Vec<String> = Vec::new();
            error_details.push(message.clone());
            let result = FileValidationResult {
                path: path.to_owned(),
                status: crate::validator::ValidationStatus::Error { message },
                schema_url: None,
                duration: timeout,
                error_details,
            };
            assert(result.details() =~= seq![timeout_message()]);
            (FileState::Finished, FileAction::Finish(result))
        },
        (FileState::Start, FileEvent::Begin) => (FileState::Extracting, FileAction::Extract),
        (FileState::Extracting, FileEvent::Extracted(answer)) => match answer {
            Ok(mut refs) => {
                if refs.len() == 0 {
                    (
                        FileState::Finished,
                        FileAction::Finish(
                            FileValidationResult::skipped(
                                path.to_owned(),
                                "no schema URL".to_owned(),
                                elapsed,
                            ),
                        ),
                    )
                } else {
                    let ghost first = refs@[0];
                    let reference = refs.swap_remove(0);
                    assert(reference == first);
                    (
                        FileState::Resolving { url: reference.url.clone() },
                        FileAction::Resolve { reference },
                    )
                }
            },
            Err(e) => match e {
                ValidationError::SchemaUrlNotFound { .. } => (
                    FileState::Finished,
                    FileAction::Finish(
                        FileValidationResult::skipped(
                            path.to_owned(),
                            "no schema URL".to_owned(),
                            elapsed,
                        ),
                    ),
                ),
                other => (
                    FileState::Finished,
                    FileAction::Finish(FileValidationResult::error(path.to_owned(), other, elapsed)),
                ),
            },
        },
        (FileState::Resolving { url }, FileEvent::Resolved(answer)) => match answer {
            Ok(_) => (FileState::Validating { url: url.clone() }, FileAction::Validate { url }),
            Err(e) => (
                FileState::Finished,
                FileAction::Finish(FileValidationResult::error(path.to_owned(), e, elapsed)),
            ),
        },
        (FileState::Validating { url }, FileEvent::Validated(report)) => (
            FileState::Finished,
            FileAction::Finish(settle(report, path, url, elapsed)),
        ),
        _ => (FileState::Finished, FileAction::Finish(unexpected_event(path, elapsed))),
    }
}

/// The result for a file whose pipeline was told what it did not wait for.
fn unexpected_event(path: &str, elapsed: Duration) -> (r: FileValidationResult)
    ensures
        r.well_formed(),
        r.path@ == path@,
        r.status is Error,
{
    FileValidationResult::error(
        path.to_owned(),
        ValidationError::Concurrency {
            details: "the file pipeline was told what it did not ask for".to_owned(),
        },
        elapsed,
    )
}

// ---------------------------------------------------------------------------
// The course of the work on a file
// ---------------------------------------------------------------------------

/// How far along the work on a file the state `state` lies.
pub open spec fn stage(state: FileState) -> nat {
    match state {
        FileState::Start => 0,
        FileState::Extracting => 1,
        FileState::Resolving { .. } => 2,
        FileState::Validating { .. } => 3,
        FileState::Finished => 4,
    }
}

/// Whether step `i` of a course is the pipeline's answer: in the state
/// `states[i]` it was told `events[i]` after the time `spans[i]`, went on to
/// the state that follows in `states`, and asked for `actions[i]`.
pub open spec fn course_step(
    path: Seq<char>,
    timeout: Duration,
    states: Seq<FileState>,
    events: Seq<FileEvent>,
    spans: Seq<Duration>,
    actions: Seq<FileAction>,
    i: int,
) -> bool {
    file_result(path, states[i], events[i], spans[i], timeout, states[i + 1], actions[i])
}

/// Whether `states`, `events`, `spans` and `actions` are a course of the
/// work on the file `path`: it begins at the start, and every step is the
/// pipeline's answer to what it was told.
pub open spec fn is_course(
    path: Seq<char>,
    timeout: Duration,
    states: Seq<FileState>,
    events: Seq<FileEvent>,
    spans: Seq<Duration>,
    actions: Seq<FileAction>,
) -> bool {
    &&& states.len() == events.len() + 1
    &&& spans.len() == events.len()
    &&& actions.len() == events.len()
    &&& states[0] is Start
    &&& forall|i: int|
        0 <= i < events.len() ==> #[trigger] course_step(
            path,
            timeout,
            states,
            events,
            spans,
            actions,
            i,
        )
}

/// A step of the pipeline never goes back; it asks for the scan only on
/// leaving the start, for the schema only on leaving the scan, and for the
/// engine only on leaving the wait for the schema.
pub proof fn lemma_step_advances(
    path: Seq<char>,
    state: FileState,
    event: FileEvent,
    elapsed: Duration,
    timeout: Duration,
    next: FileState,
    action: FileAction,
)
    requires
        file_result(path, state, event, elapsed, timeout, next, action),
    ensures
        stage(state) <= stage(next),
        action is Extract ==> state is Start && next is Extracting,
        action is Resolve ==> state is Extracting && next is Resolving,
        action is Validate ==> state is Resolving && next is Validating,
{
}

/// In a course the states never go back.
pub proof fn lemma_course_advances(
    path: Seq<char>,
    timeout: Duration,
    states: Seq<FileState>,
    events: Seq<FileEvent>,
    spans: Seq<Duration>,
    actions: Seq<FileAction>,
    i: int,
    j: int,
)
    requires
        is_course(path, timeout, states, events, spans, actions),
        0 <= i <= j <= events.len(),
    ensures
        stage(states[i]) <= stage(states[j]),
    decreases j - i,
{
    if i < j {
        lemma_course_advances(path, timeout, states, events, spans, actions, i, j - 1);
        assert(course_step(path, timeout, states, events, spans, actions, j - 1));
        lemma_step_advances(
            path,
            states[j - 1],
            events[j - 1],
            spans[j - 1],
            timeout,
            states[j],
            actions[j - 1],
        );
    }
}

/// One call of the engine for a file: in the course of the work on a file
/// the engine is asked for at most once, and so are the scan and the
/// schema.
pub proof fn lemma_each_asked_once(
    path: Seq<char>,
    timeout: Duration,
    states: Seq<FileState>,
    events: Seq<FileEvent>,
    spans: Seq<Duration>,
    actions: Seq<FileAction>,
    i: int,
    j: int,
)
    requires
        is_course(path, timeout, states, events, spans, actions),
        0 <= i < events.len(),
        0 <= j < events.len(),
        (actions[i] is Validate && actions[j] is Validate) || (actions[i] is Resolve
            && actions[j] is Resolve) || (actions[i] is Extract && actions[j] is Extract),
    ensures
        i == j,
{
    assert(course_step(path, timeout, states, events, spans, actions, i));
    assert(course_step(path, timeout, states, events, spans, actions, j));
    lemma_step_advances(path, states[i], events[i], spans[i], timeout, states[i + 1], actions[i]);
    lemma_step_advances(path, states[j], events[j], spans[j], timeout, states[j + 1], actions[j]);
    if i < j {
        lemma_course_advances(path, timeout, states, events, spans, actions, i + 1, j);
    }
    if j < i {
        lemma_course_advances(path, timeout, states, events, spans, actions, j + 1, i);
    }
}

/// The engine reports only where it was asked: a course comes to wait for
/// the engine only after one of its steps asked for the engine.
pub proof fn lemma_verdict_was_asked_for(
    path: Seq<char>,
    timeout: Duration,
    states: Seq<FileState>,
    events: Seq<FileEvent>,
    spans: Seq<Duration>,
    actions: Seq<FileAction>,
    i: int,
)
    requires
        is_course(path, timeout, states, events, spans, actions),
        0 <= i < events.len(),
        states[i] is Validating,
    ensures
        exists|k: int| 0 <= k < i && (#[trigger] actions[k]) is Validate,
{
    if i == 0 {
        assert(states[0] is Start);
    } else {
        assert(course_step(path, timeout, states, events, spans, actions, i - 1));
        if states[i - 1] is Validating {
            // A state that waits for the engine is left for the end only.
            assert(states[i] is Finished);
        } else {
            assert(actions[i - 1] is Validate);
        }
    }
}

/// Whether two states are the same but for how their texts are held: they
/// lie equally far along, and wait for the same schema where they wait for
/// one.
pub open spec fn same_state(a: FileState, b: FileState) -> bool {
    match (a, b) {
        (FileState::Resolving { url: u }, FileState::Resolving { url: v }) => u@ == v@,
        (FileState::Validating { url: u }, FileState::Validating { url: v }) => u@ == v@,
        _ => stage(a) == stage(b) && !(a is Resolving) && !(a is Validating),
    }
}

/// Whether two actions ask for the same: the same kind of work on the same
/// schema, or the end of the work with a result of the same status for the
/// same file.
pub open spec fn same_in_effect(a: FileAction, b: FileAction) -> bool {
    match (a, b) {
        (FileAction::Extract, FileAction::Extract) => true,
        (FileAction::Resolve { reference: x }, FileAction::Resolve { reference: y }) => x.url@
            == y.url@ && x.source_type@ == y.source_type@,
        (FileAction::Validate { url: u }, FileAction::Validate { url: v }) => u@ == v@,
        (FileAction::Finish(r), FileAction::Finish(q)) => r.path@ == q.path@ && r.status.kind()
            == q.status.kind(),
        _ => false,
    }
}

/// The same event, the same answer: what the pipeline answers depends on
/// nothing but the file, the state and what it is told. Two answers to one
/// event go on to the same state and ask for the same; where they end the
/// work, they give the file the same status.
pub proof fn lemma_same_event_same_answer(
    path: Seq<char>,
    event: FileEvent,
    elapsed: Duration,
    timeout: Duration,
    state_a: FileState,
    next_a: FileState,
    action_a: FileAction,
    state_b: FileState,
    next_b: FileState,
    action_b: FileAction,
)
    requires
        same_state(state_a, state_b),
        file_result(path, state_a, event, elapsed, timeout, next_a, action_a),
        file_result(path, state_b, event, elapsed, timeout, next_b, action_b),
    ensures
        same_state(next_a, next_b),
        same_in_effect(action_a, action_b),
{
}

/// Two runs, one outcome: two courses of the work on a file that are told
/// the same events, step for step, go through the same states and ask for
/// the same; so where they end, they give the file the same status.
pub proof fn lemma_same_events_same_course(
    path: Seq<char>,
    timeout: Duration,
    events: Seq<FileEvent>,
    spans: Seq<Duration>,
    states_a: Seq<FileState>,
    actions_a: Seq<FileAction>,
    states_b: Seq<FileState>,
    actions_b: Seq<FileAction>,
    i: int,
)
    requires
        is_course(path, timeout, states_a, events, spans, actions_a),
        is_course(path, timeout, states_b, events, spans, actions_b),
        0 <= i < events.len(),
    ensures
        same_state(states_a[i], states_b[i]),
        same_state(states_a[i + 1], states_b[i + 1]),
        same_in_effect(actions_a[i], actions_b[i]),
    decreases i,
{
    if i > 0 {
        lemma_same_events_same_course(
            path,
            timeout,
            events,
            spans,
            states_a,
            actions_a,
            states_b,
            actions_b,
            i - 1,
        );
    }
    assert(course_step(path, timeout, states_a, events, spans, actions_a, i));
    assert(course_step(path, timeout, states_b, events, spans, actions_b, i));
    lemma_same_event_same_answer(
        path,
        events[i],
        spans[i],
        timeout,
        states_a[i],
        states_a[i + 1],
        actions_a[i],
        states_b[i],
        states_b[i + 1],
        actions_b[i],
    );
}

} // verus!
