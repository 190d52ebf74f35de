//! The per-path outcome of the transcription port, and the typed event that a
//! job unit derives from it. The mapping is a pure function of the path and
//! the outcome alone, which is what keeps concurrent jobs independent.

use vstd::prelude::*;
use vstd::string::StringExecFns;

verus! {

/// What the transcription port produced for one path: the recognized text,
/// or a description of the failure.
#[derive(Debug)]
pub enum TranscriptionOutcome {
    Text(String),
    Failure(String),
}

/// The one event a job unit emits for its path.
#[derive(Debug)]
pub enum OCREvent {
    Success { path: String, ocr_text: String },
    Error { path: String, message: String },
}

/// Mathematical model of a `TranscriptionOutcome`.
pub enum OutcomeModel {
    Text(Seq<char>),
    Failure(Seq<char>),
}

/// Mathematical model of an `OCREvent`.
pub enum EventModel {
    Success { path: Seq<char>, ocr_text: Seq<char> },
    Error { path: Seq<char>, message: Seq<char> },
}

impl View for TranscriptionOutcome {
    type V = OutcomeModel;

    open spec fn view(&self) -> OutcomeModel {
        match self {
            TranscriptionOutcome::Text(t) => OutcomeModel::Text(t@),
            TranscriptionOutcome::Failure(d) => OutcomeModel::Failure(d@),
        }
    }
}

impl View for OCREvent {
    type V = EventModel;

    open spec fn view(&self) -> EventModel {
        match self {
            OCREvent::Success { path, ocr_text } => EventModel::Success {
                path: path@,
                ocr_text: ocr_text@,
            },
            OCREvent::Error { path, message } => EventModel::Error {
                path: path@,
                message: message@,
            },
        }
    }
}

/// The correlation key carried by an event, whichever variant it is.
pub open spec fn event_path(e: EventModel) -> Seq<char> {
    match e {
        EventModel::Success { path, .. } => path,
        EventModel::Error { path, .. } => path,
    }
}

/// The diagnostic message attached to a failed path.
pub open spec fn error_message_of(path: Seq<char>, desc: Seq<char>) -> Seq<char> {
    "transcription failed for "@ + path + ": "@ + desc
}

/// The event derived for one path from its outcome. Events for distinct
/// paths depend on nothing but that path's own outcome.
pub open spec fn event_of(path: Seq<char>, outcome: OutcomeModel) -> EventModel {
    match outcome {
        OutcomeModel::Text(t) => EventModel::Success { path: path, ocr_text: t },
        OutcomeModel::Failure(d) => EventModel::Error {
            path: path,
            message: error_message_of(path, d),
        },
    }
}

/// Builds the diagnostic message for a failed path.
pub fn error_message(path: &str, desc: &str) -> (msg: String)
    ensures
        msg@ == error_message_of(path@, desc@),
{
    let mut msg = String::from_str("transcription failed for ");
    msg.append(path);
    msg.append(": ");
    msg.append(desc);
    msg
}

/// Maps one path's outcome to its event: recognized text becomes `Success`,
/// a failure becomes `Error` with a diagnostic message. The result is a
/// function of the two arguments alone, so the mapping is deterministic.
pub fn event_for(path: &String, outcome: &TranscriptionOutcome) -> (e: OCREvent)
    ensures
        e@ == event_of(path@, outcome@),
{
    match outcome {
        TranscriptionOutcome::Text(t) => OCREvent::Success {
            path: path.clone(),
            ocr_text: t.clone(),
        },
        TranscriptionOutcome::Failure(d) => {
            let message = error_message(path.as_str(), d.as_str());
            OCREvent::Error { path: path.clone(), message }
        },
    }
}

} // verus!
