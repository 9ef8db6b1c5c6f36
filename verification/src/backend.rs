//! What passes between the gateway and a backend.
use crate::json::Json;
use crate::text::joined;
use crate::wire::{json_text, parsed_json, write_json};
use vstd::prelude::*;

verus! {

/// A call of a binding.
#[derive(Debug)]
pub struct BackendRequest {
    /// The arguments, as JSON text; empty where there are none.
    pub payload: Vec<u8>,
    /// Name and value of each header.
    pub headers: Vec<(String, String)>,
    pub request_id: String,
}

/// What a call is answered with.
#[derive(Debug, PartialEq, Eq)]
pub struct BackendResponse {
    /// The envelope, as JSON text.
    pub payload: Vec<u8>,
    /// Whether the payload was cut short.
    pub truncated: bool,
}

/// Why there is no answer.
#[derive(Debug, PartialEq, Eq)]
pub enum BackendError {
    /// A spec was refused.
    InvalidSpec { message: String },
    /// The answer could not be written.
    Transport { message: String },
    /// No binding of that name was registered.
    ProfileNotFound { backend_name: String },
}

/// What a [`BackendError`] says.
pub ghost enum ErrorView {
    InvalidSpec { message: Seq<char> },
    Transport { message: Seq<char> },
    ProfileNotFound { backend_name: Seq<char> },
}

impl View for BackendError {
    type V = ErrorView;

    open spec fn view(&self) -> ErrorView {
        match *self {
            BackendError::InvalidSpec { message } => ErrorView::InvalidSpec { message: message@ },
            BackendError::Transport { message } => ErrorView::Transport { message: message@ },
            BackendError::ProfileNotFound { backend_name } => ErrorView::ProfileNotFound {
                backend_name: backend_name@,
            },
        }
    }
}

/// What a response or an error says.
pub ghost enum AnswerView {
    Response { payload: Seq<u8>, truncated: bool },
    Error(ErrorView),
}

/// What an answer says.
pub open spec fn answer_view(answer: Result<BackendResponse, BackendError>) -> AnswerView {
    match answer {
        Ok(response) => AnswerView::Response {
            payload: response.payload@,
            truncated: response.truncated,
        },
        Err(error) => AnswerView::Error(error@),
    }
}

/// The answer, given the text that the envelope was written as or why it could not be.
pub open spec fn answer_of(text: Result<Vec<u8>, String>) -> AnswerView {
    match text {
        Ok(payload) => AnswerView::Response { payload: payload@, truncated: false },
        Err(words) => AnswerView::Error(
            ErrorView::Transport {
                message: "Email plugin envelope serialization failed: "@ + words@,
            },
        ),
    }
}

/// The answer, given the text that the envelope was written as or why it could not be.
pub fn answer_with(text: Result<Vec<u8>, String>) -> (answer: Result<BackendResponse, BackendError>)
    ensures
        answer_view(answer) == answer_of(text),
{
    match text {
        Ok(payload) => Ok(BackendResponse { payload, truncated: false }),
        Err(words) => Err(
            BackendError::Transport {
                message: joined("Email plugin envelope serialization failed: ", words.as_str()),
            },
        ),
    }
}

/// Answers with an envelope, whole. Reading the payload gives the envelope back, unless it is nested too
/// deeply to be read.
pub fn finalize_payload(envelope: &Json) -> (answer: Result<BackendResponse, BackendError>)
    ensures
        answer_view(answer) == (AnswerView::Response {
            payload: json_text(envelope@),
            truncated: false,
        }),
        envelope@.nests_within(127) ==> (answer matches Ok(response) && parsed_json(
            response.payload@,
        ) == Some(envelope@)),
{
    answer_with(write_json(envelope))
}

} // verus!
