//! The ways in which a run of the client fails.

use crate::json::{Json, JsonView};
use crate::text::join;
use vstd::prelude::*;

verus! {

/// A member of a response on which the client depends.
#[derive(Clone, Copy, Debug, PartialEq, Eq)]
pub enum Field {
    /// `id`, the identifier of a new transcription job.
    Id,
    /// `status`, the state of a job.
    Status,
    /// `error`, what the service says about a job that failed.
    Error,
    /// `response`, the list of answers.
    Response,
}

impl Field {
    /// The name of the member in a response.
    pub open spec fn key(self) -> Seq<char> {
        match self {
            Field::Id => "id"@,
            Field::Status => "status"@,
            Field::Error => "error"@,
            Field::Response => "response"@,
        }
    }

    /// The name of the member in a response.
    pub fn name(&self) -> (name: &'static str)
        ensures
            name@ == self.key(),
    {
        match self {
            Field::Id => "id",
            Field::Status => "status",
            Field::Error => "error",
            Field::Response => "response",
        }
    }
}

/// Why a run failed. Every failure ends the run; none is retried.
#[derive(Debug, PartialEq)]
pub enum ApiError {
    /// The request could not be sent or its reply not received. Holds what
    /// the transport said.
    Transport(String),
    /// The body of a reply is no JSON text. Holds what the parser said.
    MalformedResponse(String),
    /// A reply lacks a member in the form that the client needs. Holds the
    /// whole reply.
    MissingField { field: Field, document: Json },
    /// The service reported that the job failed. Holds the `error` member of
    /// its reply.
    ServiceReported(Json),
    /// The transcript could not be rendered or written. Holds what the
    /// storage said.
    Storage(String),
    /// A setting that the client needs is missing. Holds the message for the
    /// user.
    Configuration(String),
    /// The `response` member is no list of answers. Holds the whole reply.
    AnswerParse(Json),
    /// The questions are no JSON list of question records. Holds what is
    /// wrong with them.
    QuestionParse(String),
}

/// The mathematical value of an [`ApiError`].
pub enum ApiErrorView {
    Transport(Seq<char>),
    MalformedResponse(Seq<char>),
    MissingField { field: Field, document: JsonView },
    ServiceReported(JsonView),
    Storage(Seq<char>),
    Configuration(Seq<char>),
    AnswerParse(JsonView),
    QuestionParse(Seq<char>),
}

impl View for ApiError {
    type V = ApiErrorView;

    open spec fn view(&self) -> ApiErrorView {
        match self {
            ApiError::Transport(detail) => ApiErrorView::Transport(detail@),
            ApiError::MalformedResponse(detail) => ApiErrorView::MalformedResponse(detail@),
            ApiError::MissingField { field, document } => ApiErrorView::MissingField {
                field: *field,
                document: document@,
            },
            ApiError::ServiceReported(report) => ApiErrorView::ServiceReported(report@),
            ApiError::Storage(detail) => ApiErrorView::Storage(detail@),
            ApiError::Configuration(message) => ApiErrorView::Configuration(message@),
            ApiError::AnswerParse(document) => ApiErrorView::AnswerParse(document@),
            ApiError::QuestionParse(detail) => ApiErrorView::QuestionParse(detail@),
        }
    }
}

/// The message for a setting that is not set: its name and ` not set.`.
pub open spec fn missing_setting(name: Seq<char>) -> Seq<char> {
    name + " not set."@
}

/// The value of the setting `name`, or the error that it is not set.
pub fn require_setting<'a>(name: &str, value: Option<&'a str>) -> (outcome: Result<
    &'a str,
    ApiError,
>)
    ensures
        match value {
            Some(text) => outcome == Ok::<&str, ApiError>(text),
            None => outcome matches Err(error) && error@ == ApiErrorView::Configuration(
                missing_setting(name@),
            ),
        },
{
    match value {
        Some(text) => Ok(text),
        None => Err(ApiError::Configuration(join(name, " not set."))),
    }
}

} // verus!
