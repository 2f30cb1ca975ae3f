//! Errors of the analytics service and how they are answered.
use crate::text::prefixed;
use vstd::prelude::*;

verus! {

/// The body of an error response.
#[derive(Debug, Clone)]
pub struct ErrorOutput {
    pub error: String,
}

impl ErrorOutput {
    /// An error body with the given text.
    pub fn new(error: String) -> (out: Self)
        ensures
            out.error == error,
    {
        Self { error }
    }
}

/// What can go wrong while an event is taken in. A fault of a collaborator
/// is held by its text.
#[derive(Debug, Clone)]
pub enum AppError {
    ClickhouseError(String),
    SqlxError(String),
    IoError(String),
    AnyError(String),
    ResponseError(String),
    MissingEventContext,
    MissingEventData,
    MissingSystemInfo,
}

impl AppError {
    /// The HTTP status that answers the error: 400 where the event lacks a
    /// part, 500 for everything else.
    pub open spec fn spec_status(self) -> u16 {
        match self {
            AppError::MissingEventContext | AppError::MissingEventData | AppError::MissingSystemInfo => 400,
            _ => 500,
        }
    }

    /// The error in words.
    pub open spec fn spec_message(self) -> Seq<char> {
        match self {
            AppError::ClickhouseError(e) => "clickhouse error: "@ + e@,
            AppError::SqlxError(e) => "sqlx error: "@ + e@,
            AppError::IoError(e) => "io error: "@ + e@,
            AppError::AnyError(e) => "generic error: "@ + e@,
            AppError::ResponseError(e) => "protobuf error: "@ + e@,
            AppError::MissingEventContext => "missing event context"@,
            AppError::MissingEventData => "missing event data"@,
            AppError::MissingSystemInfo => "missing system info"@,
        }
    }

    /// The HTTP status that answers the error.
    pub fn status(&self) -> (code: u16)
        ensures
            code == self.spec_status(),
    {
        match self {
            AppError::MissingEventContext | AppError::MissingEventData | AppError::MissingSystemInfo => 400,
            _ => 500,
        }
    }

    /// The error in words.
    pub fn message(&self) -> (text: String)
        ensures
            text@ == self.spec_message(),
    {
        match self {
            AppError::ClickhouseError(e) => prefixed("clickhouse error: ", e.as_str()),
            AppError::SqlxError(e) => prefixed("sqlx error: ", e.as_str()),
            AppError::IoError(e) => prefixed("io error: ", e.as_str()),
            AppError::AnyError(e) => prefixed("generic error: ", e.as_str()),
            AppError::ResponseError(e) => prefixed("protobuf error: ", e.as_str()),
            AppError::MissingEventContext => "missing event context".to_owned(),
            AppError::MissingEventData => "missing event data".to_owned(),
            AppError::MissingSystemInfo => "missing system info".to_owned(),
        }
    }

    /// The status and body of the response that answers the error.
    pub fn response(&self) -> (answer: (u16, ErrorOutput))
        ensures
            answer.0 == self.spec_status(),
            answer.1.error@ == self.spec_message(),
    {
        (self.status(), ErrorOutput::new(self.message()))
    }
}

} // verus!
