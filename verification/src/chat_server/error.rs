//! Errors of the chat service and how they are answered.
use crate::text::{decimal, decimal_text, prefixed};
use vstd::prelude::*;
use vstd::string::StringExecFns;

verus! {

/// The body of an error response.
#[derive(Debug, Clone)]
pub struct ErrorOutput {
    pub error: String,
}

impl ErrorOutput {
    /// An error body with the given text.
    pub fn new(error: String) -> (out: Self)
        ensures
            out.error == error,
    {
        Self { error }
    }
}

/// What can go wrong while a request is served. A fault of a collaborator
/// is held by its text.
#[derive(Debug, Clone)]
pub enum AppError {
    AnyError(String),
    EmailAleardyExists(String),
    CreateChatError(String),
    CreateAgentError(String),
    NotChatMemberError { user_id: u64, chat_id: u64 },
    UpdateAgentError(String),
    CreateMessageError(String),
    NotLoggedInError,
    ChatFileError(String),
    NotFound(String),
    IoError(String),
    SqlxError(String),
    Argon2Error(String),
    HttpHeaderError(String),
    AiAgentError(String),
}

impl AppError {
    /// The HTTP status that answers the error.
    pub open spec fn spec_status(self) -> u16 {
        match self {
            AppError::EmailAleardyExists(_) => 409,
            AppError::CreateChatError(_)
            | AppError::CreateMessageError(_)
            | AppError::ChatFileError(_)
            | AppError::CreateAgentError(_)
            | AppError::UpdateAgentError(_) => 400,
            AppError::NotChatMemberError { .. } => 403,
            AppError::NotFound(_) => 404,
            AppError::IoError(_) => 500,
            AppError::SqlxError(_) => 500,
            AppError::Argon2Error(_) => 422,
            AppError::AnyError(_) => 500,
            AppError::HttpHeaderError(_) => 422,
            AppError::AiAgentError(_) => 500,
            AppError::NotLoggedInError => 401,
        }
    }

    /// The error in words.
    pub open spec fn spec_message(self) -> Seq<char> {
        match self {
            AppError::AnyError(e) => "general error: "@ + e@,
            AppError::EmailAleardyExists(e) => "email already exists: "@ + e@,
            AppError::CreateChatError(e) => "create chat error: "@ + e@,
            AppError::CreateAgentError(e) => "create agent error: "@ + e@,
            AppError::NotChatMemberError { user_id, chat_id } => "user "@ + decimal_text(user_id as nat)
                + " is not member of chat "@ + decimal_text(chat_id as nat),
            AppError::UpdateAgentError(e) => "update agent error: "@ + e@,
            AppError::CreateMessageError(e) => "create message error: "@ + e@,
            AppError::NotLoggedInError => "not logged in"@,
            AppError::ChatFileError(e) => e@,
            AppError::NotFound(e) => "not found error: "@ + e@,
            AppError::IoError(e) => "io error: "@ + e@,
            AppError::SqlxError(e) => "sqlx error: "@ + e@,
            AppError::Argon2Error(e) => "Argon2 password hash error: "@ + e@,
            AppError::HttpHeaderError(e) => "http header parse error: "@ + e@,
            AppError::AiAgentError(e) => "ai agent error: "@ + e@,
        }
    }

    /// The HTTP status that answers the error.
    pub fn status(&self) -> (code: u16)
        ensures
            code == self.spec_status(),
    {
        match self {
            AppError::EmailAleardyExists(_) => 409,
            AppError::CreateChatError(_)
            | AppError::CreateMessageError(_)
            | AppError::ChatFileError(_)
            | AppError::CreateAgentError(_)
            | AppError::UpdateAgentError(_) => 400,
            AppError::NotChatMemberError { .. } => 403,
            AppError::NotFound(_) => 404,
            AppError::IoError(_) => 500,
            AppError::SqlxError(_) => 500,
            AppError::Argon2Error(_) => 422,
            AppError::AnyError(_) => 500,
            AppError::HttpHeaderError(_) => 422,
            AppError::AiAgentError(_) => 500,
            AppError::NotLoggedInError => 401,
        }
    }

    /// The error in words.
    pub fn message(&self) -> (text: String)
        ensures
            text@ == self.spec_message(),
    {
        match self {
            AppError::AnyError(e) => prefixed("general error: ", e.as_str()),
            AppError::EmailAleardyExists(e) => prefixed("email already exists: ", e.as_str()),
            AppError::CreateChatError(e) => prefixed("create chat error: ", e.as_str()),
            AppError::CreateAgentError(e) => prefixed("create agent error: ", e.as_str()),
            AppError::NotChatMemberError { user_id, chat_id } => {
                let user = decimal(*user_id);
                let chat = decimal(*chat_id);
                String::from_str("user ").concat(user.as_str()).concat(" is not member of chat ").concat(
                    chat.as_str(),
                )
            },
            AppError::UpdateAgentError(e) => prefixed("update agent error: ", e.as_str()),
            AppError::CreateMessageError(e) => prefixed("create message error: ", e.as_str()),
            AppError::NotLoggedInError => "not logged in".to_owned(),
            AppError::ChatFileError(e) => e.clone(),
            AppError::NotFound(e) => prefixed("not found error: ", e.as_str()),
            AppError::IoError(e) => prefixed("io error: ", e.as_str()),
            AppError::SqlxError(e) => prefixed("sqlx error: ", e.as_str()),
            AppError::Argon2Error(e) => prefixed("Argon2 password hash error: ", e.as_str()),
            AppError::HttpHeaderError(e) => prefixed("http header parse error: ", e.as_str()),
            AppError::AiAgentError(e) => prefixed("ai agent error: ", e.as_str()),
        }
    }

    /// The status and body of the response that answers the error.
    pub fn response(&self) -> (answer: (u16, ErrorOutput))
        ensures
            answer.0 == self.spec_status(),
            answer.1.error@ == self.spec_message(),
    {
        (self.status(), ErrorOutput::new(self.message()))
    }
}

} // verus!
