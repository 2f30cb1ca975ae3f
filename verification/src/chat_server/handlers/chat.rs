//! The guards that the chat handlers put before a change.
use crate::chat_server::error::AppError;
use crate::chat_server::models::chat::create_chat_error;
use crate::chat_server::models::workspace::not_found;
use crate::text::{decimal, decimal_text};
use vstd::prelude::*;
use vstd::string::StringExecFns;

verus! {

/// The text that says that a chat is not there.
pub open spec fn chat_missing_text(chat_id: u64) -> Seq<char> {
    "chat id: "@ + decimal_text(chat_id as nat) + " not found"@
}

/// The error that says that a chat is not there. A chat that the asking
/// user is no member of is answered the same way.
pub fn chat_not_found(chat_id: u64) -> (e: AppError)
    ensures
        e matches AppError::NotFound(t) && t@ == chat_missing_text(chat_id),
{
    let id = decimal(chat_id);
    AppError::NotFound(String::from_str("chat id: ").concat(id.as_str()).concat(" not found"))
}

/// Lets only a member of the chat go on.
pub fn require_member(is_member: bool, chat_id: u64) -> (r: Result<(), AppError>)
    ensures
        if is_member {
            r is Ok
        } else {
            r matches Err(AppError::NotFound(t)) && t@ == chat_missing_text(chat_id)
        },
{
    if !is_member {
        return Err(chat_not_found(chat_id));
    }
    Ok(())
}

/// Takes the new name out of a request to rename, which must carry one.
pub fn require_name(name: Option<String>) -> (r: Result<String, AppError>)
    ensures
        match name {
            Some(n) => r == Ok::<String, AppError>(n),
            None => r matches Err(AppError::CreateChatError(t)) && t@ == "name is required"@,
        },
{
    match name {
        Some(n) => Ok(n),
        None => Err(create_chat_error("name is required")),
    }
}

/// Lets a user remove only themselves from a chat.
pub fn require_self(user_id: i64, member_id: u64) -> (r: Result<(), AppError>)
    ensures
        if user_id as u64 == member_id {
            r is Ok
        } else {
            r matches Err(AppError::NotFound(t)) && t@ == "you can only remove yourself"@
        },
{
    let me = #[verifier::truncate]
    (user_id as u64);
    if me != member_id {
        return Err(not_found("you can only remove yourself"));
    }
    Ok(())
}

} // verus!
