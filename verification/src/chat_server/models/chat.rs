//! Requests on chats, and the rules a chat is created and changed by.
use crate::chat_server::error::AppError;
use crate::notify::chat::ChatType;
use vstd::prelude::*;
use vstd::slice::slice_to_vec;
use vstd::utf8::encode_utf8;

verus! {

/// A request to create a chat.
#[derive(Debug, Clone)]
pub struct CreateChat {
    pub name: Option<String>,
    pub members: Vec<i64>,
    pub public: bool,
}

/// A request to rename a chat.
#[derive(Debug, Clone)]
pub struct UpdateChat {
    pub name: Option<String>,
}

/// A request to add members to a chat.
#[derive(Debug, Clone)]
pub struct AddMembers {
    pub members: Vec<i64>,
}

/// The length of a text in bytes, which is what a name's length is
/// measured in.
pub open spec fn byte_len(text: Seq<char>) -> nat {
    encode_utf8(text).len()
}

/// The member identifier under which a user is stored.
pub open spec fn member_id_of(user_id: u64) -> i64 {
    user_id as i64
}

/// Why a request to create a chat is turned down before the store is asked,
/// as the text of the error; `None` where it is not. The rules apply in
/// this order: the creator is a member; a name has three bytes or more;
/// a chat has two members or more; more than eight members need a name.
pub open spec fn create_chat_fault(input: CreateChat, user_id: u64) -> Option<Seq<char>> {
    if !input.members@.contains(member_id_of(user_id)) {
        Some("you must be a member of the chat"@)
    } else if input.name matches Some(name) && byte_len(name@) < 3 {
        Some("chat name must have at least 3 characters"@)
    } else if input.members@.len() < 2 {
        Some("chat must have at lease 2 members"@)
    } else if input.members@.len() > 8 && input.name is None {
        Some("group chat with more then 8 members must have a name"@)
    } else {
        None
    }
}

/// The kind of chat that a request creates: unnamed with two members, a
/// conversation of two; unnamed otherwise, a group; named, a channel,
/// public or private as asked.
pub open spec fn created_chat_type(input: CreateChat) -> ChatType {
    match input.name {
        None => if input.members@.len() == 2 {
            ChatType::Single
        } else {
            ChatType::Group
        },
        Some(_) => if input.public {
            ChatType::PublicChannel
        } else {
            ChatType::PrivateChannel
        },
    }
}

/// A `CreateChatError` with the given text.
pub fn create_chat_error(text: &str) -> (e: AppError)
    ensures
        e matches AppError::CreateChatError(t) && t@ == text@,
{
    AppError::CreateChatError(text.to_owned())
}

/// What a rule answers: nothing where it holds, a `CreateChatError` with
/// the fault's text where it does not.
pub open spec fn answers(r: Result<(), AppError>, fault: Option<Seq<char>>) -> bool {
    match fault {
        None => r is Ok,
        Some(text) => r matches Err(AppError::CreateChatError(t)) && t@ == text,
    }
}

/// Whether `id` is among `members`.
pub fn is_member(members: &Vec<i64>, id: i64) -> (found: bool)
    ensures
        found == members@.contains(id),
{
    let mut i: usize = 0;
    while i < members.len()
        invariant
            i <= members.len(),
            forall|j: int| 0 <= j < i ==> members@[j] != id,
        decreases members.len() - i,
    {
        if members[i] == id {
            return true;
        }
        i += 1;
    }
    false
}

/// Holds a new name to the rule that it has three bytes or more.
pub fn check_chat_name(name: &str) -> (r: Result<(), AppError>)
    ensures
        answers(
            r,
            if byte_len(name@) < 3 {
                Some("chat name must have at least 3 characters"@)
            } else {
                None
            },
        ),
{
    if name.as_bytes().len() < 3 {
        return Err(create_chat_error("chat name must have at least 3 characters"));
    }
    Ok(())
}

/// Holds the users that the store found to those that were asked for: all
/// of them must exist.
pub fn check_members_found(asked: usize, found: usize) -> (r: Result<(), AppError>)
    ensures
        answers(
            r,
            if found != asked {
                Some("some users do not exist"@)
            } else {
                None
            },
        ),
{
    if found != asked {
        return Err(create_chat_error("some users do not exist"));
    }
    Ok(())
}

/// Whether a chat is to be deleted after a member left it: when the store
/// reports no member count for it, or a count of zero.
pub fn left_empty(members_count: Option<i32>) -> (empty: bool)
    ensures
        empty == (members_count matches Some(n) ==> n == 0),
{
    match members_count {
        None => true,
        Some(n) => n == 0,
    }
}

impl Default for CreateChat {
    /// The empty request: no name, no members, not public.
    fn default() -> (input: Self)
        ensures
            input.name is None,
            input.members@.len() == 0,
            !input.public,
    {
        Self { name: None, members: Vec::new(), public: false }
    }
}

impl CreateChat {
    /// A request with the given members; an empty name stands for no name.
    pub fn new(name: &str, members: &[i64], public: bool) -> (input: Self)
        ensures
            input.name matches Some(n) ==> n@ == name@,
            input.name is None <==> name@.len() == 0,
            input.members@ == members@,
            input.public == public,
    {
        let name = if name.is_empty() {
            None
        } else {
            Some(name.to_owned())
        };
        Self { name, members: slice_to_vec(members), public }
    }

    /// Holds the request to the rules that need no look at the store, for
    /// the user who makes it.
    pub fn check(&self, user_id: u64) -> (r: Result<(), AppError>)
        ensures
            answers(r, create_chat_fault(*self, user_id)),
    {
        let me = #[verifier::truncate]
        (user_id as i64);
        if !is_member(&self.members, me) {
            return Err(create_chat_error("you must be a member of the chat"));
        }
        if let Some(name) = &self.name {
            if name.as_str().as_bytes().len() < 3 {
                return Err(create_chat_error("chat name must have at least 3 characters"));
            }
        }
        let len = self.members.len();
        if len < 2 {
            return Err(create_chat_error("chat must have at lease 2 members"));
        }
        if len > 8 && self.name.is_none() {
            return Err(create_chat_error("group chat with more then 8 members must have a name"));
        }
        Ok(())
    }

    /// Holds the users that the store found to the members asked for: all
    /// of them must exist.
    pub fn check_found(&self, found: usize) -> (r: Result<(), AppError>)
        ensures
            answers(
                r,
                if found != self.members@.len() {
                    Some("some users not exists"@)
                } else {
                    None
                },
            ),
    {
        if found != self.members.len() {
            return Err(create_chat_error("some users not exists"));
        }
        Ok(())
    }

    /// The kind of chat that the request creates.
    pub fn chat_type(&self) -> (kind: ChatType)
        ensures
            kind == created_chat_type(*self),
    {
        match &self.name {
            None => if self.members.len() == 2 {
                ChatType::Single
            } else {
                ChatType::Group
            },
            Some(_) => if self.public {
                ChatType::PublicChannel
            } else {
                ChatType::PrivateChannel
            },
        }
    }
}

/// Turns the store's refusal of a new chat into the error that is answered:
/// a breach of the rule that names are unique in a workspace is the
/// creator's fault, anything else the store's.
pub fn create_chat_refused(constraint: Option<&str>, fault: String) -> (e: AppError)
    ensures
        match constraint {
            Some(c) if c@ == "chats_ws_id_name_key"@ => e matches AppError::CreateChatError(t) && t@
                == "a chat with this name already exists in your workspace"@,
            _ => e == AppError::SqlxError(fault),
        },
{
    if let Some(c) = constraint {
        if crate::text::same_text(c, "chats_ws_id_name_key") {
            return create_chat_error("a chat with this name already exists in your workspace");
        }
    }
    AppError::SqlxError(fault)
}

} // verus!
