//! Chat and message records as the change feed carries them.
use vstd::prelude::*;

verus! {

/// The kind of a chat.
#[derive(Debug, Clone, Copy, PartialEq, Eq, Structural)]
pub enum ChatType {
    Single,
    Group,
    PrivateChannel,
    PublicChannel,
}

/// A snapshot of a chat row.
#[derive(Debug, Clone)]
pub struct Chat {
    pub id: i64,
    pub ws_id: i64,
    pub name: Option<String>,
    pub kind: ChatType,
    pub members: Vec<i64>,
    pub agents: Vec<i64>,
    /// Creation time, in the text form the feed carried.
    pub created_at: String,
}

/// A chat message row.
#[derive(Debug, Clone)]
pub struct Message {
    pub id: i64,
    pub chat_id: i64,
    pub sender_id: i64,
    pub content: String,
    pub files: Vec<String>,
    /// Creation time, in the text form the feed carried.
    pub created_at: String,
}

} // verus!
