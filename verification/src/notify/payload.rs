//! The records that the change feed publishes, one shape per topic.
use crate::notify::audience::{chat_audience, member_set};
use crate::notify::chat::{Chat, Message};
use crate::notify::topic::Topic;
use vstd::prelude::*;

verus! {

/// Published on a chat row change: the operation and the row before and
/// after it.
#[derive(Debug, Clone)]
pub struct ChatUpdated {
    pub op: String,
    pub old: Option<Chat>,
    pub new: Option<Chat>,
}

/// Published on a new message: the message and the members of its chat at
/// that moment.
#[derive(Debug, Clone)]
pub struct ChatMessageCreated {
    pub message: Message,
    pub members: Vec<i64>,
}

/// Identity of a workspace.
#[derive(Debug, Clone)]
pub struct WorkspaceInfo {
    pub id: i64,
    pub name: String,
}

/// Published when a workspace is deleted, with the users to tell.
#[derive(Debug, Clone)]
pub struct WorkspaceDeletedPayload {
    pub workspace: WorkspaceInfo,
    pub users: Vec<i64>,
}

/// Published when a workspace changes, with the users to tell.
#[derive(Debug, Clone)]
pub struct WorkspaceUpdatedPayload {
    pub workspace: WorkspaceInfo,
    pub users: Vec<i64>,
}

/// Published when a user joins a workspace, with the users to tell.
#[derive(Debug, Clone)]
pub struct UserJoinedWorkspacePayload {
    pub workspace_id: i64,
    pub workspace_name: String,
    pub user_id: i64,
    pub user_name: String,
    pub user_email: String,
    pub users: Vec<i64>,
}

/// A payload that parsed against the shape of its topic.
#[derive(Debug, Clone)]
pub enum Payload {
    ChatUpdated(ChatUpdated),
    ChatMessageCreated(ChatMessageCreated),
    WorkspaceDeleted(WorkspaceDeletedPayload),
    WorkspaceUpdated(WorkspaceUpdatedPayload),
    UserJoinedWorkspace(UserJoinedWorkspacePayload),
}

/// The member list of a chat snapshot that may be absent.
pub open spec fn snapshot_members(chat: Option<Chat>) -> Option<Seq<i64>> {
    match chat {
        Some(c) => Some(c.members@),
        None => None,
    }
}

impl Payload {
    /// The topic whose shape this payload has.
    pub open spec fn topic(self) -> Topic {
        match self {
            Payload::ChatUpdated(_) => Topic::ChatUpdated,
            Payload::ChatMessageCreated(_) => Topic::ChatMessageCreated,
            Payload::WorkspaceDeleted(_) => Topic::WorkspaceDeleted,
            Payload::WorkspaceUpdated(_) => Topic::WorkspaceUpdated,
            Payload::UserJoinedWorkspace(_) => Topic::UserJoinedWorkspace,
        }
    }

    /// The users entitled to the event that this payload gives rise to.
    ///
    /// A chat change goes by the membership before and after it; every other
    /// payload names its recipients itself.
    pub open spec fn audience(self) -> Set<u64> {
        match self {
            Payload::ChatUpdated(p) => chat_audience(
                snapshot_members(p.old),
                snapshot_members(p.new),
            ),
            Payload::ChatMessageCreated(p) => member_set(p.members@),
            Payload::WorkspaceDeleted(p) => member_set(p.users@),
            Payload::WorkspaceUpdated(p) => member_set(p.users@),
            Payload::UserJoinedWorkspace(p) => member_set(p.users@),
        }
    }

    /// Tells which topic's shape the payload has.
    pub fn shape(&self) -> (topic: Topic)
        ensures
            topic == self.topic(),
    {
        match self {
            Payload::ChatUpdated(_) => Topic::ChatUpdated,
            Payload::ChatMessageCreated(_) => Topic::ChatMessageCreated,
            Payload::WorkspaceDeleted(_) => Topic::WorkspaceDeleted,
            Payload::WorkspaceUpdated(_) => Topic::WorkspaceUpdated,
            Payload::UserJoinedWorkspace(_) => Topic::UserJoinedWorkspace,
        }
    }
}

} // verus!
