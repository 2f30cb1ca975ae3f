//! The typed events that are delivered to connected users.
use crate::notify::chat::{Chat, Message};
use vstd::prelude::*;

verus! {

/// A workspace that was deleted.
#[derive(Debug, Clone)]
pub struct WorkspaceDeleted {
    pub id: i64,
    pub name: String,
}

/// A workspace whose properties changed.
#[derive(Debug, Clone)]
pub struct WorkspaceUpdated {
    pub id: i64,
    pub name: String,
}

/// A user who joined a workspace.
#[derive(Debug, Clone)]
pub struct UserJoinedWorkspace {
    pub workspace_id: i64,
    pub workspace_name: String,
    pub user_id: i64,
    pub user_name: String,
    pub user_email: String,
}

/// An event as a client sees it. Built once, never changed, shared by all
/// of its recipients.
#[derive(Debug, Clone)]
pub enum AppEvent {
    NewChat(Chat),
    AddToChat(Chat),
    RemoveFromChat(Chat),
    NewMessage(Message),
    WorkspaceDeleted(WorkspaceDeleted),
    WorkspaceUpdated(WorkspaceUpdated),
    UserJoinedWorkspace(UserJoinedWorkspace),
}

} // verus!
