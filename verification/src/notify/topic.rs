//! The named topics of the change feed.
use crate::text::same_text;
use vstd::prelude::*;

verus! {

/// A topic that the listener subscribes to.
#[derive(Debug, Clone, Copy, PartialEq, Eq, Structural)]
pub enum Topic {
    ChatUpdated,
    ChatMessageCreated,
    WorkspaceDeleted,
    WorkspaceUpdated,
    UserJoinedWorkspace,
}

/// The topic that a name denotes, if it denotes one.
pub open spec fn topic_named(name: Seq<char>) -> Option<Topic> {
    if name == "chat_updated"@ {
        Some(Topic::ChatUpdated)
    } else if name == "chat_message_created"@ {
        Some(Topic::ChatMessageCreated)
    } else if name == "workspace_deleted"@ {
        Some(Topic::WorkspaceDeleted)
    } else if name == "workspace_updated"@ {
        Some(Topic::WorkspaceUpdated)
    } else if name == "user_joined_workspace"@ {
        Some(Topic::UserJoinedWorkspace)
    } else {
        None
    }
}

/// The name under which a topic is published.
pub open spec fn topic_name(topic: Topic) -> Seq<char> {
    match topic {
        Topic::ChatUpdated => "chat_updated"@,
        Topic::ChatMessageCreated => "chat_message_created"@,
        Topic::WorkspaceDeleted => "workspace_deleted"@,
        Topic::WorkspaceUpdated => "workspace_updated"@,
        Topic::UserJoinedWorkspace => "user_joined_workspace"@,
    }
}

impl Topic {
    /// Finds the topic with the given name.
    pub fn from_name(name: &str) -> (topic: Option<Topic>)
        ensures
            topic == topic_named(name@),
    {
        if same_text(name, "chat_updated") {
            Some(Topic::ChatUpdated)
        } else if same_text(name, "chat_message_created") {
            Some(Topic::ChatMessageCreated)
        } else if same_text(name, "workspace_deleted") {
            Some(Topic::WorkspaceDeleted)
        } else if same_text(name, "workspace_updated") {
            Some(Topic::WorkspaceUpdated)
        } else if same_text(name, "user_joined_workspace") {
            Some(Topic::UserJoinedWorkspace)
        } else {
            None
        }
    }

    /// The name to subscribe under.
    pub fn name(&self) -> (name: &'static str)
        ensures
            name@ == topic_name(*self),
    {
        match self {
            Topic::ChatUpdated => "chat_updated",
            Topic::ChatMessageCreated => "chat_message_created",
            Topic::WorkspaceDeleted => "workspace_deleted",
            Topic::WorkspaceUpdated => "workspace_updated",
            Topic::UserJoinedWorkspace => "user_joined_workspace",
        }
    }

    /// Every topic, in the order in which the listener subscribes.
    pub fn all() -> (topics: Vec<Topic>)
        ensures
            topics@ == seq![
                Topic::ChatUpdated,
                Topic::ChatMessageCreated,
                Topic::WorkspaceDeleted,
                Topic::WorkspaceUpdated,
                Topic::UserJoinedWorkspace,
            ],
    {
        let mut topics: Vec<Topic> = Vec::new();
        topics.push(Topic::ChatUpdated);
        topics.push(Topic::ChatMessageCreated);
        topics.push(Topic::WorkspaceDeleted);
        topics.push(Topic::WorkspaceUpdated);
        topics.push(Topic::UserJoinedWorkspace);
        proof {
            assert(topics@ =~= seq![
                Topic::ChatUpdated,
                Topic::ChatMessageCreated,
                Topic::WorkspaceDeleted,
                Topic::WorkspaceUpdated,
                Topic::UserJoinedWorkspace,
            ]);
        }
        topics
    }
}

/// Each topic is found again under its own name, so no two topics share one.
pub proof fn topic_name_round_trip(topic: Topic)
    ensures
        topic_named(topic_name(topic)) == Some(topic),
{
    reveal_strlit("chat_updated");
    reveal_strlit("chat_message_created");
    reveal_strlit("workspace_deleted");
    reveal_strlit("workspace_updated");
    reveal_strlit("user_joined_workspace");
    let a = "chat_updated"@;
    let b = "chat_message_created"@;
    let c = "workspace_deleted"@;
    let d = "workspace_updated"@;
    let e = "user_joined_workspace"@;
    assert(a.len() == 12 && b.len() == 20 && c.len() == 17 && d.len() == 17 && e.len() == 21);
    assert(c[10] == 'd' && d[10] == 'u');
}

} // verus!
