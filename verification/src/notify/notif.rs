//! Decoding: from a raw notification to a typed event and its audience.
use crate::notify::audience::{collect_user_ids, get_affected_chat_user_ids};
use crate::notify::event::{AppEvent, UserJoinedWorkspace, WorkspaceDeleted, WorkspaceUpdated};
use crate::notify::json::{parses_as, Json};
use crate::notify::payload::{ChatUpdated, Payload};
use crate::notify::schema::{decode_payload, fits_payload, is_payload};
use crate::notify::topic::{topic_named, Topic};
use crate::text::same_text;
use std::collections::HashSet;
use std::sync::Arc;
use vstd::prelude::*;

verus! {

/// Why a raw notification gave no event.
#[derive(Debug, Clone, Copy, PartialEq, Eq, Structural)]
pub enum NotifyError {
    /// The topic is none of those subscribed to.
    InvalidNotificationType,
    /// The payload did not parse against the shape of its topic.
    MalformedPayload,
    /// A chat change names an operation other than INSERT, UPDATE, DELETE.
    InvalidOperation,
    /// A chat change lacks the row that its operation needs.
    MissingRecord,
}

/// What the listener does after an error.
#[derive(Debug, Clone, Copy, PartialEq, Eq, Structural)]
pub enum Severity {
    /// Drop this notification and go on with the next.
    Skip,
    /// Stop listening and report to the caller.
    Halt,
}

impl NotifyError {
    /// Only an unknown topic stops the listener; every fault of a payload
    /// costs that one notification.
    pub open spec fn spec_severity(self) -> Severity {
        match self {
            NotifyError::InvalidNotificationType => Severity::Halt,
            _ => Severity::Skip,
        }
    }

    /// What the listener does after this error.
    pub fn severity(&self) -> (s: Severity)
        ensures
            s == self.spec_severity(),
    {
        match self {
            NotifyError::InvalidNotificationType => Severity::Halt,
            _ => Severity::Skip,
        }
    }

    /// The error in words.
    pub fn message(&self) -> (text: &'static str)
        ensures
            text@ == match *self {
                NotifyError::InvalidNotificationType => "Invalid notification type"@,
                NotifyError::MalformedPayload => "Malformed payload"@,
                NotifyError::InvalidOperation => "Invalid operation"@,
                NotifyError::MissingRecord => "Missing chat record"@,
            },
    {
        match self {
            NotifyError::InvalidNotificationType => "Invalid notification type",
            NotifyError::MalformedPayload => "Malformed payload",
            NotifyError::InvalidOperation => "Invalid operation",
            NotifyError::MissingRecord => "Missing chat record",
        }
    }
}

/// The event that a chat change gives rise to: INSERT announces the new row
/// as a new chat, UPDATE the new row as an addition, DELETE the old row as a
/// removal.
pub open spec fn chat_event(change: ChatUpdated) -> Result<AppEvent, NotifyError> {
    if change.op@ == "INSERT"@ {
        match change.new {
            Some(chat) => Ok(AppEvent::NewChat(chat)),
            None => Err(NotifyError::MissingRecord),
        }
    } else if change.op@ == "UPDATE"@ {
        match change.new {
            Some(chat) => Ok(AppEvent::AddToChat(chat)),
            None => Err(NotifyError::MissingRecord),
        }
    } else if change.op@ == "DELETE"@ {
        match change.old {
            Some(chat) => Ok(AppEvent::RemoveFromChat(chat)),
            None => Err(NotifyError::MissingRecord),
        }
    } else {
        Err(NotifyError::InvalidOperation)
    }
}

/// The event that a parsed payload gives rise to.
pub open spec fn payload_event(payload: Payload) -> Result<AppEvent, NotifyError> {
    match payload {
        Payload::ChatUpdated(p) => chat_event(p),
        Payload::ChatMessageCreated(p) => Ok(AppEvent::NewMessage(p.message)),
        Payload::WorkspaceDeleted(p) => Ok(
            AppEvent::WorkspaceDeleted(WorkspaceDeleted { id: p.workspace.id, name: p.workspace.name }),
        ),
        Payload::WorkspaceUpdated(p) => Ok(
            AppEvent::WorkspaceUpdated(WorkspaceUpdated { id: p.workspace.id, name: p.workspace.name }),
        ),
        Payload::UserJoinedWorkspace(p) => Ok(
            AppEvent::UserJoinedWorkspace(
                UserJoinedWorkspace {
                    workspace_id: p.workspace_id,
                    workspace_name: p.workspace_name,
                    user_id: p.user_id,
                    user_name: p.user_name,
                    user_email: p.user_email,
                },
            ),
        ),
    }
}

/// What decoding owes for a topic name and the outcome of parsing the
/// payload against that topic's shape (`None`: it did not parse).
pub open spec fn decoded(name: Seq<char>, parsed: Option<Payload>) -> Result<
    (AppEvent, Set<u64>),
    NotifyError,
> {
    match topic_named(name) {
        None => Err(NotifyError::InvalidNotificationType),
        Some(topic) => match parsed {
            None => Err(NotifyError::MalformedPayload),
            Some(payload) => if payload.topic() != topic {
                Err(NotifyError::MalformedPayload)
            } else {
                match payload_event(payload) {
                    Ok(event) => Ok((event, payload.audience())),
                    Err(e) => Err(e),
                }
            },
        },
    }
}

/// Whether `parsed` is the outcome of reading a payload against the shape
/// of the topic `name`: the record that the JSON value describes, or none
/// where the payload is not JSON or does not have the shape. Under a name
/// that denotes no topic nothing is read.
pub open spec fn reads_as(name: Seq<char>, json: Option<Json>, parsed: Option<Payload>) -> bool {
    match (topic_named(name), json) {
        (Some(topic), Some(value)) => match parsed {
            Some(payload) => is_payload(topic, value, payload),
            None => !fits_payload(topic, value),
        },
        (Some(_), None) => parsed is None,
        (None, _) => true,
    }
}

/// A decoded notification: the event and the users entitled to it.
#[derive(Debug)]
pub struct Notification {
    pub user_ids: HashSet<u64>,
    pub event: Arc<AppEvent>,
}

/// Builds the event of a chat change.
pub fn chat_event_of(change: ChatUpdated) -> (r: Result<AppEvent, NotifyError>)
    ensures
        r == chat_event(change),
{
    let ChatUpdated { op, old, new } = change;
    if same_text(op.as_str(), "INSERT") {
        match new {
            Some(chat) => Ok(AppEvent::NewChat(chat)),
            None => Err(NotifyError::MissingRecord),
        }
    } else if same_text(op.as_str(), "UPDATE") {
        match new {
            Some(chat) => Ok(AppEvent::AddToChat(chat)),
            None => Err(NotifyError::MissingRecord),
        }
    } else if same_text(op.as_str(), "DELETE") {
        match old {
            Some(chat) => Ok(AppEvent::RemoveFromChat(chat)),
            None => Err(NotifyError::MissingRecord),
        }
    } else {
        Err(NotifyError::InvalidOperation)
    }
}

impl Notification {
    /// The event and audience as one mathematical value.
    pub open spec fn view(&self) -> (AppEvent, Set<u64>) {
        (*self.event, self.user_ids@)
    }

    /// Whether `r` is what decoding owes for a topic name and the outcome
    /// of reading the payload against that topic's shape.
    pub open spec fn owed(
        name: Seq<char>,
        parsed: Option<Payload>,
        r: Result<Notification, NotifyError>,
    ) -> bool {
        match decoded(name, parsed) {
            Ok(pair) => r matches Ok(n) && n.view() == pair,
            Err(e) => r matches Err(f) && f == e,
        }
    }

    /// Whether `r` is what decoding owes for a topic name and the JSON
    /// value that the payload is (`None`: it is not JSON): what is owed
    /// for the record of that topic that the value describes, or for none
    /// where it does not have the shape.
    pub open spec fn decodes(
        name: Seq<char>,
        json: Option<Json>,
        r: Result<Notification, NotifyError>,
    ) -> bool {
        exists|parsed: Option<Payload>| #[trigger]
            reads_as(name, json, parsed) && Notification::owed(name, parsed, r)
    }

    /// Whether `r` is what decoding owes for a topic name and a payload
    /// as text: what is owed for the JSON value that the text is.
    pub open spec fn loads(name: Seq<char>, payload: Seq<char>, r: Result<Notification, NotifyError>) -> bool {
        exists|json: Option<Json>| #[trigger]
            parses_as(payload, json) && Notification::decodes(name, json, r)
    }

    /// Decodes one raw notification: the topic it arrived on and its
    /// payload as text.
    pub fn load(name: &str, payload: &str) -> (r: Result<Notification, NotifyError>)
        ensures
            Notification::loads(name@, payload@, r),
    {
        let json = Json::parse(payload);
        let ghost parsed = json;
        let r = Notification::decode(name, json);
        proof {
            assert(parses_as(payload@, parsed) && Notification::decodes(name@, parsed, r));
        }
        r
    }

    /// Decodes one raw notification whose payload was parsed as JSON
    /// (`None`: it is not JSON).
    pub fn decode(name: &str, json: Option<Json>) -> (r: Result<Notification, NotifyError>)
        ensures
            Notification::decodes(name@, json, r),
    {
        let parsed = match (Topic::from_name(name), &json) {
            (Some(topic), Some(value)) => decode_payload(topic, value),
            _ => None,
        };
        let ghost witness = parsed;
        let r = Notification::from_parsed(name, parsed);
        proof {
            assert(reads_as(name@, json, witness) && Notification::owed(name@, witness, r));
        }
        r
    }

    /// Builds the notification for a topic name and the outcome of reading
    /// the payload against that topic's shape (`None`: it does not have
    /// the shape).
    pub fn from_parsed(name: &str, parsed: Option<Payload>) -> (r: Result<Notification, NotifyError>)
        ensures
            Notification::owed(name@, parsed, r),
    {
        let topic = match Topic::from_name(name) {
            Some(topic) => topic,
            None => {
                return Err(NotifyError::InvalidNotificationType);
            },
        };
        let payload = match parsed {
            Some(payload) => payload,
            None => {
                return Err(NotifyError::MalformedPayload);
            },
        };
        if payload.shape() != topic {
            return Err(NotifyError::MalformedPayload);
        }
        match payload {
            Payload::ChatUpdated(change) => {
                let user_ids = get_affected_chat_user_ids(change.old.as_ref(), change.new.as_ref());
                match chat_event_of(change) {
                    Ok(event) => Ok(Notification { user_ids, event: Arc::new(event) }),
                    Err(e) => Err(e),
                }
            },
            Payload::ChatMessageCreated(p) => {
                let user_ids = collect_user_ids(&p.members);
                Ok(Notification { user_ids, event: Arc::new(AppEvent::NewMessage(p.message)) })
            },
            Payload::WorkspaceDeleted(p) => {
                let user_ids = collect_user_ids(&p.users);
                let event = AppEvent::WorkspaceDeleted(
                    WorkspaceDeleted { id: p.workspace.id, name: p.workspace.name },
                );
                Ok(Notification { user_ids, event: Arc::new(event) })
            },
            Payload::WorkspaceUpdated(p) => {
                let user_ids = collect_user_ids(&p.users);
                let event = AppEvent::WorkspaceUpdated(
                    WorkspaceUpdated { id: p.workspace.id, name: p.workspace.name },
                );
                Ok(Notification { user_ids, event: Arc::new(event) })
            },
            Payload::UserJoinedWorkspace(p) => {
                let user_ids = collect_user_ids(&p.users);
                let event = AppEvent::UserJoinedWorkspace(
                    UserJoinedWorkspace {
                        workspace_id: p.workspace_id,
                        workspace_name: p.workspace_name,
                        user_id: p.user_id,
                        user_name: p.user_name,
                        user_email: p.user_email,
                    },
                );
                Ok(Notification { user_ids, event: Arc::new(event) })
            },
        }
    }
}

} // verus!
