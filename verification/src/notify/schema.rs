//! The shapes of the payloads: which JSON values are a chat, a message or
//! the record of a topic, and which record each of them is.
use crate::notify::chat::{Chat, ChatType, Message};
use crate::notify::json::{views, Json};
use crate::notify::payload::{
    ChatMessageCreated, ChatUpdated, Payload, UserJoinedWorkspacePayload, WorkspaceDeletedPayload,
    WorkspaceInfo, WorkspaceUpdatedPayload,
};
use crate::notify::topic::Topic;
use crate::text::same_text;
use vstd::prelude::*;

verus! {

/// Whether `chrono` reads a text as a date and time with an offset. It
/// takes a relaxed form of RFC 3339: spaces between the parts, values
/// without padding, `UTC` for the offset and an offset without its colon
/// are read too.
pub uninterp spec fn is_timestamp(text: Seq<char>) -> bool;

/// Calls `str::parse` for `chrono::DateTime<chrono::FixedOffset>`, which
/// reads a date and time in a relaxed form of RFC 3339, and tells whether
/// it succeeded. The result depends on the text alone.
#[verifier::external_body]
fn reads_as_timestamp(text: &str) -> (ok: bool)
    ensures
        ok == is_timestamp(text@),
{
    text.parse::<chrono::DateTime<chrono::FixedOffset>>().is_ok()
}

/// The text of an optional string.
pub open spec fn option_view(text: Option<String>) -> Option<Seq<char>> {
    match text {
        Some(t) => Some(t@),
        None => None,
    }
}

/// The integer under `key`.
pub open spec fn int_at(json: Json, key: Seq<char>) -> Option<i64> {
    match json.member(key) {
        Some(v) => v.integer(),
        None => None,
    }
}

/// The text under `key`.
pub open spec fn text_at(json: Json, key: Seq<char>) -> Option<Seq<char>> {
    match json.member(key) {
        Some(v) => v.text(),
        None => None,
    }
}

/// The text under `key`, which may be absent or `null`: `Some(None)` where
/// it is, `None` where something other than a text stands there.
pub open spec fn optional_text_at(json: Json, key: Seq<char>) -> Option<Option<Seq<char>>> {
    match json.optional(key) {
        Some(v) => match v.text() {
            Some(t) => Some(Some(t)),
            None => None,
        },
        None => Some(None),
    }
}

/// The list of integers under `key`.
pub open spec fn ints_at(json: Json, key: Seq<char>) -> Option<Seq<i64>> {
    match json.member(key) {
        Some(v) => v.integers(),
        None => None,
    }
}

/// The list of integers under `key`, empty where the member is absent or
/// `null`.
pub open spec fn ints_or_none_at(json: Json, key: Seq<char>) -> Option<Seq<i64>> {
    match json.optional(key) {
        Some(v) => v.integers(),
        None => Some(Seq::empty()),
    }
}

/// The list of texts under `key`, empty where the member is absent or
/// `null`.
pub open spec fn texts_or_none_at(json: Json, key: Seq<char>) -> Option<Seq<Seq<char>>> {
    match json.optional(key) {
        Some(v) => v.texts(),
        None => Some(Seq::empty()),
    }
}

/// The date and time under `key`, as the text that stands there.
pub open spec fn timestamp_at(json: Json, key: Seq<char>) -> Option<Seq<char>> {
    match text_at(json, key) {
        Some(t) => if is_timestamp(t) {
            Some(t)
        } else {
            None
        },
        None => None,
    }
}

/// The kind of chat that a name denotes. Each kind goes by its own name
/// and by the label the store gives it; a channel also by its name with a
/// small initial.
pub open spec fn chat_type_named(name: Seq<char>) -> Option<ChatType> {
    if name == "Single"@ || name == "single"@ {
        Some(ChatType::Single)
    } else if name == "Group"@ || name == "group"@ {
        Some(ChatType::Group)
    } else if name == "PrivateChannel"@ || name == "private_channel"@ || name == "privateChannel"@ {
        Some(ChatType::PrivateChannel)
    } else if name == "PublicChannel"@ || name == "public_channel"@ || name == "publicChannel"@ {
        Some(ChatType::PublicChannel)
    } else {
        None
    }
}

/// The kind of chat under `key`.
pub open spec fn chat_type_at(json: Json, key: Seq<char>) -> Option<ChatType> {
    match text_at(json, key) {
        Some(t) => chat_type_named(t),
        None => None,
    }
}

/// Reads the integer under `key`.
pub fn int_field(json: &Json, key: &str) -> (n: Option<i64>)
    ensures
        n == int_at(*json, key@),
{
    match json.get(key) {
        Some(v) => v.as_int(),
        None => None,
    }
}

/// Reads the text under `key`.
pub fn text_field(json: &Json, key: &str) -> (t: Option<String>)
    ensures
        option_view(t) == text_at(*json, key@),
{
    match json.get(key) {
        Some(v) => v.as_text(),
        None => None,
    }
}

/// Reads the text under `key`, which may be absent or `null`.
pub fn optional_text_field(json: &Json, key: &str) -> (t: Option<Option<String>>)
    ensures
        match optional_text_at(*json, key@) {
            Some(text) => t matches Some(s) && option_view(s) == text,
            None => t is None,
        },
{
    match json.get_optional(key) {
        Some(v) => match v.as_text() {
            Some(t) => Some(Some(t)),
            None => None,
        },
        None => Some(None),
    }
}

/// Reads the list of integers under `key`.
pub fn ints_field(json: &Json, key: &str) -> (list: Option<Vec<i64>>)
    ensures
        match ints_at(*json, key@) {
            Some(ints) => list matches Some(v) && v@ == ints,
            None => list is None,
        },
{
    match json.get(key) {
        Some(v) => v.as_ints(),
        None => None,
    }
}

/// Reads the list of integers under `key`, empty where the member is
/// absent or `null`.
pub fn ints_field_or_none(json: &Json, key: &str) -> (list: Option<Vec<i64>>)
    ensures
        match ints_or_none_at(*json, key@) {
            Some(ints) => list matches Some(v) && v@ == ints,
            None => list is None,
        },
{
    match json.get_optional(key) {
        Some(v) => v.as_ints(),
        None => Some(Vec::new()),
    }
}

/// Reads the list of texts under `key`, empty where the member is absent
/// or `null`.
pub fn texts_field_or_none(json: &Json, key: &str) -> (list: Option<Vec<String>>)
    ensures
        match texts_or_none_at(*json, key@) {
            Some(texts) => list matches Some(v) && views(v@) == texts,
            None => list is None,
        },
{
    match json.get_optional(key) {
        Some(v) => v.as_texts(),
        None => {
            let empty: Vec<String> = Vec::new();
            proof {
                assert(views(empty@) =~= Seq::<Seq<char>>::empty());
            }
            Some(empty)
        },
    }
}

/// Reads the date and time under `key`, and keeps its text.
pub fn timestamp_field(json: &Json, key: &str) -> (t: Option<String>)
    ensures
        option_view(t) == timestamp_at(*json, key@),
{
    match text_field(json, key) {
        Some(t) => if reads_as_timestamp(t.as_str()) {
            Some(t)
        } else {
            None
        },
        None => None,
    }
}

/// Finds the kind of chat with the given name.
pub fn chat_type_from_name(name: &str) -> (kind: Option<ChatType>)
    ensures
        kind == chat_type_named(name@),
{
    if same_text(name, "Single") || same_text(name, "single") {
        Some(ChatType::Single)
    } else if same_text(name, "Group") || same_text(name, "group") {
        Some(ChatType::Group)
    } else if same_text(name, "PrivateChannel") || same_text(name, "private_channel") || same_text(
        name,
        "privateChannel",
    ) {
        Some(ChatType::PrivateChannel)
    } else if same_text(name, "PublicChannel") || same_text(name, "public_channel") || same_text(
        name,
        "publicChannel",
    ) {
        Some(ChatType::PublicChannel)
    } else {
        None
    }
}

/// Reads the kind of chat under `key`.
pub fn chat_type_field(json: &Json, key: &str) -> (kind: Option<ChatType>)
    ensures
        kind == chat_type_at(*json, key@),
{
    match text_field(json, key) {
        Some(t) => chat_type_from_name(t.as_str()),
        None => None,
    }
}

/// Whether a JSON value has the shape of a chat: integers `id` and `ws_id`,
/// an optional text `name`, a kind `type`, a list of integers `members`, an
/// optional list of integers `agents`, a date and time `created_at`.
pub open spec fn fits_chat(json: Json) -> bool {
    &&& int_at(json, "id"@) is Some
    &&& int_at(json, "ws_id"@) is Some
    &&& optional_text_at(json, "name"@) is Some
    &&& chat_type_at(json, "type"@) is Some
    &&& ints_at(json, "members"@) is Some
    &&& ints_or_none_at(json, "agents"@) is Some
    &&& timestamp_at(json, "created_at"@) is Some
}

/// Whether `chat` is the chat that a JSON value describes.
pub open spec fn is_chat(json: Json, chat: Chat) -> bool {
    &&& int_at(json, "id"@) == Some(chat.id)
    &&& int_at(json, "ws_id"@) == Some(chat.ws_id)
    &&& optional_text_at(json, "name"@) == Some(option_view(chat.name))
    &&& chat_type_at(json, "type"@) == Some(chat.kind)
    &&& ints_at(json, "members"@) == Some(chat.members@)
    &&& ints_or_none_at(json, "agents"@) == Some(chat.agents@)
    &&& timestamp_at(json, "created_at"@) == Some(chat.created_at@)
}

/// Reads a chat.
pub fn decode_chat(json: &Json) -> (r: Option<Chat>)
    ensures
        match r {
            Some(chat) => is_chat(*json, chat),
            None => !fits_chat(*json),
        },
{
    let id = match int_field(json, "id") {
        Some(v) => v,
        None => { return None; },
    };
    let ws_id = match int_field(json, "ws_id") {
        Some(v) => v,
        None => { return None; },
    };
    let name = match optional_text_field(json, "name") {
        Some(v) => v,
        None => { return None; },
    };
    let kind = match chat_type_field(json, "type") {
        Some(v) => v,
        None => { return None; },
    };
    let members = match ints_field(json, "members") {
        Some(v) => v,
        None => { return None; },
    };
    let agents = match ints_field_or_none(json, "agents") {
        Some(v) => v,
        None => { return None; },
    };
    let created_at = match timestamp_field(json, "created_at") {
        Some(v) => v,
        None => { return None; },
    };
    Some(Chat { id, ws_id, name, kind, members, agents, created_at })
}

/// Whether the member `key` of a JSON value, where there is one, has the
/// shape of a chat.
pub open spec fn fits_optional_chat(json: Json, key: Seq<char>) -> bool {
    json.optional(key) matches Some(v) ==> fits_chat(v)
}

/// Whether `chat` is what stands under `key`: the chat described there, or
/// none where the member is absent or `null`.
pub open spec fn is_optional_chat(json: Json, key: Seq<char>, chat: Option<Chat>) -> bool {
    match json.optional(key) {
        Some(v) => chat matches Some(c) && is_chat(v, c),
        None => chat is None,
    }
}

/// Reads the chat under `key`, which may be absent or `null`.
pub fn optional_chat_field(json: &Json, key: &str) -> (r: Option<Option<Chat>>)
    ensures
        match r {
            Some(chat) => is_optional_chat(*json, key@, chat),
            None => !fits_optional_chat(*json, key@),
        },
{
    match json.get_optional(key) {
        Some(v) => match decode_chat(v) {
            Some(chat) => Some(Some(chat)),
            None => None,
        },
        None => Some(None),
    }
}

/// Whether a JSON value has the shape of a message: integers `id`,
/// `chat_id` and `sender_id`, a text `content`, an optional list of texts
/// `files`, a date and time `created_at`.
pub open spec fn fits_message(json: Json) -> bool {
    &&& int_at(json, "id"@) is Some
    &&& int_at(json, "chat_id"@) is Some
    &&& int_at(json, "sender_id"@) is Some
    &&& text_at(json, "content"@) is Some
    &&& texts_or_none_at(json, "files"@) is Some
    &&& timestamp_at(json, "created_at"@) is Some
}

/// Whether `message` is the message that a JSON value describes.
pub open spec fn is_message(json: Json, message: Message) -> bool {
    &&& int_at(json, "id"@) == Some(message.id)
    &&& int_at(json, "chat_id"@) == Some(message.chat_id)
    &&& int_at(json, "sender_id"@) == Some(message.sender_id)
    &&& text_at(json, "content"@) == Some(message.content@)
    &&& texts_or_none_at(json, "files"@) == Some(views(message.files@))
    &&& timestamp_at(json, "created_at"@) == Some(message.created_at@)
}

/// Reads a message.
pub fn decode_message(json: &Json) -> (r: Option<Message>)
    ensures
        match r {
            Some(message) => is_message(*json, message),
            None => !fits_message(*json),
        },
{
    let id = match int_field(json, "id") {
        Some(v) => v,
        None => { return None; },
    };
    let chat_id = match int_field(json, "chat_id") {
        Some(v) => v,
        None => { return None; },
    };
    let sender_id = match int_field(json, "sender_id") {
        Some(v) => v,
        None => { return None; },
    };
    let content = match text_field(json, "content") {
        Some(v) => v,
        None => { return None; },
    };
    let files = match texts_field_or_none(json, "files") {
        Some(v) => v,
        None => { return None; },
    };
    let created_at = match timestamp_field(json, "created_at") {
        Some(v) => v,
        None => { return None; },
    };
    Some(Message { id, chat_id, sender_id, content, files, created_at })
}

/// Whether a JSON value has the shape of a chat change: a text `op`, and
/// under `old` and `new` a chat or nothing.
pub open spec fn fits_chat_updated(json: Json) -> bool {
    &&& text_at(json, "op"@) is Some
    &&& fits_optional_chat(json, "old"@)
    &&& fits_optional_chat(json, "new"@)
}

/// Whether `change` is the chat change that a JSON value describes.
pub open spec fn is_chat_updated(json: Json, change: ChatUpdated) -> bool {
    &&& text_at(json, "op"@) == Some(change.op@)
    &&& is_optional_chat(json, "old"@, change.old)
    &&& is_optional_chat(json, "new"@, change.new)
}

/// Reads a chat change.
pub fn decode_chat_updated(json: &Json) -> (r: Option<ChatUpdated>)
    ensures
        match r {
            Some(change) => is_chat_updated(*json, change),
            None => !fits_chat_updated(*json),
        },
{
    let op = match text_field(json, "op") {
        Some(v) => v,
        None => { return None; },
    };
    let old = match optional_chat_field(json, "old") {
        Some(v) => v,
        None => { return None; },
    };
    let new = match optional_chat_field(json, "new") {
        Some(v) => v,
        None => { return None; },
    };
    Some(ChatUpdated { op, old, new })
}

/// Whether a JSON value has the shape of a new message's record: a
/// message under `message`, a list of integers `members`.
pub open spec fn fits_message_created(json: Json) -> bool {
    &&& json.member("message"@) matches Some(m) && fits_message(m)
    &&& ints_at(json, "members"@) is Some
}

/// Whether `created` is the record that a JSON value describes.
pub open spec fn is_message_created(json: Json, created: ChatMessageCreated) -> bool {
    &&& json.member("message"@) matches Some(m) && is_message(m, created.message)
    &&& ints_at(json, "members"@) == Some(created.members@)
}

/// Reads the record of a new message.
pub fn decode_message_created(json: &Json) -> (r: Option<ChatMessageCreated>)
    ensures
        match r {
            Some(created) => is_message_created(*json, created),
            None => !fits_message_created(*json),
        },
{
    let message = match json.get("message") {
        Some(m) => match decode_message(m) {
            Some(v) => v,
            None => { return None; },
        },
        None => { return None; },
    };
    let members = match ints_field(json, "members") {
        Some(v) => v,
        None => { return None; },
    };
    Some(ChatMessageCreated { message, members })
}

/// Whether a JSON value names a workspace and the users to tell: under
/// `workspace` an integer `id` and a text `name`, and a list of integers
/// `users`.
pub open spec fn fits_workspace_record(json: Json) -> bool {
    &&& json.member("workspace"@) matches Some(w) && int_at(w, "id"@) is Some && text_at(w, "name"@)
        is Some
    &&& ints_at(json, "users"@) is Some
}

/// Whether `workspace` and `users` are what a JSON value names.
pub open spec fn is_workspace_record(json: Json, workspace: WorkspaceInfo, users: Vec<i64>) -> bool {
    &&& json.member("workspace"@) matches Some(w) && int_at(w, "id"@) == Some(workspace.id) && text_at(
        w,
        "name"@,
    ) == Some(workspace.name@)
    &&& ints_at(json, "users"@) == Some(users@)
}

/// Reads a workspace and the users to tell.
pub fn decode_workspace_record(json: &Json) -> (r: Option<(WorkspaceInfo, Vec<i64>)>)
    ensures
        match r {
            Some(pair) => is_workspace_record(*json, pair.0, pair.1),
            None => !fits_workspace_record(*json),
        },
{
    let workspace = match json.get("workspace") {
        Some(w) => {
            let id = match int_field(w, "id") {
                Some(v) => v,
                None => { return None; },
            };
            let name = match text_field(w, "name") {
                Some(v) => v,
                None => { return None; },
            };
            WorkspaceInfo { id, name }
        },
        None => { return None; },
    };
    let users = match ints_field(json, "users") {
        Some(v) => v,
        None => { return None; },
    };
    Some((workspace, users))
}

/// Whether a JSON value has the shape of a join's record: integers
/// `workspace_id` and `user_id`, texts `workspace_name`, `user_name` and
/// `user_email`, a list of integers `users`.
pub open spec fn fits_user_joined(json: Json) -> bool {
    &&& int_at(json, "workspace_id"@) is Some
    &&& text_at(json, "workspace_name"@) is Some
    &&& int_at(json, "user_id"@) is Some
    &&& text_at(json, "user_name"@) is Some
    &&& text_at(json, "user_email"@) is Some
    &&& ints_at(json, "users"@) is Some
}

/// Whether `joined` is the record that a JSON value describes.
pub open spec fn is_user_joined(json: Json, joined: UserJoinedWorkspacePayload) -> bool {
    &&& int_at(json, "workspace_id"@) == Some(joined.workspace_id)
    &&& text_at(json, "workspace_name"@) == Some(joined.workspace_name@)
    &&& int_at(json, "user_id"@) == Some(joined.user_id)
    &&& text_at(json, "user_name"@) == Some(joined.user_name@)
    &&& text_at(json, "user_email"@) == Some(joined.user_email@)
    &&& ints_at(json, "users"@) == Some(joined.users@)
}

/// Reads the record of a join.
pub fn decode_user_joined(json: &Json) -> (r: Option<UserJoinedWorkspacePayload>)
    ensures
        match r {
            Some(joined) => is_user_joined(*json, joined),
            None => !fits_user_joined(*json),
        },
{
    let workspace_id = match int_field(json, "workspace_id") {
        Some(v) => v,
        None => { return None; },
    };
    let workspace_name = match text_field(json, "workspace_name") {
        Some(v) => v,
        None => { return None; },
    };
    let user_id = match int_field(json, "user_id") {
        Some(v) => v,
        None => { return None; },
    };
    let user_name = match text_field(json, "user_name") {
        Some(v) => v,
        None => { return None; },
    };
    let user_email = match text_field(json, "user_email") {
        Some(v) => v,
        None => { return None; },
    };
    let users = match ints_field(json, "users") {
        Some(v) => v,
        None => { return None; },
    };
    Some(
        UserJoinedWorkspacePayload { workspace_id, workspace_name, user_id, user_name, user_email, users },
    )
}

/// Whether a JSON value has the shape that a topic's payloads have.
pub open spec fn fits_payload(topic: Topic, json: Json) -> bool {
    match topic {
        Topic::ChatUpdated => fits_chat_updated(json),
        Topic::ChatMessageCreated => fits_message_created(json),
        Topic::WorkspaceDeleted => fits_workspace_record(json),
        Topic::WorkspaceUpdated => fits_workspace_record(json),
        Topic::UserJoinedWorkspace => fits_user_joined(json),
    }
}

/// Whether `payload` is the record of `topic` that a JSON value describes.
pub open spec fn is_payload(topic: Topic, json: Json, payload: Payload) -> bool {
    match topic {
        Topic::ChatUpdated => payload matches Payload::ChatUpdated(p) && is_chat_updated(json, p),
        Topic::ChatMessageCreated => payload matches Payload::ChatMessageCreated(p)
            && is_message_created(json, p),
        Topic::WorkspaceDeleted => payload matches Payload::WorkspaceDeleted(p) && is_workspace_record(
            json,
            p.workspace,
            p.users,
        ),
        Topic::WorkspaceUpdated => payload matches Payload::WorkspaceUpdated(p) && is_workspace_record(
            json,
            p.workspace,
            p.users,
        ),
        Topic::UserJoinedWorkspace => payload matches Payload::UserJoinedWorkspace(p) && is_user_joined(
            json,
            p,
        ),
    }
}

/// Reads a JSON value as the record of `topic`. `None` where the value
/// does not have that topic's shape.
pub fn decode_payload(topic: Topic, json: &Json) -> (r: Option<Payload>)
    ensures
        match r {
            Some(payload) => is_payload(topic, *json, payload),
            None => !fits_payload(topic, *json),
        },
{
    match topic {
        Topic::ChatUpdated => match decode_chat_updated(json) {
            Some(p) => Some(Payload::ChatUpdated(p)),
            None => None,
        },
        Topic::ChatMessageCreated => match decode_message_created(json) {
            Some(p) => Some(Payload::ChatMessageCreated(p)),
            None => None,
        },
        Topic::WorkspaceDeleted => match decode_workspace_record(json) {
            Some((workspace, users)) => Some(
                Payload::WorkspaceDeleted(WorkspaceDeletedPayload { workspace, users }),
            ),
            None => None,
        },
        Topic::WorkspaceUpdated => match decode_workspace_record(json) {
            Some((workspace, users)) => Some(
                Payload::WorkspaceUpdated(WorkspaceUpdatedPayload { workspace, users }),
            ),
            None => None,
        },
        Topic::UserJoinedWorkspace => match decode_user_joined(json) {
            Some(p) => Some(Payload::UserJoinedWorkspace(p)),
            None => None,
        },
    }
}

} // verus!
