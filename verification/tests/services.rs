use notify_server::ai_sdk::{Message, Role};
use notify_server::analytics::error::{AppError as AnalyticsError, ErrorOutput as AnalyticsErrorOutput};
use notify_server::bot::config::{AppConfig, ServerConfig};
use notify_server::chat_server::error::{AppError, ErrorOutput};
use notify_server::chat_server::handlers::auth::{signin_answer, AuthOutput, SigninAnswer};
use notify_server::chat_server::handlers::chat::{
    chat_not_found, require_member, require_name, require_self,
};
use notify_server::chat_server::models::chat::{
    check_chat_name, check_members_found, create_chat_error, create_chat_refused, is_member,
    left_empty, AddMembers, CreateChat, UpdateChat,
};
use notify_server::chat_server::models::workspace::{
    not_found, usable_invitation, CreateInvitation, JoinWorkspace, WorkspaceInvitation,
};
use notify_server::chat_server::models::ChatFile;
use notify_server::invite::{code_char, generate_invite_code, invite_code_from, to_capital};
use notify_server::notify::chat::ChatType;
use notify_server::text::{decimal, digit, prefixed};

fn create_chat_text(r: Result<(), AppError>) -> Option<String> {
    match r {
        Ok(()) => None,
        Err(AppError::CreateChatError(t)) => Some(t),
        Err(other) => panic!("unexpected error {:?}", other),
    }
}

fn not_found_text<T: std::fmt::Debug>(r: Result<T, AppError>) -> String {
    match r {
        Err(AppError::NotFound(t)) => t,
        other => panic!("unexpected result {:?}", other),
    }
}

fn invitation() -> WorkspaceInvitation {
    WorkspaceInvitation {
        id: 1,
        workspace_id: 2,
        invite_code: "ABCDEF012345".to_string(),
        created_by: 3,
        expires_at: None,
        max_uses: None,
        used_count: 0,
        is_active: true,
        created_at: 1_000,
    }
}

#[test]
fn role_names() {
    assert_eq!(Role::User.name(), "user");
    assert_eq!(Role::Assistant.name(), "assistant");
    assert_eq!(Role::System.name(), "system");
    assert_eq!(Role::System.to_text(), "system".to_string());
    let m = Message { role: Role::User, content: "hi".to_string() };
    assert_eq!(m.role, Role::User);
    assert_eq!(m.content, "hi");
}

#[test]
fn config_record_holds_its_fields() {
    let c = AppConfig { server: ServerConfig { port: 6686, db_url: "postgres://localhost/chat".to_string() } };
    assert_eq!(c.server.port, 6686);
    assert_eq!(c.server.db_url, "postgres://localhost/chat");
}

#[test]
fn error_output_carries_the_text() {
    assert_eq!(ErrorOutput::new("Invalid email or password".to_string()).error, "Invalid email or password");
    assert_eq!(AnalyticsErrorOutput::new("missing event data".to_string()).error, "missing event data");
}

#[test]
fn auth_output_carries_the_token() {
    let out = AuthOutput::new("abc.def.ghi");
    assert_eq!(out.token(), "abc.def.ghi");
    assert_eq!(AuthOutput::new("").token(), "");
}

#[test]
fn chat_error_statuses() {
    assert_eq!(AppError::EmailAleardyExists("a@b.c".to_string()).status(), 409);
    assert_eq!(AppError::CreateChatError("x".to_string()).status(), 400);
    assert_eq!(AppError::CreateMessageError("x".to_string()).status(), 400);
    assert_eq!(AppError::ChatFileError("x".to_string()).status(), 400);
    assert_eq!(AppError::CreateAgentError("x".to_string()).status(), 400);
    assert_eq!(AppError::UpdateAgentError("x".to_string()).status(), 400);
    assert_eq!(AppError::NotChatMemberError { user_id: 1, chat_id: 2 }.status(), 403);
    assert_eq!(AppError::NotFound("x".to_string()).status(), 404);
    assert_eq!(AppError::IoError("x".to_string()).status(), 500);
    assert_eq!(AppError::SqlxError("x".to_string()).status(), 500);
    assert_eq!(AppError::Argon2Error("x".to_string()).status(), 422);
    assert_eq!(AppError::AnyError("x".to_string()).status(), 500);
    assert_eq!(AppError::HttpHeaderError("x".to_string()).status(), 422);
    assert_eq!(AppError::AiAgentError("x".to_string()).status(), 500);
    assert_eq!(AppError::NotLoggedInError.status(), 401);
}

#[test]
fn chat_error_messages() {
    assert_eq!(
        AppError::EmailAleardyExists("Test@123.com".to_string()).message(),
        "email already exists: Test@123.com"
    );
    assert_eq!(
        AppError::NotChatMemberError { user_id: 12, chat_id: 305 }.message(),
        "user 12 is not member of chat 305"
    );
    assert_eq!(AppError::NotChatMemberError { user_id: 0, chat_id: u64::MAX }.message(),
        "user 0 is not member of chat 18446744073709551615");
    assert_eq!(AppError::ChatFileError("bad file".to_string()).message(), "bad file");
    assert_eq!(AppError::NotLoggedInError.message(), "not logged in");
    assert_eq!(AppError::NotFound("chat id: 3 not found".to_string()).message(), "not found error: chat id: 3 not found");
    assert_eq!(AppError::AnyError("boom".to_string()).message(), "general error: boom");
    assert_eq!(AppError::CreateChatError("x".to_string()).message(), "create chat error: x");
    assert_eq!(AppError::CreateAgentError("x".to_string()).message(), "create agent error: x");
    assert_eq!(AppError::UpdateAgentError("x".to_string()).message(), "update agent error: x");
    assert_eq!(AppError::CreateMessageError("x".to_string()).message(), "create message error: x");
    assert_eq!(AppError::IoError("x".to_string()).message(), "io error: x");
    assert_eq!(AppError::SqlxError("x".to_string()).message(), "sqlx error: x");
    assert_eq!(AppError::Argon2Error("x".to_string()).message(), "Argon2 password hash error: x");
    assert_eq!(AppError::HttpHeaderError("x".to_string()).message(), "http header parse error: x");
    assert_eq!(AppError::AiAgentError("x".to_string()).message(), "ai agent error: x");
}

#[test]
fn chat_error_response() {
    let (code, body) = AppError::EmailAleardyExists("Test@123.com".to_string()).response();
    assert_eq!(code, 409);
    assert_eq!(body.error, "email already exists: Test@123.com");
}

#[test]
fn analytics_error_responses() {
    assert_eq!(AnalyticsError::MissingEventContext.status(), 400);
    assert_eq!(AnalyticsError::MissingEventData.status(), 400);
    assert_eq!(AnalyticsError::MissingSystemInfo.status(), 400);
    assert_eq!(AnalyticsError::ClickhouseError("x".to_string()).status(), 500);
    assert_eq!(AnalyticsError::SqlxError("x".to_string()).status(), 500);
    assert_eq!(AnalyticsError::IoError("x".to_string()).status(), 500);
    assert_eq!(AnalyticsError::AnyError("x".to_string()).status(), 500);
    assert_eq!(AnalyticsError::ResponseError("x".to_string()).status(), 500);
    assert_eq!(AnalyticsError::MissingEventContext.message(), "missing event context");
    assert_eq!(AnalyticsError::MissingEventData.message(), "missing event data");
    assert_eq!(AnalyticsError::MissingSystemInfo.message(), "missing system info");
    assert_eq!(AnalyticsError::ClickhouseError("down".to_string()).message(), "clickhouse error: down");
    assert_eq!(AnalyticsError::SqlxError("down".to_string()).message(), "sqlx error: down");
    assert_eq!(AnalyticsError::IoError("down".to_string()).message(), "io error: down");
    assert_eq!(AnalyticsError::AnyError("down".to_string()).message(), "generic error: down");
    assert_eq!(AnalyticsError::ResponseError("down".to_string()).message(), "protobuf error: down");
    let (code, body) = AnalyticsError::ResponseError("bad".to_string()).response();
    assert_eq!(code, 500);
    assert_eq!(body.error, "protobuf error: bad");
}

#[test]
fn decimal_writes_numbers() {
    assert_eq!(decimal(0), "0");
    assert_eq!(decimal(7), "7");
    assert_eq!(decimal(10), "10");
    assert_eq!(decimal(1234567890), "1234567890");
    assert_eq!(decimal(u64::MAX), "18446744073709551615");
    assert_eq!(digit(3), "3");
    assert_eq!(prefixed("io error: ", "gone"), "io error: gone");
}

#[test]
fn create_chat_new_maps_empty_name_to_none() {
    let c = CreateChat::new("", &[1, 2], false);
    assert_eq!(c.name, None);
    assert_eq!(c.members, vec![1, 2]);
    assert!(!c.public);
    let c = CreateChat::new("general", &[1, 2, 3], true);
    assert_eq!(c.name.as_deref(), Some("general"));
    assert_eq!(c.members, vec![1, 2, 3]);
    assert!(c.public);
}

#[test]
fn create_chat_default_is_empty() {
    let c = CreateChat::default();
    assert_eq!(c.name, None);
    assert!(c.members.is_empty());
    assert!(!c.public);
}

#[test]
fn create_chat_rules_in_order() {
    assert_eq!(create_chat_text(CreateChat::new("", &[1, 2], false).check(1)), None);
    assert_eq!(
        create_chat_text(CreateChat::new("", &[1, 2], false).check(3)),
        Some("you must be a member of the chat".to_string())
    );
    assert_eq!(
        create_chat_text(CreateChat::new("ab", &[1], false).check(3)),
        Some("you must be a member of the chat".to_string())
    );
    assert_eq!(
        create_chat_text(CreateChat::new("ab", &[1], false).check(1)),
        Some("chat name must have at least 3 characters".to_string())
    );
    assert_eq!(
        create_chat_text(CreateChat::new("abc", &[1], false).check(1)),
        Some("chat must have at lease 2 members".to_string())
    );
    assert_eq!(
        create_chat_text(CreateChat::new("", &[1, 2, 3, 4, 5, 6, 7, 8, 9], false).check(9)),
        Some("group chat with more then 8 members must have a name".to_string())
    );
    assert_eq!(create_chat_text(CreateChat::new("", &[1, 2, 3, 4, 5, 6, 7, 8], false).check(8)), None);
    assert_eq!(create_chat_text(CreateChat::new("big", &[1, 2, 3, 4, 5, 6, 7, 8, 9], false).check(9)), None);
}

#[test]
fn chat_name_length_is_counted_in_bytes() {
    assert_eq!(create_chat_text(check_chat_name("ab")), Some("chat name must have at least 3 characters".to_string()));
    assert_eq!(create_chat_text(check_chat_name("")), Some("chat name must have at least 3 characters".to_string()));
    assert_eq!(create_chat_text(check_chat_name("new name")), None);
    assert_eq!(create_chat_text(check_chat_name("abc")), None);
    assert_eq!(create_chat_text(check_chat_name("\u{e9}\u{e9}")), None);
    assert_eq!(create_chat_text(CreateChat::new("\u{e9}a", &[1, 2], false).check(1)), None);
}

#[test]
fn members_must_all_exist() {
    let c = CreateChat::new("", &[1, 999], false);
    assert_eq!(create_chat_text(c.check_found(1)), Some("some users not exists".to_string()));
    assert_eq!(create_chat_text(c.check_found(2)), None);
    assert_eq!(create_chat_text(check_members_found(2, 1)), Some("some users do not exist".to_string()));
    assert_eq!(create_chat_text(check_members_found(2, 2)), None);
}

#[test]
fn chat_type_by_name_and_size() {
    assert_eq!(CreateChat::new("", &[1, 2], false).chat_type(), ChatType::Single);
    assert_eq!(CreateChat::new("", &[1, 2], true).chat_type(), ChatType::Single);
    assert_eq!(CreateChat::new("", &[1, 2, 3], false).chat_type(), ChatType::Group);
    assert_eq!(CreateChat::new("test", &[1, 2, 3], true).chat_type(), ChatType::PublicChannel);
    assert_eq!(CreateChat::new("test", &[1, 2], false).chat_type(), ChatType::PrivateChannel);
}

#[test]
fn store_refusal_of_a_new_chat() {
    let e = create_chat_refused(Some("chats_ws_id_name_key"), "duplicate key".to_string());
    assert!(matches!(e, AppError::CreateChatError(t) if t == "a chat with this name already exists in your workspace"));
    let e = create_chat_refused(Some("chats_pkey"), "duplicate key".to_string());
    assert!(matches!(e, AppError::SqlxError(t) if t == "duplicate key"));
    let e = create_chat_refused(None, "connection lost".to_string());
    assert!(matches!(e, AppError::SqlxError(t) if t == "connection lost"));
    assert!(matches!(create_chat_error("name is required"), AppError::CreateChatError(t) if t == "name is required"));
}

#[test]
fn membership_and_emptiness() {
    assert!(is_member(&vec![1, 2, 3], 2));
    assert!(!is_member(&vec![1, 2, 3], 10));
    assert!(!is_member(&vec![], 1));
    assert!(left_empty(None));
    assert!(left_empty(Some(0)));
    assert!(!left_empty(Some(2)));
}

#[test]
fn request_records_hold_their_fields() {
    let u = UpdateChat { name: Some("new name".to_string()) };
    assert_eq!(u.name.as_deref(), Some("new name"));
    let a = AddMembers { members: vec![3, 4] };
    assert_eq!(a.members, vec![3, 4]);
    let f = ChatFile { ws_id: 1, ext: "png".to_string(), hash: "0a1b".to_string() };
    assert_eq!((f.ws_id, f.ext.as_str(), f.hash.as_str()), (1, "png", "0a1b"));
    let c = CreateInvitation { expires_in_days: Some(10), max_uses: Some(12) };
    assert_eq!((c.expires_in_days, c.max_uses), (Some(10), Some(12)));
    let j = JoinWorkspace { invite_code: "INVALIDCODE".to_string() };
    assert_eq!(j.invite_code, "INVALIDCODE");
}

#[test]
fn invitation_usable_when_nothing_forbids() {
    assert!(invitation().check_usable(5_000).is_ok());
    let mut inv = invitation();
    inv.expires_at = Some(5_000);
    inv.max_uses = Some(10);
    inv.used_count = 9;
    assert!(inv.check_usable(5_000).is_ok());
    let got = usable_invitation(Some(inv), 4_000).unwrap();
    assert_eq!(got.id, 1);
    assert_eq!(got.used_count, 9);
}

#[test]
fn invitation_faults_in_order() {
    assert_eq!(not_found_text(usable_invitation(None, 0)), "Invalid invitation code");

    let mut inv = invitation();
    inv.is_active = false;
    inv.expires_at = Some(1);
    assert_eq!(not_found_text(inv.check_usable(100)), "Invitation is no longer active");

    let mut inv = invitation();
    inv.expires_at = Some(99);
    inv.max_uses = Some(0);
    assert_eq!(not_found_text(inv.check_usable(100)), "Invitation has expired");

    let mut inv = invitation();
    inv.max_uses = Some(10);
    inv.used_count = 10;
    assert_eq!(not_found_text(inv.check_usable(100)), "Invitation has reached maximum uses");
    assert_eq!(not_found_text(usable_invitation(Some(inv), 100)), "Invitation has reached maximum uses");
    assert!(matches!(not_found("Workspace not found"), AppError::NotFound(t) if t == "Workspace not found"));
}

#[test]
fn invite_code_keeps_first_twelve_letters_and_digits() {
    assert_eq!(invite_code_from("0190a6c4-5b1e-7d3f-8a2b-0123456789ab"), "0190A6C45B1E");
    assert_eq!(invite_code_from("ab-cd"), "ABCD");
    assert_eq!(invite_code_from(""), "");
    assert_eq!(invite_code_from("----"), "");
    assert_eq!(invite_code_from("abcdefghijklmnopqrstuvwxyz"), "ABCDEFGHIJKL");
    assert_eq!(invite_code_from("A1-b2_C3 d4"), "A1B2C3D4");
}

#[test]
fn generated_invite_codes_are_twelve_capital_hex_digits() {
    let a = generate_invite_code();
    let b = generate_invite_code();
    for code in [&a, &b] {
        assert_eq!(code.len(), 12);
        assert!(code.chars().all(|c| c.is_ascii_digit() || ('A'..='F').contains(&c)));
    }
    assert!(a <= b);
}

#[test]
fn code_characters() {
    assert!(code_char('0') && code_char('9') && code_char('a') && code_char('Z'));
    assert!(!code_char('-') && !code_char(' ') && !code_char('\u{e9}'));
    assert_eq!(to_capital('a'), 'A');
    assert_eq!(to_capital('z'), 'Z');
    assert_eq!(to_capital('Q'), 'Q');
    assert_eq!(to_capital('7'), '7');
    assert_eq!(to_capital('-'), '-');
}

#[test]
fn signin_answers() {
    let granted = signin_answer(Some("abc.def"));
    assert_eq!(granted.status(), 200);
    assert!(matches!(granted, SigninAnswer::Granted(out) if out.token() == "abc.def"));
    let refused = signin_answer(None);
    assert_eq!(refused.status(), 403);
    assert!(matches!(refused, SigninAnswer::Refused(out) if out.error == "Invalid email or password"));
}

#[test]
fn chat_guards() {
    assert_eq!(not_found_text::<()>(Err(chat_not_found(10))), "chat id: 10 not found");
    assert_eq!(chat_not_found(10).status(), 404);
    assert!(require_member(true, 3).is_ok());
    assert_eq!(not_found_text(require_member(false, 3)), "chat id: 3 not found");
    assert_eq!(require_name(Some("new name".to_string())).unwrap(), "new name");
    assert!(matches!(require_name(None), Err(AppError::CreateChatError(t)) if t == "name is required"));
    assert!(require_self(4, 4).is_ok());
    assert_eq!(not_found_text(require_self(4, 5)), "you can only remove yourself");
    assert_eq!(not_found_text(require_self(-1, 1)), "you can only remove yourself");
    assert!(require_self(-1, u64::MAX).is_ok());
}
