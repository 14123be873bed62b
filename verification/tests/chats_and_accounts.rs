use wpp_server::api::chat::{
    created_chat, creator_membership, is_member, join_plan, member_ids, new_chat, opening_message,
    read_plan, CreateRequest,
};
use wpp_server::api::message::{
    self, chronological, message_query, new_message, posted, GetRequest, MessageError, PAGE_SIZE,
};
use wpp_server::api::user::{
    check_email_free, login, try_login, profile_notice, register, registered, session_claims,
    turn_credentials_request, update_fields, AuthError, RegisterRequest, UpdateRequest,
};
use wpp_server::api::websocket::WebsocketServerMessage;
use wpp_server::ids::{DateTime, ObjectId};
use wpp_server::models::chat::ChatSafe;
use wpp_server::models::chat_message::ChatMessageSafe;
use wpp_server::models::chat_user::ChatUserPopulated;
use wpp_server::models::user::{User, UserSafe};

fn oid(last: u8) -> ObjectId {
    ObjectId { bytes: [0x65, 0x0a, 0xbc, 0xde, 0, 1, 2, 3, 4, 5, 6, last] }
}

fn ts(ms: i64) -> DateTime {
    DateTime { timestamp_millis: ms }
}

fn user(last: u8, name: &str) -> UserSafe {
    UserSafe { id: oid(last), email: format!("{name}@example.com"), display_name: name.to_string() }
}

fn member(last: u8, name: &str) -> ChatUserPopulated {
    ChatUserPopulated { id: oid(last), last_message_seen_ts: ts(1), display_name: name.to_string() }
}

fn chat_with(users: Vec<ChatUserPopulated>) -> ChatSafe {
    ChatSafe {
        id: oid(100),
        creator: oid(1),
        name: "general".to_string(),
        first_message_ts: ts(10),
        last_message_ts: ts(20),
        messages: Vec::new(),
        users,
    }
}

#[test]
fn creating_a_chat_answers_it_with_opening_message_and_creator() {
    let creator = user(1, "ana");
    let chat = new_chat(&CreateRequest { name: "general".to_string() }, &creator);
    assert!(chat.id.is_none() && chat.first_message_ts.is_none() && chat.last_message_ts.is_none());
    assert_eq!(chat.name, "general");
    let mut msg = opening_message(oid(100), ts(42));
    assert_eq!(msg.content, "Chat created");
    assert!(msg.creator.is_none());
    let membership = creator_membership(oid(100), &creator, ts(42));
    assert!(membership.user_id.same(&oid(1)));
    assert_eq!(membership.last_message_seen_ts, ts(42));
    msg.id = Some(oid(200));
    let safe = created_chat(chat, oid(100), ts(42), msg, &creator);
    assert!(safe.id.same(&oid(100)));
    assert_eq!(safe.first_message_ts, ts(42));
    assert_eq!(safe.last_message_ts, ts(42));
    assert_eq!(safe.messages.len(), 1);
    assert!(safe.messages[0].id.same(&oid(200)));
    assert_eq!(safe.messages[0].content, "Chat created");
    assert_eq!(safe.users.len(), 1);
    assert!(safe.users[0].id.same(&oid(1)));
    assert_eq!(safe.users[0].display_name, "ana");
}

#[test]
fn membership_is_found_by_id() {
    let users = vec![member(1, "ana"), member(2, "ben")];
    assert!(is_member(&users, &oid(2)));
    assert!(!is_member(&users, &oid(3)));
    let ids = member_ids(&users);
    assert!(ids[0].same(&oid(1)) && ids[1].same(&oid(2)));
}

#[test]
fn joining_as_member_does_nothing() {
    let chat = chat_with(vec![member(1, "ana")]);
    assert!(join_plan(&chat, &user(1, "ana")).is_none());
}

#[test]
fn joining_tells_the_existing_members() {
    let chat = chat_with(vec![member(1, "ana"), member(2, "ben")]);
    let plan = join_plan(&chat, &user(3, "cid")).unwrap();
    assert!(plan.membership.chat_id.same(&oid(100)));
    assert!(plan.membership.user_id.same(&oid(3)));
    assert_eq!(plan.membership.last_message_seen_ts, ts(20));
    assert_eq!(plan.notice.recipients.len(), 2);
    match &plan.notice.message {
        WebsocketServerMessage::UserJoined { chat_id, user } => {
            assert!(chat_id.same(&oid(100)));
            assert!(user.id.same(&oid(3)));
            assert_eq!(user.display_name, "cid");
            assert_eq!(user.last_message_seen_ts, ts(20));
        }
        _ => panic!("expected UserJoined"),
    }
    // the joiner is then a member, and a second join is a no-op
    let mut users = chat.users;
    users.push(member(3, "cid"));
    assert!(join_plan(&chat_with(users), &user(3, "cid")).is_none());
}

#[test]
fn marking_read_moves_the_mark_to_the_last_message() {
    let chat = chat_with(vec![member(1, "ana")]);
    let plan = read_plan(&chat, &user(1, "ana"));
    assert_eq!(plan.last_message_seen_ts, ts(20));
    assert!(plan.chat_id.same(&oid(100)) && plan.user_id.same(&oid(1)));
    assert_eq!(plan.notice.recipients.len(), 1);
    assert!(plan.notice.recipients[0].same(&oid(1)));
    assert!(matches!(
        plan.notice.message,
        WebsocketServerMessage::SetChatRead { last_message_ts, .. } if last_message_ts == ts(20)
    ));
}

#[test]
fn posting_needs_membership() {
    let chat = chat_with(vec![member(1, "ana"), member(2, "ben")]);
    let req = message::CreateRequest { chat_id: oid(100), content: "hi".to_string() };
    assert!(matches!(new_message(&chat, &oid(9), req, ts(30)), Err(MessageError::ChatNotFound)));
    let req = message::CreateRequest { chat_id: oid(100), content: "hi".to_string() };
    let mut m = new_message(&chat, &oid(2), req, ts(30)).unwrap();
    assert!(m.id.is_none());
    assert!(m.creator.unwrap().same(&oid(2)));
    assert_eq!(m.created_at, ts(30));
    assert_eq!(m.content, "hi");
    m.id = Some(oid(250));
    let (safe, notice) = posted(m, &chat);
    assert!(safe.id.same(&oid(250)));
    assert_eq!(safe.content, "hi");
    assert_eq!(notice.recipients.len(), 2);
    assert!(matches!(notice.message, WebsocketServerMessage::NewMessage(ref s) if s.content == "hi"));
}

#[test]
fn history_is_paged_and_put_in_written_order() {
    let q = message_query(&GetRequest { chat_id: oid(100), last_message_ts: Some(ts(50)) });
    assert_eq!(q.limit, PAGE_SIZE);
    assert_eq!(PAGE_SIZE, 10);
    assert_eq!(q.before, Some(ts(50)));
    let q = message_query(&GetRequest { chat_id: oid(100), last_message_ts: None });
    assert!(q.before.is_none());
    let mk = |n: i64| ChatMessageSafe {
        id: oid(n as u8),
        chat_id: oid(100),
        creator: None,
        created_at: ts(n),
        deleted_at: None,
        content: n.to_string(),
    };
    let page = chronological(vec![mk(3), mk(2), mk(1)]);
    let order: Vec<i64> = page.iter().map(|m| m.created_at.timestamp_millis).collect();
    assert_eq!(order, vec![1, 2, 3]);
    assert!(chronological(Vec::new()).is_empty());
}

fn request(password: &str) -> RegisterRequest {
    RegisterRequest {
        email: "ana@example.com".to_string(),
        password: password.to_string(),
        display_name: "Ana".to_string(),
    }
}

#[test]
fn taken_email_is_refused() {
    assert!(matches!(check_email_free(Ok(true)), Err(AuthError::EmailExists)));
    assert!(check_email_free(Ok(false)).is_ok());
    assert!(check_email_free(Err(())).is_ok());
    assert!(matches!(register(request("pw"), Ok(true)), Err(AuthError::EmailExists)));
    assert_eq!(AuthError::EmailExists.status(), 400);
    assert_eq!(AuthError::IncorrectCredentials.status(), 404);
    assert_eq!(AuthError::Internal.status(), 500);
}

#[test]
fn registered_password_logs_in_and_others_do_not() {
    let stored = register(request("hunter2"), Ok(false)).unwrap();
    assert!(stored.id.is_none());
    assert_eq!(stored.email, "ana@example.com");
    assert_eq!(stored.profile_image, "");
    assert_eq!(stored.password_hash.len(), 60);
    assert!(stored.password_hash.starts_with("$2b$10$"));
    let hash = stored.password_hash.clone();
    let with_id = User { id: Some(oid(7)), ..stored };
    let ok = login(Ok(Some(with_id)), "hunter2").unwrap();
    assert!(ok.id.same(&oid(7)));
    assert_eq!(ok.display_name, "Ana");
    let again = User {
        id: Some(oid(7)),
        email: "ana@example.com".to_string(),
        password_hash: hash,
        display_name: "Ana".to_string(),
        profile_image: String::new(),
    };
    assert!(matches!(login(Ok(Some(again)), "wrong"), Err(AuthError::IncorrectCredentials)));
}

#[test]
fn login_failures_are_told_apart() {
    assert!(matches!(login(Ok(None), "x"), Err(AuthError::IncorrectCredentials)));
    assert!(matches!(login(Err(()), "x"), Err(AuthError::Internal)));
    let broken = User {
        id: Some(oid(7)),
        email: "a".to_string(),
        password_hash: "not a bcrypt hash".to_string(),
        display_name: "A".to_string(),
        profile_image: String::new(),
    };
    assert!(matches!(login(Ok(Some(broken)), "x"), Err(AuthError::Internal)));
}

#[test]
fn account_without_id_is_answered_unless_the_password_matches() {
    let stored = register(request("hunter2"), Ok(false)).unwrap();
    assert!(stored.id.is_none());
    let copy = User {
        id: None,
        email: stored.email.clone(),
        password_hash: stored.password_hash.clone(),
        display_name: stored.display_name.clone(),
        profile_image: String::new(),
    };
    assert!(matches!(login(Ok(Some(copy)), "wrong"), Err(AuthError::IncorrectCredentials)));
    assert!(try_login(Ok(Some(stored)), "hunter2").is_none());
    assert!(matches!(try_login(Ok(None), "x"), Some(Err(AuthError::IncorrectCredentials))));
}

#[test]
fn tokens_last_one_day() {
    let c = session_claims(oid(1), 1_700_000_000);
    assert_eq!(c.exp, 1_700_086_400);
    assert!(c.user_id.same(&oid(1)));
    let stored = User {
        id: None,
        email: "e".to_string(),
        password_hash: "h".to_string(),
        display_name: "d".to_string(),
        profile_image: String::new(),
    };
    let (safe, claims) = registered(stored, Some(oid(5)), 100);
    assert!(safe.id.same(&oid(5)) && claims.user_id.same(&oid(5)));
    assert_eq!(claims.exp, 86_500);
}

#[test]
fn profile_update_sets_only_given_fields() {
    let both = update_fields(&UpdateRequest {
        display_name: Some("Ana".to_string()),
        profile_image: Some("/media/x.png".to_string()),
    });
    assert_eq!(
        both,
        vec![
            ("display_name".to_string(), "Ana".to_string()),
            ("profile_image".to_string(), "/media/x.png".to_string())
        ]
    );
    let image = update_fields(&UpdateRequest { display_name: None, profile_image: Some("i".to_string()) });
    assert_eq!(image, vec![("profile_image".to_string(), "i".to_string())]);
    assert!(update_fields(&UpdateRequest { display_name: None, profile_image: None }).is_empty());
    let n = profile_notice(&user(1, "ana"));
    assert_eq!(n.recipients.len(), 1);
    assert!(matches!(n.message, WebsocketServerMessage::ProfileUpdated(ref u) if u.display_name == "ana"));
}

#[test]
fn turn_request_names_app_and_token() {
    let (url, auth) = turn_credentials_request("app1", "tok");
    assert_eq!(url, "https://rtc.live.cloudflare.com/v1/turn/keys/app1/credentials/generate-ice-servers");
    assert_eq!(auth, "Bearer tok");
}
