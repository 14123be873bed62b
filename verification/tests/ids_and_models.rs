use wpp_server::ids::{
    new_uuid, object_id_to_hex, parse_object_id, parse_uuid, uuid_string, DateTime, IdParseError,
    ObjectId, Uuid,
};
use wpp_server::models::chat::{Chat, ChatSafe};
use wpp_server::models::chat_message::{ChatMessage, ChatMessageSafe};
use wpp_server::models::user::{User, UserSafe};

fn oid(last: u8) -> ObjectId {
    ObjectId { bytes: [0x65, 0x0a, 0xbc, 0xde, 0, 1, 2, 3, 4, 5, 6, last] }
}

#[test]
fn object_id_prints_as_lower_hex() {
    let id = oid(0xff);
    assert_eq!(object_id_to_hex(&id), "650abcde00010203040506ff");
}

#[test]
fn object_id_text_reads_back() {
    let id = oid(0x7a);
    let text = object_id_to_hex(&id);
    let back = parse_object_id(&text).unwrap();
    assert_eq!(back.bytes, id.bytes);
    assert!(back.same(&id));
}

#[test]
fn object_id_parse_accepts_upper_case() {
    let back = parse_object_id("650ABCDE00010203040506FF").unwrap();
    assert_eq!(back.bytes, oid(0xff).bytes);
}

#[test]
fn object_id_parse_rejects_bad_text() {
    assert!(matches!(parse_object_id("650abcde"), Err(IdParseError::InvalidHex)));
    assert!(matches!(parse_object_id("650abcde00010203040506fg"), Err(IdParseError::InvalidHex)));
    assert!(matches!(parse_object_id("650abcde00010203040506ff00"), Err(IdParseError::InvalidHex)));
    assert!(matches!(parse_object_id(""), Err(IdParseError::InvalidHex)));
}

#[test]
fn object_ids_compare_by_bytes() {
    assert!(oid(1).same(&oid(1)));
    assert!(!oid(1).same(&oid(2)));
}

#[test]
fn uuid_prints_hyphenated() {
    let u = Uuid { bytes: [0x67, 0xe5, 0x50, 0x44, 0x10, 0xb1, 0x42, 0x6f, 0x92, 0x47, 0xbb, 0x68, 0x0e, 0x5f, 0xe0, 0xc8] };
    assert_eq!(uuid_string(&u), "67e55044-10b1-426f-9247-bb680e5fe0c8");
}

#[test]
fn uuid_text_reads_back() {
    let u = new_uuid();
    let text = uuid_string(&u);
    let back = parse_uuid(&text).unwrap();
    assert!(back.same(&u));
    assert!(parse_uuid("not-a-uuid").is_none());
}

#[test]
fn new_uuid_is_version_four() {
    let u = new_uuid();
    assert_eq!(u.bytes[6] >> 4, 4);
    assert_eq!(u.bytes[8] >> 6, 2);
    assert!(!u.same(&new_uuid()));
}

#[test]
fn user_safe_keeps_public_fields() {
    let user = User {
        id: Some(oid(9)),
        email: "a@b.c".to_string(),
        password_hash: "secret".to_string(),
        display_name: "Ana".to_string(),
        profile_image: String::new(),
    };
    let safe = UserSafe::from(user);
    assert_eq!(safe.id.bytes, oid(9).bytes);
    assert_eq!(safe.email, "a@b.c");
    assert_eq!(safe.display_name, "Ana");
    let copy = safe.duplicate();
    assert_eq!(copy.email, safe.email);
}

#[test]
fn chat_message_safe_keeps_every_field() {
    let m = ChatMessage {
        id: Some(oid(3)),
        chat_id: oid(4),
        creator: Some(oid(5)),
        created_at: DateTime { timestamp_millis: 1000 },
        deleted_at: None,
        content: "hi".to_string(),
    };
    let s = ChatMessageSafe::from(m.duplicate());
    assert_eq!(s.id.bytes, oid(3).bytes);
    assert_eq!(s.chat_id.bytes, oid(4).bytes);
    assert_eq!(s.creator.unwrap().bytes, oid(5).bytes);
    assert_eq!(s.created_at, DateTime { timestamp_millis: 1000 });
    assert!(s.deleted_at.is_none());
    assert_eq!(s.content, "hi");
}

#[test]
fn chat_safe_starts_without_messages_or_members() {
    let chat = Chat {
        id: Some(oid(1)),
        creator: oid(2),
        name: "general".to_string(),
        first_message_ts: Some(DateTime { timestamp_millis: 5 }),
        last_message_ts: Some(DateTime { timestamp_millis: 7 }),
    };
    let safe = ChatSafe::from(chat);
    assert_eq!(safe.id.bytes, oid(1).bytes);
    assert_eq!(safe.name, "general");
    assert_eq!(safe.first_message_ts.timestamp_millis, 5);
    assert_eq!(safe.last_message_ts.timestamp_millis, 7);
    assert!(safe.messages.is_empty());
    assert!(safe.users.is_empty());
}

#[test]
fn uuid_parser_reads_every_documented_form() {
    let bytes = [0x67, 0xe5, 0x50, 0x44, 0x10, 0xb1, 0x42, 0x6f, 0x92, 0x47, 0xbb, 0x68, 0x0e, 0x5f, 0xe0, 0xc8];
    for text in [
        "67e55044-10b1-426f-9247-bb680e5fe0c8",
        "67e5504410b1426f9247bb680e5fe0c8",
        "67E55044-10B1-426F-9247-BB680E5FE0C8",
        "{67e55044-10b1-426f-9247-bb680e5fe0c8}",
        "urn:uuid:67e55044-10b1-426f-9247-bb680e5fe0c8",
        "URN:Uuid:67e55044-10b1-426f-9247-bb680e5fe0c8",
    ] {
        assert_eq!(parse_uuid(text).unwrap().bytes, bytes, "{text}");
    }
    for text in [
        "",
        "67e55044-10b1-426f-9247-bb680e5fe0c",
        "67e55044_10b1-426f-9247-bb680e5fe0c8",
        "67e55044-10b1-426f-9247-bb680e5fe0cg",
        "{67e55044-10b1-426f-9247-bb680e5fe0c8",
        "urn:uid::67e55044-10b1-426f-9247-bb680e5fe0c8",
        "67e55044-10b1-426f-9247-bb680e5fe0c8é",
    ] {
        assert!(parse_uuid(text).is_none(), "{text}");
    }
}
