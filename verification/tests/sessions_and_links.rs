use wpp_server::api::media::{upload_paths, upload_target, UploadError};
use wpp_server::api::session::{
    CloseStep, Heartbeat, MediaError, MediaSession, MediaStep, SessionAction, SessionEvent,
    CLIENT_TIMEOUT_NANOS,
};
use wpp_server::api::websocket::MediaSoup;
use wpp_server::ids::{object_id_to_hex, uuid_string, ObjectId, Uuid};
use wpp_server::jwt::{authorize, extract_token, strip_bearer, AuthRejection};
use wpp_server::redis::{
    connection_step, room_available, room_channel, sync_channel, RedisError, RedisEvent, RedisStep,
    RetryAction, RetryPolicy,
};

fn uid(last: u8) -> Uuid {
    Uuid { bytes: [0x11, 0x22, 0x33, 0x44, 0x55, 0x66, 0x47, 0x77, 0x88, 0x99, 0, 0, 0, 0, 0, last] }
}

fn oid(last: u8) -> ObjectId {
    ObjectId { bytes: [0x65, 0x0a, 0xbc, 0xde, 0, 1, 2, 3, 4, 5, 6, last] }
}

#[test]
fn upload_is_stored_under_its_id_and_extension() {
    let t = upload_paths(&uid(1), "png");
    let id = uuid_string(&uid(1));
    assert_eq!(t.storage_path, format!("./media/{id}.png"));
    assert_eq!(t.response.path, format!("/media/{id}.png"));
}

#[test]
fn upload_needs_name_and_extension() {
    assert!(matches!(upload_target(None), Err(UploadError::MissingFileName)));
    assert!(matches!(upload_target(Some("README".to_string())), Err(UploadError::MissingExtension)));
    assert!(matches!(upload_target(Some(".bashrc".to_string())), Err(UploadError::MissingExtension)));
    let t = upload_target(Some("photo.large.jpg".to_string())).unwrap();
    assert!(t.storage_path.starts_with("./media/") && t.storage_path.ends_with(".jpg"));
    assert!(t.response.path.starts_with("/media/") && t.response.path.ends_with(".jpg"));
    assert_eq!(t.response.path.len(), "/media/".len() + 36 + ".jpg".len());
    let other = upload_target(Some("photo.jpg".to_string())).unwrap();
    assert_ne!(other.response.path, t.response.path);
}

#[test]
fn upload_keeps_the_part_after_the_last_dot() {
    for (name, ext) in [
        ("a.txt", "txt"),
        ("archive.tar.gz", "gz"),
        ("..x", "x"),
        ("v1.", ""),
        ("dir/a.png", "png"),
        ("/x.png", "png"),
        ("a.b/", "b"),
        ("x.d/./", "d"),
        ("a/../b.c.jpg", "jpg"),
    ] {
        let t = upload_target(Some(name.to_string())).unwrap();
        let stored = t.response.path.strip_prefix("/media/").unwrap();
        assert_eq!(stored.len(), 36 + 1 + ext.len(), "{name}");
        assert!(stored.ends_with(&format!(".{ext}")), "{name}");
        assert_eq!(t.storage_path, format!("./media/{stored}"));
    }
    for name in ["..", "a/..", "dir.x/.hidden", "/", "./."] {
        assert!(matches!(upload_target(Some(name.to_string())), Err(UploadError::MissingExtension)), "{name}");
    }
}

#[test]
fn bearer_token_is_found() {
    assert_eq!(strip_bearer("Bearer abc.def"), Some("abc.def".to_string()));
    assert_eq!(strip_bearer("Bearer "), Some(String::new()));
    assert_eq!(strip_bearer("bearer abc"), None);
    assert_eq!(strip_bearer("Basic abc"), None);
    assert_eq!(strip_bearer("Bear"), None);
    assert_eq!(extract_token(Some("Bearer t")), Some("t".to_string()));
    assert_eq!(extract_token(None), None);
}

#[test]
fn unauthorized_requests_are_told_why() {
    assert!(matches!(authorize(&None, true), Err(AuthRejection::NoToken)));
    assert!(matches!(authorize(&Some("t".to_string()), false), Err(AuthRejection::InvalidToken)));
    assert!(authorize(&Some("t".to_string()), true).is_ok());
    assert_eq!(AuthRejection::NoToken.message(), "No token found");
    assert_eq!(AuthRejection::InvalidToken.message(), "Invalid token");
}

#[test]
fn redis_link_backs_off_then_gives_up() {
    let mut p = RetryPolicy::new();
    assert_eq!(p.on_connection_end(true), RetryAction::RetryAfter(1));
    assert_eq!(p.on_connection_end(true), RetryAction::RetryAfter(2));
    assert_eq!(p.on_connection_end(true), RetryAction::RetryAfter(4));
    assert_eq!(p.on_connection_end(true), RetryAction::RetryAfter(8));
    assert_eq!(p.on_connection_end(true), RetryAction::GiveUp);
    assert_eq!(p.consecutive_failures, 5);
}

#[test]
fn redis_link_stops_cleanly_on_shutdown() {
    let mut p = RetryPolicy::new();
    assert_eq!(p.on_connection_end(true), RetryAction::RetryAfter(1));
    assert_eq!(p.on_connection_end(false), RetryAction::Shutdown);
    assert_eq!(p.consecutive_failures, 1);
    assert_eq!(p.backoff_secs, 2);
}

#[test]
fn room_is_available_when_subscribed_elsewhere() {
    assert_eq!(room_available(&vec![("r".to_string(), 2)]), Ok(true));
    assert_eq!(room_available(&vec![("r".to_string(), 0), ("s".to_string(), 4)]), Ok(false));
    assert_eq!(room_available(&vec![]), Err(RedisError::EmptyResultSet));
}

#[test]
fn redis_events_map_to_steps() {
    assert_eq!(connection_step(&RedisEvent::Published(Some("{}".to_string()))), RedisStep::Deliver);
    assert_eq!(connection_step(&RedisEvent::Published(None)), RedisStep::Ignore);
    assert_eq!(connection_step(&RedisEvent::Command), RedisStep::Execute);
    assert_eq!(connection_step(&RedisEvent::CommandsClosed), RedisStep::Abort);
    assert_eq!(connection_step(&RedisEvent::ShutdownSignal), RedisStep::Stop);
    assert_eq!(connection_step(&RedisEvent::StreamEnded), RedisStep::Fail);
    assert_eq!(sync_channel(), "sync_messages");
    assert_eq!(room_channel(&oid(1)), object_id_to_hex(&oid(1)));
}

#[test]
fn silent_client_is_dropped_at_tick() {
    let mut hb = Heartbeat::new(0);
    assert_eq!(hb.step(&SessionEvent::Tick, CLIENT_TIMEOUT_NANOS), SessionAction::SendPing);
    assert_eq!(hb.step(&SessionEvent::Tick, CLIENT_TIMEOUT_NANOS + 1), SessionAction::Stop);
    let mut hb = Heartbeat::new(0);
    assert_eq!(hb.step(&SessionEvent::Pong, 9_000_000_000), SessionAction::Nothing);
    assert_eq!(hb.last_heard_nanos, 9_000_000_000);
    assert_eq!(hb.step(&SessionEvent::Tick, 15_000_000_000), SessionAction::SendPing);
}

#[test]
fn session_events_map_to_actions() {
    let mut hb = Heartbeat::new(5);
    assert_eq!(hb.step(&SessionEvent::Ping, 6), SessionAction::SendPong);
    assert_eq!(hb.step(&SessionEvent::Text, 7), SessionAction::HandleRequest);
    assert_eq!(hb.step(&SessionEvent::Binary, 8), SessionAction::Nothing);
    assert_eq!(hb.last_heard_nanos, 8);
    assert_eq!(hb.step(&SessionEvent::Notification, 9), SessionAction::Forward);
    assert_eq!(hb.step(&SessionEvent::Close, 10), SessionAction::Stop);
    assert_eq!(hb.step(&SessionEvent::StreamError, 10), SessionAction::Stop);
    assert_eq!(hb.step(&SessionEvent::StreamEnd, 10), SessionAction::Stop);
    assert_eq!(hb.step(&SessionEvent::NotificationsClosed, 10), SessionAction::Abort);
    assert_eq!(hb.last_heard_nanos, 8);
}

#[test]
fn media_requests_need_a_room() {
    let s = MediaSession::new();
    assert!(matches!(s.begin(&MediaSoup::LeaveRoom), Err(MediaError::MissingConnection)));
    assert!(matches!(s.begin(&MediaSoup::Consume("x".to_string())), Err(MediaError::MissingConnection)));
    match s.begin(&MediaSoup::SetRoom(oid(1))) {
        Ok(MediaStep::SetRoom { leave, join }) => {
            assert!(leave.is_none());
            assert_eq!(join, object_id_to_hex(&oid(1)));
        }
        _ => panic!("expected SetRoom"),
    }
}

#[test]
fn switching_rooms_leaves_the_old_one() {
    let mut s = MediaSession::new();
    s.joined(object_id_to_hex(&oid(1)));
    match s.begin(&MediaSoup::SetRoom(oid(1))) {
        Ok(MediaStep::SetRoom { leave, .. }) => assert!(leave.is_none()),
        _ => panic!("expected SetRoom"),
    }
    match s.begin(&MediaSoup::SetRoom(oid(2))) {
        Ok(MediaStep::SetRoom { leave, join }) => {
            assert_eq!(leave, Some(object_id_to_hex(&oid(1))));
            assert_eq!(join, object_id_to_hex(&oid(2)));
        }
        _ => panic!("expected SetRoom"),
    }
    match s.begin(&MediaSoup::LeaveRoom) {
        Ok(MediaStep::Leave { room }) => assert_eq!(room, object_id_to_hex(&oid(1))),
        _ => panic!("expected Leave"),
    }
    let steps = s.closing_steps();
    assert_eq!(steps.len(), 3);
    assert!(matches!(&steps[0], CloseStep::LeaveRoom(r) if *r == object_id_to_hex(&oid(1))));
    assert!(matches!(steps[1], CloseStep::Disconnect));
    assert!(matches!(steps[2], CloseStep::CloseSocket));
    s.left();
    let steps = s.closing_steps();
    assert_eq!(steps.len(), 2);
    assert!(matches!(steps[0], CloseStep::Disconnect));
    assert!(matches!(steps[1], CloseStep::CloseSocket));
}

#[test]
fn consuming_needs_capabilities_and_resuming_needs_a_consumer() {
    let mut s = MediaSession::new();
    s.joined("room".to_string());
    let p = uuid_string(&uid(4));
    assert!(matches!(s.begin(&MediaSoup::Consume("nope".to_string())), Err(MediaError::InvalidId)));
    assert!(matches!(s.begin(&MediaSoup::Consume(p.clone())), Err(MediaError::MissingCapabilities)));
    assert!(matches!(s.begin(&MediaSoup::FinishInit(Default::default())), Ok(MediaStep::FinishInit)));
    s.capabilities_set();
    match s.begin(&MediaSoup::Consume(p.clone())) {
        Ok(MediaStep::Consume { room, producer }) => {
            assert_eq!(room, "room");
            assert!(producer.same(&uid(4)));
        }
        _ => panic!("expected Consume"),
    }
    let c = uuid_string(&uid(9));
    assert!(matches!(s.begin(&MediaSoup::ConsumerResume(c.clone())), Err(MediaError::MissingConsumer)));
    s.consumer_opened(uid(9));
    assert!(matches!(s.begin(&MediaSoup::ConsumerResume(c)), Ok(MediaStep::Resume { consumer }) if consumer.same(&uid(9))));
    // a new room starts without capabilities or consumers
    s.joined("other".to_string());
    assert!(matches!(s.begin(&MediaSoup::Consume(p)), Err(MediaError::MissingCapabilities)));
}
