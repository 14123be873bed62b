use wpp_server::api::room_join::{join_begin, join_step, JoinAction, JoinEvent, JoinStage};
use wpp_server::api::connections::ConnectionRegistry;
use wpp_server::api::rooms::Rooms;
use wpp_server::api::websocket::{
    parse_object_ids, remote_producer_notices, to_request_response, ServerError,
    WebsocketServer, WebsocketServerMessage, WebsocketServerResData,
};
use wpp_server::ids::{object_id_to_hex, uuid_string, DateTime, ObjectId, Uuid};

fn oid(last: u8) -> ObjectId {
    ObjectId { bytes: [0x65, 0x0a, 0xbc, 0xde, 0, 1, 2, 3, 4, 5, 6, last] }
}

fn uid(last: u8) -> Uuid {
    Uuid { bytes: [0x11, 0x22, 0x33, 0x44, 0x55, 0x66, 0x47, 0x77, 0x88, 0x99, 0, 0, 0, 0, 0, last] }
}

fn key(last: u8) -> String {
    object_id_to_hex(&oid(last))
}

fn contains(v: &[Uuid], u: &Uuid) -> bool {
    v.iter().any(|x| x.same(u))
}

#[test]
fn connected_user_is_reached() {
    let mut reg = ConnectionRegistry::new();
    reg.connect("alice".to_string(), uid(1));
    reg.connect("alice".to_string(), uid(2));
    reg.connect("bob".to_string(), uid(3));
    let a = reg.targets(&"alice".to_string());
    assert_eq!(a.len(), 2);
    assert!(contains(&a, &uid(1)) && contains(&a, &uid(2)));
    let b = reg.targets(&"bob".to_string());
    assert_eq!(b.len(), 1);
    assert!(contains(&b, &uid(3)));
    assert!(reg.targets(&"carol".to_string()).is_empty());
}

#[test]
fn reconnecting_same_id_is_counted_once() {
    let mut reg = ConnectionRegistry::new();
    reg.connect("alice".to_string(), uid(1));
    reg.connect("alice".to_string(), uid(1));
    assert_eq!(reg.targets(&"alice".to_string()).len(), 1);
}

#[test]
fn disconnected_connection_is_not_reached() {
    let mut reg = ConnectionRegistry::new();
    reg.connect("alice".to_string(), uid(1));
    reg.connect("alice".to_string(), uid(2));
    reg.connect("bob".to_string(), uid(3));
    reg.disconnect(&"alice".to_string(), &uid(1));
    let a = reg.targets(&"alice".to_string());
    assert_eq!(a.len(), 1);
    assert!(contains(&a, &uid(2)));
    assert_eq!(reg.targets(&"bob".to_string()).len(), 1);
    reg.disconnect(&"alice".to_string(), &uid(2));
    assert!(reg.targets(&"alice".to_string()).is_empty());
    // unknown user or connection: nothing changes
    reg.disconnect(&"nobody".to_string(), &uid(9));
    reg.disconnect(&"bob".to_string(), &uid(9));
    assert_eq!(reg.targets(&"bob".to_string()).len(), 1);
}

#[test]
fn messages_to_users_are_addressed_by_id_text() {
    let mut server = WebsocketServer::new();
    server.connect(key(1), uid(1));
    server.connect(key(2), uid(2));
    server.connect(key(2), uid(3));
    let out = server.send_message_to_users(&vec![oid(2), oid(1), oid(7)]);
    assert_eq!(out.len(), 3);
    assert_eq!(out[0].0, key(2));
    assert_eq!(out[0].1.len(), 2);
    assert_eq!(out[1].0, key(1));
    assert_eq!(out[1].1.len(), 1);
    assert!(out[1].1[0].same(&uid(1)));
    assert!(out[2].1.is_empty());
    assert_eq!(server.send_message(&key(2)).len(), 2);
    server.disconnect(&key(2), &uid(2));
    assert_eq!(server.send_message(&key(2)).len(), 1);
}

#[test]
fn rooms_open_and_list_producers() {
    let mut rooms = Rooms::new();
    let r = "room".to_string();
    assert!(!rooms.contains(&r));
    assert!(rooms.producers(&r).is_none());
    rooms.open_room(r.clone());
    assert!(rooms.contains(&r));
    assert!(rooms.producers(&r).unwrap().is_empty());
    let others = rooms.add_producer(&r, &"a".to_string(), uid(1));
    assert!(others.is_empty());
    let others = rooms.add_producer(&r, &"b".to_string(), uid(2));
    assert_eq!(others, vec!["a".to_string()]);
    rooms.add_producer(&r, &"a".to_string(), uid(3));
    let ps = rooms.producers(&r).unwrap();
    assert_eq!(ps.len(), 3);
    assert_eq!(ps[0].0, "a");
    assert!(ps[0].1.same(&uid(1)));
    assert_eq!(ps[1].0, "a");
    assert!(ps[1].1.same(&uid(3)));
    assert_eq!(ps[2].0, "b");
    assert!(ps[2].1.same(&uid(2)));
    rooms.close_room(&r);
    assert!(!rooms.contains(&r));
}

#[test]
fn producer_added_needs_an_open_room() {
    let mut server = WebsocketServer::new();
    let res = server.producer_added(&key(1), &key(50), uid(1));
    assert!(matches!(res, Err(ServerError::MissingRoom)));
    assert!(matches!(server.room_producers(&key(50)), Err(ServerError::MissingRoom)));
}

#[test]
fn producer_added_tells_the_other_participants() {
    let mut server = WebsocketServer::new();
    let room = key(50);
    assert!(!server.has_room(&room));
    server.open_room(room.clone());
    assert!(server.has_room(&room));
    let first = server.producer_added(&key(1), &room, uid(1)).unwrap();
    assert!(first.recipients.is_empty());
    let second = server.producer_added(&key(2), &room, uid(2)).unwrap();
    assert_eq!(second.recipients.len(), 1);
    assert!(second.recipients[0].same(&oid(1)));
    match &second.message {
        WebsocketServerMessage::ProducerAdded { participant_id, producer_id } => {
            assert_eq!(participant_id, &key(2));
            assert_eq!(producer_id, &uuid_string(&uid(2)));
        }
        _ => panic!("expected ProducerAdded"),
    }
    let listed = server.room_producers(&room).unwrap();
    assert_eq!(listed.len(), 2);
}

#[test]
fn producer_added_with_bad_participant_id_fails_after_recording() {
    let mut server = WebsocketServer::new();
    let room = key(50);
    server.open_room(room.clone());
    server.producer_added(&"not-an-id".to_string(), &room, uid(1)).ok();
    let res = server.producer_added(&key(2), &room, uid(2));
    assert!(matches!(res, Err(ServerError::InvalidUserId)));
    // the producer was recorded all the same
    assert_eq!(server.room_producers(&room).unwrap().len(), 2);
}

#[test]
fn remove_participant_notifies_and_closes_empty_room() {
    let mut server = WebsocketServer::new();
    let room = key(50);
    assert!(matches!(
        server.remove_participant(&key(1), &room),
        Err(ServerError::MissingRoom)
    ));
    server.open_room(room.clone());
    server.producer_added(&key(1), &room, uid(1)).unwrap();
    server.producer_added(&key(1), &room, uid(2)).unwrap();
    server.producer_added(&key(2), &room, uid(3)).unwrap();
    let out = server.remove_participant(&key(1), &room).unwrap();
    assert!(!out.room_closed);
    assert_eq!(out.recipients.len(), 1);
    assert!(out.recipients[0].same(&oid(2)));
    assert_eq!(out.notifications.len(), 2);
    for (n, p) in out.notifications.iter().zip([uid(1), uid(2)].iter()) {
        match n {
            WebsocketServerMessage::ProducerRemove { participant_id, producer_id } => {
                assert_eq!(participant_id, &key(1));
                assert_eq!(producer_id, &uuid_string(p));
            }
            _ => panic!("expected ProducerRemove"),
        }
    }
    let listed = server.room_producers(&room).unwrap();
    assert_eq!(listed.len(), 1);
    assert_eq!(listed[0].0, key(2));
    let last = server.remove_participant(&key(2), &room).unwrap();
    assert!(last.room_closed);
    assert!(last.recipients.is_empty());
    assert_eq!(last.notifications.len(), 1);
    assert!(!server.has_room(&room));
}

#[test]
fn removing_a_non_producer_sends_nothing() {
    let mut server = WebsocketServer::new();
    let room = key(50);
    server.open_room(room.clone());
    server.producer_added(&key(2), &room, uid(3)).unwrap();
    let out = server.remove_participant(&key(1), &room).unwrap();
    assert!(!out.room_closed);
    assert!(out.recipients.is_empty());
    assert!(out.notifications.is_empty());
    // an empty room closes even when the leaver never produced
    let mut lonely = WebsocketServer::new();
    lonely.open_room(room.clone());
    assert!(lonely.remove_participant(&key(1), &room).unwrap().room_closed);
}

#[test]
fn parse_object_ids_reads_all_or_fails() {
    let ok = parse_object_ids(&vec![key(1), key(2)]).unwrap();
    assert!(ok[0].same(&oid(1)) && ok[1].same(&oid(2)));
    assert!(parse_object_ids(&vec![key(1), "zz".to_string()]).is_err());
    assert!(parse_object_ids(&vec![]).unwrap().is_empty());
}

#[test]
fn remote_producers_are_announced_to_the_joiner() {
    let none = remote_producer_notices(&"bad".to_string(), &vec![]).unwrap();
    assert!(none.is_empty());
    assert!(remote_producer_notices(&"bad".to_string(), &vec![("x".to_string(), uid(1))]).is_err());
    let v = remote_producer_notices(&key(1), &vec![("p".to_string(), uid(4)), ("q".to_string(), uid(5))])
        .unwrap();
    assert_eq!(v.len(), 2);
    assert!(v[1].recipients[0].same(&oid(1)));
    match &v[1].message {
        WebsocketServerMessage::ProducerAdded { participant_id, producer_id } => {
            assert_eq!(participant_id, "q");
            assert_eq!(producer_id, &uuid_string(&uid(5)));
        }
        _ => panic!("expected ProducerAdded"),
    }
}

#[test]
fn request_response_carries_id_and_outcome() {
    let ok = to_request_response(
        Ok(WebsocketServerResData::SetChatRead(DateTime { timestamp_millis: 3 })),
        uid(7),
    );
    match ok {
        WebsocketServerMessage::RequestResponse { id, data } => {
            assert!(id.same(&uid(7)));
            assert!(matches!(data, Ok(WebsocketServerResData::SetChatRead(d)) if d.timestamp_millis == 3));
        }
        _ => panic!("expected RequestResponse"),
    }
    let err = to_request_response(Err("chat not found".to_string()), uid(8));
    match err {
        WebsocketServerMessage::RequestResponse { data, .. } => {
            assert_eq!(data.err().unwrap(), "chat not found");
        }
        _ => panic!("expected RequestResponse"),
    }
}

#[test]
fn room_opens_only_after_every_sync() {
    assert_eq!(join_begin(true, 3), (JoinStage::Open, JoinAction::UseRoom));
    assert_eq!(join_begin(false, 0), (JoinStage::Open, JoinAction::OpenRoom));
    let (s, a) = join_begin(false, 2);
    assert_eq!(a, JoinAction::SyncWith(0));
    let (s, a) = join_step(s, JoinEvent::Synced);
    assert_eq!(a, JoinAction::SyncWith(1));
    let (s, a) = join_step(s, JoinEvent::Synced);
    assert_eq!((s, a), (JoinStage::Open, JoinAction::OpenRoom));
    assert_eq!(join_step(s, JoinEvent::SyncFailed), (JoinStage::Open, JoinAction::Idle));
}

#[test]
fn failed_sync_leaves_room_closed() {
    let (s, _) = join_begin(false, 3);
    let (s, _) = join_step(s, JoinEvent::Synced);
    let (s, a) = join_step(s, JoinEvent::SyncFailed);
    assert_eq!((s, a), (JoinStage::Failed, JoinAction::GiveUp));
    assert_eq!(join_step(s, JoinEvent::Synced), (JoinStage::Failed, JoinAction::Idle));
}
