//! The websocket server: the messages it exchanges with clients, and its
//! state (who is connected, which media rooms are open with which
//! producers) with the decisions taken on it.

use crate::api::chat::{self, JoinResponse};
use crate::api::connections::{spec_connect, spec_disconnect, spec_targets, ConnectionRegistry};
use crate::api::rooms::{
    lemma_remove_client_wf, spec_add_producer, spec_client_producers, spec_clients_except,
    spec_has_client, spec_producer_pairs, spec_remove_client, RoomModel, Rooms,
};
use crate::api::message;
use crate::api::user::UpdateRequest;
use crate::ids::{
    bytes_of_hex, is_object_id_text, object_id_text, object_id_to_hex, parse_object_id, uuid_string, uuid_text, DateTime,
    IdParseError, ObjectId, Uuid,
};
use crate::models::chat::ChatSafe;
use crate::models::chat_message::ChatMessageSafe;
use crate::models::chat_user::ChatUserPopulated;
use crate::models::user::UserSafe;
use mediasoup_types::data_structures::{DtlsParameters, IceCandidate, IceParameters};
use mediasoup_types::rtp_parameters::{
    MediaKind, RtpCapabilities, RtpCapabilitiesFinalized, RtpParameters,
};
use vstd::prelude::*;

verus! {

#[verifier::external_type_specification]
#[verifier::external_body]
pub struct ExDtlsParameters(mediasoup_types::data_structures::DtlsParameters);

#[verifier::external_type_specification]
#[verifier::external_body]
pub struct ExIceCandidate(mediasoup_types::data_structures::IceCandidate);

#[verifier::external_type_specification]
#[verifier::external_body]
pub struct ExIceParameters(mediasoup_types::data_structures::IceParameters);

#[verifier::external_type_specification]
#[verifier::external_body]
pub struct ExMediaKind(mediasoup_types::rtp_parameters::MediaKind);

#[verifier::external_type_specification]
#[verifier::external_body]
pub struct ExRtpCapabilities(mediasoup_types::rtp_parameters::RtpCapabilities);

#[verifier::external_type_specification]
#[verifier::external_body]
pub struct ExRtpCapabilitiesFinalized(mediasoup_types::rtp_parameters::RtpCapabilitiesFinalized);

#[verifier::external_type_specification]
#[verifier::external_body]
pub struct ExRtpParameters(mediasoup_types::rtp_parameters::RtpParameters);

/// How a client reaches one of its WebRTC transports.
pub struct TransportOptions {
    /// The transport's id.
    pub id: String,
    pub dtls_parameters: DtlsParameters,
    pub ice_candidates: Vec<IceCandidate>,
    pub ice_parameters: IceParameters,
}

/// A message the server sends to a client: a notification or the reply to
/// one of its requests.
pub enum WebsocketServerMessage {
    ProfileUpdated(UserSafe),
    NewMessage(ChatMessageSafe),
    UserJoined { chat_id: ObjectId, user: ChatUserPopulated },
    RequestResponse { id: Uuid, data: Result<WebsocketServerResData, String> },
    SetChatRead { chat_id: ObjectId, last_message_ts: DateTime },
    ProducerAdded { participant_id: String, producer_id: String },
    ProducerRemove { participant_id: String, producer_id: String },
}

/// The payload of a successful reply.
pub enum WebsocketServerResData {
    ProfileUpdate(UserSafe),
    GetSelf(UserSafe),
    CreateChat(ChatSafe),
    JoinChat(JoinResponse),
    GetChats(Vec<ChatSafe>),
    SetChatRead(DateTime),
    NewMessage(ChatMessageSafe),
    GetMessages(Vec<ChatMessageSafe>),
    MS(MediaSoupResponse),
}

/// The payload of a successful reply to a media request.
pub enum MediaSoupResponse {
    SetRoom {
        room_id: String,
        consumer_transport_options: TransportOptions,
        producer_transport_options: TransportOptions,
        router_rtp_capabilities: RtpCapabilitiesFinalized,
        /// (participant id, producer id) of everything the room produces.
        producers: Vec<(String, String)>,
    },
    ConnectProducerTransport,
    /// The new producer's id.
    Produce(String),
    ConnectConsumerTransport,
    Consume { id: String, producer_id: String, kind: MediaKind, rtp_parameters: RtpParameters },
    ConsumerResume,
    /// The TURN credentials for the client.
    FinishInit(String),
    LeaveRoom,
}

/// A request from a client, with the id its reply will carry.
pub struct WebsocketClientMessage {
    pub id: Uuid,
    pub data: WebsocketClientMessageData,
}

/// What a client asks for.
pub enum WebsocketClientMessageData {
    GetSelf,
    ProfileUpdate(UpdateRequest),
    CreateChat(chat::CreateRequest),
    JoinChat(ObjectId),
    GetChats,
    SetChatRead(ObjectId),
    NewMessage(message::CreateRequest),
    GetMessages(message::GetRequest),
    MS(MediaSoup),
}

/// A media request.
pub enum MediaSoup {
    ConnectProducerTransport(DtlsParameters),
    Produce((MediaKind, RtpParameters)),
    ConnectConsumerTransport(DtlsParameters),
    /// The producer to consume.
    Consume(String),
    /// The consumer to resume.
    ConsumerResume(String),
    SetRoom(ObjectId),
    FinishInit(RtpCapabilities),
    LeaveRoom,
}

/// The reply to request `id`: its payload, or the error's text.
pub fn to_request_response(res: Result<WebsocketServerResData, String>, id: Uuid) -> (r:
    WebsocketServerMessage)
    ensures
        r == (WebsocketServerMessage::RequestResponse { id, data: res }),
{
    WebsocketServerMessage::RequestResponse { id, data: res }
}


/// Whether every text is the text of an object id.
pub open spec fn all_object_id_texts(texts: Seq<Seq<char>>) -> bool {
    forall|i: int| 0 <= i < texts.len() ==> is_object_id_text(#[trigger] texts[i])
}

/// Whether `ids` are the object ids that `texts` spell, in the same order.
pub open spec fn ids_of_texts(ids: Seq<ObjectId>, texts: Seq<Seq<char>>) -> bool {
    &&& ids.len() == texts.len()
    &&& forall|i: int| 0 <= i < ids.len() ==> (#[trigger] ids[i]).bytes@ == bytes_of_hex(texts[i])
}

/// The texts of a list of strings.
pub open spec fn texts_of(v: Seq<String>) -> Seq<Seq<char>> {
    v.map_values(|s: String| s@)
}

/// Reads every string as an object id; fails if any of them is not one.
pub fn parse_object_ids(texts: &Vec<String>) -> (r: Result<Vec<ObjectId>, IdParseError>)
    ensures
        r is Ok <==> all_object_id_texts(texts_of(texts@)),
        r matches Ok(ids) ==> ids_of_texts(ids@, texts_of(texts@)),
{
    let mut out: Vec<ObjectId> = Vec::new();
    let mut i: usize = 0;
    while i < texts.len()
        invariant
            0 <= i <= texts@.len(),
            forall|j: int| 0 <= j < i ==> is_object_id_text(#[trigger] texts_of(texts@)[j]),
            ids_of_texts(out@, texts_of(texts@).take(i as int)),
        decreases texts@.len() - i,
    {
        match parse_object_id(texts[i].as_str()) {
            Ok(id) => {
                out.push(id);
            },
            Err(e) => {
                assert(!is_object_id_text(texts_of(texts@)[i as int]));
                return Err(e);
            },
        }
        i = i + 1;
    }
    assert(texts_of(texts@).take(texts@.len() as int) =~= texts_of(texts@));
    Ok(out)
}

/// Whether `m` tells that participant `user` added producer `p`.
pub open spec fn is_producer_added(m: WebsocketServerMessage, user: Seq<char>, p: Uuid) -> bool {
    m matches WebsocketServerMessage::ProducerAdded { participant_id, producer_id } && participant_id@
        == user && producer_id@ == uuid_text(p)
}

/// Whether `m` tells that producer `p` of participant `user` is gone.
pub open spec fn is_producer_removed(m: WebsocketServerMessage, user: Seq<char>, p: Uuid) -> bool {
    m matches WebsocketServerMessage::ProducerRemove { participant_id, producer_id } && participant_id@
        == user && producer_id@ == uuid_text(p)
}

/// Why a room operation failed.
#[derive(Clone, Copy, Debug, PartialEq, Eq, Structural)]
pub enum ServerError {
    /// The room is not open on this server.
    MissingRoom,
    /// A participant id of the room is not the text of an object id.
    InvalidUserId,
}

/// A notification and the users it goes to.
pub struct Notice {
    pub recipients: Vec<ObjectId>,
    pub message: WebsocketServerMessage,
}

/// What taking a participant out of a room leads to: notifications of its
/// producers for the remaining participants, and whether the room closed.
pub struct ParticipantRemoval {
    pub recipients: Vec<ObjectId>,
    pub notifications: Vec<WebsocketServerMessage>,
    pub room_closed: bool,
}

/// The notices that tell a user who joins a room which producers another
/// server instance already has there: one per remote producer, addressed to
/// the joining user (whose id must then be the text of an object id).
pub fn remote_producer_notices(user_id: &String, producers: &Vec<(String, Uuid)>) -> (r: Result<
    Vec<Notice>,
    IdParseError,
>)
    ensures
        producers@.len() == 0 ==> (r matches Ok(v) && v@.len() == 0),
        producers@.len() > 0 ==> (r is Ok <==> is_object_id_text(user_id@)),
        r matches Ok(v) ==> {
            &&& v@.len() == producers@.len()
            &&& forall|i: int|
                0 <= i < v@.len() ==> {
                    &&& (#[trigger] v@[i]).recipients@.len() == 1
                    &&& v@[i].recipients@[0].bytes@ == bytes_of_hex(user_id@)
                    &&& is_producer_added(v@[i].message, producers@[i].0@, producers@[i].1)
                }
        },
{
    let mut out: Vec<Notice> = Vec::new();
    let mut i: usize = 0;
    while i < producers.len()
        invariant
            0 <= i <= producers@.len(),
            out@.len() == i,
            i > 0 ==> is_object_id_text(user_id@),
            forall|j: int|
                0 <= j < i ==> {
                    &&& (#[trigger] out@[j]).recipients@.len() == 1
                    &&& out@[j].recipients@[0].bytes@ == bytes_of_hex(user_id@)
                    &&& is_producer_added(out@[j].message, producers@[j].0@, producers@[j].1)
                },
        decreases producers@.len() - i,
    {
        let user = parse_object_id(user_id.as_str())?;
        let mut recipients: Vec<ObjectId> = Vec::new();
        recipients.push(user);
        let message = WebsocketServerMessage::ProducerAdded {
            participant_id: producers[i].0.clone(),
            producer_id: uuid_string(&producers[i].1),
        };
        out.push(Notice { recipients, message });
        i = i + 1;
    }
    Ok(out)
}

/// The state of the websocket server: who is connected, and which rooms are
/// open with which producers.
pub struct WebsocketServer {
    pub connections: ConnectionRegistry,
    pub rooms: Rooms,
}

impl WebsocketServer {
    /// The server state's internal consistency.
    pub open spec fn wf(&self) -> bool {
        self.connections.wf() && self.rooms.wf()
    }

    /// No connections and no rooms.
    pub fn new() -> (r: WebsocketServer)
        ensures
            r.wf(),
            r.connections@ == Map::<Seq<char>, Set<Uuid>>::empty(),
            r.rooms@ == Map::<Seq<char>, RoomModel>::empty(),
    {
        WebsocketServer { connections: ConnectionRegistry::new(), rooms: Rooms::new() }
    }

    /// Registers connection `conn` for `user_id`.
    pub fn connect(&mut self, user_id: String, conn: Uuid)
        requires
            old(self).wf(),
        ensures
            final(self).wf(),
            final(self).connections@ == spec_connect(old(self).connections@, user_id@, conn),
            final(self).rooms@ == old(self).rooms@,
    {
        self.connections.connect(user_id, conn);
    }

    /// Drops connection `conn` of `user_id`.
    pub fn disconnect(&mut self, user_id: &String, conn: &Uuid)
        requires
            old(self).wf(),
        ensures
            final(self).wf(),
            final(self).connections@ == spec_disconnect(old(self).connections@, user_id@, *conn),
            final(self).rooms@ == old(self).rooms@,
    {
        self.connections.disconnect(user_id, conn);
    }

    /// The connections a message to `user_id` goes to, each once.
    pub fn send_message(&self, user_id: &String) -> (r: Vec<Uuid>)
        requires
            self.wf(),
        ensures
            r@.to_set() == spec_targets(self.connections@, user_id@),
            r@.no_duplicates(),
    {
        self.connections.targets(user_id)
    }

    /// The connections a message to each of `user_ids` goes to, user by
    /// user in the given order; a user is addressed by the text of its id.
    pub fn send_message_to_users(&self, user_ids: &Vec<ObjectId>) -> (r: Vec<(String, Vec<Uuid>)>)
        requires
            self.wf(),
        ensures
            r@.len() == user_ids@.len(),
            forall|i: int|
                0 <= i < r@.len() ==> {
                    &&& (#[trigger] r@[i]).0@ == object_id_text(user_ids@[i])
                    &&& r@[i].1@.to_set() == spec_targets(self.connections@, r@[i].0@)
                    &&& r@[i].1@.no_duplicates()
                },
    {
        let mut out: Vec<(String, Vec<Uuid>)> = Vec::new();
        let mut i: usize = 0;
        while i < user_ids.len()
            invariant
                self.wf(),
                0 <= i <= user_ids@.len(),
                out@.len() == i,
                forall|j: int|
                    0 <= j < i ==> {
                        &&& (#[trigger] out@[j]).0@ == object_id_text(user_ids@[j])
                        &&& out@[j].1@.to_set() == spec_targets(self.connections@, out@[j].0@)
                        &&& out@[j].1@.no_duplicates()
                    },
            decreases user_ids@.len() - i,
        {
            let key = object_id_to_hex(&user_ids[i]);
            let targets = self.connections.targets(&key);
            out.push((key, targets));
            i = i + 1;
        }
        out
    }

    /// Whether room `room_id` is open here.
    pub fn has_room(&self, room_id: &String) -> (r: bool)
        requires
            self.wf(),
        ensures
            r == self.rooms@.contains_key(room_id@),
    {
        self.rooms.contains(room_id)
    }

    /// Opens room `room_id`, which must not be open yet, with no participants.
    pub fn open_room(&mut self, room_id: String)
        requires
            old(self).wf(),
            !old(self).rooms@.contains_key(room_id@),
        ensures
            final(self).wf(),
            final(self).rooms@ == old(self).rooms@.insert(
                room_id@,
                Seq::<(Seq<char>, Seq<Uuid>)>::empty(),
            ),
            final(self).connections@ == old(self).connections@,
    {
        self.rooms.open_room(room_id);
    }

    /// Every (participant, producer) pair of room `room_id`, or
    /// `MissingRoom` if it is not open.
    pub fn room_producers(&self, room_id: &String) -> (r: Result<Vec<(String, Uuid)>, ServerError>)
        requires
            self.wf(),
        ensures
            r is Ok <==> self.rooms@.contains_key(room_id@),
            r matches Ok(v) ==> v@.map_values(|x: (String, Uuid)| (x.0@, x.1)) == spec_producer_pairs(
                self.rooms@[room_id@],
            ),
            r matches Err(e) ==> e == ServerError::MissingRoom,
    {
        match self.rooms.producers(room_id) {
            Some(v) => Ok(v),
            None => Err(ServerError::MissingRoom),
        }
    }

    /// Records that `user_id` added producer `producer` in room `room_id`,
    /// and tells the room's other participants about it.
    pub fn producer_added(&mut self, user_id: &String, room_id: &String, producer: Uuid) -> (r:
        Result<Notice, ServerError>)
        requires
            old(self).wf(),
        ensures
            final(self).wf(),
            final(self).connections@ == old(self).connections@,
            !old(self).rooms@.contains_key(room_id@) ==> r == Err::<Notice, ServerError>(
                ServerError::MissingRoom,
            ) && final(self).rooms@ == old(self).rooms@,
            old(self).rooms@.contains_key(room_id@) ==> {
                let m = spec_add_producer(old(self).rooms@[room_id@], user_id@, producer);
                let others = spec_clients_except(m, user_id@);
                &&& final(self).rooms@ == old(self).rooms@.insert(room_id@, m)
                &&& (r is Ok <==> all_object_id_texts(others))
                &&& r matches Ok(n) ==> ids_of_texts(n.recipients@, others) && is_producer_added(
                    n.message,
                    user_id@,
                    producer,
                )
                &&& r matches Err(e) ==> e == ServerError::InvalidUserId
            },
    {
        if !self.rooms.contains(room_id) {
            return Err(ServerError::MissingRoom);
        }
        let others = self.rooms.add_producer(room_id, user_id, producer);
        match parse_object_ids(&others) {
            Ok(recipients) => {
                let message = WebsocketServerMessage::ProducerAdded {
                    participant_id: user_id.clone(),
                    producer_id: uuid_string(&producer),
                };
                Ok(Notice { recipients, message })
            },
            Err(_) => Err(ServerError::InvalidUserId),
        }
    }

    /// Takes `user_id` out of room `room_id`: the room's remaining
    /// participants are told about each of its producers, and the room
    /// closes when nobody is left in it.
    pub fn remove_participant(&mut self, user_id: &String, room_id: &String) -> (r: Result<
        ParticipantRemoval,
        ServerError,
    >)
        requires
            old(self).wf(),
        ensures
            final(self).wf(),
            final(self).connections@ == old(self).connections@,
            !old(self).rooms@.contains_key(room_id@) ==> r == Err::<ParticipantRemoval, ServerError>(
                ServerError::MissingRoom,
            ) && final(self).rooms@ == old(self).rooms@,
            final(self).rooms@.contains_key(room_id@) ==> !spec_has_client(
                final(self).rooms@[room_id@],
                user_id@,
            ),
            old(self).rooms@.contains_key(room_id@) ==> {
                let m = old(self).rooms@[room_id@];
                let rest = spec_remove_client(m, user_id@);
                let others = spec_clients_except(rest, user_id@);
                let removed = spec_client_producers(m, user_id@);
                &&& (r is Err <==> removed is Some && !all_object_id_texts(others))
                &&& r matches Err(e) ==> e == ServerError::InvalidUserId && final(self).rooms@
                    == old(self).rooms@.insert(room_id@, rest)
                &&& r matches Ok(o) ==> {
                    &&& o.room_closed == (rest.len() == 0)
                    &&& final(self).rooms@ == if o.room_closed {
                        old(self).rooms@.remove(room_id@)
                    } else {
                        old(self).rooms@.insert(room_id@, rest)
                    }
                    &&& removed is None ==> o.recipients@.len() == 0 && o.notifications@.len()
                        == 0
                    &&& removed matches Some(ps) ==> {
                        &&& ids_of_texts(o.recipients@, others)
                        &&& o.notifications@.len() == ps.len()
                        &&& forall|i: int|
                            0 <= i < ps.len() ==> is_producer_removed(
                                #[trigger] o.notifications@[i],
                                user_id@,
                                ps[i],
                            )
                    }
                }
            },
    {
        if !self.rooms.contains(room_id) {
            return Err(ServerError::MissingRoom);
        }
        proof {
            self.rooms.lemma_rooms_list_participants_once();
            lemma_remove_client_wf(self.rooms@[room_id@], user_id@);
        }
        let (removed, others, empty) = self.rooms.remove_client(room_id, user_id);
        let mut recipients: Vec<ObjectId> = Vec::new();
        let mut notifications: Vec<WebsocketServerMessage> = Vec::new();
        match removed {
            Some(producers) => {
                match parse_object_ids(&others) {
                    Ok(ids) => {
                        recipients = ids;
                    },
                    Err(_) => {
                        return Err(ServerError::InvalidUserId);
                    },
                }
                let mut i: usize = 0;
                while i < producers.len()
                    invariant
                        0 <= i <= producers@.len(),
                        notifications@.len() == i,
                        forall|j: int|
                            0 <= j < i ==> is_producer_removed(
                                #[trigger] notifications@[j],
                                user_id@,
                                producers@[j],
                            ),
                    decreases producers@.len() - i,
                {
                    notifications.push(
                        WebsocketServerMessage::ProducerRemove {
                            participant_id: user_id.clone(),
                            producer_id: uuid_string(&producers[i]),
                        },
                    );
                    i = i + 1;
                }
            },
            None => {},
        }
        if empty {
            self.rooms.close_room(room_id);
            proof {
                let m = spec_remove_client(old(self).rooms@[room_id@], user_id@);
                assert(old(self).rooms@.insert(room_id@, m).remove(room_id@) =~= old(
                    self,
                ).rooms@.remove(room_id@));
            }
        }
        Ok(ParticipantRemoval { recipients, notifications, room_closed: empty })
    }
}

} // verus!
