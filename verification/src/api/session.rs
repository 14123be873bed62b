//! One client's websocket session: keeping the connection alive, and the
//! client's state in a media room.

use crate::api::websocket::MediaSoup;
use crate::ids::{object_id_text, object_id_to_hex, parse_uuid, uuid_parse_outcome, Uuid};
use vstd::prelude::*;

verus! {

/// How long a client may stay silent before the session is closed: ten
/// seconds, in nanoseconds.
pub const CLIENT_TIMEOUT_NANOS: u64 = 10_000_000_000;

/// When the client was last heard from, on a monotonic clock in
/// nanoseconds.
pub struct Heartbeat {
    pub last_heard_nanos: u64,
}

/// Something that happened to the session.
pub enum SessionEvent {
    /// The client pinged; the pong echoes its bytes.
    Ping,
    /// The client answered a ping.
    Pong,
    /// The client closed the connection.
    Close,
    /// The client sent a text frame.
    Text,
    /// The client sent a binary frame.
    Binary,
    /// Reading from the client failed.
    StreamError,
    /// The client's stream ended.
    StreamEnd,
    /// The server has a notification for this client.
    Notification,
    /// The server dropped its end of the notification channel.
    NotificationsClosed,
    /// The heartbeat timer fired.
    Tick,
}

/// What the session does about an event.
#[derive(Clone, Copy, Debug, PartialEq, Eq, Structural)]
pub enum SessionAction {
    /// Answer the ping with a pong.
    SendPong,
    /// Nothing to do.
    Nothing,
    /// Close the session, with the client's reason where it gave one.
    Stop,
    /// Handle the text as a request.
    HandleRequest,
    /// Send the notification to the client.
    Forward,
    /// Ping the client.
    SendPing,
    /// Abort: the server is gone.
    Abort,
}

/// The action for an event at time `now`.
pub open spec fn spec_session_action(last: u64, event: SessionEvent, now: u64) -> SessionAction {
    match event {
        SessionEvent::Ping => SessionAction::SendPong,
        SessionEvent::Pong => SessionAction::Nothing,
        SessionEvent::Close => SessionAction::Stop,
        SessionEvent::Text => SessionAction::HandleRequest,
        SessionEvent::Binary => SessionAction::Nothing,
        SessionEvent::StreamError => SessionAction::Stop,
        SessionEvent::StreamEnd => SessionAction::Stop,
        SessionEvent::Notification => SessionAction::Forward,
        SessionEvent::NotificationsClosed => SessionAction::Abort,
        SessionEvent::Tick => if now >= last && now - last > CLIENT_TIMEOUT_NANOS {
            SessionAction::Stop
        } else {
            SessionAction::SendPing
        },
    }
}

/// Whether an event shows that the client is alive.
pub open spec fn hears_client(event: SessionEvent) -> bool {
    match event {
        SessionEvent::Ping | SessionEvent::Pong | SessionEvent::Text | SessionEvent::Binary => true,
        _ => false,
    }
}

/// When the client was last heard from after an event at `now`.
pub open spec fn spec_last_heard(last: u64, event: SessionEvent, now: u64) -> u64 {
    if hears_client(event) {
        now
    } else {
        last
    }
}

impl Heartbeat {
    /// A session that has just heard from its client at `now`.
    pub fn new(now: u64) -> (r: Heartbeat)
        ensures
            r.last_heard_nanos == now,
    {
        Heartbeat { last_heard_nanos: now }
    }

    /// Handles an event at time `now`: frames from the client renew the
    /// heartbeat; a tick closes the session when the client has been silent
    /// for more than the timeout, and pings it otherwise.
    pub fn step(&mut self, event: &SessionEvent, now: u64) -> (r: SessionAction)
        ensures
            r == spec_session_action(old(self).last_heard_nanos, *event, now),
            final(self).last_heard_nanos == spec_last_heard(old(self).last_heard_nanos, *event, now),
    {
        let last = self.last_heard_nanos;
        match event {
            SessionEvent::Ping => {
                self.last_heard_nanos = now;
                SessionAction::SendPong
            },
            SessionEvent::Pong => {
                self.last_heard_nanos = now;
                SessionAction::Nothing
            },
            SessionEvent::Close => SessionAction::Stop,
            SessionEvent::Text => {
                self.last_heard_nanos = now;
                SessionAction::HandleRequest
            },
            SessionEvent::Binary => {
                self.last_heard_nanos = now;
                SessionAction::Nothing
            },
            SessionEvent::StreamError => SessionAction::Stop,
            SessionEvent::StreamEnd => SessionAction::Stop,
            SessionEvent::Notification => SessionAction::Forward,
            SessionEvent::NotificationsClosed => SessionAction::Abort,
            SessionEvent::Tick => {
                if now >= last && now - last > CLIENT_TIMEOUT_NANOS {
                    SessionAction::Stop
                } else {
                    SessionAction::SendPing
                }
            },
        }
    }
}

/// A session that keeps hearing from its client is never closed by the
/// timer: whatever the heartbeat held before, after a frame from the client
/// at `at` a tick within the timeout pings.
pub proof fn law_heard_client_is_kept(last: u64, heard: SessionEvent, at: u64, now: u64)
    requires
        hears_client(heard),
        at <= now <= at + CLIENT_TIMEOUT_NANOS,
    ensures
        spec_session_action(spec_last_heard(last, heard, at), SessionEvent::Tick, now)
            == SessionAction::SendPing,
{
}

/// Every frame from the client (a ping, a pong, a text or a binary frame)
/// renews the heartbeat to the time it arrived; a close, a stream error or
/// end, a notification or a tick leaves it as it was.
pub proof fn law_client_frames_renew_heartbeat(last: u64, now: u64)
    ensures
        spec_last_heard(last, SessionEvent::Ping, now) == now,
        spec_last_heard(last, SessionEvent::Pong, now) == now,
        spec_last_heard(last, SessionEvent::Text, now) == now,
        spec_last_heard(last, SessionEvent::Binary, now) == now,
        spec_last_heard(last, SessionEvent::Close, now) == last,
        spec_last_heard(last, SessionEvent::StreamError, now) == last,
        spec_last_heard(last, SessionEvent::StreamEnd, now) == last,
        spec_last_heard(last, SessionEvent::Notification, now) == last,
        spec_last_heard(last, SessionEvent::NotificationsClosed, now) == last,
        spec_last_heard(last, SessionEvent::Tick, now) == last,
{
}

/// A client that keeps sending is kept: whatever the heartbeat held, after
/// any frame from the client at `at` (a ping, a pong, a text or a binary
/// frame), a tick within the timeout pings rather than closing.
pub proof fn law_sending_client_is_pinged(last: u64, frame: SessionEvent, at: u64, now: u64)
    requires
        frame is Ping || frame is Pong || frame is Text || frame is Binary,
        at <= now <= at + CLIENT_TIMEOUT_NANOS,
    ensures
        spec_session_action(spec_last_heard(last, frame, at), SessionEvent::Tick, now)
            == SessionAction::SendPing,
{
}

/// A client that stays silent for longer than the timeout is dropped at the
/// next tick.
pub proof fn law_silent_client_is_dropped(last: u64, now: u64)
    requires
        now >= last,
        now - last > CLIENT_TIMEOUT_NANOS,
    ensures
        spec_session_action(last, SessionEvent::Tick, now) == SessionAction::Stop,
{
}

/// The client's state in a media room: the room it is in (as text), whether
/// it has said what it can receive, and the consumers it has opened there.
pub struct MediaSession {
    pub room: Option<String>,
    pub has_capabilities: bool,
    pub consumers: Vec<Uuid>,
}

/// Why a media request is refused.
#[derive(Clone, Copy, Debug, PartialEq, Eq, Structural)]
pub enum MediaError {
    /// The client is in no room.
    MissingConnection,
    /// The id of a producer or consumer is not a UUID.
    InvalidId,
    /// The client has not said what it can receive.
    MissingCapabilities,
    /// The client has no consumer with that id.
    MissingConsumer,
}

/// What a media request leads to, once it is accepted.
pub enum MediaStep {
    /// Work on the client's transports in room `room`.
    Transport { room: String },
    /// Consume producer `producer` in room `room`.
    Consume { room: String, producer: Uuid },
    /// Resume the client's consumer `consumer`.
    Resume { consumer: Uuid },
    /// Leave room `leave` first, if given, then join room `join`.
    SetRoom { leave: Option<String>, join: String },
    /// Record the client's capabilities, then fetch its TURN credentials.
    FinishInit,
    /// Leave room `room`.
    Leave { room: String },
}

/// The text of the room the client is in, if any.
pub open spec fn room_text(s: MediaSession) -> Option<Seq<char>> {
    match s.room {
        Some(r) => Some(r@),
        None => None,
    }
}

impl MediaSession {
    /// A client in no room.
    pub fn new() -> (r: MediaSession)
        ensures
            r.room is None,
            !r.has_capabilities,
            r.consumers@.len() == 0,
    {
        MediaSession { room: None, has_capabilities: false, consumers: Vec::new() }
    }

    /// Decides a media request: everything but joining a room needs the
    /// client to be in one; consuming needs a valid producer id and the
    /// client's capabilities; resuming needs one of the client's consumers;
    /// joining another room than the current one leaves the current one
    /// first.
    #[verifier::loop_isolation(false)]
    pub fn begin(&self, request: &MediaSoup) -> (r: Result<MediaStep, MediaError>)
        ensures
            (self.room is None && !(*request is SetRoom)) ==> r == Err::<MediaStep, MediaError>(
                MediaError::MissingConnection,
            ),
            self.room matches Some(room) ==> match *request {
                MediaSoup::ConnectProducerTransport(_) | MediaSoup::Produce(_)
                | MediaSoup::ConnectConsumerTransport(_) => r matches Ok(MediaStep::Transport { room: t })
                    && t@ == room@,
                MediaSoup::Consume(p) => match uuid_parse_outcome(p@) {
                    None => r == Err::<MediaStep, MediaError>(MediaError::InvalidId),
                    Some(b) => if self.has_capabilities {
                        r matches Ok(MediaStep::Consume { room: t, producer }) && t@ == room@
                            && producer.bytes@ == b
                    } else {
                        r == Err::<MediaStep, MediaError>(MediaError::MissingCapabilities)
                    },
                },
                MediaSoup::ConsumerResume(c) => match uuid_parse_outcome(c@) {
                    None => r == Err::<MediaStep, MediaError>(MediaError::InvalidId),
                    Some(b) => if exists|i: int|
                        0 <= i < self.consumers@.len() && (#[trigger] self.consumers@[i]).bytes@
                            == b {
                        r matches Ok(MediaStep::Resume { consumer }) && consumer.bytes@ == b
                    } else {
                        r == Err::<MediaStep, MediaError>(MediaError::MissingConsumer)
                    },
                },
                MediaSoup::SetRoom(_) => true,
                MediaSoup::FinishInit(_) => r matches Ok(MediaStep::FinishInit),
                MediaSoup::LeaveRoom => r matches Ok(MediaStep::Leave { room: t }) && t@ == room@,
            },
            request matches MediaSoup::SetRoom(chat_id) ==> r matches Ok(
                MediaStep::SetRoom { leave, join },
            ) && join@ == object_id_text(*chat_id) && match self.room {
                None => leave is None,
                Some(room) => if room@ == object_id_text(*chat_id) {
                    leave is None
                } else {
                    leave matches Some(l) && l@ == room@
                },
            },
    {
        if let MediaSoup::SetRoom(chat_id) = request {
            let join = object_id_to_hex(chat_id);
            let leave = match &self.room {
                Some(room) => if *room != join {
                    Some(room.clone())
                } else {
                    None
                },
                None => None,
            };
            return Ok(MediaStep::SetRoom { leave, join });
        }
        let room = match &self.room {
            Some(r) => r.clone(),
            None => {
                return Err(MediaError::MissingConnection);
            },
        };
        match request {
            MediaSoup::ConnectProducerTransport(_) => Ok(MediaStep::Transport { room }),
            MediaSoup::Produce(_) => Ok(MediaStep::Transport { room }),
            MediaSoup::ConnectConsumerTransport(_) => Ok(MediaStep::Transport { room }),
            MediaSoup::Consume(p) => {
                let producer = match parse_uuid(p.as_str()) {
                    Some(u) => u,
                    None => {
                        return Err(MediaError::InvalidId);
                    },
                };
                if !self.has_capabilities {
                    return Err(MediaError::MissingCapabilities);
                }
                Ok(MediaStep::Consume { room, producer })
            },
            MediaSoup::ConsumerResume(c) => {
                let consumer = match parse_uuid(c.as_str()) {
                    Some(u) => u,
                    None => {
                        return Err(MediaError::InvalidId);
                    },
                };
                let mut i: usize = 0;
                while i < self.consumers.len()
                    invariant
                        0 <= i <= self.consumers@.len(),
                        forall|j: int| 0 <= j < i ==> (#[trigger] self.consumers@[j]).bytes@ != consumer.bytes@,
                    decreases self.consumers@.len() - i,
                {
                    if self.consumers[i].same(&consumer) {
                        return Ok(MediaStep::Resume { consumer });
                    }
                    i = i + 1;
                }
                Err(MediaError::MissingConsumer)
            },
            MediaSoup::SetRoom(_) => Err(MediaError::MissingConnection),
            MediaSoup::FinishInit(_) => Ok(MediaStep::FinishInit),
            MediaSoup::LeaveRoom => Ok(MediaStep::Leave { room }),
        }
    }

    /// The client joined room `room`: a fresh connection there, with no
    /// capabilities and no consumers yet.
    pub fn joined(&mut self, room: String)
        ensures
            final(self).room == Some(room),
            !final(self).has_capabilities,
            final(self).consumers@.len() == 0,
    {
        self.room = Some(room);
        self.has_capabilities = false;
        self.consumers = Vec::new();
    }

    /// The client said what it can receive.
    pub fn capabilities_set(&mut self)
        ensures
            final(self).room == old(self).room,
            final(self).has_capabilities,
            final(self).consumers@ == old(self).consumers@,
    {
        self.has_capabilities = true;
    }

    /// The client opened consumer `consumer`.
    pub fn consumer_opened(&mut self, consumer: Uuid)
        ensures
            final(self).room == old(self).room,
            final(self).has_capabilities == old(self).has_capabilities,
            final(self).consumers@ == old(self).consumers@.push(consumer),
    {
        self.consumers.push(consumer);
    }

    /// The client left its room.
    pub fn left(&mut self)
        ensures
            final(self).room is None,
            !final(self).has_capabilities,
            final(self).consumers@.len() == 0,
    {
        self.room = None;
        self.has_capabilities = false;
        self.consumers = Vec::new();
    }

    /// What is done when the session ends, in order: the client is taken
    /// out of the room it is in, if any; its connection is dropped from the
    /// server; and the socket is closed.
    pub fn closing_steps(&self) -> (r: Vec<CloseStep>)
        ensures
            r@ == spec_closing_steps(self.room),
    {
        let mut steps: Vec<CloseStep> = Vec::new();
        match &self.room {
            Some(room) => steps.push(CloseStep::LeaveRoom(room.clone())),
            None => {},
        }
        steps.push(CloseStep::Disconnect);
        steps.push(CloseStep::CloseSocket);
        proof {
            assert(steps@ =~= spec_closing_steps(self.room));
        }
        steps
    }
}

/// One step of ending a session.
pub enum CloseStep {
    /// Take the client out of this media room.
    LeaveRoom(String),
    /// Drop the client's connection from the server.
    Disconnect,
    /// Close the socket, with the client's reason where it gave one.
    CloseSocket,
}

/// The steps that end a session whose client is in `room`.
pub open spec fn spec_closing_steps(room: Option<String>) -> Seq<CloseStep> {
    match room {
        Some(r) => seq![CloseStep::LeaveRoom(r), CloseStep::Disconnect, CloseStep::CloseSocket],
        None => seq![CloseStep::Disconnect, CloseStep::CloseSocket],
    }
}

/// However a session ends, its connection is dropped exactly once; a client
/// in a room leaves that room, once, before that; and closing the socket
/// comes last.
pub proof fn law_session_ends_in_order(room: Option<String>)
    ensures
        ({
            let steps = spec_closing_steps(room);
            &&& steps.len() >= 2
            &&& steps.last() is CloseSocket
            &&& steps[steps.len() - 2] is Disconnect
            &&& forall|i: int|
                0 <= i < steps.len() - 2 ==> (#[trigger] steps[i] matches CloseStep::LeaveRoom(r)
                    && room == Some(r))
            &&& room is Some <==> steps.len() == 3
        }),
{
}

} // verus!
