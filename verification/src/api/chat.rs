//! Chats: creating one, joining it and marking it read. The database work
//! happens around these functions; they decide what is written, what is
//! answered and who is notified.

use crate::api::websocket::{Notice, WebsocketServerMessage};
use crate::ids::{DateTime, ObjectId};
use crate::models::chat::{Chat, ChatSafe};
use crate::models::chat_message::{ChatMessage, ChatMessageSafe};
use crate::models::chat_user::{ChatUser, ChatUserPopulated};
use crate::models::user::UserSafe;
use vstd::prelude::*;

verus! {

/// A request to create a chat with the given name.
pub struct CreateRequest {
    pub name: String,
}

/// The answer to a successful join.
pub struct JoinResponse {}

/// Whether `user_id` is among the members.
pub open spec fn spec_is_member(users: Seq<ChatUserPopulated>, user_id: ObjectId) -> bool {
    exists|i: int| 0 <= i < users.len() && (#[trigger] users[i]).id == user_id
}

/// The ids of the members, in order.
pub open spec fn spec_member_ids(users: Seq<ChatUserPopulated>) -> Seq<ObjectId> {
    users.map_values(|u: ChatUserPopulated| u.id)
}

/// The text of the message that opens every chat.
pub open spec fn opening_text() -> Seq<char> {
    seq!['C', 'h', 'a', 't', ' ', 'c', 'r', 'e', 'a', 't', 'e', 'd']
}

/// Whether `user_id` is a member of the chat.
pub fn is_member(users: &Vec<ChatUserPopulated>, user_id: &ObjectId) -> (r: bool)
    ensures
        r == spec_is_member(users@, *user_id),
{
    let mut i: usize = 0;
    while i < users.len()
        invariant
            0 <= i <= users@.len(),
            forall|j: int| 0 <= j < i ==> (#[trigger] users@[j]).id != *user_id,
        decreases users@.len() - i,
    {
        if users[i].id.same(user_id) {
            return true;
        }
        i = i + 1;
    }
    false
}

/// The ids of the members, in order.
pub fn member_ids(users: &Vec<ChatUserPopulated>) -> (r: Vec<ObjectId>)
    ensures
        r@ == spec_member_ids(users@),
{
    let mut out: Vec<ObjectId> = Vec::new();
    let mut i: usize = 0;
    while i < users.len()
        invariant
            0 <= i <= users@.len(),
            out@ == spec_member_ids(users@.take(i as int)),
        decreases users@.len() - i,
    {
        out.push(users[i].id);
        i = i + 1;
        assert(out@ =~= spec_member_ids(users@.take(i as int)));
    }
    assert(users@.take(users@.len() as int) =~= users@);
    out
}

/// The chat record written first: named as asked, made by `creator`, with
/// no id and no message times yet.
pub fn new_chat(request: &CreateRequest, creator: &UserSafe) -> (r: Chat)
    ensures
        r.id is None,
        r.name@ == request.name@,
        r.creator == creator.id,
        r.first_message_ts is None,
        r.last_message_ts is None,
{
    Chat {
        id: None,
        name: request.name.clone(),
        creator: creator.id,
        first_message_ts: None,
        last_message_ts: None,
    }
}

/// The server's own message that opens chat `chat_id` at time `ts`.
pub fn opening_message(chat_id: ObjectId, ts: DateTime) -> (r: ChatMessage)
    ensures
        r.id is None,
        r.chat_id == chat_id,
        r.creator is None,
        r.created_at == ts,
        r.deleted_at is None,
        r.content@ == opening_text(),
{
    proof {
        reveal_strlit("Chat created");
    }
    let content = String::from_str("Chat created");
    assert(content@ =~= opening_text());
    ChatMessage {
        id: None,
        chat_id,
        creator: None,
        created_at: ts,
        deleted_at: None,
        content,
    }
}

/// The creator's membership of chat `chat_id`, read up to `ts`.
pub fn creator_membership(chat_id: ObjectId, creator: &UserSafe, ts: DateTime) -> (r: ChatUser)
    ensures
        r.id is None,
        r.chat_id == chat_id,
        r.user_id == creator.id,
        r.last_message_seen_ts == ts,
{
    ChatUser { id: None, chat_id, user_id: creator.id, last_message_seen_ts: ts }
}

/// The new chat as it is answered once stored under `chat_id` at time `ts`:
/// its opening message (stored, so with its id) and its creator as the only
/// member.
pub fn created_chat(
    chat: Chat,
    chat_id: ObjectId,
    ts: DateTime,
    message: ChatMessage,
    creator: &UserSafe,
) -> (r: ChatSafe)
    requires
        message.id is Some,
    ensures
        r.id == chat_id,
        r.creator == chat.creator,
        r.name == chat.name,
        r.first_message_ts == ts,
        r.last_message_ts == ts,
        r.messages@.len() == 1,
        r.messages@[0].id == message.id.unwrap(),
        r.messages@[0].chat_id == message.chat_id,
        r.messages@[0].creator == message.creator,
        r.messages@[0].created_at == message.created_at,
        r.messages@[0].deleted_at == message.deleted_at,
        r.messages@[0].content == message.content,
        r.users@.len() == 1,
        r.users@[0].id == creator.id,
        r.users@[0].last_message_seen_ts == ts,
        r.users@[0].display_name@ == creator.display_name@,
{
    let mut chat = chat;
    chat.id = Some(chat_id);
    chat.first_message_ts = Some(ts);
    chat.last_message_ts = Some(ts);
    let mut safe = ChatSafe::from(chat);
    safe.messages.push(ChatMessageSafe::from(message));
    safe.users.push(
        ChatUserPopulated {
            id: creator.id,
            last_message_seen_ts: ts,
            display_name: creator.display_name.clone(),
        },
    );
    safe
}

/// What joining a chat writes and whom it tells.
pub struct JoinPlan {
    /// The membership to store.
    pub membership: ChatUser,
    /// The notice for the members who were there before.
    pub notice: Notice,
}

/// Whether `m` announces that `user` joined chat `chat`.
pub open spec fn is_user_joined(m: WebsocketServerMessage, chat: ChatSafe, user: UserSafe) -> bool {
    m matches WebsocketServerMessage::UserJoined { chat_id, user: member } && chat_id == chat.id
        && member.id == user.id && member.last_message_seen_ts == chat.last_message_ts
        && member.display_name@ == user.display_name@
}

/// Joining: nothing to do for a member; otherwise a membership that has
/// read up to the chat's last message, and a notice to the existing members.
pub fn join_plan(chat: &ChatSafe, user: &UserSafe) -> (r: Option<JoinPlan>)
    ensures
        r is None <==> spec_is_member(chat.users@, user.id),
        r matches Some(p) ==> {
            &&& p.membership.id is None
            &&& p.membership.chat_id == chat.id
            &&& p.membership.user_id == user.id
            &&& p.membership.last_message_seen_ts == chat.last_message_ts
            &&& p.notice.recipients@ == spec_member_ids(chat.users@)
            &&& is_user_joined(p.notice.message, *chat, *user)
        },
{
    if is_member(&chat.users, &user.id) {
        return None;
    }
    let membership = ChatUser {
        id: None,
        chat_id: chat.id,
        user_id: user.id,
        last_message_seen_ts: chat.last_message_ts,
    };
    let message = WebsocketServerMessage::UserJoined {
        chat_id: chat.id,
        user: ChatUserPopulated {
            id: user.id,
            last_message_seen_ts: chat.last_message_ts,
            display_name: user.display_name.clone(),
        },
    };
    Some(JoinPlan { membership, notice: Notice { recipients: member_ids(&chat.users), message } })
}

/// What marking a chat read writes, answers and tells.
pub struct ReadPlan {
    pub chat_id: ObjectId,
    pub user_id: ObjectId,
    /// The new read mark, which is also the answer.
    pub last_message_seen_ts: DateTime,
    /// The notice for the user's own connections.
    pub notice: Notice,
}

/// Marking a chat read: the user's read mark moves to the chat's last
/// message, and the user's other connections learn of it.
pub fn read_plan(chat: &ChatSafe, user: &UserSafe) -> (r: ReadPlan)
    ensures
        r.chat_id == chat.id,
        r.user_id == user.id,
        r.last_message_seen_ts == chat.last_message_ts,
        r.notice.recipients@ == seq![user.id],
        r.notice.message == (WebsocketServerMessage::SetChatRead {
            chat_id: chat.id,
            last_message_ts: chat.last_message_ts,
        }),
{
    let mut recipients: Vec<ObjectId> = Vec::new();
    recipients.push(user.id);
    ReadPlan {
        chat_id: chat.id,
        user_id: user.id,
        last_message_seen_ts: chat.last_message_ts,
        notice: Notice {
            recipients,
            message: WebsocketServerMessage::SetChatRead {
                chat_id: chat.id,
                last_message_ts: chat.last_message_ts,
            },
        },
    }
}

/// Joining twice is the same as joining once: once the joiner is listed
/// among the members, a second join finds it there (and so does nothing).
pub proof fn law_second_join_finds_member(users: Seq<ChatUserPopulated>, joined: ChatUserPopulated)
    ensures
        spec_is_member(users.push(joined), joined.id),
{
    assert(users.push(joined)[users.len() as int] == joined);
}

/// Every member is among the recipients of the chat's notices, the author
/// of a post included.
pub proof fn law_members_are_notified(users: Seq<ChatUserPopulated>, user_id: ObjectId)
    requires
        spec_is_member(users, user_id),
    ensures
        spec_member_ids(users).contains(user_id),
{
    let i = choose|i: int| 0 <= i < users.len() && (#[trigger] users[i]).id == user_id;
    assert(spec_member_ids(users)[i] == user_id);
}

} // verus!
