//! Messages: posting one to a chat and reading a chat's history.

use crate::api::chat::{is_member, member_ids, spec_is_member, spec_member_ids};
use crate::api::websocket::{Notice, WebsocketServerMessage};
use crate::ids::{DateTime, ObjectId};
use crate::models::chat::ChatSafe;
use crate::models::chat_message::{ChatMessage, ChatMessageSafe};
use vstd::prelude::*;

verus! {

/// A request to post `content` to chat `chat_id`.
pub struct CreateRequest {
    pub chat_id: ObjectId,
    pub content: String,
}

/// A request for the messages of chat `chat_id`, older than
/// `last_message_ts` where it is given.
pub struct GetRequest {
    pub chat_id: ObjectId,
    pub last_message_ts: Option<DateTime>,
}

/// Why a message cannot be posted.
#[derive(Clone, Copy, Debug, PartialEq, Eq, Structural)]
pub enum MessageError {
    /// The poster is not a member of the chat (or the chat does not exist).
    ChatNotFound,
}

/// How many messages one history request returns at most.
pub const PAGE_SIZE: u64 = 10;

/// The message to store for a post by `author` to `chat` at time `ts`;
/// refused unless the author is a member of the chat.
pub fn new_message(chat: &ChatSafe, author: &ObjectId, request: CreateRequest, ts: DateTime) -> (r:
    Result<ChatMessage, MessageError>)
    ensures
        r is Err <==> !spec_is_member(chat.users@, *author),
        r matches Err(e) ==> e == MessageError::ChatNotFound,
        r matches Ok(m) ==> {
            &&& m.id is None
            &&& m.chat_id == request.chat_id
            &&& m.creator == Some(*author)
            &&& m.created_at == ts
            &&& m.deleted_at is None
            &&& m.content == request.content
        },
{
    if !is_member(&chat.users, author) {
        return Err(MessageError::ChatNotFound);
    }
    Ok(
        ChatMessage {
            id: None,
            chat_id: request.chat_id,
            creator: Some(*author),
            created_at: ts,
            deleted_at: None,
            content: request.content,
        },
    )
}

/// Whether `s` is the handed-out form of stored message `m`.
pub open spec fn is_safe_form(s: ChatMessageSafe, m: ChatMessage) -> bool {
    &&& m.id == Some(s.id)
    &&& s.chat_id == m.chat_id
    &&& s.creator == m.creator
    &&& s.created_at == m.created_at
    &&& s.deleted_at == m.deleted_at
    &&& s.content@ == m.content@
}

/// A stored message as it is answered, and the notice of it for every
/// member of the chat.
pub fn posted(message: ChatMessage, chat: &ChatSafe) -> (r: (ChatMessageSafe, Notice))
    requires
        message.id is Some,
    ensures
        is_safe_form(r.0, message),
        r.1.recipients@ == spec_member_ids(chat.users@),
        r.1.message matches WebsocketServerMessage::NewMessage(s) && is_safe_form(s, message),
{
    let copy = message.duplicate();
    let notice = Notice {
        recipients: member_ids(&chat.users),
        message: WebsocketServerMessage::NewMessage(ChatMessageSafe::from(copy)),
    };
    (ChatMessageSafe::from(message), notice)
}

/// Which messages a history request reads: those of the chat, created
/// before the given time if there is one, newest first, at most a page.
pub struct MessageQuery {
    pub chat_id: ObjectId,
    pub before: Option<DateTime>,
    pub limit: u64,
}

/// The query for a history request.
pub fn message_query(request: &GetRequest) -> (r: MessageQuery)
    ensures
        r.chat_id == request.chat_id,
        r.before == request.last_message_ts,
        r.limit == PAGE_SIZE,
{
    MessageQuery { chat_id: request.chat_id, before: request.last_message_ts, limit: PAGE_SIZE }
}

/// A page read newest first, put back in the order it was written: oldest
/// first.
pub fn chronological(newest_first: Vec<ChatMessageSafe>) -> (r: Vec<ChatMessageSafe>)
    ensures
        r@ == newest_first@.reverse(),
{
    let mut src = newest_first;
    let ghost orig = src@;
    let mut out: Vec<ChatMessageSafe> = Vec::new();
    while src.len() > 0
        invariant
            src@ == orig.take(src@.len() as int),
            out@ == orig.skip(src@.len() as int).reverse(),
            src@.len() <= orig.len(),
        decreases src@.len(),
    {
        let ghost n = src@.len();
        let m = src.pop().unwrap();
        out.push(m);
        proof {
            assert(src@ =~= orig.take(n - 1));
            assert(orig.skip(n - 1) =~= seq![orig[n - 1]] + orig.skip(n as int));
            assert(orig.skip(n - 1).reverse() =~= orig.skip(n as int).reverse().push(orig[n - 1]));
        }
    }
    assert(orig.skip(0) =~= orig);
    out
}

} // verus!
