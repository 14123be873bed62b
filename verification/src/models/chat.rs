//! Chats.

use crate::ids::{DateTime, ObjectId};
use crate::models::chat_message::ChatMessageSafe;
use crate::models::chat_user::ChatUserPopulated;
use vstd::prelude::*;

verus! {

/// A stored chat; the id and the first and last message times are unset
/// until the chat has been written with its first message.
#[derive(Debug)]
pub struct Chat {
    pub id: Option<ObjectId>,
    pub creator: ObjectId,
    pub name: String,
    pub first_message_ts: Option<DateTime>,
    pub last_message_ts: Option<DateTime>,
}

/// A chat as it is handed out, with the messages and members that were
/// loaded with it.
#[derive(Debug)]
pub struct ChatSafe {
    pub id: ObjectId,
    pub creator: ObjectId,
    pub name: String,
    pub first_message_ts: DateTime,
    pub last_message_ts: DateTime,
    pub messages: Vec<ChatMessageSafe>,
    pub users: Vec<ChatUserPopulated>,
}

impl ChatSafe {
    /// The handed-out form of a complete stored chat, with no messages or
    /// members loaded yet.
    pub fn from(value: Chat) -> (r: ChatSafe)
        requires
            value.id is Some,
            value.first_message_ts is Some,
            value.last_message_ts is Some,
        ensures
            r.id == value.id.unwrap(),
            r.creator == value.creator,
            r.name == value.name,
            r.first_message_ts == value.first_message_ts.unwrap(),
            r.last_message_ts == value.last_message_ts.unwrap(),
            r.messages@.len() == 0,
            r.users@.len() == 0,
    {
        ChatSafe {
            id: value.id.unwrap(),
            creator: value.creator,
            name: value.name,
            first_message_ts: value.first_message_ts.unwrap(),
            last_message_ts: value.last_message_ts.unwrap(),
            messages: Vec::new(),
            users: Vec::new(),
        }
    }
}

} // verus!
