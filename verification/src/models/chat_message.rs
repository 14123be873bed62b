//! Chat messages.

use crate::ids::{DateTime, ObjectId};
use vstd::prelude::*;

verus! {

/// A stored message; `id` is unset until the database assigns one, and a
/// message without `creator` was written by the server itself.
#[derive(Debug)]
pub struct ChatMessage {
    pub id: Option<ObjectId>,
    pub chat_id: ObjectId,
    pub creator: Option<ObjectId>,
    pub created_at: DateTime,
    pub deleted_at: Option<DateTime>,
    pub content: String,
}

/// A message as it is handed out, with its id.
#[derive(Debug)]
pub struct ChatMessageSafe {
    pub id: ObjectId,
    pub chat_id: ObjectId,
    pub creator: Option<ObjectId>,
    pub created_at: DateTime,
    pub deleted_at: Option<DateTime>,
    pub content: String,
}

impl ChatMessage {
    /// A copy of this message.
    pub fn duplicate(&self) -> (r: ChatMessage)
        ensures
            r == *self,
    {
        ChatMessage {
            id: self.id,
            chat_id: self.chat_id,
            creator: self.creator,
            created_at: self.created_at,
            deleted_at: self.deleted_at,
            content: self.content.clone(),
        }
    }
}

impl ChatMessageSafe {
    /// The handed-out form of a stored message, which must already have its id.
    pub fn from(value: ChatMessage) -> (r: ChatMessageSafe)
        requires
            value.id is Some,
        ensures
            r.id == value.id.unwrap(),
            r.chat_id == value.chat_id,
            r.creator == value.creator,
            r.created_at == value.created_at,
            r.deleted_at == value.deleted_at,
            r.content == value.content,
    {
        ChatMessageSafe {
            id: value.id.unwrap(),
            chat_id: value.chat_id,
            creator: value.creator,
            created_at: value.created_at,
            deleted_at: value.deleted_at,
            content: value.content,
        }
    }
}

} // verus!
