//! Membership of users in chats.

use crate::ids::{DateTime, ObjectId};
use vstd::prelude::*;

verus! {

/// A stored membership: `user_id` belongs to `chat_id` and has read the chat
/// up to `last_message_seen_ts`.
#[derive(Debug)]
pub struct ChatUser {
    pub id: Option<ObjectId>,
    pub chat_id: ObjectId,
    pub user_id: ObjectId,
    pub last_message_seen_ts: DateTime,
}

/// A member of a chat as it is handed out: the user's id and name with the
/// time up to which they have read the chat.
#[derive(Debug)]
pub struct ChatUserPopulated {
    pub id: ObjectId,
    pub last_message_seen_ts: DateTime,
    pub display_name: String,
}

} // verus!
