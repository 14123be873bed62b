//! The documents that the server stores and the "safe" forms it hands out.

pub mod chat;
pub mod chat_message;
pub mod chat_user;
pub mod user;
