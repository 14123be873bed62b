//! The server's operations: chats, messages, accounts, media uploads and the
//! websocket server with its connection and room registries.

pub mod chat;
pub mod connections;
pub mod media;
pub mod message;
pub mod room_join;
pub mod rooms;
pub mod session;
pub mod user;
pub mod websocket;
