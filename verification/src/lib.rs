//! The server side of a real-time chat: accounts, chats and messages, the
//! registry of live websocket connections and media rooms, and the policies
//! that govern sessions, tokens and the Redis link between server instances.

pub mod api;
pub mod ids;
pub mod jwt;
pub mod keyed;
pub mod models;
pub mod mongodb;
pub mod redis;
