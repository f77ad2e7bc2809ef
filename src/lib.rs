//! Coordination core of a real-time chat service: one actor per chat room
//! keeps a bounded message history, a roster of connected identities and an
//! idle-expiry timer, and decides which events go to which connections.

pub mod auth;
pub mod chats;
pub mod expiry;
pub mod log;
pub mod messaging;
pub mod registry;
pub mod room;
