//! What the handlers share: chats and users, media, and progress messages.

pub mod cache;
pub mod chat;
pub mod handle;
pub mod media;
pub mod msg;
pub mod progmsg;

