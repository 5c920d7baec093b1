//! A message of the chat platform, as far as the bot reads it.

use vstd::prelude::*;
use crate::util::chat::{Chat, User};
use crate::util::media::MediaKind;

verus! {

/// Where a forwarded message came from.
#[derive(Debug, Clone, PartialEq, Eq)]
pub enum ForwardedFrom {
    User(User),
    Chat(Chat),
    /// A user who hides their account; only the name is known.
    SenderName(String),
}

/// A message.
#[derive(Debug, Clone, PartialEq, Eq)]
pub struct Message {
    pub id: i32,
    pub chat: Chat,
    /// The user who sent it.
    pub from: Option<User>,
    /// The chat in whose name it was sent.
    pub sender_chat: Option<Chat>,
    /// Where it was forwarded from, if it was forwarded.
    pub forward: Option<ForwardedFrom>,
    /// The group of messages that it is shown with as one.
    pub media_group_id: Option<String>,
    /// What it carries; `None` for a message of the platform itself, such as
    /// the notice that a user has joined.
    pub media: Option<MediaKind>,
}

/// Whether the message was sent in the name of the channel that is linked to
/// the chat `linked_chat_id`; `None` where it was sent in no chat's name.
pub open spec fn from_linked_channel(msg: Message, linked_chat_id: Option<i64>) -> Option<bool> {
    match msg.sender_chat {
        Some(sender) => Some(linked_chat_id == Some(sender.id)),
        None => None,
    }
}

/// Whether the message was sent in the name of the channel that is linked to
/// its chat, given the chat's linked chat; `None` where the message was sent
/// in no chat's name, so that the chat need not be asked for.
pub fn is_from_linked_channel(msg: &Message, linked_chat_id: Option<i64>) -> (r: Option<bool>)
    ensures
        r == from_linked_channel(*msg, linked_chat_id),
{
    match &msg.sender_chat {
        Some(sender) => Some(
            match linked_chat_id {
                Some(id) => id == sender.id,
                None => false,
            },
        ),
        None => None,
    }
}

} // verus!
