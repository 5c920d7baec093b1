//! The users and chats of the chat platform, as far as the bot reads them.

use vstd::prelude::*;
use vstd::string::*;

verus! {

/// A user of the chat platform.
#[derive(Debug, Clone, PartialEq, Eq)]
pub struct User {
    pub id: u64,
    pub first_name: String,
    pub last_name: Option<String>,
    pub username: Option<String>,
}

/// What kind of chat a chat is, with the names that it goes by.
#[derive(Debug, Clone, PartialEq, Eq)]
pub enum ChatKind {
    /// A group, a supergroup or a channel.
    Public { title: Option<String>, is_channel: bool, username: Option<String> },
    /// A chat with one user.
    Private { first_name: Option<String>, last_name: Option<String>, username: Option<String> },
}

/// A chat of the chat platform.
#[derive(Debug, Clone, PartialEq, Eq)]
pub struct Chat {
    pub id: i64,
    pub kind: ChatKind,
}

/// The characters of an optional text.
pub open spec fn text_of(s: Option<String>) -> Option<Seq<char>> {
    match s {
        Some(s) => Some(s@),
        None => None,
    }
}

/// First and last name joined by a space, or the first name alone.
pub open spec fn full_name_of(first_name: Seq<char>, last_name: Option<Seq<char>>) -> Seq<char> {
    match last_name {
        Some(last_name) => first_name + seq![' '] + last_name,
        None => first_name,
    }
}

/// The name under which a chat is shown: a public chat's title; a private
/// chat's first and last name, or the one of them that it has; and
/// `Untitled Chat` where there is none of these.
pub open spec fn display_name_of(kind: ChatKind) -> Seq<char> {
    match kind {
        ChatKind::Public { title: Some(title), .. } => title@,
        ChatKind::Private { first_name: Some(first), last_name: Some(last), .. } => first@
            + seq![' '] + last@,
        ChatKind::Private { first_name: Some(first), last_name: None, .. } => first@,
        ChatKind::Private { first_name: None, last_name: Some(last), .. } => last@,
        _ => "Untitled Chat"@,
    }
}

impl User {
    /// The user's first and last name, joined by a space.
    pub fn full_name(&self) -> (r: String)
        ensures
            r@ == full_name_of(self.first_name@, text_of(self.last_name)),
    {
        match &self.last_name {
            Some(last_name) => {
                let r = self.first_name.clone().concat(" ").concat(last_name.as_str());
                proof {
                    reveal_strlit(" ");
                    assert(" "@ =~= seq![' ']);
                }
                r
            },
            None => self.first_name.clone(),
        }
    }

    /// Whether this is the user that stands for the anonymous admins of a
    /// group.
    pub fn is_anonymous(&self) -> (r: bool)
        ensures
            r == (self.id == 1087968824),
    {
        id_is_anonymous(self.id)
    }

    /// Whether this is the user that stands for a channel that posts in its
    /// own name.
    pub fn is_channel(&self) -> (r: bool)
        ensures
            r == (self.id == 136817688),
    {
        id_is_channel(self.id)
    }
}

/// `teloxide::types::UserId::is_anonymous`: whether the id is that of the
/// platform's `GroupAnonymousBot`, which teloxide's source gives as
/// 1087968824.
#[verifier::external_body]
fn id_is_anonymous(id: u64) -> (r: bool)
    ensures
        r == (id == 1087968824),
{
    teloxide::types::UserId(id).is_anonymous()
}

/// `teloxide::types::UserId::is_channel`: whether the id is that of the
/// platform's `Channel_Bot`, which teloxide's source gives as 136817688.
#[verifier::external_body]
fn id_is_channel(id: u64) -> (r: bool)
    ensures
        r == (id == 136817688),
{
    teloxide::types::UserId(id).is_channel()
}

impl Chat {
    /// The chat's public name, if it has one.
    pub fn username(&self) -> (r: Option<&String>)
        ensures
            r == match self.kind {
                ChatKind::Public { username: Some(name), .. } => Some(&name),
                ChatKind::Private { username: Some(name), .. } => Some(&name),
                _ => None,
            },
    {
        match &self.kind {
            ChatKind::Public { username, .. } => username.as_ref(),
            ChatKind::Private { username, .. } => username.as_ref(),
        }
    }

    /// Whether the chat is a channel.
    pub fn is_channel(&self) -> (r: bool)
        ensures
            r == (self.kind matches ChatKind::Public { is_channel: true, .. }),
    {
        match &self.kind {
            ChatKind::Public { is_channel, .. } => *is_channel,
            ChatKind::Private { .. } => false,
        }
    }
}

/// The name under which a chat is shown.
pub fn chat_display_name(chat: &Chat) -> (r: String)
    ensures
        r@ == display_name_of(chat.kind),
{
    proof {
        reveal_strlit(" ");
        assert(" "@ =~= seq![' ']);
    }
    match &chat.kind {
        ChatKind::Public { title: Some(title), .. } => title.clone(),
        ChatKind::Private { first_name: Some(first), last_name: Some(last), .. } => {
            first.clone().concat(" ").concat(last.as_str())
        },
        ChatKind::Private { first_name: Some(first), last_name: None, .. } => first.clone(),
        ChatKind::Private { first_name: None, last_name: Some(last), .. } => last.clone(),
        _ => String::from_str("Untitled Chat"),
    }
}

} // verus!
