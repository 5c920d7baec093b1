//! The line that names where a message came from.

use vstd::prelude::*;
use vstd::string::*;
use crate::text::MessageText;
use crate::util::chat::{chat_display_name, User};
use crate::util::msg::{ForwardedFrom, Message};

verus! {

/// The line that names a source, with its public name where it has one.
pub open spec fn source_line(name: Seq<char>, username: Option<Seq<char>>) -> Seq<char> {
    "\n\n-----\nFrom \""@ + name + "\""@ + match username {
        Some(username) => " (@"@ + username + ")"@,
        None => Seq::empty(),
    }
}

/// The line that names where a forwarded message came from. There is none
/// where the message was not forwarded, and none where it came from the
/// channel that is linked to the chat.
pub open spec fn forward_line(msg: Message, linked: bool) -> Option<Seq<char>> {
    match msg.forward {
        None => None,
        Some(_) if linked => None,
        Some(ForwardedFrom::User(user)) => Some(
            source_line(
                crate::util::chat::full_name_of(
                    user.first_name@,
                    crate::util::chat::text_of(user.last_name),
                ),
                crate::util::chat::text_of(user.username),
            ),
        ),
        Some(ForwardedFrom::Chat(chat)) => Some(
            source_line(crate::util::chat::display_name_of(chat.kind), username_of(chat)),
        ),
        Some(ForwardedFrom::SenderName(name)) => Some(source_line(name@, None)),
    }
}

/// The public name of a chat.
pub open spec fn username_of(chat: crate::util::chat::Chat) -> Option<Seq<char>> {
    match chat.kind {
        crate::util::chat::ChatKind::Public { username: Some(name), .. } => Some(name@),
        crate::util::chat::ChatKind::Private { username: Some(name), .. } => Some(name@),
        _ => None,
    }
}

/// Whether a user counts as the sender of a message: a user who is no
/// stand-in of the platform, and not `trigger`, the user who asked.
pub open spec fn counts_as_sender(user: User, trigger: Option<u64>) -> bool {
    &&& trigger != Some(user.id)
    &&& user.id != 1087968824
    &&& user.id != 136817688
}

/// The line that names who sent a message: the chat in whose name it was
/// sent, else the user who sent it. There is none where neither is known,
/// and none for a channel where channels are left out.
pub open spec fn sender_line(msg: Message, trigger: Option<u64>, exclude_channel: bool) -> Option<
    Seq<char>,
> {
    match msg.sender_chat {
        Some(chat) => if exclude_channel && (chat.kind matches crate::util::chat::ChatKind::Public {
            is_channel: true,
            ..
        }) {
            None
        } else {
            Some(source_line(crate::util::chat::display_name_of(chat.kind), username_of(chat)))
        },
        None => match msg.from {
            Some(user) if counts_as_sender(user, trigger) => Some(
                source_line(
                    crate::util::chat::full_name_of(
                        user.first_name@,
                        crate::util::chat::text_of(user.last_name),
                    ),
                    crate::util::chat::text_of(user.username),
                ),
            ),
            _ => None,
        },
    }
}

/// The line that names the source of a message. With `enable` unset, the
/// source is named unless the user who asked sent the message themselves or
/// a channel sent it; set, it says whether the source is named at all.
pub open spec fn source_footer(
    msg: Message,
    enable: Option<bool>,
    trigger: Option<u64>,
    linked: bool,
) -> Option<Seq<char>> {
    match enable {
        None => match forward_line(msg, linked) {
            Some(line) => Some(line),
            None => sender_line(msg, trigger, true),
        },
        Some(true) => match forward_line(msg, linked) {
            Some(line) => Some(line),
            None => sender_line(msg, None, false),
        },
        Some(false) => None,
    }
}

/// Writes the line that names a source.
fn write_source_line(name: &str, username: Option<&String>) -> (r: String)
    ensures
        r@ == source_line(name@, match username {
            Some(u) => Some(u@),
            None => None,
        }),
{
    let line = String::from_str("\n\n-----\nFrom \"").concat(name).concat("\"");
    match username {
        Some(username) => line.concat(" (@").concat(username.as_str()).concat(")"),
        None => {
            assert(line@ + Seq::<char>::empty() =~= line@);
            line
        },
    }
}

/// Writes the line that names where a forwarded message came from.
fn forward_source(msg: &Message, linked: bool) -> (r: Option<String>)
    ensures
        crate::util::chat::text_of(r) == forward_line(*msg, linked),
{
    match &msg.forward {
        None => None,
        Some(forward) => {
            if linked {
                return None;
            }
            match forward {
                ForwardedFrom::User(user) => {
                    let name = user.full_name();
                    Some(write_source_line(name.as_str(), user.username.as_ref()))
                },
                ForwardedFrom::Chat(chat) => {
                    let name = chat_display_name(chat);
                    Some(write_source_line(name.as_str(), chat.username()))
                },
                ForwardedFrom::SenderName(name) => Some(write_source_line(name.as_str(), None)),
            }
        },
    }
}

/// Writes the line that names who sent a message.
fn sender_source(trigger: Option<&User>, exclude_channel: bool, msg: &Message) -> (r: Option<
    String,
>)
    ensures
        crate::util::chat::text_of(r) == sender_line(
            *msg,
            match trigger {
                Some(t) => Some(t.id),
                None => None,
            },
            exclude_channel,
        ),
{
    match &msg.sender_chat {
        Some(chat) => {
            if exclude_channel && chat.is_channel() {
                None
            } else {
                let name = chat_display_name(chat);
                Some(write_source_line(name.as_str(), chat.username()))
            }
        },
        None => match &msg.from {
            Some(user) => {
                let is_trigger = match trigger {
                    Some(t) => t.id == user.id,
                    None => false,
                };
                if is_trigger || user.is_anonymous() || user.is_channel() {
                    None
                } else {
                    let name = user.full_name();
                    Some(write_source_line(name.as_str(), user.username.as_ref()))
                }
            },
            None => None,
        },
    }
}

/// Whether the chat's linked channel has to be known before the source of
/// `msg` can be named: the message was forwarded, it was sent in a chat's
/// name, and the source is not left out altogether.
pub fn needs_linked_chat(msg: &Message, enable: Option<bool>) -> (r: bool)
    ensures
        r == (enable != Some(false) && msg.forward.is_some() && msg.sender_chat.is_some()),
{
    let wanted = match enable {
        Some(false) => false,
        _ => true,
    };
    wanted && msg.forward.is_some() && msg.sender_chat.is_some()
}

/// Puts the line that names the source of `msg` at the end of the text, and
/// says whether there was one. `linked` says whether the message was sent in
/// the name of the channel that is linked to its chat; `trigger` is the user
/// who asked for the post.
pub fn append_source(
    msg_text: &mut MessageText,
    enable: Option<bool>,
    msg: &Message,
    trigger: Option<&User>,
    linked: bool,
) -> (with_src: bool)
    requires
        old(msg_text).wf(),
    ensures
        with_src == source_footer(*msg, enable, match trigger {
            Some(t) => Some(t.id),
            None => None,
        }, linked).is_some(),
        final(msg_text)@ == match source_footer(*msg, enable, match trigger {
            Some(t) => Some(t.id),
            None => None,
        }, linked) {
            Some(line) => old(msg_text)@.append(crate::text::plain(line)),
            None => old(msg_text)@,
        },
        final(msg_text).wf(),
        old(msg_text)@.aligned() ==> final(msg_text)@.aligned(),
{
    let line = match enable {
        None => match forward_source(msg, linked) {
            Some(line) => Some(line),
            None => sender_source(trigger, true, msg),
        },
        Some(true) => match forward_source(msg, linked) {
            Some(line) => Some(line),
            None => sender_source(None, false, msg),
        },
        Some(false) => None,
    };
    match line {
        Some(line) => {
            msg_text.append_text(line.as_str());
            true
        },
        None => false,
    }
}

} // verus!
