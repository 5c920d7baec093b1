//! What the bot does with the messages and commands that it receives.

use vstd::prelude::*;
use crate::cmd::Command;
use crate::text::{MessageText, MessageTextView};
use crate::util::handle::{RequestKind, Response, ResponseKind, ResponseView};

pub mod auth;
pub mod broadcast;
pub mod debug;
pub mod ping;
pub mod post;
pub mod start;

verus! {

/// A message that the bot sends.
#[derive(Debug, Clone)]
pub struct Outgoing {
    pub text: MessageText,
    /// Whether it is sent as a reply to the message that was handled.
    pub reply: bool,
}

/// What is sent for an answer with this text: the text itself, behind a
/// warning sign where the handler failed.
pub open spec fn outgoing_text(succeeded: bool, text: MessageTextView) -> MessageTextView {
    if succeeded {
        text
    } else {
        text.prepend(crate::text::plain("⚠️ "@))
    }
}

/// Says what the bot sends for a handler's answer.
pub fn handle(res: Result<Response, Response>) -> (r: Option<Outgoing>)
    requires
        match res {
            Ok(resp) => resp.wf(),
            Err(resp) => resp.wf(),
        },
    ensures
        match (match res {
            Ok(resp) => resp@,
            Err(resp) => resp@,
        }) {
            ResponseView::Nothing => r is None,
            ResponseView::ReplyTo(text) => r matches Some(out) && out.reply && out.text@
                == outgoing_text(res is Ok, text) && out.text.wf(),
            ResponseView::NewMsg(text) => r matches Some(out) && !out.reply && out.text@
                == outgoing_text(res is Ok, text) && out.text.wf(),
        },
{
    let (succeeded, resp) = match res {
        Ok(resp) => (true, resp),
        Err(resp) => (false, resp),
    };
    match resp.kind {
        ResponseKind::Nothing => None,
        ResponseKind::ReplyTo(text) => {
            let mut text = text;
            if !succeeded {
                text.prepend_text("⚠️ ");
            }
            Some(Outgoing { text, reply: true })
        },
        ResponseKind::NewMsg(text) => {
            let mut text = text;
            if !succeeded {
                text.prepend_text("⚠️ ");
            }
            Some(Outgoing { text, reply: false })
        },
    }
}

/// What is to be done for a request.
#[derive(Debug)]
pub enum Route {
    /// Keep the media of the message, if it belongs to a group.
    CacheMedia,
    /// Answer, and nothing else.
    Respond(Result<Response, Response>),
    /// Link a Mastodon account, with this argument.
    Auth(String),
    /// Unlink the Mastodon account.
    Revoke,
    /// Post the message that the command replies to, with this argument,
    /// under a progress message with the title `Synchronizing...`.
    Post(String),
    /// Send this text to every user, under a progress message with the
    /// title `Broadcasting...`.
    Broadcast(String),
}

/// Where a command is given, and by whom.
#[derive(Debug, Clone, Copy, PartialEq, Eq, Structural)]
pub struct Origin {
    /// Whether the chat is a chat with one user.
    pub private: bool,
    /// The user who gave the command.
    pub from: Option<u64>,
    /// The user who may broadcast, if one is named.
    pub admin: Option<u64>,
}

/// The title of the progress message of the command that posts.
pub const POST_TITLE: &'static str = "Synchronizing...";

/// The title of the progress message of the command that broadcasts.
pub const BROADCAST_TITLE: &'static str = "Broadcasting...";

/// Passes a command that is only given in a chat with one user.
pub fn require_private(origin: Origin) -> (r: Result<(), Response>)
    ensures
        match r {
            Ok(_) => origin.private,
            Err(resp) => !origin.private && resp.wf() && resp@ == ResponseView::ReplyTo(
                crate::text::plain("This command is only available in direct messages."@),
            ),
        },
{
    if origin.private {
        Ok(())
    } else {
        Err(Response::reply_to_text("This command is only available in direct messages."))
    }
}

/// Passes a command that only the admin may give.
pub fn require_admin(origin: Origin) -> (r: Result<(), Response>)
    ensures
        match r {
            Ok(_) => origin.admin is Some && origin.from == origin.admin,
            Err(resp) => resp.wf() && match origin.admin {
                None => resp@ == ResponseView::ReplyTo(
                    crate::text::plain(
                        "Admin user id is not set or invalid.\nPlease set env var `TGBOT_MASTODON_SYNC_ADMIN_TG_USER_ID` on your server."@,
                    ),
                ),
                Some(_) => origin.from != origin.admin && resp@ == ResponseView::ReplyTo(
                    crate::text::plain("🎶 Never Gonna Give You Up 🎶"@),
                ),
            },
        },
{
    let admin = match origin.admin {
        Some(admin) => admin,
        None => {
            return Err(
                Response::reply_to_text(
                    "Admin user id is not set or invalid.\nPlease set env var `TGBOT_MASTODON_SYNC_ADMIN_TG_USER_ID` on your server.",
                ),
            );
        },
    };
    let is_admin = match origin.from {
        Some(from) => from == admin,
        None => false,
    };
    if is_admin {
        Ok(())
    } else {
        Err(Response::reply_to_text("🎶 Never Gonna Give You Up 🎶"))
    }
}

/// The answer to a command that is refused for where it is given or by
/// whom, or `None` where it is let through.
pub open spec fn refusal_of(cmd: Command, origin: Origin) -> Option<Seq<char>> {
    match cmd {
        Command::Auth(_) | Command::Revoke => if origin.private {
            None
        } else {
            Some("This command is only available in direct messages."@)
        },
        Command::Broadcast(_) => match origin.admin {
            None => Some(
                "Admin user id is not set or invalid.\nPlease set env var `TGBOT_MASTODON_SYNC_ADMIN_TG_USER_ID` on your server."@,
            ),
            Some(_) => if origin.from == origin.admin {
                None
            } else {
                Some("🎶 Never Gonna Give You Up 🎶"@)
            },
        },
        _ => None,
    }
}

/// Says what is to be done for a command. A command that is refused is
/// answered with the refusal; the commands that ask nothing of anyone else
/// are answered at once; the others are passed on with their argument.
pub fn handle_command(cmd: Command, origin: Origin) -> (r: Route)
    ensures
        match refusal_of(cmd, origin) {
            Some(text) => r matches Route::Respond(Err(resp)) && resp@ == ResponseView::ReplyTo(
                crate::text::plain(text),
            ),
            None => match cmd {
                Command::Ping => r matches Route::Respond(Err(resp)) && resp@
                    == ResponseView::ReplyTo(crate::text::plain("Pong!"@)),
                Command::Debug(arg) => r matches Route::Respond(Err(resp)) && resp@
                    == ResponseView::ReplyTo(crate::text::plain(arg@)),
                Command::Start => r matches Route::Respond(Ok(resp)) && start::is_greeting(resp@),
                Command::Auth(arg) => r matches Route::Auth(a) && a == arg,
                Command::Revoke => r is Revoke,
                Command::Post(arg) => r matches Route::Post(a) && a == arg,
                Command::Broadcast(arg) => r matches Route::Broadcast(a) && a == arg,
            },
        },
        r matches Route::Respond(Ok(resp)) ==> resp.wf(),
        r matches Route::Respond(Err(resp)) ==> resp.wf(),
{
    match cmd {
        Command::Ping => Route::Respond(ping::handle()),
        Command::Debug(arg) => Route::Respond(debug::handle(arg.as_str())),
        Command::Start => Route::Respond(start::handle()),
        Command::Auth(arg) => match require_private(origin) {
            Ok(_) => Route::Auth(arg),
            Err(resp) => Route::Respond(Err(resp)),
        },
        Command::Revoke => match require_private(origin) {
            Ok(_) => Route::Revoke,
            Err(resp) => Route::Respond(Err(resp)),
        },
        Command::Post(arg) => Route::Post(arg),
        Command::Broadcast(arg) => match require_admin(origin) {
            Ok(_) => Route::Broadcast(arg),
            Err(resp) => Route::Respond(Err(resp)),
        },
    }
}

/// A new message has its media kept; nothing is answered.
pub fn handle_new_message() -> (r: Route)
    ensures
        r is CacheMedia,
{
    Route::CacheMedia
}

/// An edited message has its media kept anew; nothing is answered.
pub fn handle_edited_message() -> (r: Route)
    ensures
        r is CacheMedia,
{
    Route::CacheMedia
}

/// Says what is to be done for a request: the media of a message, new or
/// edited, are kept; a command is handled as [`handle_command`] says.
pub fn handle_kind(kind: RequestKind<Command>, origin: Origin) -> (r: Route)
    ensures
        match kind {
            RequestKind::NewMessage => r is CacheMedia,
            RequestKind::EditedMessage => r is CacheMedia,
            RequestKind::Command(cmd) => match refusal_of(cmd, origin) {
                Some(text) => r matches Route::Respond(Err(resp)) && resp@
                    == ResponseView::ReplyTo(crate::text::plain(text)),
                None => match cmd {
                    Command::Ping => r matches Route::Respond(Err(resp)) && resp@
                        == ResponseView::ReplyTo(crate::text::plain("Pong!"@)),
                    Command::Debug(arg) => r matches Route::Respond(Err(resp)) && resp@
                        == ResponseView::ReplyTo(crate::text::plain(arg@)),
                    Command::Start => r matches Route::Respond(Ok(resp)) && start::is_greeting(
                        resp@,
                    ),
                    Command::Auth(arg) => r matches Route::Auth(a) && a == arg,
                    Command::Revoke => r is Revoke,
                    Command::Post(arg) => r matches Route::Post(a) && a == arg,
                    Command::Broadcast(arg) => r matches Route::Broadcast(a) && a == arg,
                },
            },
        },
        r matches Route::Respond(Ok(resp)) ==> resp.wf(),
        r matches Route::Respond(Err(resp)) ==> resp.wf(),
{
    match kind {
        RequestKind::NewMessage => handle_new_message(),
        RequestKind::EditedMessage => handle_edited_message(),
        RequestKind::Command(cmd) => handle_command(cmd, origin),
    }
}

} // verus!
