//! The commands that link and unlink a Mastodon account.

use vstd::prelude::*;
use vstd::string::*;
use crate::text::{mtb, MessageEntityKind, MessageTextView};
use crate::util::handle::{Response, ResponseView};

verus! {

/// What the command `/auth arg` asks for.
#[derive(Debug, Clone, PartialEq, Eq)]
pub enum AuthStep {
    /// To be told whether an account is linked.
    Status,
    /// The address at which the server `domain` gives out a code.
    AskUrl { domain: String },
    /// To link the account on the server `domain`, with the code that it
    /// gave out.
    Authorize { domain: String, auth_code: String },
}

/// Reads the command: without an argument it asks for the state of things;
/// its argument is a server's domain, unless the user has named a server
/// before, and then it is that server's code.
pub fn auth(arg: String, pending_domain: Option<String>) -> (r: AuthStep)
    ensures
        r == if arg@.len() == 0 {
            AuthStep::Status
        } else {
            match pending_domain {
                None => AuthStep::AskUrl { domain: arg },
                Some(domain) => AuthStep::Authorize { domain, auth_code: arg },
            }
        },
{
    if arg.as_str().unicode_len() == 0 {
        AuthStep::Status
    } else {
        match pending_domain {
            None => AuthStep::AskUrl { domain: arg },
            Some(domain) => AuthStep::Authorize { domain, auth_code: arg },
        }
    }
}

/// What is said of the state of things.
pub open spec fn status_line(linked_domain: Option<Seq<char>>) -> Seq<char> {
    match linked_domain {
        None => "You have not linked your mastodon account yet."@,
        Some(domain) => "You have already linked your mastodon account for domain '"@ + domain
            + "'."@,
    }
}

/// The answer that tells the state of things, and the form of the command.
pub open spec fn status_text(linked_domain: Option<Seq<char>>) -> MessageTextView {
    crate::text::plain(Seq::empty()).append(crate::text::plain(status_line(linked_domain))).append(
        crate::text::plain("\n\nformat: "@),
    ).append(crate::text::marked("/auth <domain or auth-code>"@, MessageEntityKind::Code))
}

/// Tells the state of things: the server of the linked account, if one is
/// linked.
pub fn status_reply(linked_domain: Option<&str>) -> (r: Response)
    ensures
        r.wf(),
        r@ == ResponseView::ReplyTo(status_text(match linked_domain {
            Some(d) => Some(d@),
            None => None,
        })),
{
    let line = match linked_domain {
        None => String::from_str("You have not linked your mastodon account yet."),
        Some(domain) => String::from_str(
            "You have already linked your mastodon account for domain '",
        ).concat(domain).concat("'."),
    };
    let text = mtb().plain(line.as_str()).plain("\n\nformat: ").code(
        "/auth <domain or auth-code>",
    ).build();
    Response::reply_to(text)
}

/// What the user is told at each turn of the linking and unlinking.
#[derive(Debug, Clone, PartialEq, Eq)]
pub enum AuthReply {
    /// The address at which the code is given out.
    Url { url: String },
    /// The address could not be had.
    UrlFailed { domain: String, error: String },
    /// The account is linked.
    Authorized,
    /// The account could not be linked.
    AuthorizeFailed { domain: String, auth_code: String, error: String },
    /// No account is linked, so none can be unlinked.
    NotLinked,
    /// The account is unlinked.
    Revoked,
    /// The account could not be unlinked.
    RevokeFailed { domain: String, error: String },
}

/// The text of what the user is told.
pub open spec fn auth_text(reply: AuthReply) -> Seq<char> {
    match reply {
        AuthReply::Url { url } => "Please click this link to authorize:\n\n"@ + url@
            + "\n\nThen send back the auth code with command /auth."@,
        AuthReply::UrlFailed { domain, error } => "Failed to obtain authorization url for domain '"@
            + domain@ + "'\n\n"@ + error@,
        AuthReply::Authorized => "Authorized successfully."@,
        AuthReply::AuthorizeFailed { domain, auth_code, error } => "Failed to authorize for domain '"@
            + domain@ + "' with auth code '"@ + auth_code@ + "'.\n\n"@ + error@
            + "\n\nPlease send /auth <domain> to restart authorization."@,
        AuthReply::NotLinked => "You have not linked your mastodon account yet.\n\nUsing /auth command to link one."@,
        AuthReply::Revoked => "Revoked successfully."@,
        AuthReply::RevokeFailed { domain, error } => "Failed to revoke mastodon auth for domain '"@
            + domain@ + "'.\n\n"@ + error@,
    }
}

/// Whether what the user is told is a success.
pub open spec fn auth_ok(reply: AuthReply) -> bool {
    reply is Url || reply is Authorized || reply is Revoked
}

impl AuthReply {
    /// The answer that tells the user.
    pub fn response(&self) -> (r: Result<Response, Response>)
        ensures
            r is Ok == auth_ok(*self),
            match r {
                Ok(resp) => resp.wf() && resp@ == ResponseView::ReplyTo(
                    crate::text::plain(auth_text(*self)),
                ),
                Err(resp) => resp.wf() && resp@ == ResponseView::ReplyTo(
                    crate::text::plain(auth_text(*self)),
                ),
            },
    {
        match self {
            AuthReply::Url { url } => {
                let text = String::from_str("Please click this link to authorize:\n\n").concat(
                    url.as_str(),
                ).concat("\n\nThen send back the auth code with command /auth.");
                Ok(Response::reply_to_text(text.as_str()))
            },
            AuthReply::UrlFailed { domain, error } => {
                let text = String::from_str(
                    "Failed to obtain authorization url for domain '",
                ).concat(domain.as_str()).concat("'\n\n").concat(error.as_str());
                Err(Response::reply_to_text(text.as_str()))
            },
            AuthReply::Authorized => Ok(Response::reply_to_text("Authorized successfully.")),
            AuthReply::AuthorizeFailed { domain, auth_code, error } => {
                let text = String::from_str("Failed to authorize for domain '").concat(
                    domain.as_str(),
                ).concat("' with auth code '").concat(auth_code.as_str()).concat("'.\n\n").concat(
                    error.as_str(),
                ).concat("\n\nPlease send /auth <domain> to restart authorization.");
                Err(Response::reply_to_text(text.as_str()))
            },
            AuthReply::NotLinked => Err(
                Response::reply_to_text(
                    "You have not linked your mastodon account yet.\n\nUsing /auth command to link one.",
                ),
            ),
            AuthReply::Revoked => Ok(Response::reply_to_text("Revoked successfully.")),
            AuthReply::RevokeFailed { domain, error } => {
                let text = String::from_str("Failed to revoke mastodon auth for domain '").concat(
                    domain.as_str(),
                ).concat("'.\n\n").concat(error.as_str());
                Err(Response::reply_to_text(text.as_str()))
            },
        }
    }
}

/// What unlinking begins with: an account that is linked, on this server.
pub fn revoke(linked_domain: Option<String>) -> (r: Result<String, AuthReply>)
    ensures
        r == match linked_domain {
            Some(domain) => Ok::<String, AuthReply>(domain),
            None => Err(AuthReply::NotLinked),
        },
{
    match linked_domain {
        Some(domain) => Ok(domain),
        None => Err(AuthReply::NotLinked),
    }
}

} // verus!
