//! The bot's commands and their arguments.

use vstd::prelude::*;

pub mod arg;

verus! {

/// A command that a user sends to the bot.
#[derive(Debug, Clone, PartialEq, Eq)]
pub enum Command {
    /// Asks whether the bot is there.
    Ping,
    /// Echoes its argument.
    Debug(String),
    /// Greets a new user.
    Start,
    /// Links a Mastodon account: first with the server's domain, then with
    /// the code that the server gave out.
    Auth(String),
    /// Unlinks the Mastodon account.
    Revoke,
    /// Posts the message that the command replies to.
    Post(String),
    /// Sends a text to every user of the bot.
    Broadcast(String),
}

} // verus!
