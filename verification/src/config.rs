//! What is fixed about the bot.

use vstd::prelude::*;

verus! {

/// The variable of the environment that holds the bot's token.
pub const BOT_TOKEN_ENV_VAR: &'static str = "TGBOT_MASTODON_SYNC_BOT_TOKEN";

/// The variable of the environment that holds the address of the database.
pub const DB_URL_ENV_VAR: &'static str = "TGBOT_MASTODON_SYNC_DATABASE_URL";

/// The variable of the environment that holds the id of the user who may
/// broadcast.
pub const ADMIN_TG_USER_ID_ENV_VAR: &'static str = "TGBOT_MASTODON_SYNC_ADMIN_TG_USER_ID";

/// Seconds to wait before a status is handed to Mastodon again, while
/// Mastodon is still processing its media.
pub const WAITING_FOR_SERVER_PROCESS_MEDIA_INTERVAL: u64 = 1;

/// Seconds after which a status is given up, while Mastodon is still
/// processing its media.
pub const WAITING_FOR_SERVER_PROCESS_MEDIA_TIMEOUT: u64 = 30;

/// A package's name and version.
#[derive(Debug, Clone, Copy, PartialEq, Eq)]
pub struct Package {
    pub name: &'static str,
    pub version: &'static str,
}

/// This package.
pub fn package() -> (r: Package)
    ensures
        r.name@ == "tgbot-mastodon-sync"@,
        r.version@ == "0.1.0"@,
{
    Package { name: "tgbot-mastodon-sync", version: "0.1.0" }
}

} // verus!
