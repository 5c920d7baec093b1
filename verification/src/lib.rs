//! A bot that posts messages from Telegram to Mastodon: the text with its
//! formatting, the media, and the language.

pub mod chars;
pub mod cmd;
pub mod config;
pub mod handler;
pub mod link;
pub mod mastodon;
pub mod text;
pub mod utf16;
pub mod util;
