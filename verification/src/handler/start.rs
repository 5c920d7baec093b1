//! The command that greets a new user.

use vstd::prelude::*;
use crate::link::link_target;
use crate::text::{mtb, MessageEntityKind, MessageTextView};
use crate::util::handle::{Response, ResponseView};

verus! {

/// The greeting: what the bot does, how to begin, and where its source is.
/// The word `GitHub` is a link where `target` is given.
pub open spec fn greeting(target: Option<String>) -> MessageTextView {
    let text = crate::text::plain(Seq::empty()).append(
        crate::text::marked(
            "Synchronizes Telegram messages to Mastodon.\n\n"@,
            MessageEntityKind::Bold,
        ),
    ).append(crate::text::plain("Send me /auth in direct message to start.\n\n"@)).append(
        crate::text::marked("(Open sourced on "@, MessageEntityKind::Italic),
    ).append(
        match target {
            Some(url) => crate::text::marked("GitHub"@, MessageEntityKind::TextLink { url }),
            None => crate::text::plain("GitHub"@),
        },
    ).append(crate::text::marked(", so you can self-host it)"@, MessageEntityKind::Italic));
    MessageTextView { disable_preview: true, ..text }
}

/// Whether the answer is the greeting, with the word `GitHub` as a link to
/// where the bot's source is, written out as a URL.
pub open spec fn is_greeting(resp: ResponseView) -> bool {
    exists|target: Option<String>|
        {
            &&& resp == ResponseView::ReplyTo(#[trigger] greeting(target))
            &&& match target {
                Some(url) => crate::link::url_written(
                    "https://github.com/SpriteOvO/tgbot-mastodon-sync"@,
                ) == Some(url@),
                None => crate::link::url_written(
                    "https://github.com/SpriteOvO/tgbot-mastodon-sync"@,
                ).is_none(),
            }
        }
}

/// Answers with the greeting.
pub fn handle() -> (r: Result<Response, Response>)
    ensures
        r matches Ok(resp) && resp.wf() && is_greeting(resp@),
{
    let target = link_target("https://github.com/SpriteOvO/tgbot-mastodon-sync");
    let head = mtb().bold("Synchronizes Telegram messages to Mastodon.\n\n").plain(
        "Send me /auth in direct message to start.\n\n",
    ).italic("(Open sourced on ");
    let linked = match target {
        Some(url) => head.link("GitHub", url),
        None => head.plain("GitHub"),
    };
    let text = linked.italic(", so you can self-host it)").disable_preview().build();
    assert(text@ == greeting(target));
    Ok(Response::reply_to(text))
}

} // verus!
