//! The command that asks whether the bot is there.

use vstd::prelude::*;
use crate::util::handle::{Response, ResponseView};

verus! {

/// Answers `Pong!`, as a failure, so that the answer stands out.
pub fn handle() -> (r: Result<Response, Response>)
    ensures
        r matches Err(resp) && resp@ == ResponseView::ReplyTo(crate::text::plain("Pong!"@))
            && resp.wf(),
{
    Err(Response::reply_to_text("Pong!"))
}

} // verus!
