//! The command that echoes its argument.

use vstd::prelude::*;
use crate::util::handle::{Response, ResponseView};

verus! {

/// Answers with the argument, as a failure, so that the answer stands out.
pub fn handle(arg: &str) -> (r: Result<Response, Response>)
    ensures
        r matches Err(resp) && resp@ == ResponseView::ReplyTo(crate::text::plain(arg@))
            && resp.wf(),
{
    Err(Response::reply_to_text(arg))
}

} // verus!
