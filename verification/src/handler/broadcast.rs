//! The command that sends a text to every user of the bot.

use vstd::prelude::*;
use vstd::string::*;
use crate::chars::write_decimal;
use crate::util::handle::{Response, ResponseView};

verus! {

/// Begins a broadcast: there must be something to send.
pub fn handle(content: &str) -> (r: Result<(), Response>)
    ensures
        match r {
            Ok(_) => content@.len() > 0,
            Err(resp) => content@.len() == 0 && resp.wf() && resp@ == ResponseView::ReplyTo(
                crate::text::plain("Content cannot be empty."@),
            ),
        },
{
    if content.unicode_len() == 0 {
        Err(Response::reply_to_text("Content cannot be empty."))
    } else {
        Ok(())
    }
}

/// The line that says how the sending to one user ended.
pub open spec fn report_of(user_id: u64, error: Option<Seq<char>>) -> Seq<char> {
    "Boardcast to user '"@ + crate::chars::decimal(user_id as nat) + "' "@ + match error {
        None => "succeeded"@,
        Some(error) => "failed ("@ + error + ")"@,
    } + "."@
}

/// Writes the line that says how the sending to one user ended.
pub fn report(user_id: u64, error: Option<&str>) -> (r: String)
    requires
        user_id <= usize::MAX,
    ensures
        r@ == report_of(user_id, match error {
            Some(e) => Some(e@),
            None => None,
        }),
{
    let id = write_decimal(user_id as usize);
    let mut r = String::from_str("Boardcast to user '").concat(id.as_str()).concat("' ");
    match error {
        None => {
            r.append("succeeded");
        },
        Some(error) => {
            r.append("failed (");
            r.append(error);
            r.append(")");
        },
    }
    r.append(".");
    proof {
        assert(r@ =~= report_of(user_id, match error {
            Some(e) => Some(e@),
            None => None,
        }));
    }
    r
}

} // verus!
