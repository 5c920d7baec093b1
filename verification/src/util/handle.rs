//! What a handler is asked, and what it answers.

use vstd::prelude::*;
use crate::text::{MessageText, MessageTextView};

verus! {

/// What a handler is asked to handle.
#[derive(Debug, Clone, PartialEq, Eq)]
pub enum RequestKind<C> {
    NewMessage,
    EditedMessage,
    Command(C),
}

/// How a handler answers.
#[derive(Debug, Clone)]
pub enum ResponseKind {
    /// Not at all.
    Nothing,
    /// With a reply to the message that it was asked about.
    ReplyTo(MessageText),
    /// With a message of its own.
    NewMsg(MessageText),
}

/// Mathematical value of a [`ResponseKind`].
pub enum ResponseView {
    Nothing,
    ReplyTo(MessageTextView),
    NewMsg(MessageTextView),
}

/// A handler's answer.
#[derive(Debug, Clone)]
pub struct Response {
    pub kind: ResponseKind,
}

impl View for Response {
    type V = ResponseView;

    open spec fn view(&self) -> ResponseView {
        match self.kind {
            ResponseKind::Nothing => ResponseView::Nothing,
            ResponseKind::ReplyTo(text) => ResponseView::ReplyTo(text@),
            ResponseKind::NewMsg(text) => ResponseView::NewMsg(text@),
        }
    }
}

impl Response {
    /// Whether the text of the answer has its entities within bounds.
    pub open spec fn wf(&self) -> bool {
        match self.kind {
            ResponseKind::Nothing => true,
            ResponseKind::ReplyTo(text) => text.wf(),
            ResponseKind::NewMsg(text) => text.wf(),
        }
    }

    /// No answer.
    pub fn nothing() -> (r: Response)
        ensures
            r@ == ResponseView::Nothing,
            r.wf(),
    {
        Response { kind: ResponseKind::Nothing }
    }

    /// A reply to the message that the handler was asked about.
    pub fn reply_to(text: MessageText) -> (r: Response)
        ensures
            r@ == ResponseView::ReplyTo(text@),
            r.wf() == text.wf(),
    {
        Response { kind: ResponseKind::ReplyTo(text) }
    }

    /// A message of the handler's own.
    pub fn new_msg(text: MessageText) -> (r: Response)
        ensures
            r@ == ResponseView::NewMsg(text@),
            r.wf() == text.wf(),
    {
        Response { kind: ResponseKind::NewMsg(text) }
    }

    /// A reply in plain text.
    pub fn reply_to_text(text: &str) -> (r: Response)
        ensures
            r@ == ResponseView::ReplyTo(crate::text::plain(text@)),
            r.wf(),
    {
        let text = MessageText::new(text, Vec::new());
        assert(text@.entities =~= Seq::empty());
        Response::reply_to(text)
    }
}

} // verus!
