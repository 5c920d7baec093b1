//! Building a text piece by piece.

use vstd::prelude::*;
use crate::text::{MessageEntity, MessageEntityKind, MessageText, MessageTextView};

verus! {

/// Builds a [`MessageText`] piece by piece.
#[derive(Debug, Clone)]
pub struct MessageTextBuilder {
    text: MessageText,
}

impl View for MessageTextBuilder {
    type V = MessageTextView;

    closed spec fn view(&self) -> MessageTextView {
        self.text@
    }
}

/// Starts an empty text; short for [`MessageText::builder`].
pub fn mtb() -> (r: MessageTextBuilder)
    ensures
        r@ == crate::text::plain(Seq::empty()),
        r.wf(),
        r@.aligned(),
{
    MessageText::builder()
}

impl MessageText {
    /// Starts an empty text.
    pub fn builder() -> (r: MessageTextBuilder)
        ensures
            r@ == crate::text::plain(Seq::empty()),
            r.wf(),
            r@.aligned(),
    {
        let text = MessageText::new("", Vec::new());
        proof {
            reveal_strlit("");
            assert(""@ =~= Seq::<char>::empty());
            assert(text@.entities =~= Seq::<MessageEntity>::empty());
            crate::text::lemma_plain_well_formed(Seq::empty());
        }
        MessageTextBuilder { text }
    }
}

impl MessageTextBuilder {
    /// Whether every entity ends within the text. Every step keeps it.
    pub open spec fn wf(&self) -> bool {
        self@.wf()
    }

    /// Adds `text` without any entity.
    pub fn plain(self, text: &str) -> (r: MessageTextBuilder)
        requires
            self.wf(),
        ensures
            r@ == self@.append(crate::text::plain(text@)),
            r.wf(),
            self@.aligned() ==> r@.aligned(),
    {
        let mut b = self;
        b.text.append_text(text);
        b
    }

    /// Adds `text` as a link to `url`.
    pub fn link(self, text: &str, url: String) -> (r: MessageTextBuilder)
        requires
            self.wf(),
        ensures
            r@ == self@.append(crate::text::marked(text@, MessageEntityKind::TextLink { url })),
            r.wf(),
            self@.aligned() ==> r@.aligned(),
    {
        let mut b = self;
        b.text.append_text_link(text, url);
        b
    }

    /// Adds `text`, bold.
    pub fn bold(self, text: &str) -> (r: MessageTextBuilder)
        requires
            self.wf(),
        ensures
            r@ == self@.append(crate::text::marked(text@, MessageEntityKind::Bold)),
            r.wf(),
            self@.aligned() ==> r@.aligned(),
    {
        let mut b = self;
        b.text.append_text_with_entity(text, MessageEntityKind::Bold);
        b
    }

    /// Adds `text`, italic.
    pub fn italic(self, text: &str) -> (r: MessageTextBuilder)
        requires
            self.wf(),
        ensures
            r@ == self@.append(crate::text::marked(text@, MessageEntityKind::Italic)),
            r.wf(),
            self@.aligned() ==> r@.aligned(),
    {
        let mut b = self;
        b.text.append_text_with_entity(text, MessageEntityKind::Italic);
        b
    }

    /// Adds `text`, underlined.
    pub fn underline(self, text: &str) -> (r: MessageTextBuilder)
        requires
            self.wf(),
        ensures
            r@ == self@.append(crate::text::marked(text@, MessageEntityKind::Underline)),
            r.wf(),
            self@.aligned() ==> r@.aligned(),
    {
        let mut b = self;
        b.text.append_text_with_entity(text, MessageEntityKind::Underline);
        b
    }

    /// Adds `text`, struck through.
    pub fn strikethrough(self, text: &str) -> (r: MessageTextBuilder)
        requires
            self.wf(),
        ensures
            r@ == self@.append(crate::text::marked(text@, MessageEntityKind::Strikethrough)),
            r.wf(),
            self@.aligned() ==> r@.aligned(),
    {
        let mut b = self;
        b.text.append_text_with_entity(text, MessageEntityKind::Strikethrough);
        b
    }

    /// Adds `text`, hidden as a spoiler.
    pub fn spoiler(self, text: &str) -> (r: MessageTextBuilder)
        requires
            self.wf(),
        ensures
            r@ == self@.append(crate::text::marked(text@, MessageEntityKind::Spoiler)),
            r.wf(),
            self@.aligned() ==> r@.aligned(),
    {
        let mut b = self;
        b.text.append_text_with_entity(text, MessageEntityKind::Spoiler);
        b
    }

    /// Adds `text`, code.
    pub fn code(self, text: &str) -> (r: MessageTextBuilder)
        requires
            self.wf(),
        ensures
            r@ == self@.append(crate::text::marked(text@, MessageEntityKind::Code)),
            r.wf(),
            self@.aligned() ==> r@.aligned(),
    {
        let mut b = self;
        b.text.append_text_with_entity(text, MessageEntityKind::Code);
        b
    }

    /// Adds `text` as a block of code in no stated language.
    pub fn pre(self, text: &str) -> (r: MessageTextBuilder)
        requires
            self.wf(),
        ensures
            r@ == self@.append(crate::text::marked(text@, MessageEntityKind::Pre { language: None })),
            r.wf(),
            self@.aligned() ==> r@.aligned(),
    {
        let mut b = self;
        b.text.append_text_with_entity(text, MessageEntityKind::Pre { language: None });
        b
    }

    /// Asks for no preview of the links.
    pub fn disable_preview(self) -> (r: MessageTextBuilder)
        ensures
            r@ == (MessageTextView { disable_preview: true, ..self@ }),
    {
        let mut b = self;
        b.text.disable_preview = true;
        b
    }

    /// The text that was built.
    pub fn build(self) -> (r: MessageText)
        ensures
            r@ == self@,
    {
        self.text
    }
}

} // verus!
