//! A message's text with its formatting entities, addressed in UTF-16 code
//! units.

use vstd::prelude::*;
use vstd::string::*;
use crate::utf16::utf16_count;

pub mod builder;
pub mod range;
pub mod semantics;

pub use builder::{mtb, MessageTextBuilder};
pub use range::EntityRange;

verus! {

/// What an entity marks its part of the text as.
#[derive(Debug, Clone, PartialEq, Eq)]
pub enum MessageEntityKind {
    Mention,
    Hashtag,
    Cashtag,
    BotCommand,
    Url,
    Email,
    PhoneNumber,
    Bold,
    Italic,
    Underline,
    Strikethrough,
    Spoiler,
    Code,
    Pre { language: Option<String> },
    /// A link on the text; `url` is the target as it is written out.
    TextLink { url: String },
    /// A mention of a user without a username, by the user's id.
    TextMention { user_id: u64 },
    CustomEmoji { custom_emoji_id: String },
}

/// A formatting entity: a kind, and the part of the text that it covers, in
/// UTF-16 code units.
#[derive(Debug, Clone, PartialEq, Eq)]
pub struct MessageEntity {
    pub kind: MessageEntityKind,
    pub offset: usize,
    pub length: usize,
}

impl MessageEntity {
    /// The entity moved towards the end of the text by `delta` code units.
    pub open spec fn shifted(self, delta: nat) -> MessageEntity {
        MessageEntity {
            kind: self.kind,
            offset: (self.offset + delta) as usize,
            length: self.length,
        }
    }

    /// Whether the entity ends within `text`.
    pub open spec fn in_bounds(self, text: Seq<char>) -> bool {
        self.offset + self.length <= crate::utf16::utf16_len(text)
    }

    /// Whether the entity starts and ends between characters of `text`.
    pub open spec fn aligned(self, text: Seq<char>) -> bool {
        &&& crate::utf16::is_boundary(text, self.offset as int)
        &&& crate::utf16::is_boundary(text, self.offset + self.length)
    }
}

/// Whether every entity ends within `text`.
pub open spec fn all_in_bounds(text: Seq<char>, entities: Seq<MessageEntity>) -> bool {
    forall|i: int| 0 <= i < entities.len() ==> (#[trigger] entities[i]).in_bounds(text)
}

/// Whether every entity starts and ends between characters of `text`.
pub open spec fn all_aligned(text: Seq<char>, entities: Seq<MessageEntity>) -> bool {
    forall|i: int| 0 <= i < entities.len() ==> (#[trigger] entities[i]).aligned(text)
}

/// The entities, each moved by `delta` code units.
pub open spec fn shift_all(entities: Seq<MessageEntity>, delta: nat) -> Seq<MessageEntity> {
    entities.map_values(|e: MessageEntity| e.shifted(delta))
}

/// A text with its entities. The entities are kept in the order in which
/// they were added, which need not be their order in the text.
#[derive(Debug, Clone)]
pub struct MessageText {
    text: String,
    entities: Vec<MessageEntity>,
    disable_preview: bool,
}

/// Mathematical value of a [`MessageText`].
pub struct MessageTextView {
    pub text: Seq<char>,
    pub entities: Seq<MessageEntity>,
    pub disable_preview: bool,
}

impl MessageTextView {
    /// Whether every entity ends within the text.
    pub open spec fn wf(self) -> bool {
        all_in_bounds(self.text, self.entities)
    }

    /// Whether every entity starts and ends between characters.
    pub open spec fn aligned(self) -> bool {
        all_aligned(self.text, self.entities)
    }

    /// This text followed by `other`: the entities of `other` move by the
    /// length of this text and come after its entities.
    pub open spec fn append(self, other: MessageTextView) -> MessageTextView {
        MessageTextView {
            text: self.text + other.text,
            entities: self.entities + shift_all(
                other.entities,
                crate::utf16::utf16_len(self.text),
            ),
            disable_preview: self.disable_preview,
        }
    }

    /// `other` followed by this text: the entities of this text move by the
    /// length of `other` and come after the entities of `other`.
    pub open spec fn prepend(self, other: MessageTextView) -> MessageTextView {
        MessageTextView {
            text: other.text + self.text,
            entities: other.entities + shift_all(
                self.entities,
                crate::utf16::utf16_len(other.text),
            ),
            disable_preview: self.disable_preview,
        }
    }
}

/// A text without entities.
pub open spec fn plain(text: Seq<char>) -> MessageTextView {
    MessageTextView { text, entities: Seq::empty(), disable_preview: false }
}

/// A text covered as a whole by one entity of the given kind.
pub open spec fn marked(text: Seq<char>, kind: MessageEntityKind) -> MessageTextView {
    MessageTextView {
        text,
        entities: seq![
            MessageEntity { kind, offset: 0, length: crate::utf16::utf16_len(text) as usize },
        ],
        disable_preview: false,
    }
}

impl View for MessageText {
    type V = MessageTextView;

    closed spec fn view(&self) -> MessageTextView {
        MessageTextView {
            text: self.text@,
            entities: self.entities@,
            disable_preview: self.disable_preview,
        }
    }
}

/// Moves every entity by `delta` code units.
fn shift_entities(entities: &mut Vec<MessageEntity>, delta: usize)
    requires
        forall|i: int|
            0 <= i < old(entities)@.len() ==> (#[trigger] old(entities)@[i]).offset + delta
                <= usize::MAX,
    ensures
        final(entities)@ == shift_all(old(entities)@, delta as nat),
{
    let n = entities.len();
    let mut i: usize = 0;
    while i < n
        invariant
            i <= n,
            n == entities@.len(),
            n == old(entities)@.len(),
            forall|k: int| 0 <= k < i ==> entities@[k] == old(entities)@[k].shifted(delta as nat),
            forall|k: int| i <= k < n ==> entities@[k] == old(entities)@[k],
            forall|k: int|
                0 <= k < n ==> (#[trigger] old(entities)@[k]).offset + delta <= usize::MAX,
        decreases n - i,
    {
        let offset = entities[i].offset;
        entities[i].offset = offset + delta;
        i += 1;
    }
    assert(entities@ =~= shift_all(old(entities)@, delta as nat));
}

/// Moving the entities of a text that ends within bounds, by the length of
/// a text put before it, overflows nothing.
proof fn lemma_shift_fits(before: Seq<char>, text: Seq<char>, entities: Seq<MessageEntity>)
    requires
        all_in_bounds(text, entities),
        crate::utf16::utf16_len(before + text) <= usize::MAX,
    ensures
        forall|i: int|
            0 <= i < entities.len() ==> (#[trigger] entities[i]).offset
                + crate::utf16::utf16_len(before) + entities[i].length <= usize::MAX,
{
    crate::utf16::lemma_utf16_len_concat(before, text);
    assert forall|i: int| 0 <= i < entities.len() implies (#[trigger] entities[i]).offset
        + crate::utf16::utf16_len(before) + entities[i].length <= usize::MAX by {
        assert(entities[i].in_bounds(text));
    }
}

/// Appending keeps every entity within the text, those of both parts.
pub proof fn lemma_append_keeps_bounds(a: MessageTextView, b: MessageTextView)
    requires
        a.wf(),
        b.wf(),
        crate::utf16::utf16_len(a.text + b.text) <= usize::MAX,
    ensures
        a.append(b).wf(),
{
    let r = a.append(b);
    crate::utf16::lemma_utf16_len_concat(a.text, b.text);
    assert forall|i: int| 0 <= i < r.entities.len() implies (#[trigger] r.entities[i]).in_bounds(
        r.text,
    ) by {
        if i < a.entities.len() {
            assert(a.entities[i].in_bounds(a.text));
        } else {
            assert(b.entities[i - a.entities.len()].in_bounds(b.text));
        }
    }
}

/// Appending keeps every entity between characters, those of both parts.
pub proof fn lemma_append_keeps_alignment(a: MessageTextView, b: MessageTextView)
    requires
        a.aligned(),
        b.aligned(),
        crate::utf16::utf16_len(a.text + b.text) <= usize::MAX,
    ensures
        a.append(b).aligned(),
{
    let r = a.append(b);
    crate::utf16::lemma_utf16_len_concat(a.text, b.text);
    assert forall|i: int| 0 <= i < r.entities.len() implies (#[trigger] r.entities[i]).aligned(
        r.text,
    ) by {
        if i < a.entities.len() {
            let e = a.entities[i];
            assert(e.aligned(a.text));
            crate::utf16::lemma_boundary_concat(a.text, b.text, e.offset as int);
            crate::utf16::lemma_boundary_concat(a.text, b.text, e.offset + e.length);
        } else {
            let e = b.entities[i - a.entities.len()];
            assert(e.aligned(b.text));
            crate::utf16::lemma_boundary_concat(a.text, b.text, e.offset as int);
            crate::utf16::lemma_boundary_concat(a.text, b.text, e.offset + e.length);
            crate::utf16::lemma_boundary_index(b.text, e.offset + e.length);
        }
    }
}

/// Prepending keeps every entity within the text, those of both parts.
pub proof fn lemma_prepend_keeps_bounds(a: MessageTextView, b: MessageTextView)
    requires
        a.wf(),
        b.wf(),
        crate::utf16::utf16_len(b.text + a.text) <= usize::MAX,
    ensures
        a.prepend(b).wf(),
{
    lemma_append_keeps_bounds(b, a);
    assert(a.prepend(b).entities == b.append(a).entities);
}

/// Prepending keeps every entity between characters, those of both parts.
pub proof fn lemma_prepend_keeps_alignment(a: MessageTextView, b: MessageTextView)
    requires
        a.aligned(),
        b.aligned(),
        crate::utf16::utf16_len(b.text + a.text) <= usize::MAX,
    ensures
        a.prepend(b).aligned(),
{
    lemma_append_keeps_alignment(b, a);
    assert(a.prepend(b).entities == b.append(a).entities);
}

/// A text without entities has its entities, of which there are none, within
/// bounds and between characters.
pub proof fn lemma_plain_well_formed(text: Seq<char>)
    ensures
        plain(text).wf(),
        plain(text).aligned(),
{
}

/// A text under one entity that covers it has the entity within bounds and
/// between characters.
pub proof fn lemma_marked_well_formed(text: Seq<char>, kind: MessageEntityKind)
    requires
        crate::utf16::utf16_len(text) <= usize::MAX,
    ensures
        marked(text, kind).wf(),
        marked(text, kind).aligned(),
{
    assert(text.take(0) =~= Seq::<char>::empty());
    assert(text.take(text.len() as int) =~= text);
    assert(crate::utf16::utf16_len(text.take(0)) == 0);
    assert(crate::utf16::is_boundary(text, 0));
    assert(crate::utf16::is_boundary(text, crate::utf16::utf16_len(text) as int));
}

/// The text fits in memory, so its length in code units fits in `usize`.
fn bound_length(text: &str)
    ensures
        crate::utf16::utf16_len(text@) <= usize::MAX,
{
    // The bytes of the text are in memory, so there are at most `usize::MAX`
    // of them, and no character takes more code units than bytes.
    let _ = text.as_bytes().len();
    proof {
        crate::utf16::lemma_units_le_bytes(text@);
    }
}

impl MessageText {
    /// Whether every entity ends within the text. Every operation keeps it.
    pub open spec fn wf(&self) -> bool {
        self@.wf()
    }

    /// Makes a text from its parts, as they come from the chat platform.
    pub fn new(text: &str, entities: Vec<MessageEntity>) -> (r: MessageText)
        requires
            all_in_bounds(text@, entities@),
        ensures
            r@ == (MessageTextView { text: text@, entities: entities@, disable_preview: false }),
            r.wf(),
    {
        MessageText { text: text.to_owned(), entities, disable_preview: false }
    }

    /// The text.
    pub fn text(&self) -> (r: &str)
        ensures
            r@ == self@.text,
    {
        self.text.as_str()
    }

    /// The entities, in the order in which they were added.
    pub fn entities(&self) -> (r: &Vec<MessageEntity>)
        ensures
            r@ == self@.entities,
    {
        &self.entities
    }

    /// Whether a preview of the links is unwanted.
    pub fn disable_preview(&self) -> (r: bool)
        ensures
            r == self@.disable_preview,
    {
        self.disable_preview
    }

    /// Gives the entities up.
    pub fn into_entities(self) -> (r: Vec<MessageEntity>)
        ensures
            r@ == self@.entities,
    {
        self.entities
    }

    /// Puts `text` at the end.
    pub fn append_text(&mut self, text: &str)
        requires
            old(self).wf(),
        ensures
            final(self)@ == old(self)@.append(plain(text@)),
            final(self).wf(),
            old(self)@.aligned() ==> final(self)@.aligned(),
    {
        self.text.append(text);
        bound_length(self.text.as_str());
        proof {
            lemma_plain_well_formed(text@);
            lemma_joined_well_formed(old(self)@, plain(text@));
            assert(self@.entities =~= old(self)@.append(plain(text@)).entities);
        }
    }

    /// Puts `text` at the start; every entity moves by its length.
    pub fn prepend_text(&mut self, text: &str)
        requires
            old(self).wf(),
        ensures
            final(self)@ == old(self)@.prepend(plain(text@)),
            final(self).wf(),
            old(self)@.aligned() ==> final(self)@.aligned(),
    {
        let delta = utf16_count(text);
        let whole = String::from_str(text).concat(self.text.as_str());
        bound_length(whole.as_str());
        proof {
            lemma_shift_fits(text@, old(self)@.text, old(self)@.entities);
            lemma_plain_well_formed(text@);
            lemma_joined_well_formed(plain(text@), old(self)@);
        }
        shift_entities(&mut self.entities, delta);
        self.text = whole;
        proof {
            assert(self@.entities =~= old(self)@.prepend(plain(text@)).entities);
        }
    }

    /// Puts `text` at the end, under a new entity that covers it.
    pub fn append_text_with_entity(&mut self, text: &str, kind: MessageEntityKind)
        requires
            old(self).wf(),
        ensures
            final(self)@ == old(self)@.append(marked(text@, kind)),
            final(self).wf(),
            old(self)@.aligned() ==> final(self)@.aligned(),
    {
        let offset = utf16_count(self.text.as_str());
        let length = utf16_count(text);
        self.entities.push(MessageEntity { kind, offset, length });
        self.text.append(text);
        bound_length(self.text.as_str());
        proof {
            crate::utf16::lemma_utf16_len_concat(old(self)@.text, text@);
            lemma_marked_well_formed(text@, kind);
            lemma_joined_well_formed(old(self)@, marked(text@, kind));
            assert(self@.entities =~= old(self)@.append(marked(text@, kind)).entities);
        }
    }

    /// Puts `text` at the start, under a new entity that covers it and comes
    /// first; every other entity moves by its length.
    pub fn prepend_text_with_entity(&mut self, text: &str, kind: MessageEntityKind)
        requires
            old(self).wf(),
        ensures
            final(self)@ == old(self)@.prepend(marked(text@, kind)),
            final(self).wf(),
            old(self)@.aligned() ==> final(self)@.aligned(),
    {
        let length = utf16_count(text);
        let whole = String::from_str(text).concat(self.text.as_str());
        bound_length(whole.as_str());
        proof {
            lemma_shift_fits(text@, old(self)@.text, old(self)@.entities);
            crate::utf16::lemma_utf16_len_concat(text@, old(self)@.text);
            lemma_marked_well_formed(text@, kind);
            lemma_joined_well_formed(marked(text@, kind), old(self)@);
        }
        shift_entities(&mut self.entities, length);
        self.entities.insert(0, MessageEntity { kind, offset: 0, length });
        self.text = whole;
        proof {
            assert(self@.entities =~= old(self)@.prepend(marked(text@, kind)).entities);
        }
    }

    /// Puts `link_text` at the end, as a link to `link`.
    pub fn append_text_link(&mut self, link_text: &str, link: String)
        requires
            old(self).wf(),
        ensures
            final(self)@ == old(self)@.append(
                marked(link_text@, MessageEntityKind::TextLink { url: link }),
            ),
            final(self).wf(),
            old(self)@.aligned() ==> final(self)@.aligned(),
    {
        self.append_text_with_entity(link_text, MessageEntityKind::TextLink { url: link });
    }

    /// Puts `link_text` at the start, as a link to `link`.
    pub fn prepend_text_link(&mut self, link_text: &str, link: String)
        requires
            old(self).wf(),
        ensures
            final(self)@ == old(self)@.prepend(
                marked(link_text@, MessageEntityKind::TextLink { url: link }),
            ),
            final(self).wf(),
            old(self)@.aligned() ==> final(self)@.aligned(),
    {
        self.prepend_text_with_entity(link_text, MessageEntityKind::TextLink { url: link });
    }

    /// Puts `link_text` at the end: as a link where there is a target, as
    /// plain text where there is none.
    pub fn append_text_link_fallback(&mut self, link_text: &str, link: Option<String>)
        requires
            old(self).wf(),
        ensures
            final(self)@ == old(self)@.append(
                match link {
                    Some(url) => marked(link_text@, MessageEntityKind::TextLink { url }),
                    None => plain(link_text@),
                },
            ),
            final(self).wf(),
            old(self)@.aligned() ==> final(self)@.aligned(),
    {
        match link {
            Some(link) => self.append_text_link(link_text, link),
            None => self.append_text(link_text),
        }
    }

    /// Puts `other` at the end: its entities move by the length of this text
    /// and come after the entities of this text.
    pub fn append(&mut self, other: MessageText)
        requires
            old(self).wf(),
            other.wf(),
        ensures
            final(self)@ == old(self)@.append(other@),
            final(self).wf(),
            old(self)@.aligned() && other@.aligned() ==> final(self)@.aligned(),
    {
        let MessageText { text, entities, disable_preview: _ } = other;
        let mut entities = entities;
        let delta = utf16_count(self.text.as_str());
        self.text.append(text.as_str());
        bound_length(self.text.as_str());
        proof {
            lemma_shift_fits(old(self)@.text, other@.text, other@.entities);
            lemma_joined_well_formed(old(self)@, other@);
        }
        shift_entities(&mut entities, delta);
        self.entities.append(&mut entities);
    }

    /// Puts `other` at the start: the entities of this text move by the
    /// length of `other` and come after the entities of `other`.
    pub fn prepend(&mut self, other: MessageText)
        requires
            old(self).wf(),
            other.wf(),
        ensures
            final(self)@ == old(self)@.prepend(other@),
            final(self).wf(),
            old(self)@.aligned() && other@.aligned() ==> final(self)@.aligned(),
    {
        let MessageText { text, entities, disable_preview: _ } = other;
        let mut entities = entities;
        let delta = utf16_count(text.as_str());
        let whole = text.concat(self.text.as_str());
        bound_length(whole.as_str());
        proof {
            lemma_shift_fits(other@.text, old(self)@.text, old(self)@.entities);
            lemma_joined_well_formed(other@, old(self)@);
        }
        shift_entities(&mut self.entities, delta);
        entities.append(&mut self.entities);
        self.entities = entities;
        self.text = whole;
    }
}

/// Where the whole text is of a length that the machine can count, so are
/// its two parts, and putting `b` after `a` keeps the entities within bounds
/// and between characters.
proof fn lemma_joined_well_formed(a: MessageTextView, b: MessageTextView)
    requires
        crate::utf16::utf16_len(a.text + b.text) <= usize::MAX,
    ensures
        crate::utf16::utf16_len(a.text) <= usize::MAX,
        crate::utf16::utf16_len(b.text) <= usize::MAX,
        a.wf() && b.wf() ==> a.append(b).wf() && b.prepend(a).wf(),
        a.aligned() && b.aligned() ==> a.append(b).aligned() && b.prepend(a).aligned(),
{
    crate::utf16::lemma_utf16_len_concat(a.text, b.text);
    if a.wf() && b.wf() {
        lemma_append_keeps_bounds(a, b);
        lemma_prepend_keeps_bounds(b, a);
    }
    if a.aligned() && b.aligned() {
        lemma_append_keeps_alignment(a, b);
        lemma_prepend_keeps_alignment(b, a);
    }
}

impl MessageEntity {
    /// A copy of the entity.
    pub fn duplicate(&self) -> (r: MessageEntity)
        ensures
            r == *self,
    {
        let kind = match &self.kind {
            MessageEntityKind::Mention => MessageEntityKind::Mention,
            MessageEntityKind::Hashtag => MessageEntityKind::Hashtag,
            MessageEntityKind::Cashtag => MessageEntityKind::Cashtag,
            MessageEntityKind::BotCommand => MessageEntityKind::BotCommand,
            MessageEntityKind::Url => MessageEntityKind::Url,
            MessageEntityKind::Email => MessageEntityKind::Email,
            MessageEntityKind::PhoneNumber => MessageEntityKind::PhoneNumber,
            MessageEntityKind::Bold => MessageEntityKind::Bold,
            MessageEntityKind::Italic => MessageEntityKind::Italic,
            MessageEntityKind::Underline => MessageEntityKind::Underline,
            MessageEntityKind::Strikethrough => MessageEntityKind::Strikethrough,
            MessageEntityKind::Spoiler => MessageEntityKind::Spoiler,
            MessageEntityKind::Code => MessageEntityKind::Code,
            MessageEntityKind::Pre { language } => MessageEntityKind::Pre {
                language: match language {
                    Some(language) => Some(language.clone()),
                    None => None,
                },
            },
            MessageEntityKind::TextLink { url } => MessageEntityKind::TextLink { url: url.clone() },
            MessageEntityKind::TextMention { user_id } => MessageEntityKind::TextMention {
                user_id: *user_id,
            },
            MessageEntityKind::CustomEmoji { custom_emoji_id } => MessageEntityKind::CustomEmoji {
                custom_emoji_id: custom_emoji_id.clone(),
            },
        };
        MessageEntity { kind, offset: self.offset, length: self.length }
    }
}

/// A copy of the entities.
pub fn duplicate_entities(entities: &Vec<MessageEntity>) -> (r: Vec<MessageEntity>)
    ensures
        r@ == entities@,
{
    let mut r: Vec<MessageEntity> = Vec::new();
    let mut i: usize = 0;
    while i < entities.len()
        invariant
            i <= entities.len(),
            r@ == entities@.take(i as int),
        decreases entities.len() - i,
    {
        r.push(entities[i].duplicate());
        i += 1;
        assert(r@ =~= entities@.take(i as int));
    }
    assert(entities@.take(entities@.len() as int) =~= entities@);
    r
}

impl MessageText {
    /// Whether every entity ends within the text, so that the two can be
    /// made into a [`MessageText`].
    pub fn fits(text: &str, entities: &Vec<MessageEntity>) -> (r: bool)
        ensures
            r == all_in_bounds(text@, entities@),
    {
        let len = utf16_count(text);
        let mut i: usize = 0;
        while i < entities.len()
            invariant
                i <= entities.len(),
                len == crate::utf16::utf16_len(text@),
                forall|k: int| 0 <= k < i ==> (#[trigger] entities@[k]).in_bounds(text@),
            decreases entities.len() - i,
        {
            let e = &entities[i];
            if e.offset > len || e.length > len - e.offset {
                assert(!entities@[i as int].in_bounds(text@));
                return false;
            }
            i += 1;
        }
        true
    }
}

/// One step of composing a text.
pub enum Composition {
    /// Another text is put at the end.
    Append(MessageTextView),
    /// Another text is put at the start.
    Prepend(MessageTextView),
}

impl Composition {
    /// The text that is put at the end or at the start.
    pub open spec fn piece(self) -> MessageTextView {
        match self {
            Composition::Append(other) => other,
            Composition::Prepend(other) => other,
        }
    }

    /// The text after the step.
    pub open spec fn apply(self, text: MessageTextView) -> MessageTextView {
        match self {
            Composition::Append(other) => text.append(other),
            Composition::Prepend(other) => text.prepend(other),
        }
    }
}

/// The text after the steps, one after the other.
pub open spec fn composed(text: MessageTextView, steps: Seq<Composition>) -> MessageTextView
    decreases steps.len(),
{
    if steps.len() == 0 {
        text
    } else {
        steps.last().apply(composed(text, steps.drop_last()))
    }
}

/// The text grows with every step.
pub proof fn lemma_composed_grows(text: MessageTextView, steps: Seq<Composition>, n: int)
    requires
        0 <= n <= steps.len(),
    ensures
        crate::utf16::utf16_len(composed(text, steps.take(n)).text) <= crate::utf16::utf16_len(
            composed(text, steps).text,
        ),
    decreases steps.len() - n,
{
    if n < steps.len() {
        lemma_composed_grows(text, steps, n + 1);
        let upto = steps.take(n + 1);
        assert(upto.drop_last() =~= steps.take(n));
        let before = composed(text, steps.take(n));
        let piece = upto.last().piece();
        crate::utf16::lemma_utf16_len_concat(before.text, piece.text);
        crate::utf16::lemma_utf16_len_concat(piece.text, before.text);
    } else {
        assert(steps.take(n) =~= steps);
    }
}

/// Whatever texts are put at the end and at the start of a text, in
/// whatever order, every entity ends within the text after each step:
/// provided that it did so in the text and in each of the pieces, and
/// that the whole text is of a length that the machine can count.
pub proof fn lemma_composition_keeps_bounds(
    text: MessageTextView,
    steps: Seq<Composition>,
    n: int,
)
    requires
        0 <= n <= steps.len(),
        text.wf(),
        forall|i: int| 0 <= i < steps.len() ==> (#[trigger] steps[i]).piece().wf(),
        crate::utf16::utf16_len(composed(text, steps).text) <= usize::MAX,
    ensures
        composed(text, steps.take(n)).wf(),
        all_in_bounds(composed(text, steps.take(n)).text, composed(text, steps.take(n)).entities),
    decreases n,
{
    if n > 0 {
        lemma_composition_keeps_bounds(text, steps, n - 1);
        lemma_composed_grows(text, steps, n);
        let upto = steps.take(n);
        assert(upto.drop_last() =~= steps.take(n - 1));
        assert(upto.last() == steps[n - 1]);
        let before = composed(text, steps.take(n - 1));
        match upto.last() {
            Composition::Append(other) => {
                lemma_append_keeps_bounds(before, other);
            },
            Composition::Prepend(other) => {
                lemma_prepend_keeps_bounds(before, other);
            },
        }
    } else {
        assert(steps.take(0) =~= Seq::<Composition>::empty());
    }
}

impl From<String> for MessageText {
    /// The text without entities.
    fn from(value: String) -> (r: MessageText)
        ensures
            r@ == plain(value@),
            r.wf(),
    {
        let r = MessageText { text: value, entities: Vec::new(), disable_preview: false };
        assert(r@.entities =~= Seq::<MessageEntity>::empty());
        r
    }
}

/// What `from` gives is stated on `from` itself, over the view of the text.
impl vstd::std_specs::convert::FromSpecImpl<String> for MessageText {
    open spec fn obeys_from_spec() -> bool {
        false
    }

    open spec fn from_spec(v: String) -> MessageText {
        arbitrary()
    }
}

impl<'a> From<&'a str> for MessageText {
    /// The text without entities.
    fn from(value: &'a str) -> (r: MessageText)
        ensures
            r@ == plain(value@),
            r.wf(),
    {
        let r = MessageText::new(value, Vec::new());
        assert(r@.entities =~= Seq::<MessageEntity>::empty());
        r
    }
}

/// What `from` gives is stated on `from` itself, over the view of the text.
impl<'a> vstd::std_specs::convert::FromSpecImpl<&'a str> for MessageText {
    open spec fn obeys_from_spec() -> bool {
        false
    }

    open spec fn from_spec(v: &'a str) -> MessageText {
        arbitrary()
    }
}

} // verus!
