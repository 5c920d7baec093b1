//! A message's text in Mastodon's markup.

use vstd::prelude::*;
use crate::chars::{chars_of, string_of};
use crate::text::{EntityRange, MessageEntity, MessageEntityKind, MessageText, MessageTextView};

verus! {

/// The text `work` with a link written around the characters from `start` to
/// `end`: `](url)` goes in after the link's text, followed by a space where
/// the next character is no space, and `[` goes in before it, after a space
/// where the character before is no space.
pub open spec fn insert_link(work: Seq<char>, start: int, end: int, url: Seq<char>) -> Seq<char> {
    let gap: Seq<char> = if end < work.len() && work[end] != ' ' {
        seq![' ']
    } else {
        seq![]
    };
    let closed = work.take(end) + seq![']', '('] + url + seq![')'] + gap + work.skip(end);
    let open: Seq<char> = if start > 0 && closed[start - 1] != ' ' {
        seq![' ', '[']
    } else {
        seq!['[']
    };
    closed.take(start) + open + closed.skip(start)
}

/// The text `work` after the links among `entities` are written into it, the
/// last entity first. Every link goes in at the place that it has in
/// `text`, the text as it was before any was written.
pub open spec fn render_links(
    text: Seq<char>,
    entities: Seq<MessageEntity>,
    work: Seq<char>,
) -> Seq<char>
    decreases entities.len(),
{
    if entities.len() == 0 {
        work
    } else {
        let e = entities.last();
        let range = crate::text::range::range_of(text, e);
        let next = match e.kind {
            MessageEntityKind::TextLink { url } => insert_link(
                work,
                range.start as int,
                range.end as int,
                url@,
            ),
            _ => work,
        };
        render_links(text, entities.drop_last(), next)
    }
}

/// The message in Mastodon's markup: only links are written out.
pub open spec fn rendered(m: MessageTextView) -> Seq<char> {
    render_links(m.text, m.entities, m.text)
}

/// Whether one of the entities is a link.
pub open spec fn has_link(entities: Seq<MessageEntity>) -> bool {
    exists|i: int| 0 <= i < entities.len() && (#[trigger] entities[i]).kind is TextLink
}

/// A message without entities is rendered as its text.
pub proof fn lemma_rendered_plain(m: MessageTextView)
    requires
        m.entities.len() == 0,
    ensures
        rendered(m) == m.text,
        !has_link(m.entities),
{
}

/// Appends `src[from..to]` to `dst`.
fn push_range(dst: &mut Vec<char>, src: &Vec<char>, from: usize, to: usize)
    requires
        from <= to <= src.len(),
    ensures
        final(dst)@ == old(dst)@ + src@.subrange(from as int, to as int),
{
    let mut i: usize = from;
    while i < to
        invariant
            from <= i <= to <= src.len(),
            dst@ == old(dst)@ + src@.subrange(from as int, i as int),
        decreases to - i,
    {
        dst.push(src[i]);
        i += 1;
        assert(dst@ =~= old(dst)@ + src@.subrange(from as int, i as int));
    }
}

/// Writes one link into the text.
fn write_link(work: &Vec<char>, range: EntityRange, url: &Vec<char>) -> (r: Vec<char>)
    requires
        range.start <= range.end <= work.len(),
    ensures
        r@ == insert_link(work@, range.start as int, range.end as int, url@),
        r@.len() >= work@.len(),
{
    let start = range.start;
    let end = range.end;
    let mut closed: Vec<char> = Vec::new();
    push_range(&mut closed, work, 0, end);
    closed.push(']');
    closed.push('(');
    push_range(&mut closed, url, 0, url.len());
    closed.push(')');
    if end < work.len() && work[end] != ' ' {
        closed.push(' ');
    }
    push_range(&mut closed, work, end, work.len());
    proof {
        let gap: Seq<char> = if end < work@.len() && work@[end as int] != ' ' {
            seq![' ']
        } else {
            seq![]
        };
        assert(url@.subrange(0, url@.len() as int) =~= url@);
        assert(closed@ =~= work@.take(end as int) + seq![']', '('] + url@ + seq![')'] + gap
            + work@.skip(end as int));
    }
    let mut r: Vec<char> = Vec::new();
    push_range(&mut r, &closed, 0, start);
    if start > 0 && closed[start - 1] != ' ' {
        r.push(' ');
    }
    r.push('[');
    push_range(&mut r, &closed, start, closed.len());
    proof {
        let open: Seq<char> = if start > 0 && closed@[start - 1] != ' ' {
            seq![' ', '[']
        } else {
            seq!['[']
        };
        assert(r@ =~= closed@.take(start as int) + open + closed@.skip(start as int));
    }
    r
}

/// Renders a message for Mastodon: the links are written out as
/// `[text](url)`, every other entity is dropped. The second part of the
/// result says whether anything was written out, so that the text is markup.
pub fn format_text_for_mastodon(msg_text: &MessageText) -> (r: (String, bool))
    requires
        msg_text@.aligned(),
    ensures
        r.0@ == rendered(msg_text@),
        r.1 == has_link(msg_text@.entities),
        msg_text@.entities.len() == 0 ==> r.0@ == msg_text@.text && !r.1,
{
    let entities = msg_text.entities();
    if entities.len() == 0 {
        return (msg_text.text().to_owned(), false);
    }
    let ranges = msg_text.parse_entities();
    let mut work = chars_of(msg_text.text());
    let mut is_formatted = false;
    let mut k: usize = entities.len();
    assert(entities@.take(k as int) =~= entities@);
    while k > 0
        invariant
            k <= entities.len(),
            entities@ == msg_text@.entities,
            ranges@.len() == entities@.len(),
            forall|i: int| 0 <= i < ranges@.len() ==> #[trigger] ranges@[i] == crate::text::range::range_of(
                msg_text@.text,
                entities@[i],
            ),
            forall|i: int|
                0 <= i < ranges@.len() ==> (#[trigger] ranges@[i]).start <= ranges@[i].end
                    <= msg_text@.text.len(),
            work@.len() >= msg_text@.text.len(),
            rendered(msg_text@) == render_links(msg_text@.text, entities@.take(k as int), work@),
            is_formatted == exists|i: int|
                k <= i < entities@.len() && (#[trigger] entities@[i]).kind is TextLink,
        decreases k,
    {
        k -= 1;
        proof {
            let prefix = entities@.take(k + 1);
            assert(prefix.last() == entities@[k as int]);
            assert(prefix.drop_last() =~= entities@.take(k as int));
        }
        if let MessageEntityKind::TextLink { url } = &entities[k].kind {
            let target = chars_of(url.as_str());
            work = write_link(&work, ranges[k], &target);
            is_formatted = true;
        }
    }
    (string_of(work.as_slice()), is_formatted)
}

} // verus!
