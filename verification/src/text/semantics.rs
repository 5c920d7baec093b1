//! The text that says something about the language of a message.

use vstd::prelude::*;
use crate::chars::{chars_of, string_of};
use crate::text::{MessageEntityKind, MessageText, MessageTextView};

verus! {

impl MessageEntityKind {
    /// Whether text under an entity of this kind says nothing about the
    /// language of the message: names, tags, addresses, numbers, code and
    /// custom emoji.
    pub open spec fn is_non_semantic(self) -> bool {
        match self {
            MessageEntityKind::Mention
            | MessageEntityKind::Hashtag
            | MessageEntityKind::Cashtag
            | MessageEntityKind::BotCommand
            | MessageEntityKind::Url
            | MessageEntityKind::Email
            | MessageEntityKind::PhoneNumber
            | MessageEntityKind::Pre { .. }
            | MessageEntityKind::CustomEmoji { .. } => true,
            MessageEntityKind::Bold
            | MessageEntityKind::Italic
            | MessageEntityKind::Underline
            | MessageEntityKind::Strikethrough
            | MessageEntityKind::Spoiler
            | MessageEntityKind::Code
            | MessageEntityKind::TextLink { .. }
            | MessageEntityKind::TextMention { .. } => false,
        }
    }

    /// Tests the kind for [`MessageEntityKind::is_non_semantic`].
    pub fn non_semantic(&self) -> (r: bool)
        ensures
            r == self.is_non_semantic(),
    {
        match self {
            MessageEntityKind::Mention
            | MessageEntityKind::Hashtag
            | MessageEntityKind::Cashtag
            | MessageEntityKind::BotCommand
            | MessageEntityKind::Url
            | MessageEntityKind::Email
            | MessageEntityKind::PhoneNumber
            | MessageEntityKind::Pre { .. }
            | MessageEntityKind::CustomEmoji { .. } => true,
            MessageEntityKind::Bold
            | MessageEntityKind::Italic
            | MessageEntityKind::Underline
            | MessageEntityKind::Strikethrough
            | MessageEntityKind::Spoiler
            | MessageEntityKind::Code
            | MessageEntityKind::TextLink { .. }
            | MessageEntityKind::TextMention { .. } => false,
        }
    }
}

impl MessageTextView {
    /// Whether the entity at `k` is non-semantic and covers the character at
    /// `i`.
    pub open spec fn strips(self, k: int, i: int) -> bool {
        let range = crate::text::range::range_of(self.text, self.entities[k]);
        self.entities[k].kind.is_non_semantic() && range.start <= i < range.end
    }

    /// Whether one of the first `n` entities is non-semantic and covers the
    /// character at `i`.
    pub open spec fn stripped_by(self, n: int, i: int) -> bool {
        exists|k: int| 0 <= k < n && #[trigger] self.strips(k, i)
    }

    /// The first `n` characters without those that a non-semantic entity
    /// covers.
    pub open spec fn semantic_prefix(self, n: nat) -> Seq<char>
        decreases n,
    {
        if n == 0 {
            Seq::empty()
        } else if self.stripped_by(self.entities.len() as int, n - 1) {
            self.semantic_prefix((n - 1) as nat)
        } else {
            self.semantic_prefix((n - 1) as nat).push(self.text[n - 1])
        }
    }

    /// The text without the characters that a non-semantic entity covers.
    pub open spec fn semantics(self) -> Seq<char> {
        self.semantic_prefix(self.text.len())
    }
}

impl MessageText {
    /// The text that says something about the language of the message: the
    /// text without what its non-semantic entities cover. Text under any
    /// other entity stays.
    pub fn extract_semantics(&self) -> (r: String)
        requires
            self@.aligned(),
        ensures
            r@ == self@.semantics(),
    {
        let ranges = self.parse_entities();
        let chars = chars_of(self.text.as_str());
        let n = chars.len();
        let mut mask: Vec<bool> = Vec::new();
        let mut i: usize = 0;
        while i < n
            invariant
                i <= n,
                mask@.len() == i,
                forall|j: int| 0 <= j < i ==> !(#[trigger] mask@[j]),
            decreases n - i,
        {
            mask.push(false);
            i += 1;
        }
        assert(forall|j: int| 0 <= j < n ==> !self@.stripped_by(0, j));
        let mut k: usize = 0;
        while k < self.entities.len()
            invariant
                k <= self.entities.len(),
                n == chars@.len(),
                chars@ == self@.text,
                mask@.len() == n,
                ranges@.len() == self@.entities.len(),
                self.entities@ == self@.entities,
                forall|i: int|
                    0 <= i < ranges@.len() ==> #[trigger] ranges@[i] == crate::text::range::range_of(
                        self@.text,
                        self@.entities[i],
                    ),
                forall|i: int|
                    0 <= i < ranges@.len() ==> (#[trigger] ranges@[i]).start <= ranges@[i].end
                        <= self@.text.len(),
                forall|j: int| 0 <= j < n ==> #[trigger] mask@[j] == self@.stripped_by(k as int, j),
            decreases self.entities.len() - k,
        {
            let ghost before = mask@;
            if self.entities[k].kind.non_semantic() {
                let range = ranges[k];
                let mut j: usize = range.start;
                while j < range.end
                    invariant
                        range.start <= j <= range.end <= n,
                        mask@.len() == n,
                        forall|t: int| range.start <= t < j ==> #[trigger] mask@[t],
                        forall|t: int|
                            0 <= t < n && !(range.start <= t < j) ==> #[trigger] mask@[t]
                                == before[t],
                    decreases range.end - j,
                {
                    mask[j] = true;
                    j += 1;
                }
            }
            proof {
                assert forall|j: int| 0 <= j < n implies #[trigger] mask@[j] == self@.stripped_by(
                    k + 1,
                    j,
                ) by {
                    if self@.stripped_by(k as int, j) {
                        let w = choose|w: int| 0 <= w < k && #[trigger] self@.strips(w, j);
                        assert(self@.strips(w, j));
                    }
                    if self@.stripped_by(k + 1, j) {
                        let w = choose|w: int| 0 <= w < k + 1 && #[trigger] self@.strips(w, j);
                        if w < k {
                            assert(self@.stripped_by(k as int, j));
                        }
                    }
                    if self@.strips(k as int, j) {
                        assert(self@.stripped_by(k + 1, j));
                    }
                }
            }
            k += 1;
        }
        let mut out: Vec<char> = Vec::new();
        let mut i: usize = 0;
        while i < n
            invariant
                i <= n,
                n == chars@.len(),
                chars@ == self@.text,
                mask@.len() == n,
                forall|j: int|
                    0 <= j < n ==> #[trigger] mask@[j] == self@.stripped_by(
                        self@.entities.len() as int,
                        j,
                    ),
                out@ == self@.semantic_prefix(i as nat),
            decreases n - i,
        {
            if !mask[i] {
                out.push(chars[i]);
            }
            i += 1;
        }
        string_of(out.as_slice())
    }
}

/// Where no entity is non-semantic, the text is left as it is.
pub proof fn lemma_semantics_of_prose(m: MessageTextView, n: nat)
    requires
        n <= m.text.len(),
        forall|k: int| 0 <= k < m.entities.len() ==> !(#[trigger] m.entities[k]).kind.is_non_semantic(),
    ensures
        m.semantic_prefix(n) == m.text.take(n as int),
        n == m.text.len() ==> m.semantics() == m.text,
    decreases n,
{
    if n > 0 {
        lemma_semantics_of_prose(m, (n - 1) as nat);
        assert(!m.stripped_by(m.entities.len() as int, n - 1)) by {
            if m.stripped_by(m.entities.len() as int, n - 1) {
                let k = choose|k: int| 0 <= k < m.entities.len() && #[trigger] m.strips(k, n - 1);
                assert(m.entities[k].kind.is_non_semantic());
            }
        }
        assert(m.text.take(n as int) =~= m.text.take(n - 1).push(m.text[n - 1]));
    } else {
        assert(m.text.take(0) =~= Seq::<char>::empty());
    }
    if n == m.text.len() {
        assert(m.text.take(n as int) =~= m.text);
    }
}

/// A text with one entity, which is non-semantic, loses exactly what the
/// entity covers: what comes before it and what comes after it stay.
pub proof fn lemma_semantics_of_one(m: MessageTextView, n: nat)
    requires
        n <= m.text.len() <= usize::MAX,
        m.entities.len() == 1,
        m.entities[0].kind.is_non_semantic(),
        m.entities[0].aligned(m.text),
    ensures
        m.semantic_prefix(n) == if n <= crate::text::range::range_of(m.text, m.entities[0]).start {
            m.text.take(n as int)
        } else if n <= crate::text::range::range_of(m.text, m.entities[0]).end {
            m.text.take(crate::text::range::range_of(m.text, m.entities[0]).start as int)
        } else {
            m.text.take(crate::text::range::range_of(m.text, m.entities[0]).start as int) + m.text.subrange(
                crate::text::range::range_of(m.text, m.entities[0]).end as int,
                n as int,
            )
        },
        n == m.text.len() ==> m.semantics() == m.text.take(
            crate::text::range::range_of(m.text, m.entities[0]).start as int,
        ) + m.text.skip(crate::text::range::range_of(m.text, m.entities[0]).end as int),
    decreases n,
{
    crate::text::range::lemma_range_of(m.text, m.entities[0]);
    let start = crate::text::range::range_of(m.text, m.entities[0]).start as int;
    let end = crate::text::range::range_of(m.text, m.entities[0]).end as int;
    if n > 0 {
        lemma_semantics_of_one(m, (n - 1) as nat);
        let covered = start <= n - 1 < end;
        assert(m.stripped_by(1, n - 1) == covered) by {
            if covered {
                assert(m.strips(0, n - 1));
            }
            if m.stripped_by(1, n - 1) {
                let k = choose|k: int| 0 <= k < 1 && #[trigger] m.strips(k, n - 1);
                assert(k == 0);
            }
        }
        if n <= start {
            assert(m.text.take(n as int) =~= m.text.take(n - 1).push(m.text[n - 1]));
        } else if n <= end {
        } else {
            assert(m.text.take(start) + m.text.subrange(end, n as int) =~= (m.text.take(start)
                + m.text.subrange(end, n - 1)).push(m.text[n - 1]));
            if n - 1 == end {
                assert(m.text.take(start) + m.text.subrange(end, n - 1) =~= m.text.take(start));
            }
        }
    } else {
        assert(m.text.take(0) =~= Seq::<char>::empty());
    }
    if n == m.text.len() {
        if n <= start {
            assert(m.text.take(start) + m.text.skip(end) =~= m.text.take(n as int));
        } else if n <= end {
            assert(m.text.take(start) + m.text.skip(end) =~= m.text.take(start));
        } else {
            assert(m.text.subrange(end, n as int) =~= m.text.skip(end));
        }
    }
}

/// Whether the ranges lie within a text of `len` characters and come back
/// to front: each ends where the one before it in the sequence starts, or
/// before that.
pub open spec fn back_to_front(ranges: Seq<(int, int)>, len: int) -> bool {
    &&& forall|k: int|
        0 <= k < ranges.len() ==> 0 <= (#[trigger] ranges[k]).0 <= ranges[k].1 <= len
    &&& forall|k: int|
        0 <= k < ranges.len() - 1 ==> (#[trigger] ranges[k + 1]).1 <= ranges[k].0
}

/// Whether one of the ranges holds the character at `i`.
pub open spec fn covers(ranges: Seq<(int, int)>, i: int) -> bool {
    exists|k: int| 0 <= k < ranges.len() && (#[trigger] ranges[k]).0 <= i < ranges[k].1
}

/// The text after the ranges are cut out of it one after the other, each out
/// of what the one before has left.
pub open spec fn cut_out(text: Seq<char>, ranges: Seq<(int, int)>) -> Seq<char>
    decreases ranges.len(),
{
    if ranges.len() == 0 {
        text
    } else {
        cut_out(text.take(ranges[0].0) + text.skip(ranges[0].1), ranges.drop_first())
    }
}

/// The first `n` characters without those that one of the ranges holds.
pub open spec fn uncovered(text: Seq<char>, ranges: Seq<(int, int)>, n: nat) -> Seq<char>
    decreases n,
{
    if n == 0 {
        Seq::empty()
    } else if covers(ranges, n - 1) {
        uncovered(text, ranges, (n - 1) as nat)
    } else {
        uncovered(text, ranges, (n - 1) as nat).push(text[n - 1])
    }
}

/// Of ranges that come back to front, every one after the first ends where
/// the first starts, or before that.
proof fn lemma_first_is_last(ranges: Seq<(int, int)>, len: int, k: int)
    requires
        back_to_front(ranges, len),
        1 <= k < ranges.len(),
    ensures
        ranges[k].1 <= ranges[0].0,
    decreases k,
{
    assert(ranges[k - 1 + 1].1 <= ranges[k - 1].0);
    if k > 1 {
        lemma_first_is_last(ranges, len, k - 1);
    }
}

/// Two texts that agree on their first `n` characters lose the same of them
/// to ranges that hold the same of them.
proof fn lemma_uncovered_agrees(
    a: Seq<char>,
    ra: Seq<(int, int)>,
    b: Seq<char>,
    rb: Seq<(int, int)>,
    n: nat,
)
    requires
        n <= a.len(),
        n <= b.len(),
        forall|i: int| 0 <= i < n ==> a[i] == b[i],
        forall|i: int| 0 <= i < n ==> covers(ra, i) == covers(rb, i),
    ensures
        uncovered(a, ra, n) == uncovered(b, rb, n),
    decreases n,
{
    if n > 0 {
        lemma_uncovered_agrees(a, ra, b, rb, (n - 1) as nat);
    }
}

/// Characters that no range holds stay as they are.
proof fn lemma_uncovered_tail(text: Seq<char>, ranges: Seq<(int, int)>, from: nat, n: nat)
    requires
        from <= n <= text.len(),
        forall|i: int| from <= i < n ==> !covers(ranges, i),
    ensures
        uncovered(text, ranges, n) == uncovered(text, ranges, from) + text.subrange(
            from as int,
            n as int,
        ),
    decreases n,
{
    if n > from {
        lemma_uncovered_tail(text, ranges, from, (n - 1) as nat);
        assert(text.subrange(from as int, n as int) =~= text.subrange(from as int, n - 1).push(
            text[n - 1],
        ));
        assert((uncovered(text, ranges, from) + text.subrange(from as int, n - 1)).push(
            text[n - 1],
        ) =~= uncovered(text, ranges, from) + text.subrange(from as int, n as int));
    } else {
        assert(text.subrange(from as int, n as int) =~= Seq::<char>::empty());
        assert(uncovered(text, ranges, from) + Seq::<char>::empty() =~= uncovered(
            text,
            ranges,
            from,
        ));
    }
}

/// Characters that the ranges hold are all lost.
proof fn lemma_uncovered_gap(text: Seq<char>, ranges: Seq<(int, int)>, from: nat, n: nat)
    requires
        from <= n <= text.len(),
        forall|i: int| from <= i < n ==> covers(ranges, i),
    ensures
        uncovered(text, ranges, n) == uncovered(text, ranges, from),
    decreases n,
{
    if n > from {
        lemma_uncovered_gap(text, ranges, from, (n - 1) as nat);
    }
}

/// Cutting ranges out of a text back to front, each out of what the one
/// before has left, takes away exactly the characters that the ranges hold:
/// no cut moves a character that a later cut is to take.
pub proof fn lemma_cut_out_back_to_front(text: Seq<char>, ranges: Seq<(int, int)>)
    requires
        back_to_front(ranges, text.len() as int),
    ensures
        cut_out(text, ranges) == uncovered(text, ranges, text.len()),
    decreases ranges.len(),
{
    if ranges.len() == 0 {
        assert forall|i: int| 0 <= i < text.len() implies !covers(ranges, i) by {}
        lemma_uncovered_tail(text, ranges, 0, text.len());
        assert(text.subrange(0, text.len() as int) =~= text);
        assert(Seq::<char>::empty() + text =~= text);
    } else {
        let start = ranges[0].0;
        let end = ranges[0].1;
        let left = text.take(start) + text.skip(end);
        let rest = ranges.drop_first();
        assert(back_to_front(rest, left.len() as int)) by {
            assert forall|k: int| 0 <= k < rest.len() implies 0 <= (#[trigger] rest[k]).0
                <= rest[k].1 <= left.len() by {
                assert(rest[k] == ranges[k + 1]);
                lemma_first_is_last(ranges, text.len() as int, k + 1);
            }
            assert forall|k: int| 0 <= k < rest.len() - 1 implies (#[trigger] rest[k + 1]).1
                <= rest[k].0 by {
                assert(rest[k + 1] == ranges[k + 1 + 1]);
                assert(rest[k] == ranges[k + 1]);
            }
        }
        lemma_cut_out_back_to_front(left, rest);
        // Before the first range, the two texts and what the ranges hold are the same.
        assert forall|i: int| 0 <= i < start implies covers(rest, i) == covers(ranges, i) by {
            if covers(rest, i) {
                let k = choose|k: int| 0 <= k < rest.len() && (#[trigger] rest[k]).0 <= i < rest[k].1;
                assert(ranges[k + 1] == rest[k]);
            }
            if covers(ranges, i) {
                let k = choose|k: int|
                    0 <= k < ranges.len() && (#[trigger] ranges[k]).0 <= i < ranges[k].1;
                assert(k > 0);
                assert(rest[k - 1] == ranges[k]);
            }
        }
        lemma_uncovered_agrees(left, rest, text, ranges, start as nat);
        // From there on, nothing is left for the other ranges to take.
        assert forall|i: int| start <= i < left.len() implies !covers(rest, i) by {
            if covers(rest, i) {
                let k = choose|k: int| 0 <= k < rest.len() && (#[trigger] rest[k]).0 <= i < rest[k].1;
                assert(rest[k] == ranges[k + 1]);
                lemma_first_is_last(ranges, text.len() as int, k + 1);
            }
        }
        lemma_uncovered_tail(left, rest, start as nat, left.len());
        assert(left.subrange(start, left.len() as int) =~= text.skip(end));
        // In the text, the first range is lost and what follows it stays.
        assert forall|i: int| start <= i < end implies covers(ranges, i) by {
            assert(ranges[0].0 <= i < ranges[0].1);
        }
        lemma_uncovered_gap(text, ranges, start as nat, end as nat);
        assert forall|i: int| end <= i < text.len() implies !covers(ranges, i) by {
            if covers(ranges, i) {
                let k = choose|k: int|
                    0 <= k < ranges.len() && (#[trigger] ranges[k]).0 <= i < ranges[k].1;
                if k > 0 {
                    lemma_first_is_last(ranges, text.len() as int, k);
                }
            }
        }
        lemma_uncovered_tail(text, ranges, end as nat, text.len());
        assert(text.subrange(end, text.len() as int) =~= text.skip(end));
    }
}

/// The text that is left of a message is what is left when the parts under
/// its non-semantic entities are cut out back to front: for any ranges that
/// come back to front and hold exactly what those entities cover.
pub proof fn lemma_semantics_cut_out(m: MessageTextView, ranges: Seq<(int, int)>)
    requires
        back_to_front(ranges, m.text.len() as int),
        forall|i: int|
            0 <= i < m.text.len() ==> covers(ranges, i) == m.stripped_by(
                m.entities.len() as int,
                i,
            ),
    ensures
        m.semantics() == cut_out(m.text, ranges),
{
    lemma_cut_out_back_to_front(m.text, ranges);
    lemma_semantics_uncovered(m, ranges, m.text.len());
}

/// What is left of the first `n` characters of a message is what ranges
/// leave that hold exactly what its non-semantic entities cover.
proof fn lemma_semantics_uncovered(m: MessageTextView, ranges: Seq<(int, int)>, n: nat)
    requires
        n <= m.text.len(),
        forall|i: int|
            0 <= i < m.text.len() ==> covers(ranges, i) == m.stripped_by(
                m.entities.len() as int,
                i,
            ),
    ensures
        m.semantic_prefix(n) == uncovered(m.text, ranges, n),
    decreases n,
{
    if n > 0 {
        lemma_semantics_uncovered(m, ranges, (n - 1) as nat);
    }
}

} // verus!
