//! The part of a text that an entity covers, in characters.

use vstd::prelude::*;
use crate::chars::chars_of;
use crate::text::{bound_length, MessageEntity, MessageText};
use crate::utf16::units_of;

verus! {

/// The part of a text that an entity covers, in characters: from the
/// character at `start` up to, not including, the character at `end`.
#[derive(Debug, Clone, Copy, PartialEq, Eq, Structural)]
pub struct EntityRange {
    pub start: usize,
    pub end: usize,
}

/// The part of `text` that the entity covers, in characters.
pub open spec fn range_of(text: Seq<char>, e: MessageEntity) -> EntityRange {
    EntityRange {
        start: crate::utf16::index_of_unit(text, e.offset as int) as usize,
        end: crate::utf16::index_of_unit(text, e.offset + e.length) as usize,
    }
}

/// An aligned entity covers characters of the text, from its start to its
/// end.
pub proof fn lemma_range_of(text: Seq<char>, e: MessageEntity)
    requires
        e.aligned(text),
        text.len() <= usize::MAX,
    ensures
        range_of(text, e).start <= range_of(text, e).end <= text.len(),
        range_of(text, e).start == crate::utf16::index_of_unit(text, e.offset as int),
        range_of(text, e).end == crate::utf16::index_of_unit(text, e.offset + e.length),
{
    crate::utf16::lemma_boundary_index(text, e.offset as int);
    crate::utf16::lemma_boundary_index(text, e.offset + e.length);
    let i = crate::utf16::index_of_unit(text, e.offset as int);
    let j = crate::utf16::index_of_unit(text, e.offset + e.length);
    if j < i {
        crate::utf16::lemma_utf16_len_prefix(text, j, i);
    }
}

/// For each prefix of the text, its length in code units.
fn unit_table(chars: &Vec<char>) -> (table: Vec<usize>)
    requires
        crate::utf16::utf16_len(chars@) <= usize::MAX,
    ensures
        table@.len() == chars@.len() + 1,
        forall|i: int|
            0 <= i <= chars@.len() ==> #[trigger] table@[i] == crate::utf16::utf16_len(
                chars@.take(i),
            ),
{
    let mut table: Vec<usize> = Vec::new();
    let mut n: usize = 0;
    let mut i: usize = 0;
    assert(chars@.take(0) =~= Seq::<char>::empty());
    table.push(0);
    while i < chars.len()
        invariant
            i <= chars.len(),
            table@.len() == i + 1,
            n == crate::utf16::utf16_len(chars@.take(i as int)),
            forall|k: int|
                0 <= k <= i ==> #[trigger] table@[k] == crate::utf16::utf16_len(chars@.take(k)),
            crate::utf16::utf16_len(chars@) <= usize::MAX,
        decreases chars.len() - i,
    {
        proof {
            crate::utf16::lemma_utf16_len_step(chars@, i as int);
            crate::utf16::lemma_utf16_len_prefix(chars@, i + 1, chars@.len() as int);
            assert(chars@.take(chars@.len() as int) =~= chars@);
        }
        n = n + units_of(chars[i]);
        table.push(n);
        i += 1;
    }
    table
}

/// Finds the prefix that holds `unit` code units, if `unit` is a boundary.
fn find_boundary(Ghost(text): Ghost<Seq<char>>, table: &Vec<usize>, unit: usize) -> (r: Option<
    usize,
>)
    requires
        table@.len() == text.len() + 1,
        forall|i: int|
            0 <= i <= text.len() ==> #[trigger] table@[i] == crate::utf16::utf16_len(text.take(i)),
    ensures
        r is Some <==> crate::utf16::is_boundary(text, unit as int),
        r matches Some(i) ==> i == crate::utf16::index_of_unit(text, unit as int) && i
            <= text.len(),
{
    let mut i: usize = 0;
    while i < table.len() && table[i] < unit
        invariant
            i <= table.len(),
            table@.len() == text.len() + 1,
            forall|k: int|
                0 <= k <= text.len() ==> #[trigger] table@[k] == crate::utf16::utf16_len(
                    text.take(k),
                ),
            forall|k: int| 0 <= k < i ==> table@[k] < unit,
        decreases table.len() - i,
    {
        i += 1;
    }
    if i < table.len() && table[i] == unit {
        proof {
            crate::utf16::lemma_index_of_unit(text, i as int);
        }
        Some(i)
    } else {
        proof {
            if crate::utf16::is_boundary(text, unit as int) {
                let k = crate::utf16::index_of_unit(text, unit as int);
                assert(table@[k] == unit);
                if i < table.len() {
                    crate::utf16::lemma_utf16_len_prefix(text, i as int, k);
                }
            }
        }
        None
    }
}

impl MessageText {
    /// Whether every entity starts and ends between characters: whether the
    /// text can be rendered.
    pub fn is_aligned(&self) -> (r: bool)
        ensures
            r == self@.aligned(),
    {
        bound_length(self.text.as_str());
        let chars = chars_of(self.text.as_str());
        let table = unit_table(&chars);
        let mut k: usize = 0;
        while k < self.entities.len()
            invariant
                k <= self.entities.len(),
                chars@ == self.text@,
                crate::utf16::utf16_len(self.text@) <= usize::MAX,
                table@.len() == chars@.len() + 1,
                forall|i: int|
                    0 <= i <= chars@.len() ==> #[trigger] table@[i] == crate::utf16::utf16_len(
                        chars@.take(i),
                    ),
                forall|i: int| 0 <= i < k ==> (#[trigger] self.entities@[i]).aligned(self.text@),
            decreases self.entities.len() - k,
        {
            let e = &self.entities[k];
            let end = match e.offset.checked_add(e.length) {
                Some(end) => end,
                None => {
                    proof {
                        if crate::utf16::is_boundary(self.text@, e.offset + e.length) {
                            crate::utf16::lemma_boundary_index(self.text@, e.offset + e.length);
                        }
                        assert(!self.entities@[k as int].aligned(self.text@));
                    }
                    return false;
                },
            };
            if find_boundary(Ghost(chars@), &table, e.offset).is_none() || find_boundary(
                Ghost(chars@),
                &table,
                end,
            ).is_none() {
                assert(!self.entities@[k as int].aligned(self.text@));
                return false;
            }
            k += 1;
        }
        true
    }

    /// The part of the text that each entity covers, in characters, in the
    /// order of the entities.
    pub fn parse_entities(&self) -> (r: Vec<EntityRange>)
        requires
            self@.aligned(),
        ensures
            r@.len() == self@.entities.len(),
            forall|i: int| 0 <= i < r@.len() ==> #[trigger] r@[i] == range_of(
                self@.text,
                self@.entities[i],
            ),
            forall|i: int|
                0 <= i < r@.len() ==> (#[trigger] r@[i]).start <= r@[i].end <= self@.text.len(),
    {
        let mut spans: Vec<(usize, usize)> = Vec::new();
        let mut k: usize = 0;
        while k < self.entities.len()
            invariant
                k <= self.entities.len(),
                spans@.len() == k,
                forall|i: int|
                    0 <= i < k ==> #[trigger] spans@[i] == (
                        self.entities@[i].offset,
                        self.entities@[i].length,
                    ),
            decreases self.entities.len() - k,
        {
            spans.push((self.entities[k].offset, self.entities[k].length));
            k += 1;
        }
        proof {
            assert forall|i: int| 0 <= i < spans@.len() implies span_aligned(
                self.text@,
                #[trigger] spans@[i],
            ) by {
                assert(self.entities@[i].aligned(self.text@));
            }
        }
        let bytes = byte_ranges(self.text.as_str(), &spans);
        let chars = chars_of(self.text.as_str());
        let table = byte_table(self.text.as_str(), &chars);
        assert(chars@.len() == chars.len());
        let mut ranges: Vec<EntityRange> = Vec::new();
        let mut k: usize = 0;
        while k < self.entities.len()
            invariant
                k <= self.entities.len(),
                self@.aligned(),
                chars@ == self.text@,
                chars@.len() <= usize::MAX,
                byte_len(chars@) <= usize::MAX,
                table@.len() == chars@.len() + 1,
                forall|i: int| 0 <= i <= chars@.len() ==> #[trigger] table@[i] == byte_len(
                    chars@.take(i),
                ),
                bytes@.len() == self.entities@.len(),
                forall|i: int|
                    0 <= i < bytes@.len() ==> #[trigger] bytes@[i] == byte_range_of(
                        self.text@,
                        (self.entities@[i].offset, self.entities@[i].length),
                    ),
                ranges@.len() == k,
                forall|i: int|
                    0 <= i < k ==> #[trigger] ranges@[i] == range_of(
                        self.text@,
                        self.entities@[i],
                    ),
                forall|i: int|
                    0 <= i < k ==> (#[trigger] ranges@[i]).start <= ranges@[i].end
                        <= self.text@.len(),
            decreases self.entities.len() - k,
        {
            let e = &self.entities[k];
            proof {
                assert(self.entities@[k as int].aligned(self.text@));
                lemma_range_of(self.text@, *e);
                assert(bytes@[k as int] == byte_range_of(self.text@, (e.offset, e.length)));
                lemma_byte_len_prefix(
                    self.text@,
                    range_of(self.text@, *e).start as int,
                    self.text@.len() as int,
                );
                lemma_byte_len_prefix(
                    self.text@,
                    range_of(self.text@, *e).end as int,
                    self.text@.len() as int,
                );
                assert(self.text@.take(self.text@.len() as int) =~= self.text@);
            }
            let ghost at = range_of(self.text@, *e);
            let start = find_prefix(Ghost(chars@), &table, bytes[k].0, Ghost(at.start as int));
            let end = find_prefix(Ghost(chars@), &table, bytes[k].1, Ghost(at.end as int));
            ranges.push(EntityRange { start, end });
            k += 1;
        }
        ranges
    }
}

/// Length of a text in bytes, in UTF-8.
pub open spec fn byte_len(s: Seq<char>) -> nat {
    vstd::utf8::encode_utf8(s).len()
}

/// Whether a part of the text, given by its offset and its length in code
/// units, starts and ends between characters.
pub open spec fn span_aligned(text: Seq<char>, span: (usize, usize)) -> bool {
    &&& crate::utf16::is_boundary(text, span.0 as int)
    &&& crate::utf16::is_boundary(text, span.0 + span.1)
}

/// The part of the text, given by its offset and its length in code units,
/// in bytes: from the byte at the first number up to, not including, the
/// byte at the second.
pub open spec fn byte_range_of(text: Seq<char>, span: (usize, usize)) -> (usize, usize) {
    (
        byte_len(text.take(crate::utf16::index_of_unit(text, span.0 as int))) as usize,
        byte_len(text.take(crate::utf16::index_of_unit(text, span.0 + span.1))) as usize,
    )
}

/// `teloxide::types::MessageEntityRef::parse`, on entities made with
/// `MessageEntity::bold`: for each part of the text, given in UTF-16 code
/// units, the same part in bytes. teloxide walks the text once and, at each
/// character, replaces the offsets that have that many code units before
/// them by the number of bytes before the character. It panics on an offset
/// inside a character, which the precondition leaves out.
#[verifier::external_body]
fn byte_ranges(text: &str, spans: &Vec<(usize, usize)>) -> (r: Vec<(usize, usize)>)
    requires
        forall|i: int| 0 <= i < spans@.len() ==> span_aligned(text@, #[trigger] spans@[i]),
    ensures
        r@.len() == spans@.len(),
        forall|i: int| 0 <= i < r@.len() ==> #[trigger] r@[i] == byte_range_of(text@, spans@[i]),
{
    let entities: Vec<teloxide::types::MessageEntity> = spans.iter().map(
        |span| teloxide::types::MessageEntity::bold(span.0, span.1),
    ).collect();
    teloxide::types::MessageEntityRef::parse(text, &entities).iter().map(
        |entity| (entity.start(), entity.end()),
    ).collect()
}

/// The length of a concatenation in bytes is the sum of the lengths.
pub proof fn lemma_byte_len_concat(a: Seq<char>, b: Seq<char>)
    ensures
        byte_len(a + b) == byte_len(a) + byte_len(b),
    decreases a.len(),
{
    if a.len() == 0 {
        assert(a + b =~= b);
    } else {
        assert((a + b).drop_first() =~= a.drop_first() + b);
        lemma_byte_len_concat(a.drop_first(), b);
    }
}

/// A longer prefix has more bytes: every character takes at least one.
pub proof fn lemma_byte_len_prefix(s: Seq<char>, i: int, j: int)
    requires
        0 <= i <= j <= s.len(),
    ensures
        byte_len(s.take(j)) >= byte_len(s.take(i)) + (j - i),
{
    assert(s.take(j) =~= s.take(i) + s.subrange(i, j));
    lemma_byte_len_concat(s.take(i), s.subrange(i, j));
    lemma_byte_len_at_least(s.subrange(i, j));
}

/// Every character takes at least one byte.
pub proof fn lemma_byte_len_at_least(s: Seq<char>)
    ensures
        byte_len(s) >= s.len(),
    decreases s.len(),
{
    if s.len() > 0 {
        lemma_byte_len_at_least(s.drop_first());
    }
}

/// Number of bytes that one character takes in UTF-8.
fn bytes_of(c: char) -> (n: usize)
    ensures
        n == vstd::utf8::encode_scalar(c as u32).len(),
        1 <= n <= 4,
{
    let v: u32 = c as u32;
    if v <= 0x7f {
        1
    } else if v <= 0x7ff {
        2
    } else if v <= 0xffff {
        3
    } else {
        4
    }
}

/// For each prefix of the text, its length in bytes.
fn byte_table(text: &str, chars: &Vec<char>) -> (table: Vec<usize>)
    requires
        chars@ == text@,
    ensures
        table@.len() == chars@.len() + 1,
        forall|i: int| 0 <= i <= chars@.len() ==> #[trigger] table@[i] == byte_len(chars@.take(i)),
        byte_len(chars@) <= usize::MAX,
{
    let total = text.as_bytes().len();
    let mut table: Vec<usize> = Vec::new();
    let mut n: usize = 0;
    let mut i: usize = 0;
    assert(chars@.take(0) =~= Seq::<char>::empty());
    table.push(0);
    while i < chars.len()
        invariant
            i <= chars.len(),
            table@.len() == i + 1,
            n == byte_len(chars@.take(i as int)),
            forall|k: int| 0 <= k <= i ==> #[trigger] table@[k] == byte_len(chars@.take(k)),
            byte_len(chars@) == total,
        decreases chars.len() - i,
    {
        proof {
            let one = chars@.subrange(i as int, i + 1);
            assert(chars@.take(i + 1) =~= chars@.take(i as int) + one);
            lemma_byte_len_concat(chars@.take(i as int), one);
            assert(one.drop_first() =~= Seq::<char>::empty());
            assert(one[0] == chars@[i as int]);
            assert(vstd::utf8::encode_utf8(one) =~= vstd::utf8::encode_scalar(one[0] as u32)
                + vstd::utf8::encode_utf8(one.drop_first()));
            assert(byte_len(one) == vstd::utf8::encode_scalar(chars@[i as int] as u32).len());
            lemma_byte_len_prefix(chars@, i + 1, chars@.len() as int);
            assert(chars@.take(chars@.len() as int) =~= chars@);
        }
        n = n + bytes_of(chars[i]);
        table.push(n);
        i += 1;
    }
    table
}

/// Finds the prefix that takes `bytes` bytes, which is the prefix of `at`
/// characters.
fn find_prefix(
    Ghost(text): Ghost<Seq<char>>,
    table: &Vec<usize>,
    bytes: usize,
    Ghost(at): Ghost<int>,
) -> (i: usize)
    requires
        table@.len() == text.len() + 1,
        forall|k: int| 0 <= k <= text.len() ==> #[trigger] table@[k] == byte_len(text.take(k)),
        0 <= at <= text.len(),
        bytes == byte_len(text.take(at)),
    ensures
        i == at,
{
    let mut i: usize = 0;
    while i < table.len() && table[i] < bytes
        invariant
            i <= table.len(),
            i <= at,
            table@.len() == text.len() + 1,
            forall|k: int| 0 <= k <= text.len() ==> #[trigger] table@[k] == byte_len(text.take(k)),
            0 <= at <= text.len(),
            bytes == byte_len(text.take(at)),
        decreases table.len() - i,
    {
        proof {
            assert(table@[i as int] < table@[at]);
        }
        i += 1;
    }
    proof {
        if i < at {
            lemma_byte_len_prefix(text, i as int, at);
        }
    }
    i
}

} // verus!
