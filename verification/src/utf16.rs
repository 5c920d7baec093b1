//! Lengths and positions in UTF-16 code units, the unit in which the chat
//! platform addresses text.

use vstd::prelude::*;
use crate::chars::chars_of;

verus! {

/// Number of UTF-16 code units that one character takes.
pub open spec fn char_units(c: char) -> nat {
    if (c as u32) < 0x10000 {
        1
    } else {
        2
    }
}

/// Length of a text in UTF-16 code units.
pub open spec fn utf16_len(s: Seq<char>) -> nat
    decreases s.len(),
{
    if s.len() == 0 {
        0
    } else {
        char_units(s[0]) + utf16_len(s.drop_first())
    }
}

/// Whether `u` code units end between two characters of `s`, or at one of
/// its ends: no character is cut in two.
pub open spec fn is_boundary(s: Seq<char>, u: int) -> bool {
    exists|i: int| 0 <= i <= s.len() && #[trigger] utf16_len(s.take(i)) == u
}

/// The number of characters that `u` code units hold, where `u` is a
/// boundary of `s`.
pub open spec fn index_of_unit(s: Seq<char>, u: int) -> int {
    choose|i: int| 0 <= i <= s.len() && #[trigger] utf16_len(s.take(i)) == u
}

/// The length of a concatenation is the sum of the lengths.
pub proof fn lemma_utf16_len_concat(a: Seq<char>, b: Seq<char>)
    ensures
        utf16_len(a + b) == utf16_len(a) + utf16_len(b),
    decreases a.len(),
{
    if a.len() == 0 {
        assert(a + b =~= b);
    } else {
        assert((a + b).drop_first() =~= a.drop_first() + b);
        lemma_utf16_len_concat(a.drop_first(), b);
    }
}

/// A longer prefix has more code units, by the units of the characters
/// between.
pub proof fn lemma_utf16_len_prefix(s: Seq<char>, i: int, j: int)
    requires
        0 <= i <= j <= s.len(),
    ensures
        utf16_len(s.take(j)) == utf16_len(s.take(i)) + utf16_len(s.subrange(i, j)),
        utf16_len(s.subrange(i, j)) >= j - i,
        utf16_len(s.subrange(i, j)) <= 2 * (j - i),
{
    assert(s.take(j) =~= s.take(i) + s.subrange(i, j));
    lemma_utf16_len_concat(s.take(i), s.subrange(i, j));
    lemma_utf16_len_bounds(s.subrange(i, j));
}

/// Every character takes one or two code units.
pub proof fn lemma_utf16_len_bounds(s: Seq<char>)
    ensures
        s.len() <= utf16_len(s) <= 2 * s.len(),
    decreases s.len(),
{
    if s.len() > 0 {
        lemma_utf16_len_bounds(s.drop_first());
    }
}

/// One more character adds its code units.
pub proof fn lemma_utf16_len_step(s: Seq<char>, i: int)
    requires
        0 <= i < s.len(),
    ensures
        utf16_len(s.take(i + 1)) == utf16_len(s.take(i)) + char_units(s[i]),
{
    lemma_utf16_len_prefix(s, i, i + 1);
    let one = s.subrange(i, i + 1);
    assert(one.drop_first() =~= Seq::<char>::empty());
    assert(one[0] == s[i]);
    assert(utf16_len(one.drop_first()) == 0);
}

/// The index of a boundary is the one prefix with that many code units.
pub proof fn lemma_index_of_unit(s: Seq<char>, i: int)
    requires
        0 <= i <= s.len(),
    ensures
        is_boundary(s, utf16_len(s.take(i)) as int),
        index_of_unit(s, utf16_len(s.take(i)) as int) == i,
{
    let u = utf16_len(s.take(i)) as int;
    let k = index_of_unit(s, u);
    assert(0 <= k <= s.len() && utf16_len(s.take(k)) == u);
    if k < i {
        lemma_utf16_len_prefix(s, k, i);
    } else if i < k {
        lemma_utf16_len_prefix(s, i, k);
    }
}

/// A boundary lies within the text, and its index is a prefix with that many
/// code units.
pub proof fn lemma_boundary_index(s: Seq<char>, u: int)
    requires
        is_boundary(s, u),
    ensures
        0 <= index_of_unit(s, u) <= s.len(),
        utf16_len(s.take(index_of_unit(s, u))) == u,
        0 <= u <= utf16_len(s),
{
    let k = index_of_unit(s, u);
    lemma_utf16_len_prefix(s, k, s.len() as int);
    assert(s.take(s.len() as int) =~= s);
}

/// The boundaries of two texts are boundaries of their concatenation: those
/// of the first as they are, those of the second moved by the length of the
/// first.
pub proof fn lemma_boundary_concat(a: Seq<char>, b: Seq<char>, u: int)
    ensures
        is_boundary(a, u) ==> is_boundary(a + b, u),
        is_boundary(b, u) ==> is_boundary(a + b, utf16_len(a) + u),
{
    if is_boundary(a, u) {
        let i = index_of_unit(a, u);
        assert((a + b).take(i) =~= a.take(i));
    }
    if is_boundary(b, u) {
        let i = index_of_unit(b, u);
        assert((a + b).take(a.len() + i) =~= a + b.take(i));
        lemma_utf16_len_concat(a, b.take(i));
    }
}

/// A text in UTF-8 takes at least as many bytes as it takes UTF-16 code units.
pub proof fn lemma_units_le_bytes(s: Seq<char>)
    ensures
        utf16_len(s) <= vstd::utf8::encode_utf8(s).len(),
    decreases s.len(),
{
    if s.len() > 0 {
        lemma_units_le_bytes(s.drop_first());
    }
}

/// Number of UTF-16 code units of one character.
pub fn units_of(c: char) -> (n: usize)
    ensures
        n == char_units(c),
{
    if (c as u32) < 0x10000 {
        1
    } else {
        2
    }
}

/// Length of a text in UTF-16 code units.
pub fn utf16_count(s: &str) -> (n: usize)
    ensures
        n == utf16_len(s@),
{
    let bytes = s.as_bytes().len();
    let v = chars_of(s);
    proof {
        lemma_units_le_bytes(s@);
    }
    let mut n: usize = 0;
    let mut i: usize = 0;
    assert(v@.take(0) =~= Seq::<char>::empty());
    while i < v.len()
        invariant
            i <= v.len(),
            v@ == s@,
            n == utf16_len(v@.take(i as int)),
            utf16_len(v@) <= usize::MAX,
        decreases v.len() - i,
    {
        proof {
            lemma_utf16_len_step(v@, i as int);
            lemma_utf16_len_prefix(v@, i + 1, v@.len() as int);
            assert(v@.take(v@.len() as int) =~= v@);
        }
        n = n + units_of(v[i]);
        i += 1;
    }
    assert(v@.take(v@.len() as int) =~= v@);
    n
}

} // verus!
