//! The media of the messages that are shown together as one group, kept as
//! they arrive and handed out in the order of the messages.

use vstd::prelude::*;
use crate::chars::same_text;

verus! {

/// The media of one message of a group, as they are kept.
#[derive(Debug, Clone, PartialEq, Eq)]
pub struct CachedMedia {
    pub group_id: String,
    pub msg_id: i32,
    /// The media, written out as JSON.
    pub media_json: String,
}

impl CachedMedia {
    /// The group and the message that the entry is kept under.
    pub open spec fn key(self) -> (Seq<char>, int) {
        (self.group_id@, self.msg_id as int)
    }
}

/// The media of the groups' messages. Of each message the media that were
/// recorded last are kept.
#[derive(Debug, Clone)]
pub struct MediaGroupCache {
    rows: Vec<CachedMedia>,
}

/// Whether the entries are in the order of their messages.
pub open spec fn ordered(rows: Seq<CachedMedia>) -> bool {
    forall|a: int, b: int|
        0 <= a < b < rows.len() ==> (#[trigger] rows[a]).msg_id <= (#[trigger] rows[b]).msg_id
}

/// Whether no two entries are kept under the same group and message.
pub open spec fn distinct(rows: Seq<CachedMedia>) -> bool {
    forall|a: int, b: int|
        0 <= a < rows.len() && 0 <= b < rows.len() && (#[trigger] rows[a]).key() == (
        #[trigger] rows[b]).key() ==> a == b
}

/// Whether an entry is kept under the key.
pub open spec fn holds(rows: Seq<CachedMedia>, key: (Seq<char>, int)) -> bool {
    exists|i: int| 0 <= i < rows.len() && (#[trigger] rows[i]).key() == key
}

/// The place of the entry that is kept under the key.
pub open spec fn place(rows: Seq<CachedMedia>, key: (Seq<char>, int)) -> int {
    choose|i: int| 0 <= i < rows.len() && (#[trigger] rows[i]).key() == key
}

/// What the entries hold: for each group and message, the media.
pub open spec fn contents(rows: Seq<CachedMedia>) -> Map<(Seq<char>, int), Seq<char>> {
    Map::new(
        |key: (Seq<char>, int)| holds(rows, key),
        |key: (Seq<char>, int)| rows[place(rows, key)].media_json@,
    )
}

/// Whether the numbers grow from each to the next.
pub open spec fn increasing(ids: Seq<int>) -> bool {
    forall|a: int, b: int| 0 <= a < b < ids.len() ==> ids[a] < ids[b]
}

/// Whether `media` are the media of the group in `kept`, in the order of the
/// group's messages: there is one for each message of the group that
/// anything is kept of, and they come by growing message id.
pub open spec fn is_group(
    kept: Map<(Seq<char>, int), Seq<char>>,
    group_id: Seq<char>,
    media: Seq<Seq<char>>,
) -> bool {
    exists|ids: Seq<int>|
        {
            &&& increasing(ids)
            &&& ids.len() == media.len()
            &&& forall|id: int| #[trigger] ids.contains(id) <==> kept.contains_key((group_id, id))
            &&& forall|k: int|
                0 <= k < ids.len() ==> #[trigger] media[k] == kept[(group_id, ids[k])]
        }
}

impl View for MediaGroupCache {
    type V = Map<(Seq<char>, int), Seq<char>>;

    closed spec fn view(&self) -> Map<(Seq<char>, int), Seq<char>> {
        contents(self.rows@)
    }
}

impl MediaGroupCache {
    /// Whether the cache is in order. Every operation keeps it.
    pub closed spec fn wf(&self) -> bool {
        ordered(self.rows@) && distinct(self.rows@)
    }

    /// A cache that holds nothing.
    pub fn new() -> (r: MediaGroupCache)
        ensures
            r.wf(),
            r@ == Map::<(Seq<char>, int), Seq<char>>::empty(),
    {
        let r = MediaGroupCache { rows: Vec::new() };
        assert(r@ =~= Map::<(Seq<char>, int), Seq<char>>::empty());
        r
    }

    /// Keeps the media of the message `msg_id` of the group `group_id`, in
    /// place of what was kept of that message before.
    pub fn record(&mut self, group_id: &str, msg_id: i32, media_json: String)
        requires
            old(self).wf(),
        ensures
            final(self).wf(),
            final(self)@ == old(self)@.insert((group_id@, msg_id as int), media_json@),
    {
        let ghost key = (group_id@, msg_id as int);
        let ghost before = self.rows@;
        let mut i: usize = 0;
        let mut at: usize = 0;
        while i < self.rows.len()
            invariant
                i <= self.rows.len(),
                at <= i,
                self.rows@ == before,
                before == old(self).rows@,
                key == (group_id@, msg_id as int),
                ordered(before),
                distinct(before),
                forall|k: int| 0 <= k < i ==> (#[trigger] before[k]).key() != key,
                forall|k: int| 0 <= k < at ==> (#[trigger] before[k]).msg_id <= msg_id,
                forall|k: int| at <= k < i ==> (#[trigger] before[k]).msg_id > msg_id,
            decreases self.rows.len() - i,
        {
            let same = self.rows[i].msg_id == msg_id && same_text(
                self.rows[i].group_id.as_str(),
                group_id,
            );
            if same {
                self.rows[i].media_json = media_json;
                proof {
                    let after = self.rows@;
                    assert(forall|k: int|
                        0 <= k < after.len() ==> (#[trigger] after[k]).key() == before[k].key());
                    assert(ordered(after)) by {
                        assert forall|a: int, b: int| 0 <= a < b < after.len() implies (
                        #[trigger] after[a]).msg_id <= (#[trigger] after[b]).msg_id by {
                            assert(after[a].key() == before[a].key());
                            assert(after[b].key() == before[b].key());
                        }
                    }
                    assert(distinct(after)) by {
                        assert forall|a: int, b: int|
                            0 <= a < after.len() && 0 <= b < after.len() && (
                            #[trigger] after[a]).key() == (#[trigger] after[b]).key() implies a
                            == b by {
                            assert(after[a].key() == before[a].key());
                            assert(after[b].key() == before[b].key());
                        }
                    }
                    lemma_replaced(before, after, i as int, media_json@);
                }
                return ;
            }
            if self.rows[i].msg_id <= msg_id {
                proof {
                    assert forall|k: int| at <= k < i implies (#[trigger] before[k]).msg_id
                        <= msg_id by {
                        assert(before[k].msg_id <= before[i as int].msg_id);
                    }
                }
                at = i + 1;
            }
            i += 1;
        }
        let entry = CachedMedia { group_id: group_id.to_owned(), msg_id, media_json };
        self.rows.insert(at, entry);
        proof {
            let after = self.rows@;
            assert(after[at as int].key() == key);
            assert(forall|k: int| 0 <= k < at ==> after[k] == before[k]);
            assert(forall|k: int| at < k < after.len() ==> after[k] == before[k - 1]);
            assert(ordered(after)) by {
                assert forall|a: int, b: int| 0 <= a < b < after.len() implies (
                #[trigger] after[a]).msg_id <= (#[trigger] after[b]).msg_id by {
                    if a < at && b > at {
                        assert(before[a].msg_id <= msg_id);
                        assert(before[b - 1].msg_id > msg_id);
                    } else if a < at && b < at {
                        assert(before[a].msg_id <= before[b].msg_id);
                    } else if a > at {
                        assert(before[a - 1].msg_id <= before[b - 1].msg_id);
                    } else if a < at && b == at {
                        assert(before[a].msg_id <= msg_id);
                    } else {
                        assert(before[b - 1].msg_id > msg_id);
                    }
                }
            }
            assert(distinct(after)) by {
                assert forall|a: int, b: int|
                    0 <= a < after.len() && 0 <= b < after.len() && (#[trigger] after[a]).key()
                        == (#[trigger] after[b]).key() implies a == b by {
                    let pa = if a < at {
                        a
                    } else {
                        a - 1
                    };
                    let pb = if b < at {
                        b
                    } else {
                        b - 1
                    };
                    if a != at && b != at {
                        assert(before[pa].key() == before[pb].key());
                    } else if a != at {
                        assert(before[pa].key() != key);
                    } else if b != at {
                        assert(before[pb].key() != key);
                    }
                }
            }
            lemma_inserted(before, after, at as int);
        }
    }

    /// The media of the group's messages, in the order of the messages.
    pub fn resolve(&self, group_id: &str) -> (r: Vec<String>)
        requires
            self.wf(),
        ensures
            is_group(self@, group_id@, Seq::new(r@.len(), |k: int| r@[k]@)),
    {
        let mut out: Vec<String> = Vec::new();
        let ghost mut ids: Seq<int> = Seq::empty();
        let ghost mut places: Seq<int> = Seq::empty();
        let ghost rows = self.rows@;
        let mut i: usize = 0;
        while i < self.rows.len()
            invariant
                i <= self.rows.len(),
                rows == self.rows@,
                ordered(rows),
                distinct(rows),
                ids.len() == out@.len(),
                places.len() == out@.len(),
                forall|k: int|
                    0 <= k < places.len() ==> 0 <= #[trigger] places[k] < i && rows[places[k]].key()
                        == (group_id@, ids[k]) && out@[k]@ == rows[places[k]].media_json@,
                forall|a: int, b: int| 0 <= a < b < places.len() ==> places[a] < places[b],
                forall|j: int|
                    0 <= j < i && (#[trigger] rows[j]).group_id@ == group_id@ ==> exists|k: int|
                        0 <= k < places.len() && #[trigger] places[k] == j,
            decreases self.rows.len() - i,
        {
            if same_text(self.rows[i].group_id.as_str(), group_id) {
                proof {
                    let old_places = places;
                    ids = ids.push(self.rows[i as int].msg_id as int);
                    places = places.push(i as int);
                    assert forall|j: int|
                        0 <= j < i + 1 && (#[trigger] rows[j]).group_id@
                            == group_id@ implies exists|k: int|
                        0 <= k < places.len() && #[trigger] places[k] == j by {
                        if j < i {
                            let k = choose|k: int|
                                0 <= k < old_places.len() && #[trigger] old_places[k] == j;
                            assert(places[k] == j);
                        } else {
                            assert(places[places.len() - 1] == j);
                        }
                    }
                }
                out.push(self.rows[i].media_json.clone());
            } else {
                proof {
                    assert forall|j: int|
                        0 <= j < i + 1 && (#[trigger] rows[j]).group_id@
                            == group_id@ implies exists|k: int|
                        0 <= k < places.len() && #[trigger] places[k] == j by {
                        let k = choose|k: int| 0 <= k < places.len() && #[trigger] places[k] == j;
                        assert(places[k] == j);
                    }
                }
            }
            i += 1;
        }
        proof {
            let media = Seq::new(out@.len(), |k: int| out@[k]@);
            let kept = self@;
            assert(increasing(ids)) by {
                assert forall|a: int, b: int| 0 <= a < b < ids.len() implies ids[a] < ids[b] by {
                    assert(places[a] < places[b]);
                    assert(rows[places[a]].msg_id <= rows[places[b]].msg_id);
                    if ids[a] == ids[b] {
                        assert(rows[places[a]].key() == rows[places[b]].key());
                    }
                }
            }
            assert forall|id: int| #[trigger] ids.contains(id) <==> kept.contains_key(
                (group_id@, id),
            ) by {
                if ids.contains(id) {
                    let k = choose|k: int| 0 <= k < ids.len() && ids[k] == id;
                    assert(rows[places[k]].key() == (group_id@, id));
                    assert(holds(rows, (group_id@, id)));
                }
                if kept.contains_key((group_id@, id)) {
                    let j = place(rows, (group_id@, id));
                    assert(rows[j].group_id@ == group_id@);
                    let k = choose|k: int| 0 <= k < places.len() && #[trigger] places[k] == j;
                    assert(ids[k] == id);
                }
            }
            assert forall|k: int| 0 <= k < ids.len() implies #[trigger] media[k] == kept[(
                group_id@,
                ids[k],
            )] by {
                let key = (group_id@, ids[k]);
                assert(rows[places[k]].key() == key);
                assert(holds(rows, key));
                assert(place(rows, key) == places[k]);
            }
            assert(is_group(kept, group_id@, media));
        }
        out
    }
}

/// Replacing the media of the entry at `i` replaces what is kept under its
/// key.
proof fn lemma_replaced(
    before: Seq<CachedMedia>,
    after: Seq<CachedMedia>,
    i: int,
    media: Seq<char>,
)
    requires
        0 <= i < before.len(),
        after.len() == before.len(),
        distinct(before),
        forall|k: int| 0 <= k < after.len() ==> (#[trigger] after[k]).key() == before[k].key(),
        forall|k: int| 0 <= k < after.len() && k != i ==> (#[trigger] after[k]) == before[k],
        after[i].media_json@ == media,
    ensures
        contents(after) == contents(before).insert(before[i].key(), media),
{
    let key = before[i].key();
    let want = contents(before).insert(key, media);
    assert forall|k: (Seq<char>, int)| contents(after).contains_key(k) == want.contains_key(
        k,
    ) by {
        if holds(after, k) {
            let j = place(after, k);
            assert(before[j].key() == k);
        }
        if holds(before, k) {
            let j = place(before, k);
            assert(after[j].key() == k);
        }
        if k == key {
            assert(after[i].key() == k);
        }
    }
    assert forall|k: (Seq<char>, int)| contents(after).contains_key(k) implies contents(after)[k]
        == want[k] by {
        let j = place(after, k);
        assert(after[j].key() == k);
        assert(before[j].key() == k);
        if k == key {
            assert(j == i);
        } else {
            assert(holds(before, k));
            let j2 = place(before, k);
            assert(j2 == j);
        }
    }
    assert(contents(after) =~= want);
}

/// Putting a new entry in at `at` adds what it holds under its key.
proof fn lemma_inserted(before: Seq<CachedMedia>, after: Seq<CachedMedia>, at: int)
    requires
        0 <= at <= before.len(),
        after.len() == before.len() + 1,
        distinct(after),
        forall|k: int| 0 <= k < at ==> (#[trigger] after[k]) == before[k],
        forall|k: int| at < k < after.len() ==> (#[trigger] after[k]) == before[k - 1],
        forall|k: int| 0 <= k < before.len() ==> (#[trigger] before[k]).key() != after[at].key(),
    ensures
        contents(after) == contents(before).insert(after[at].key(), after[at].media_json@),
{
    let key = after[at].key();
    let want = contents(before).insert(key, after[at].media_json@);
    assert forall|k: (Seq<char>, int)| contents(after).contains_key(k) == want.contains_key(
        k,
    ) by {
        if holds(after, k) {
            let j = place(after, k);
            if j < at {
                assert(before[j].key() == k);
            } else if j > at {
                assert(before[j - 1].key() == k);
            }
        }
        if holds(before, k) {
            let j = place(before, k);
            if j < at {
                assert(after[j].key() == k);
            } else {
                assert(after[j + 1].key() == k);
            }
        }
        if k == key {
            assert(after[at].key() == k);
        }
    }
    assert forall|k: (Seq<char>, int)| contents(after).contains_key(k) implies contents(after)[k]
        == want[k] by {
        let j = place(after, k);
        assert(after[j].key() == k);
        if k == key {
            assert(j == at);
        } else {
            let jb = if j < at {
                j
            } else {
                j - 1
            };
            assert(before[jb].key() == k);
            assert(holds(before, k));
            let j2 = place(before, k);
            let ja = if j2 < at {
                j2
            } else {
                j2 + 1
            };
            assert(after[ja].key() == k);
            assert(ja == j);
        }
    }
    assert(contents(after) =~= want);
}

} // verus!
