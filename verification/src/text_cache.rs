//! LRU text cache: keeps recently used entry texts in memory, evicting the
//! least recently used ones when either the entry count or the total UTF-8
//! byte budget is exceeded.
//!
//! Entries are kept oldest first in a persistent vector (`im::Vector`), with
//! a persistent hash map (`im::HashMap`) from id to position.

use vstd::prelude::*;
use crate::conversation::text_bytes;

verus! {

/// `im::HashMap` is held opaquely; its contents are named below.
#[verifier::external_type_specification]
#[verifier::external_body]
#[verifier::reject_recursive_types(K)]
#[verifier::reject_recursive_types(V)]
#[verifier::reject_recursive_types(S)]
pub struct ExImHashMap<K, V, S>(im::HashMap<K, V, S>);

/// The (id, text) entries a persistent vector holds, oldest first.
pub uninterp spec fn cached_entries(v: im::Vector<(String, String)>) -> Seq<(String, String)>;

/// The id-to-position map a persistent hash map holds.
pub uninterp spec fn cached_index(m: im::HashMap<String, usize>) -> Map<Seq<char>, usize>;

/// Calls `im::Vector::new`: an empty vector.
#[verifier::external_body]
fn entries_new() -> (r: im::Vector<(String, String)>)
    ensures
        cached_entries(r) == Seq::<(String, String)>::empty(),
{
    im::Vector::new()
}

/// Calls `im::Vector::len`.
#[verifier::external_body]
fn entries_len(v: &im::Vector<(String, String)>) -> (r: usize)
    ensures
        r == cached_entries(*v).len(),
{
    v.len()
}

/// Calls `im::Vector::push_back`: appends the entry.
#[verifier::external_body]
fn entries_push_back(v: &mut im::Vector<(String, String)>, e: (String, String))
    ensures
        cached_entries(*final(v)) == cached_entries(*old(v)).push(e),
{
    v.push_back(e)
}

/// Calls `im::Vector::remove`: removes and returns the entry at a position,
/// shifting the later ones (the call panics beyond the end, which
/// `requires` rules out).
#[verifier::external_body]
fn entries_remove(v: &mut im::Vector<(String, String)>, i: usize) -> (r: (String, String))
    requires
        i < cached_entries(*old(v)).len(),
    ensures
        r == cached_entries(*old(v))[i as int],
        cached_entries(*final(v)) == cached_entries(*old(v)).remove(i as int),
{
    v.remove(i)
}

/// Calls `im::Vector::get`: the entry at a position, `None` beyond the end.
#[verifier::external_body]
fn entries_get(v: &im::Vector<(String, String)>, i: usize) -> (r: Option<&(String, String)>)
    ensures
        i < cached_entries(*v).len() ==> r == Some(&cached_entries(*v)[i as int]),
        i >= cached_entries(*v).len() ==> r is None,
{
    v.get(i)
}

/// Calls `im::HashMap::new`: an empty map.
#[verifier::external_body]
fn index_new() -> (r: im::HashMap<String, usize>)
    ensures
        cached_index(r).is_empty(),
{
    im::HashMap::new()
}

/// Calls `im::HashMap::get` (and copies the position found).
#[verifier::external_body]
fn index_get(m: &im::HashMap<String, usize>, key: &str) -> (r: Option<usize>)
    ensures
        r == (if cached_index(*m).contains_key(key@) { Some(cached_index(*m)[key@]) } else { None }),
{
    m.get(key).copied()
}

/// Calls `im::HashMap::update`: a map with `key` bound to `value`.
#[verifier::external_body]
fn index_update(m: &im::HashMap<String, usize>, key: String, value: usize) -> (r: im::HashMap<String, usize>)
    ensures
        cached_index(r) == cached_index(*m).insert(key@, value),
{
    m.update(key, value)
}

// ---------------------------------------------------------------------------
// Specification
// ---------------------------------------------------------------------------

/// The (id, text) views of the entries.
pub open spec fn entry_views(e: Seq<(String, String)>) -> Seq<(Seq<char>, Seq<char>)> {
    e.map_values(|p: (String, String)| (p.0@, p.1@))
}

/// No id occurs twice.
pub open spec fn ids_unique(e: Seq<(Seq<char>, Seq<char>)>) -> bool {
    forall|i: int, j: int| 0 <= i < j < e.len() ==> e[i].0 != e[j].0
}

/// `idx` maps each id to its position and nothing else.
pub open spec fn index_matches(idx: Map<Seq<char>, usize>, e: Seq<(Seq<char>, Seq<char>)>) -> bool {
    &&& forall|k: Seq<char>| #[trigger] idx.contains_key(k) ==> exists|i: int| 0 <= i < e.len() && e[i].0 == k
    &&& forall|i: int| 0 <= i < e.len() ==> #[trigger] idx.contains_key(e[i].0) && idx[e[i].0] == i
}

/// The total UTF-8 length of the texts.
pub open spec fn total_bytes(e: Seq<(Seq<char>, Seq<char>)>) -> nat
    decreases e.len(),
{
    if e.len() == 0 {
        0
    } else {
        total_bytes(e.drop_last()) + text_bytes(e.last().1)
    }
}

/// The entries after evicting the oldest ones until at most `max_entries`
/// remain and their texts take at most `max_bytes` bytes.
pub open spec fn evicted(e: Seq<(Seq<char>, Seq<char>)>, max_entries: nat, max_bytes: nat)
    -> Seq<(Seq<char>, Seq<char>)>
    decreases e.len(),
{
    if e.len() > 0 && (e.len() > max_entries || total_bytes(e) > max_bytes) {
        evicted(e.drop_first(), max_entries, max_bytes)
    } else {
        e
    }
}

/// The position of `id` among the entries, if present.
pub open spec fn position_of(e: Seq<(Seq<char>, Seq<char>)>, id: Seq<char>) -> Option<int> {
    if exists|i: int| 0 <= i < e.len() && e[i].0 == id {
        Some(choose|i: int| 0 <= i < e.len() && e[i].0 == id)
    } else {
        None
    }
}

/// The entries without the one of `id`, if any.
pub open spec fn without(e: Seq<(Seq<char>, Seq<char>)>, id: Seq<char>) -> Seq<(Seq<char>, Seq<char>)> {
    match position_of(e, id) {
        Some(i) => e.remove(i),
        None => e,
    }
}

proof fn lemma_total_bytes_append(a: Seq<(Seq<char>, Seq<char>)>, b: Seq<(Seq<char>, Seq<char>)>)
    ensures
        total_bytes(a + b) == total_bytes(a) + total_bytes(b),
    decreases b.len(),
{
    if b.len() == 0 {
        assert(a + b =~= a);
    } else {
        lemma_total_bytes_append(a, b.drop_last());
        assert((a + b).drop_last() =~= a + b.drop_last());
    }
}

proof fn lemma_total_bytes_remove(e: Seq<(Seq<char>, Seq<char>)>, i: int)
    requires
        0 <= i < e.len(),
    ensures
        total_bytes(e.remove(i)) + text_bytes(e[i].1) == total_bytes(e),
{
    let a = e.take(i);
    let b = e.skip(i + 1);
    let x = seq![e[i]];
    assert(e =~= a + x + b);
    assert(e.remove(i) =~= a + b);
    lemma_total_bytes_append(a + x, b);
    lemma_total_bytes_append(a, x);
    lemma_total_bytes_append(a, b);
    assert(x.drop_last() =~= Seq::<(Seq<char>, Seq<char>)>::empty());
    assert(total_bytes(x.drop_last()) == 0);
    assert(total_bytes(x) == text_bytes(e[i].1));
}

proof fn lemma_drop_first_bytes(e: Seq<(Seq<char>, Seq<char>)>)
    requires
        e.len() > 0,
    ensures
        total_bytes(e.drop_first()) + text_bytes(e[0].1) == total_bytes(e),
{
    lemma_total_bytes_remove(e, 0);
    assert(e.remove(0) =~= e.drop_first());
}

/// Law: after eviction the cache fits both limits.
pub proof fn law_eviction_fits(e: Seq<(Seq<char>, Seq<char>)>, max_entries: nat, max_bytes: nat)
    ensures
        evicted(e, max_entries, max_bytes).len() <= max_entries,
        total_bytes(evicted(e, max_entries, max_bytes)) <= max_bytes,
    decreases e.len(),
{
    if e.len() > 0 && (e.len() > max_entries || total_bytes(e) > max_bytes) {
        law_eviction_fits(e.drop_first(), max_entries, max_bytes);
    }
}

/// Law: eviction keeps the newest entry when it fits on its own: an entry
/// just put (or just read) stays cached when the cache can hold one entry
/// and its text fits the byte budget.
pub proof fn law_eviction_keeps_newest(e: Seq<(Seq<char>, Seq<char>)>, max_entries: nat, max_bytes: nat)
    requires
        e.len() > 0,
        max_entries >= 1,
        text_bytes(e.last().1) <= max_bytes,
    ensures
        evicted(e, max_entries, max_bytes).len() > 0,
        evicted(e, max_entries, max_bytes).last() == e.last(),
    decreases e.len(),
{
    if e.len() > 0 && (e.len() > max_entries || total_bytes(e) > max_bytes) {
        if e.len() == 1 {
            assert(e.drop_last() =~= Seq::<(Seq<char>, Seq<char>)>::empty());
            assert(total_bytes(e.drop_last()) == 0);
            assert(total_bytes(e) == text_bytes(e.last().1));
        } else {
            assert(e.drop_first().last() == e.last());
            law_eviction_keeps_newest(e.drop_first(), max_entries, max_bytes);
        }
    }
}

// ---------------------------------------------------------------------------
// TextCache
// ---------------------------------------------------------------------------

proof fn lemma_unique_position(e: Seq<(Seq<char>, Seq<char>)>, id: Seq<char>, i: int)
    requires
        ids_unique(e),
        0 <= i < e.len(),
        e[i].0 == id,
    ensures
        position_of(e, id) == Some(i),
{
    let j = choose|j: int| 0 <= j < e.len() && e[j].0 == id;
    if j < i {
        assert(e[j].0 != e[i].0);
    } else if j > i {
        assert(e[i].0 != e[j].0);
    }
}

proof fn lemma_remove_unique(e: Seq<(Seq<char>, Seq<char>)>, i: int)
    requires
        ids_unique(e),
        0 <= i < e.len(),
    ensures
        ids_unique(e.remove(i)),
        forall|j: int| 0 <= j < e.remove(i).len() ==> #[trigger] e.remove(i)[j].0 != e[i].0,
{
    let r = e.remove(i);
    assert forall|a: int, b: int| 0 <= a < b < r.len() implies r[a].0 != r[b].0 by {
        let oa = if a < i { a } else { a + 1 };
        let ob = if b < i { b } else { b + 1 };
        assert(r[a] == e[oa]);
        assert(r[b] == e[ob]);
    }
    assert forall|j: int| 0 <= j < r.len() implies #[trigger] r[j].0 != e[i].0 by {
        let oj = if j < i { j } else { j + 1 };
        assert(r[j] == e[oj]);
    }
}

proof fn lemma_absent(e: Seq<(Seq<char>, Seq<char>)>, id: Seq<char>)
    requires
        position_of(e, id) is None,
    ensures
        forall|j: int| 0 <= j < e.len() ==> #[trigger] e[j].0 != id,
{
}

/// An LRU text cache with both entry-count and byte-budget limits.
pub struct TextCache {
    max_entries: usize,
    max_bytes: usize,
    entries: im::Vector<(String, String)>,
    index: im::HashMap<String, usize>,
    total_bytes: usize,
}

impl TextCache {
    /// The (id, text) entries, least recently used first.
    pub closed spec fn entries_view(&self) -> Seq<(Seq<char>, Seq<char>)> {
        entry_views(cached_entries(self.entries))
    }

    pub closed spec fn max_entries_view(&self) -> nat {
        self.max_entries as nat
    }

    pub closed spec fn max_bytes_view(&self) -> nat {
        self.max_bytes as nat
    }

    /// Ids are unique, the index maps each id to its position, and the byte
    /// count is the texts' total UTF-8 length.
    pub closed spec fn wf(&self) -> bool {
        &&& ids_unique(self.entries_view())
        &&& index_matches(cached_index(self.index), self.entries_view())
        &&& self.total_bytes == total_bytes(self.entries_view())
    }

    /// An empty cache with the given limits.
    pub fn new(max_entries: usize, max_bytes: usize) -> (r: Self)
        ensures
            r.wf(),
            r.entries_view().len() == 0,
            r.max_entries_view() == max_entries,
            r.max_bytes_view() == max_bytes,
    {
        let r = TextCache { max_entries, max_bytes, entries: entries_new(), index: index_new(), total_bytes: 0 };
        assert(r.entries_view() =~= Seq::<(Seq<char>, Seq<char>)>::empty());
        r
    }

    /// The index of a list of entries with unique ids.
    fn rebuild_index(entries: &im::Vector<(String, String)>) -> (r: im::HashMap<String, usize>)
        requires
            ids_unique(entry_views(cached_entries(*entries))),
        ensures
            index_matches(cached_index(r), entry_views(cached_entries(*entries))),
    {
        let ghost ev = entry_views(cached_entries(*entries));
        let mut index = index_new();
        let n = entries_len(entries);
        let mut i: usize = 0;
        while i < n
            invariant
                n == ev.len(),
                ev == entry_views(cached_entries(*entries)),
                ids_unique(ev),
                i <= n,
                index_matches(cached_index(index), ev.take(i as int)),
            decreases n - i,
        {
            match entries_get(entries, i) {
                Some(e) => {
                    let ghost before = cached_index(index);
                    index = index_update(&index, e.0.clone(), i);
                    proof {
                        let t = ev.take(i + 1);
                        assert(t[i as int].0 == e.0@);
                        assert forall|k: Seq<char>| #[trigger] cached_index(index).contains_key(k) implies
                            exists|j: int| 0 <= j < t.len() && t[j].0 == k by {
                            if k != e.0@ {
                                assert(before.contains_key(k));
                                let j = choose|j: int| 0 <= j < ev.take(i as int).len() && ev.take(i as int)[j].0 == k;
                                assert(t[j] == ev.take(i as int)[j]);
                            }
                        }
                        assert forall|j: int| 0 <= j < t.len() implies #[trigger] cached_index(index).contains_key(t[j].0)
                            && cached_index(index)[t[j].0] == j by {
                            if j < i {
                                assert(t[j] == ev.take(i as int)[j]);
                                assert(ev[j].0 != ev[i as int].0);
                            }
                        }
                    }
                },
                None => {},
            }
            i = i + 1;
        }
        assert(ev.take(n as int) =~= ev);
        index
    }

    /// Evicts the least recently used entries until both limits hold.
    fn evict(self) -> (r: Self)
        requires
            ids_unique(self.entries_view()),
            self.total_bytes == total_bytes(self.entries_view()),
        ensures
            r.wf(),
            r.entries_view() == evicted(self.entries_view(), self.max_entries_view(), self.max_bytes_view()),
            r.max_entries_view() == self.max_entries_view(),
            r.max_bytes_view() == self.max_bytes_view(),
    {
        let ghost goal = evicted(self.entries_view(), self.max_entries_view(), self.max_bytes_view());
        let mut entries = self.entries;
        let mut total = self.total_bytes;
        loop
            invariant
                evicted(entry_views(cached_entries(entries)), self.max_entries as nat, self.max_bytes as nat) == goal,
                ids_unique(entry_views(cached_entries(entries))),
                total == total_bytes(entry_views(cached_entries(entries))),
            ensures
                entry_views(cached_entries(entries)) == goal,
                ids_unique(entry_views(cached_entries(entries))),
                total == total_bytes(entry_views(cached_entries(entries))),
            decreases cached_entries(entries).len(),
        {
            let ghost cur = entry_views(cached_entries(entries));
            let n = entries_len(&entries);
            if n == 0 || !(n > self.max_entries || total > self.max_bytes) {
                break;
            }
            let (_, text) = entries_remove(&mut entries, 0);
            proof {
                lemma_drop_first_bytes(cur);
                assert(entry_views(cached_entries(entries)) =~= cur.drop_first());
                lemma_remove_unique(cur, 0);
                assert(cur.remove(0) =~= cur.drop_first());
            }
            total = total - text.as_str().len();
        }
        let index = Self::rebuild_index(&entries);
        TextCache { max_entries: self.max_entries, max_bytes: self.max_bytes, entries, index, total_bytes: total }
    }

    /// Reads a cached text; a hit makes the entry the most recently used.
    pub fn get(self, id: &str) -> (r: (Self, Option<String>))
        requires
            self.wf(),
        ensures
            r.0.wf(),
            r.0.max_entries_view() == self.max_entries_view(),
            r.0.max_bytes_view() == self.max_bytes_view(),
            match position_of(self.entries_view(), id@) {
                Some(i) => r.1 matches Some(t) && t@ == self.entries_view()[i].1
                    && r.0.entries_view() == self.entries_view().remove(i).push(self.entries_view()[i]),
                None => r.1 is None && r.0.entries_view() == self.entries_view(),
            },
    {
        let ghost ev = self.entries_view();
        match index_get(&self.index, id) {
            None => {
                proof {
                    if position_of(ev, id@) is Some {
                        let j = choose|j: int| 0 <= j < ev.len() && ev[j].0 == id@;
                        assert(cached_index(self.index).contains_key(ev[j].0));
                    }
                }
                (self, None)
            },
            Some(i) => {
                proof {
                    let j = choose|j: int| 0 <= j < ev.len() && ev[j].0 == id@;
                    assert(cached_index(self.index).contains_key(ev[j].0));
                    assert(ev[i as int].0 == id@);
                    lemma_unique_position(ev, id@, i as int);
                }
                let mut entries = self.entries;
                let entry = entries_remove(&mut entries, i);
                let text = entry.1.clone();
                entries_push_back(&mut entries, entry);
                proof {
                    assert(entry_views(cached_entries(entries)) =~= ev.remove(i as int).push(ev[i as int]));
                    lemma_remove_unique(ev, i as int);
                    let nv = ev.remove(i as int).push(ev[i as int]);
                    assert forall|a: int, b: int| 0 <= a < b < nv.len() implies nv[a].0 != nv[b].0 by {
                        if b == nv.len() - 1 {
                            assert(nv[a] == ev.remove(i as int)[a]);
                        } else {
                            assert(nv[a] == ev.remove(i as int)[a]);
                            assert(nv[b] == ev.remove(i as int)[b]);
                        }
                    }
                    lemma_total_bytes_remove(ev, i as int);
                    assert(nv.drop_last() =~= ev.remove(i as int));
                }
                let index = Self::rebuild_index(&entries);
                (TextCache { max_entries: self.max_entries, max_bytes: self.max_bytes, entries, index,
                    total_bytes: self.total_bytes }, Some(text))
            },
        }
    }
}

impl TextCache {
    /// Stores a text, replacing the id's old text, as the most recently used
    /// entry; then evicts the least recently used entries beyond the limits.
    pub fn put(self, id: &str, text: &str) -> (r: Self)
        requires
            self.wf(),
            total_bytes(self.entries_view()) + text_bytes(text@) <= usize::MAX,
        ensures
            r.wf(),
            r.max_entries_view() == self.max_entries_view(),
            r.max_bytes_view() == self.max_bytes_view(),
            r.entries_view() == evicted(without(self.entries_view(), id@).push((id@, text@)),
                self.max_entries_view(), self.max_bytes_view()),
    {
        let ghost ev = self.entries_view();
        let mut entries = self.entries;
        let mut total = self.total_bytes;
        match index_get(&self.index, id) {
            Some(i) => {
                proof {
                    let j = choose|j: int| 0 <= j < ev.len() && ev[j].0 == id@;
                    assert(cached_index(self.index).contains_key(ev[j].0));
                    assert(ev[i as int].0 == id@);
                    lemma_unique_position(ev, id@, i as int);
                    lemma_total_bytes_remove(ev, i as int);
                    lemma_remove_unique(ev, i as int);
                }
                let old_entry = entries_remove(&mut entries, i);
                total = total - old_entry.1.as_str().len();
                assert(entry_views(cached_entries(entries)) =~= ev.remove(i as int));
            },
            None => {
                proof {
                    if position_of(ev, id@) is Some {
                        let j = choose|j: int| 0 <= j < ev.len() && ev[j].0 == id@;
                        assert(cached_index(self.index).contains_key(ev[j].0));
                    }
                    lemma_absent(ev, id@);
                }
            },
        }
        let ghost base = entry_views(cached_entries(entries));
        assert(base == without(ev, id@));
        assert(forall|j: int| 0 <= j < base.len() ==> #[trigger] base[j].0 != id@);
        entries_push_back(&mut entries, (id.to_owned(), text.to_owned()));
        let ghost grown = entry_views(cached_entries(entries));
        proof {
            assert(grown =~= base.push((id@, text@)));
            assert(grown.drop_last() =~= base);
            assert forall|a: int, b: int| 0 <= a < b < grown.len() implies grown[a].0 != grown[b].0 by {
                if b == grown.len() - 1 {
                    assert(grown[a] == base[a]);
                } else {
                    assert(grown[a] == base[a]);
                    assert(grown[b] == base[b]);
                }
            }
        }
        total = total + text.len();
        let staged = TextCache { max_entries: self.max_entries, max_bytes: self.max_bytes, entries,
            index: self.index, total_bytes: total };
        staged.evict()
    }

    /// Removes an entry; returns whether it was cached.
    pub fn remove(self, id: &str) -> (r: (Self, bool))
        requires
            self.wf(),
        ensures
            r.0.wf(),
            r.0.max_entries_view() == self.max_entries_view(),
            r.0.max_bytes_view() == self.max_bytes_view(),
            r.0.entries_view() == without(self.entries_view(), id@),
            r.1 == (position_of(self.entries_view(), id@) is Some),
    {
        let ghost ev = self.entries_view();
        match index_get(&self.index, id) {
            Some(i) => {
                proof {
                    let j = choose|j: int| 0 <= j < ev.len() && ev[j].0 == id@;
                    assert(cached_index(self.index).contains_key(ev[j].0));
                    assert(ev[i as int].0 == id@);
                    lemma_unique_position(ev, id@, i as int);
                    lemma_total_bytes_remove(ev, i as int);
                    lemma_remove_unique(ev, i as int);
                }
                let mut entries = self.entries;
                let old_entry = entries_remove(&mut entries, i);
                let total = self.total_bytes - old_entry.1.as_str().len();
                assert(entry_views(cached_entries(entries)) =~= ev.remove(i as int));
                let index = Self::rebuild_index(&entries);
                (TextCache { max_entries: self.max_entries, max_bytes: self.max_bytes, entries, index,
                    total_bytes: total }, true)
            },
            None => {
                proof {
                    if position_of(ev, id@) is Some {
                        let j = choose|j: int| 0 <= j < ev.len() && ev[j].0 == id@;
                        assert(cached_index(self.index).contains_key(ev[j].0));
                    }
                }
                (self, false)
            },
        }
    }

    /// Removes every entry.
    pub fn clear(self) -> (r: Self)
        ensures
            r.wf(),
            r.entries_view().len() == 0,
            r.max_entries_view() == self.max_entries_view(),
            r.max_bytes_view() == self.max_bytes_view(),
    {
        TextCache::new(self.max_entries, self.max_bytes)
    }

    /// The entry-count limit.
    pub fn max_entries(&self) -> (r: usize)
        ensures
            r == self.max_entries_view(),
    {
        self.max_entries
    }

    /// The byte budget.
    pub fn max_bytes(&self) -> (r: usize)
        ensures
            r == self.max_bytes_view(),
    {
        self.max_bytes
    }

    /// Number of cached entries.
    pub fn size(&self) -> (r: usize)
        ensures
            r == self.entries_view().len(),
    {
        entries_len(&self.entries)
    }

    /// Total UTF-8 bytes of the cached texts.
    pub fn bytes(&self) -> (r: usize)
        requires
            self.wf(),
        ensures
            r == total_bytes(self.entries_view()),
    {
        self.total_bytes
    }
}

impl Default for TextCache {
    fn default() -> (r: Self)
        ensures
            r.wf(),
            r.entries_view().len() == 0,
            r.max_entries_view() == 500,
            r.max_bytes_view() == 5_242_880,
    {
        TextCache::new(500, 5_242_880)
    }
}

/// Law: a text just put is read back, unless the cache cannot hold a
/// single entry or the text alone exceeds the byte budget.
pub proof fn law_put_then_get(e: Seq<(Seq<char>, Seq<char>)>, id: Seq<char>, text: Seq<char>, max_entries: nat,
    max_bytes: nat)
    requires
        ids_unique(e),
        max_entries >= 1,
        text_bytes(text) <= max_bytes,
    ensures
        ({
            let after = evicted(without(e, id).push((id, text)), max_entries, max_bytes);
            &&& after.len() > 0
            &&& position_of(after, id) == Some(after.len() - 1)
            &&& after[after.len() - 1].1 == text
        }),
{
    let base = without(e, id);
    let grown = base.push((id, text));
    match position_of(e, id) {
        Some(i) => {
            assert(0 <= i < e.len() && e[i].0 == id);
            lemma_remove_unique(e, i);
        },
        None => {
            lemma_absent(e, id);
        },
    }
    assert forall|a: int, b: int| 0 <= a < b < grown.len() implies grown[a].0 != grown[b].0 by {
        if b == grown.len() - 1 {
            assert(grown[a] == base[a]);
        } else {
            assert(grown[a] == base[a]);
            assert(grown[b] == base[b]);
        }
    }
    law_eviction_keeps_newest(grown, max_entries, max_bytes);
    let after = evicted(grown, max_entries, max_bytes);
    lemma_evicted_suffix(grown, max_entries, max_bytes);
    assert(ids_unique(after)) by {
        assert forall|a: int, b: int| 0 <= a < b < after.len() implies after[a].0 != after[b].0 by {
            let d = grown.len() - after.len();
            assert(after[a] == grown[a + d]);
            assert(after[b] == grown[b + d]);
        }
    }
    lemma_unique_position(after, id, after.len() - 1);
}

proof fn lemma_evicted_suffix(e: Seq<(Seq<char>, Seq<char>)>, max_entries: nat, max_bytes: nat)
    ensures
        evicted(e, max_entries, max_bytes).len() <= e.len(),
        evicted(e, max_entries, max_bytes) == e.skip(e.len() - evicted(e, max_entries, max_bytes).len()),
    decreases e.len(),
{
    if e.len() > 0 && (e.len() > max_entries || total_bytes(e) > max_bytes) {
        lemma_evicted_suffix(e.drop_first(), max_entries, max_bytes);
        let r = evicted(e.drop_first(), max_entries, max_bytes);
        assert(e.drop_first().skip(e.drop_first().len() - r.len()) =~= e.skip(e.len() - r.len()));
    } else {
        assert(e.skip(0) =~= e);
    }
}

} // verus!
