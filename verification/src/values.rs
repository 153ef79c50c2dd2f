//! `ValueMap`: a string-keyed map of string values, kept as an
//! insertion-ordered list of entries with no key occurring twice.

use vstd::prelude::*;
use crate::text::str_eq;

verus! {

/// The keys of a list of entries, in order.
pub open spec fn entry_keys(entries: Seq<(String, String)>) -> Seq<Seq<char>> {
    entries.map_values(|e: (String, String)| e.0@)
}

/// The map a list of entries with distinct keys stands for.
pub open spec fn entries_map(entries: Seq<(String, String)>) -> Map<Seq<char>, Seq<char>>
    decreases entries.len(),
{
    if entries.len() == 0 {
        Map::empty()
    } else {
        entries_map(entries.drop_last()).insert(entries.last().0@, entries.last().1@)
    }
}

/// A string-keyed map of string values, in insertion order.
#[derive(Debug, Clone)]
pub struct ValueMap {
    entries: Vec<(String, String)>,
}

impl ValueMap {
    pub closed spec fn entries_view(&self) -> Seq<(String, String)> {
        self.entries@
    }

    /// The keys in insertion order.
    pub open spec fn keys_view(&self) -> Seq<Seq<char>> {
        entry_keys(self.entries_view())
    }

    /// No key occurs twice.
    pub open spec fn wf(&self) -> bool {
        self.keys_view().no_duplicates()
    }

    /// The map this value stands for.
    pub open spec fn view_map(&self) -> Map<Seq<char>, Seq<char>> {
        entries_map(self.entries_view())
    }

    /// An empty map.
    pub fn new() -> (r: Self)
        ensures
            r.wf(),
            r.view_map() == Map::<Seq<char>, Seq<char>>::empty(),
            r.keys_view() == Seq::<Seq<char>>::empty(),
    {
        let r = ValueMap { entries: Vec::new() };
        assert(r.keys_view() =~= Seq::<Seq<char>>::empty());
        r
    }

    /// A copy with the same entries.
    pub fn copy(&self) -> (r: Self)
        ensures
            r.entries_view().len() == self.entries_view().len(),
            r.keys_view() == self.keys_view(),
            r.view_map() == self.view_map(),
            r.wf() == self.wf(),
    {
        let mut entries: Vec<(String, String)> = Vec::new();
        let mut i: usize = 0;
        while i < self.entries.len()
            invariant
                i <= self.entries@.len(),
                entries@.len() == i,
                forall|j: int| 0 <= j < i ==> (#[trigger] entries@[j]).0@ == self.entries@[j].0@
                    && entries@[j].1@ == self.entries@[j].1@,
            decreases self.entries@.len() - i,
        {
            let e = &self.entries[i];
            entries.push((e.0.clone(), e.1.clone()));
            i = i + 1;
        }
        let r = ValueMap { entries };
        assert(r.keys_view() =~= self.keys_view());
        proof { lemma_entries_map_same(r.entries_view(), self.entries_view()); }
        r
    }

    /// The entries as key and value texts, in insertion order.
    pub open spec fn pairs_view(&self) -> Seq<(Seq<char>, Seq<char>)> {
        self.entries_view().map_values(|e: (String, String)| (e.0@, e.1@))
    }

    /// The entry at a position, as stored.
    pub fn pair_at(&self, i: usize) -> (r: (&String, &String))
        requires
            i < self.pairs_view().len(),
        ensures
            r.0@ == self.pairs_view()[i as int].0,
            r.1@ == self.pairs_view()[i as int].1,
    {
        let e = &self.entries[i];
        (&e.0, &e.1)
    }

    /// Number of entries.
    pub fn len(&self) -> (r: usize)
        ensures
            r == self.keys_view().len(),
    {
        self.entries.len()
    }

    /// Position of `key`, if present.
    pub fn position(&self, key: &str) -> (r: Option<usize>)
        ensures
            match r {
                Some(i) => i < self.keys_view().len() && self.keys_view()[i as int] == key@,
                None => !self.keys_view().contains(key@),
            },
    {
        let mut i: usize = 0;
        while i < self.entries.len()
            invariant
                i <= self.entries@.len(),
                forall|j: int| 0 <= j < i ==> self.keys_view()[j] != key@,
            decreases self.entries@.len() - i,
        {
            if str_eq(self.entries[i].0.as_str(), key) {
                return Some(i);
            }
            i = i + 1;
        }
        None
    }

    /// The entry at a position.
    pub fn entry_at(&self, i: usize) -> (r: (&String, &String))
        requires
            self.wf(),
            i < self.keys_view().len(),
        ensures
            r.0@ == self.keys_view()[i as int],
            r.1@ == self.view_map()[self.keys_view()[i as int]],
    {
        proof { lemma_entries_map_value(self.entries_view(), i as int); }
        let e = &self.entries[i];
        (&e.0, &e.1)
    }

    /// Whether `key` is present.
    pub fn contains_key(&self, key: &str) -> (r: bool)
        requires
            self.wf(),
        ensures
            r == self.view_map().contains_key(key@),
    {
        proof { lemma_entries_map_dom(self.entries_view()); }
        match self.position(key) {
            Some(i) => {
                assert(self.keys_view()[i as int] == key@);
                assert(self.keys_view().contains(key@));
                assert(entry_keys(self.entries_view()).contains(key@));
                true
            },
            None => {
                assert(!entry_keys(self.entries_view()).contains(key@));
                false
            },
        }
    }

    /// The value stored under `key`.
    pub fn get(&self, key: &str) -> (r: Option<&String>)
        requires
            self.wf(),
        ensures
            match r {
                Some(v) => self.view_map().contains_key(key@) && v@ == self.view_map()[key@],
                None => !self.view_map().contains_key(key@),
            },
    {
        proof { lemma_entries_map_dom(self.entries_view()); }
        match self.position(key) {
            Some(i) => {
                proof { lemma_entries_map_value(self.entries_view(), i as int); }
                Some(&self.entries[i].1)
            },
            None => None,
        }
    }

    /// Stores `value` under `key`, replacing the old value in place or
    /// appending a new entry.
    pub fn insert(&mut self, key: &str, value: &str)
        requires
            old(self).wf(),
        ensures
            final(self).wf(),
            final(self).view_map() == old(self).view_map().insert(key@, value@),
            old(self).keys_view().contains(key@) ==> final(self).keys_view() == old(self).keys_view(),
            !old(self).keys_view().contains(key@) ==> final(self).keys_view() == old(self).keys_view().push(key@),
    {
        proof { lemma_entries_map_dom(self.entries_view()); }
        match self.position(key) {
            Some(i) => {
                let ghost before = self.entries_view();
                self.entries.set(i, (key.to_owned(), value.to_owned()));
                proof {
                    assert(self.keys_view() =~= entry_keys(before));
                    lemma_entries_map_update(before, i as int, self.entries_view());
                }
            },
            None => {
                let ghost before = self.entries_view();
                self.entries.push((key.to_owned(), value.to_owned()));
                proof {
                    assert(self.entries_view().drop_last() =~= before);
                    assert(self.keys_view() =~= entry_keys(before).push(key@));
                }
            },
        }
    }
}

/// Entry lists with the same key and value views stand for the same map.
pub proof fn lemma_entries_map_same(a: Seq<(String, String)>, b: Seq<(String, String)>)
    requires
        a.len() == b.len(),
        forall|j: int| 0 <= j < a.len() ==> (#[trigger] a[j]).0@ == b[j].0@ && a[j].1@ == b[j].1@,
    ensures
        entries_map(a) == entries_map(b),
    decreases a.len(),
{
    if a.len() > 0 {
        lemma_entries_map_same(a.drop_last(), b.drop_last());
    }
}

/// The domain of the map is the set of keys.
pub proof fn lemma_entries_map_dom(entries: Seq<(String, String)>)
    ensures
        forall|k: Seq<char>| entries_map(entries).contains_key(k) <==> entry_keys(entries).contains(k),
    decreases entries.len(),
{
    if entries.len() > 0 {
        let prefix = entries.drop_last();
        lemma_entries_map_dom(prefix);
        let ek = entry_keys(entries);
        let pk = entry_keys(prefix);
        let lk = entries.last().0@;
        assert(ek =~= pk.push(lk));
        assert forall|k: Seq<char>| ek.contains(k) <==> (pk.contains(k) || k == lk) by {
            if k == lk {
                assert(ek[ek.len() - 1] == k);
            }
            if pk.contains(k) {
                let j = choose|j: int| 0 <= j < pk.len() && pk[j] == k;
                assert(ek[j] == k);
            }
            if ek.contains(k) {
                let j = choose|j: int| 0 <= j < ek.len() && ek[j] == k;
                if j < pk.len() {
                    assert(pk[j] == k);
                }
            }
        }
    } else {
        assert forall|k: Seq<char>| !entry_keys(entries).contains(k) by {}
    }
}

/// With distinct keys, the value of the key at position `i` is the value of entry `i`.
pub proof fn lemma_entries_map_value(entries: Seq<(String, String)>, i: int)
    requires
        entry_keys(entries).no_duplicates(),
        0 <= i < entries.len(),
    ensures
        entries_map(entries).contains_key(entries[i].0@),
        entries_map(entries)[entries[i].0@] == entries[i].1@,
    decreases entries.len(),
{
    let prefix = entries.drop_last();
    assert(entry_keys(entries) =~= entry_keys(prefix).push(entries.last().0@));
    if i < entries.len() - 1 {
        assert(entry_keys(prefix).no_duplicates()) by {
            assert forall|a: int, b: int| 0 <= a < entry_keys(prefix).len() && 0 <= b < entry_keys(prefix).len() && a != b
                implies entry_keys(prefix)[a] != entry_keys(prefix)[b] by {
                assert(entry_keys(entries)[a] == entry_keys(prefix)[a]);
                assert(entry_keys(entries)[b] == entry_keys(prefix)[b]);
            }
        }
        lemma_entries_map_value(prefix, i);
        assert(entry_keys(entries)[i] != entry_keys(entries)[entries.len() - 1]);
    }
}

/// Replacing entry `i` by one with the same key updates that key's value.
pub proof fn lemma_entries_map_update(before: Seq<(String, String)>, i: int, after: Seq<(String, String)>)
    requires
        entry_keys(before).no_duplicates(),
        0 <= i < before.len(),
        after.len() == before.len(),
        after[i].0@ == before[i].0@,
        forall|j: int| 0 <= j < before.len() && j != i ==> after[j] == before[j],
    ensures
        entries_map(after) == entries_map(before).insert(before[i].0@, after[i].1@),
    decreases before.len(),
{
    let bp = before.drop_last();
    let ap = after.drop_last();
    assert(entry_keys(before) =~= entry_keys(bp).push(before.last().0@));
    assert(entry_keys(bp).no_duplicates()) by {
        assert forall|a: int, b: int| 0 <= a < entry_keys(bp).len() && 0 <= b < entry_keys(bp).len() && a != b
            implies entry_keys(bp)[a] != entry_keys(bp)[b] by {
            assert(entry_keys(before)[a] == entry_keys(bp)[a]);
            assert(entry_keys(before)[b] == entry_keys(bp)[b]);
        }
    }
    if i == before.len() - 1 {
        assert(ap =~= bp);
        assert(entries_map(after) =~= entries_map(before).insert(before[i].0@, after[i].1@));
    } else {
        lemma_entries_map_update(bp, i, ap);
        assert(after.last() == before.last());
        assert(entry_keys(before)[i] != entry_keys(before)[before.len() - 1]);
        assert(entries_map(after) =~= entries_map(before).insert(before[i].0@, after[i].1@));
    }
}

} // verus!
