//! Contiguous embedding storage.
//!
//! Embeddings of a fixed dimension are kept one after the other in a single
//! buffer, in the order their ids are listed; an entry's embedding occupies
//! the slot `[i * d, i * d + d)` of the buffer. Removal moves the last entry
//! into the vacated slot, so the buffer never has holes. An id is found by
//! scanning the id list, in which no id occurs twice.
//!
//! The storage is generic over the element type of the embeddings.

use vstd::prelude::*;
use vstd::slice::slice_subrange;
use crate::text::{str_eq, views_of};

verus! {

/// The slot of an entry before another ends before the other's begins.
proof fn lemma_slot_order(a: int, b: int, d: int)
    requires
        0 <= a < b,
        0 <= d,
    ensures
        a * d + d <= b * d,
        0 <= a * d,
{
    assert(a * d + d <= b * d) by (nonlinear_arith)
        requires
            0 <= a < b,
            0 <= d,
    ;
    assert(0 <= a * d) by (nonlinear_arith)
        requires
            0 <= a,
            0 <= d,
    ;
}

/// Two different entries have disjoint slots.
proof fn lemma_slots_disjoint(i: int, k: int, d: int)
    requires
        0 <= i,
        0 <= k,
        i != k,
        0 <= d,
    ensures
        i * d + d <= k * d || k * d + d <= i * d,
        0 <= i * d,
        0 <= k * d,
{
    if i < k {
        lemma_slot_order(i, k, d);
        lemma_slot_order(k, k + 1, d);
    } else {
        lemma_slot_order(k, i, d);
        lemma_slot_order(i, i + 1, d);
    }
}

/// `(n + 1) * d == n * d + d`.
proof fn lemma_next_slot(n: int, d: int)
    ensures
        (n + 1) * d == n * d + d,
{
    assert((n + 1) * d == n * d + d) by (nonlinear_arith);
}

/// In a sequence without duplicates, the index of an element is the
/// position it stands at.
proof fn lemma_index_of_unique(s: Seq<Seq<char>>, k: int)
    requires
        s.no_duplicates(),
        0 <= k < s.len(),
    ensures
        s.contains(s[k]),
        s.index_of(s[k]) == k,
{
    assert(s.contains(s[k]));
}

/// The embedding stored for an id, if any, given the ids and the
/// embeddings in the same order.
pub open spec fn lookup_in<T>(ids: Seq<Seq<char>>, embeddings: Seq<Seq<T>>, id: Seq<char>) -> Option<Seq<T>> {
    if ids.contains(id) {
        Some(embeddings[ids.index_of(id)])
    } else {
        None
    }
}

/// The ids and embeddings after inserting an entry: an existing id keeps its
/// position and takes the new embedding; a new id is appended.
pub open spec fn inserted<T>(state: (Seq<Seq<char>>, Seq<Seq<T>>), id: Seq<char>, e: Seq<T>) -> (
    Seq<Seq<char>>,
    Seq<Seq<T>>,
) {
    if state.0.contains(id) {
        (state.0, state.1.update(state.0.index_of(id), e))
    } else {
        (state.0.push(id), state.1.push(e))
    }
}

/// The ids and embeddings after inserting each entry of a batch in turn.
pub open spec fn batch_inserted<T>(state: (Seq<Seq<char>>, Seq<Seq<T>>), batch: Seq<(Seq<char>, Seq<T>)>) -> (
    Seq<Seq<char>>,
    Seq<Seq<T>>,
)
    decreases batch.len(),
{
    if batch.len() == 0 {
        state
    } else {
        inserted(batch_inserted(state, batch.drop_last()), batch.last().0, batch.last().1)
    }
}

/// The ids and embeddings after removing the entry at position `k`: the
/// last entry takes its place.
pub open spec fn swap_removed<T>(state: (Seq<Seq<char>>, Seq<Seq<T>>), k: int) -> (Seq<Seq<char>>, Seq<Seq<T>>) {
    (state.0.update(k, state.0.last()).drop_last(), state.1.update(k, state.1.last()).drop_last())
}

/// A batch of entries as ids and embeddings.
pub open spec fn batch_view<T>(entries: Seq<(&str, &[T])>) -> Seq<(Seq<char>, Seq<T>)> {
    entries.map_values(|e: (&str, &[T])| (e.0@, e.1@))
}

/// Inserting keeps ids distinct; afterwards the id finds the new embedding
/// and every other id what it found before.
proof fn lemma_lookup_inserted<T>(ids: Seq<Seq<char>>, es: Seq<Seq<T>>, id: Seq<char>, e: Seq<T>, other: Seq<char>)
    requires
        ids.no_duplicates(),
        es.len() == ids.len(),
    ensures
        inserted((ids, es), id, e).0.no_duplicates(),
        inserted((ids, es), id, e).1.len() == inserted((ids, es), id, e).0.len(),
        lookup_in(inserted((ids, es), id, e).0, inserted((ids, es), id, e).1, other) == (if other == id {
            Some(e)
        } else {
            lookup_in(ids, es, other)
        }),
{
    let (ids2, es2) = inserted((ids, es), id, e);
    if ids.contains(id) {
        let k = ids.index_of(id);
        if other != id && ids.contains(other) {
            let j = ids.index_of(other);
            assert(j != k);
        }
    } else {
        let n = ids.len() as int;
        assert(ids2.no_duplicates()) by {
            assert forall|a: int, b: int| 0 <= a < ids2.len() && 0 <= b < ids2.len() && a != b implies ids2[a]
                != ids2[b] by {
                if a < n && b < n {
                    assert(ids2[a] == ids[a] && ids2[b] == ids[b]);
                } else if a == n {
                    assert(ids[b] != id);
                } else {
                    assert(ids[a] != id);
                }
            }
        }
        lemma_index_of_unique(ids2, n);
        assert(ids2[n] == id);
        if other != id {
            if ids.contains(other) {
                let j = ids.index_of(other);
                assert(ids2[j] == other);
                lemma_index_of_unique(ids2, j);
            } else {
                assert(!ids2.contains(other)) by {
                    if ids2.contains(other) {
                        let j = choose|j: int| 0 <= j < ids2.len() && ids2[j] == other;
                        if j < n {
                            assert(ids[j] == other);
                        }
                    }
                }
            }
        }
    }
}

/// Removing the entry at `k` keeps ids distinct; afterwards its id finds
/// nothing and every other id what it found before.
proof fn lemma_lookup_swap_removed<T>(ids: Seq<Seq<char>>, es: Seq<Seq<T>>, k: int, other: Seq<char>)
    requires
        ids.no_duplicates(),
        es.len() == ids.len(),
        0 <= k < ids.len(),
    ensures
        swap_removed((ids, es), k).0.no_duplicates(),
        swap_removed((ids, es), k).1.len() == swap_removed((ids, es), k).0.len(),
        lookup_in(swap_removed((ids, es), k).0, swap_removed((ids, es), k).1, other) == (if other == ids[k] {
            None
        } else {
            lookup_in(ids, es, other)
        }),
{
    let (ids2, es2) = swap_removed((ids, es), k);
    let last = ids.len() - 1;
    assert forall|i: int| 0 <= i < ids2.len() implies #[trigger] ids2[i] == (if i == k {
        ids[last]
    } else {
        ids[i]
    }) by {}
    assert(ids2.no_duplicates()) by {
        assert forall|a: int, b: int| 0 <= a < ids2.len() && 0 <= b < ids2.len() && a != b implies ids2[a]
            != ids2[b] by {
            assert(ids2[a] == (if a == k { ids[last] } else { ids[a] }));
            assert(ids2[b] == (if b == k { ids[last] } else { ids[b] }));
        }
    }
    if other == ids[k] {
        assert(!ids2.contains(other)) by {
            if ids2.contains(other) {
                let j = choose|j: int| 0 <= j < ids2.len() && ids2[j] == other;
                assert(ids2[j] == (if j == k { ids[last] } else { ids[j] }));
            }
        }
    } else if ids.contains(other) {
        let j = ids.index_of(other);
        assert(j != k);
        if j == last {
            assert(ids2[k] == other);
            lemma_index_of_unique(ids2, k);
        } else {
            assert(ids2[j] == other);
            lemma_index_of_unique(ids2, j);
        }
    } else {
        assert(!ids2.contains(other)) by {
            if ids2.contains(other) {
                let j = choose|j: int| 0 <= j < ids2.len() && ids2[j] == other;
                assert(ids2[j] == (if j == k { ids[last] } else { ids[j] }));
            }
        }
    }
}

/// Removing an id right after inserting it undoes the insertion as far as
/// lookups go: the id is absent and every other id finds what it found
/// before (only the storage order may differ).
pub proof fn law_remove_undoes_insert<T>(ids: Seq<Seq<char>>, es: Seq<Seq<T>>, id: Seq<char>, e: Seq<T>, other: Seq<char>)
    requires
        ids.no_duplicates(),
        es.len() == ids.len(),
    ensures
        ({
            let after = inserted((ids, es), id, e);
            let undone = swap_removed(after, after.0.index_of(id));
            lookup_in(undone.0, undone.1, other) == (if other == id {
                None
            } else {
                lookup_in(ids, es, other)
            })
        }),
{
    let after = inserted((ids, es), id, e);
    lemma_lookup_inserted(ids, es, id, e, other);
    lemma_lookup_inserted(ids, es, id, e, id);
    let k = after.0.index_of(id);
    assert(after.0.contains(id));
    assert(0 <= k < after.0.len() && after.0[k] == id);
    lemma_lookup_swap_removed(after.0, after.1, k, other);
}

/// Embeddings of a fixed dimension, stored contiguously by id.
pub struct VectorStorage<T> {
    ids: Vec<String>,
    embeddings: Vec<T>,
    dimensions: usize,
}

impl<T> VectorStorage<T> {
    /// The ids, in storage order.
    pub closed spec fn ids_view(&self) -> Seq<Seq<char>> {
        views_of(self.ids@)
    }

    /// The whole embedding buffer.
    pub closed spec fn raw_view(&self) -> Seq<T> {
        self.embeddings@
    }

    /// The dimension of every embedding.
    pub closed spec fn dims(&self) -> nat {
        self.dimensions as nat
    }

    /// No id occurs twice and the buffer holds exactly one slot per id.
    pub open spec fn wf(&self) -> bool {
        &&& self.ids_view().no_duplicates()
        &&& self.raw_view().len() == self.ids_view().len() * self.dims()
    }

    /// The embedding in slot `i`.
    pub open spec fn entry(&self, i: int) -> Seq<T> {
        self.raw_view().subrange(i * self.dims(), i * self.dims() + self.dims())
    }

    /// The embeddings, in storage order.
    pub open spec fn entries(&self) -> Seq<Seq<T>> {
        Seq::new(self.ids_view().len(), |i: int| self.entry(i))
    }

    /// The ids and embeddings, in storage order.
    pub open spec fn state(&self) -> (Seq<Seq<char>>, Seq<Seq<T>>) {
        (self.ids_view(), self.entries())
    }

    /// The embedding stored for an id, if any.
    pub open spec fn lookup(&self, id: Seq<char>) -> Option<Seq<T>> {
        lookup_in(self.ids_view(), self.entries(), id)
    }

    /// An empty storage for embeddings of the given dimension.
    pub fn new(dimensions: usize) -> (r: Self)
        ensures
            r.wf(),
            r.dims() == dimensions,
            r.ids_view().len() == 0,
            r.raw_view().len() == 0,
    {
        let r = VectorStorage { ids: Vec::new(), embeddings: Vec::new(), dimensions };
        assert(r.ids_view() =~= Seq::<Seq<char>>::empty());
        r
    }

    /// The position of an id in the id list.
    fn find(&self, id: &str) -> (r: Option<usize>)
        ensures
            r matches Some(k) ==> k < self.ids_view().len() && self.ids_view()[k as int] == id@,
            r is None ==> !self.ids_view().contains(id@),
    {
        let mut i: usize = 0;
        while i < self.ids.len()
            invariant
                i <= self.ids@.len(),
                self.ids_view().len() == self.ids@.len(),
                forall|j: int| 0 <= j < i ==> self.ids_view()[j] != id@,
            decreases self.ids@.len() - i,
        {
            if str_eq(self.ids[i].as_str(), id) {
                return Some(i);
            }
            i = i + 1;
        }
        None
    }

    /// Whether an embedding is stored for the id.
    pub fn contains(&self, id: &str) -> (r: bool)
        ensures
            r == self.ids_view().contains(id@),
    {
        self.find(id).is_some()
    }

    /// The number of stored entries.
    pub fn len(&self) -> (r: usize)
        ensures
            r == self.ids_view().len(),
    {
        self.ids.len()
    }

    /// Whether nothing is stored.
    pub fn is_empty(&self) -> (r: bool)
        ensures
            r == (self.ids_view().len() == 0),
    {
        self.ids.len() == 0
    }

    /// The dimension of every embedding.
    pub fn dimensions(&self) -> (r: usize)
        ensures
            r == self.dims(),
    {
        self.dimensions
    }

    /// The whole embedding buffer, slot after slot.
    pub fn raw_embeddings(&self) -> (r: &[T])
        ensures
            r@ == self.raw_view(),
    {
        self.embeddings.as_slice()
    }

    /// The embedding stored for the id, as a slice of the buffer.
    pub fn get(&self, id: &str) -> (r: Option<&[T]>)
        requires
            self.wf(),
        ensures
            self.lookup(id@) == (match r {
                Some(s) => Some(s@),
                None => None,
            }),
    {
        match self.find(id) {
            None => None,
            Some(k) => {
                let d = self.dimensions;
                let total = self.embeddings.len();
                proof {
                    lemma_slot_order(k as int, self.ids_view().len() as int, d as int);
                    lemma_index_of_unique(self.ids_view(), k as int);
                }
                assert(k * d + d <= total);
                let start = k * d;
                Some(slice_subrange(self.embeddings.as_slice(), start, start + d))
            },
        }
    }

    /// Every entry as its id and embedding, in storage order.
    pub fn iter(&self) -> (r: Vec<(&str, &[T])>)
        requires
            self.wf(),
        ensures
            r@.len() == self.ids_view().len(),
            forall|i: int| 0 <= i < r@.len() ==> (#[trigger] r@[i]).0@ == self.ids_view()[i] && r@[i].1@
                == self.entry(i),
    {
        let mut out: Vec<(&str, &[T])> = Vec::new();
        let d = self.dimensions;
        let total = self.embeddings.len();
        let mut i: usize = 0;
        while i < self.ids.len()
            invariant
                self.wf(),
                d == self.dims(),
                total == self.raw_view().len(),
                i <= self.ids@.len(),
                self.ids_view().len() == self.ids@.len(),
                out@.len() == i,
                forall|j: int| 0 <= j < i ==> (#[trigger] out@[j]).0@ == self.ids_view()[j] && out@[j].1@
                    == self.entry(j),
            decreases self.ids@.len() - i,
        {
            proof {
                lemma_slot_order(i as int, self.ids@.len() as int, d as int);
            }
            let start = i * d;
            let slot = slice_subrange(self.embeddings.as_slice(), start, start + d);
            out.push((self.ids[i].as_str(), slot));
            i = i + 1;
        }
        out
    }

    /// Removes every entry.
    pub fn clear(&mut self)
        requires
            old(self).wf(),
        ensures
            final(self).wf(),
            final(self).dims() == old(self).dims(),
            final(self).ids_view().len() == 0,
            final(self).raw_view().len() == 0,
    {
        self.ids.clear();
        self.embeddings.clear();
        assert(self.ids_view() =~= Seq::<Seq<char>>::empty());
    }
}

impl<T: Copy> VectorStorage<T> {
    /// Stores an embedding for the id: an existing id keeps its slot and has
    /// it overwritten; a new id is appended. The embedding must have the
    /// storage's dimension.
    pub fn insert(&mut self, id: &str, embedding: &[T])
        requires
            old(self).wf(),
            embedding@.len() == old(self).dims(),
        ensures
            final(self).wf(),
            final(self).dims() == old(self).dims(),
            final(self).state() == inserted(old(self).state(), id@, embedding@),
            !old(self).ids_view().contains(id@) ==> final(self).raw_view() == old(self).raw_view() + embedding@,
            final(self).lookup(id@) == Some(embedding@),
            forall|other: Seq<char>| other != id@ ==> #[trigger] final(self).lookup(other) == old(self).lookup(other),
    {
        let ghost old_ids = self.ids_view();
        let ghost old_entries = self.entries();
        let ghost old_raw = self.embeddings@;
        let d = self.dimensions;
        let total = self.embeddings.len();
        let ghost n = self.ids@.len() as int;
        match self.find(id) {
            Some(k) => {
                proof {
                    lemma_slot_order(k as int, n, d as int);
                    lemma_index_of_unique(old_ids, k as int);
                }
                assert(k * d + d <= total);
                let start = k * d;
                let mut j: usize = 0;
                while j < d
                    invariant
                        self.ids@ == old(self).ids@,
                        self.dimensions == d,
                        self.embeddings@.len() == old_raw.len(),
                        total == old_raw.len(),
                        start + d <= old_raw.len(),
                        j <= d,
                        embedding@.len() == d,
                        forall|x: int| 0 <= x < old_raw.len() ==> #[trigger] self.embeddings@[x] == (if start <= x
                            < start + j {
                            embedding@[x - start]
                        } else {
                            old_raw[x]
                        }),
                    decreases d - j,
                {
                    self.embeddings.set(start + j, embedding[j]);
                    j = j + 1;
                }
                proof {
                    assert forall|i: int| 0 <= i < n implies #[trigger] self.entry(i) == old_entries.update(
                        k as int,
                        embedding@,
                    )[i] by {
                        if i == k {
                            assert(self.entry(i) =~= embedding@);
                        } else {
                            lemma_slots_disjoint(i, k as int, d as int);
                            lemma_slot_order(i, n, d as int);
                            assert(self.entry(i) =~= old_raw.subrange(i * d, i * d + d));
                        }
                    }
                    assert(self.entries() =~= old_entries.update(k as int, embedding@));
                }
            },
            None => {
                self.ids.push(id.to_owned());
                let ghost ids_after = self.ids@;
                let mut j: usize = 0;
                while j < d
                    invariant
                        self.ids@ == ids_after,
                        self.dimensions == d,
                        self.embeddings@.len() == old_raw.len() + j,
                        j <= d,
                        embedding@.len() == d,
                        self.embeddings@ == old_raw + embedding@.take(j as int),
                    decreases d - j,
                {
                    self.embeddings.push(embedding[j]);
                    j = j + 1;
                    assert(self.embeddings@ =~= old_raw + embedding@.take(j as int));
                }
                proof {
                    assert(embedding@.take(d as int) =~= embedding@);
                    assert(self.ids_view() =~= old_ids.push(id@));
                    lemma_next_slot(n, d as int);
                    assert forall|i: int| 0 <= i < n + 1 implies #[trigger] self.entry(i) == old_entries.push(
                        embedding@,
                    )[i] by {
                        if i == n {
                            assert(self.entry(i) =~= embedding@);
                        } else {
                            lemma_slot_order(i, n, d as int);
                            assert(self.entry(i) =~= old_raw.subrange(i * d, i * d + d));
                        }
                    }
                    assert(self.entries() =~= old_entries.push(embedding@));
                }
            },
        }
        proof {
            assert forall|other: Seq<char>| #[trigger] self.lookup(other) == (if other == id@ {
                Some(embedding@)
            } else {
                lookup_in(old_ids, old_entries, other)
            }) by {
                lemma_lookup_inserted(old_ids, old_entries, id@, embedding@, other);
            }
            lemma_lookup_inserted(old_ids, old_entries, id@, embedding@, id@);
        }
    }

    /// Inserts each entry of the batch in turn. Every embedding must have
    /// the storage's dimension.
    pub fn insert_batch(&mut self, entries: &[(&str, &[T])])
        requires
            old(self).wf(),
            forall|i: int| 0 <= i < entries@.len() ==> (#[trigger] entries@[i]).1@.len() == old(self).dims(),
        ensures
            final(self).wf(),
            final(self).dims() == old(self).dims(),
            final(self).state() == batch_inserted(old(self).state(), batch_view(entries@)),
    {
        let mut i: usize = 0;
        while i < entries.len()
            invariant
                self.wf(),
                self.dims() == old(self).dims(),
                i <= entries@.len(),
                forall|x: int| 0 <= x < entries@.len() ==> (#[trigger] entries@[x]).1@.len() == old(self).dims(),
                self.state() == batch_inserted(old(self).state(), batch_view(entries@.take(i as int))),
            decreases entries@.len() - i,
        {
            let (id, e) = entries[i];
            self.insert(id, e);
            proof {
                assert(batch_view(entries@.take(i + 1)).drop_last() =~= batch_view(entries@.take(i as int)));
                assert(batch_view(entries@.take(i + 1)).last() == (id@, e@));
            }
            i = i + 1;
        }
        assert(entries@.take(entries@.len() as int) =~= entries@);
    }

    /// Removes the id's entry, if any; the last entry moves into its slot.
    /// Returns whether the id was stored.
    pub fn remove(&mut self, id: &str) -> (r: bool)
        requires
            old(self).wf(),
        ensures
            final(self).wf(),
            final(self).dims() == old(self).dims(),
            r == old(self).ids_view().contains(id@),
            !r ==> final(self).ids_view() == old(self).ids_view() && final(self).raw_view() == old(self).raw_view(),
            r ==> final(self).state() == swap_removed(old(self).state(), old(self).ids_view().index_of(id@)),
            final(self).lookup(id@) is None,
            forall|other: Seq<char>| other != id@ ==> #[trigger] final(self).lookup(other) == old(self).lookup(other),
    {
        let ghost old_ids = self.ids_view();
        let ghost old_entries = self.entries();
        let ghost old_raw = self.embeddings@;
        match self.find(id) {
            None => {
                proof {
                    assert forall|other: Seq<char>| other != id@ implies #[trigger] self.lookup(other) == old(
                        self,
                    ).lookup(other) by {}
                }
                false
            },
            Some(k) => {
                let d = self.dimensions;
                let total = self.embeddings.len();
                let n = self.ids.len();
                let last = n - 1;
                proof {
                    lemma_index_of_unique(old_ids, k as int);
                    lemma_slot_order(last as int, n as int, d as int);
                    lemma_next_slot(last as int, d as int);
                }
                if k != last {
                    proof {
                        lemma_slot_order(k as int, last as int, d as int);
                    }
                    assert(last * d + d <= total);
                    let dst = k * d;
                    let src = last * d;
                    let mut j: usize = 0;
                    while j < d
                        invariant
                            self.ids@ == old(self).ids@,
                            self.dimensions == d,
                            self.embeddings@.len() == old_raw.len(),
                            total == old_raw.len(),
                            dst + d <= src,
                            src + d <= old_raw.len(),
                            j <= d,
                            forall|x: int| 0 <= x < old_raw.len() ==> #[trigger] self.embeddings@[x] == (if dst <= x
                                < dst + j {
                                old_raw[src + (x - dst)]
                            } else {
                                old_raw[x]
                            }),
                        decreases d - j,
                    {
                        let v = self.embeddings[src + j];
                        self.embeddings.set(dst + j, v);
                        j = j + 1;
                    }
                }
                let _ = self.ids.swap_remove(k);
                self.embeddings.truncate(last * d);
                proof {
                    assert(self.ids_view() =~= old_ids.update(k as int, old_ids.last()).drop_last());
                    assert forall|i: int| 0 <= i < last implies #[trigger] self.entry(i) == old_entries.update(
                        k as int,
                        old_entries.last(),
                    ).drop_last()[i] by {
                        lemma_slot_order(i, last as int, d as int);
                        if i == k {
                            assert(self.entry(i) =~= old_raw.subrange(last * d, last * d + d));
                        } else {
                            lemma_slots_disjoint(i, k as int, d as int);
                            assert(self.entry(i) =~= old_raw.subrange(i * d, i * d + d));
                        }
                    }
                    assert(self.entries() =~= old_entries.update(k as int, old_entries.last()).drop_last());
                    assert forall|other: Seq<char>| other != id@ implies #[trigger] self.lookup(other) == old(
                        self,
                    ).lookup(other) by {
                        lemma_lookup_swap_removed(old_ids, old_entries, k as int, other);
                    }
                    lemma_lookup_swap_removed(old_ids, old_entries, k as int, id@);
                }
                true
            },
        }
    }
}

} // verus!
