//! The event bus: handlers subscribe to one event type, or to every event,
//! and a published event reaches its type's handlers in subscription order,
//! then the global handlers in subscription order.

use vstd::prelude::*;
use crate::hooks::{entries_wf, without_id, entry_index, remove_entry, lemma_push_keeps_wf};
use crate::text::str_eq;

verus! {

/// Names one subscription, for unsubscribing it.
#[derive(Debug, Clone, Copy, PartialEq, Eq, Structural)]
pub struct Subscription {
    /// Whether the subscription is to every event.
    pub global: bool,
    pub id: u64,
}

/// The subscriptions of a bus: the counter that gives each subscription its
/// id, the handlers of single event types (with their type), and the global
/// handlers.
pub struct BusLists<H, G> {
    pub next_id: u64,
    pub handlers: Seq<(u64, (String, H))>,
    pub global_handlers: Seq<(u64, G)>,
}

impl<H, G> BusLists<H, G> {
    /// Both lists are in subscription order under the counter.
    pub open spec fn wf(self) -> bool {
        &&& entries_wf(self.handlers, self.next_id)
        &&& entries_wf(self.global_handlers, self.next_id)
    }

    /// The lists without the subscription that `s` names.
    pub open spec fn unsubscribed(self, s: Subscription) -> Self {
        if s.global {
            BusLists { global_handlers: without_id(self.global_handlers, s.id), ..self }
        } else {
            BusLists { handlers: without_id(self.handlers, s.id), ..self }
        }
    }
}

/// A publish/subscribe bus of handlers.
pub struct EventBus<H, G> {
    next_id: u64,
    handlers: Vec<(u64, (String, H))>,
    global_handlers: Vec<(u64, G)>,
}

impl<H, G> View for EventBus<H, G> {
    type V = BusLists<H, G>;

    closed spec fn view(&self) -> BusLists<H, G> {
        BusLists { next_id: self.next_id, handlers: self.handlers@, global_handlers: self.global_handlers@ }
    }
}

/// `r` lists, in increasing order, exactly the positions of the handlers
/// subscribed to `event_type`.
pub open spec fn recipients_of<H>(r: Seq<usize>, s: Seq<(u64, (String, H))>, event_type: Seq<char>) -> bool {
    &&& forall|k: int| 0 <= k < r.len() ==> r[k] < s.len() && (#[trigger] s[r[k] as int]).1.0@ == event_type
    &&& forall|a: int, b: int| 0 <= a < b < r.len() ==> r[a] < r[b]
    &&& forall|j: int| 0 <= j < s.len() && (#[trigger] s[j]).1.0@ == event_type ==> r.contains(j as usize)
}

impl<H, G> EventBus<H, G> {
    /// Create an empty bus.
    pub fn new() -> (r: Self)
        ensures
            r@.next_id == 0,
            r@.handlers.len() == 0,
            r@.global_handlers.len() == 0,
            r@.wf(),
    {
        EventBus { next_id: 0, handlers: Vec::new(), global_handlers: Vec::new() }
    }

    /// Whether another subscription can be given an id.
    pub fn can_subscribe(&self) -> (r: bool)
        ensures
            r == (self@.next_id < u64::MAX),
    {
        self.next_id < u64::MAX
    }

    /// Subscribe `handler` to events of `event_type`.
    pub fn subscribe(&mut self, event_type: &str, handler: H) -> (s: Subscription)
        requires
            old(self)@.wf(),
            old(self)@.next_id < u64::MAX,
        ensures
            final(self)@.handlers.len() == old(self)@.handlers.len() + 1,
            final(self)@.handlers.drop_last() == old(self)@.handlers,
            final(self)@.handlers.last().0 == old(self)@.next_id,
            final(self)@.handlers.last().1.0@ == event_type@,
            final(self)@.handlers.last().1.1 == handler,
            final(self)@.global_handlers == old(self)@.global_handlers,
            final(self)@.next_id == old(self)@.next_id + 1,
            final(self)@.wf(),
            s == (Subscription { global: false, id: old(self)@.next_id }),
    {
        let id = self.next_id;
        let entry = (id, (event_type.to_owned(), handler));
        proof {
            lemma_push_keeps_wf(self.handlers@, id, entry.1);
            assert(entries_wf(self.global_handlers@, (id + 1) as u64));
        }
        self.handlers.push(entry);
        self.next_id = id + 1;
        proof {
            assert(self.handlers@.drop_last() =~= old(self)@.handlers);
        }
        Subscription { global: false, id }
    }

    /// Subscribe `handler` to every event.
    pub fn subscribe_all(&mut self, handler: G) -> (s: Subscription)
        requires
            old(self)@.wf(),
            old(self)@.next_id < u64::MAX,
        ensures
            final(self)@.global_handlers == old(self)@.global_handlers.push((old(self)@.next_id, handler)),
            final(self)@.handlers == old(self)@.handlers,
            final(self)@.next_id == old(self)@.next_id + 1,
            final(self)@.wf(),
            s == (Subscription { global: true, id: old(self)@.next_id }),
    {
        let id = self.next_id;
        proof {
            lemma_push_keeps_wf(self.global_handlers@, id, handler);
            assert(entries_wf(self.handlers@, (id + 1) as u64));
        }
        self.global_handlers.push((id, handler));
        self.next_id = id + 1;
        Subscription { global: true, id }
    }

    /// Remove the subscription that `s` names; one already removed changes
    /// nothing.
    pub fn unsubscribe(&mut self, s: Subscription)
        requires
            old(self)@.wf(),
        ensures
            final(self)@ == old(self)@.unsubscribed(s),
            final(self)@.wf(),
    {
        let ghost n = self.next_id;
        if s.global {
            remove_entry(&mut self.global_handlers, s.id, Ghost(n));
        } else {
            remove_entry(&mut self.handlers, s.id, Ghost(n));
        }
    }

    /// The positions, in subscription order, of the handlers that an event of
    /// `event_type` reaches before the global handlers.
    pub fn recipients(&self, event_type: &str) -> (r: Vec<usize>)
        ensures
            recipients_of(r@, self@.handlers, event_type@),
    {
        let mut r: Vec<usize> = Vec::new();
        let mut i: usize = 0;
        while i < self.handlers.len()
            invariant
                i <= self.handlers.len(),
                forall|k: int| 0 <= k < r.len() ==> #[trigger] r[k] < i,
                forall|k: int| 0 <= k < r.len() ==> (#[trigger] self.handlers@[r[k] as int]).1.0@ == event_type@,
                forall|a: int, b: int| 0 <= a < b < r.len() ==> r[a] < r[b],
                forall|j: int| 0 <= j < i && (#[trigger] self.handlers@[j]).1.0@ == event_type@ ==> r@.contains(j as usize),
            decreases self.handlers.len() - i,
        {
            let ghost before = r@;
            if str_eq(self.handlers[i].1.0.as_str(), event_type) {
                r.push(i);
                assert(r@ == before.push(i));
                assert forall|k: int| 0 <= k < r.len() implies #[trigger] r[k] < i + 1 by {
                    if k < before.len() {
                        assert(r[k] == before[k]);
                    }
                }
                assert forall|j: int| 0 <= j < i + 1 && (#[trigger] self.handlers@[j]).1.0@ == event_type@
                    implies r@.contains(j as usize) by {
                    if j < i {
                        assert(before.contains(j as usize));
                        let w = choose|w: int| 0 <= w < before.len() && before[w] == j as usize;
                        assert(r@[w] == j as usize);
                    } else {
                        assert(r@[r.len() - 1] == i);
                    }
                }
            }
            i += 1;
        }
        r
    }

    /// The handler of the subscription at position `i`.
    pub fn handler_at(&self, i: usize) -> (r: &H)
        requires
            i < self@.handlers.len(),
        ensures
            *r == self@.handlers[i as int].1.1,
    {
        &self.handlers[i].1.1
    }

    /// The global handlers with their ids, in subscription order.
    pub fn global_handlers(&self) -> (r: &[(u64, G)])
        ensures
            r@ == self@.global_handlers,
    {
        self.global_handlers.as_slice()
    }

    /// Remove every subscription; the counter is kept.
    pub fn clear(&mut self)
        requires
            old(self)@.wf(),
        ensures
            final(self)@.handlers.len() == 0,
            final(self)@.global_handlers.len() == 0,
            final(self)@.next_id == old(self)@.next_id,
            final(self)@.wf(),
    {
        self.handlers.clear();
        self.global_handlers.clear();
    }
}

/// After a subscription is removed, no handler under its id is left, so no
/// later event reaches it.
pub proof fn law_unsubscribed_handler_receives_nothing<H, G>(l: BusLists<H, G>, s: Subscription)
    requires
        l.wf(),
    ensures
        s.global ==> forall|j: int| 0 <= j < l.unsubscribed(s).global_handlers.len()
            ==> (#[trigger] l.unsubscribed(s).global_handlers[j]).0 != s.id,
        !s.global ==> forall|j: int| 0 <= j < l.unsubscribed(s).handlers.len()
            ==> (#[trigger] l.unsubscribed(s).handlers[j]).0 != s.id,
{
    if s.global {
        lemma_removed_id_absent(l.global_handlers, l.next_id, s.id);
    } else {
        lemma_removed_id_absent(l.handlers, l.next_id, s.id);
    }
}

proof fn lemma_removed_id_absent<X>(q: Seq<(u64, X)>, next_id: u64, id: u64)
    requires
        entries_wf(q, next_id),
    ensures
        forall|j: int| 0 <= j < without_id(q, id).len() ==> (#[trigger] without_id(q, id)[j]).0 != id,
{
    let i = entry_index(q, id);
    if i >= 0 {
        let r = q.remove(i);
        assert forall|j: int| 0 <= j < r.len() implies (#[trigger] r[j]).0 != id by {
            let j2 = if j < i { j } else { j + 1 };
            assert(r[j] == q[j2]);
            assert(j2 != i);
            if j2 < i {
                assert(q[j2].0 < q[i].0);
            } else {
                assert(q[i].0 < q[j2].0);
            }
        }
    } else {
        assert forall|j: int| 0 <= j < q.len() implies (#[trigger] q[j]).0 != id by {
            if q[j].0 == id {
                assert(exists|k: int| 0 <= k < q.len() && q[k].0 == id);
            }
        }
    }
}

} // verus!
