//! The hook registry: six kinds of hooks that intercept and transform
//! pipeline operations, each kept in registration order under an id that a
//! handle can later unregister.
//!
//! | Hook kind           | Chaining of a run                                          |
//! |---------------------|------------------------------------------------------------|
//! | `before`            | chain requests; stop at the first `Blocked`                |
//! | `after`             | chain results (each gets the unchanged request)            |
//! | `validate`          | concatenate all validation messages                        |
//! | `prompt_transform`  | chain prompt strings                                       |
//! | `messages_transform`| chain message arrays                                       |
//! | `compacting`        | chain summaries (each gets the unchanged messages)         |
//!
//! The handlers themselves are supplied by the caller (they are usually
//! asynchronous closures); the registry decides which handlers run, and in
//! which order.

use vstd::prelude::*;
use crate::conversation::ConversationMessage;
use crate::tools::{ToolCallRequest, ToolCallResult};

verus! {

/// Returned by a before-hook to block tool execution.
#[derive(Debug, Clone, PartialEq, Eq)]
pub struct BlockedResult {
    /// Human-readable reason why execution was blocked.
    pub reason: String,
}

/// Result of a before-hook: either continue (possibly with a modified
/// request) or block execution entirely.
#[derive(Debug)]
pub enum BeforeHookResult {
    /// Continue execution with the (possibly modified) request.
    Continue(ToolCallRequest),
    /// Block execution with a reason.
    Blocked(BlockedResult),
}

/// After-hook context passed to each handler.
#[derive(Debug)]
pub struct AfterHookContext {
    pub request: ToolCallRequest,
    pub result: ToolCallResult,
}

/// Validate-hook context passed to each handler.
#[derive(Debug)]
pub struct ValidateHookContext {
    pub request: ToolCallRequest,
    pub result: ToolCallResult,
}

/// Compacting-hook context passed to each handler.
#[derive(Debug)]
pub struct CompactingHookContext {
    pub messages: Vec<ConversationMessage>,
    pub summary: String,
}

/// The six kinds of hooks.
#[derive(Debug, Clone, Copy, PartialEq, Eq, Structural)]
pub enum HookKind {
    Before,
    After,
    Validate,
    PromptTransform,
    MessagesTransform,
    Compacting,
}

/// Names one registered handler, for unregistering it.
#[derive(Debug, Clone, Copy, PartialEq, Eq, Structural)]
pub struct HookHandle {
    pub kind: HookKind,
    pub id: u64,
}

/// The position of the entry registered under `id`, or -1.
pub open spec fn entry_index<H>(s: Seq<(u64, H)>, id: u64) -> int {
    if exists|i: int| 0 <= i < s.len() && s[i].0 == id {
        choose|i: int| 0 <= i < s.len() && s[i].0 == id
    } else {
        -1
    }
}

/// The entries without the one registered under `id`.
pub open spec fn without_id<H>(s: Seq<(u64, H)>, id: u64) -> Seq<(u64, H)> {
    let i = entry_index(s, id);
    if i >= 0 { s.remove(i) } else { s }
}

/// Entries in registration order: their ids strictly increase and stay
/// below the next id to be given.
pub open spec fn entries_wf<H>(s: Seq<(u64, H)>, next_id: u64) -> bool {
    &&& forall|i: int, j: int| 0 <= i < j < s.len() ==> s[i].0 < s[j].0
    &&& forall|i: int| 0 <= i < s.len() ==> s[i].0 < next_id
}

pub(crate) proof fn lemma_index_unique<H>(s: Seq<(u64, H)>, next_id: u64, i: int)
    requires
        entries_wf(s, next_id),
        0 <= i < s.len(),
    ensures
        entry_index(s, s[i].0) == i,
{
    let k = entry_index(s, s[i].0);
    assert(0 <= k < s.len() && s[k].0 == s[i].0);
    if k < i {
        assert(s[k].0 < s[i].0);
    } else if k > i {
        assert(s[i].0 < s[k].0);
    }
}

pub(crate) proof fn lemma_without_keeps_wf<H>(s: Seq<(u64, H)>, next_id: u64, id: u64)
    requires
        entries_wf(s, next_id),
    ensures
        entries_wf(without_id(s, id), next_id),
{
    let i = entry_index(s, id);
    if i >= 0 {
        let r = s.remove(i);
        assert forall|a: int, b: int| 0 <= a < b < r.len() implies r[a].0 < r[b].0 by {
            let a2 = if a < i { a } else { a + 1 };
            let b2 = if b < i { b } else { b + 1 };
            assert(r[a] == s[a2] && r[b] == s[b2]);
        }
        assert forall|a: int| 0 <= a < r.len() implies r[a].0 < next_id by {
            let a2 = if a < i { a } else { a + 1 };
            assert(r[a] == s[a2]);
        }
    }
}

/// Remove the entry registered under `id`, if any.
pub(crate) fn remove_entry<H>(list: &mut Vec<(u64, H)>, id: u64, Ghost(next_id): Ghost<u64>)
    requires
        entries_wf(old(list)@, next_id),
    ensures
        final(list)@ == without_id(old(list)@, id),
        entries_wf(final(list)@, next_id),
{
    proof {
        lemma_without_keeps_wf(list@, next_id, id);
    }
    let mut i: usize = 0;
    while i < list.len()
        invariant
            i <= list.len(),
            list@ == old(list)@,
            entries_wf(list@, next_id),
            forall|j: int| 0 <= j < i ==> list@[j].0 != id,
        decreases list.len() - i,
    {
        if list[i].0 == id {
            proof {
                lemma_index_unique(list@, next_id, i as int);
            }
            let _ = list.remove(i);
            return;
        }
        i += 1;
    }
    assert(!(exists|k: int| 0 <= k < old(list)@.len() && old(list)@[k].0 == id));
}

/// The registered hooks of each kind, in registration order, with the
/// counter that gives each registration its id.
pub struct HookSystem<B, A, V, P, M, C> {
    next_id: u64,
    before: Vec<(u64, B)>,
    after: Vec<(u64, A)>,
    validate: Vec<(u64, V)>,
    prompt_transform: Vec<(u64, P)>,
    messages_transform: Vec<(u64, M)>,
    compacting: Vec<(u64, C)>,
}

/// What a hook system holds: its counter and its six entry lists.
pub struct HookLists<B, A, V, P, M, C> {
    pub next_id: u64,
    pub before: Seq<(u64, B)>,
    pub after: Seq<(u64, A)>,
    pub validate: Seq<(u64, V)>,
    pub prompt_transform: Seq<(u64, P)>,
    pub messages_transform: Seq<(u64, M)>,
    pub compacting: Seq<(u64, C)>,
}

impl<B, A, V, P, M, C> HookLists<B, A, V, P, M, C> {
    /// Every list is in registration order under the counter.
    pub open spec fn wf(self) -> bool {
        &&& entries_wf(self.before, self.next_id)
        &&& entries_wf(self.after, self.next_id)
        &&& entries_wf(self.validate, self.next_id)
        &&& entries_wf(self.prompt_transform, self.next_id)
        &&& entries_wf(self.messages_transform, self.next_id)
        &&& entries_wf(self.compacting, self.next_id)
    }

    /// The lists without the handler that `h` names.
    pub open spec fn unregistered(self, h: HookHandle) -> Self {
        HookLists {
            next_id: self.next_id,
            before: if h.kind == HookKind::Before { without_id(self.before, h.id) } else { self.before },
            after: if h.kind == HookKind::After { without_id(self.after, h.id) } else { self.after },
            validate: if h.kind == HookKind::Validate { without_id(self.validate, h.id) } else { self.validate },
            prompt_transform: if h.kind == HookKind::PromptTransform {
                without_id(self.prompt_transform, h.id)
            } else {
                self.prompt_transform
            },
            messages_transform: if h.kind == HookKind::MessagesTransform {
                without_id(self.messages_transform, h.id)
            } else {
                self.messages_transform
            },
            compacting: if h.kind == HookKind::Compacting {
                without_id(self.compacting, h.id)
            } else {
                self.compacting
            },
        }
    }

    /// The lists after a before-hook is registered.
    pub open spec fn with_before(self, handler: B) -> Self {
        HookLists { next_id: (self.next_id + 1) as u64, before: self.before.push((self.next_id, handler)), ..self }
    }

    /// The lists after an after-hook is registered.
    pub open spec fn with_after(self, handler: A) -> Self {
        HookLists { next_id: (self.next_id + 1) as u64, after: self.after.push((self.next_id, handler)), ..self }
    }

    /// The lists after a validate-hook is registered.
    pub open spec fn with_validate(self, handler: V) -> Self {
        HookLists {
            next_id: (self.next_id + 1) as u64,
            validate: self.validate.push((self.next_id, handler)),
            ..self
        }
    }

    /// The lists after a prompt-transform hook is registered.
    pub open spec fn with_prompt_transform(self, handler: P) -> Self {
        HookLists {
            next_id: (self.next_id + 1) as u64,
            prompt_transform: self.prompt_transform.push((self.next_id, handler)),
            ..self
        }
    }

    /// The lists after a messages-transform hook is registered.
    pub open spec fn with_messages_transform(self, handler: M) -> Self {
        HookLists {
            next_id: (self.next_id + 1) as u64,
            messages_transform: self.messages_transform.push((self.next_id, handler)),
            ..self
        }
    }

    /// The lists after a compacting hook is registered.
    pub open spec fn with_compacting(self, handler: C) -> Self {
        HookLists {
            next_id: (self.next_id + 1) as u64,
            compacting: self.compacting.push((self.next_id, handler)),
            ..self
        }
    }

    /// The lists with every hook removed and the counter kept.
    pub open spec fn cleared(self) -> Self {
        HookLists {
            next_id: self.next_id,
            before: Seq::empty(),
            after: Seq::empty(),
            validate: Seq::empty(),
            prompt_transform: Seq::empty(),
            messages_transform: Seq::empty(),
            compacting: Seq::empty(),
        }
    }
}

impl<B, A, V, P, M, C> View for HookSystem<B, A, V, P, M, C> {
    type V = HookLists<B, A, V, P, M, C>;

    closed spec fn view(&self) -> HookLists<B, A, V, P, M, C> {
        HookLists {
            next_id: self.next_id,
            before: self.before@,
            after: self.after@,
            validate: self.validate@,
            prompt_transform: self.prompt_transform@,
            messages_transform: self.messages_transform@,
            compacting: self.compacting@,
        }
    }
}

pub(crate) proof fn lemma_push_keeps_wf<H>(s: Seq<(u64, H)>, next_id: u64, handler: H)
    requires
        entries_wf(s, next_id),
        next_id < u64::MAX,
    ensures
        entries_wf(s.push((next_id, handler)), (next_id + 1) as u64),
{
}

proof fn lemma_bump_keeps_wf<H>(s: Seq<(u64, H)>, next_id: u64)
    requires
        entries_wf(s, next_id),
        next_id < u64::MAX,
    ensures
        entries_wf(s, (next_id + 1) as u64),
{
}

impl<B, A, V, P, M, C> HookSystem<B, A, V, P, M, C> {
    /// Whether another handler can be given an id.
    pub open spec fn can_register_spec(&self) -> bool {
        self@.next_id < u64::MAX
    }

    /// Create a new, empty hook system.
    pub fn new() -> (r: Self)
        ensures
            r@ == (HookLists::<B, A, V, P, M, C> {
                next_id: 0,
                before: Seq::empty(),
                after: Seq::empty(),
                validate: Seq::empty(),
                prompt_transform: Seq::empty(),
                messages_transform: Seq::empty(),
                compacting: Seq::empty(),
            }),
            r@.wf(),
    {
        HookSystem {
            next_id: 0,
            before: Vec::new(),
            after: Vec::new(),
            validate: Vec::new(),
            prompt_transform: Vec::new(),
            messages_transform: Vec::new(),
            compacting: Vec::new(),
        }
    }

    /// Whether another handler can be given an id (the counter is not
    /// exhausted).
    pub fn can_register(&self) -> (r: bool)
        ensures
            r == self.can_register_spec(),
    {
        self.next_id < u64::MAX
    }

    proof fn lemma_bump_all(l: HookLists<B, A, V, P, M, C>)
        requires
            l.wf(),
            l.next_id < u64::MAX,
        ensures
            entries_wf(l.before, (l.next_id + 1) as u64),
            entries_wf(l.after, (l.next_id + 1) as u64),
            entries_wf(l.validate, (l.next_id + 1) as u64),
            entries_wf(l.prompt_transform, (l.next_id + 1) as u64),
            entries_wf(l.messages_transform, (l.next_id + 1) as u64),
            entries_wf(l.compacting, (l.next_id + 1) as u64),
    {
        lemma_bump_keeps_wf(l.before, l.next_id);
        lemma_bump_keeps_wf(l.after, l.next_id);
        lemma_bump_keeps_wf(l.validate, l.next_id);
        lemma_bump_keeps_wf(l.prompt_transform, l.next_id);
        lemma_bump_keeps_wf(l.messages_transform, l.next_id);
        lemma_bump_keeps_wf(l.compacting, l.next_id);
    }

    /// Register a before-hook; before-hooks run in registration order and
    /// the chain stops at the first one that blocks.
    pub fn register_before(&mut self, handler: B) -> (h: HookHandle)
        requires
            old(self)@.wf(),
            old(self).can_register_spec(),
        ensures
            final(self)@ == old(self)@.with_before(handler),
            final(self)@.wf(),
            h == (HookHandle { kind: HookKind::Before, id: old(self)@.next_id }),
    {
        proof {
            Self::lemma_bump_all(self@);
            lemma_push_keeps_wf(self.before@, self.next_id, handler);
        }
        let id = self.next_id;
        self.before.push((id, handler));
        self.next_id = id + 1;
        HookHandle { kind: HookKind::Before, id }
    }

    /// Register an after-hook that transforms tool results.
    pub fn register_after(&mut self, handler: A) -> (h: HookHandle)
        requires
            old(self)@.wf(),
            old(self).can_register_spec(),
        ensures
            final(self)@ == old(self)@.with_after(handler),
            final(self)@.wf(),
            h == (HookHandle { kind: HookKind::After, id: old(self)@.next_id }),
    {
        proof {
            Self::lemma_bump_all(self@);
            lemma_push_keeps_wf(self.after@, self.next_id, handler);
        }
        let id = self.next_id;
        self.after.push((id, handler));
        self.next_id = id + 1;
        HookHandle { kind: HookKind::After, id }
    }

    /// Register a validate-hook that checks tool results.
    pub fn register_validate(&mut self, handler: V) -> (h: HookHandle)
        requires
            old(self)@.wf(),
            old(self).can_register_spec(),
        ensures
            final(self)@ == old(self)@.with_validate(handler),
            final(self)@.wf(),
            h == (HookHandle { kind: HookKind::Validate, id: old(self)@.next_id }),
    {
        proof {
            Self::lemma_bump_all(self@);
            lemma_push_keeps_wf(self.validate@, self.next_id, handler);
        }
        let id = self.next_id;
        self.validate.push((id, handler));
        self.next_id = id + 1;
        HookHandle { kind: HookKind::Validate, id }
    }

    /// Register a prompt-transform hook that modifies system prompts.
    pub fn register_prompt_transform(&mut self, handler: P) -> (h: HookHandle)
        requires
            old(self)@.wf(),
            old(self).can_register_spec(),
        ensures
            final(self)@ == old(self)@.with_prompt_transform(handler),
            final(self)@.wf(),
            h == (HookHandle { kind: HookKind::PromptTransform, id: old(self)@.next_id }),
    {
        proof {
            Self::lemma_bump_all(self@);
            lemma_push_keeps_wf(self.prompt_transform@, self.next_id, handler);
        }
        let id = self.next_id;
        self.prompt_transform.push((id, handler));
        self.next_id = id + 1;
        HookHandle { kind: HookKind::PromptTransform, id }
    }

    /// Register a messages-transform hook that modifies conversation
    /// messages.
    pub fn register_messages_transform(&mut self, handler: M) -> (h: HookHandle)
        requires
            old(self)@.wf(),
            old(self).can_register_spec(),
        ensures
            final(self)@ == old(self)@.with_messages_transform(handler),
            final(self)@.wf(),
            h == (HookHandle { kind: HookKind::MessagesTransform, id: old(self)@.next_id }),
    {
        proof {
            Self::lemma_bump_all(self@);
            lemma_push_keeps_wf(self.messages_transform@, self.next_id, handler);
        }
        let id = self.next_id;
        self.messages_transform.push((id, handler));
        self.next_id = id + 1;
        HookHandle { kind: HookKind::MessagesTransform, id }
    }

    /// Register a compacting hook that transforms compaction summaries.
    pub fn register_compacting(&mut self, handler: C) -> (h: HookHandle)
        requires
            old(self)@.wf(),
            old(self).can_register_spec(),
        ensures
            final(self)@ == old(self)@.with_compacting(handler),
            final(self)@.wf(),
            h == (HookHandle { kind: HookKind::Compacting, id: old(self)@.next_id }),
    {
        proof {
            Self::lemma_bump_all(self@);
            lemma_push_keeps_wf(self.compacting@, self.next_id, handler);
        }
        let id = self.next_id;
        self.compacting.push((id, handler));
        self.next_id = id + 1;
        HookHandle { kind: HookKind::Compacting, id }
    }

    /// Unregister the handler that `handle` names; a handle whose handler is
    /// gone already changes nothing.
    pub fn unregister(&mut self, handle: HookHandle)
        requires
            old(self)@.wf(),
        ensures
            final(self)@ == old(self)@.unregistered(handle),
            final(self)@.wf(),
    {
        let ghost n = self.next_id;
        match handle.kind {
            HookKind::Before => remove_entry(&mut self.before, handle.id, Ghost(n)),
            HookKind::After => remove_entry(&mut self.after, handle.id, Ghost(n)),
            HookKind::Validate => remove_entry(&mut self.validate, handle.id, Ghost(n)),
            HookKind::PromptTransform => remove_entry(&mut self.prompt_transform, handle.id, Ghost(n)),
            HookKind::MessagesTransform => remove_entry(&mut self.messages_transform, handle.id, Ghost(n)),
            HookKind::Compacting => remove_entry(&mut self.compacting, handle.id, Ghost(n)),
        }
    }

    /// Remove all registered hooks. The id counter is kept, so that a handle
    /// given out before never names a handler registered after.
    pub fn clear(&mut self)
        requires
            old(self)@.wf(),
        ensures
            final(self)@ == old(self)@.cleared(),
            final(self)@.wf(),
    {
        self.before.clear();
        self.after.clear();
        self.validate.clear();
        self.prompt_transform.clear();
        self.messages_transform.clear();
        self.compacting.clear();
    }

    /// The before-hooks with their ids, in the order they run.
    pub fn before_hooks(&self) -> (r: &[(u64, B)])
        ensures
            r@ == self@.before,
    {
        self.before.as_slice()
    }

    /// The after-hooks with their ids, in the order they run.
    pub fn after_hooks(&self) -> (r: &[(u64, A)])
        ensures
            r@ == self@.after,
    {
        self.after.as_slice()
    }

    /// The validate-hooks with their ids, in the order they run.
    pub fn validate_hooks(&self) -> (r: &[(u64, V)])
        ensures
            r@ == self@.validate,
    {
        self.validate.as_slice()
    }

    /// The prompt-transform hooks with their ids, in the order they run.
    pub fn prompt_transform_hooks(&self) -> (r: &[(u64, P)])
        ensures
            r@ == self@.prompt_transform,
    {
        self.prompt_transform.as_slice()
    }

    /// The messages-transform hooks with their ids, in the order they run.
    pub fn messages_transform_hooks(&self) -> (r: &[(u64, M)])
        ensures
            r@ == self@.messages_transform,
    {
        self.messages_transform.as_slice()
    }

    /// The compacting hooks with their ids, in the order they run.
    pub fn compacting_hooks(&self) -> (r: &[(u64, C)])
        ensures
            r@ == self@.compacting,
    {
        self.compacting.as_slice()
    }
}

/// Unregistering with the handle that a registration returned gives back
/// the hooks as they were before it.
pub proof fn law_register_then_unregister<B, A, V, P, M, C>(
    l: HookLists<B, A, V, P, M, C>,
    handler: B,
)
    requires
        l.wf(),
        l.next_id < u64::MAX,
    ensures
        ({
            let after = l.with_before(handler).unregistered(HookHandle { kind: HookKind::Before, id: l.next_id });
            &&& after.before == l.before
            &&& after.after == l.after
            &&& after.validate == l.validate
            &&& after.prompt_transform == l.prompt_transform
            &&& after.messages_transform == l.messages_transform
            &&& after.compacting == l.compacting
        }),
{
    let s = l.before.push((l.next_id, handler));
    assert(entries_wf(s, (l.next_id + 1) as u64));
    lemma_index_unique(s, (l.next_id + 1) as u64, l.before.len() as int);
    assert(s.remove(l.before.len() as int) =~= l.before);
}

/// Removing an id a second time changes nothing: ids occur once.
proof fn lemma_without_twice<H>(s: Seq<(u64, H)>, next_id: u64, id: u64)
    requires
        entries_wf(s, next_id),
    ensures
        without_id(without_id(s, id), id) == without_id(s, id),
{
    let i = entry_index(s, id);
    if i >= 0 {
        assert(0 <= i < s.len() && s[i].0 == id);
        let r = s.remove(i);
        assert(!(exists|k: int| 0 <= k < r.len() && r[k].0 == id)) by {
            if exists|k: int| 0 <= k < r.len() && r[k].0 == id {
                let k = choose|k: int| 0 <= k < r.len() && r[k].0 == id;
                let k2 = if k < i { k } else { k + 1 };
                assert(r[k] == s[k2]);
                assert(k2 != i);
                if k2 < i {
                    assert(s[k2].0 < s[i].0);
                } else {
                    assert(s[i].0 < s[k2].0);
                }
            }
        }
    }
}

/// Unregistering with a handle a second time changes nothing: the handler
/// is gone after the first call, and every other handler stays where it is.
pub proof fn law_unregister_twice_is_once<B, A, V, P, M, C>(l: HookLists<B, A, V, P, M, C>, h: HookHandle)
    requires
        l.wf(),
    ensures
        l.unregistered(h).unregistered(h) == l.unregistered(h),
{
    lemma_without_twice(l.before, l.next_id, h.id);
    lemma_without_twice(l.after, l.next_id, h.id);
    lemma_without_twice(l.validate, l.next_id, h.id);
    lemma_without_twice(l.prompt_transform, l.next_id, h.id);
    lemma_without_twice(l.messages_transform, l.next_id, h.id);
    lemma_without_twice(l.compacting, l.next_id, h.id);
}

/// A handle given out before a registration never removes the handler that
/// registration adds, even after the hooks were cleared in between.
pub proof fn law_old_handle_spares_new_hook<B, A, V, P, M, C>(
    l: HookLists<B, A, V, P, M, C>,
    stale: HookHandle,
    handler: B,
)
    requires
        l.wf(),
        l.next_id < u64::MAX,
        stale.id < l.next_id,
    ensures
        l.with_before(handler).unregistered(stale).before.contains((l.next_id, handler)),
        l.cleared().with_before(handler).unregistered(stale).before == seq![(l.next_id, handler)],
{
    let s = l.before.push((l.next_id, handler));
    let last = l.before.len() as int;
    assert(s[last] == (l.next_id, handler));
    if stale.kind == HookKind::Before {
        let i = entry_index(s, stale.id);
        if i >= 0 {
            assert(s[i].0 == stale.id);
            assert(i != last);
            let r = s.remove(i);
            assert(r[last - 1] == s[last]);
        } else {
            assert(s.contains((l.next_id, handler)));
        }
        let c = seq![(l.next_id, handler)];
        assert(Seq::<(u64, B)>::empty().push((l.next_id, handler)) =~= c);
        assert(!(exists|k: int| 0 <= k < c.len() && c[k].0 == stale.id));
    } else {
        assert(s.contains((l.next_id, handler)));
        assert(Seq::<(u64, B)>::empty().push((l.next_id, handler)) =~= seq![(l.next_id, handler)]);
    }
}

} // verus!
