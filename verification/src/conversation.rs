//! Conversation buffer for multi-turn agentic interactions: accumulates
//! user, assistant and tool-result messages, trims the oldest ones beyond a
//! limit, compacts into a summary, and tracks the context budget.
//!
//! Messages are kept in a persistent vector (`im::Vector`), so that copies
//! of a conversation share their storage.

use vstd::prelude::*;
use std::time::SystemTime;
use crate::text::{decimal, join_seqs, join_strings, views_of};

verus! {

// ---------------------------------------------------------------------------
// Types
// ---------------------------------------------------------------------------

/// Message role within a conversation.
#[derive(Debug, Clone, Copy, PartialEq, Eq, Structural)]
pub enum Role {
    System,
    User,
    Assistant,
    ToolResult,
}

/// A single message in a conversation.
#[derive(Debug, Clone)]
pub struct ConversationMessage {
    pub role: Role,
    pub content: String,
    pub tool_call_id: Option<String>,
    pub tool_name: Option<String>,
    pub timestamp: Option<u64>,
}

/// Options for creating a `Conversation`.
#[derive(Debug, Clone)]
pub struct ConversationOptions {
    /// Initial system prompt.
    pub system_prompt: Option<String>,
    /// Maximum number of non-system messages to keep (0 = unlimited).
    pub max_messages: Option<usize>,
    /// Approximate character budget before compaction is due (default 100,000).
    pub auto_compact_chars: Option<usize>,
    /// Total context window size in tokens.
    pub context_window_tokens: Option<usize>,
}

impl Default for ConversationOptions {
    fn default() -> (r: Self)
        ensures
            r.system_prompt is None,
            r.max_messages is None,
            r.auto_compact_chars is None,
            r.context_window_tokens is None,
    {
        ConversationOptions { system_prompt: None, max_messages: None, auto_compact_chars: None, context_window_tokens: None }
    }
}

// ---------------------------------------------------------------------------
// The message store
// ---------------------------------------------------------------------------

/// `im::Vector` is held opaquely; its contents are named below.
#[verifier::external_type_specification]
#[verifier::external_body]
#[verifier::reject_recursive_types(A)]
pub struct ExImVector<A>(im::Vector<A>);

/// `Clone` for `im::Vector` (a copy that shares the storage). Nothing is
/// stated of the copy here; no verified function relies on it.
pub assume_specification<A: Clone>[<im::Vector<A> as Clone>::clone](v: &im::Vector<A>) -> im::Vector<A>;

/// The messages a persistent vector holds, in order.
pub uninterp spec fn stored_messages(v: im::Vector<ConversationMessage>) -> Seq<ConversationMessage>;

/// Calls `im::Vector::new`: an empty vector.
#[verifier::external_body]
fn store_new() -> (r: im::Vector<ConversationMessage>)
    ensures
        stored_messages(r) == Seq::<ConversationMessage>::empty(),
{
    im::Vector::new()
}

/// Calls `im::Vector::len`: the number of elements.
#[verifier::external_body]
fn store_len(v: &im::Vector<ConversationMessage>) -> (r: usize)
    ensures
        r == stored_messages(*v).len(),
{
    v.len()
}

/// Calls `im::Vector::push_back`: appends the message.
#[verifier::external_body]
fn store_push_back(v: &mut im::Vector<ConversationMessage>, m: ConversationMessage)
    ensures
        stored_messages(*final(v)) == stored_messages(*old(v)).push(m),
{
    v.push_back(m)
}

/// Calls `im::Vector::skip`: the elements from position `count` on (the
/// call panics beyond the length, which `requires` rules out).
#[verifier::external_body]
fn store_skip(v: &im::Vector<ConversationMessage>, count: usize) -> (r: im::Vector<ConversationMessage>)
    requires
        count <= stored_messages(*v).len(),
    ensures
        stored_messages(r) == stored_messages(*v).skip(count as int),
{
    v.skip(count)
}

/// Calls `im::Vector::get`: the element at a position, `None` beyond the end.
#[verifier::external_body]
fn store_get(v: &im::Vector<ConversationMessage>, i: usize) -> (r: Option<&ConversationMessage>)
    ensures
        i < stored_messages(*v).len() ==> r == Some(&stored_messages(*v)[i as int]),
        i >= stored_messages(*v).len() ==> r is None,
{
    v.get(i)
}

// ---------------------------------------------------------------------------
// The clock
// ---------------------------------------------------------------------------

/// `std::time::SystemTime` is held opaquely.
#[verifier::external_type_specification]
#[verifier::external_body]
pub struct ExSystemTime(SystemTime);

/// Calls `SystemTime::now`. The reading depends on the time of the call, so
/// nothing is stated of it.
#[verifier::external_body]
fn system_time_now() -> SystemTime {
    SystemTime::now()
}

/// Calls `SystemTime::duration_since(UNIX_EPOCH)` and converts the
/// duration to whole milliseconds (0 for a time before the epoch). The
/// value depends on the clock, so nothing is stated of it.
#[verifier::external_body]
fn millis_since_unix_epoch(t: &SystemTime) -> u64 {
    t.duration_since(std::time::UNIX_EPOCH).unwrap_or_default().as_millis() as u64
}

/// The current Unix time in milliseconds.
fn now_millis() -> u64 {
    let t = system_time_now();
    millis_since_unix_epoch(&t)
}

// ---------------------------------------------------------------------------
// Conversation
// ---------------------------------------------------------------------------

/// The messages kept after trimming to at most `max` (0 = unlimited): the
/// newest ones.
pub open spec fn trimmed(messages: Seq<ConversationMessage>, max: nat) -> Seq<ConversationMessage> {
    if max > 0 && messages.len() > max {
        messages.skip(messages.len() - max)
    } else {
        messages
    }
}

/// The messages without the system ones, in order.
pub open spec fn non_system(messages: Seq<ConversationMessage>) -> Seq<ConversationMessage>
    decreases messages.len(),
{
    if messages.len() == 0 {
        Seq::empty()
    } else {
        let prev = non_system(messages.drop_last());
        if messages.last().role == Role::System {
            prev
        } else {
            prev.push(messages.last())
        }
    }
}

/// The UTF-8 length of a text.
pub open spec fn text_bytes(s: Seq<char>) -> nat {
    vstd::utf8::encode_utf8(s).len()
}

/// The UTF-8 length of the contents of the first `n` messages.
pub open spec fn content_bytes(messages: Seq<ConversationMessage>, n: nat) -> nat
    decreases n,
{
    if n == 0 || n > messages.len() {
        0
    } else {
        content_bytes(messages, (n - 1) as nat) + text_bytes(messages[n - 1].content@)
    }
}

/// A conversation buffer that accumulates messages for multi-turn
/// interactions.
#[derive(Debug, Clone)]
pub struct Conversation {
    messages: im::Vector<ConversationMessage>,
    system_prompt: Option<String>,
    max_messages: usize,
    auto_compact_chars: usize,
    context_window_tokens: Option<usize>,
}

/// A message with no tool fields.
pub open spec fn plain_message(role: Role, content: Seq<char>, timestamp: Option<u64>, m: ConversationMessage) -> bool {
    &&& m.role == role
    &&& m.content@ == content
    &&& m.tool_call_id is None
    &&& m.tool_name is None
    &&& m.timestamp == timestamp
}

fn copy_opt_string(o: &Option<String>) -> (r: Option<String>)
    ensures
        r == *o,
{
    match o {
        Some(s) => Some(s.clone()),
        None => None,
    }
}

/// An exact copy of a message.
pub fn copy_message(m: &ConversationMessage) -> (r: ConversationMessage)
    ensures
        r == *m,
{
    ConversationMessage {
        role: m.role,
        content: m.content.clone(),
        tool_call_id: copy_opt_string(&m.tool_call_id),
        tool_name: copy_opt_string(&m.tool_name),
        timestamp: m.timestamp,
    }
}

impl Conversation {
    pub closed spec fn messages_view(&self) -> Seq<ConversationMessage> {
        stored_messages(self.messages)
    }

    pub closed spec fn system_prompt_view(&self) -> Option<Seq<char>> {
        match self.system_prompt {
            Some(p) => Some(p@),
            None => None,
        }
    }

    pub closed spec fn max_messages_view(&self) -> nat {
        self.max_messages as nat
    }

    pub closed spec fn auto_compact_view(&self) -> nat {
        self.auto_compact_chars as nat
    }

    pub closed spec fn window_view(&self) -> Option<usize> {
        self.context_window_tokens
    }

    /// `other` has the same settings as `self`.
    pub open spec fn same_settings(&self, other: &Conversation) -> bool {
        &&& other.system_prompt_view() == self.system_prompt_view()
        &&& other.max_messages_view() == self.max_messages_view()
        &&& other.auto_compact_view() == self.auto_compact_view()
        &&& other.window_view() == self.window_view()
    }

    /// A new conversation: no message; no trimming limit, a budget of
    /// 100,000 characters and no context window unless configured.
    pub fn new(options: Option<ConversationOptions>) -> (r: Self)
        ensures
            r.messages_view().len() == 0,
            r.system_prompt_view() == (match options {
                Some(o) => match o.system_prompt { Some(p) => Some(p@), None => None },
                None => None,
            }),
            r.max_messages_view() == (match options {
                Some(o) => match o.max_messages { Some(m) => m as nat, None => 0 },
                None => 0,
            }),
            r.auto_compact_view() == (match options {
                Some(o) => match o.auto_compact_chars { Some(m) => m as nat, None => 100_000 },
                None => 100_000,
            }),
            r.window_view() == (match options {
                Some(o) => o.context_window_tokens,
                None => None,
            }),
    {
        let opts = match options {
            Some(o) => o,
            None => ConversationOptions::default(),
        };
        Conversation {
            messages: store_new(),
            system_prompt: opts.system_prompt,
            max_messages: match opts.max_messages {
                Some(m) => m,
                None => 0,
            },
            auto_compact_chars: match opts.auto_compact_chars {
                Some(m) => m,
                None => 100_000,
            },
            context_window_tokens: opts.context_window_tokens,
        }
    }

    /// Drops the oldest messages beyond `max_messages` (0 = no limit).
    fn trim_if_needed(self) -> (r: Self)
        ensures
            r.messages_view() == trimmed(self.messages_view(), self.max_messages_view()),
            self.same_settings(&r),
    {
        let n = store_len(&self.messages);
        if self.max_messages > 0 && n > self.max_messages {
            let excess = n - self.max_messages;
            let kept = store_skip(&self.messages, excess);
            Conversation { messages: kept, ..self }
        } else {
            self
        }
    }

    /// Appends a message, then trims.
    pub fn add_message(self, message: ConversationMessage) -> (r: Self)
        ensures
            r.messages_view() == trimmed(self.messages_view().push(message), self.max_messages_view()),
            self.same_settings(&r),
    {
        let mut me = self;
        store_push_back(&mut me.messages, message);
        me.trim_if_needed()
    }

    /// Adds a user message stamped with the current time.
    pub fn add_user(self, content: &str) -> (r: Self)
        ensures
            self.same_settings(&r),
            exists|m: ConversationMessage| plain_message(Role::User, content@, m.timestamp, m) && m.timestamp is Some
                && r.messages_view() == trimmed(self.messages_view().push(m), self.max_messages_view()),
    {
        let m = ConversationMessage {
            role: Role::User,
            content: content.to_owned(),
            tool_call_id: None,
            tool_name: None,
            timestamp: Some(now_millis()),
        };
        let ghost g = m;
        let r = self.add_message(m);
        assert(plain_message(Role::User, content@, g.timestamp, g));
        r
    }

    /// Adds an assistant message stamped with the current time.
    pub fn add_assistant(self, content: &str) -> (r: Self)
        ensures
            self.same_settings(&r),
            exists|m: ConversationMessage| plain_message(Role::Assistant, content@, m.timestamp, m) && m.timestamp is Some
                && r.messages_view() == trimmed(self.messages_view().push(m), self.max_messages_view()),
    {
        let m = ConversationMessage {
            role: Role::Assistant,
            content: content.to_owned(),
            tool_call_id: None,
            tool_name: None,
            timestamp: Some(now_millis()),
        };
        let ghost g = m;
        let r = self.add_message(m);
        assert(plain_message(Role::Assistant, content@, g.timestamp, g));
        r
    }

    /// Adds a tool result stamped with the current time.
    pub fn add_tool_result(self, tool_call_id: &str, tool_name: &str, content: &str) -> (r: Self)
        ensures
            self.same_settings(&r),
            exists|m: ConversationMessage| m.role == Role::ToolResult && m.content@ == content@
                && (m.tool_call_id matches Some(i) && i@ == tool_call_id@)
                && (m.tool_name matches Some(n) && n@ == tool_name@) && m.timestamp is Some
                && r.messages_view() == trimmed(self.messages_view().push(m), self.max_messages_view()),
    {
        let m = ConversationMessage {
            role: Role::ToolResult,
            content: content.to_owned(),
            tool_call_id: Some(tool_call_id.to_owned()),
            tool_name: Some(tool_name.to_owned()),
            timestamp: Some(now_millis()),
        };
        let ghost g = m;
        let r = self.add_message(m);
        assert(g.role == Role::ToolResult && g.content@ == content@
            && (g.tool_call_id matches Some(i) && i@ == tool_call_id@)
            && (g.tool_name matches Some(n) && n@ == tool_name@) && g.timestamp is Some
            && r.messages_view() == trimmed(self.messages_view().push(g), self.max_messages_view()));
        r
    }

    /// Sets the system prompt.
    pub fn set_system_prompt(self, prompt: String) -> (r: Self)
        ensures
            r.messages_view() == self.messages_view(),
            r.system_prompt_view() == Some(prompt@),
            r.max_messages_view() == self.max_messages_view(),
            r.auto_compact_view() == self.auto_compact_view(),
            r.window_view() == self.window_view(),
    {
        Conversation { system_prompt: Some(prompt), ..self }
    }

    /// Removes every message (the system prompt stays).
    pub fn clear(self) -> (r: Self)
        ensures
            r.messages_view().len() == 0,
            self.same_settings(&r),
    {
        Conversation { messages: store_new(), ..self }
    }

    /// Replaces every message with one user message holding the summary.
    pub fn compact(self, summary: &str) -> (r: Self)
        ensures
            self.same_settings(&r),
            r.messages_view().len() == 1,
            r.messages_view()[0].role == Role::User,
            r.messages_view()[0].content@ == "[Conversation summary]\n"@ + summary@,
            r.messages_view()[0].tool_call_id is None,
            r.messages_view()[0].tool_name is None,
            r.messages_view()[0].timestamp is Some,
    {
        let mut content = String::new();
        content.append("[Conversation summary]\n");
        content.append(summary);
        let mut messages = store_new();
        store_push_back(&mut messages, ConversationMessage {
            role: Role::User,
            content,
            tool_call_id: None,
            tool_name: None,
            timestamp: Some(now_millis()),
        });
        Conversation { messages, ..self }
    }

    /// Replaces the messages with the given ones, leaving out system
    /// messages (the system prompt is kept separately).
    pub fn replace_messages(self, new_messages: &[ConversationMessage]) -> (r: Self)
        ensures
            r.messages_view() == non_system(new_messages@),
            self.same_settings(&r),
    {
        let mut messages = store_new();
        let mut i: usize = 0;
        while i < new_messages.len()
            invariant
                i <= new_messages@.len(),
                stored_messages(messages) == non_system(new_messages@.take(i as int)),
            decreases new_messages@.len() - i,
        {
            proof {
                assert(new_messages@.take(i + 1).drop_last() =~= new_messages@.take(i as int));
                assert(new_messages@.take(i + 1).last() == new_messages@[i as int]);
            }
            if new_messages[i].role != Role::System {
                store_push_back(&mut messages, copy_message(&new_messages[i]));
            }
            i = i + 1;
        }
        assert(new_messages@.take(new_messages@.len() as int) =~= new_messages@);
        Conversation { messages, ..self }
    }

    /// Loads messages as they are (restoring a saved state).
    pub fn load_messages(self, msgs: Vec<ConversationMessage>) -> (r: Self)
        ensures
            r.messages_view() == msgs@,
            self.same_settings(&r),
    {
        let mut messages = store_new();
        let ghost all = msgs@;
        let mut rest = msgs;
        let n = rest.len();
        let mut k: usize = 0;
        while k < n
            invariant
                n == all.len(),
                k <= n,
                rest@ == all.skip(k as int),
                stored_messages(messages) == all.take(k as int),
            decreases n - k,
        {
            let m = rest.remove(0);
            assert(m == all[k as int]);
            assert(all.skip(k + 1) =~= all.skip(k as int).drop_first());
            store_push_back(&mut messages, m);
            assert(all.take(k + 1) =~= all.take(k as int).push(all[k as int]));
            k = k + 1;
        }
        assert(all.take(n as int) =~= all);
        Conversation { messages, ..self }
    }

    /// Restores the state parsed from a saved conversation: a non-empty
    /// saved system prompt replaces the current one; the saved messages
    /// replace the current ones, without system messages.
    pub fn restore(self, saved_prompt: Option<String>, saved_messages: Vec<ConversationMessage>) -> (r: Self)
        ensures
            r.messages_view() == non_system(saved_messages@),
            r.system_prompt_view() == (match saved_prompt {
                Some(p) => if p@.len() > 0 { Some(p@) } else { self.system_prompt_view() },
                None => self.system_prompt_view(),
            }),
            r.max_messages_view() == self.max_messages_view(),
            r.auto_compact_view() == self.auto_compact_view(),
            r.window_view() == self.window_view(),
    {
        let me = match saved_prompt {
            Some(p) => if !p.as_str().is_empty() {
                self.set_system_prompt(p)
            } else {
                self
            },
            None => self,
        };
        me.replace_messages(saved_messages.as_slice())
    }

    /// The system prompt, if any.
    pub fn system_prompt(&self) -> (r: Option<&str>)
        ensures
            match r {
                Some(p) => self.system_prompt_view() == Some(p@),
                None => self.system_prompt_view() is None,
            },
    {
        match &self.system_prompt {
            Some(p) => Some(p.as_str()),
            None => None,
        }
    }

    /// The messages (without the system prompt).
    pub fn messages(&self) -> (r: &im::Vector<ConversationMessage>)
        ensures
            stored_messages(*r) == self.messages_view(),
    {
        &self.messages
    }

    /// Every message, with the system prompt first as a system message when
    /// one is set.
    pub fn to_messages(&self) -> (r: Vec<ConversationMessage>)
        ensures
            match self.system_prompt_view() {
                Some(p) => r@.len() == self.messages_view().len() + 1 && plain_message(Role::System, p, None, r@[0])
                    && r@.skip(1) == self.messages_view(),
                None => r@ == self.messages_view(),
            },
    {
        let mut out: Vec<ConversationMessage> = Vec::new();
        match &self.system_prompt {
            Some(p) => out.push(ConversationMessage {
                role: Role::System,
                content: p.clone(),
                tool_call_id: None,
                tool_name: None,
                timestamp: None,
            }),
            None => {},
        }
        let ghost head = out@;
        let n = store_len(&self.messages);
        let mut i: usize = 0;
        while i < n
            invariant
                n == self.messages_view().len(),
                i <= n,
                out@ == head + self.messages_view().take(i as int),
            decreases n - i,
        {
            match store_get(&self.messages, i) {
                Some(m) => out.push(copy_message(m)),
                None => {},
            }
            assert(self.messages_view().take(i + 1) =~= self.messages_view().take(i as int).push(
                self.messages_view()[i as int]));
            i = i + 1;
        }
        assert(self.messages_view().take(n as int) =~= self.messages_view());
        assert(out@.skip(head.len() as int) =~= self.messages_view());
        out
    }

    /// Number of messages (without the system prompt).
    pub fn message_count(&self) -> (r: usize)
        ensures
            r == self.messages_view().len(),
    {
        store_len(&self.messages)
    }

    /// The UTF-8 length of the system prompt and every message.
    pub open spec fn chars_spec(&self) -> nat {
        (match self.system_prompt_view() {
            Some(p) => text_bytes(p),
            None => 0,
        }) + content_bytes(self.messages_view(), self.messages_view().len())
    }

    /// Approximate character count of the conversation: the UTF-8 length of
    /// the system prompt and of every message.
    pub fn estimated_chars(&self) -> (r: usize)
        requires
            self.chars_spec() <= usize::MAX,
        ensures
            r == self.chars_spec(),
    {
        let system_len: usize = match &self.system_prompt {
            Some(p) => p.as_str().len(),
            None => 0,
        };
        let n = store_len(&self.messages);
        let mut total: usize = 0;
        let mut i: usize = 0;
        while i < n
            invariant
                n == self.messages_view().len(),
                i <= n,
                total == content_bytes(self.messages_view(), i as nat),
                system_len + content_bytes(self.messages_view(), n as nat) <= usize::MAX,
            decreases n - i,
        {
            proof {
                lemma_content_bytes_monotone(self.messages_view(), (i + 1) as nat, n as nat);
            }
            match store_get(&self.messages, i) {
                Some(m) => {
                    total = total + m.content.as_str().len();
                },
                None => {},
            }
            i = i + 1;
        }
        system_len + total
    }

    /// Approximate token count: characters / 4, rounded up.
    pub fn estimated_tokens(&self) -> (r: usize)
        requires
            self.chars_spec() <= usize::MAX,
        ensures
            r == (self.chars_spec() + 3) / 4,
    {
        let c = self.estimated_chars();
        c / 4 + if c % 4 == 0 { 0 } else { 1 }
    }

    /// Whether the conversation is over its character budget.
    pub fn needs_compaction(&self) -> (r: bool)
        requires
            self.chars_spec() <= usize::MAX,
        ensures
            r == (self.chars_spec() > self.auto_compact_view()),
    {
        self.estimated_chars() > self.auto_compact_chars
    }

    /// The share of the context window used, in percent, at most 100; 0
    /// without a (non-zero) window.
    pub fn context_usage_percent(&self) -> (r: usize)
        requires
            (self.chars_spec() + 3) / 4 * 100 <= usize::MAX,
        ensures
            r == (match self.window_view() {
                Some(w) => if w > 0 {
                    let p = (self.chars_spec() + 3) / 4 * 100 / (w as nat);
                    if p > 100 { 100 } else { p }
                } else {
                    0
                },
                None => 0,
            }),
    {
        match self.context_window_tokens {
            Some(w) => {
                if w > 0 {
                    let t = self.estimated_tokens();
                    let pct = t * 100 / w;
                    if pct > 100 { 100 } else { pct }
                } else {
                    0
                }
            },
            None => 0,
        }
    }

    /// The conversation as readable text: each message (the system prompt
    /// first) as a role header and its content, separated by blank lines.
    pub fn serialize(&self) -> (r: String)
        ensures
            r@ == join_seqs(self.text_parts(), "\n\n"@),
    {
        let all = self.to_messages();
        let mut parts: Vec<String> = Vec::new();
        let mut i: usize = 0;
        while i < all.len()
            invariant
                i <= all@.len(),
                parts@.len() == i,
                forall|j: int| 0 <= j < i ==> (#[trigger] parts@[j])@ == message_text(all@[j]),
            decreases all@.len() - i,
        {
            parts.push(format_message(&all[i]));
            i = i + 1;
        }
        assert(views_of(parts@) =~= self.text_parts()) by {
            match self.system_prompt_view() {
                Some(pr) => {
                    assert(all@[0].content@ == pr);
                    assert(message_text(all@[0]) == "[System]\n"@ + pr);
                    assert forall|j: int| 1 <= j < all@.len() implies all@[j] == self.messages_view()[j - 1] by {
                        assert(all@.skip(1)[j - 1] == all@[j]);
                    }
                },
                None => {},
            }
        }
        join_strings(parts.as_slice(), "\n\n")
    }

    /// The readable parts of the conversation: the system prompt's, then
    /// each message's.
    pub open spec fn text_parts(&self) -> Seq<Seq<char>> {
        (match self.system_prompt_view() {
            Some(p) => seq!["[System]\n"@ + p],
            None => Seq::empty(),
        }) + self.messages_view().map_values(|m: ConversationMessage| message_text(m))
    }
}

proof fn lemma_content_bytes_monotone(messages: Seq<ConversationMessage>, a: nat, b: nat)
    requires
        a <= b <= messages.len(),
    ensures
        content_bytes(messages, a) <= content_bytes(messages, b),
    decreases b - a,
{
    if a < b {
        lemma_content_bytes_monotone(messages, a, (b - 1) as nat);
    }
}

/// The readable text of a message: `[Role]` and the content on the next
/// line; a tool result is labelled with its tool name, else its call id,
/// else `unknown`.
pub open spec fn message_text(m: ConversationMessage) -> Seq<char> {
    match m.role {
        Role::System => "[System]\n"@ + m.content@,
        Role::User => "[User]\n"@ + m.content@,
        Role::Assistant => "[Assistant]\n"@ + m.content@,
        Role::ToolResult => "[Tool Result: "@ + (match m.tool_name {
            Some(n) => n@,
            None => match m.tool_call_id {
                Some(i) => i@,
                None => "unknown"@,
            },
        }) + "]\n"@ + m.content@,
    }
}

/// Law: a message's text is headed by its role: `[System]`, `[User]`,
/// `[Assistant]` or `[Tool Result: ...]`, then the content on the next line;
/// messages of different roles get different headers.
pub proof fn law_message_text_names_the_role(m: ConversationMessage, other: ConversationMessage)
    ensures
        m.role == Role::System ==> message_text(m) == "[System]\n"@ + m.content@,
        m.role == Role::User ==> message_text(m) == "[User]\n"@ + m.content@,
        m.role == Role::Assistant ==> message_text(m) == "[Assistant]\n"@ + m.content@,
        m.role == Role::ToolResult ==> message_text(m).take(14) == "[Tool Result: "@,
        m.role != other.role ==> message_text(m).take(2) != message_text(other).take(2),
{
    reveal_strlit("[System]\n");
    reveal_strlit("[User]\n");
    reveal_strlit("[Assistant]\n");
    reveal_strlit("[Tool Result: ");
    let t = message_text(m);
    let u = message_text(other);
    assert(t.len() >= 2 && u.len() >= 2);
    assert(t[1] == u[1] ==> m.role == other.role) by {
        if m.role != other.role {
            assert(t[1] != u[1]);
        }
    }
    if m.role != other.role {
        assert(t.take(2)[1] == t[1] && u.take(2)[1] == u[1]);
    }
}

/// The readable text of a message.
pub fn format_message(m: &ConversationMessage) -> (r: String)
    ensures
        r@ == message_text(*m),
{
    let mut s = String::new();
    match m.role {
        Role::System => s.append("[System]\n"),
        Role::User => s.append("[User]\n"),
        Role::Assistant => s.append("[Assistant]\n"),
        Role::ToolResult => {
            s.append("[Tool Result: ");
            match &m.tool_name {
                Some(n) => s.append(n.as_str()),
                None => match &m.tool_call_id {
                    Some(i) => s.append(i.as_str()),
                    None => s.append("unknown"),
                },
            }
            s.append("]\n");
        },
    }
    s.append(m.content.as_str());
    s
}

/// Law: with a limit set, adding a message never leaves more messages than
/// the limit.
pub proof fn law_trim_respects_limit(messages: Seq<ConversationMessage>, m: ConversationMessage, max: nat)
    requires
        max > 0,
    ensures
        trimmed(messages.push(m), max).len() <= max,
        trimmed(messages.push(m), max).last() == m,
{
    let s = messages.push(m);
    if s.len() > max {
        assert(s.skip(s.len() - max).last() == s.last());
    }
}

} // verus!
