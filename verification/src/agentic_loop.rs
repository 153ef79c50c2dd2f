//! Agentic loop building blocks: token usage accounting, conversation
//! messages, cooperative cancellation, transient-failure classification,
//! retry back-off, doom-loop detection and the messages and prompts the loop
//! injects into the conversation.
//!
//! The loop itself alternates model calls, tool calls and sleeps; it runs in
//! the application and takes every decision from the functions here.

use vstd::prelude::*;
use vstd::arithmetic::power2::pow2;
use std::sync::Arc;
use std::sync::atomic::AtomicBool;
use std::sync::atomic::Ordering;
use crate::error::SimseError;
use crate::text::{chars_of, contains_chars, lowercase, seq_contains, str_eq, to_lowercase, push_decimal, decimal};

verus! {

// ---------------------------------------------------------------------------
// Retry config
// ---------------------------------------------------------------------------

/// Retry parameters for stream generation or tool execution.
#[derive(Debug, Clone, Copy)]
pub struct RetryConfig {
    pub max_attempts: usize,
    pub base_delay_ms: u64,
}

impl Default for RetryConfig {
    fn default() -> (r: Self)
        ensures
            r.max_attempts == 2,
            r.base_delay_ms == 500,
    {
        RetryConfig { max_attempts: 2, base_delay_ms: 500 }
    }
}

// ---------------------------------------------------------------------------
// Loop options
// ---------------------------------------------------------------------------

/// Options of an agentic loop run. The event bus that observes a run is held
/// by the application beside these options.
#[derive(Debug, Clone)]
pub struct AgenticLoopOptions {
    /// Maximum turns before the loop stops (default: 10).
    pub max_turns: usize,
    /// Whether to auto-compact the conversation when it grows too large.
    pub auto_compact: bool,
    /// Custom compaction prompt (overrides the default).
    pub compaction_prompt: Option<String>,
    /// Number of identical consecutive tool calls before a doom loop is
    /// reported (default: 3; 0 disables detection).
    pub max_identical_tool_calls: usize,
    /// When true, tool calls are not parsed: the agent handles tools itself.
    pub agent_manages_tools: bool,
    /// Retry config for model generation.
    pub stream_retry: RetryConfig,
    /// Retry config for tool execution.
    pub tool_retry: RetryConfig,
    /// Optional system prompt sent with every generation.
    pub system_prompt: Option<String>,
}

impl Default for AgenticLoopOptions {
    fn default() -> (r: Self)
        ensures
            r.max_turns == 10,
            !r.auto_compact,
            r.compaction_prompt is None,
            r.max_identical_tool_calls == 3,
            !r.agent_manages_tools,
            r.stream_retry.max_attempts == 2,
            r.stream_retry.base_delay_ms == 1000,
            r.tool_retry.max_attempts == 2,
            r.tool_retry.base_delay_ms == 500,
            r.system_prompt is None,
    {
        AgenticLoopOptions {
            max_turns: 10,
            auto_compact: false,
            compaction_prompt: None,
            max_identical_tool_calls: 3,
            agent_manages_tools: false,
            stream_retry: RetryConfig { max_attempts: 2, base_delay_ms: 1000 },
            tool_retry: RetryConfig { max_attempts: 2, base_delay_ms: 500 },
            system_prompt: None,
        }
    }
}

/// The back-off factor `2^attempt`, or `u64::MAX` when the shift overflows.
pub open spec fn backoff_factor(attempt: u32) -> nat {
    if attempt < 64 {
        pow2(attempt as nat)
    } else {
        u64::MAX as nat
    }
}

/// `base * 2^attempt`, saturating at `u64::MAX`.
pub open spec fn retry_delay_spec(base: u64, attempt: u32) -> nat {
    if base * backoff_factor(attempt) > u64::MAX {
        u64::MAX as nat
    } else {
        (base * backoff_factor(attempt)) as nat
    }
}

/// The delay before retry number `attempt`: `base_delay_ms * 2^attempt`,
/// saturating at `u64::MAX`.
pub fn retry_delay_ms(base_delay_ms: u64, attempt: u32) -> (r: u64)
    ensures
        r == retry_delay_spec(base_delay_ms, attempt),
{
    let factor: u64 = if attempt < 64 {
        proof {
            vstd::bits::lemma_u64_pow2_no_overflow(attempt as nat);
            vstd::bits::lemma_u64_shl_is_mul(1, attempt as u64);
        }
        1u64 << (attempt as u64)
    } else {
        u64::MAX
    };
    match base_delay_ms.checked_mul(factor) {
        Some(v) => v,
        None => u64::MAX,
    }
}

/// Whether a failed generation attempt (0-based) is retried: only a
/// transient error with attempts left.
pub fn should_retry_generation(attempt: usize, max_attempts: usize, transient: bool) -> (r: bool)
    ensures
        r == (attempt + 1 < (if max_attempts == 0 { 1 } else { max_attempts }) && transient),
{
    let max = if max_attempts == 0 { 1 } else { max_attempts };
    attempt < max - 1 && transient
}

// ---------------------------------------------------------------------------
// Token usage
// ---------------------------------------------------------------------------

/// Token usage tracking for a single generation or accumulated over the loop.
#[derive(Debug, Clone, Copy, PartialEq, Eq, Structural)]
pub struct TokenUsage {
    pub prompt_tokens: Option<u64>,
    pub completion_tokens: Option<u64>,
    pub total_tokens: Option<u64>,
}

impl Default for TokenUsage {
    fn default() -> (r: Self)
        ensures
            r.prompt_tokens is None,
            r.completion_tokens is None,
            r.total_tokens is None,
    {
        TokenUsage { prompt_tokens: None, completion_tokens: None, total_tokens: None }
    }
}

/// One field of an accumulation: sums when both are present, takes the new
/// value when only it is present, and keeps the old one otherwise.
pub open spec fn add_opt(a: Option<u64>, b: Option<u64>) -> Option<u64> {
    match (a, b) {
        (Some(x), Some(y)) => Some((x + y) as u64),
        (None, Some(y)) => Some(y),
        _ => a,
    }
}

/// Whether summing the two fields stays within `u64`.
pub open spec fn add_opt_fits(a: Option<u64>, b: Option<u64>) -> bool {
    match (a, b) {
        (Some(x), Some(y)) => x + y <= u64::MAX,
        _ => true,
    }
}

fn fits_field(a: Option<u64>, b: Option<u64>) -> (r: bool)
    ensures
        r == add_opt_fits(a, b),
{
    match (a, b) {
        (Some(x), Some(y)) => x <= u64::MAX - y,
        _ => true,
    }
}

fn add_field(a: Option<u64>, b: Option<u64>) -> (r: Option<u64>)
    requires
        add_opt_fits(a, b),
    ensures
        r == add_opt(a, b),
{
    match (a, b) {
        (Some(x), Some(y)) => Some(x + y),
        (None, Some(y)) => Some(y),
        _ => a,
    }
}

impl TokenUsage {
    pub open spec fn accumulate_fits(&self, other: &TokenUsage) -> bool {
        &&& add_opt_fits(self.prompt_tokens, other.prompt_tokens)
        &&& add_opt_fits(self.completion_tokens, other.completion_tokens)
        &&& add_opt_fits(self.total_tokens, other.total_tokens)
    }

    pub open spec fn accumulated(&self, other: &TokenUsage) -> TokenUsage {
        TokenUsage {
            prompt_tokens: add_opt(self.prompt_tokens, other.prompt_tokens),
            completion_tokens: add_opt(self.completion_tokens, other.completion_tokens),
            total_tokens: add_opt(self.total_tokens, other.total_tokens),
        }
    }

    /// Whether merging `other` into this usage keeps every sum within `u64`.
    pub fn can_accumulate(&self, other: &TokenUsage) -> (r: bool)
        ensures
            r == self.accumulate_fits(other),
    {
        fits_field(self.prompt_tokens, other.prompt_tokens) && fits_field(self.completion_tokens, other.completion_tokens)
            && fits_field(self.total_tokens, other.total_tokens)
    }

    /// Merge another usage into this one, summing each field.
    pub fn accumulate(&mut self, other: &TokenUsage)
        requires
            old(self).accumulate_fits(other),
        ensures
            *final(self) == old(self).accumulated(other),
    {
        self.prompt_tokens = add_field(self.prompt_tokens, other.prompt_tokens);
        self.completion_tokens = add_field(self.completion_tokens, other.completion_tokens);
        self.total_tokens = add_field(self.total_tokens, other.total_tokens);
    }
}

/// Law: accumulating an empty usage changes nothing, and accumulating into
/// an empty usage copies the other one.
pub proof fn law_accumulate_identity(u: TokenUsage)
    ensures
        u.accumulated(&TokenUsage { prompt_tokens: None, completion_tokens: None, total_tokens: None }) == u,
        (TokenUsage { prompt_tokens: None, completion_tokens: None, total_tokens: None }).accumulated(&u) == u,
{
}

/// Law: accumulation is associative where the sums fit.
pub proof fn law_accumulate_associative(a: TokenUsage, b: TokenUsage, c: TokenUsage)
    requires
        a.accumulate_fits(&b),
        a.accumulated(&b).accumulate_fits(&c),
        b.accumulate_fits(&c),
        a.accumulate_fits(&b.accumulated(&c)),
    ensures
        a.accumulated(&b).accumulated(&c) == a.accumulated(&b.accumulated(&c)),
{
}

// ---------------------------------------------------------------------------
// Turn and message types
// ---------------------------------------------------------------------------

/// Classifies a loop turn.
#[derive(Debug, Clone, Copy, PartialEq, Eq, Structural)]
pub enum TurnType {
    Text,
    ToolUse,
}

/// Role for a conversation message.
#[derive(Debug, Clone, Copy, PartialEq, Eq, Structural)]
pub enum MessageRole {
    User,
    Assistant,
    System,
}

/// A single message in the conversation fed to the ACP client.
#[derive(Debug, Clone)]
pub struct Message {
    pub role: MessageRole,
    pub content: String,
}

/// Response returned by an ACP client generate call.
#[derive(Debug, Clone)]
pub struct GenerateResponse {
    pub text: String,
    pub usage: Option<TokenUsage>,
}

/// Context pruner for lightweight (no-LLM) compaction: it returns the
/// messages to keep.
pub trait ContextPruner {
    fn prune(&self, messages: &[Message]) -> Vec<Message>;
}

// ---------------------------------------------------------------------------
// CancellationToken
// ---------------------------------------------------------------------------

/// Lightweight cooperative cancellation token; clones share the flag.
#[derive(Clone)]
pub struct CancellationToken {
    cancelled: Arc<AtomicBool>,
}

impl CancellationToken {
    /// A token that is not cancelled.
    pub fn new() -> (r: Self) {
        CancellationToken { cancelled: Arc::new(AtomicBool::new(false)) }
    }

    /// Request cancellation (visible to every clone).
    pub fn cancel(&self) {
        self.cancelled.store(true, Ordering::Release);
    }

    /// Whether cancellation was requested. The flag is shared with other
    /// clones, possibly on other threads, so nothing is promised of the value.
    pub fn is_cancelled(&self) -> bool {
        self.cancelled.load(Ordering::Acquire)
    }
}

impl Default for CancellationToken {
    fn default() -> Self {
        Self::new()
    }
}

// ---------------------------------------------------------------------------
// Transient failures
// ---------------------------------------------------------------------------

/// Checks whether an error is transient and thus suitable for retry.
pub fn is_transient_error(err: &SimseError) -> (r: bool)
    ensures
        r == err.retriable(),
{
    err.is_retriable()
}

/// Whether the lower-cased tool output names a transient failure.
pub open spec fn transient_output_spec(output: Seq<char>) -> bool {
    let lower = lowercase(output);
    ||| seq_contains(lower, "timeout"@)
    ||| seq_contains(lower, "unavailable"@)
    ||| seq_contains(lower, "econnrefused"@)
    ||| seq_contains(lower, "econnreset"@)
    ||| seq_contains(lower, "etimedout"@)
    ||| seq_contains(lower, "socket hang up"@)
    ||| seq_contains(lower, "network"@)
    ||| seq_contains(lower, "503"@)
    ||| seq_contains(lower, "429"@)
}

fn lower_contains(lower: &[char], needle: &str) -> (r: bool)
    ensures
        r == seq_contains(lower@, needle@),
{
    let n = chars_of(needle);
    contains_chars(lower, n.as_slice())
}

/// Heuristic: whether a tool output string indicates a transient failure.
pub fn is_transient_tool_output(output: &str) -> (r: bool)
    ensures
        r == transient_output_spec(output@),
{
    let lower_string = to_lowercase(output);
    let lower = chars_of(lower_string.as_str());
    let l = lower.as_slice();
    lower_contains(l, "timeout")
        || lower_contains(l, "unavailable")
        || lower_contains(l, "econnrefused")
        || lower_contains(l, "econnreset")
        || lower_contains(l, "etimedout")
        || lower_contains(l, "socket hang up")
        || lower_contains(l, "network")
        || lower_contains(l, "503")
        || lower_contains(l, "429")
}

/// Whether a finished tool call (0-based retry `attempt` of `max_attempts`)
/// is executed again: only an error whose output looks transient, with
/// attempts left.
pub fn should_retry_tool(attempt: usize, max_attempts: usize, is_error: bool, output: &str) -> (r: bool)
    ensures
        r == (attempt < (if max_attempts == 0 { 1 } else { max_attempts }) && is_error
            && transient_output_spec(output@)),
{
    let max = if max_attempts == 0 { 1 } else { max_attempts };
    attempt < max && is_error && is_transient_tool_output(output)
}

// ---------------------------------------------------------------------------
// Conversation size and compaction
// ---------------------------------------------------------------------------

/// Number of UTF-8 bytes of a string's characters.
pub open spec fn utf8_len(s: Seq<char>) -> nat {
    vstd::utf8::encode_utf8(s).len()
}

/// Total UTF-8 byte length of the contents of the first `n` messages.
pub open spec fn chars_prefix(messages: Seq<Message>, n: nat) -> nat
    decreases n,
{
    if n == 0 || n > messages.len() {
        0
    } else {
        chars_prefix(messages, (n - 1) as nat) + utf8_len(messages[n - 1].content@)
    }
}

/// Total UTF-8 byte length of all message contents.
pub open spec fn estimate_chars_spec(messages: Seq<Message>) -> nat {
    chars_prefix(messages, messages.len())
}

/// Estimate the character count of the message list (UTF-8 bytes).
pub fn estimate_chars(messages: &[Message]) -> (r: usize)
    requires
        estimate_chars_spec(messages@) <= usize::MAX,
    ensures
        r == estimate_chars_spec(messages@),
{
    let mut total: usize = 0;
    let mut i: usize = 0;
    while i < messages.len()
        invariant
            i <= messages@.len(),
            total == chars_prefix(messages@, i as nat),
            estimate_chars_spec(messages@) <= usize::MAX,
        decreases messages@.len() - i,
    {
        proof {
            lemma_chars_prefix_monotone(messages@, (i + 1) as nat, messages@.len());
        }
        total = total + messages[i].content.as_str().len();
        i = i + 1;
    }
    total
}

proof fn lemma_chars_prefix_monotone(messages: Seq<Message>, a: nat, b: nat)
    requires
        a <= b <= messages.len(),
    ensures
        chars_prefix(messages, a) <= chars_prefix(messages, b),
    decreases b - a,
{
    if a < b {
        lemma_chars_prefix_monotone(messages, a, (b - 1) as nat);
    }
}

/// Conversation size (in UTF-8 bytes) above which the loop compacts.
pub const COMPACTION_THRESHOLD_CHARS: usize = 100_000;

/// Whether the loop compacts a conversation of the given size.
pub fn should_compact(auto_compact: bool, chars: usize) -> (r: bool)
    ensures
        r == (auto_compact && chars > COMPACTION_THRESHOLD_CHARS),
{
    auto_compact && chars > COMPACTION_THRESHOLD_CHARS
}

/// The compaction instructions used when none are configured.
pub const DEFAULT_COMPACTION_PROMPT: &'static str = "Summarize this conversation for continued operation. Preserve:\n1. Goal: The original user request\n2. Progress: What's been accomplished\n3. Current State: Where we are now\n4. Key Decisions: Important choices and rationale\n5. Relevant Files: File paths referenced or modified\n6. Next Steps: What remains to be done\n\nBe concise but complete.";

/// The label a role is rendered with in a compaction transcript.
pub open spec fn role_label(role: MessageRole) -> Seq<char> {
    match role {
        MessageRole::User => "User"@,
        MessageRole::Assistant => "Assistant"@,
        MessageRole::System => "System"@,
    }
}

fn push_role_label(s: &mut String, role: MessageRole)
    ensures
        final(s)@ == old(s)@ + role_label(role),
{
    match role {
        MessageRole::User => s.append("User"),
        MessageRole::Assistant => s.append("Assistant"),
        MessageRole::System => s.append("System"),
    }
}

/// One message of the transcript: `[Role]\ncontent`.
pub open spec fn transcript_entry(m: Message) -> Seq<char> {
    "["@ + role_label(m.role) + "]\n"@ + m.content@
}

/// Law: a transcript entry is headed by the speaker's role: `[User]`,
/// `[Assistant]` or `[System]`, then the content on the next line; messages
/// of different roles get different headers.
pub proof fn law_transcript_entry_names_the_role(m: Message, other: Message)
    ensures
        m.role == MessageRole::User ==> transcript_entry(m) == "[User]\n"@ + m.content@,
        m.role == MessageRole::Assistant ==> transcript_entry(m) == "[Assistant]\n"@ + m.content@,
        m.role == MessageRole::System ==> transcript_entry(m) == "[System]\n"@ + m.content@,
        m.role != other.role ==> role_label(m.role) != role_label(other.role),
{
    reveal_strlit("User");
    reveal_strlit("Assistant");
    reveal_strlit("System");
    reveal_strlit("[");
    reveal_strlit("]\n");
    reveal_strlit("[User]\n");
    reveal_strlit("[Assistant]\n");
    reveal_strlit("[System]\n");
    if m.role == MessageRole::User {
        assert(transcript_entry(m) =~= "[User]\n"@ + m.content@);
    } else if m.role == MessageRole::Assistant {
        assert(transcript_entry(m) =~= "[Assistant]\n"@ + m.content@);
    } else {
        assert(transcript_entry(m) =~= "[System]\n"@ + m.content@);
    }
    if m.role != other.role {
        assert(role_label(m.role).len() != role_label(other.role).len() || role_label(m.role)[0] != role_label(
            other.role,
        )[0]);
    }
}

/// Law: the compaction prompt of a conversation is its first message's
/// entry, each further entry after a blank line, then a `---` rule and the
/// instructions; with one message it is that message's entry, the rule and
/// the instructions.
pub proof fn law_compaction_prompt_shape(messages: Seq<Message>, instructions: Seq<char>)
    ensures
        messages.len() == 1 ==> compaction_prompt_spec(messages, instructions) == transcript_entry(messages[0])
            + "\n\n---\n\n"@ + instructions,
        messages.len() >= 2 ==> compaction_prompt_spec(messages, instructions) == transcript_prefix(messages, (
        messages.len() - 1) as nat) + "\n\n"@ + transcript_entry(messages.last()) + "\n\n---\n\n"@ + instructions,
{
}

/// The transcript of the first `n` messages, entries separated by blank lines.
pub open spec fn transcript_prefix(messages: Seq<Message>, n: nat) -> Seq<char>
    decreases n,
{
    if n == 0 || n > messages.len() {
        Seq::empty()
    } else if n == 1 {
        transcript_entry(messages[0])
    } else {
        transcript_prefix(messages, (n - 1) as nat) + "\n\n"@ + transcript_entry(messages[n - 1])
    }
}

/// The prompt that asks for a summary of the conversation: the transcript,
/// a `---` rule, then the compaction instructions.
pub open spec fn compaction_prompt_spec(messages: Seq<Message>, instructions: Seq<char>) -> Seq<char> {
    transcript_prefix(messages, messages.len()) + "\n\n---\n\n"@ + instructions
}

/// Builds the compaction prompt; `instructions` defaults to
/// [`DEFAULT_COMPACTION_PROMPT`].
pub fn build_compaction_prompt(messages: &[Message], instructions: Option<&str>) -> (r: String)
    ensures
        r@ == compaction_prompt_spec(
            messages@,
            match instructions {
                Some(t) => t@,
                None => DEFAULT_COMPACTION_PROMPT@,
            },
        ),
{
    let mut s = String::new();
    let mut i: usize = 0;
    while i < messages.len()
        invariant
            i <= messages@.len(),
            s@ == transcript_prefix(messages@, i as nat),
        decreases messages@.len() - i,
    {
        if i != 0 {
            s.append("\n\n");
        }
        s.append("[");
        push_role_label(&mut s, messages[i].role);
        s.append("]\n");
        s.append(messages[i].content.as_str());
        i = i + 1;
    }
    s.append("\n\n---\n\n");
    match instructions {
        Some(t) => s.append(t),
        None => s.append(DEFAULT_COMPACTION_PROMPT),
    }
    s
}

/// Adds the context a pre-compaction hook returned, after a blank line.
pub fn with_extra_context(prompt: String, extra: Option<&str>) -> (r: String)
    ensures
        r@ == (match extra {
            Some(e) => prompt@ + "\n\n"@ + e@,
            None => prompt@,
        }),
{
    match extra {
        Some(e) => {
            let mut p = prompt;
            p.append("\n\n");
            p.append(e);
            p
        },
        None => prompt,
    }
}

/// The single message that replaces the conversation after compaction.
pub fn summary_message(summary: &str) -> (r: Message)
    ensures
        r.role == MessageRole::User,
        r.content@ == "[Conversation summary]\n"@ + summary@,
{
    let mut content = String::new();
    content.append("[Conversation summary]\n");
    content.append(summary);
    Message { role: MessageRole::User, content }
}

/// The text that feeds a tool result back to the model.
pub open spec fn tool_result_text(tool_name: Seq<char>, output: Seq<char>) -> Seq<char> {
    "[Tool Result: "@ + tool_name + "]\n"@ + output
}

/// The message that feeds a tool result back to the model.
pub fn tool_result_message(tool_name: &str, output: &str) -> (r: Message)
    ensures
        r.role == MessageRole::User,
        r.content@ == tool_result_text(tool_name@, output@),
{
    let mut content = String::new();
    content.append("[Tool Result: ");
    content.append(tool_name);
    content.append("]\n");
    content.append(output);
    Message { role: MessageRole::User, content }
}

/// The text of the warning injected when a doom loop is detected.
pub open spec fn doom_warning_text(tool_name: Seq<char>, count: nat) -> Seq<char> {
    "WARNING: You have called the tool '"@ + tool_name + "' "@ + decimal(count)
        + " times in a row with identical arguments. This appears to be a loop. Please try a different approach or respond with text."@
}

/// The system warning injected when a doom loop is detected.
pub fn doom_loop_warning(tool_name: &str, count: usize) -> (r: Message)
    ensures
        r.role == MessageRole::System,
        r.content@ == doom_warning_text(tool_name@, count as nat),
{
    let mut content = String::new();
    content.append("WARNING: You have called the tool '");
    content.append(tool_name);
    content.append("' ");
    push_decimal(&mut content, count);
    content.append(" times in a row with identical arguments. This appears to be a loop. Please try a different approach or respond with text.");
    Message { role: MessageRole::System, content }
}

// ---------------------------------------------------------------------------
// Doom loop detection
// ---------------------------------------------------------------------------

/// A recorded tool call: tool name and serialised arguments.
pub type CallKey = (Seq<char>, Seq<char>);

/// The calls after recording `key`, before trimming.
pub open spec fn pushed_calls(recent: Seq<CallKey>, key: CallKey) -> Seq<CallKey> {
    recent.push(key)
}

/// Whether the last `max` recorded calls are all `key` (the newest being `key`).
pub open spec fn doom_fires(recent: Seq<CallKey>, key: CallKey, max: nat) -> bool {
    let pushed = pushed_calls(recent, key);
    &&& max > 0
    &&& pushed.len() >= max
    &&& forall|k: int| pushed.len() - max <= k < pushed.len() ==> #[trigger] pushed[k] == key
}

/// The history kept after recording `key`: at most the last `max` calls
/// (everything when `max` is 0).
pub open spec fn trimmed_calls(recent: Seq<CallKey>, key: CallKey, max: nat) -> Seq<CallKey> {
    let pushed = pushed_calls(recent, key);
    if max > 0 && pushed.len() > max {
        pushed.subrange(pushed.len() - max, pushed.len() as int)
    } else {
        pushed
    }
}

/// Tracks the most recent tool calls and reports a doom loop when the same
/// call repeats `max_identical` times in a row.
pub struct DoomLoopDetector {
    recent: Vec<(String, String)>,
    max_identical: usize,
}

impl DoomLoopDetector {
    pub closed spec fn recent_view(&self) -> Seq<CallKey> {
        self.recent@.map_values(|p: (String, String)| (p.0@, p.1@))
    }

    pub closed spec fn max_view(&self) -> nat {
        self.max_identical as nat
    }

    /// A detector with no history; `max_identical == 0` disables detection.
    pub fn new(max_identical: usize) -> (r: Self)
        ensures
            r.recent_view() == Seq::<CallKey>::empty(),
            r.max_view() == max_identical,
    {
        let r = DoomLoopDetector { recent: Vec::new(), max_identical };
        assert(r.recent_view() =~= Seq::<CallKey>::empty());
        r
    }

    /// The number of identical consecutive calls that is reported.
    pub fn max_identical(&self) -> (r: usize)
        ensures
            r == self.max_view(),
    {
        self.max_identical
    }

    /// Records a call and returns whether it completes a run of
    /// `max_identical` identical consecutive calls.
    pub fn record(&mut self, name: &str, args: &str) -> (r: bool)
        ensures
            final(self).max_view() == old(self).max_view(),
            r == doom_fires(old(self).recent_view(), (name@, args@), old(self).max_view()),
            final(self).recent_view() == trimmed_calls(old(self).recent_view(), (name@, args@), old(self).max_view()),
    {
        let ghost key: CallKey = (name@, args@);
        let ghost before = self.recent_view();
        self.recent.push((name.to_owned(), args.to_owned()));
        let ghost pushed = pushed_calls(before, key);
        assert(self.recent_view() =~= pushed);
        let len = self.recent.len();
        let max = self.max_identical;
        let mut fired = false;
        if max > 0 && len >= max {
            let mut k = len - max;
            let mut same = true;
            while k < len
                invariant
                    len == self.recent@.len(),
                    self.recent_view() == pushed,
                    pushed.len() == len,
                    pushed[len - 1] == key,
                    key == (name@, args@),
                    len - max <= k <= len,
                    same == (forall|m: int| len - max <= m < k ==> #[trigger] pushed[m] == key),
                decreases len - k,
            {
                let e = &self.recent[k];
                let eq0 = str_eq(e.0.as_str(), name);
                let eq1 = str_eq(e.1.as_str(), args);
                let eq = eq0 && eq1;
                assert(pushed[k as int] == (e.0@, e.1@));
                assert(eq0 == (e.0@ == key.0));
                assert(eq1 == (e.1@ == key.1));
                assert(eq == (pushed[k as int] == key));
                if !eq {
                    same = false;
                }
                k = k + 1;
                assert(same == (forall|m: int| len - max <= m < k ==> #[trigger] pushed[m] == key)) by {
                    if !same {
                        if !eq {
                            assert(pushed[k - 1] != key);
                        }
                    }
                }
            }
            fired = same;
        }
        if max > 0 && len > max {
            let drop = len - max;
            let mut kept: Vec<(String, String)> = Vec::new();
            let mut k = drop;
            while k < len
                invariant
                    len == self.recent@.len(),
                    self.recent_view() == pushed,
                    drop <= k <= len,
                    kept@.len() == k - drop,
                    forall|m: int| 0 <= m < kept@.len() ==>
                        (#[trigger] kept@[m]).0@ == pushed[drop + m].0 && kept@[m].1@ == pushed[drop + m].1,
                decreases len - k,
            {
                let e = &self.recent[k];
                assert(pushed[k as int] == (e.0@, e.1@));
                kept.push((e.0.clone(), e.1.clone()));
                k = k + 1;
            }
            self.recent = kept;
            assert(self.recent_view() =~= pushed.subrange(drop as int, len as int));
        }
        fired
    }
}

/// Law: once the last `max - 1` recorded calls are a given call, recording
/// it once more reports a doom loop.
pub proof fn law_repeated_call_fires(recent: Seq<CallKey>, key: CallKey, max: nat)
    requires
        max > 0,
        recent.len() >= max - 1,
        forall|k: int| recent.len() - (max - 1) <= k < recent.len() ==> #[trigger] recent[k] == key,
    ensures
        doom_fires(recent, key, max),
{
    let pushed = pushed_calls(recent, key);
    assert forall|k: int| pushed.len() - max <= k < pushed.len() implies #[trigger] pushed[k] == key by {
        if k < recent.len() {
            assert(pushed[k] == recent[k]);
        }
    }
}

/// Law: with detection enabled, the kept history never exceeds `max` calls.
pub proof fn law_history_bounded(recent: Seq<CallKey>, key: CallKey, max: nat)
    requires
        max > 0,
    ensures
        trimmed_calls(recent, key, max).len() <= max,
{
}

} // verus!
