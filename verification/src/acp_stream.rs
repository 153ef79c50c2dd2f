//! ACP streaming: tool call kinds and statuses reported by an agent, and the
//! decisions of the streaming state machine that relays generation chunks.

use vstd::prelude::*;
use crate::text::{str_eq, chars_of, push_chars};
use crate::json::JsonValue;
use crate::agentic_loop::TokenUsage;

verus! {

/// Kind of tool call action.
#[derive(Debug, Clone, Copy, PartialEq, Eq, Structural)]
pub enum ToolCallKind {
    Read,
    Edit,
    Delete,
    Move,
    Search,
    Execute,
    Think,
    Fetch,
    Other,
}

/// Status of a tool call.
#[derive(Debug, Clone, Copy, PartialEq, Eq, Structural)]
pub enum ToolCallStatus {
    Pending,
    InProgress,
    Completed,
    Failed,
    Cancelled,
}

/// A tool call from a session/update notification.
#[derive(Debug, Clone)]
pub struct ToolCall {
    pub tool_call_id: String,
    pub title: String,
    pub kind: ToolCallKind,
    pub status: ToolCallStatus,
}

/// The kind named by a string; unknown names are `Other`.
pub open spec fn tool_call_kind_spec(s: Seq<char>) -> ToolCallKind {
    if s == "read"@ { ToolCallKind::Read }
    else if s == "edit"@ { ToolCallKind::Edit }
    else if s == "delete"@ { ToolCallKind::Delete }
    else if s == "move"@ { ToolCallKind::Move }
    else if s == "search"@ { ToolCallKind::Search }
    else if s == "execute"@ { ToolCallKind::Execute }
    else if s == "think"@ { ToolCallKind::Think }
    else if s == "fetch"@ { ToolCallKind::Fetch }
    else { ToolCallKind::Other }
}

/// The status named by a string; unknown names are `Pending`.
pub open spec fn tool_call_status_spec(s: Seq<char>) -> ToolCallStatus {
    if s == "pending"@ { ToolCallStatus::Pending }
    else if s == "in_progress"@ { ToolCallStatus::InProgress }
    else if s == "completed"@ { ToolCallStatus::Completed }
    else if s == "failed"@ { ToolCallStatus::Failed }
    else if s == "cancelled"@ { ToolCallStatus::Cancelled }
    else { ToolCallStatus::Pending }
}

/// Parse a string into a [`ToolCallKind`], defaulting to `Other`.
pub fn parse_tool_call_kind(s: &str) -> (r: ToolCallKind)
    ensures
        r == tool_call_kind_spec(s@),
{
    if str_eq(s, "read") { ToolCallKind::Read }
    else if str_eq(s, "edit") { ToolCallKind::Edit }
    else if str_eq(s, "delete") { ToolCallKind::Delete }
    else if str_eq(s, "move") { ToolCallKind::Move }
    else if str_eq(s, "search") { ToolCallKind::Search }
    else if str_eq(s, "execute") { ToolCallKind::Execute }
    else if str_eq(s, "think") { ToolCallKind::Think }
    else if str_eq(s, "fetch") { ToolCallKind::Fetch }
    else { ToolCallKind::Other }
}

/// Parse a string into a [`ToolCallStatus`], defaulting to `Pending`.
pub fn parse_tool_call_status(s: &str) -> (r: ToolCallStatus)
    ensures
        r == tool_call_status_spec(s@),
{
    if str_eq(s, "pending") { ToolCallStatus::Pending }
    else if str_eq(s, "in_progress") { ToolCallStatus::InProgress }
    else if str_eq(s, "completed") { ToolCallStatus::Completed }
    else if str_eq(s, "failed") { ToolCallStatus::Failed }
    else if str_eq(s, "cancelled") { ToolCallStatus::Cancelled }
    else { ToolCallStatus::Pending }
}

/// What the stream does when it is polled.
#[derive(Debug, Clone, Copy, PartialEq, Eq, Structural)]
pub enum PollDecision {
    /// The stream has ended: yield nothing more (and mark it completed).
    End,
    /// The sliding-window timeout fired: yield a synthetic completion and
    /// mark the stream completed.
    TimeOut,
    /// Poll the channel for the next chunk.
    Receive,
}

/// The decision of a poll: a completed or cancelled stream ends; an idle
/// stream times out (unless a permission prompt is active); otherwise the
/// channel is polled.
pub open spec fn poll_decision_spec(completed: bool, cancelled: bool, permission_active: bool,
    idle_nanos: u128, timeout_ms: u64) -> PollDecision {
    if completed || cancelled {
        PollDecision::End
    } else if !permission_active && idle_nanos > timeout_ms * 1_000_000 {
        PollDecision::TimeOut
    } else {
        PollDecision::Receive
    }
}

/// Decide what a poll of the stream does, given the time since the last
/// chunk (in nanoseconds) and the timeout (in milliseconds).
pub fn poll_decision(completed: bool, cancelled: bool, permission_active: bool, idle_nanos: u128,
    timeout_ms: u64) -> (r: PollDecision)
    ensures
        r == poll_decision_spec(completed, cancelled, permission_active, idle_nanos, timeout_ms),
{
    if completed || cancelled {
        PollDecision::End
    } else if !permission_active && idle_nanos > (timeout_ms as u128) * 1_000_000 {
        PollDecision::TimeOut
    } else {
        PollDecision::Receive
    }
}

/// A tool call progress update from a session/update notification.
#[derive(Debug)]
pub struct ToolCallUpdate {
    pub tool_call_id: String,
    pub status: ToolCallStatus,
    pub content: Option<JsonValue>,
}

/// Discriminated union of streaming chunk types.
#[derive(Debug)]
pub enum StreamChunk {
    /// Incremental text delta.
    Delta { text: String },
    /// Stream completed with optional usage.
    Complete { usage: Option<TokenUsage> },
    /// A new tool call started.
    ToolCall { tool_call: ToolCall },
    /// Progress update on an existing tool call.
    ToolCallUpdate { update: ToolCallUpdate },
}

/// What a chunk says, with its texts as character sequences.
pub enum ChunkModel {
    Delta(Seq<char>),
    Complete(Option<TokenUsage>),
    /// Id, title, kind and status of a new tool call.
    ToolCall(Seq<char>, Seq<char>, ToolCallKind, ToolCallStatus),
    /// Id, status and content of a tool call update.
    ToolCallUpdate(Seq<char>, ToolCallStatus, Option<JsonValue>),
}

impl View for StreamChunk {
    type V = ChunkModel;

    open spec fn view(&self) -> ChunkModel {
        match self {
            StreamChunk::Delta { text } => ChunkModel::Delta(text@),
            StreamChunk::Complete { usage } => ChunkModel::Complete(*usage),
            StreamChunk::ToolCall { tool_call } => ChunkModel::ToolCall(
                tool_call.tool_call_id@,
                tool_call.title@,
                tool_call.kind,
                tool_call.status,
            ),
            StreamChunk::ToolCallUpdate { update } => ChunkModel::ToolCallUpdate(
                update.tool_call_id@,
                update.status,
                update.content,
            ),
        }
    }
}

/// The model of an optional chunk.
pub open spec fn chunk_model(c: Option<StreamChunk>) -> Option<ChunkModel> {
    match c {
        Some(x) => Some(x@),
        None => None,
    }
}

/// The string member `key` of `v`, or `default` when it is missing or not
/// a string.
pub open spec fn str_or(v: JsonValue, key: Seq<char>, default: Seq<char>) -> Seq<char> {
    match v.str_field(key) {
        Some(t) => t,
        None => default,
    }
}

/// The text a content block contributes: a block typed `"text"` gives its
/// text, a block of another type gives nothing, and a block without a
/// (string) type gives its text.
pub open spec fn block_text(b: JsonValue) -> Seq<char> {
    match b.str_field("type"@) {
        Some(t) => if t == "text"@ { str_or(b, "text"@, Seq::empty()) } else { Seq::empty() },
        None => str_or(b, "text"@, Seq::empty()),
    }
}

/// The texts of the blocks, concatenated in order.
pub open spec fn blocks_text(bs: Seq<JsonValue>) -> Seq<char>
    decreases bs.len(),
{
    if bs.len() == 0 {
        Seq::empty()
    } else {
        blocks_text(bs.drop_last()) + block_text(bs.last())
    }
}

/// The blocks of a content value: the items of an array, or the value itself.
pub open spec fn content_blocks(c: JsonValue) -> Seq<JsonValue> {
    match c {
        JsonValue::Array(items) => items@,
        _ => seq![c],
    }
}

/// The delta an `agent_message_chunk` update gives: the text of its content
/// blocks, when that is not empty.
pub open spec fn delta_model(update: JsonValue) -> Option<ChunkModel> {
    match update.field("content"@) {
        None => None,
        Some(c) => {
            let t = blocks_text(content_blocks(c));
            if t.len() == 0 { None } else { Some(ChunkModel::Delta(t)) }
        },
    }
}

/// The tool call a `tool_call` update gives, with the defaults for missing
/// fields.
pub open spec fn tool_call_model(update: JsonValue) -> ChunkModel {
    ChunkModel::ToolCall(
        str_or(update, "toolCallId"@, Seq::empty()),
        str_or(update, "title"@, Seq::empty()),
        tool_call_kind_spec(str_or(update, "kind"@, "other"@)),
        tool_call_status_spec(str_or(update, "status"@, "pending"@)),
    )
}

/// The update a `tool_call_update` update gives, with the defaults for
/// missing fields.
pub open spec fn tool_call_update_model(update: JsonValue) -> ChunkModel {
    ChunkModel::ToolCallUpdate(
        str_or(update, "toolCallId"@, Seq::empty()),
        tool_call_status_spec(str_or(update, "status"@, "in_progress"@)),
        update.field("content"@),
    )
}

/// The chunk a `session/update` notification gives, by the type named in
/// `update.sessionUpdate`.
pub open spec fn session_update_model(value: JsonValue) -> Option<ChunkModel> {
    match value.field("update"@) {
        None => None,
        Some(u) => match u.str_field("sessionUpdate"@) {
            None => None,
            Some(t) => if t == "agent_message_chunk"@ {
                delta_model(u)
            } else if t == "tool_call"@ {
                Some(tool_call_model(u))
            } else if t == "tool_call_update"@ {
                Some(tool_call_update_model(u))
            } else {
                None
            },
        },
    }
}

/// The string member `key` of `v` as an owned string, or `default`.
fn owned_str_or(v: &JsonValue, key: &str, default: &str) -> (r: String)
    ensures
        r@ == str_or(*v, key@, default@),
{
    match v.get_str(key) {
        Some(t) => t.to_owned(),
        None => default.to_owned(),
    }
}

/// Append the text a content block contributes.
fn push_block_text(text: &mut String, block: &JsonValue)
    ensures
        final(text)@ == old(text)@ + block_text(*block),
{
    let contributes = match block.get_str("type") {
        Some(t) => str_eq(t, "text"),
        None => true,
    };
    if contributes {
        if let Some(t) = block.get_str("text") {
            let cs = chars_of(t);
            push_chars(text, cs.as_slice());
        } else {
            assert(old(text)@ + Seq::<char>::empty() =~= old(text)@);
        }
    } else {
        assert(old(text)@ + Seq::<char>::empty() =~= old(text)@);
    }
}

/// Extract text content from an `agent_message_chunk` update.
pub fn parse_delta(update: &JsonValue) -> (r: Option<StreamChunk>)
    ensures
        chunk_model(r) == delta_model(*update),
{
    let content = match update.get("content") {
        Some(c) => c,
        None => return None,
    };
    let mut text = String::new();
    match content {
        JsonValue::Array(items) => {
            let mut i: usize = 0;
            while i < items.len()
                invariant
                    i <= items.len(),
                    text@ == blocks_text(items@.subrange(0, i as int)),
                decreases items.len() - i,
            {
                push_block_text(&mut text, &items[i]);
                assert(items@.subrange(0, i + 1).drop_last() =~= items@.subrange(0, i as int));
                i += 1;
            }
            assert(items@.subrange(0, items.len() as int) =~= items@);
            assert(text@ == blocks_text(content_blocks(*content)));
        },
        _ => {
            push_block_text(&mut text, content);
            assert(seq![*content].drop_last() =~= Seq::<JsonValue>::empty());
            assert(blocks_text(Seq::<JsonValue>::empty()) == Seq::<char>::empty());
            assert(Seq::<char>::empty() + block_text(*content) =~= block_text(*content));
            assert(text@ == blocks_text(content_blocks(*content)));
        },
    }
    if text.as_str().is_empty() {
        None
    } else {
        Some(StreamChunk::Delta { text })
    }
}

/// Extract a tool call from a `tool_call` update.
pub fn parse_tool_call(update: &JsonValue) -> (r: Option<StreamChunk>)
    ensures
        chunk_model(r) == Some(tool_call_model(*update)),
{
    let tool_call_id = owned_str_or(update, "toolCallId", "");
    let title = owned_str_or(update, "title", "");
    let kind_name = match update.get_str("kind") {
        Some(k) => k,
        None => "other",
    };
    let status_name = match update.get_str("status") {
        Some(st) => st,
        None => "pending",
    };
    let kind = parse_tool_call_kind(kind_name);
    let status = parse_tool_call_status(status_name);
    proof {
        reveal_strlit("");
    }
    assert(tool_call_id@ == str_or(*update, "toolCallId"@, Seq::empty()));
    assert(title@ == str_or(*update, "title"@, Seq::empty()));
    assert(kind == tool_call_kind_spec(str_or(*update, "kind"@, "other"@)));
    assert(status == tool_call_status_spec(str_or(*update, "status"@, "pending"@)));
    Some(StreamChunk::ToolCall { tool_call: ToolCall { tool_call_id, title, kind, status } })
}

/// Extract a tool call update from a `tool_call_update` update.
pub fn parse_tool_call_update(update: JsonValue) -> (r: Option<StreamChunk>)
    ensures
        chunk_model(r) == Some(tool_call_update_model(update)),
{
    let tool_call_id = owned_str_or(&update, "toolCallId", "");
    let status_name = match update.get_str("status") {
        Some(st) => st,
        None => "in_progress",
    };
    let status = parse_tool_call_status(status_name);
    proof {
        reveal_strlit("");
    }
    assert(tool_call_id@ == str_or(update, "toolCallId"@, Seq::empty()));
    assert(status == tool_call_status_spec(str_or(update, "status"@, "in_progress"@)));
    let content = update.into_field("content");
    Some(StreamChunk::ToolCallUpdate { update: ToolCallUpdate { tool_call_id, status, content } })
}

/// Parse a `session/update` notification into a [`StreamChunk`].
///
/// The notification's `update.sessionUpdate` names the chunk type:
/// `agent_message_chunk` gives a `Delta` (when it carries text),
/// `tool_call` a `ToolCall` and `tool_call_update` a `ToolCallUpdate`;
/// anything else gives nothing. `Complete` chunks are not produced here.
pub fn parse_session_update(value: JsonValue) -> (r: Option<StreamChunk>)
    ensures
        chunk_model(r) == session_update_model(value),
{
    let update = match value.into_field("update") {
        Some(u) => u,
        None => return None,
    };
    let (is_delta, is_call, is_update) = match update.get_str("sessionUpdate") {
        Some(t) => (
            str_eq(t, "agent_message_chunk"),
            str_eq(t, "tool_call"),
            str_eq(t, "tool_call_update"),
        ),
        None => return None,
    };
    if is_delta {
        parse_delta(&update)
    } else if is_call {
        parse_tool_call(&update)
    } else if is_update {
        parse_tool_call_update(update)
    } else {
        None
    }
}

} // verus!
