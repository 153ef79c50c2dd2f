//! One run of the agentic loop as a state machine.
//!
//! The application drives the run: it starts a turn, asks the model for a
//! response, executes the requested tools and sleeps between retries. Every
//! decision and every change to the conversation and to the recorded turns is
//! made here: whether a turn may start, what is appended to the conversation,
//! when a doom loop is reported, and what the run finally returns.

use vstd::prelude::*;
use crate::agentic_loop::{
    doom_fires, doom_loop_warning, doom_warning_text, tool_result_message, tool_result_text,
    trimmed_calls, AgenticLoopOptions, CallKey, DoomLoopDetector, Message, MessageRole, TokenUsage,
    TurnType,
};
use crate::tools::{ToolCallRequest, ToolCallResult};

verus! {

/// A single turn of the agentic loop.
#[derive(Debug, Clone)]
pub struct LoopTurn {
    pub turn: usize,
    pub turn_type: TurnType,
    pub text: Option<String>,
    pub tool_calls: Vec<ToolCallRequest>,
    pub tool_results: Vec<ToolCallResult>,
    pub duration_ms: u64,
    pub usage: Option<TokenUsage>,
}

/// Result of running the agentic loop.
#[derive(Debug, Clone)]
pub struct AgenticLoopResult {
    pub final_text: String,
    pub turns: Vec<LoopTurn>,
    pub total_turns: usize,
    pub hit_turn_limit: bool,
    pub aborted: bool,
    pub total_duration_ms: u64,
    pub total_usage: Option<TokenUsage>,
}

/// What happens when the loop tries to start a turn.
#[derive(Debug, Clone, Copy, PartialEq, Eq, Structural)]
pub enum TurnStart {
    /// Turn number `n` (1-based) begins.
    Begin(usize),
    /// Cancellation was requested: the run ends, aborted.
    Cancelled,
    /// Every turn has been used: the run ends at the turn limit.
    TurnLimit,
}

/// How a run ended.
#[derive(Debug, Clone, Copy, PartialEq, Eq, Structural)]
pub enum LoopEnd {
    /// The model answered with text and no tool calls.
    Completed,
    /// Cancellation was requested before a turn.
    Cancelled,
    /// The turn limit was reached.
    TurnLimit,
}

/// The text of the last recorded turn, or the empty text.
pub open spec fn last_turn_text(turns: Seq<LoopTurn>) -> Seq<char> {
    if turns.len() == 0 {
        Seq::empty()
    } else {
        match turns.last().text {
            Some(t) => t@,
            None => Seq::empty(),
        }
    }
}

/// The state of one run: the turns started and recorded, the accumulated
/// token usage and the recent tool calls watched for doom loops.
pub struct LoopRun {
    max_turns: usize,
    started: usize,
    turns: Vec<LoopTurn>,
    total_usage: TokenUsage,
    detector: DoomLoopDetector,
}

impl LoopRun {
    pub closed spec fn max_turns_view(&self) -> nat {
        self.max_turns as nat
    }

    /// Number of turns started so far.
    pub closed spec fn started_view(&self) -> nat {
        self.started as nat
    }

    pub closed spec fn turns_view(&self) -> Seq<LoopTurn> {
        self.turns@
    }

    pub closed spec fn usage_view(&self) -> TokenUsage {
        self.total_usage
    }

    /// The recent tool calls the doom-loop detector holds.
    pub closed spec fn calls_view(&self) -> Seq<CallKey> {
        self.detector.recent_view()
    }

    pub closed spec fn max_identical_view(&self) -> nat {
        self.detector.max_view()
    }

    /// A turn was started and is not recorded yet.
    pub open spec fn in_turn(&self) -> bool {
        self.turns_view().len() + 1 == self.started_view()
    }

    /// Every started turn is recorded.
    pub open spec fn between_turns(&self) -> bool {
        self.turns_view().len() == self.started_view()
    }

    /// No more turns than the limit are started, at most one turn is open,
    /// and the recorded turns are numbered 1, 2, ...
    pub open spec fn wf(&self) -> bool {
        &&& self.started_view() <= self.max_turns_view()
        &&& (self.in_turn() || self.between_turns())
        &&& forall|i: int| 0 <= i < self.turns_view().len() ==> #[trigger] self.turns_view()[i].turn == i + 1
    }

    /// A run that has started no turn yet.
    pub fn new(options: &AgenticLoopOptions) -> (r: Self)
        ensures
            r.wf(),
            r.between_turns(),
            r.max_turns_view() == options.max_turns,
            r.started_view() == 0,
            r.turns_view().len() == 0,
            r.usage_view() == (TokenUsage { prompt_tokens: None, completion_tokens: None, total_tokens: None }),
            r.calls_view().len() == 0,
            r.max_identical_view() == options.max_identical_tool_calls,
    {
        LoopRun {
            max_turns: options.max_turns,
            started: 0,
            turns: Vec::new(),
            total_usage: TokenUsage { prompt_tokens: None, completion_tokens: None, total_tokens: None },
            detector: DoomLoopDetector::new(options.max_identical_tool_calls),
        }
    }

    /// Tries to start the next turn: at the turn limit the run ends there;
    /// otherwise a requested cancellation ends it; otherwise the next turn
    /// begins.
    pub fn start_turn(&mut self, cancelled: bool) -> (r: TurnStart)
        requires
            old(self).wf(),
            old(self).between_turns(),
        ensures
            final(self).wf(),
            old(self).started_view() >= old(self).max_turns_view() ==> r == TurnStart::TurnLimit && *final(self) == *old(self),
            old(self).started_view() < old(self).max_turns_view() && cancelled ==> r == TurnStart::Cancelled && *final(self) == *old(self),
            old(self).started_view() < old(self).max_turns_view() && !cancelled ==> {
                &&& r == TurnStart::Begin((old(self).started_view() + 1) as usize)
                &&& final(self).started_view() == old(self).started_view() + 1
                &&& final(self).in_turn()
                &&& final(self).max_turns_view() == old(self).max_turns_view()
                &&& final(self).turns_view() == old(self).turns_view()
                &&& final(self).usage_view() == old(self).usage_view()
                &&& final(self).calls_view() == old(self).calls_view()
                &&& final(self).max_identical_view() == old(self).max_identical_view()
            },
    {
        if self.started >= self.max_turns {
            TurnStart::TurnLimit
        } else if cancelled {
            TurnStart::Cancelled
        } else {
            self.started = self.started + 1;
            TurnStart::Begin(self.started)
        }
    }

    /// The turns recorded so far.
    pub fn turns(&self) -> (r: &[LoopTurn])
        ensures
            r@ == self.turns_view(),
    {
        self.turns.as_slice()
    }

    /// The token usage accumulated so far.
    pub fn total_usage(&self) -> (r: TokenUsage)
        ensures
            r == self.usage_view(),
    {
        self.total_usage
    }

    /// Adds the usage a generation reported, if any, to the total.
    pub fn record_usage(&mut self, usage: &Option<TokenUsage>)
        requires
            match usage {
                Some(u) => old(self).usage_view().accumulate_fits(u),
                None => true,
            },
        ensures
            final(self).usage_view() == (match usage {
                Some(u) => old(self).usage_view().accumulated(u),
                None => old(self).usage_view(),
            }),
            final(self).max_turns_view() == old(self).max_turns_view(),
            final(self).started_view() == old(self).started_view(),
            final(self).turns_view() == old(self).turns_view(),
            final(self).calls_view() == old(self).calls_view(),
            final(self).max_identical_view() == old(self).max_identical_view(),
    {
        match usage {
            Some(u) => self.total_usage.accumulate(u),
            None => {},
        }
    }

    /// The model answered with text and no tool calls: the answer joins the
    /// conversation as an assistant message and the turn is recorded as a
    /// text turn.
    pub fn finish_text_turn(&mut self, messages: &mut Vec<Message>, text: String, usage: Option<TokenUsage>,
        duration_ms: u64)
        requires
            old(self).wf(),
            old(self).in_turn(),
        ensures
            final(self).wf(),
            final(self).between_turns(),
            final(messages)@ == old(messages)@.push(Message { role: MessageRole::Assistant, content: text }),
            final(self).turns_view().len() == old(self).turns_view().len() + 1,
            final(self).turns_view().take(old(self).turns_view().len() as int) == old(self).turns_view(),
            ({
                let t = final(self).turns_view().last();
                &&& t.turn == old(self).started_view()
                &&& t.turn_type == TurnType::Text
                &&& t.text == Some(text)
                &&& t.tool_calls@.len() == 0
                &&& t.tool_results@.len() == 0
                &&& t.duration_ms == duration_ms
                &&& t.usage == usage
            }),
            final(self).started_view() == old(self).started_view(),
            final(self).max_turns_view() == old(self).max_turns_view(),
            final(self).usage_view() == old(self).usage_view(),
            final(self).calls_view() == old(self).calls_view(),
            final(self).max_identical_view() == old(self).max_identical_view(),
    {
        messages.push(Message { role: MessageRole::Assistant, content: text.clone() });
        let turn = LoopTurn {
            turn: self.started,
            turn_type: TurnType::Text,
            text: Some(text),
            tool_calls: Vec::new(),
            tool_results: Vec::new(),
            duration_ms,
            usage,
        };
        self.turns.push(turn);
        assert(self.turns@.take(old(self).turns@.len() as int) =~= old(self).turns@);
    }

    /// The model asked for tools: its response joins the conversation as an
    /// assistant message, once, before any tool runs.
    pub fn open_tool_turn(&self, messages: &mut Vec<Message>, response_text: &str)
        requires
            self.wf(),
            self.in_turn(),
        ensures
            final(messages)@.len() == old(messages)@.len() + 1,
            final(messages)@.take(old(messages)@.len() as int) == old(messages)@,
            final(messages)@.last().role == MessageRole::Assistant,
            final(messages)@.last().content@ == response_text@,
    {
        messages.push(Message { role: MessageRole::Assistant, content: response_text.to_owned() });
        assert(messages@.take(old(messages)@.len() as int) =~= old(messages)@);
    }

    /// Before a tool call runs: records it for doom-loop detection, and when
    /// it completes a run of identical calls, injects the warning into the
    /// conversation. Returns whether a doom loop was reported.
    pub fn check_tool_call(&mut self, messages: &mut Vec<Message>, call: &ToolCallRequest) -> (r: bool)
        requires
            old(self).wf(),
            old(self).in_turn(),
        ensures
            final(self).wf(),
            final(self).in_turn(),
            r == doom_fires(old(self).calls_view(), (call.name@, call.arguments@), old(self).max_identical_view()),
            final(self).calls_view() == trimmed_calls(old(self).calls_view(), (call.name@, call.arguments@),
                old(self).max_identical_view()),
            r ==> {
                &&& final(messages)@.len() == old(messages)@.len() + 1
                &&& final(messages)@.take(old(messages)@.len() as int) == old(messages)@
                &&& final(messages)@.last().role == MessageRole::System
                &&& final(messages)@.last().content@ == doom_warning_text(call.name@, old(self).max_identical_view())
            },
            !r ==> final(messages)@ == old(messages)@,
            final(self).started_view() == old(self).started_view(),
            final(self).max_turns_view() == old(self).max_turns_view(),
            final(self).turns_view() == old(self).turns_view(),
            final(self).usage_view() == old(self).usage_view(),
            final(self).max_identical_view() == old(self).max_identical_view(),
    {
        let fired = self.detector.record(call.name.as_str(), call.arguments.as_str());
        if fired {
            let count = self.detector.max_identical();
            messages.push(doom_loop_warning(call.name.as_str(), count));
            assert(messages@.take(old(messages)@.len() as int) =~= old(messages)@);
        }
        fired
    }

    /// After a tool call ran: its result joins the conversation.
    pub fn record_tool_result(&self, messages: &mut Vec<Message>, result: &ToolCallResult)
        requires
            self.wf(),
            self.in_turn(),
        ensures
            final(messages)@.len() == old(messages)@.len() + 1,
            final(messages)@.take(old(messages)@.len() as int) == old(messages)@,
            final(messages)@.last().role == MessageRole::User,
            final(messages)@.last().content@ == tool_result_text(result.name@, result.output@),
    {
        messages.push(tool_result_message(result.name.as_str(), result.output.as_str()));
        assert(messages@.take(old(messages)@.len() as int) =~= old(messages)@);
    }

    /// Every requested tool ran: the turn is recorded as a tool-use turn,
    /// with its text when the response had any.
    pub fn finish_tool_turn(&mut self, text: String, calls: Vec<ToolCallRequest>, results: Vec<ToolCallResult>,
        usage: Option<TokenUsage>, duration_ms: u64)
        requires
            old(self).wf(),
            old(self).in_turn(),
        ensures
            final(self).wf(),
            final(self).between_turns(),
            final(self).turns_view().len() == old(self).turns_view().len() + 1,
            final(self).turns_view().take(old(self).turns_view().len() as int) == old(self).turns_view(),
            ({
                let t = final(self).turns_view().last();
                &&& t.turn == old(self).started_view()
                &&& t.turn_type == TurnType::ToolUse
                &&& t.text == (if text@.len() == 0 { None } else { Some(text) })
                &&& t.tool_calls == calls
                &&& t.tool_results == results
                &&& t.duration_ms == duration_ms
                &&& t.usage == usage
            }),
            final(self).started_view() == old(self).started_view(),
            final(self).max_turns_view() == old(self).max_turns_view(),
            final(self).usage_view() == old(self).usage_view(),
            final(self).calls_view() == old(self).calls_view(),
            final(self).max_identical_view() == old(self).max_identical_view(),
    {
        let t = if text.as_str().is_empty() { None } else { Some(text) };
        let turn = LoopTurn {
            turn: self.started,
            turn_type: TurnType::ToolUse,
            text: t,
            tool_calls: calls,
            tool_results: results,
            duration_ms,
            usage,
        };
        self.turns.push(turn);
        assert(self.turns@.take(old(self).turns@.len() as int) =~= old(self).turns@);
    }

    /// The result of the run: the text of the last turn (empty when there is
    /// none), every recorded turn, whether the turn limit ended the run or a
    /// cancellation did, and the accumulated usage.
    pub fn into_result(self, end: LoopEnd, total_duration_ms: u64) -> (r: AgenticLoopResult)
        requires
            self.wf(),
            self.between_turns(),
            end == LoopEnd::TurnLimit ==> self.started_view() == self.max_turns_view(),
        ensures
            r.final_text@ == last_turn_text(self.turns_view()),
            r.turns@ == self.turns_view(),
            r.total_turns == self.turns_view().len(),
            r.total_turns <= self.max_turns_view(),
            r.hit_turn_limit == (end == LoopEnd::TurnLimit),
            r.aborted == (end == LoopEnd::Cancelled),
            r.total_duration_ms == total_duration_ms,
            r.total_usage == Some(self.usage_view()),
            r.hit_turn_limit ==> r.total_turns == self.max_turns_view(),
    {
        let n = self.turns.len();
        let final_text = if n == 0 {
            String::new()
        } else {
            match &self.turns[n - 1].text {
                Some(t) => t.clone(),
                None => String::new(),
            }
        };
        let usage = self.total_usage;
        AgenticLoopResult {
            final_text,
            turns: self.turns,
            total_turns: n,
            hit_turn_limit: end == LoopEnd::TurnLimit,
            aborted: end == LoopEnd::Cancelled,
            total_duration_ms,
            total_usage: Some(usage),
        }
    }
}

/// Law: whatever the model and the tools answer, a run never records more
/// turns than its limit, and the recorded turns are numbered from 1 without
/// gaps.
pub proof fn law_turns_within_limit(run: LoopRun)
    requires
        run.wf(),
    ensures
        run.turns_view().len() <= run.max_turns_view(),
        forall|i: int| 0 <= i < run.turns_view().len() ==> #[trigger] run.turns_view()[i].turn == i + 1,
{
}

} // verus!
