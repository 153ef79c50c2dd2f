//! Tool calls as the agentic loop sees them: a request parsed from a model
//! response, and the result of executing it.

use vstd::prelude::*;

verus! {

/// A tool call requested by the model. `arguments` holds the call's
/// arguments as serialised JSON text.
#[derive(Debug, Clone)]
pub struct ToolCallRequest {
    pub id: String,
    pub name: String,
    pub arguments: String,
}

/// The outcome of executing a tool call.
#[derive(Debug, Clone)]
pub struct ToolCallResult {
    pub id: String,
    pub name: String,
    pub output: String,
    pub is_error: bool,
    pub duration_ms: Option<u64>,
    pub diff: Option<String>,
}

/// A model response split into its text and the tool calls it requests.
#[derive(Debug, Clone)]
pub struct ParsedResponse {
    pub text: String,
    pub tool_calls: Vec<ToolCallRequest>,
}

/// A response whose tool calls the agent handles itself: the whole text,
/// no calls.
pub fn text_only_response(text: &str) -> (r: ParsedResponse)
    ensures
        r.text@ == text@,
        r.tool_calls@.len() == 0,
{
    ParsedResponse { text: text.to_owned(), tool_calls: Vec::new() }
}

} // verus!
