//! Agent execution data: token usage, tool metrics, results, and which
//! provider backend a step is routed to.

use vstd::prelude::*;

verus! {

/// Token usage statistics from a generation call.
#[derive(Debug, Clone, Copy, PartialEq, Eq, Structural)]
pub struct TokenUsage {
    pub input_tokens: u64,
    pub output_tokens: u64,
    pub total_tokens: u64,
}

/// Metrics about tool calls made during execution.
#[derive(Debug, Clone, Copy, PartialEq, Eq, Structural)]
pub struct ToolMetrics {
    pub calls_made: u32,
    pub calls_failed: u32,
}

/// The raw result produced by executing a single agent call.
#[derive(Debug, Clone)]
pub struct AgentResult {
    pub output: String,
    pub model: Option<String>,
    pub usage: Option<TokenUsage>,
    pub tool_metrics: Option<ToolMetrics>,
}

/// Identifies which provider backend should handle a step.
#[derive(Debug, Clone)]
pub enum ProviderRef {
    /// Route to an ACP agent server.
    Acp { server_name: String },
    /// Route to an MCP tool on a specific server.
    Mcp { server_name: String, tool_name: String },
    /// Route to the library (vector store) for search.
    Library,
}

} // verus!
