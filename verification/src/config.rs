//! Configuration types: ACP and MCP connections, tools, loop and prompt
//! settings, and declarative chain definitions.

use vstd::prelude::*;
use std::collections::HashMap;
use crate::values::ValueMap;

verus! {

/// A JSON value (`serde_json::Value`), carried through unchanged.
#[verifier::external_type_specification]
#[verifier::external_body]
pub struct ExJsonValue(serde_json::Value);

/// Permission policy for ACP server connections.
#[derive(Debug, Clone, Copy, PartialEq, Eq, Structural)]
pub enum PermissionPolicy {
    AutoApprove,
    Prompt,
    Deny,
}

/// MCP transport type.
#[derive(Debug, Clone, Copy, PartialEq, Eq, Structural)]
pub enum McpTransport {
    Stdio,
    Http,
}

impl Default for McpTransport {
    fn default() -> (r: Self)
        ensures
            r == McpTransport::Stdio,
    {
        McpTransport::Stdio
    }
}

/// Provider type for chain steps.
#[derive(Debug, Clone, Copy, PartialEq, Eq, Structural)]
pub enum StepProvider {
    Acp,
    Mcp,
    Memory,
}

/// Merge strategy for parallel steps.
#[derive(Debug, Clone, Copy, PartialEq, Eq, Structural)]
pub enum MergeStrategy {
    Concat,
    Keyed,
}

/// ACP server entry configuration.
#[derive(Debug, Clone)]
pub struct AcpServerEntry {
    pub name: String,
    pub command: String,
    pub args: Option<Vec<String>>,
    pub cwd: Option<String>,
    pub env: Option<ValueMap>,
    pub default_agent: Option<String>,
    pub timeout_ms: Option<u64>,
    pub permission_policy: Option<PermissionPolicy>,
}

/// ACP configuration section.
#[derive(Debug, Clone)]
pub struct AcpConfig {
    pub servers: Vec<AcpServerEntry>,
    pub default_server: Option<String>,
    pub default_agent: Option<String>,
}

/// MCP server connection configuration (stdio or HTTP).
#[derive(Debug, Clone)]
pub struct McpServerConnection {
    pub name: String,
    pub transport: McpTransport,
    pub command: Option<String>,
    pub args: Option<Vec<String>>,
    pub env: Option<ValueMap>,
    pub url: Option<String>,
}

/// MCP client configuration.
#[derive(Debug, Clone)]
pub struct McpClientConfig {
    pub servers: Vec<McpServerConnection>,
    pub client_name: Option<String>,
    pub client_version: Option<String>,
}

/// MCP server configuration (built-in server mode).
#[derive(Debug, Clone)]
pub struct McpServerConfig {
    pub enabled: bool,
    pub transport: McpTransport,
    pub name: Option<String>,
    pub version: Option<String>,
}

/// Combined MCP configuration (client + server).
#[derive(Debug, Clone)]
pub struct McpConfig {
    pub client: McpClientConfig,
    pub server: McpServerConfig,
}

/// Tool registry configuration.
#[derive(Debug, Clone, Copy, PartialEq, Eq, Structural)]
pub struct ToolsConfig {
    pub max_output_chars: Option<usize>,
}

/// Agentic loop configuration.
#[derive(Debug, Clone, Copy, PartialEq, Eq, Structural)]
pub struct LoopConfig {
    pub max_turns: Option<u32>,
    pub max_identical_tool_calls: Option<u32>,
    pub auto_compact_chars: Option<usize>,
}

/// Prompts configuration.
#[derive(Debug, Clone)]
pub struct PromptsConfig {
    pub system_prompt: Option<String>,
}

/// Parallel sub-step definition within a parallel config.
#[derive(Debug, Clone)]
pub struct ParallelSubStepDefinition {
    pub name: String,
    pub template: String,
    pub provider: Option<StepProvider>,
    pub agent_id: Option<String>,
    pub server_name: Option<String>,
    pub agent_config: Option<HashMap<String, serde_json::Value>>,
    pub system_prompt: Option<String>,
    pub mcp_server_name: Option<String>,
    pub mcp_tool_name: Option<String>,
    pub mcp_arguments: Option<ValueMap>,
}

/// Parallel execution configuration within a chain step.
#[derive(Debug, Clone)]
pub struct ParallelConfigDefinition {
    pub sub_steps: Vec<ParallelSubStepDefinition>,
    pub merge_strategy: Option<MergeStrategy>,
    pub fail_tolerant: Option<bool>,
    pub concat_separator: Option<String>,
}

/// Chain step definition.
#[derive(Debug, Clone)]
pub struct ChainStepDefinition {
    pub name: String,
    pub template: String,
    pub provider: Option<StepProvider>,
    pub agent_id: Option<String>,
    pub server_name: Option<String>,
    pub agent_config: Option<HashMap<String, serde_json::Value>>,
    pub system_prompt: Option<String>,
    pub input_mapping: Option<ValueMap>,
    pub mcp_server_name: Option<String>,
    pub mcp_tool_name: Option<String>,
    pub mcp_arguments: Option<ValueMap>,
    pub store_to_memory: Option<bool>,
    pub memory_metadata: Option<ValueMap>,
    pub parallel: Option<ParallelConfigDefinition>,
}

/// Chain definition.
#[derive(Debug, Clone)]
pub struct ChainDefinition {
    pub description: Option<String>,
    pub agent_id: Option<String>,
    pub server_name: Option<String>,
    pub initial_values: ValueMap,
    pub steps: Vec<ChainStepDefinition>,
}

/// A single validation problem: where it is and what is wrong.
#[derive(Debug, Clone)]
pub struct ValidationIssue {
    pub path: String,
    pub message: String,
}

} // verus!
