//! Chain types: provider, step configuration, step results.
//!
//! Steps may carry an output transform and parallel steps a custom merge
//! function; their types are parameters (`T` for the transform, `F` for the
//! merge function) so that any closure type can be stored.

use vstd::prelude::*;
use crate::agent::{TokenUsage, ToolMetrics};
use crate::chain::template::PromptTemplate;
use crate::error::SimseError;
use crate::values::ValueMap;

verus! {

/// Which AI backend a chain step executes against.
#[derive(Debug, Clone, Copy, PartialEq, Eq, Structural)]
pub enum Provider {
    /// Route to an ACP agent server.
    Acp,
    /// Route to an MCP tool on a specific server.
    Mcp,
    /// Route to the library (vector store) for search.
    Memory,
}

impl Provider {
    /// The provider's name as it appears in messages.
    pub open spec fn name_text(&self) -> Seq<char> {
        match self {
            Provider::Acp => "acp"@,
            Provider::Mcp => "mcp"@,
            Provider::Memory => "memory"@,
        }
    }

    /// The provider's name: `acp`, `mcp` or `memory`.
    pub fn as_str(&self) -> (r: &str)
        ensures
            r@ == self.name_text(),
    {
        match self {
            Provider::Acp => "acp",
            Provider::Mcp => "mcp",
            Provider::Memory => "memory",
        }
    }
}

/// Result produced by a single sub-step within a parallel group.
#[derive(Debug, Clone)]
pub struct ParallelSubResult {
    pub sub_step_name: String,
    pub provider: Provider,
    pub model: String,
    pub input: String,
    pub output: String,
    pub duration_ms: u64,
    pub usage: Option<TokenUsage>,
    pub tool_metrics: Option<ToolMetrics>,
}

/// How parallel sub-step results are merged back into the chain values.
///
/// - `Concat`: join all sub-step outputs with a separator (default `"\n\n"`)
/// - `Keyed`: also store each sub-step output under `{stepName}.{subStepName}`
/// - `Custom`: a user-provided function reduces the sub-results to a string
#[derive(Debug, Clone)]
pub enum MergeStrategy<F> {
    Concat,
    Keyed,
    Custom(F),
}

impl<F> Default for MergeStrategy<F> {
    fn default() -> (r: Self)
        ensures
            r is Concat,
    {
        MergeStrategy::Concat
    }
}

/// Configuration for a single sub-step within a parallel group.
#[derive(Debug, Clone)]
pub struct ParallelSubStepConfig<T> {
    pub name: String,
    pub template: PromptTemplate,
    pub provider: Option<Provider>,
    pub agent_id: Option<String>,
    pub server_name: Option<String>,
    pub system_prompt: Option<String>,
    pub output_transform: Option<T>,
    pub mcp_server_name: Option<String>,
    pub mcp_tool_name: Option<String>,
    pub mcp_arguments: Option<ValueMap>,
}

/// Options controlling the parallel execution mode for a chain step.
#[derive(Debug, Clone)]
pub struct ParallelConfig<T, F> {
    pub sub_steps: Vec<ParallelSubStepConfig<T>>,
    pub merge_strategy: MergeStrategy<F>,
    pub fail_tolerant: bool,
    pub concat_separator: String,
}

impl<T, F> Default for ParallelConfig<T, F> {
    fn default() -> (r: Self)
        ensures
            r.sub_steps@.len() == 0,
            r.merge_strategy is Concat,
            !r.fail_tolerant,
            r.concat_separator@ == "\n\n"@,
    {
        ParallelConfig {
            sub_steps: Vec::new(),
            merge_strategy: MergeStrategy::Concat,
            fail_tolerant: false,
            concat_separator: "\n\n".to_owned(),
        }
    }
}

/// Configuration for a single chain step.
#[derive(Debug, Clone)]
pub struct ChainStepConfig<T, F> {
    /// Unique name for this step.
    pub name: String,
    /// The prompt template to fill and send.
    pub template: PromptTemplate,
    /// Which AI provider to use for this step.
    pub provider: Option<Provider>,
    /// ACP agent ID override for this step.
    pub agent_id: Option<String>,
    /// ACP server name override for this step.
    pub server_name: Option<String>,
    /// System prompt prepended to the request (where supported).
    pub system_prompt: Option<String>,
    /// Transform the raw LLM output before passing to the next step.
    pub output_transform: Option<T>,
    /// Map previous step outputs to this step's template variables.
    pub input_mapping: Option<ValueMap>,
    /// MCP: name of the connected MCP server to call.
    pub mcp_server_name: Option<String>,
    /// MCP: name of the tool to invoke on the MCP server.
    pub mcp_tool_name: Option<String>,
    /// MCP: mapping from tool argument names to chain value keys.
    pub mcp_arguments: Option<ValueMap>,
    /// Store this step's output to the library vector store.
    pub store_to_memory: bool,
    /// Metadata to attach when storing to library.
    pub memory_metadata: Option<ValueMap>,
    /// When set, this step runs sub-steps concurrently.
    pub parallel: Option<ParallelConfig<T, F>>,
}

/// Result of executing a single chain step.
#[derive(Debug, Clone)]
pub struct StepResult {
    pub step_name: String,
    pub provider: Provider,
    pub model: String,
    pub input: String,
    pub output: String,
    pub duration_ms: u64,
    pub step_index: usize,
    pub usage: Option<TokenUsage>,
    pub tool_metrics: Option<ToolMetrics>,
    pub sub_results: Option<Vec<ParallelSubResult>>,
}

/// Information passed to `on_step_start`.
#[derive(Debug, Clone)]
pub struct StepStartInfo {
    pub step_name: String,
    pub step_index: usize,
    pub total_steps: usize,
    pub provider: Provider,
    pub prompt: String,
}

/// Information passed to `on_step_error`.
#[derive(Debug)]
pub struct StepErrorInfo {
    pub step_name: String,
    pub step_index: usize,
    pub error: SimseError,
}

/// Information passed to `on_chain_error`.
#[derive(Debug)]
pub struct ChainErrorInfo {
    pub error: SimseError,
    pub completed_steps: Vec<StepResult>,
}

} // verus!
