//! Unified error system: per-domain error codes and the `SimseError` enum.

use vstd::prelude::*;
use crate::acp_error::AcpError;
use crate::json::JsonValue;
use crate::mcp_error::McpError;

verus! {

/// `std::io::Error` is carried through unchanged by the passthrough variants.
#[verifier::external_type_specification]
#[verifier::external_body]
pub struct ExIoError(std::io::Error);

/// Formats an I/O error with its `Display` implementation. The text comes
/// from the operating system for OS errors, so nothing is stated of it.
#[verifier::external_body]
pub fn io_error_text(e: &std::io::Error) -> String {
    format!("{}", e)
}

/// Error codes for configuration errors.
#[derive(Debug, Clone, Copy, PartialEq, Eq, Structural)]
pub enum ConfigErrorCode {
    InvalidField,
    MissingRequired,
    ValidationFailed,
}

impl ConfigErrorCode {
    /// The stable code string of this error code.
    pub open spec fn code_text(&self) -> Seq<char> {
        match self {
            ConfigErrorCode::InvalidField => "CONFIG_INVALID_FIELD"@,
            ConfigErrorCode::MissingRequired => "CONFIG_MISSING_REQUIRED"@,
            ConfigErrorCode::ValidationFailed => "CONFIG_VALIDATION_FAILED"@,
        }
    }

    pub fn as_str(&self) -> (r: &str)
        ensures
            r@ == self.code_text(),
    {
        match self {
            ConfigErrorCode::InvalidField => "CONFIG_INVALID_FIELD",
            ConfigErrorCode::MissingRequired => "CONFIG_MISSING_REQUIRED",
            ConfigErrorCode::ValidationFailed => "CONFIG_VALIDATION_FAILED",
        }
    }
}

/// Error codes for AI provider errors.
#[derive(Debug, Clone, Copy, PartialEq, Eq, Structural)]
pub enum ProviderErrorCode {
    Timeout,
    Unavailable,
    AuthFailed,
    RateLimited,
    HttpError,
}

impl ProviderErrorCode {
    /// The stable code string of this error code.
    pub open spec fn code_text(&self) -> Seq<char> {
        match self {
            ProviderErrorCode::Timeout => "PROVIDER_TIMEOUT"@,
            ProviderErrorCode::Unavailable => "PROVIDER_UNAVAILABLE"@,
            ProviderErrorCode::AuthFailed => "PROVIDER_AUTH_FAILED"@,
            ProviderErrorCode::RateLimited => "PROVIDER_RATE_LIMITED"@,
            ProviderErrorCode::HttpError => "PROVIDER_HTTP_ERROR"@,
        }
    }

    pub fn as_str(&self) -> (r: &str)
        ensures
            r@ == self.code_text(),
    {
        match self {
            ProviderErrorCode::Timeout => "PROVIDER_TIMEOUT",
            ProviderErrorCode::Unavailable => "PROVIDER_UNAVAILABLE",
            ProviderErrorCode::AuthFailed => "PROVIDER_AUTH_FAILED",
            ProviderErrorCode::RateLimited => "PROVIDER_RATE_LIMITED",
            ProviderErrorCode::HttpError => "PROVIDER_HTTP_ERROR",
        }
    }
}

/// Error codes for chain execution errors.
#[derive(Debug, Clone, Copy, PartialEq, Eq, Structural)]
pub enum ChainErrorCode {
    Empty,
    StepFailed,
    InvalidStep,
    McpNotConfigured,
    ExecutionFailed,
    McpToolError,
    NotFound,
}

impl ChainErrorCode {
    /// The stable code string of this error code.
    pub open spec fn code_text(&self) -> Seq<char> {
        match self {
            ChainErrorCode::Empty => "CHAIN_EMPTY"@,
            ChainErrorCode::StepFailed => "CHAIN_STEP_FAILED"@,
            ChainErrorCode::InvalidStep => "CHAIN_INVALID_STEP"@,
            ChainErrorCode::McpNotConfigured => "CHAIN_MCP_NOT_CONFIGURED"@,
            ChainErrorCode::ExecutionFailed => "CHAIN_EXECUTION_FAILED"@,
            ChainErrorCode::McpToolError => "CHAIN_MCP_TOOL_ERROR"@,
            ChainErrorCode::NotFound => "CHAIN_NOT_FOUND"@,
        }
    }

    pub fn as_str(&self) -> (r: &str)
        ensures
            r@ == self.code_text(),
    {
        match self {
            ChainErrorCode::Empty => "CHAIN_EMPTY",
            ChainErrorCode::StepFailed => "CHAIN_STEP_FAILED",
            ChainErrorCode::InvalidStep => "CHAIN_INVALID_STEP",
            ChainErrorCode::McpNotConfigured => "CHAIN_MCP_NOT_CONFIGURED",
            ChainErrorCode::ExecutionFailed => "CHAIN_EXECUTION_FAILED",
            ChainErrorCode::McpToolError => "CHAIN_MCP_TOOL_ERROR",
            ChainErrorCode::NotFound => "CHAIN_NOT_FOUND",
        }
    }
}

/// Error codes for prompt template errors.
#[derive(Debug, Clone, Copy, PartialEq, Eq, Structural)]
pub enum TemplateErrorCode {
    Empty,
    MissingVariables,
    InvalidValue,
}

impl TemplateErrorCode {
    /// The stable code string of this error code.
    pub open spec fn code_text(&self) -> Seq<char> {
        match self {
            TemplateErrorCode::Empty => "TEMPLATE_EMPTY"@,
            TemplateErrorCode::MissingVariables => "TEMPLATE_MISSING_VARIABLES"@,
            TemplateErrorCode::InvalidValue => "TEMPLATE_INVALID_VALUE"@,
        }
    }

    pub fn as_str(&self) -> (r: &str)
        ensures
            r@ == self.code_text(),
    {
        match self {
            TemplateErrorCode::Empty => "TEMPLATE_EMPTY",
            TemplateErrorCode::MissingVariables => "TEMPLATE_MISSING_VARIABLES",
            TemplateErrorCode::InvalidValue => "TEMPLATE_INVALID_VALUE",
        }
    }
}

/// Error codes for MCP protocol errors.
#[derive(Debug, Clone, Copy, PartialEq, Eq, Structural)]
pub enum McpErrorCode {
    ConnectionError,
    ToolError,
    ResourceError,
    ServerError,
}

impl McpErrorCode {
    /// The stable code string of this error code.
    pub open spec fn code_text(&self) -> Seq<char> {
        match self {
            McpErrorCode::ConnectionError => "MCP_CONNECTION_ERROR"@,
            McpErrorCode::ToolError => "MCP_TOOL_ERROR"@,
            McpErrorCode::ResourceError => "MCP_RESOURCE_ERROR"@,
            McpErrorCode::ServerError => "MCP_SERVER_ERROR"@,
        }
    }

    pub fn as_str(&self) -> (r: &str)
        ensures
            r@ == self.code_text(),
    {
        match self {
            McpErrorCode::ConnectionError => "MCP_CONNECTION_ERROR",
            McpErrorCode::ToolError => "MCP_TOOL_ERROR",
            McpErrorCode::ResourceError => "MCP_RESOURCE_ERROR",
            McpErrorCode::ServerError => "MCP_SERVER_ERROR",
        }
    }
}

/// Error codes for library (vector store) errors.
#[derive(Debug, Clone, Copy, PartialEq, Eq, Structural)]
pub enum LibraryErrorCode {
    EmptyText,
    EmbeddingFailed,
    NotInitialized,
    DuplicateDetected,
    NotFound,
    InvalidInput,
}

impl LibraryErrorCode {
    /// The stable code string of this error code.
    pub open spec fn code_text(&self) -> Seq<char> {
        match self {
            LibraryErrorCode::EmptyText => "LIBRARY_EMPTY_TEXT"@,
            LibraryErrorCode::EmbeddingFailed => "LIBRARY_EMBEDDING_FAILED"@,
            LibraryErrorCode::NotInitialized => "LIBRARY_NOT_INITIALIZED"@,
            LibraryErrorCode::DuplicateDetected => "LIBRARY_DUPLICATE_DETECTED"@,
            LibraryErrorCode::NotFound => "LIBRARY_NOT_FOUND"@,
            LibraryErrorCode::InvalidInput => "LIBRARY_INVALID_INPUT"@,
        }
    }

    pub fn as_str(&self) -> (r: &str)
        ensures
            r@ == self.code_text(),
    {
        match self {
            LibraryErrorCode::EmptyText => "LIBRARY_EMPTY_TEXT",
            LibraryErrorCode::EmbeddingFailed => "LIBRARY_EMBEDDING_FAILED",
            LibraryErrorCode::NotInitialized => "LIBRARY_NOT_INITIALIZED",
            LibraryErrorCode::DuplicateDetected => "LIBRARY_DUPLICATE_DETECTED",
            LibraryErrorCode::NotFound => "LIBRARY_NOT_FOUND",
            LibraryErrorCode::InvalidInput => "LIBRARY_INVALID_INPUT",
        }
    }
}

/// Error codes for agentic loop errors.
#[derive(Debug, Clone, Copy, PartialEq, Eq, Structural)]
pub enum LoopErrorCode {
    DoomLoop,
    TurnLimit,
    Aborted,
    CompactionFailed,
}

impl LoopErrorCode {
    /// The stable code string of this error code.
    pub open spec fn code_text(&self) -> Seq<char> {
        match self {
            LoopErrorCode::DoomLoop => "LOOP_DOOM_LOOP"@,
            LoopErrorCode::TurnLimit => "LOOP_TURN_LIMIT"@,
            LoopErrorCode::Aborted => "LOOP_ABORTED"@,
            LoopErrorCode::CompactionFailed => "LOOP_COMPACTION_FAILED"@,
        }
    }

    pub fn as_str(&self) -> (r: &str)
        ensures
            r@ == self.code_text(),
    {
        match self {
            LoopErrorCode::DoomLoop => "LOOP_DOOM_LOOP",
            LoopErrorCode::TurnLimit => "LOOP_TURN_LIMIT",
            LoopErrorCode::Aborted => "LOOP_ABORTED",
            LoopErrorCode::CompactionFailed => "LOOP_COMPACTION_FAILED",
        }
    }
}

/// Error codes for resilience (circuit breaker, retry, timeout) errors.
#[derive(Debug, Clone, Copy, PartialEq, Eq, Structural)]
pub enum ResilienceErrorCode {
    CircuitOpen,
    Timeout,
    RetryExhausted,
    RetryAborted,
}

impl ResilienceErrorCode {
    /// The stable code string of this error code.
    pub open spec fn code_text(&self) -> Seq<char> {
        match self {
            ResilienceErrorCode::CircuitOpen => "RESILIENCE_CIRCUIT_OPEN"@,
            ResilienceErrorCode::Timeout => "RESILIENCE_TIMEOUT"@,
            ResilienceErrorCode::RetryExhausted => "RESILIENCE_RETRY_EXHAUSTED"@,
            ResilienceErrorCode::RetryAborted => "RESILIENCE_RETRY_ABORTED"@,
        }
    }

    pub fn as_str(&self) -> (r: &str)
        ensures
            r@ == self.code_text(),
    {
        match self {
            ResilienceErrorCode::CircuitOpen => "RESILIENCE_CIRCUIT_OPEN",
            ResilienceErrorCode::Timeout => "RESILIENCE_TIMEOUT",
            ResilienceErrorCode::RetryExhausted => "RESILIENCE_RETRY_EXHAUSTED",
            ResilienceErrorCode::RetryAborted => "RESILIENCE_RETRY_ABORTED",
        }
    }
}

/// Error codes for task list errors.
#[derive(Debug, Clone, Copy, PartialEq, Eq, Structural)]
pub enum TaskErrorCode {
    NotFound,
    LimitReached,
    CircularDependency,
    InvalidStatus,
}

impl TaskErrorCode {
    /// The stable code string of this error code.
    pub open spec fn code_text(&self) -> Seq<char> {
        match self {
            TaskErrorCode::NotFound => "TASK_NOT_FOUND"@,
            TaskErrorCode::LimitReached => "TASK_LIMIT_REACHED"@,
            TaskErrorCode::CircularDependency => "TASK_CIRCULAR_DEPENDENCY"@,
            TaskErrorCode::InvalidStatus => "TASK_INVALID_STATUS"@,
        }
    }

    pub fn as_str(&self) -> (r: &str)
        ensures
            r@ == self.code_text(),
    {
        match self {
            TaskErrorCode::NotFound => "TASK_NOT_FOUND",
            TaskErrorCode::LimitReached => "TASK_LIMIT_REACHED",
            TaskErrorCode::CircularDependency => "TASK_CIRCULAR_DEPENDENCY",
            TaskErrorCode::InvalidStatus => "TASK_INVALID_STATUS",
        }
    }
}

/// Error codes for tool registry errors.
#[derive(Debug, Clone, Copy, PartialEq, Eq, Structural)]
pub enum ToolErrorCode {
    NotFound,
    ExecutionFailed,
    PermissionDenied,
    Timeout,
    ParseError,
}

impl ToolErrorCode {
    /// The stable code string of this error code.
    pub open spec fn code_text(&self) -> Seq<char> {
        match self {
            ToolErrorCode::NotFound => "TOOL_NOT_FOUND"@,
            ToolErrorCode::ExecutionFailed => "TOOL_EXECUTION_FAILED"@,
            ToolErrorCode::PermissionDenied => "TOOL_PERMISSION_DENIED"@,
            ToolErrorCode::Timeout => "TOOL_TIMEOUT"@,
            ToolErrorCode::ParseError => "TOOL_PARSE_ERROR"@,
        }
    }

    pub fn as_str(&self) -> (r: &str)
        ensures
            r@ == self.code_text(),
    {
        match self {
            ToolErrorCode::NotFound => "TOOL_NOT_FOUND",
            ToolErrorCode::ExecutionFailed => "TOOL_EXECUTION_FAILED",
            ToolErrorCode::PermissionDenied => "TOOL_PERMISSION_DENIED",
            ToolErrorCode::Timeout => "TOOL_TIMEOUT",
            ToolErrorCode::ParseError => "TOOL_PARSE_ERROR",
        }
    }
}

/// Error codes for virtual filesystem errors.
#[derive(Debug, Clone, Copy, PartialEq, Eq, Structural)]
pub enum VfsErrorCode {
    InvalidPath,
    NotFound,
    AlreadyExists,
    LimitExceeded,
}

impl VfsErrorCode {
    /// The stable code string of this error code.
    pub open spec fn code_text(&self) -> Seq<char> {
        match self {
            VfsErrorCode::InvalidPath => "VFS_INVALID_PATH"@,
            VfsErrorCode::NotFound => "VFS_NOT_FOUND"@,
            VfsErrorCode::AlreadyExists => "VFS_ALREADY_EXISTS"@,
            VfsErrorCode::LimitExceeded => "VFS_LIMIT_EXCEEDED"@,
        }
    }

    pub fn as_str(&self) -> (r: &str)
        ensures
            r@ == self.code_text(),
    {
        match self {
            VfsErrorCode::InvalidPath => "VFS_INVALID_PATH",
            VfsErrorCode::NotFound => "VFS_NOT_FOUND",
            VfsErrorCode::AlreadyExists => "VFS_ALREADY_EXISTS",
            VfsErrorCode::LimitExceeded => "VFS_LIMIT_EXCEEDED",
        }
    }
}

/// Unified error type spanning all domains.
///
/// Each domain variant carries a typed error code and a human-readable
/// message. Engine errors pass through unchanged.
#[derive(Debug)]
#[allow(inconsistent_fields)]
pub enum SimseError {
    Config { code: ConfigErrorCode, message: String },
    Provider { code: ProviderErrorCode, message: String, status: Option<u16> },
    Chain { code: ChainErrorCode, message: String },
    Template { code: TemplateErrorCode, message: String },
    Mcp { code: McpErrorCode, message: String },
    Library { code: LibraryErrorCode, message: String },
    Loop { code: LoopErrorCode, message: String },
    Resilience { code: ResilienceErrorCode, message: String },
    Task { code: TaskErrorCode, message: String },
    Tool { code: ToolErrorCode, message: String },
    Vfs { code: VfsErrorCode, message: String },
    Acp(AcpError),
    McpEngine(McpError),
    Io(std::io::Error),
    Other(String),
}

impl SimseError {
    /// The code string of the error: the domain code for domain variants,
    /// a fixed generic code for passthrough variants.
    pub open spec fn code_text(&self) -> Seq<char> {
        match self {
            SimseError::Config { code, .. } => code.code_text(),
            SimseError::Provider { code, .. } => code.code_text(),
            SimseError::Chain { code, .. } => code.code_text(),
            SimseError::Template { code, .. } => code.code_text(),
            SimseError::Mcp { code, .. } => code.code_text(),
            SimseError::Library { code, .. } => code.code_text(),
            SimseError::Loop { code, .. } => code.code_text(),
            SimseError::Resilience { code, .. } => code.code_text(),
            SimseError::Task { code, .. } => code.code_text(),
            SimseError::Tool { code, .. } => code.code_text(),
            SimseError::Vfs { code, .. } => code.code_text(),
            SimseError::Acp(_) => "ACP_ERROR"@,
            SimseError::McpEngine(_) => "MCP_ENGINE_ERROR"@,
            SimseError::Io(_) => "IO_ERROR"@,
            SimseError::Other(_) => "OTHER_ERROR"@,
        }
    }

    /// Whether the error is worth retrying: provider timeouts, unavailability
    /// and rate limits, resilience timeouts and tool timeouts.
    pub open spec fn retriable(&self) -> bool {
        match self {
            SimseError::Provider { code, .. } => *code == ProviderErrorCode::Timeout
                || *code == ProviderErrorCode::Unavailable
                || *code == ProviderErrorCode::RateLimited,
            SimseError::Resilience { code, .. } => *code == ResilienceErrorCode::Timeout,
            SimseError::Tool { code, .. } => *code == ToolErrorCode::Timeout,
            _ => false,
        }
    }

    /// Returns the static code string for the error variant.
    pub fn code(&self) -> (r: &str)
        ensures
            r@ == self.code_text(),
    {
        match self {
            SimseError::Config { code, .. } => code.as_str(),
            SimseError::Provider { code, .. } => code.as_str(),
            SimseError::Chain { code, .. } => code.as_str(),
            SimseError::Template { code, .. } => code.as_str(),
            SimseError::Mcp { code, .. } => code.as_str(),
            SimseError::Library { code, .. } => code.as_str(),
            SimseError::Loop { code, .. } => code.as_str(),
            SimseError::Resilience { code, .. } => code.as_str(),
            SimseError::Task { code, .. } => code.as_str(),
            SimseError::Tool { code, .. } => code.as_str(),
            SimseError::Vfs { code, .. } => code.as_str(),
            SimseError::Acp(_) => "ACP_ERROR",
            SimseError::McpEngine(_) => "MCP_ENGINE_ERROR",
            SimseError::Io(_) => "IO_ERROR",
            SimseError::Other(_) => "OTHER_ERROR",
        }
    }

    /// Returns `true` if this error is retriable (timeouts, rate limits, etc.).
    pub fn is_retriable(&self) -> (r: bool)
        ensures
            r == self.retriable(),
    {
        match self {
            SimseError::Provider { code, .. } => match code {
                ProviderErrorCode::Timeout => true,
                ProviderErrorCode::Unavailable => true,
                ProviderErrorCode::RateLimited => true,
                _ => false,
            },
            SimseError::Resilience { code, .. } => match code {
                ResilienceErrorCode::Timeout => true,
                _ => false,
            },
            SimseError::Tool { code, .. } => match code {
                ToolErrorCode::Timeout => true,
                _ => false,
            },
            _ => false,
        }
    }

    /// Returns the HTTP status code if this is a provider error with one.
    pub fn http_status(&self) -> (r: Option<u16>)
        ensures
            r == (match self {
                SimseError::Provider { status, .. } => *status,
                _ => None,
            }),
    {
        match self {
            SimseError::Provider { status, .. } => *status,
            _ => None,
        }
    }

    /// The human-readable message carried by a domain or `Other` variant.
    pub open spec fn message_text(&self) -> Option<Seq<char>> {
        match self {
            SimseError::Config { message, .. } => Some(message@),
            SimseError::Provider { message, .. } => Some(message@),
            SimseError::Chain { message, .. } => Some(message@),
            SimseError::Template { message, .. } => Some(message@),
            SimseError::Mcp { message, .. } => Some(message@),
            SimseError::Library { message, .. } => Some(message@),
            SimseError::Loop { message, .. } => Some(message@),
            SimseError::Resilience { message, .. } => Some(message@),
            SimseError::Task { message, .. } => Some(message@),
            SimseError::Tool { message, .. } => Some(message@),
            SimseError::Vfs { message, .. } => Some(message@),
            SimseError::Other(message) => Some(message@),
            _ => None,
        }
    }

    /// The human-readable text of the error: the domain prefix and the
    /// message; the passthrough errors' own texts; `None` where an I/O
    /// error's operating-system text is part of it.
    pub open spec fn display_text(&self) -> Option<Seq<char>> {
        match self {
            SimseError::Config { message, .. } => Some("config error: "@ + message@),
            SimseError::Provider { message, .. } => Some("provider error: "@ + message@),
            SimseError::Chain { message, .. } => Some("chain error: "@ + message@),
            SimseError::Template { message, .. } => Some("template error: "@ + message@),
            SimseError::Mcp { message, .. } => Some("MCP error: "@ + message@),
            SimseError::Library { message, .. } => Some("library error: "@ + message@),
            SimseError::Loop { message, .. } => Some("loop error: "@ + message@),
            SimseError::Resilience { message, .. } => Some("resilience error: "@ + message@),
            SimseError::Task { message, .. } => Some("task error: "@ + message@),
            SimseError::Tool { message, .. } => Some("tool error: "@ + message@),
            SimseError::Vfs { message, .. } => Some("VFS error: "@ + message@),
            SimseError::Acp(e) => e.display_text(),
            SimseError::McpEngine(e) => e.display_text(),
            SimseError::Io(_) => None,
            SimseError::Other(message) => Some(message@),
        }
    }

    /// The human-readable text of the error.
    pub fn describe(&self) -> (r: String)
        ensures
            self.display_text() matches Some(t) ==> r@ == t,
    {
        let mut s = String::new();
        match self {
            SimseError::Config { message, .. } => { s.append("config error: "); s.append(message.as_str()); },
            SimseError::Provider { message, .. } => { s.append("provider error: "); s.append(message.as_str()); },
            SimseError::Chain { message, .. } => { s.append("chain error: "); s.append(message.as_str()); },
            SimseError::Template { message, .. } => { s.append("template error: "); s.append(message.as_str()); },
            SimseError::Mcp { message, .. } => { s.append("MCP error: "); s.append(message.as_str()); },
            SimseError::Library { message, .. } => { s.append("library error: "); s.append(message.as_str()); },
            SimseError::Loop { message, .. } => { s.append("loop error: "); s.append(message.as_str()); },
            SimseError::Resilience { message, .. } => { s.append("resilience error: "); s.append(message.as_str()); },
            SimseError::Task { message, .. } => { s.append("task error: "); s.append(message.as_str()); },
            SimseError::Tool { message, .. } => { s.append("tool error: "); s.append(message.as_str()); },
            SimseError::Vfs { message, .. } => { s.append("VFS error: "); s.append(message.as_str()); },
            SimseError::Acp(e) => { s = e.describe(); },
            SimseError::McpEngine(e) => { s = e.describe(); },
            SimseError::Io(e) => { s.append("IO error: "); s.append(io_error_text(e).as_str()); },
            SimseError::Other(message) => { s.append(message.as_str()); },
        }
        s
    }

    /// The error as JSON-RPC error data: an object with the code under
    /// `coreCode`.
    pub fn to_json_rpc_error(&self) -> (r: JsonValue)
        ensures
            r matches JsonValue::Object(members) && members@.len() == 1 && members@[0].0@ == "coreCode"@
                && members@[0].1.text() == Some(self.code_text()),
    {
        let mut members: Vec<(String, JsonValue)> = Vec::new();
        members.push(("coreCode".to_owned(), JsonValue::Str(self.code().to_owned())));
        JsonValue::Object(members)
    }

    pub fn config(code: ConfigErrorCode, message: &str) -> (r: Self)
        ensures
            r matches SimseError::Config { code: c, .. } && c == code,
            r.message_text() == Some(message@),
    {
        SimseError::Config { code, message: message.to_owned() }
    }

    pub fn provider(code: ProviderErrorCode, message: &str, status: Option<u16>) -> (r: Self)
        ensures
            r matches SimseError::Provider { code: c, status: s, .. } && c == code && s == status,
            r.message_text() == Some(message@),
    {
        SimseError::Provider { code, message: message.to_owned(), status }
    }

    pub fn chain(code: ChainErrorCode, message: &str) -> (r: Self)
        ensures
            r matches SimseError::Chain { code: c, .. } && c == code,
            r.message_text() == Some(message@),
    {
        SimseError::Chain { code, message: message.to_owned() }
    }

    pub fn template(code: TemplateErrorCode, message: &str) -> (r: Self)
        ensures
            r matches SimseError::Template { code: c, .. } && c == code,
            r.message_text() == Some(message@),
    {
        SimseError::Template { code, message: message.to_owned() }
    }

    pub fn mcp(code: McpErrorCode, message: &str) -> (r: Self)
        ensures
            r matches SimseError::Mcp { code: c, .. } && c == code,
            r.message_text() == Some(message@),
    {
        SimseError::Mcp { code, message: message.to_owned() }
    }

    pub fn library(code: LibraryErrorCode, message: &str) -> (r: Self)
        ensures
            r matches SimseError::Library { code: c, .. } && c == code,
            r.message_text() == Some(message@),
    {
        SimseError::Library { code, message: message.to_owned() }
    }

    pub fn loop_err(code: LoopErrorCode, message: &str) -> (r: Self)
        ensures
            r matches SimseError::Loop { code: c, .. } && c == code,
            r.message_text() == Some(message@),
    {
        SimseError::Loop { code, message: message.to_owned() }
    }

    pub fn resilience(code: ResilienceErrorCode, message: &str) -> (r: Self)
        ensures
            r matches SimseError::Resilience { code: c, .. } && c == code,
            r.message_text() == Some(message@),
    {
        SimseError::Resilience { code, message: message.to_owned() }
    }

    pub fn task(code: TaskErrorCode, message: &str) -> (r: Self)
        ensures
            r matches SimseError::Task { code: c, .. } && c == code,
            r.message_text() == Some(message@),
    {
        SimseError::Task { code, message: message.to_owned() }
    }

    pub fn tool(code: ToolErrorCode, message: &str) -> (r: Self)
        ensures
            r matches SimseError::Tool { code: c, .. } && c == code,
            r.message_text() == Some(message@),
    {
        SimseError::Tool { code, message: message.to_owned() }
    }

    pub fn vfs(code: VfsErrorCode, message: &str) -> (r: Self)
        ensures
            r matches SimseError::Vfs { code: c, .. } && c == code,
            r.message_text() == Some(message@),
    {
        SimseError::Vfs { code, message: message.to_owned() }
    }

    pub fn other(message: &str) -> (r: Self)
        ensures
            r is Other,
            r.message_text() == Some(message@),
    {
        SimseError::Other(message.to_owned())
    }
}

} // verus!
