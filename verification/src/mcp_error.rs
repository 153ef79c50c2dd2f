//! Errors raised by the MCP client and server.

use vstd::prelude::*;
use crate::json::JsonValue;
use crate::text::{decimal, push_decimal_u64};

verus! {

/// Errors raised by the MCP client and server.
#[derive(Debug)]
pub enum McpError {
    NotInitialized,
    ConnectionFailed(String),
    ServerNotConnected(String),
    ToolError { tool: String, message: String },
    ResourceError { uri: String, message: String },
    TransportConfigError(String),
    Timeout { method: String, timeout_ms: u64 },
    CircuitBreakerOpen(String),
    ProtocolError(String),
    Io(std::io::Error),
    Serialization(String),
}

impl McpError {
    /// The stable machine-readable code of each variant.
    pub open spec fn code_text(&self) -> Seq<char> {
        match self {
            McpError::NotInitialized => "MCP_NOT_INITIALIZED"@,
            McpError::ConnectionFailed(_) => "MCP_CONNECTION_FAILED"@,
            McpError::ServerNotConnected(_) => "MCP_SERVER_NOT_CONNECTED"@,
            McpError::ToolError { .. } => "MCP_TOOL_ERROR"@,
            McpError::ResourceError { .. } => "MCP_RESOURCE_ERROR"@,
            McpError::TransportConfigError(_) => "MCP_TRANSPORT_CONFIG_ERROR"@,
            McpError::Timeout { .. } => "MCP_TIMEOUT"@,
            McpError::CircuitBreakerOpen(_) => "MCP_CIRCUIT_BREAKER_OPEN"@,
            McpError::ProtocolError(_) => "MCP_PROTOCOL_ERROR"@,
            McpError::Io(_) => "MCP_IO"@,
            McpError::Serialization(_) => "MCP_SERIALIZATION"@,
        }
    }

    /// The human-readable text of the error; `None` for an I/O error, whose
    /// text comes from the operating system.
    pub open spec fn display_text(&self) -> Option<Seq<char>> {
        match self {
            McpError::NotInitialized => Some("Client/server not initialized: call initialize first"@),
            McpError::ConnectionFailed(m) => Some("Connection failed: "@ + m@),
            McpError::ServerNotConnected(m) => Some("Server not connected: "@ + m@),
            McpError::ToolError { tool, message } => Some("Tool error ["@ + tool@ + "]: "@ + message@),
            McpError::ResourceError { uri, message } => Some("Resource error ["@ + uri@ + "]: "@ + message@),
            McpError::TransportConfigError(m) => Some("Transport configuration error: "@ + m@),
            McpError::Timeout { method, timeout_ms } =>
                Some("Timeout: "@ + method@ + " exceeded "@ + decimal(*timeout_ms as nat) + "ms"@),
            McpError::CircuitBreakerOpen(m) => Some("Circuit breaker open: "@ + m@),
            McpError::ProtocolError(m) => Some("Protocol error: "@ + m@),
            McpError::Io(_) => None,
            McpError::Serialization(m) => Some("Serialization error: "@ + m@),
        }
    }

    /// The human-readable text of the error.
    pub fn describe(&self) -> (r: String)
        ensures
            self.display_text() matches Some(t) ==> r@ == t,
    {
        let mut s = String::new();
        match self {
            McpError::NotInitialized => s.append("Client/server not initialized: call initialize first"),
            McpError::ConnectionFailed(m) => {
                s.append("Connection failed: ");
                s.append(m.as_str());
            },
            McpError::ServerNotConnected(m) => {
                s.append("Server not connected: ");
                s.append(m.as_str());
            },
            McpError::ToolError { tool, message } => {
                s.append("Tool error [");
                s.append(tool.as_str());
                s.append("]: ");
                s.append(message.as_str());
            },
            McpError::ResourceError { uri, message } => {
                s.append("Resource error [");
                s.append(uri.as_str());
                s.append("]: ");
                s.append(message.as_str());
            },
            McpError::TransportConfigError(m) => {
                s.append("Transport configuration error: ");
                s.append(m.as_str());
            },
            McpError::Timeout { method, timeout_ms } => {
                s.append("Timeout: ");
                s.append(method.as_str());
                s.append(" exceeded ");
                push_decimal_u64(&mut s, *timeout_ms);
                s.append("ms");
            },
            McpError::CircuitBreakerOpen(m) => {
                s.append("Circuit breaker open: ");
                s.append(m.as_str());
            },
            McpError::ProtocolError(m) => {
                s.append("Protocol error: ");
                s.append(m.as_str());
            },
            McpError::Io(e) => {
                s.append("IO error: ");
                s.append(crate::error::io_error_text(e).as_str());
            },
            McpError::Serialization(m) => {
                s.append("Serialization error: ");
                s.append(m.as_str());
            },
        }
        s
    }

    pub fn code(&self) -> (r: &str)
        ensures
            r@ == self.code_text(),
    {
        match self {
            McpError::NotInitialized => "MCP_NOT_INITIALIZED",
            McpError::ConnectionFailed(_) => "MCP_CONNECTION_FAILED",
            McpError::ServerNotConnected(_) => "MCP_SERVER_NOT_CONNECTED",
            McpError::ToolError { .. } => "MCP_TOOL_ERROR",
            McpError::ResourceError { .. } => "MCP_RESOURCE_ERROR",
            McpError::TransportConfigError(_) => "MCP_TRANSPORT_CONFIG_ERROR",
            McpError::Timeout { .. } => "MCP_TIMEOUT",
            McpError::CircuitBreakerOpen(_) => "MCP_CIRCUIT_BREAKER_OPEN",
            McpError::ProtocolError(_) => "MCP_PROTOCOL_ERROR",
            McpError::Io(_) => "MCP_IO",
            McpError::Serialization(_) => "MCP_SERIALIZATION",
        }
    }

    /// The error as JSON-RPC error data: an object with the code under
    /// `mcpCode` and the error's text under `message`.
    pub fn to_json_rpc_error(&self) -> (r: JsonValue)
        ensures
            r matches JsonValue::Object(members) && members@.len() == 2 && members@[0].0@ == "mcpCode"@
                && members@[0].1.text() == Some(self.code_text()) && members@[1].0@ == "message"@
                && members@[1].1.text() is Some && (self.display_text() matches Some(t)
                ==> members@[1].1.text() == Some(t)),
    {
        let mut members: Vec<(String, JsonValue)> = Vec::new();
        members.push(("mcpCode".to_owned(), JsonValue::Str(self.code().to_owned())));
        members.push(("message".to_owned(), JsonValue::Str(self.describe())));
        JsonValue::Object(members)
    }
}

} // verus!
