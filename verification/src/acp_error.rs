//! Errors raised by the ACP client connection.

use vstd::prelude::*;
use crate::text::{decimal, push_decimal_u64};

verus! {

/// Errors raised by the ACP client connection.
#[derive(Debug)]
pub enum AcpError {
    NotInitialized,
    ConnectionFailed(String),
    ServerUnavailable(String),
    Timeout { method: String, timeout_ms: u64 },
    PermissionDenied(String),
    SessionError(String),
    ProtocolError(String),
    Serialization(String),
    CircuitBreakerOpen(String),
    StreamError(String),
    Io(std::io::Error),
}

impl AcpError {
    /// The human-readable text of the error; `None` for an I/O error, whose
    /// text comes from the operating system.
    pub open spec fn display_text(&self) -> Option<Seq<char>> {
        match self {
            AcpError::NotInitialized => Some("Connection not initialized"@),
            AcpError::ConnectionFailed(m) => Some("Connection failed: "@ + m@),
            AcpError::ServerUnavailable(m) => Some("Server unavailable: "@ + m@),
            AcpError::Timeout { method, timeout_ms } =>
                Some("Timeout: "@ + method@ + " exceeded "@ + decimal(*timeout_ms as nat) + "ms"@),
            AcpError::PermissionDenied(m) => Some("Permission denied: "@ + m@),
            AcpError::SessionError(m) => Some("Session error: "@ + m@),
            AcpError::ProtocolError(m) => Some("Protocol error: "@ + m@),
            AcpError::Serialization(m) => Some("Serialization error: "@ + m@),
            AcpError::CircuitBreakerOpen(m) => Some("Circuit breaker open: "@ + m@),
            AcpError::StreamError(m) => Some("Stream error: "@ + m@),
            AcpError::Io(_) => None,
        }
    }

    /// The human-readable text of the error.
    pub fn describe(&self) -> (r: String)
        ensures
            self.display_text() matches Some(t) ==> r@ == t,
    {
        let mut s = String::new();
        match self {
            AcpError::NotInitialized => s.append("Connection not initialized"),
            AcpError::ConnectionFailed(m) => { s.append("Connection failed: "); s.append(m.as_str()); },
            AcpError::ServerUnavailable(m) => { s.append("Server unavailable: "); s.append(m.as_str()); },
            AcpError::Timeout { method, timeout_ms } => {
                s.append("Timeout: ");
                s.append(method.as_str());
                s.append(" exceeded ");
                push_decimal_u64(&mut s, *timeout_ms);
                s.append("ms");
            },
            AcpError::PermissionDenied(m) => { s.append("Permission denied: "); s.append(m.as_str()); },
            AcpError::SessionError(m) => { s.append("Session error: "); s.append(m.as_str()); },
            AcpError::ProtocolError(m) => { s.append("Protocol error: "); s.append(m.as_str()); },
            AcpError::Serialization(m) => { s.append("Serialization error: "); s.append(m.as_str()); },
            AcpError::CircuitBreakerOpen(m) => { s.append("Circuit breaker open: "); s.append(m.as_str()); },
            AcpError::StreamError(m) => { s.append("Stream error: "); s.append(m.as_str()); },
            AcpError::Io(e) => { s.append("IO error: "); s.append(crate::error::io_error_text(e).as_str()); },
        }
        s
    }
}

} // verus!
