use simse_core::acp_stream::{
    parse_tool_call_kind, parse_tool_call_status, poll_decision, PollDecision, ToolCallKind,
    ToolCallStatus,
};
use simse_core::connection::ConnectionConfig;
use simse_core::mcp_error::McpError;
use simse_core::mcp_http::{validate_url, HttpTransportConfig};

#[test]
fn connection_config_defaults() {
    let cfg = ConnectionConfig::default();
    assert_eq!(cfg.timeout_ms, 60_000);
    assert_eq!(cfg.init_timeout_ms, 30_000);
    assert_eq!(cfg.client_name, "simse");
    assert_eq!(cfg.client_version, "1.0.0");
}

#[test]
fn test_parse_all_tool_call_kinds() {
    assert_eq!(parse_tool_call_kind("read"), ToolCallKind::Read);
    assert_eq!(parse_tool_call_kind("edit"), ToolCallKind::Edit);
    assert_eq!(parse_tool_call_kind("delete"), ToolCallKind::Delete);
    assert_eq!(parse_tool_call_kind("move"), ToolCallKind::Move);
    assert_eq!(parse_tool_call_kind("search"), ToolCallKind::Search);
    assert_eq!(parse_tool_call_kind("execute"), ToolCallKind::Execute);
    assert_eq!(parse_tool_call_kind("think"), ToolCallKind::Think);
    assert_eq!(parse_tool_call_kind("fetch"), ToolCallKind::Fetch);
    assert_eq!(parse_tool_call_kind("unknown"), ToolCallKind::Other);
}

#[test]
fn test_parse_all_tool_call_statuses() {
    assert_eq!(parse_tool_call_status("pending"), ToolCallStatus::Pending);
    assert_eq!(parse_tool_call_status("in_progress"), ToolCallStatus::InProgress);
    assert_eq!(parse_tool_call_status("completed"), ToolCallStatus::Completed);
    assert_eq!(parse_tool_call_status("failed"), ToolCallStatus::Failed);
    assert_eq!(parse_tool_call_status("cancelled"), ToolCallStatus::Cancelled);
    assert_eq!(parse_tool_call_status("unknown"), ToolCallStatus::Pending);
}

#[test]
fn poll_decisions() {
    assert_eq!(poll_decision(true, false, false, 0, 10), PollDecision::End);
    assert_eq!(poll_decision(false, true, false, 0, 10), PollDecision::End);
    assert_eq!(poll_decision(false, false, false, 10_000_001, 10), PollDecision::TimeOut);
    assert_eq!(poll_decision(false, false, true, 10_000_001, 10), PollDecision::Receive);
    assert_eq!(poll_decision(false, false, false, 10_000_000, 10), PollDecision::Receive);
}

#[test]
fn test_http_config_defaults() {
    let config = HttpTransportConfig::default();
    assert!(config.url.is_empty());
    assert_eq!(config.timeout_ms, 60_000);
    assert!(config.headers.is_empty());
    assert_eq!(config.client_name, "simse");
    assert_eq!(config.client_version, "1.0.0");
}

#[test]
fn test_url_validation_http_valid() {
    assert!(validate_url("http://localhost:3000").is_ok());
}

#[test]
fn test_url_validation_https_valid() {
    assert!(validate_url("https://mcp.example.com/rpc").is_ok());
}

#[test]
fn test_url_validation_ftp_rejected() {
    let result = validate_url("ftp://files.example.com");
    assert!(result.is_err());
    let err = result.unwrap_err();
    assert!(matches!(err, McpError::TransportConfigError(ref m) if m.contains("http:// or https://")));
}

#[test]
fn test_url_validation_empty_rejected() {
    let result = validate_url("");
    assert!(result.is_err());
    let err = result.unwrap_err();
    assert!(matches!(err, McpError::TransportConfigError(ref m) if m.contains("must not be empty")));
}

#[test]
fn test_url_validation_no_scheme_rejected() {
    let result = validate_url("localhost:3000");
    assert!(result.is_err());
    assert!(matches!(result.unwrap_err(), McpError::TransportConfigError(_)));
}

#[test]
fn test_url_validation_ws_rejected() {
    let result = validate_url("ws://localhost:3000");
    assert!(result.is_err());
    assert!(matches!(result.unwrap_err(), McpError::TransportConfigError(_)));
}

#[test]
fn connection_config_default_is_blank_otherwise() {
    let cfg = ConnectionConfig::default();
    assert!(cfg.command.is_empty());
    assert!(cfg.args.is_empty());
    assert!(cfg.cwd.is_none());
    assert!(cfg.env.is_empty());
}
