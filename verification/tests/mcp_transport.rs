use std::collections::HashMap;

use simse_core::json::JsonValue;
use simse_core::mcp_error::McpError;
use simse_core::mcp_http::{rpc_request_body, rpc_result, HttpReply, HttpTransport, HttpTransportConfig};
use simse_core::text::parse_i64;

#[test]
fn test_http_config_custom() {
    let config = HttpTransportConfig {
        url: "https://mcp.example.com/rpc".into(),
        timeout_ms: 30_000,
        headers: {
            let mut m = HashMap::new();
            m.insert("Authorization".into(), "Bearer token123".into());
            m
        },
        client_name: "test-client".into(),
        client_version: "2.0.0".into(),
    };
    assert_eq!(config.url, "https://mcp.example.com/rpc");
    assert_eq!(config.timeout_ms, 30_000);
    assert_eq!(config.headers.get("Authorization").unwrap(), "Bearer token123");
}

#[test]
fn test_on_notification_returns_inactive_handle() {
    let transport = HttpTransport::new(HttpTransportConfig {
        url: "http://localhost:3000".into(),
        ..Default::default()
    });
    let handle = transport.on_notification("notifications/tools/list_changed");
    assert!(!handle.is_active());
}

#[test]
fn test_http_transport_new_not_connected() {
    let transport = HttpTransport::new(HttpTransportConfig::default());
    assert!(!transport.is_connected());
}

#[test]
fn test_http_transport_preserves_timeout() {
    let config = HttpTransportConfig { timeout_ms: 15_000, ..Default::default() };
    let transport = HttpTransport::new(config);
    assert_eq!(transport.default_timeout_ms(), 15_000);
}

#[test]
fn close_marks_disconnected() {
    let mut transport = HttpTransport::new(HttpTransportConfig {
        url: "http://localhost:3000".into(),
        ..Default::default()
    });
    transport.begin_connect().unwrap();
    assert!(transport.is_connected());
    transport.close();
    assert!(!transport.is_connected());
}

#[test]
fn request_refused_when_not_connected() {
    let transport = HttpTransport::new(HttpTransportConfig {
        url: "http://localhost:3000".into(),
        ..Default::default()
    });
    let err = transport.check_connected().unwrap_err();
    assert!(matches!(err, McpError::ConnectionFailed(_)));
    assert!(err.describe().contains("not connected"));
}

#[test]
fn connect_twice_and_bad_url_refused() {
    let mut transport = HttpTransport::new(HttpTransportConfig {
        url: "http://localhost:3000".into(),
        ..Default::default()
    });
    transport.begin_connect().unwrap();
    match transport.begin_connect() {
        Err(McpError::ConnectionFailed(m)) => assert_eq!(m, "Already connected"),
        _ => panic!("expected ConnectionFailed"),
    }
    transport.handshake_failed();
    assert!(!transport.is_connected());

    let mut bad = HttpTransport::new(HttpTransportConfig { url: "ftp://x".into(), ..Default::default() });
    assert!(matches!(bad.begin_connect(), Err(McpError::TransportConfigError(_))));
    assert!(!bad.is_connected());
}

#[test]
fn request_ids_count_up_from_one() {
    let mut transport = HttpTransport::new(HttpTransportConfig::default());
    assert_eq!(transport.next_request_id(), 1);
    assert_eq!(transport.next_request_id(), 2);
    assert_eq!(transport.next_request_id(), 3);
}

#[test]
fn request_body_has_jsonrpc_fields() {
    let body = rpc_request_body(42, "tools/list", JsonValue::Null);
    assert_eq!(body.get_str("jsonrpc"), Some("2.0"));
    assert_eq!(body.get_str("method"), Some("tools/list"));
    match body.get("id") {
        Some(JsonValue::Number(n)) => assert_eq!(n, "42"),
        _ => panic!("expected a numeric id"),
    }
    assert!(matches!(body.get("params"), Some(JsonValue::Null)));
}

fn obj(members: Vec<(&str, JsonValue)>) -> JsonValue {
    JsonValue::Object(members.into_iter().map(|(k, v)| (k.to_string(), v)).collect())
}

fn protocol_message(r: Result<JsonValue, McpError>) -> String {
    match r {
        Err(McpError::ProtocolError(m)) => m,
        _ => panic!("expected ProtocolError"),
    }
}

#[test]
fn rpc_error_object_becomes_protocol_error() {
    let body = obj(vec![(
        "error",
        obj(vec![("code", JsonValue::Number("-32601".into())), ("message", JsonValue::Str("Method not found".into()))]),
    )]);
    assert_eq!(protocol_message(rpc_result("x", 1000, HttpReply::Body(body))), "MCP error -32601: Method not found");
    let bare = obj(vec![("error", obj(vec![]))]);
    assert_eq!(protocol_message(rpc_result("x", 1000, HttpReply::Body(bare))), "MCP error -1: Unknown error");
}

#[test]
fn rpc_result_member_or_null() {
    let body = obj(vec![("result", JsonValue::Str("ok".into()))]);
    match rpc_result("x", 1000, HttpReply::Body(body)) {
        Ok(JsonValue::Str(s)) => assert_eq!(s, "ok"),
        _ => panic!("expected the result member"),
    }
    assert!(matches!(rpc_result("x", 1000, HttpReply::Body(obj(vec![]))), Ok(JsonValue::Null)));
}

#[test]
fn rpc_transport_failures() {
    match rpc_result("tools/call", 5000, HttpReply::Failed { timed_out: true, detail: String::new() }) {
        Err(McpError::Timeout { method, timeout_ms }) => {
            assert_eq!(method, "tools/call");
            assert_eq!(timeout_ms, 5000);
        }
        _ => panic!("expected Timeout"),
    }
    match rpc_result("m", 5000, HttpReply::Failed { timed_out: false, detail: "refused".into() }) {
        Err(McpError::ConnectionFailed(m)) => assert_eq!(m, "HTTP request failed: refused"),
        _ => panic!("expected ConnectionFailed"),
    }
    let status = rpc_result("m", 5000, HttpReply::Status { status: "404 Not Found".into() });
    assert_eq!(protocol_message(status), "HTTP 404 Not Found for method 'm'");
    let unreadable = rpc_result("m", 5000, HttpReply::Unreadable { detail: "eof".into() });
    assert_eq!(protocol_message(unreadable), "Failed to parse response body: eof");
}

#[test]
fn integers_parse_in_range() {
    assert_eq!(parse_i64("0"), Some(0));
    assert_eq!(parse_i64("-32700"), Some(-32700));
    assert_eq!(parse_i64("9223372036854775807"), Some(i64::MAX));
    assert_eq!(parse_i64("-9223372036854775808"), Some(i64::MIN));
    assert_eq!(parse_i64("9223372036854775808"), None);
    assert_eq!(parse_i64("1.5"), None);
    assert_eq!(parse_i64("-"), None);
    assert_eq!(parse_i64(""), None);
}

#[test]
fn mcp_error_as_json_rpc_data() {
    let e = McpError::Timeout { method: "tools/list".to_string(), timeout_ms: 500 };
    match e.to_json_rpc_error() {
        JsonValue::Object(members) => {
            assert_eq!(members.len(), 2);
            assert_eq!(members[0].0, "mcpCode");
            assert!(matches!(&members[0].1, JsonValue::Str(c) if c == "MCP_TIMEOUT"));
            assert_eq!(members[1].0, "message");
            assert!(matches!(&members[1].1, JsonValue::Str(m) if *m == e.describe()));
        }
        other => panic!("expected an object, got {:?}", other),
    }
}
