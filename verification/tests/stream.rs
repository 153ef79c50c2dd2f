use simse_core::acp_stream::{
    parse_delta, parse_session_update, parse_tool_call, parse_tool_call_update, StreamChunk,
    ToolCallKind, ToolCallStatus,
};
use simse_core::json::JsonValue;

fn s(t: &str) -> JsonValue {
    JsonValue::Str(t.to_string())
}

fn obj(members: Vec<(&str, JsonValue)>) -> JsonValue {
    JsonValue::Object(members.into_iter().map(|(k, v)| (k.to_string(), v)).collect())
}

fn notification(update: JsonValue) -> JsonValue {
    obj(vec![("sessionId", s("sess-1")), ("update", update)])
}

#[test]
fn test_parse_delta_from_text_block() {
    let value = notification(obj(vec![
        ("sessionUpdate", s("agent_message_chunk")),
        ("content", JsonValue::Array(vec![obj(vec![("type", s("text")), ("text", s("hello world"))])])),
    ]));
    let chunk = parse_session_update(value).unwrap();
    match chunk {
        StreamChunk::Delta { text } => assert_eq!(text, "hello world"),
        _ => panic!("expected Delta"),
    }
}

#[test]
fn test_parse_delta_from_single_block() {
    let value = notification(obj(vec![
        ("sessionUpdate", s("agent_message_chunk")),
        ("content", obj(vec![("type", s("text")), ("text", s("single block"))])),
    ]));
    let chunk = parse_session_update(value).unwrap();
    match chunk {
        StreamChunk::Delta { text } => assert_eq!(text, "single block"),
        _ => panic!("expected Delta"),
    }
}

#[test]
fn test_parse_delta_without_type_field() {
    let value = notification(obj(vec![
        ("sessionUpdate", s("agent_message_chunk")),
        ("content", obj(vec![("text", s("no type field"))])),
    ]));
    let chunk = parse_session_update(value).unwrap();
    match chunk {
        StreamChunk::Delta { text } => assert_eq!(text, "no type field"),
        _ => panic!("expected Delta"),
    }
}

#[test]
fn test_parse_tool_call() {
    let value = notification(obj(vec![
        ("sessionUpdate", s("tool_call")),
        ("toolCallId", s("tc-123")),
        ("title", s("Read file")),
        ("kind", s("read")),
        ("status", s("pending")),
    ]));
    let chunk = parse_session_update(value).unwrap();
    match chunk {
        StreamChunk::ToolCall { tool_call } => {
            assert_eq!(tool_call.tool_call_id, "tc-123");
            assert_eq!(tool_call.title, "Read file");
            assert_eq!(tool_call.kind, ToolCallKind::Read);
            assert_eq!(tool_call.status, ToolCallStatus::Pending);
        }
        _ => panic!("expected ToolCall"),
    }
}

#[test]
fn test_parse_tool_call_update() {
    let value = notification(obj(vec![
        ("sessionUpdate", s("tool_call_update")),
        ("toolCallId", s("tc-123")),
        ("status", s("completed")),
        ("content", obj(vec![("result", s("file contents"))])),
    ]));
    let chunk = parse_session_update(value).unwrap();
    match chunk {
        StreamChunk::ToolCallUpdate { update } => {
            assert_eq!(update.tool_call_id, "tc-123");
            assert_eq!(update.status, ToolCallStatus::Completed);
            assert!(update.content.is_some());
        }
        _ => panic!("expected ToolCallUpdate"),
    }
}

#[test]
fn test_parse_unknown_update_returns_none() {
    let value = notification(obj(vec![("sessionUpdate", s("some_other_event"))]));
    assert!(parse_session_update(value).is_none());
}

#[test]
fn test_parse_missing_update_returns_none() {
    let value = obj(vec![("sessionId", s("sess-1"))]);
    assert!(parse_session_update(value).is_none());
}

#[test]
fn test_parse_empty_text_content_returns_none() {
    let value = notification(obj(vec![
        ("sessionUpdate", s("agent_message_chunk")),
        ("content", JsonValue::Array(vec![obj(vec![("type", s("text")), ("text", s(""))])])),
    ]));
    assert!(parse_session_update(value).is_none());
}

#[test]
fn test_parse_tool_call_with_defaults() {
    let value = notification(obj(vec![
        ("sessionUpdate", s("tool_call")),
        ("toolCallId", s("tc-456")),
        ("title", s("Unknown tool")),
    ]));
    let chunk = parse_session_update(value).unwrap();
    match chunk {
        StreamChunk::ToolCall { tool_call } => {
            assert_eq!(tool_call.kind, ToolCallKind::Other);
            assert_eq!(tool_call.status, ToolCallStatus::Pending);
        }
        _ => panic!("expected ToolCall"),
    }
}

#[test]
fn test_parse_tool_call_update_with_defaults() {
    let value = notification(obj(vec![
        ("sessionUpdate", s("tool_call_update")),
        ("toolCallId", s("tc-789")),
    ]));
    let chunk = parse_session_update(value).unwrap();
    match chunk {
        StreamChunk::ToolCallUpdate { update } => {
            assert_eq!(update.tool_call_id, "tc-789");
            assert_eq!(update.status, ToolCallStatus::InProgress);
            assert!(update.content.is_none());
        }
        _ => panic!("expected ToolCallUpdate"),
    }
}

#[test]
fn delta_joins_text_blocks_and_skips_other_types() {
    let update = obj(vec![(
        "content",
        JsonValue::Array(vec![
            obj(vec![("type", s("text")), ("text", s("ab"))]),
            obj(vec![("type", s("image")), ("text", s("zz"))]),
            obj(vec![("text", s("cd"))]),
            obj(vec![("type", JsonValue::Bool(true)), ("text", s("ef"))]),
        ]),
    )]);
    match parse_delta(&update) {
        Some(StreamChunk::Delta { text }) => assert_eq!(text, "abcdef"),
        _ => panic!("expected Delta"),
    }
}

#[test]
fn delta_without_content_is_nothing() {
    let update = obj(vec![("other", s("x"))]);
    assert!(parse_delta(&update).is_none());
}

#[test]
fn tool_call_reads_every_field() {
    let update = obj(vec![
        ("toolCallId", s("id-1")),
        ("title", s("Run")),
        ("kind", s("execute")),
        ("status", s("failed")),
    ]);
    match parse_tool_call(&update) {
        Some(StreamChunk::ToolCall { tool_call }) => {
            assert_eq!(tool_call.tool_call_id, "id-1");
            assert_eq!(tool_call.title, "Run");
            assert_eq!(tool_call.kind, ToolCallKind::Execute);
            assert_eq!(tool_call.status, ToolCallStatus::Failed);
        }
        _ => panic!("expected ToolCall"),
    }
}

#[test]
fn tool_call_update_keeps_content() {
    let update = obj(vec![("toolCallId", s("id-2")), ("content", s("done"))]);
    match parse_tool_call_update(update) {
        Some(StreamChunk::ToolCallUpdate { update }) => {
            assert_eq!(update.tool_call_id, "id-2");
            match update.content {
                Some(JsonValue::Str(t)) => assert_eq!(t, "done"),
                _ => panic!("expected string content"),
            }
        }
        _ => panic!("expected ToolCallUpdate"),
    }
}

#[test]
fn json_lookup_takes_first_member() {
    let v = obj(vec![("a", s("1")), ("b", s("2")), ("a", s("3"))]);
    assert_eq!(v.get_str("a"), Some("1"));
    assert_eq!(v.get_str("b"), Some("2"));
    assert_eq!(v.get_str("c"), None);
    assert!(s("x").get("a").is_none());
}
