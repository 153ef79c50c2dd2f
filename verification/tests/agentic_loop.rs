use simse_core::agentic_loop::{
    build_compaction_prompt, doom_loop_warning, estimate_chars, is_transient_error,
    is_transient_tool_output, retry_delay_ms, should_compact, should_retry_generation,
    should_retry_tool, summary_message, tool_result_message, with_extra_context,
    CancellationToken, DoomLoopDetector, GenerateResponse, Message, MessageRole, RetryConfig,
    TokenUsage, TurnType, COMPACTION_THRESHOLD_CHARS, DEFAULT_COMPACTION_PROMPT,
};
use simse_core::error::{ConfigErrorCode, ProviderErrorCode, SimseError};

#[test]
fn test_cancellation_token_new_not_cancelled() {
    let token = CancellationToken::new();
    assert!(!token.is_cancelled());
}

#[test]
fn test_cancellation_token_cancel() {
    let token = CancellationToken::new();
    token.cancel();
    assert!(token.is_cancelled());
}

#[test]
fn test_cancellation_token_clone_shares_state() {
    let token = CancellationToken::new();
    let clone = token.clone();
    token.cancel();
    assert!(clone.is_cancelled());
}

#[test]
fn test_cancellation_token_default() {
    let token = CancellationToken::default();
    assert!(!token.is_cancelled());
}

#[test]
fn test_token_usage_accumulate() {
    let mut total = TokenUsage::default();
    let u1 = TokenUsage {
        prompt_tokens: Some(10),
        completion_tokens: Some(20),
        total_tokens: Some(30),
    };
    total.accumulate(&u1);
    assert_eq!(total.prompt_tokens, Some(10));
    assert_eq!(total.completion_tokens, Some(20));
    assert_eq!(total.total_tokens, Some(30));

    let u2 = TokenUsage {
        prompt_tokens: Some(5),
        completion_tokens: None,
        total_tokens: Some(5),
    };
    total.accumulate(&u2);
    assert_eq!(total.prompt_tokens, Some(15));
    assert_eq!(total.completion_tokens, Some(20));
    assert_eq!(total.total_tokens, Some(35));
}

#[test]
fn test_token_usage_accumulate_none_plus_none() {
    let mut total = TokenUsage::default();
    let empty = TokenUsage::default();
    total.accumulate(&empty);
    assert!(total.prompt_tokens.is_none());
    assert!(total.completion_tokens.is_none());
    assert!(total.total_tokens.is_none());
}

#[test]
fn token_usage_accumulate_is_associative_on_example() {
    let a = TokenUsage { prompt_tokens: Some(1), completion_tokens: None, total_tokens: Some(1) };
    let b = TokenUsage { prompt_tokens: None, completion_tokens: Some(2), total_tokens: Some(2) };
    let c = TokenUsage { prompt_tokens: Some(4), completion_tokens: Some(4), total_tokens: None };
    let mut left = a;
    left.accumulate(&b);
    left.accumulate(&c);
    let mut bc = b;
    bc.accumulate(&c);
    let mut right = a;
    right.accumulate(&bc);
    assert_eq!(left, right);
    assert_eq!(left.prompt_tokens, Some(5));
}

#[test]
fn test_is_transient_tool_output_timeout() {
    assert!(is_transient_tool_output("Error: request Timeout"));
    assert!(is_transient_tool_output("Service Unavailable"));
    assert!(is_transient_tool_output("ECONNREFUSED 127.0.0.1:3000"));
    assert!(is_transient_tool_output("socket hang up"));
    assert!(is_transient_tool_output("network error"));
    assert!(is_transient_tool_output("HTTP 503 error"));
    assert!(is_transient_tool_output("rate limited 429"));
    assert!(is_transient_tool_output("ECONNRESET by peer"));
    assert!(is_transient_tool_output("ETIMEDOUT after 30s"));
}

#[test]
fn test_is_transient_tool_output_not_transient() {
    assert!(!is_transient_tool_output("file not found"));
    assert!(!is_transient_tool_output("permission denied"));
    assert!(!is_transient_tool_output("success"));
    assert!(!is_transient_tool_output(""));
}

#[test]
fn test_is_transient_error_retriable() {
    let err = SimseError::provider(ProviderErrorCode::Timeout, "timed out", None);
    assert!(is_transient_error(&err));
}

#[test]
fn test_is_transient_error_not_retriable() {
    let err = SimseError::config(ConfigErrorCode::InvalidField, "bad field");
    assert!(!is_transient_error(&err));
}

#[test]
fn test_default_compaction_prompt_is_not_empty() {
    assert!(!DEFAULT_COMPACTION_PROMPT.is_empty());
    assert!(DEFAULT_COMPACTION_PROMPT.contains("Goal"));
    assert!(DEFAULT_COMPACTION_PROMPT.contains("Next Steps"));
}

#[test]
fn test_retry_config_default() {
    let config = RetryConfig::default();
    assert_eq!(config.max_attempts, 2);
    assert_eq!(config.base_delay_ms, 500);
}

#[test]
fn test_turn_type_eq() {
    assert_eq!(TurnType::Text, TurnType::Text);
    assert_eq!(TurnType::ToolUse, TurnType::ToolUse);
    assert_ne!(TurnType::Text, TurnType::ToolUse);
}

#[test]
fn test_message_role_eq() {
    assert_eq!(MessageRole::User, MessageRole::User);
    assert_eq!(MessageRole::Assistant, MessageRole::Assistant);
    assert_eq!(MessageRole::System, MessageRole::System);
    assert_ne!(MessageRole::User, MessageRole::Assistant);
}

#[test]
fn test_estimate_chars() {
    let msgs = vec![
        Message { role: MessageRole::User, content: "hello".to_string() },
        Message { role: MessageRole::Assistant, content: "world!".to_string() },
    ];
    assert_eq!(estimate_chars(&msgs), 11);
}

#[test]
fn test_estimate_chars_empty() {
    let msgs: Vec<Message> = vec![];
    assert_eq!(estimate_chars(&msgs), 0);
}

#[test]
fn estimate_chars_counts_utf8_bytes() {
    let msgs = vec![Message { role: MessageRole::User, content: "café".to_string() }];
    assert_eq!(estimate_chars(&msgs), 5);
}

#[test]
fn test_generate_response_clone() {
    let resp = GenerateResponse {
        text: "hello".to_string(),
        usage: Some(TokenUsage {
            prompt_tokens: Some(5),
            completion_tokens: Some(3),
            total_tokens: Some(8),
        }),
    };
    let cloned = resp.clone();
    assert_eq!(cloned.text, "hello");
    assert!(cloned.usage.is_some());
}

#[test]
fn retry_delay_doubles_per_attempt() {
    assert_eq!(retry_delay_ms(500, 0), 500);
    assert_eq!(retry_delay_ms(500, 1), 1000);
    assert_eq!(retry_delay_ms(500, 2), 2000);
    assert_eq!(retry_delay_ms(u64::MAX, 1), u64::MAX);
}

#[test]
fn retry_decisions() {
    assert!(should_retry_generation(0, 2, true));
    assert!(!should_retry_generation(1, 2, true));
    assert!(!should_retry_generation(0, 2, false));
    assert!(should_retry_tool(1, 2, true, "ECONNRESET"));
    assert!(!should_retry_tool(1, 2, true, "file not found"));
    assert!(!should_retry_tool(1, 2, false, "ECONNRESET"));
}

#[test]
fn compaction_threshold() {
    assert!(!should_compact(false, COMPACTION_THRESHOLD_CHARS + 1));
    assert!(!should_compact(true, COMPACTION_THRESHOLD_CHARS));
    assert!(should_compact(true, COMPACTION_THRESHOLD_CHARS + 1));
}

#[test]
fn compaction_prompt_mentions_conversation() {
    let msgs = vec![Message { role: MessageRole::User, content: "hi".to_string() }];
    let p = build_compaction_prompt(&msgs, None);
    assert_eq!(p, format!("[User]\nhi\n\n---\n\n{}", DEFAULT_COMPACTION_PROMPT));
    let q = build_compaction_prompt(&msgs, Some("Be brief."));
    assert_eq!(q, "[User]\nhi\n\n---\n\nBe brief.");
}

#[test]
fn extra_context_is_appended() {
    assert_eq!(with_extra_context("p".to_string(), None), "p");
    let s = with_extra_context("p".to_string(), Some("x"));
    assert_eq!(s, "p\n\nx");
}

#[test]
fn loop_messages() {
    let m = summary_message("sum");
    assert_eq!(m.role, MessageRole::User);
    assert_eq!(m.content, "[Conversation summary]\nsum");
    let t = tool_result_message("ls", "out");
    assert_eq!(t.content, "[Tool Result: ls]\nout");
    let w = doom_loop_warning("ls", 3);
    assert_eq!(w.role, MessageRole::System);
    assert!(w.content.starts_with("WARNING: You have called the tool 'ls' 3 times in a row"));
}

#[test]
fn doom_loop_fires_on_repetition() {
    let mut d = DoomLoopDetector::new(3);
    assert!(!d.record("ls", "{}"));
    assert!(!d.record("ls", "{}"));
    assert!(d.record("ls", "{}"));
    assert!(!d.record("cat", "{}"));
}

#[test]
fn core_error_as_json_rpc_data() {
    let err = SimseError::config(ConfigErrorCode::InvalidField, "bad field");
    match err.to_json_rpc_error() {
        simse_core::json::JsonValue::Object(members) => {
            assert_eq!(members.len(), 1);
            assert_eq!(members[0].0, "coreCode");
            assert!(matches!(&members[0].1, simse_core::json::JsonValue::Str(c) if c == "CONFIG_INVALID_FIELD"));
        }
        other => panic!("expected an object, got {:?}", other),
    }
}
