use simse_core::agentic_loop::{AgenticLoopOptions, Message, MessageRole, TokenUsage, TurnType};
use simse_core::loop_run::{LoopEnd, LoopRun, TurnStart};
use simse_core::tools::{text_only_response, ToolCallRequest, ToolCallResult};

#[test]
fn test_agentic_loop_options_default() {
    let opts = AgenticLoopOptions::default();
    assert_eq!(opts.max_turns, 10);
    assert!(!opts.auto_compact);
    assert!(opts.compaction_prompt.is_none());
    assert_eq!(opts.max_identical_tool_calls, 3);
    assert!(!opts.agent_manages_tools);
    assert_eq!(opts.stream_retry.max_attempts, 2);
    assert_eq!(opts.stream_retry.base_delay_ms, 1000);
    assert_eq!(opts.tool_retry.max_attempts, 2);
    assert_eq!(opts.tool_retry.base_delay_ms, 500);
    assert!(opts.system_prompt.is_none());
}

fn call(name: &str) -> ToolCallRequest {
    ToolCallRequest { id: "1".to_string(), name: name.to_string(), arguments: "{}".to_string() }
}

fn result(name: &str, output: &str) -> ToolCallResult {
    ToolCallResult {
        id: "1".to_string(),
        name: name.to_string(),
        output: output.to_string(),
        is_error: false,
        duration_ms: None,
        diff: None,
    }
}

#[test]
fn tool_turn_then_text_turn() {
    let opts = AgenticLoopOptions::default();
    let mut run = LoopRun::new(&opts);
    let mut messages = vec![Message { role: MessageRole::User, content: "list".to_string() }];

    assert_eq!(run.start_turn(false), TurnStart::Begin(1));
    run.record_usage(&Some(TokenUsage { prompt_tokens: Some(3), completion_tokens: None, total_tokens: Some(3) }));
    run.open_tool_turn(&mut messages, "calling ls");
    let c = call("ls");
    assert!(!run.check_tool_call(&mut messages, &c));
    let r = result("ls", "a b");
    run.record_tool_result(&mut messages, &r);
    run.finish_tool_turn("calling ls".to_string(), vec![c], vec![r], None, 5);

    assert_eq!(run.start_turn(false), TurnStart::Begin(2));
    run.finish_text_turn(&mut messages, "done".to_string(), None, 7);
    let out = run.into_result(LoopEnd::Completed, 12);

    assert_eq!(out.final_text, "done");
    assert_eq!(out.total_turns, 2);
    assert!(!out.hit_turn_limit);
    assert!(!out.aborted);
    assert_eq!(out.turns[0].turn_type, TurnType::ToolUse);
    assert_eq!(out.turns[1].turn, 2);
    assert_eq!(out.total_usage.unwrap().prompt_tokens, Some(3));
    let contents: Vec<&str> = messages.iter().map(|m| m.content.as_str()).collect();
    assert_eq!(contents, vec!["list", "calling ls", "[Tool Result: ls]\na b", "done"]);
}

#[test]
fn turn_limit_and_doom_loop() {
    let mut opts = AgenticLoopOptions::default();
    opts.max_turns = 2;
    opts.max_identical_tool_calls = 2;
    let mut run = LoopRun::new(&opts);
    let mut messages: Vec<Message> = Vec::new();
    for turn in 1..=2usize {
        assert_eq!(run.start_turn(false), TurnStart::Begin(turn));
        run.open_tool_turn(&mut messages, "");
        let c = call("ls");
        let fired = run.check_tool_call(&mut messages, &c);
        assert_eq!(fired, turn == 2);
        run.finish_tool_turn(String::new(), vec![c], vec![], None, 1);
    }
    assert_eq!(messages.len(), 3);
    assert_eq!(messages[2].role, MessageRole::System);
    assert!(messages[2].content.starts_with("WARNING: You have called the tool 'ls' 2 times"));
    assert_eq!(run.start_turn(false), TurnStart::TurnLimit);
    let out = run.into_result(LoopEnd::TurnLimit, 3);
    assert!(out.hit_turn_limit);
    assert_eq!(out.total_turns, 2);
    assert_eq!(out.final_text, "");
    assert!(out.turns[0].text.is_none());
}

#[test]
fn cancellation_before_a_turn() {
    let opts = AgenticLoopOptions::default();
    let mut run = LoopRun::new(&opts);
    assert_eq!(run.start_turn(true), TurnStart::Cancelled);
    let out = run.into_result(LoopEnd::Cancelled, 0);
    assert!(out.aborted);
    assert_eq!(out.total_turns, 0);
    assert_eq!(out.final_text, "");
}

#[test]
fn text_only_response_has_no_calls() {
    let p = text_only_response("hi");
    assert_eq!(p.text, "hi");
    assert!(p.tool_calls.is_empty());
}
