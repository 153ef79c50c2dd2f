use simse_core::conversation::{format_message, Conversation, ConversationMessage, ConversationOptions, Role};

fn opts(max: Option<usize>, window: Option<usize>) -> ConversationOptions {
    ConversationOptions { system_prompt: Some("sys".to_string()), max_messages: max, auto_compact_chars: Some(10), context_window_tokens: window }
}

#[test]
fn messages_accumulate_and_trim() {
    let c = Conversation::new(Some(opts(Some(2), None)));
    let c = c.add_user("one").add_assistant("two").add_tool_result("id1", "ls", "three");
    assert_eq!(c.message_count(), 2);
    let all = c.to_messages();
    assert_eq!(all.len(), 3);
    assert_eq!(all[0].role, Role::System);
    assert_eq!(all[0].content, "sys");
    assert_eq!(all[1].content, "two");
    assert_eq!(all[2].tool_name.as_deref(), Some("ls"));
    assert!(all[2].timestamp.is_some());
}

#[test]
fn compact_and_budget() {
    let c = Conversation::new(Some(opts(None, Some(4))));
    let c = c.add_user("hello world");
    assert_eq!(c.estimated_chars(), 14);
    assert_eq!(c.estimated_tokens(), 4);
    assert!(c.needs_compaction());
    assert_eq!(c.context_usage_percent(), 100);
    let c = c.compact("short");
    assert_eq!(c.message_count(), 1);
    assert_eq!(c.to_messages()[1].content, "[Conversation summary]\nshort");
    let c = c.clear();
    assert_eq!(c.message_count(), 0);
    assert_eq!(c.system_prompt(), Some("sys"));
    assert_eq!(Conversation::new(None).context_usage_percent(), 0);
}

#[test]
fn replace_and_restore_skip_system_messages() {
    let msgs = vec![
        ConversationMessage { role: Role::System, content: "x".to_string(), tool_call_id: None, tool_name: None, timestamp: None },
        ConversationMessage { role: Role::User, content: "u".to_string(), tool_call_id: None, tool_name: None, timestamp: None },
    ];
    let c = Conversation::new(None).replace_messages(&msgs);
    assert_eq!(c.message_count(), 1);
    let c = c.load_messages(msgs.clone());
    assert_eq!(c.message_count(), 2);
    let c = c.restore(Some(String::new()), msgs.clone());
    assert_eq!(c.system_prompt(), None);
    let c = c.restore(Some("p".to_string()), msgs);
    assert_eq!(c.system_prompt(), Some("p"));
    assert_eq!(c.message_count(), 1);
}

#[test]
fn serialization_text() {
    let c = Conversation::new(Some(opts(None, None))).set_system_prompt("S".to_string());
    let c = c.load_messages(vec![
        ConversationMessage { role: Role::User, content: "hi".to_string(), tool_call_id: None, tool_name: None, timestamp: None },
        ConversationMessage { role: Role::ToolResult, content: "out".to_string(), tool_call_id: Some("c1".to_string()), tool_name: None, timestamp: None },
    ]);
    assert_eq!(c.serialize(), "[System]\nS\n\n[User]\nhi\n\n[Tool Result: c1]\nout");
    let m = ConversationMessage { role: Role::ToolResult, content: "o".to_string(), tool_call_id: None, tool_name: None, timestamp: None };
    assert_eq!(format_message(&m), "[Tool Result: unknown]\no");
}
