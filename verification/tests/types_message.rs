use claude_agent_sdk::AssistantMessage;
use claude_agent_sdk::ContentBlock;
use claude_agent_sdk::Message;
use claude_agent_sdk::ResultMessage;
use claude_agent_sdk::StreamEvent;
use claude_agent_sdk::UserMessage;
use claude_agent_sdk::UserMessageContent;

#[test]
fn test_user_message_text() {
    let msg = UserMessage::new(UserMessageContent::Text("Hello, friend!".to_string()));
    match &msg.content {
        UserMessageContent::Text(text) => assert_eq!(text, "Hello, friend!"),
        _ => panic!("Expected text content"),
    }
}

#[test]
fn test_user_message_blocks() {
    let blocks = vec![ContentBlock::text("Hello")];
    let msg = UserMessage::new(UserMessageContent::Blocks(blocks));
    match &msg.content {
        UserMessageContent::Blocks(b) => assert_eq!(b.len(), 1),
        _ => panic!("Expected block content"),
    }
}

#[test]
fn test_assistant_message_text_extraction() {
    let msg = AssistantMessage::new(
        vec![ContentBlock::text("Hello "), ContentBlock::text("World!")],
        "sonnet-3-5",
    );
    assert_eq!(msg.text(), "Hello World!");
}

#[test]
fn test_assistant_message_tool_uses() {
    let msg = AssistantMessage::new(
        vec![
            ContentBlock::text("first"),
            ContentBlock::tool_use("t1", "Bash", "{}"),
            ContentBlock::text("middle"),
            ContentBlock::tool_use("t2", "Read", "{}"),
        ],
        "sonnet-3-5",
    );
    let uses = msg.tool_uses();
    assert_eq!(uses.len(), 2);
    assert!(uses[0].is_tool_use());
    assert!(uses[1].is_tool_use());
}

#[test]
fn test_result_message() {
    let msg = ResultMessage::new("success", 1000, 800, false, 3, "session-123")
        .with_result("Task completed");
    assert_eq!(msg.duration_ms, 1000);
    assert_eq!(msg.result, Some("Task completed".to_string()));
    assert!(msg.total_cost_usd.is_none());
}

#[test]
fn test_stream_event_builder() {
    let event = StreamEvent::new("uuid-1", "session-1", "{\"type\":\"delta\"}".to_string());
    assert_eq!(event.uuid, "uuid-1");
    assert_eq!(event.session_id, "session-1");
}

#[test]
fn test_message_type_checks() {
    let user_msg: Message = UserMessage::new(UserMessageContent::Text("test".to_string())).into();
    assert!(user_msg.is_user());
    assert!(!user_msg.is_assistant());

    let assistant_msg: Message = AssistantMessage::new(vec![], "model").into();
    assert!(assistant_msg.is_assistant());
    assert!(!assistant_msg.is_user());
}

#[test]
fn test_message_as_conversions() {
    let msg: Message = UserMessage::new(UserMessageContent::Text("test".to_string())).into();
    assert!(msg.as_user().is_some());
    assert!(msg.as_assistant().is_none());
}
