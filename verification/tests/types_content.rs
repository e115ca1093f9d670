use claude_agent_sdk::ContentBlock;
use claude_agent_sdk::TextBlock;
use claude_agent_sdk::ThinkingBlock;
use claude_agent_sdk::ToolResultBlock;
use claude_agent_sdk::ToolUseBlock;

#[test]
fn test_text_block_new() {
    let block = TextBlock::new("Hello");
    assert_eq!(block.text, "Hello");
}

#[test]
fn test_thinking_block_new() {
    let block = ThinkingBlock::new("I'm thinking", "signature123");
    assert_eq!(block.thinking, "I'm thinking");
    assert_eq!(block.signature, "signature123");
}

#[test]
fn test_tool_use_block_new() {
    let block = ToolUseBlock::new("id-1", "Bash", "{\"cmd\":\"ls\"}");
    assert_eq!(block.id, "id-1");
    assert_eq!(block.name, "Bash");
    assert_eq!(block.input, "{\"cmd\":\"ls\"}");
}

#[test]
fn test_tool_result_block_builder() {
    let block = ToolResultBlock::new("tool-123");
    assert_eq!(block.tool_use_id, "tool-123");
    assert!(block.content.is_none());
    assert!(block.is_error.is_none());

    let block_with_content =
        ToolResultBlock::new("tool-456").with_content("\"result\"".to_string());
    assert!(block_with_content.content.is_some());

    let block_with_error = ToolResultBlock::new("tool-789").with_error(true);
    assert_eq!(block_with_error.is_error, Some(true));
}

#[test]
fn test_content_block_helpers() {
    let text = ContentBlock::text("test");
    assert!(text.is_text());
    assert!(!text.is_thinking());
    assert_eq!(text.as_text(), Some("test"));

    let thinking = ContentBlock::thinking("thought", "sig");
    assert!(thinking.is_thinking());
    assert_eq!(thinking.as_text(), None);

    let tool_use = ContentBlock::tool_use("id", "name", "{}");
    assert!(tool_use.is_tool_use());

    let tool_result = ContentBlock::tool_result("id", None, None);
    assert!(tool_result.is_tool_result());
}

#[test]
fn test_from_conversions() {
    let text_block = TextBlock::new("hello");
    let content: ContentBlock = text_block.into();
    assert!(content.is_text());

    let thinking_block = ThinkingBlock::new("thought", "sig");
    let content: ContentBlock = thinking_block.into();
    assert!(content.is_thinking());
}

#[test]
fn test_tool_use_block_from_conversion() {
    let tool_use_block = ToolUseBlock::new("tool-123", "Bash", "{\"command\":\"ls\"}");
    let content: ContentBlock = tool_use_block.into();
    assert!(content.is_tool_use());
}

#[test]
fn test_tool_result_block_from_conversion() {
    let tool_result_block = ToolResultBlock::new("tool-123")
        .with_content("\"output\"".to_string())
        .with_error(false);
    let content: ContentBlock = tool_result_block.into();
    assert!(content.is_tool_result());
}
