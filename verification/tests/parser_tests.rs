use claude_agent_sdk::parse_message;
use claude_agent_sdk::ClaudeSDKError;
use claude_agent_sdk::ContentBlock;
use claude_agent_sdk::Message;
use claude_agent_sdk::UserMessageContent;

#[test]
fn test_parse_user_message_text() {
    let data = "{\"type\":\"user\",\"message\":{\"role\":\"user\",\"content\":\"Hello, friend!\"}}";

    let msg = parse_message(data).unwrap();
    assert!(msg.is_user());

    if let Message::User(user_msg) = msg {
        match user_msg.content {
            UserMessageContent::Text(text) => assert_eq!(text, "Hello, friend!"),
            _ => panic!("Expected text content"),
        }
    }
}

#[test]
fn test_parse_user_message_with_blocks() {
    let data = "{\"type\":\"user\",\"uuid\":\"uuid-123\",\"message\":{\"role\":\"user\",\"content\":[{\"type\":\"text\",\"text\":\"Hello\"},{\"type\":\"tool_result\",\"tool_use_id\":\"tool-1\",\"content\":\"result\"}]}}";

    let msg = parse_message(data).unwrap();
    if let Message::User(user_msg) = msg {
        assert_eq!(user_msg.uuid, Some("uuid-123".to_string()));
        match user_msg.content {
            UserMessageContent::Blocks(blocks) => assert_eq!(blocks.len(), 2),
            _ => panic!("Expected block content"),
        }
    }
}

#[test]
fn test_parse_assistant_message() {
    let data = "{\"type\":\"assistant\",\"message\":{\"model\":\"sonnet-3-5\",\"content\":[{\"type\":\"text\",\"text\":\"Hello!\"},{\"type\":\"thinking\",\"thinking\":\"Let me think...\",\"signature\":\"sig123\"}]}}";

    let msg = parse_message(data).unwrap();
    assert!(msg.is_assistant());

    if let Message::Assistant(asst_msg) = msg {
        assert_eq!(asst_msg.model, "sonnet-3-5");
        assert_eq!(asst_msg.content.len(), 2);
    }
}

#[test]
fn test_parse_assistant_message_with_tool_use() {
    let data = "{\"type\":\"assistant\",\"message\":{\"model\":\"sonnet-3-5\",\"content\":[{\"type\":\"tool_use\",\"id\":\"tool-123\",\"name\":\"Bash\",\"input\":{\"command\":\"ls\"}}]}}";

    let msg = parse_message(data).unwrap();
    if let Message::Assistant(asst_msg) = msg {
        assert_eq!(asst_msg.content.len(), 1);
        assert!(asst_msg.content[0].is_tool_use());
        if let ContentBlock::ToolUse { input, .. } = &asst_msg.content[0] {
            let v: serde_json::Value = serde_json::from_str(input).unwrap();
            assert_eq!(v["command"], "ls");
        }
    }
}

#[test]
fn test_parse_system_message() {
    let data = "{\"type\":\"system\",\"subtype\":\"init\",\"data\":{\"key\":\"value\"}}";

    let msg = parse_message(data).unwrap();
    assert!(msg.is_system());

    if let Message::System(sys_msg) = msg {
        assert_eq!(sys_msg.subtype, "init");
    }
}

#[test]
fn test_parse_result_message() {
    let data = "{\"type\":\"result\",\"subtype\":\"success\",\"duration_ms\":1000,\"duration_api_ms\":800,\"is_error\":false,\"num_turns\":3,\"session_id\":\"session-123\",\"total_cost_usd\":0.05}";

    let msg = parse_message(data).unwrap();
    assert!(msg.is_result());

    if let Message::Result(result_msg) = msg {
        assert_eq!(result_msg.session_id, "session-123");
        assert_eq!(result_msg.duration_ms, 1000);
        assert_eq!(result_msg.total_cost_usd, Some("0.05".to_string()));
    }
}

#[test]
fn test_parse_stream_event() {
    let data = "{\"type\":\"stream_event\",\"uuid\":\"uuid-1\",\"session_id\":\"session-1\",\"event\":{\"type\":\"content_block_delta\"}}";

    let msg = parse_message(data).unwrap();
    assert!(msg.is_stream_event());

    if let Message::StreamEvent(event) = msg {
        assert_eq!(event.uuid, "uuid-1");
        assert_eq!(event.session_id, "session-1");
    }
}

#[test]
fn test_parse_unknown_type() {
    let data = "{\"type\":\"unknown_type\"}";

    let result = parse_message(data);
    assert!(result.is_err());
}

#[test]
fn test_parse_missing_type() {
    let data = "{\"content\":\"hello\"}";

    let result = parse_message(data);
    assert!(result.is_err());
}

#[test]
fn test_parse_invalid_data_type() {
    let data = "\"not an object\"";

    let result = parse_message(data);
    assert!(result.is_err());
    if let Err(ClaudeSDKError::MessageParse { message, .. }) = result {
        assert!(message.contains("expected object, got string"));
    } else {
        panic!("Expected message parse error");
    }
}

#[test]
fn test_parse_user_message_with_parent_tool_use_id() {
    let data = "{\"type\":\"user\",\"uuid\":\"uuid-1\",\"parent_tool_use_id\":\"tool-use-123\",\"message\":{\"role\":\"user\",\"content\":\"Tool result\"}}";

    let msg = parse_message(data).unwrap();
    if let Message::User(user_msg) = msg {
        assert_eq!(
            user_msg.parent_tool_use_id,
            Some("tool-use-123".to_string())
        );
    } else {
        panic!("Expected user message");
    }
}

#[test]
fn test_parse_assistant_message_with_error() {
    let data = "{\"type\":\"assistant\",\"message\":{\"model\":\"sonnet-3-5\",\"content\":[],\"error\":\"rate_limit\"}}";

    let msg = parse_message(data).unwrap();
    if let Message::Assistant(asst_msg) = msg {
        assert!(asst_msg.error.is_some());
    } else {
        panic!("Expected assistant message");
    }
}

#[test]
fn test_parse_result_message_with_all_fields() {
    let data = "{\"type\":\"result\",\"subtype\":\"success\",\"duration_ms\":5000,\"duration_api_ms\":4500,\"is_error\":false,\"num_turns\":5,\"session_id\":\"session-abc\",\"total_cost_usd\":0.123,\"result\":\"Task completed successfully\",\"usage\":{\"input_tokens\":100,\"output_tokens\":200}}";

    let msg = parse_message(data).unwrap();
    if let Message::Result(result_msg) = msg {
        assert_eq!(result_msg.session_id, "session-abc");
        assert_eq!(result_msg.num_turns, 5);
        assert_eq!(result_msg.total_cost_usd, Some("0.123".to_string()));
        assert_eq!(
            result_msg.result,
            Some("Task completed successfully".to_string())
        );
        assert!(result_msg.usage.is_some());
    } else {
        panic!("Expected result message");
    }
}

#[test]
fn test_parse_array_data_type() {
    let data = "[1,2,3]";
    let result = parse_message(data);
    assert!(result.is_err());
}

#[test]
fn test_parse_null_data_type() {
    let data = "null";
    let result = parse_message(data);
    assert!(result.is_err());
}

#[test]
fn test_parse_content_block_text() {
    let data = "{\"type\":\"assistant\",\"message\":{\"model\":\"sonnet-3-5\",\"content\":[{\"type\":\"text\",\"text\":\"Hello, world!\"}]}}";

    let msg = parse_message(data).unwrap();
    if let Message::Assistant(asst_msg) = msg {
        assert_eq!(asst_msg.content.len(), 1);
        assert!(asst_msg.content[0].is_text());
        assert_eq!(asst_msg.content[0].as_text(), Some("Hello, world!"));
    } else {
        panic!("Expected assistant message");
    }
}

#[test]
fn test_parse_content_block_tool_result() {
    let data = "{\"type\":\"user\",\"message\":{\"role\":\"user\",\"content\":[{\"type\":\"tool_result\",\"tool_use_id\":\"tool-123\",\"content\":{\"result\":\"success\"},\"is_error\":false}]}}";

    let msg = parse_message(data).unwrap();
    if let Message::User(user_msg) = msg {
        match user_msg.content {
            UserMessageContent::Blocks(blocks) => {
                assert_eq!(blocks.len(), 1);
                assert!(blocks[0].is_tool_result());
            }
            _ => panic!("Expected blocks content"),
        }
    } else {
        panic!("Expected user message");
    }
}

#[test]
fn test_parse_skips_unknown_content_blocks() {
    let data = "{\"type\":\"assistant\",\"message\":{\"model\":\"m\",\"content\":[{\"type\":\"mystery\"},{\"type\":\"text\",\"text\":\"kept\"}]}}";

    let msg = parse_message(data).unwrap();
    if let Message::Assistant(asst_msg) = msg {
        assert_eq!(asst_msg.content.len(), 1);
        assert_eq!(asst_msg.content[0].as_text(), Some("kept"));
    } else {
        panic!("Expected assistant message");
    }
}

#[test]
fn test_parse_assistant_model_defaults_to_unknown() {
    let data = "{\"type\":\"assistant\",\"message\":{\"content\":[]}}";

    let msg = parse_message(data).unwrap();
    if let Message::Assistant(asst_msg) = msg {
        assert_eq!(asst_msg.model, "unknown");
    } else {
        panic!("Expected assistant message");
    }
}

#[test]
fn test_parse_result_missing_duration_fails() {
    let data = "{\"type\":\"result\",\"session_id\":\"s\"}";
    let result = parse_message(data);
    assert!(result.is_err());
    if let Err(ClaudeSDKError::MessageParse { message, .. }) = result {
        assert!(message.contains("duration_ms"));
    } else {
        panic!("Expected message parse error");
    }
}

#[test]
fn test_assistant_text_concatenation() {
    let data = "{\"type\":\"assistant\",\"message\":{\"model\":\"m\",\"content\":[{\"type\":\"text\",\"text\":\"Hello \"},{\"type\":\"text\",\"text\":\"World!\"}]}}";

    let msg = parse_message(data).unwrap();
    if let Message::Assistant(asst_msg) = msg {
        assert_eq!(asst_msg.text(), "Hello World!");
    } else {
        panic!("Expected assistant message");
    }
}
