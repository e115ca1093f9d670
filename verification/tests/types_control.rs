use claude_agent_sdk::ControlResponseVariant;
use claude_agent_sdk::SDKControlInitializeRequest;
use claude_agent_sdk::SDKControlInterruptRequest;
use claude_agent_sdk::SDKControlMcpStatusRequest;
use claude_agent_sdk::SDKControlRequest;
use claude_agent_sdk::SDKControlRequestVariant;
use claude_agent_sdk::SDKControlResponse;
use claude_agent_sdk::SDKControlRewindFilesRequest;
use claude_agent_sdk::SDKControlSetModelRequest;
use claude_agent_sdk::SDKControlSetPermissionModeRequest;

#[test]
fn test_sdk_control_interrupt_request_default() {
    let request = SDKControlInterruptRequest::default();
    assert_eq!(request.subtype, "interrupt");
}

#[test]
fn test_sdk_control_initialize_request_default() {
    let request = SDKControlInitializeRequest::default();
    assert_eq!(request.subtype, "initialize");
    assert!(request.hooks.is_none());
}

#[test]
fn test_sdk_control_set_permission_mode_request_new() {
    let request = SDKControlSetPermissionModeRequest::new("acceptEdits");
    assert_eq!(request.subtype, "set_permission_mode");
    assert_eq!(request.mode, "acceptEdits");
}

#[test]
fn test_sdk_control_set_model_request_new() {
    let request = SDKControlSetModelRequest::new(Some("sonnet-3-5".to_string()));
    assert_eq!(request.subtype, "set_model");
    assert_eq!(request.model, Some("sonnet-3-5".to_string()));
}

#[test]
fn test_sdk_control_rewind_files_request_new() {
    let request = SDKControlRewindFilesRequest::new("user-msg-123");
    assert_eq!(request.subtype, "rewind_files");
    assert_eq!(request.user_message_id, "user-msg-123");
}

#[test]
fn test_sdk_control_mcp_status_request_default() {
    let request = SDKControlMcpStatusRequest::default();
    assert_eq!(request.subtype, "mcp_status");
}

#[test]
fn test_control_request_interrupt() {
    let request = SDKControlRequest::interrupt("req-1");
    let json = request.to_json();
    assert!(json.contains("\"type\":\"control_request\""));
    assert!(json.contains("\"request_id\":\"req-1\""));
    assert!(json.contains("\"subtype\":\"interrupt\""));
}

#[test]
fn test_control_request_initialize() {
    let request = SDKControlRequest::initialize("req-2", None);
    let json = request.to_json();
    assert!(json.contains("\"subtype\":\"initialize\""));
}

#[test]
fn test_control_request_set_permission_mode() {
    let request = SDKControlRequest::set_permission_mode("req-3", "acceptEdits");
    let json = request.to_json();
    assert!(json.contains("\"subtype\":\"set_permission_mode\""));
    assert!(json.contains("\"mode\":\"acceptEdits\""));
}

#[test]
fn test_control_response_success() {
    let response = SDKControlResponse::success("req-1", Some("{\"status\":\"ok\"}".to_string()));
    assert!(response.is_success());
    assert!(!response.is_error());
    assert_eq!(response.request_id(), "req-1");
}

#[test]
fn test_control_response_error() {
    let response = SDKControlResponse::error("req-1", "Something went wrong");
    assert!(response.is_error());
    assert!(!response.is_success());
    assert_eq!(response.response.error(), Some("Something went wrong"));
}

#[test]
fn test_control_response_wire_shape() {
    let response = SDKControlResponse::success("req-1", Some("{\"data\":123}".to_string()));
    let json = response.to_json();
    assert!(json.contains("\"type\":\"control_response\""));
    assert!(json.contains("\"subtype\":\"success\""));

    let parsed: serde_json::Value = serde_json::from_str(&json).unwrap();
    assert_eq!(parsed["response"]["request_id"], "req-1");
    assert_eq!(parsed["response"]["response"]["data"], 123);
}

#[test]
fn test_sdk_control_request_new() {
    let request = SDKControlRequest::new("req-1", SDKControlRequestVariant::Interrupt);
    assert_eq!(request.request_type, "control_request");
    assert_eq!(request.request_id, "req-1");
}

#[test]
fn test_sdk_control_request_set_model() {
    let request = SDKControlRequest::set_model("req-1", Some("sonnet-3-5".to_string()));
    let json = request.to_json();
    assert!(json.contains("\"subtype\":\"set_model\""));
    assert!(json.contains("\"model\":\"sonnet-3-5\""));
}

#[test]
fn test_sdk_control_request_set_model_none() {
    let request = SDKControlRequest::set_model("req-1", None);
    let json = request.to_json();
    assert!(json.contains("\"subtype\":\"set_model\""));
    assert!(!json.contains("\"model\""));
}

#[test]
fn test_sdk_control_request_mcp_status() {
    let request = SDKControlRequest::mcp_status("req-1");
    let json = request.to_json();
    assert!(json.contains("\"subtype\":\"mcp_status\""));
}

#[test]
fn test_sdk_control_request_rewind_files() {
    let request = SDKControlRequest::rewind_files("req-1", "user-msg-123");
    let json = request.to_json();
    assert!(json.contains("\"subtype\":\"rewind_files\""));
    assert!(json.contains("\"user_message_id\":\"user-msg-123\""));
}

#[test]
fn test_control_response_variant_request_id() {
    let success = ControlResponseVariant::Success {
        request_id: "req-1".to_string(),
        response: None,
    };
    assert_eq!(success.request_id(), "req-1");

    let error = ControlResponseVariant::Error {
        request_id: "req-2".to_string(),
        error: "something went wrong".to_string(),
    };
    assert_eq!(error.request_id(), "req-2");
}

#[test]
fn test_control_response_variant_is_success() {
    let success = ControlResponseVariant::Success {
        request_id: "req-1".to_string(),
        response: Some("{}".to_string()),
    };
    assert!(success.is_success());
    assert!(!success.is_error());
}

#[test]
fn test_control_response_variant_is_error() {
    let error = ControlResponseVariant::Error {
        request_id: "req-1".to_string(),
        error: "error message".to_string(),
    };
    assert!(error.is_error());
    assert!(!error.is_success());
}

#[test]
fn test_control_response_variant_response() {
    let success = ControlResponseVariant::Success {
        request_id: "req-1".to_string(),
        response: Some("{\"key\":\"value\"}".to_string()),
    };
    assert!(success.response().is_some());
    assert_eq!(success.response().unwrap(), "{\"key\":\"value\"}");

    let error = ControlResponseVariant::Error {
        request_id: "req-1".to_string(),
        error: "error".to_string(),
    };
    assert!(error.response().is_none());
}

#[test]
fn test_control_response_variant_error() {
    let success = ControlResponseVariant::Success {
        request_id: "req-1".to_string(),
        response: None,
    };
    assert!(success.error().is_none());

    let error = ControlResponseVariant::Error {
        request_id: "req-1".to_string(),
        error: "error message".to_string(),
    };
    assert_eq!(error.error(), Some("error message"));
}

#[test]
fn test_control_request_variant_can_use_tool() {
    let variant = SDKControlRequestVariant::CanUseTool {
        tool_name: "Bash".to_string(),
        input: "{\"command\":\"ls\"}".to_string(),
        permission_suggestions: None,
        blocked_path: None,
    };
    let json = SDKControlRequest::new("req-1", variant).to_json();
    assert!(json.contains("\"subtype\":\"can_use_tool\""));
    assert!(json.contains("\"tool_name\":\"Bash\""));
}

#[test]
fn test_control_request_variant_hook_callback() {
    let variant = SDKControlRequestVariant::HookCallback {
        callback_id: "hook_0".to_string(),
        input: "{\"event\":\"test\"}".to_string(),
        tool_use_id: Some("tool-123".to_string()),
    };
    let json = SDKControlRequest::new("req-1", variant).to_json();
    assert!(json.contains("\"subtype\":\"hook_callback\""));
    assert!(json.contains("\"callback_id\":\"hook_0\""));
}

#[test]
fn test_control_request_variant_mcp_message() {
    let variant = SDKControlRequestVariant::McpMessage {
        server_name: "test-server".to_string(),
        message: "{\"jsonrpc\":\"2.0\",\"method\":\"tools/list\",\"id\":1}".to_string(),
    };
    let json = SDKControlRequest::new("req-1", variant).to_json();
    assert!(json.contains("\"subtype\":\"mcp_message\""));
    assert!(json.contains("\"server_name\":\"test-server\""));
}

#[test]
fn test_control_request_initialize_with_hooks() {
    let hooks = "{\"PreToolUse\":[{\"matcher\":\"Bash\"}]}".to_string();
    let request = SDKControlRequest::initialize("req-1", Some(hooks));
    let json = request.to_json();
    assert!(json.contains("\"subtype\":\"initialize\""));
    assert!(json.contains("\"hooks\""));
}

#[test]
fn test_control_request_escapes_request_id() {
    let request = SDKControlRequest::interrupt("id with \"quotes\" and \\ backslash");
    let json = request.to_json();
    let parsed: serde_json::Value = serde_json::from_str(&json).unwrap();
    assert_eq!(parsed["request_id"], "id with \"quotes\" and \\ backslash");
}
