use claude_agent_sdk::BaseHookInput;
use claude_agent_sdk::HookContext;
use claude_agent_sdk::HookEvent;
use claude_agent_sdk::HookInput;
use claude_agent_sdk::HookJSONOutput;
use claude_agent_sdk::HookMatcherConfig;
use claude_agent_sdk::HookPermissionDecision;
use claude_agent_sdk::HookSpecificOutput;
use claude_agent_sdk::PostToolUseFailureHookSpecificOutput;
use claude_agent_sdk::PostToolUseHookSpecificOutput;
use claude_agent_sdk::PreCompactHookInput;
use claude_agent_sdk::PreCompactTrigger;
use claude_agent_sdk::PreToolUseHookSpecificOutput;
use claude_agent_sdk::PreToolUseHookInput;
use claude_agent_sdk::StopHookInput;
use claude_agent_sdk::UserPromptSubmitHookInput;
use claude_agent_sdk::UserPromptSubmitHookSpecificOutput;

#[test]
fn test_hook_event_display() {
    assert_eq!(HookEvent::PreToolUse.as_str(), "PreToolUse");
    assert_eq!(HookEvent::PostToolUse.as_str(), "PostToolUse");
    assert_eq!(HookEvent::Stop.as_str(), "Stop");
}

#[test]
fn test_hook_event_all_variants() {
    let events = [
        (HookEvent::PreToolUse, "PreToolUse"),
        (HookEvent::PostToolUse, "PostToolUse"),
        (HookEvent::PostToolUseFailure, "PostToolUseFailure"),
        (HookEvent::UserPromptSubmit, "UserPromptSubmit"),
        (HookEvent::Stop, "Stop"),
        (HookEvent::SubagentStop, "SubagentStop"),
        (HookEvent::PreCompact, "PreCompact"),
    ];

    for (event, expected_str) in events {
        assert_eq!(event.as_str(), expected_str);
        assert_eq!(format!("{}", event.as_str()), expected_str);
    }
}

#[test]
fn test_hook_context_new() {
    let context = HookContext::new();
    assert!(context.signal.is_none());
}

#[test]
fn test_post_tool_use_hook_specific_output() {
    let output = PostToolUseHookSpecificOutput::new();
    assert_eq!(output.hook_event_name, "PostToolUse");
    assert!(output.additional_context.is_none());
}

#[test]
fn test_post_tool_use_failure_hook_specific_output() {
    let output = PostToolUseFailureHookSpecificOutput::new();
    assert_eq!(output.hook_event_name, "PostToolUseFailure");
}

#[test]
fn test_user_prompt_submit_hook_specific_output() {
    let output = UserPromptSubmitHookSpecificOutput::new();
    assert_eq!(output.hook_event_name, "UserPromptSubmit");
}

#[test]
fn test_base_hook_input() {
    let input = BaseHookInput {
        session_id: "session-123".to_string(),
        transcript_path: "/path/to/transcript".to_string(),
        cwd: "/home/user".to_string(),
        permission_mode: Some("acceptEdits".to_string()),
    };
    assert_eq!(input.session_id, "session-123");
    assert_eq!(input.permission_mode, Some("acceptEdits".to_string()));
}

#[test]
fn test_user_prompt_submit_hook_input() {
    let input = UserPromptSubmitHookInput {
        base: BaseHookInput {
            session_id: "session-123".to_string(),
            transcript_path: "/path".to_string(),
            cwd: "/home".to_string(),
            permission_mode: None,
        },
        hook_event_name: "UserPromptSubmit".to_string(),
        prompt: "Hello agent".to_string(),
    };
    assert_eq!(input.prompt, "Hello agent");
}

#[test]
fn test_pre_compact_hook_input() {
    let input = PreCompactHookInput {
        base: BaseHookInput {
            session_id: "session-123".to_string(),
            transcript_path: "/path".to_string(),
            cwd: "/home".to_string(),
            permission_mode: None,
        },
        hook_event_name: "PreCompact".to_string(),
        trigger: PreCompactTrigger::Auto,
        custom_instructions: Some("Focus on key points".to_string()),
    };
    assert_eq!(input.trigger, PreCompactTrigger::Auto);
    assert_eq!(
        input.custom_instructions,
        Some("Focus on key points".to_string())
    );
}

#[test]
fn test_hook_input_hook_event_name() {
    let base = BaseHookInput {
        session_id: "session-123".to_string(),
        transcript_path: "/path".to_string(),
        cwd: "/home".to_string(),
        permission_mode: None,
    };

    let pre_tool = HookInput::PreToolUse(PreToolUseHookInput {
        base: base.clone(),
        hook_event_name: "PreToolUse".to_string(),
        tool_name: "Bash".to_string(),
        tool_input: "{}".to_string(),
    });
    assert_eq!(pre_tool.hook_event_name(), "PreToolUse");

    let stop = HookInput::Stop(StopHookInput {
        base: base.clone(),
        hook_event_name: "Stop".to_string(),
        stop_hook_active: true,
    });
    assert_eq!(stop.hook_event_name(), "Stop");
}

#[test]
fn test_hook_matcher_config_builder() {
    let matcher = HookMatcherConfig::new()
        .with_matcher("Bash")
        .with_hook_count(2)
        .with_timeout(30);

    assert_eq!(matcher.matcher, Some("Bash".to_string()));
    assert_eq!(matcher.hook_count, 2);
    assert_eq!(matcher.timeout, Some(30));
}

#[test]
fn test_hook_json_output_serde() {
    let output = HookJSONOutput::new()
        .with_continue(true)
        .with_decision("allow");

    let json = output.to_json();
    assert!(json.contains("\"continue\":true"));
    assert!(json.contains("\"decision\":\"allow\""));
    let v: serde_json::Value = serde_json::from_str(&json).unwrap();
    assert_eq!(v["continue"], true);
    assert_eq!(v["decision"], "allow");
}

#[test]
fn test_hook_json_output_async() {
    let output = HookJSONOutput::new().with_async(true, Some(5000));
    let json = output.to_json();
    assert!(json.contains("\"async\":true"));
    assert!(json.contains("\"asyncTimeout\":5000"));
}

#[test]
fn test_hook_json_output_empty() {
    assert_eq!(HookJSONOutput::new().to_json(), "{}");
}

#[test]
fn test_hook_json_output_with_stop_reason() {
    let output = HookJSONOutput::new().with_stop_reason("User cancelled");
    assert_eq!(output.should_continue, Some(false));
    assert_eq!(output.stop_reason, Some("User cancelled".to_string()));
    let v: serde_json::Value = serde_json::from_str(&output.to_json()).unwrap();
    assert_eq!(v["continue"], false);
    assert_eq!(v["stopReason"], "User cancelled");
}

#[test]
fn test_hook_json_output_with_hook_specific_output() {
    let specific = HookSpecificOutput::PreToolUse(PreToolUseHookSpecificOutput::new());
    let output = HookJSONOutput::new().with_hook_specific_output(specific);
    assert!(output.hook_specific_output.is_some());
    let v: serde_json::Value = serde_json::from_str(&output.to_json()).unwrap();
    assert_eq!(v["hookSpecificOutput"]["hookEventName"], "PreToolUse");
}

#[test]
fn test_pre_tool_use_hook_specific_output() {
    let output = PreToolUseHookSpecificOutput::new();
    assert_eq!(output.hook_event_name, "PreToolUse");
    let rendered = HookSpecificOutput::PreToolUse(
        PreToolUseHookSpecificOutput {
            permission_decision: Some(HookPermissionDecision::Deny),
            permission_decision_reason: Some("not safe".to_string()),
            ..output
        },
    )
    .to_json();
    let v: serde_json::Value = serde_json::from_str(&rendered).unwrap();
    assert_eq!(v["permissionDecision"], "deny");
    assert_eq!(v["permissionDecisionReason"], "not safe");
}
