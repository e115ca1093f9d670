use claude_agent_sdk::PermissionBehavior;
use claude_agent_sdk::PermissionMode;
use claude_agent_sdk::PermissionResult;
use claude_agent_sdk::PermissionRuleValue;
use claude_agent_sdk::PermissionUpdate;
use claude_agent_sdk::PermissionUpdateDestination;

#[test]
fn test_permission_mode_serde() {
    assert_eq!(PermissionMode::Default.as_str(), "default");
    assert_eq!(PermissionMode::AcceptEdits.as_str(), "acceptEdits");
    assert_eq!(PermissionMode::Plan.as_str(), "plan");
    assert_eq!(
        PermissionMode::BypassPermissions.as_str(),
        "bypassPermissions"
    );
}

#[test]
fn test_permission_rule_value() {
    let rule = PermissionRuleValue::new("Bash").with_content("allow 'ls' command");
    assert_eq!(rule.tool_name, "Bash");
    assert_eq!(rule.rule_content, Some("allow 'ls' command".to_string()));
}

#[test]
fn test_permission_update_add_rules() {
    let update = PermissionUpdate::add_rules(
        vec![PermissionRuleValue::new("Bash").with_content("allow all")],
        PermissionBehavior::Allow,
    );
    let dict: serde_json::Value = serde_json::from_str(&update.to_dict()).unwrap();
    assert!(dict.get("rules").is_some());
    assert!(dict.get("behavior").is_some());
    assert_eq!(dict["type"], "addRules");
    assert_eq!(dict["behavior"], "allow");
    assert_eq!(dict["rules"][0]["toolName"], "Bash");
    assert_eq!(dict["rules"][0]["ruleContent"], "allow all");
}

#[test]
fn test_permission_update_set_mode() {
    let update = PermissionUpdate::set_mode(PermissionMode::AcceptEdits);
    let dict: serde_json::Value = serde_json::from_str(&update.to_dict()).unwrap();
    assert!(dict.get("mode").is_some());
    assert_eq!(dict["mode"], "acceptEdits");
    assert_eq!(dict["type"], "setMode");
}

#[test]
fn test_permission_update_directories_with_destination() {
    let update = PermissionUpdate::add_directories(vec!["/tmp".to_string()])
        .with_destination(PermissionUpdateDestination::Session);
    let dict: serde_json::Value = serde_json::from_str(&update.to_dict()).unwrap();
    assert_eq!(dict["type"], "addDirectories");
    assert_eq!(dict["destination"], "session");
    assert_eq!(dict["directories"][0], "/tmp");
}

#[test]
fn test_permission_update_remove_rules_null_content() {
    let update = PermissionUpdate::remove_rules(vec![PermissionRuleValue::new("Read")]);
    let dict: serde_json::Value = serde_json::from_str(&update.to_dict()).unwrap();
    assert_eq!(dict["type"], "removeRules");
    assert!(dict["rules"][0]["ruleContent"].is_null());
}

#[test]
fn test_permission_result_allow() {
    let result = PermissionResult::allow();
    assert!(result.is_allow());
    assert!(!result.is_deny());
}

#[test]
fn test_permission_result_deny() {
    let result = PermissionResult::deny_with_message("Not allowed");
    assert!(result.is_deny());
    assert!(!result.is_allow());
}
