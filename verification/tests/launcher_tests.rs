use claude_agent_sdk::launcher::cli_search_candidates;
use claude_agent_sdk::launcher::version_compare;
use claude_agent_sdk::launcher::DEFAULT_MAX_BUFFER_SIZE;
use claude_agent_sdk::launcher::MINIMUM_CLI_VERSION;
use claude_agent_sdk::wire::user_message_line;

#[test]
fn test_version_compare() {
    assert_eq!(version_compare("2.0.0", "2.0.0"), 0);
    assert_eq!(version_compare("2.1.0", "2.0.0"), 1);
    assert_eq!(version_compare("1.9.0", "2.0.0"), -1);
    assert_eq!(version_compare("2.0.1", "2.0.0"), 1);
}

#[test]
fn test_version_compare_edge_cases() {
    // Same versions
    assert_eq!(version_compare("1.0.0", "1.0.0"), 0);
    assert_eq!(version_compare("0.0.1", "0.0.1"), 0);

    // Different number of components
    assert_eq!(version_compare("1.0", "1.0.0"), 0);
    assert_eq!(version_compare("1", "1.0.0"), 0);
    assert_eq!(version_compare("2", "1.9.9"), 1);

    // Early vs later versions
    assert_eq!(version_compare("0.1.0", "1.0.0"), -1);
    assert_eq!(version_compare("10.0.0", "2.0.0"), 1);
}

#[test]
fn test_version_compare_skips_bad_segments() {
    // Non-numeric segments do not take part in the comparison.
    assert_eq!(version_compare("2.0.0-beta", "2.0.0"), 0);
    assert_eq!(version_compare("2.0.0", MINIMUM_CLI_VERSION), 0);
}

#[test]
fn test_default_max_buffer_size() {
    assert_eq!(DEFAULT_MAX_BUFFER_SIZE, 1024 * 1024);
}

#[test]
fn test_cli_search_candidates_with_home() {
    let candidates = cli_search_candidates(Some("/home/me"), "agent");
    assert_eq!(
        candidates,
        vec![
            "/home/me/.npm-global/bin/agent".to_string(),
            "/usr/local/bin/agent".to_string(),
            "/home/me/.local/bin/agent".to_string(),
            "/home/me/node_modules/.bin/agent".to_string(),
            "/home/me/.yarn/bin/agent".to_string(),
            "/home/me/.agent/local/agent".to_string(),
        ]
    );
}

#[test]
fn test_cli_search_candidates_without_home() {
    let candidates = cli_search_candidates(None, "agent");
    assert_eq!(candidates, vec!["/usr/local/bin/agent".to_string()]);
}

#[test]
fn test_user_message_line_shape() {
    let line = user_message_line("Hello!");
    let v: serde_json::Value = serde_json::from_str(&line).unwrap();
    assert_eq!(v["type"], "user");
    assert_eq!(v["message"]["role"], "user");
    assert_eq!(v["message"]["content"], "Hello!");
    assert_eq!(v["session_id"], "default");
    assert!(v["parent_tool_use_id"].is_null());
}

#[test]
fn test_user_message_line_escapes_content() {
    let line = user_message_line("say \"hi\"\nplease\t\\ok");
    let v: serde_json::Value = serde_json::from_str(&line).unwrap();
    assert_eq!(v["message"]["content"], "say \"hi\"\nplease\t\\ok");
}
