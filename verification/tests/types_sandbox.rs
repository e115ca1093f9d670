use claude_agent_sdk::SandboxIgnoreViolations;
use claude_agent_sdk::SandboxNetworkConfig;
use claude_agent_sdk::SandboxSettings;

#[test]
fn test_sandbox_settings_builders() {
    let settings = SandboxSettings::enabled()
        .with_auto_allow_bash(true)
        .with_excluded_commands(vec!["docker".to_string()]);

    assert_eq!(settings.enabled, Some(true));
    assert_eq!(settings.auto_allow_bash_if_sandboxed, Some(true));
    assert_eq!(settings.excluded_commands, Some(vec!["docker".to_string()]));
}

#[test]
fn test_sandbox_settings_disabled() {
    let settings = SandboxSettings::disabled();
    assert_eq!(settings.enabled, Some(false));
    assert!(settings.network.is_none());
}

#[test]
fn test_sandbox_network_config_builders() {
    let network = SandboxNetworkConfig::new()
        .with_unix_sockets(vec!["/var/run/docker.sock".to_string()])
        .with_local_binding(true)
        .with_http_proxy(8080);

    assert_eq!(
        network.allow_unix_sockets,
        Some(vec!["/var/run/docker.sock".to_string()])
    );
    assert_eq!(network.allow_local_binding, Some(true));
    assert_eq!(network.http_proxy_port, Some(8080));
}

#[test]
fn test_sandbox_ignore_violations_builders() {
    let violations = SandboxIgnoreViolations::new()
        .with_files(vec!["/tmp".to_string()])
        .with_networks(vec!["localhost".to_string()]);

    assert_eq!(violations.file, Some(vec!["/tmp".to_string()]));
    assert_eq!(violations.network, Some(vec!["localhost".to_string()]));
}

#[test]
fn test_sandbox_settings_nested() {
    let settings = SandboxSettings::enabled()
        .with_network(SandboxNetworkConfig::new().with_all_unix_sockets(false))
        .with_ignore_violations(SandboxIgnoreViolations::new().with_files(vec!["/tmp".to_string()]))
        .with_weaker_nested_sandbox(false);

    assert!(settings.network.is_some());
    assert!(settings.ignore_violations.is_some());
    assert_eq!(settings.enable_weaker_nested_sandbox, Some(false));
}
