//! Sandbox configuration: how the child process sandboxes shell commands for
//! filesystem and network isolation.

use vstd::prelude::*;

verus! {

/// Network configuration for the sandbox.
#[derive(Debug, Clone, PartialEq)]
pub struct SandboxNetworkConfig {
    /// Unix socket paths accessible in the sandbox.
    pub allow_unix_sockets: Option<Vec<String>>,
    /// Allow all Unix sockets (less secure).
    pub allow_all_unix_sockets: Option<bool>,
    /// Allow binding to localhost ports.
    pub allow_local_binding: Option<bool>,
    /// HTTP proxy port when bringing your own proxy.
    pub http_proxy_port: Option<u16>,
    /// SOCKS5 proxy port when bringing your own proxy.
    pub socks_proxy_port: Option<u16>,
}

impl SandboxNetworkConfig {
    pub fn new() -> (r: SandboxNetworkConfig)
        ensures
            r == (SandboxNetworkConfig {
                allow_unix_sockets: None,
                allow_all_unix_sockets: None,
                allow_local_binding: None,
                http_proxy_port: None,
                socks_proxy_port: None,
            }),
    {
        SandboxNetworkConfig {
            allow_unix_sockets: None,
            allow_all_unix_sockets: None,
            allow_local_binding: None,
            http_proxy_port: None,
            socks_proxy_port: None,
        }
    }

    pub fn with_unix_sockets(self, sockets: Vec<String>) -> (r: SandboxNetworkConfig)
        ensures
            r == (SandboxNetworkConfig { allow_unix_sockets: Some(sockets), ..self }),
    {
        SandboxNetworkConfig { allow_unix_sockets: Some(sockets), ..self }
    }

    pub fn with_all_unix_sockets(self, allow: bool) -> (r: SandboxNetworkConfig)
        ensures
            r == (SandboxNetworkConfig { allow_all_unix_sockets: Some(allow), ..self }),
    {
        SandboxNetworkConfig { allow_all_unix_sockets: Some(allow), ..self }
    }

    pub fn with_local_binding(self, allow: bool) -> (r: SandboxNetworkConfig)
        ensures
            r == (SandboxNetworkConfig { allow_local_binding: Some(allow), ..self }),
    {
        SandboxNetworkConfig { allow_local_binding: Some(allow), ..self }
    }

    pub fn with_http_proxy(self, port: u16) -> (r: SandboxNetworkConfig)
        ensures
            r == (SandboxNetworkConfig { http_proxy_port: Some(port), ..self }),
    {
        SandboxNetworkConfig { http_proxy_port: Some(port), ..self }
    }

    pub fn with_socks_proxy(self, port: u16) -> (r: SandboxNetworkConfig)
        ensures
            r == (SandboxNetworkConfig { socks_proxy_port: Some(port), ..self }),
    {
        SandboxNetworkConfig { socks_proxy_port: Some(port), ..self }
    }
}

impl Default for SandboxNetworkConfig {
    fn default() -> (r: SandboxNetworkConfig)
        ensures
            r == (SandboxNetworkConfig {
                allow_unix_sockets: None,
                allow_all_unix_sockets: None,
                allow_local_binding: None,
                http_proxy_port: None,
                socks_proxy_port: None,
            }),
    {
        SandboxNetworkConfig::new()
    }
}

/// Violations to ignore in the sandbox.
#[derive(Debug, Clone, PartialEq)]
pub struct SandboxIgnoreViolations {
    /// File paths for which violations should be ignored.
    pub file: Option<Vec<String>>,
    /// Network hosts for which violations should be ignored.
    pub network: Option<Vec<String>>,
}

impl SandboxIgnoreViolations {
    pub fn new() -> (r: SandboxIgnoreViolations)
        ensures
            r == (SandboxIgnoreViolations { file: None, network: None }),
    {
        SandboxIgnoreViolations { file: None, network: None }
    }

    pub fn with_files(self, files: Vec<String>) -> (r: SandboxIgnoreViolations)
        ensures
            r == (SandboxIgnoreViolations { file: Some(files), ..self }),
    {
        SandboxIgnoreViolations { file: Some(files), ..self }
    }

    pub fn with_networks(self, networks: Vec<String>) -> (r: SandboxIgnoreViolations)
        ensures
            r == (SandboxIgnoreViolations { network: Some(networks), ..self }),
    {
        SandboxIgnoreViolations { network: Some(networks), ..self }
    }
}

impl Default for SandboxIgnoreViolations {
    fn default() -> (r: SandboxIgnoreViolations)
        ensures
            r == (SandboxIgnoreViolations { file: None, network: None }),
    {
        SandboxIgnoreViolations::new()
    }
}

/// Sandbox settings controlling how shell commands are isolated.
#[derive(Debug, Clone, PartialEq)]
pub struct SandboxSettings {
    /// Enable sandboxing of shell commands.
    pub enabled: Option<bool>,
    /// Auto-approve shell commands when sandboxed.
    pub auto_allow_bash_if_sandboxed: Option<bool>,
    /// Commands that should run outside the sandbox.
    pub excluded_commands: Option<Vec<String>>,
    /// Allow commands to bypass the sandbox explicitly.
    pub allow_unsandboxed_commands: Option<bool>,
    /// Network configuration for the sandbox.
    pub network: Option<SandboxNetworkConfig>,
    /// Violations to ignore.
    pub ignore_violations: Option<SandboxIgnoreViolations>,
    /// Enable a weaker sandbox for unprivileged container environments.
    pub enable_weaker_nested_sandbox: Option<bool>,
}

impl SandboxSettings {
    pub fn new() -> (r: SandboxSettings)
        ensures
            r == (SandboxSettings {
                enabled: None,
                auto_allow_bash_if_sandboxed: None,
                excluded_commands: None,
                allow_unsandboxed_commands: None,
                network: None,
                ignore_violations: None,
                enable_weaker_nested_sandbox: None,
            }),
    {
        SandboxSettings {
            enabled: None,
            auto_allow_bash_if_sandboxed: None,
            excluded_commands: None,
            allow_unsandboxed_commands: None,
            network: None,
            ignore_violations: None,
            enable_weaker_nested_sandbox: None,
        }
    }

    /// Create sandbox settings with sandboxing enabled.
    pub fn enabled() -> (r: SandboxSettings)
        ensures
            r == (SandboxSettings {
                enabled: Some(true),
                auto_allow_bash_if_sandboxed: None,
                excluded_commands: None,
                allow_unsandboxed_commands: None,
                network: None,
                ignore_violations: None,
                enable_weaker_nested_sandbox: None,
            }),
    {
        SandboxSettings { enabled: Some(true), ..SandboxSettings::new() }
    }

    /// Create sandbox settings with sandboxing disabled.
    pub fn disabled() -> (r: SandboxSettings)
        ensures
            r == (SandboxSettings {
                enabled: Some(false),
                auto_allow_bash_if_sandboxed: None,
                excluded_commands: None,
                allow_unsandboxed_commands: None,
                network: None,
                ignore_violations: None,
                enable_weaker_nested_sandbox: None,
            }),
    {
        SandboxSettings { enabled: Some(false), ..SandboxSettings::new() }
    }

    pub fn with_enabled(self, enabled: bool) -> (r: SandboxSettings)
        ensures
            r == (SandboxSettings { enabled: Some(enabled), ..self }),
    {
        SandboxSettings { enabled: Some(enabled), ..self }
    }

    pub fn with_auto_allow_bash(self, allow: bool) -> (r: SandboxSettings)
        ensures
            r == (SandboxSettings { auto_allow_bash_if_sandboxed: Some(allow), ..self }),
    {
        SandboxSettings { auto_allow_bash_if_sandboxed: Some(allow), ..self }
    }

    pub fn with_excluded_commands(self, commands: Vec<String>) -> (r: SandboxSettings)
        ensures
            r == (SandboxSettings { excluded_commands: Some(commands), ..self }),
    {
        SandboxSettings { excluded_commands: Some(commands), ..self }
    }

    pub fn with_allow_unsandboxed(self, allow: bool) -> (r: SandboxSettings)
        ensures
            r == (SandboxSettings { allow_unsandboxed_commands: Some(allow), ..self }),
    {
        SandboxSettings { allow_unsandboxed_commands: Some(allow), ..self }
    }

    pub fn with_network(self, network: SandboxNetworkConfig) -> (r: SandboxSettings)
        ensures
            r == (SandboxSettings { network: Some(network), ..self }),
    {
        SandboxSettings { network: Some(network), ..self }
    }

    pub fn with_ignore_violations(self, violations: SandboxIgnoreViolations) -> (r:
        SandboxSettings)
        ensures
            r == (SandboxSettings { ignore_violations: Some(violations), ..self }),
    {
        SandboxSettings { ignore_violations: Some(violations), ..self }
    }

    pub fn with_weaker_nested_sandbox(self, enable: bool) -> (r: SandboxSettings)
        ensures
            r == (SandboxSettings { enable_weaker_nested_sandbox: Some(enable), ..self }),
    {
        SandboxSettings { enable_weaker_nested_sandbox: Some(enable), ..self }
    }
}

impl Default for SandboxSettings {
    fn default() -> (r: SandboxSettings)
        ensures
            r == (SandboxSettings {
                enabled: None,
                auto_allow_bash_if_sandboxed: None,
                excluded_commands: None,
                allow_unsandboxed_commands: None,
                network: None,
                ignore_violations: None,
                enable_weaker_nested_sandbox: None,
            }),
    {
        SandboxSettings::new()
    }
}

} // verus!
