//! MCP (Model Context Protocol) server configuration types.

use vstd::prelude::*;

verus! {

/// MCP stdio server configuration.
#[derive(Debug, Clone, PartialEq)]
pub struct McpStdioServerConfig {
    pub config_type: Option<String>,
    pub command: String,
    pub args: Option<Vec<String>>,
    pub env: Option<Vec<(String, String)>>,
}

impl McpStdioServerConfig {
    pub fn new(command: &str) -> (r: McpStdioServerConfig)
        ensures
            r.config_type matches Some(t) && t@ == "stdio"@,
            r.command@ == command@,
            r.args is None,
            r.env is None,
    {
        McpStdioServerConfig {
            config_type: Some("stdio".to_owned()),
            command: command.to_owned(),
            args: None,
            env: None,
        }
    }

    pub fn with_args(self, args: Vec<String>) -> (r: McpStdioServerConfig)
        ensures
            r == (McpStdioServerConfig { args: Some(args), ..self }),
    {
        McpStdioServerConfig { args: Some(args), ..self }
    }

    pub fn with_env(self, env: Vec<(String, String)>) -> (r: McpStdioServerConfig)
        ensures
            r == (McpStdioServerConfig { env: Some(env), ..self }),
    {
        McpStdioServerConfig { env: Some(env), ..self }
    }
}

/// MCP SSE server configuration.
#[derive(Debug, Clone, PartialEq)]
pub struct McpSSEServerConfig {
    pub config_type: String,
    pub url: String,
    pub headers: Option<Vec<(String, String)>>,
}

impl McpSSEServerConfig {
    pub fn new(url: &str) -> (r: McpSSEServerConfig)
        ensures
            r.config_type@ == "sse"@,
            r.url@ == url@,
            r.headers is None,
    {
        McpSSEServerConfig { config_type: "sse".to_owned(), url: url.to_owned(), headers: None }
    }

    pub fn with_headers(self, headers: Vec<(String, String)>) -> (r: McpSSEServerConfig)
        ensures
            r == (McpSSEServerConfig { headers: Some(headers), ..self }),
    {
        McpSSEServerConfig { headers: Some(headers), ..self }
    }
}

/// MCP HTTP server configuration.
#[derive(Debug, Clone, PartialEq)]
pub struct McpHttpServerConfig {
    pub config_type: String,
    pub url: String,
    pub headers: Option<Vec<(String, String)>>,
}

impl McpHttpServerConfig {
    pub fn new(url: &str) -> (r: McpHttpServerConfig)
        ensures
            r.config_type@ == "http"@,
            r.url@ == url@,
            r.headers is None,
    {
        McpHttpServerConfig { config_type: "http".to_owned(), url: url.to_owned(), headers: None }
    }

    pub fn with_headers(self, headers: Vec<(String, String)>) -> (r: McpHttpServerConfig)
        ensures
            r == (McpHttpServerConfig { headers: Some(headers), ..self }),
    {
        McpHttpServerConfig { headers: Some(headers), ..self }
    }
}

/// SDK (in-process) MCP server configuration.
#[derive(Debug, Clone, PartialEq)]
pub struct McpSdkServerConfig {
    pub config_type: String,
    pub name: String,
}

impl McpSdkServerConfig {
    pub fn new(name: &str) -> (r: McpSdkServerConfig)
        ensures
            r.config_type@ == "sdk"@,
            r.name@ == name@,
    {
        McpSdkServerConfig { config_type: "sdk".to_owned(), name: name.to_owned() }
    }
}

/// MCP server configuration: one of the four transport kinds.
#[derive(Debug, Clone, PartialEq)]
pub enum McpServerConfig {
    Stdio { command: String, args: Option<Vec<String>>, env: Option<Vec<(String, String)>> },
    SSE { url: String, headers: Option<Vec<(String, String)>> },
    Http { url: String, headers: Option<Vec<(String, String)>> },
    Sdk { name: String },
}

impl McpServerConfig {
    /// Create a new stdio MCP server config.
    pub fn stdio(command: &str) -> (r: McpServerConfig)
        ensures
            r matches McpServerConfig::Stdio { command: c, args: None, env: None } && c@
                == command@,
    {
        McpServerConfig::Stdio { command: command.to_owned(), args: None, env: None }
    }

    /// Create a new stdio MCP server config with args.
    pub fn stdio_with_args(command: &str, args: Vec<String>) -> (r: McpServerConfig)
        ensures
            r matches McpServerConfig::Stdio { command: c, args: a, env: None } && c@ == command@
                && a == Some(args),
    {
        McpServerConfig::Stdio { command: command.to_owned(), args: Some(args), env: None }
    }

    /// Create a new SSE MCP server config.
    pub fn sse(url: &str) -> (r: McpServerConfig)
        ensures
            r matches McpServerConfig::SSE { url: u, headers: None } && u@ == url@,
    {
        McpServerConfig::SSE { url: url.to_owned(), headers: None }
    }

    /// Create a new HTTP MCP server config.
    pub fn http(url: &str) -> (r: McpServerConfig)
        ensures
            r matches McpServerConfig::Http { url: u, headers: None } && u@ == url@,
    {
        McpServerConfig::Http { url: url.to_owned(), headers: None }
    }

    /// Create a new SDK MCP server config.
    pub fn sdk(name: &str) -> (r: McpServerConfig)
        ensures
            r matches McpServerConfig::Sdk { name: n } && n@ == name@,
    {
        McpServerConfig::Sdk { name: name.to_owned() }
    }

    /// Check if this is a stdio config.
    pub fn is_stdio(&self) -> (r: bool)
        ensures
            r == (self matches McpServerConfig::Stdio { .. }),
    {
        matches!(self, McpServerConfig::Stdio { .. })
    }

    /// Check if this is an SSE config.
    pub fn is_sse(&self) -> (r: bool)
        ensures
            r == (self matches McpServerConfig::SSE { .. }),
    {
        matches!(self, McpServerConfig::SSE { .. })
    }

    /// Check if this is an HTTP config.
    pub fn is_http(&self) -> (r: bool)
        ensures
            r == (self matches McpServerConfig::Http { .. }),
    {
        matches!(self, McpServerConfig::Http { .. })
    }

    /// Check if this is an SDK config.
    pub fn is_sdk(&self) -> (r: bool)
        ensures
            r == (self matches McpServerConfig::Sdk { .. }),
    {
        matches!(self, McpServerConfig::Sdk { .. })
    }
}

impl From<McpStdioServerConfig> for McpServerConfig {
    fn from(config: McpStdioServerConfig) -> (r: McpServerConfig) {
        McpServerConfig::Stdio { command: config.command, args: config.args, env: config.env }
    }
}

impl vstd::std_specs::convert::FromSpecImpl<McpStdioServerConfig> for McpServerConfig {
    open spec fn obeys_from_spec() -> bool {
        true
    }

    open spec fn from_spec(config: McpStdioServerConfig) -> McpServerConfig {
        McpServerConfig::Stdio { command: config.command, args: config.args, env: config.env }
    }
}

impl From<McpSSEServerConfig> for McpServerConfig {
    fn from(config: McpSSEServerConfig) -> (r: McpServerConfig) {
        McpServerConfig::SSE { url: config.url, headers: config.headers }
    }
}

impl vstd::std_specs::convert::FromSpecImpl<McpSSEServerConfig> for McpServerConfig {
    open spec fn obeys_from_spec() -> bool {
        true
    }

    open spec fn from_spec(config: McpSSEServerConfig) -> McpServerConfig {
        McpServerConfig::SSE { url: config.url, headers: config.headers }
    }
}

impl From<McpHttpServerConfig> for McpServerConfig {
    fn from(config: McpHttpServerConfig) -> (r: McpServerConfig) {
        McpServerConfig::Http { url: config.url, headers: config.headers }
    }
}

impl vstd::std_specs::convert::FromSpecImpl<McpHttpServerConfig> for McpServerConfig {
    open spec fn obeys_from_spec() -> bool {
        true
    }

    open spec fn from_spec(config: McpHttpServerConfig) -> McpServerConfig {
        McpServerConfig::Http { url: config.url, headers: config.headers }
    }
}

impl From<McpSdkServerConfig> for McpServerConfig {
    fn from(config: McpSdkServerConfig) -> (r: McpServerConfig) {
        McpServerConfig::Sdk { name: config.name }
    }
}

impl vstd::std_specs::convert::FromSpecImpl<McpSdkServerConfig> for McpServerConfig {
    open spec fn obeys_from_spec() -> bool {
        true
    }

    open spec fn from_spec(config: McpSdkServerConfig) -> McpServerConfig {
        McpServerConfig::Sdk { name: config.name }
    }
}

} // verus!
