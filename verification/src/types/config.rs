//! Configuration types that the protocol core reads: prompt and tool presets,
//! agent definitions, plugin descriptors, setting sources and beta flags. The
//! full option set that drives the child's command line lives with the
//! embedding application.

use vstd::prelude::*;

use super::mcp::McpServerConfig;

verus! {

/// Beta features.
#[derive(Debug, Clone, Copy, PartialEq, Eq, Structural)]
pub enum SdkBeta {
    Context1m20250807,
}

/// The wire rendering of a beta flag.
pub open spec fn sdk_beta_str(b: SdkBeta) -> Seq<char> {
    match b {
        SdkBeta::Context1m20250807 => "context-1m-2025-08-07"@,
    }
}

impl SdkBeta {
    pub fn as_str(&self) -> (r: &'static str)
        ensures
            r@ == sdk_beta_str(*self),
    {
        match self {
            SdkBeta::Context1m20250807 => "context-1m-2025-08-07",
        }
    }
}

/// Setting source types.
#[derive(Debug, Clone, Copy, PartialEq, Eq, Structural)]
pub enum SettingSource {
    User,
    Project,
    Local,
}

/// The wire rendering of a setting source.
pub open spec fn setting_source_str(s: SettingSource) -> Seq<char> {
    match s {
        SettingSource::User => "user"@,
        SettingSource::Project => "project"@,
        SettingSource::Local => "local"@,
    }
}

impl SettingSource {
    pub fn as_str(&self) -> (r: &'static str)
        ensures
            r@ == setting_source_str(*self),
    {
        match self {
            SettingSource::User => "user",
            SettingSource::Project => "project",
            SettingSource::Local => "local",
        }
    }
}

/// System prompt preset configuration.
#[derive(Debug, Clone, PartialEq)]
pub struct SystemPromptPreset {
    pub preset_type: String,
    pub preset: String,
    pub append: Option<String>,
}

impl SystemPromptPreset {
    pub fn claude_code() -> (r: SystemPromptPreset)
        ensures
            r.preset_type@ == "preset"@,
            r.preset@ == "claude_code"@,
            r.append is None,
    {
        SystemPromptPreset {
            preset_type: "preset".to_owned(),
            preset: "claude_code".to_owned(),
            append: None,
        }
    }

    pub fn claude_code_with_append(append: &str) -> (r: SystemPromptPreset)
        ensures
            r.preset_type@ == "preset"@,
            r.preset@ == "claude_code"@,
            r.append matches Some(a) && a@ == append@,
    {
        SystemPromptPreset {
            preset_type: "preset".to_owned(),
            preset: "claude_code".to_owned(),
            append: Some(append.to_owned()),
        }
    }
}

/// Tools preset configuration.
#[derive(Debug, Clone, PartialEq)]
pub struct ToolsPreset {
    pub preset_type: String,
    pub preset: String,
}

impl ToolsPreset {
    pub fn claude_code() -> (r: ToolsPreset)
        ensures
            r.preset_type@ == "preset"@,
            r.preset@ == "claude_code"@,
    {
        ToolsPreset { preset_type: "preset".to_owned(), preset: "claude_code".to_owned() }
    }
}

/// System prompt configuration: a string or a preset.
#[derive(Debug, Clone, PartialEq)]
pub enum SystemPrompt {
    Text(String),
    Preset(SystemPromptPreset),
}

impl From<String> for SystemPrompt {
    fn from(text: String) -> (r: SystemPrompt) {
        SystemPrompt::Text(text)
    }
}

impl vstd::std_specs::convert::FromSpecImpl<String> for SystemPrompt {
    open spec fn obeys_from_spec() -> bool {
        true
    }

    open spec fn from_spec(text: String) -> SystemPrompt {
        SystemPrompt::Text(text)
    }
}

impl From<SystemPromptPreset> for SystemPrompt {
    fn from(preset: SystemPromptPreset) -> (r: SystemPrompt) {
        SystemPrompt::Preset(preset)
    }
}

impl vstd::std_specs::convert::FromSpecImpl<SystemPromptPreset> for SystemPrompt {
    open spec fn obeys_from_spec() -> bool {
        true
    }

    open spec fn from_spec(preset: SystemPromptPreset) -> SystemPrompt {
        SystemPrompt::Preset(preset)
    }
}

/// Tools configuration: a list of tool names or a preset.
#[derive(Debug, Clone, PartialEq)]
pub enum Tools {
    List(Vec<String>),
    Preset(ToolsPreset),
}

impl From<Vec<String>> for Tools {
    fn from(tools: Vec<String>) -> (r: Tools) {
        Tools::List(tools)
    }
}

impl vstd::std_specs::convert::FromSpecImpl<Vec<String>> for Tools {
    open spec fn obeys_from_spec() -> bool {
        true
    }

    open spec fn from_spec(tools: Vec<String>) -> Tools {
        Tools::List(tools)
    }
}

impl From<ToolsPreset> for Tools {
    fn from(preset: ToolsPreset) -> (r: Tools) {
        Tools::Preset(preset)
    }
}

impl vstd::std_specs::convert::FromSpecImpl<ToolsPreset> for Tools {
    open spec fn obeys_from_spec() -> bool {
        true
    }

    open spec fn from_spec(preset: ToolsPreset) -> Tools {
        Tools::Preset(preset)
    }
}

/// Agent definition configuration.
#[derive(Debug, Clone, PartialEq)]
pub struct AgentDefinition {
    pub description: String,
    pub prompt: String,
    pub tools: Option<Vec<String>>,
    pub model: Option<String>,
}

impl AgentDefinition {
    pub fn new(description: &str, prompt: &str) -> (r: AgentDefinition)
        ensures
            r.description@ == description@,
            r.prompt@ == prompt@,
            r.tools is None,
            r.model is None,
    {
        AgentDefinition {
            description: description.to_owned(),
            prompt: prompt.to_owned(),
            tools: None,
            model: None,
        }
    }

    pub fn with_tools(self, tools: Vec<String>) -> (r: AgentDefinition)
        ensures
            r == (AgentDefinition { tools: Some(tools), ..self }),
    {
        AgentDefinition { tools: Some(tools), ..self }
    }

    pub fn with_model(self, model: &str) -> (r: AgentDefinition)
        ensures
            r.model matches Some(m) && m@ == model@,
            r.description == self.description,
            r.prompt == self.prompt,
            r.tools == self.tools,
    {
        AgentDefinition { model: Some(model.to_owned()), ..self }
    }
}

/// Plugin configuration.
#[derive(Debug, Clone, PartialEq)]
pub struct SdkPluginConfig {
    pub plugin_type: String,
    pub path: String,
}

impl SdkPluginConfig {
    pub fn local(path: &str) -> (r: SdkPluginConfig)
        ensures
            r.plugin_type@ == "local"@,
            r.path@ == path@,
    {
        SdkPluginConfig { plugin_type: "local".to_owned(), path: path.to_owned() }
    }
}

/// MCP servers configuration: a map of named servers, a path to a
/// configuration file, or inline JSON text.
#[derive(Debug, Clone, PartialEq)]
pub enum McpServers {
    Servers(Vec<(String, McpServerConfig)>),
    Path(String),
    Json(String),
}

impl From<Vec<(String, McpServerConfig)>> for McpServers {
    fn from(map: Vec<(String, McpServerConfig)>) -> (r: McpServers) {
        McpServers::Servers(map)
    }
}

impl vstd::std_specs::convert::FromSpecImpl<Vec<(String, McpServerConfig)>> for McpServers {
    open spec fn obeys_from_spec() -> bool {
        true
    }

    open spec fn from_spec(map: Vec<(String, McpServerConfig)>) -> McpServers {
        McpServers::Servers(map)
    }
}

} // verus!
