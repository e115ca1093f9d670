//! Type definitions: content blocks, messages, control envelopes, hooks,
//! permissions, MCP server configuration and sandbox settings.

mod config;
mod content;
mod control;
mod hook;
mod mcp;
mod message;
mod permission;
mod sandbox;

pub use config::AgentDefinition;
pub use config::McpServers;
pub use config::SdkBeta;
pub use config::SdkPluginConfig;
pub use config::SettingSource;
pub use config::SystemPrompt;
pub use config::SystemPromptPreset;
pub use config::Tools;
pub use config::ToolsPreset;
pub use content::ContentBlock;
pub use content::TextBlock;
pub use content::ThinkingBlock;
pub use content::ToolResultBlock;
pub use content::ToolUseBlock;
pub use control::ControlResponseError;
pub use control::ControlResponseSuccess;
pub use control::ControlResponseVariant;
pub use control::SDKControlInitializeRequest;
pub use control::SDKControlInterruptRequest;
pub use control::SDKControlMcpMessageRequest;
pub use control::SDKControlMcpStatusRequest;
pub use control::SDKControlPermissionRequest;
pub use control::SDKControlRequest;
pub use control::SDKControlRequestVariant;
pub use control::SDKControlResponse;
pub use control::SDKControlRewindFilesRequest;
pub use control::SDKControlSetModelRequest;
pub use control::SDKControlSetPermissionModeRequest;
pub use control::SDKHookCallbackRequest;
pub use hook::BaseHookInput;
pub use hook::HookContext;
pub use hook::HookEvent;
pub use hook::HookInput;
pub use hook::HookJSONOutput;
pub use hook::HookMatcherConfig;
pub use hook::HookPermissionDecision;
pub use hook::HookSpecificOutput;
pub use hook::PostToolUseFailureHookInput;
pub use hook::PostToolUseFailureHookSpecificOutput;
pub use hook::PostToolUseHookInput;
pub use hook::PostToolUseHookSpecificOutput;
pub use hook::PreCompactHookInput;
pub use hook::PreCompactTrigger;
pub use hook::PreToolUseHookInput;
pub use hook::PreToolUseHookSpecificOutput;
pub use hook::StopHookInput;
pub use hook::SubagentStopHookInput;
pub use hook::UserPromptSubmitHookInput;
pub use hook::UserPromptSubmitHookSpecificOutput;
pub use mcp::McpHttpServerConfig;
pub use mcp::McpSSEServerConfig;
pub use mcp::McpSdkServerConfig;
pub use mcp::McpServerConfig;
pub use mcp::McpStdioServerConfig;
pub use message::AssistantMessage;
pub use message::AssistantMessageError;
pub use message::Message;
pub use message::ResultMessage;
pub use message::StreamEvent;
pub use message::SystemMessage;
pub use message::UserMessage;
pub use message::UserMessageContent;
pub use permission::PermissionBehavior;
pub use permission::PermissionMode;
pub use permission::PermissionResult;
pub use permission::PermissionResultAllow;
pub use permission::PermissionResultDeny;
pub use permission::PermissionRuleValue;
pub use permission::PermissionUpdate;
pub use permission::PermissionUpdateDestination;
pub use permission::PermissionUpdateType;
pub use permission::ToolPermissionContext;
pub use sandbox::SandboxIgnoreViolations;
pub use sandbox::SandboxNetworkConfig;
pub use sandbox::SandboxSettings;

pub use config::sdk_beta_str;
pub use config::setting_source_str;
pub use control::response_request_id;
pub use hook::hook_event_str;
pub use hook::hook_input_base;
pub use hook::hook_input_event_name;
pub use message::content_text;
pub use message::content_tool_uses;
pub use permission::behavior_str;
pub use permission::destination_str;
pub use permission::permission_mode_str;
pub use permission::permission_update_json;
pub use permission::rule_value_json;
pub use permission::rules_array_body;
pub use permission::rules_array_json;
pub use permission::update_type_str;
