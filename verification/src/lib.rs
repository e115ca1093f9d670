//! Core of a client library that drives a long-lived command-line process as
//! a message-oriented peer: newline-delimited JSON framing with bounded
//! buffering, request/response correlation for a bidirectional control
//! protocol, and the dispatch rules for caller-supplied permission and hook
//! callbacks.
//!
//! The process itself, the pipes and the asynchronous loops live outside this
//! crate; the logic here is purely about bytes, lines and protocol state.

use vstd::prelude::*;

pub mod correlation;
pub mod engine;
mod error;
pub mod framer;
mod json;
pub mod launcher;
pub mod parser;
mod strutil;
pub mod types;
pub mod wire;

pub use error::ClaudeSDKError;
pub use parser::parse_message;
pub use types::AgentDefinition;
pub use types::AssistantMessage;
pub use types::AssistantMessageError;
pub use types::ContentBlock;
pub use types::ControlResponseError;
pub use types::ControlResponseSuccess;
pub use types::ControlResponseVariant;
pub use types::BaseHookInput;
pub use types::HookContext;
pub use types::HookEvent;
pub use types::PostToolUseFailureHookInput;
pub use types::PostToolUseFailureHookSpecificOutput;
pub use types::PostToolUseHookInput;
pub use types::PostToolUseHookSpecificOutput;
pub use types::PreCompactHookInput;
pub use types::PreCompactTrigger;
pub use types::PreToolUseHookInput;
pub use types::PreToolUseHookSpecificOutput;
pub use types::StopHookInput;
pub use types::SubagentStopHookInput;
pub use types::UserPromptSubmitHookInput;
pub use types::UserPromptSubmitHookSpecificOutput;
pub use types::HookInput;
pub use types::HookJSONOutput;
pub use types::HookMatcherConfig;
pub use types::HookPermissionDecision;
pub use types::HookSpecificOutput;
pub use types::McpHttpServerConfig;
pub use types::McpServers;
pub use types::McpSSEServerConfig;
pub use types::McpSdkServerConfig;
pub use types::McpServerConfig;
pub use types::McpStdioServerConfig;
pub use types::Message;
pub use types::PermissionBehavior;
pub use types::PermissionMode;
pub use types::PermissionResult;
pub use types::PermissionResultAllow;
pub use types::PermissionResultDeny;
pub use types::PermissionRuleValue;
pub use types::PermissionUpdate;
pub use types::PermissionUpdateDestination;
pub use types::PermissionUpdateType;
pub use types::ResultMessage;
pub use types::SDKControlInitializeRequest;
pub use types::SDKControlInterruptRequest;
pub use types::SDKControlMcpMessageRequest;
pub use types::SDKControlMcpStatusRequest;
pub use types::SDKControlPermissionRequest;
pub use types::SDKControlRequest;
pub use types::SDKControlRequestVariant;
pub use types::SDKControlResponse;
pub use types::SDKControlRewindFilesRequest;
pub use types::SDKControlSetModelRequest;
pub use types::SDKControlSetPermissionModeRequest;
pub use types::SDKHookCallbackRequest;
pub use types::SandboxIgnoreViolations;
pub use types::SandboxNetworkConfig;
pub use types::SandboxSettings;
pub use types::SdkBeta;
pub use types::SdkPluginConfig;
pub use types::SettingSource;
pub use types::StreamEvent;
pub use types::SystemMessage;
pub use types::SystemPrompt;
pub use types::SystemPromptPreset;
pub use types::TextBlock;
pub use types::ThinkingBlock;
pub use types::ToolPermissionContext;
pub use types::ToolResultBlock;
pub use types::ToolUseBlock;
pub use types::Tools;
pub use types::ToolsPreset;
pub use types::UserMessage;
pub use types::UserMessageContent;

verus! {

/// Library version string.
pub const VERSION: &'static str = "0.1.0";

} // verus!
