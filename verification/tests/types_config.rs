use claude_agent_sdk::AgentDefinition;
use claude_agent_sdk::SdkPluginConfig;
use claude_agent_sdk::SystemPrompt;
use claude_agent_sdk::SystemPromptPreset;
use claude_agent_sdk::Tools;
use claude_agent_sdk::ToolsPreset;
use claude_agent_sdk::VERSION;

#[test]
fn test_version() {
    assert!(!VERSION.is_empty());
}

#[test]
fn test_system_prompt_preset() {
    let preset = SystemPromptPreset::claude_code_with_append("Be concise.");
    let prompt: SystemPrompt = preset.into();

    match prompt {
        SystemPrompt::Preset(p) => {
            assert_eq!(p.preset, "claude_code");
            assert_eq!(p.append, Some("Be concise.".to_string()));
        }
        _ => panic!("Expected preset"),
    }
}

#[test]
fn test_agent_definition() {
    let agent = AgentDefinition::new("Design checker", "Look over designs with care")
        .with_tools(vec!["Read".to_string()])
        .with_model("sonnet-3-5");

    assert_eq!(agent.description, "Design checker");
    assert_eq!(agent.tools, Some(vec!["Read".to_string()]));
    assert_eq!(agent.model, Some("sonnet-3-5".to_string()));
}

#[test]
fn test_sdk_plugin_config() {
    let plugin = SdkPluginConfig::local("/path/to/plugin");
    assert_eq!(plugin.plugin_type, "local");
    assert_eq!(plugin.path, "/path/to/plugin");
}

#[test]
fn test_system_prompt_from_string() {
    let prompt: SystemPrompt = "You are helpful".to_string().into();
    match prompt {
        SystemPrompt::Text(text) => assert_eq!(text, "You are helpful"),
        _ => panic!("Expected text"),
    }
}

#[test]
fn test_system_prompt_preset_claude_code() {
    let preset = SystemPromptPreset::claude_code();
    assert_eq!(preset.preset, "claude_code");
    assert!(preset.append.is_none());
}

#[test]
fn test_tools_from_list() {
    let tools: Tools = vec!["Bash".to_string()].into();
    match tools {
        Tools::List(list) => assert_eq!(list, vec!["Bash"]),
        _ => panic!("Expected list"),
    }
}

#[test]
fn test_tools_preset() {
    let preset = ToolsPreset::claude_code();
    let tools: Tools = preset.into();
    match tools {
        Tools::Preset(p) => assert_eq!(p.preset, "claude_code"),
        _ => panic!("Expected preset"),
    }
}

#[test]
fn test_agent_definition_without_optional_fields() {
    let agent = AgentDefinition::new("Test agent", "Test prompt");
    assert_eq!(agent.description, "Test agent");
    assert_eq!(agent.prompt, "Test prompt");
    assert!(agent.tools.is_none());
    assert!(agent.model.is_none());
}
