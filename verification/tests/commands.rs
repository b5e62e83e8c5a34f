use promptline::commands::{command_for_word, CommandHandler, SlashCommand};
use promptline::config::{AgentConfig, Config, ModelsConfig, SafetyConfig};
use promptline::permissions::{PermissionLevel, PermissionManager, PermissionReply};

fn handler(permissions: PermissionManager) -> CommandHandler {
    let config = Config {
        models: ModelsConfig { default: "llama3".to_string() },
        safety: SafetyConfig {
            max_iterations: 10,
            require_approval: true,
            default_permissions: Vec::new(),
            denied_patterns: Vec::new(),
            approval_patterns: Vec::new(),
        },
        agent: AgentConfig {
            default_system_prompt_template: None,
            context_injection: false,
            max_inject_tokens: 1000,
        },
    };
    CommandHandler::new(config, permissions)
}

#[test]
fn test_parse_commands() {
    assert_eq!(CommandHandler::parse("/help"), Some(SlashCommand::Help));
    assert_eq!(CommandHandler::parse("/quit"), Some(SlashCommand::Quit));
    assert_eq!(CommandHandler::parse("/h"), Some(SlashCommand::Help));
    assert_eq!(CommandHandler::parse("not a command"), None);
}

#[test]
fn parse_knows_every_command_and_alias() {
    let table = [
        ("/help", SlashCommand::Help),
        ("/h", SlashCommand::Help),
        ("/settings", SlashCommand::Settings),
        ("/config", SlashCommand::Settings),
        ("/clear", SlashCommand::Clear),
        ("/new", SlashCommand::Clear),
        ("/status", SlashCommand::Status),
        ("/model", SlashCommand::Model),
        ("/permissions", SlashCommand::Permissions),
        ("/perms", SlashCommand::Permissions),
        ("/quit", SlashCommand::Quit),
        ("/exit", SlashCommand::Quit),
        ("/q", SlashCommand::Quit),
        ("/version", SlashCommand::Version),
        ("/v", SlashCommand::Version),
    ];
    for (word, command) in table {
        assert_eq!(CommandHandler::parse(word), Some(command));
        assert_eq!(command_for_word(word), Some(command));
    }
}

#[test]
fn parse_trims_and_ignores_case() {
    assert_eq!(CommandHandler::parse("  /HELP \n"), Some(SlashCommand::Help));
    assert_eq!(CommandHandler::parse("\t/Quit"), Some(SlashCommand::Quit));
    assert_eq!(CommandHandler::parse("/unknown"), None);
    assert_eq!(CommandHandler::parse("/help me"), None);
    assert_eq!(CommandHandler::parse("help"), None);
    assert_eq!(CommandHandler::parse(""), None);
    assert_eq!(CommandHandler::parse("   "), None);
    assert_eq!(CommandHandler::parse("/"), None);
    assert_eq!(command_for_word("/HELP"), None);
}

#[test]
fn fixed_answers() {
    let h = handler(PermissionManager::new(true));
    assert_eq!(h.execute(SlashCommand::Clear).unwrap(), "Session cleared.");
    assert_eq!(h.execute(SlashCommand::Quit).unwrap(), "Goodbye! \u{1F44B}");
    assert_eq!(h.execute(SlashCommand::Version).unwrap(), "PromptLine v0.1.0");
    let help = h.execute(SlashCommand::Help).unwrap();
    assert!(help.starts_with("\n\u{2699}\u{FE0F}  PromptLine Commands\n\nAvailable slash commands:\n"));
    assert!(help.ends_with("  /perms \u{2192} /permissions\n"));
    assert_eq!(help, h.help());
}

#[test]
fn status_and_model() {
    let h = handler(PermissionManager::new(true));
    assert_eq!(
        h.execute(SlashCommand::Status).unwrap(),
        "\n\u{2699}\u{FE0F}  Status\n\nProvider: llama3\nVersion: 0.1.0\n"
    );
    assert_eq!(
        h.execute(SlashCommand::Model).unwrap(),
        "\n\u{1F916} Model Information\n\nProvider: Ollama\nDefault Model: llama3\n"
    );
}

#[test]
fn settings_without_decisions() {
    let h = handler(PermissionManager::new(true));
    assert_eq!(
        h.execute(SlashCommand::Settings).unwrap(),
        "\n\u{2699}\u{FE0F}  PromptLine Settings\n\nPermissions:\n  (No custom permissions set)\n\nProvider: llama3\n\nType /help for available commands\n"
    );
    assert_eq!(
        h.execute(SlashCommand::Permissions).unwrap(),
        "\n\u{1F510} Tool Permissions\n\nNo custom permissions set. All tools will prompt for permission.\n\nUse /settings to configure permissions\n"
    );
}

#[test]
fn settings_list_decisions_in_order() {
    let mut permissions = PermissionManager::new(true);
    permissions.set_permission("shell", PermissionLevel::Never);
    permissions.set_permission("file_read", PermissionLevel::Always);
    permissions.set_permission("web_get", PermissionLevel::Once);
    permissions.set_permission("git_diff", PermissionLevel::Ask);
    assert!(permissions.record_reply("file_list", PermissionReply::Always));
    let h = handler(permissions);
    assert_eq!(
        h.execute(SlashCommand::Settings).unwrap(),
        "\n\u{2699}\u{FE0F}  PromptLine Settings\n\nPermissions:\n  \u{2022} shell: Never\n  \u{2022} file_read: Always\n  \u{2022} web_get: Once\n  \u{2022} git_diff: Ask\n  \u{2022} file_list: Always\n\nProvider: llama3\n\nType /help for available commands\n"
    );
    assert_eq!(
        h.execute(SlashCommand::Permissions).unwrap(),
        "\n\u{1F510} Tool Permissions\n\n  \u{2717} shell: Never\n  \u{2713} file_read: Always\n  ? web_get: Once\n  ? git_diff: Ask\n  \u{2713} file_list: Always\n\nUse /settings to configure permissions\n"
    );
}
