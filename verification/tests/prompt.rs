use promptline::agent::Agent;
use promptline::config::{AgentConfig, Config, ModelsConfig, SafetyConfig};
use promptline::permissions::PermissionManager;
use promptline::prompt::{
    base_prompt, build_system_prompt, catalogue, default_system_prompt, AmbientContext,
    FewShotExample, PromptTemplate, ToolDefinition, DEFAULT_SYSTEM_PROMPT, PROTOCOL_TEXT,
};

const PROTOCOL: &str = "\n\nTo use a tool, output JSON in this format:\n{\"tool\": \"tool_name\", \"args\": {\"arg\": \"value\"}}\n\nWhen you've completed the task, respond with: FINISH\n\nAlways explain your reasoning before taking an action.";

#[test]
fn protocol_names_the_two_fields_and_the_token() {
    assert_eq!(PROTOCOL_TEXT, PROTOCOL);
}

fn defs() -> Vec<ToolDefinition> {
    vec![
        ToolDefinition {
            name: Some("file_read".to_string()),
            description: Some("Read file contents".to_string()),
        },
        ToolDefinition { name: None, description: Some("nameless".to_string()) },
        ToolDefinition { name: Some("bare".to_string()), description: None },
    ]
}

fn nothing_known() -> AmbientContext {
    AmbientContext { current_dir: None, git_branch: None, project_type: None, project_context: None }
}

#[test]
fn catalogue_has_one_line_per_capability() {
    assert_eq!(catalogue(&Vec::new()), "");
    assert_eq!(catalogue(&defs()), "- file_read: Read file contents\n- unknown: nameless\n- bare: ");
}

#[test]
fn template_is_followed_by_its_examples() {
    let template = Some(PromptTemplate {
        template: "You are terse.".to_string(),
        few_shot_examples: Some(vec![
            FewShotExample { role: "user".to_string(), content: "hi".to_string() },
            FewShotExample { role: "assistant".to_string(), content: "hello FINISH".to_string() },
        ]),
    });
    assert_eq!(base_prompt(&template), "You are terse.\n\nuser: hi\n\nassistant: hello FINISH");
    let bare = Some(PromptTemplate { template: "T".to_string(), few_shot_examples: None });
    assert_eq!(base_prompt(&bare), "T");
    assert_eq!(base_prompt(&None), DEFAULT_SYSTEM_PROMPT);
    assert_eq!(default_system_prompt(), DEFAULT_SYSTEM_PROMPT);
    assert!(DEFAULT_SYSTEM_PROMPT.starts_with("You are PromptLine, an AI coding assistant"));
    assert!(DEFAULT_SYSTEM_PROMPT.ends_with("just chat naturally!"));
}

#[test]
fn missing_surroundings_fall_back_to_defaults() {
    let template = Some(PromptTemplate { template: "T".to_string(), few_shot_examples: None });
    let prompt = build_system_prompt(&template, &nothing_known(), &Vec::new());
    let expected = format!(
        "T\n\nCurrent working directory: unknown\nCurrent project type: Generic\nYou are not in a git repository or branch could not be determined.\n\nYou can use the following tools:\n{}",
        PROTOCOL
    );
    assert_eq!(prompt, expected);
}

#[test]
fn full_prompt_is_assembled_in_order() {
    let template = Some(PromptTemplate { template: "T".to_string(), few_shot_examples: None });
    let context = AmbientContext {
        current_dir: Some("/work".to_string()),
        git_branch: Some("main".to_string()),
        project_type: Some("Rust".to_string()),
        project_context: Some("a digest".to_string()),
    };
    let prompt = build_system_prompt(&template, &context, &defs());
    let expected = format!(
        "Project Context:\n```\na digest\n```\n\nT\n\nCurrent working directory: /work\nCurrent project type: Rust\nYou are currently on git branch: main\n\nYou can use the following tools:\n- file_read: Read file contents\n- unknown: nameless\n- bare: {}",
        PROTOCOL
    );
    assert_eq!(prompt, expected);
}

#[test]
fn agent_builds_the_prompt_from_its_capabilities() {
    let config = Config {
        models: ModelsConfig { default: "m".to_string() },
        safety: SafetyConfig {
            max_iterations: 1,
            require_approval: true,
            default_permissions: Vec::new(),
            denied_patterns: Vec::new(),
            approval_patterns: Vec::new(),
        },
        agent: AgentConfig {
            default_system_prompt_template: None,
            context_injection: false,
            max_inject_tokens: 1000,
        },
    };
    let agent = Agent::new(defs(), config, PermissionManager::new(true), Vec::new());
    assert_eq!(
        agent.build_system_prompt(&None, &nothing_known()),
        build_system_prompt(&None, &nothing_known(), &defs())
    );
    assert_eq!(agent.default_system_prompt(), DEFAULT_SYSTEM_PROMPT);
}
