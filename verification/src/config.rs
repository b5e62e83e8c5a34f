//! Settings that the core reads.

use crate::permissions::PermissionEntry;
use vstd::prelude::*;

verus! {

/// Which model answers by default.
#[derive(Debug)]
pub struct ModelsConfig {
    pub default: String,
}

/// Limits and approval policy.
#[derive(Debug)]
pub struct SafetyConfig {
    /// The number of loop passes one run may make.
    pub max_iterations: usize,
    /// Whether a capability without a stored decision must be approved
    /// interactively before it runs.
    pub require_approval: bool,
    /// The permission levels that capabilities start a session with.
    pub default_permissions: Vec<PermissionEntry>,
    /// Texts that no command may hold.
    pub denied_patterns: Vec<String>,
    /// Texts that mark a command as one to be approved.
    pub approval_patterns: Vec<String>,
}

/// Settings of the agent loop itself.
#[derive(Debug)]
pub struct AgentConfig {
    /// The template the system prompt starts from, if one is chosen.
    pub default_system_prompt_template: Option<String>,
    /// Whether files that a response mentions are read into the history.
    pub context_injection: bool,
    /// The token budget of one injected file, at four characters a token.
    pub max_inject_tokens: usize,
}

/// All settings.
#[derive(Debug)]
pub struct Config {
    pub models: ModelsConfig,
    pub safety: SafetyConfig,
    pub agent: AgentConfig,
}

impl Default for Config {
    /// The settings of a fresh installation: ten passes a run, approval
    /// required, a short list of destructive commands denied, context
    /// injection off.
    fn default() -> (config: Config)
        ensures
            config.models.default@ == "gpt-4o-mini"@,
            config.safety.max_iterations == 10,
            config.safety.require_approval,
            config.safety.default_permissions@.len() == 0,
            config.safety.denied_patterns@.len() == 3,
            config.safety.denied_patterns@[0]@ == "rm -rf /"@,
            config.safety.denied_patterns@[1]@ == "mkfs"@,
            config.safety.denied_patterns@[2]@ == "dd if="@,
            config.safety.approval_patterns@.len() == 1,
            config.safety.approval_patterns@[0]@ == "sudo "@,
            config.agent.default_system_prompt_template is None,
            !config.agent.context_injection,
            config.agent.max_inject_tokens == 1000,
    {
        let mut denied_patterns: Vec<String> = Vec::new();
        denied_patterns.push(String::from_str("rm -rf /"));
        denied_patterns.push(String::from_str("mkfs"));
        denied_patterns.push(String::from_str("dd if="));
        let mut approval_patterns: Vec<String> = Vec::new();
        approval_patterns.push(String::from_str("sudo "));
        Config {
            models: ModelsConfig { default: String::from_str("gpt-4o-mini") },
            safety: SafetyConfig {
                max_iterations: 10,
                require_approval: true,
                default_permissions: Vec::new(),
                denied_patterns,
                approval_patterns,
            },
            agent: AgentConfig {
                default_system_prompt_template: None,
                context_injection: false,
                max_inject_tokens: 1000,
            },
        }
    }
}

} // verus!
