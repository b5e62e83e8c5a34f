//! The slash commands of the interactive session.

use crate::config::Config;
use crate::permissions::{level_label, Decisions, PermissionLevel, PermissionManager};
use crate::text::{
    lowercase,
    starts_with,
    text_equals,
    text_starts_with,
    to_lowercase,
    trim,
    trimmed,
};
use crate::VERSION;
use vstd::prelude::*;

verus! {

/// The commands that the session knows.
#[derive(Debug, Clone, Copy, PartialEq, Eq, Structural)]
pub enum SlashCommand {
    Help,
    Settings,
    Clear,
    Status,
    Model,
    Permissions,
    Quit,
    Version,
}

/// The error type of command execution, from `anyhow`. The library only
/// names it in a signature and never makes a value of it.
#[verifier::external_type_specification]
#[verifier::external_body]
pub struct ExCommandFailure(anyhow::Error);

/// The help message.
pub const HELP_TEXT: &'static str =
    "
⚙️  PromptLine Commands

Available slash commands:
  /help         Show this help message
  /settings     Configure permissions and preferences
  /clear        Start new session (clear history)
  /status       Show current configuration
  /model        Show model information
  /permissions  Manage tool permissions
  /quit         Exit PromptLine
  /version      Show version info

Aliases:
  /h → /help
  /q → /quit
  /v → /version
  /perms → /permissions
";

/// The command that a lower-case word names, aliases included.
pub open spec fn command_named(word: Seq<char>) -> Option<SlashCommand> {
    if word == "/help"@ || word == "/h"@ {
        Some(SlashCommand::Help)
    } else if word == "/settings"@ || word == "/config"@ {
        Some(SlashCommand::Settings)
    } else if word == "/clear"@ || word == "/new"@ {
        Some(SlashCommand::Clear)
    } else if word == "/status"@ {
        Some(SlashCommand::Status)
    } else if word == "/model"@ {
        Some(SlashCommand::Model)
    } else if word == "/permissions"@ || word == "/perms"@ {
        Some(SlashCommand::Permissions)
    } else if word == "/quit"@ || word == "/exit"@ || word == "/q"@ {
        Some(SlashCommand::Quit)
    } else if word == "/version"@ || word == "/v"@ {
        Some(SlashCommand::Version)
    } else {
        None
    }
}

/// The command that an input line gives: the line is trimmed, must begin
/// with a slash, and is matched without regard to case.
pub open spec fn parsed_command(input: Seq<char>) -> Option<SlashCommand> {
    if starts_with(trimmed(input), "/"@) {
        command_named(lowercase(trimmed(input)))
    } else {
        None
    }
}

/// The line that the settings show for one stored decision.
pub open spec fn settings_line(decision: (Seq<char>, PermissionLevel)) -> Seq<char> {
    "  • "@ + decision.0 + ": "@ + level_label(decision.1) + "\n"@
}

/// The lines that the settings show for the stored decisions.
pub open spec fn settings_lines(ds: Decisions) -> Seq<char>
    decreases ds.len(),
{
    if ds.len() == 0 {
        Seq::empty()
    } else {
        settings_lines(ds.drop_last()) + settings_line(ds.last())
    }
}

/// The mark in front of a level in the list of permissions.
pub open spec fn level_icon(level: PermissionLevel) -> Seq<char> {
    match level {
        PermissionLevel::Always => "✓"@,
        PermissionLevel::Never => "✗"@,
        _ => "?"@,
    }
}

/// The line that the list of permissions shows for one stored decision.
pub open spec fn permission_line(decision: (Seq<char>, PermissionLevel)) -> Seq<char> {
    "  "@ + level_icon(decision.1) + " "@ + decision.0 + ": "@ + level_label(decision.1) + "\n"@
}

/// The lines that the list of permissions shows.
pub open spec fn permission_lines(ds: Decisions) -> Seq<char>
    decreases ds.len(),
{
    if ds.len() == 0 {
        Seq::empty()
    } else {
        permission_lines(ds.drop_last()) + permission_line(ds.last())
    }
}

/// The settings message.
pub open spec fn settings_text(ds: Decisions, provider: Seq<char>) -> Seq<char> {
    "\n⚙️  PromptLine Settings\n\nPermissions:\n"@ + (if ds.len() == 0 {
        "  (No custom permissions set)\n"@
    } else {
        settings_lines(ds)
    }) + "\nProvider: "@ + provider + "\n"@ + "\nType /help for available commands\n"@
}

/// The status message.
pub open spec fn status_text(provider: Seq<char>) -> Seq<char> {
    "\n⚙️  Status\n\nProvider: "@ + provider + "\nVersion: "@ + VERSION@ + "\n"@
}

/// The message on the model.
pub open spec fn model_text(model: Seq<char>) -> Seq<char> {
    "\n🤖 Model Information\n\nProvider: Ollama\nDefault Model: "@ + model + "\n"@
}

/// The message on the permissions.
pub open spec fn permissions_text(ds: Decisions) -> Seq<char> {
    "\n🔐 Tool Permissions\n\n"@ + (if ds.len() == 0 {
        "No custom permissions set. All tools will prompt for permission.\n"@
    } else {
        permission_lines(ds)
    }) + "\nUse /settings to configure permissions\n"@
}

/// What a command answers.
pub open spec fn command_output(
    command: SlashCommand,
    ds: Decisions,
    model: Seq<char>,
) -> Seq<char> {
    match command {
        SlashCommand::Help => HELP_TEXT@,
        SlashCommand::Settings => settings_text(ds, model),
        SlashCommand::Clear => "Session cleared."@,
        SlashCommand::Status => status_text(model),
        SlashCommand::Model => model_text(model),
        SlashCommand::Permissions => permissions_text(ds),
        SlashCommand::Quit => "Goodbye! 👋"@,
        SlashCommand::Version => "PromptLine v"@ + VERSION@,
    }
}

/// Finds the command that a lower-case word names.
pub fn command_for_word(word: &str) -> (command: Option<SlashCommand>)
    ensures
        command == command_named(word@),
{
    if text_equals(word, "/help") || text_equals(word, "/h") {
        Some(SlashCommand::Help)
    } else if text_equals(word, "/settings") || text_equals(word, "/config") {
        Some(SlashCommand::Settings)
    } else if text_equals(word, "/clear") || text_equals(word, "/new") {
        Some(SlashCommand::Clear)
    } else if text_equals(word, "/status") {
        Some(SlashCommand::Status)
    } else if text_equals(word, "/model") {
        Some(SlashCommand::Model)
    } else if text_equals(word, "/permissions") || text_equals(word, "/perms") {
        Some(SlashCommand::Permissions)
    } else if text_equals(word, "/quit") || text_equals(word, "/exit") || text_equals(word, "/q") {
        Some(SlashCommand::Quit)
    } else if text_equals(word, "/version") || text_equals(word, "/v") {
        Some(SlashCommand::Version)
    } else {
        None
    }
}

/// Answers the slash commands from the settings and the permission
/// decisions.
pub struct CommandHandler {
    config: Config,
    permissions: PermissionManager,
}

impl CommandHandler {
    /// The permission decisions that the handler shows.
    pub closed spec fn decisions(&self) -> Decisions {
        self.permissions.decisions()
    }

    /// The name of the default model.
    pub closed spec fn model(&self) -> Seq<char> {
        self.config.models.default@
    }

    /// A handler over the given settings and permission decisions.
    pub fn new(config: Config, permissions: PermissionManager) -> (handler: CommandHandler)
        ensures
            handler.decisions() == permissions.decisions(),
            handler.model() == config.models.default@,
    {
        CommandHandler { config, permissions }
    }

    /// Parses a slash command from an input line.
    pub fn parse(input: &str) -> (command: Option<SlashCommand>)
        ensures
            command == parsed_command(input@),
    {
        let word = trim(input);
        if !text_starts_with(word, "/") {
            return None;
        }
        let lower = to_lowercase(word);
        command_for_word(lower.as_str())
    }

    /// Executes a slash command; every command succeeds.
    pub fn execute(&self, command: SlashCommand) -> (r: Result<String, anyhow::Error>)
        ensures
            r matches Ok(output) && output@ == command_output(
                command,
                self.decisions(),
                self.model(),
            ),
    {
        match command {
            SlashCommand::Help => Ok(self.help()),
            SlashCommand::Settings => Ok(self.settings()),
            SlashCommand::Clear => Ok(String::from_str("Session cleared.")),
            SlashCommand::Status => Ok(self.status()),
            SlashCommand::Model => Ok(self.model_info()),
            SlashCommand::Permissions => Ok(self.permissions_info()),
            SlashCommand::Quit => Ok(String::from_str("Goodbye! 👋")),
            SlashCommand::Version => {
                let mut out = String::from_str("PromptLine v");
                out.append(VERSION);
                Ok(out)
            },
        }
    }

    /// The help message.
    pub fn help(&self) -> (out: String)
        ensures
            out@ == HELP_TEXT@,
    {
        String::from_str(HELP_TEXT)
    }

    /// The settings: the stored decisions, one a line, and the provider.
    pub fn settings(&self) -> (out: String)
        ensures
            out@ == settings_text(self.decisions(), self.model()),
    {
        let perms = self.permissions.get_all_permissions();
        let mut out = String::from_str("\n⚙️  PromptLine Settings\n\nPermissions:\n");
        let ghost head = out@;
        let ghost ds = self.decisions();
        let n: usize = perms.len();
        if n == 0 {
            out.append("  (No custom permissions set)\n");
        } else {
            let mut i: usize = 0;
            assert(head + settings_lines(ds.take(0)) =~= head);
            while i < n
                invariant
                    i <= n,
                    n == perms@.len(),
                    n == ds.len(),
                    forall|k: int|
                        0 <= k < n ==> (#[trigger] perms@[k].tool@, perms@[k].level) == ds[k],
                    out@ == head + settings_lines(ds.take(i as int)),
                decreases n - i,
            {
                proof {
                    let next = ds.take(i + 1);
                    assert(next.drop_last() =~= ds.take(i as int));
                    assert(next.last() == ds[i as int]);
                    assert((perms@[i as int].tool@, perms@[i as int].level) == ds[i as int]);
                }
                let ghost before = out@;
                out.append("  • ");
                out.append(perms[i].tool.as_str());
                out.append(": ");
                out.append(perms[i].level.label());
                out.append("\n");
                assert(out@ =~= before + settings_line(ds[i as int]));
                assert(out@ =~= head + settings_lines(ds.take(i + 1)));
                i = i + 1;
            }
            assert(ds.take(n as int) =~= ds);
        }
        out.append("\nProvider: ");
        out.append(self.config.models.default.as_str());
        out.append("\n");
        out.append("\nType /help for available commands\n");
        out
    }

    /// The status: the provider and the version.
    pub fn status(&self) -> (out: String)
        ensures
            out@ == status_text(self.model()),
    {
        let mut out = String::from_str("\n⚙️  Status\n\nProvider: ");
        out.append(self.config.models.default.as_str());
        out.append("\nVersion: ");
        out.append(VERSION);
        out.append("\n");
        out
    }

    /// The provider and the default model.
    pub fn model_info(&self) -> (out: String)
        ensures
            out@ == model_text(self.model()),
    {
        let mut out = String::from_str(
            "\n🤖 Model Information\n\nProvider: Ollama\nDefault Model: ",
        );
        out.append(self.config.models.default.as_str());
        out.append("\n");
        out
    }

    /// The stored decisions, one a line, each with the mark of its level.
    pub fn permissions_info(&self) -> (out: String)
        ensures
            out@ == permissions_text(self.decisions()),
    {
        let perms = self.permissions.get_all_permissions();
        let mut out = String::from_str("\n🔐 Tool Permissions\n\n");
        let ghost head = out@;
        let ghost ds = self.decisions();
        let n: usize = perms.len();
        if n == 0 {
            out.append("No custom permissions set. All tools will prompt for permission.\n");
        } else {
            let mut i: usize = 0;
            assert(head + permission_lines(ds.take(0)) =~= head);
            while i < n
                invariant
                    i <= n,
                    n == perms@.len(),
                    n == ds.len(),
                    forall|k: int|
                        0 <= k < n ==> (#[trigger] perms@[k].tool@, perms@[k].level) == ds[k],
                    out@ == head + permission_lines(ds.take(i as int)),
                decreases n - i,
            {
                proof {
                    let next = ds.take(i + 1);
                    assert(next.drop_last() =~= ds.take(i as int));
                    assert(next.last() == ds[i as int]);
                    assert((perms@[i as int].tool@, perms@[i as int].level) == ds[i as int]);
                }
                let ghost before = out@;
                let icon = match perms[i].level {
                    PermissionLevel::Always => "✓",
                    PermissionLevel::Never => "✗",
                    _ => "?",
                };
                out.append("  ");
                out.append(icon);
                out.append(" ");
                out.append(perms[i].tool.as_str());
                out.append(": ");
                out.append(perms[i].level.label());
                out.append("\n");
                assert(out@ =~= before + permission_line(ds[i as int]));
                assert(out@ =~= head + permission_lines(ds.take(i + 1)));
                i = i + 1;
            }
            assert(ds.take(n as int) =~= ds);
        }
        out.append("\nUse /settings to configure permissions\n");
        out
    }
}

} // verus!
