//! The system prompt: a preamble, the surroundings of the session, the
//! catalogue of capabilities and the protocol that the model is to follow.

use crate::text::option_view;
use vstd::prelude::*;

verus! {

/// One example turn that follows a template's text.
#[derive(Debug)]
pub struct FewShotExample {
    pub role: String,
    pub content: String,
}

/// A named preamble with its optional examples.
#[derive(Debug)]
pub struct PromptTemplate {
    pub template: String,
    pub few_shot_examples: Option<Vec<FewShotExample>>,
}

/// What a capability says of itself; either part may be missing.
#[derive(Debug)]
pub struct ToolDefinition {
    pub name: Option<String>,
    pub description: Option<String>,
}

/// The surroundings of the session; each part is `None` where it could
/// not be found out.
#[derive(Debug)]
pub struct AmbientContext {
    pub current_dir: Option<String>,
    pub git_branch: Option<String>,
    pub project_type: Option<String>,
    pub project_context: Option<String>,
}

/// An example turn as a mathematical value.
pub struct FewShotExampleView {
    pub role: Seq<char>,
    pub content: Seq<char>,
}

impl View for FewShotExample {
    type V = FewShotExampleView;

    open spec fn view(&self) -> FewShotExampleView {
        FewShotExampleView { role: self.role@, content: self.content@ }
    }
}

/// The views of a list of examples, in order.
pub open spec fn examples_view(examples: Seq<FewShotExample>) -> Seq<FewShotExampleView> {
    Seq::new(examples.len(), |i: int| examples[i]@)
}

/// A template as a mathematical value.
pub struct PromptTemplateView {
    pub template: Seq<char>,
    pub few_shot_examples: Option<Seq<FewShotExampleView>>,
}

impl View for PromptTemplate {
    type V = PromptTemplateView;

    open spec fn view(&self) -> PromptTemplateView {
        PromptTemplateView {
            template: self.template@,
            few_shot_examples: match self.few_shot_examples {
                Some(examples) => Some(examples_view(examples@)),
                None => None,
            },
        }
    }
}

/// The view of an optional template.
pub open spec fn template_view(template: Option<PromptTemplate>) -> Option<PromptTemplateView> {
    match template {
        Some(t) => Some(t@),
        None => None,
    }
}

/// A definition as a mathematical value.
pub struct ToolDefinitionView {
    pub name: Option<Seq<char>>,
    pub description: Option<Seq<char>>,
}

impl View for ToolDefinition {
    type V = ToolDefinitionView;

    open spec fn view(&self) -> ToolDefinitionView {
        ToolDefinitionView {
            name: option_view(self.name),
            description: option_view(self.description),
        }
    }
}

/// The views of a list of definitions, in order.
pub open spec fn definitions_view(defs: Seq<ToolDefinition>) -> Seq<ToolDefinitionView> {
    Seq::new(defs.len(), |i: int| defs[i]@)
}

/// The surroundings as a mathematical value.
pub struct AmbientContextView {
    pub current_dir: Option<Seq<char>>,
    pub git_branch: Option<Seq<char>>,
    pub project_type: Option<Seq<char>>,
    pub project_context: Option<Seq<char>>,
}

impl View for AmbientContext {
    type V = AmbientContextView;

    open spec fn view(&self) -> AmbientContextView {
        AmbientContextView {
            current_dir: option_view(self.current_dir),
            git_branch: option_view(self.git_branch),
            project_type: option_view(self.project_type),
            project_context: option_view(self.project_context),
        }
    }
}

/// The preamble that is used where no template applies.
pub const DEFAULT_SYSTEM_PROMPT: &'static str =
    "You are PromptLine, an AI coding assistant built to help developers with their tasks.

IDENTITY:
- Your name is PromptLine (not the name of any underlying model)
- You are a professional, helpful coding assistant
- Never mention your underlying model or AI provider

IMPORTANT GUIDELINES:
- For simple greetings (hi, hello, hey) or casual conversation, just respond naturally WITHOUT using any tools, then say FINISH
- Only use tools when the user asks you to DO something specific (read a file, search code, list files, etc.)
- When you use a tool, explain what you're doing briefly
- ALWAYS end your response with \"FINISH\" on a new line when done
- Be concise and professional in your responses

AVAILABLE TOOLS:
- file_read: Read file contents
- file_write: Write to a file
- file_list: List directory contents
- git_status: Check git status
- git_diff: Show git diff
- web_get: Fetch web content
- codebase_search: Search code

TOOL USAGE FORMAT:
When you need to use a tool, respond with:
{\"tool\": \"tool_name\", \"args\": {\"arg1\": \"value1\"}}

Remember: Don't use tools for simple conversation - just chat naturally!";

/// The protocol that closes the prompt: how to propose an action and how
/// to say that the task is done.
pub const PROTOCOL_TEXT: &'static str =
    "\n\nTo use a tool, output JSON in this format:\n{\"tool\": \"tool_name\", \"args\": {\"arg\": \"value\"}}\n\nWhen you've completed the task, respond with: FINISH\n\nAlways explain your reasoning before taking an action.";

/// The examples written out, each as a blank line, its role, a colon and
/// its content.
pub open spec fn examples_text(examples: Seq<FewShotExampleView>) -> Seq<char>
    decreases examples.len(),
{
    if examples.len() == 0 {
        Seq::empty()
    } else {
        examples_text(examples.drop_last()) + "\n\n"@ + examples.last().role + ": "@
            + examples.last().content
    }
}

/// The preamble: the template's text followed by its examples, or the
/// default where there is no template.
pub open spec fn base_prompt_text(template: Option<PromptTemplateView>) -> Seq<char> {
    match template {
        Some(t) => match t.few_shot_examples {
            Some(examples) => t.template + examples_text(examples),
            None => t.template,
        },
        None => DEFAULT_SYSTEM_PROMPT@,
    }
}

/// `text` where there is one, else `default`.
pub open spec fn text_or(text: Option<Seq<char>>, default: Seq<char>) -> Seq<char> {
    match text {
        Some(t) => t,
        None => default,
    }
}

/// The catalogue line of one capability.
pub open spec fn catalogue_line(def: ToolDefinitionView) -> Seq<char> {
    "- "@ + text_or(def.name, "unknown"@) + ": "@ + text_or(def.description, ""@)
}

/// The catalogue: one line for each capability, with a line break between
/// two lines.
pub open spec fn catalogue_text(defs: Seq<ToolDefinitionView>) -> Seq<char>
    decreases defs.len(),
{
    if defs.len() == 0 {
        Seq::empty()
    } else if defs.len() == 1 {
        catalogue_line(defs[0])
    } else {
        catalogue_text(defs.drop_last()) + "\n"@ + catalogue_line(defs.last())
    }
}

/// The sentence on the source-control branch.
pub open spec fn git_info_text(branch: Option<Seq<char>>) -> Seq<char> {
    match branch {
        Some(b) => "You are currently on git branch: "@ + b,
        None => "You are not in a git repository or branch could not be determined."@,
    }
}

/// The block that carries the project's context digest, where there is one.
pub open spec fn context_block_text(project_context: Option<Seq<char>>) -> Seq<char> {
    match project_context {
        Some(c) => "Project Context:\n```\n"@ + c + "\n```\n\n"@,
        None => Seq::empty(),
    }
}

/// The whole system prompt.
pub open spec fn system_prompt_text(
    template: Option<PromptTemplateView>,
    context: AmbientContextView,
    defs: Seq<ToolDefinitionView>,
) -> Seq<char> {
    context_block_text(context.project_context) + base_prompt_text(template)
        + "\n\nCurrent working directory: "@ + text_or(context.current_dir, "unknown"@)
        + "\nCurrent project type: "@ + text_or(context.project_type, "Generic"@) + "\n"@
        + git_info_text(context.git_branch) + "\n\nYou can use the following tools:\n"@
        + catalogue_text(defs) + PROTOCOL_TEXT@
}

/// The default preamble.
pub fn default_system_prompt() -> (prompt: String)
    ensures
        prompt@ == DEFAULT_SYSTEM_PROMPT@,
{
    String::from_str(DEFAULT_SYSTEM_PROMPT)
}

/// Writes the preamble: the template with its examples, or the default.
pub fn base_prompt(template: &Option<PromptTemplate>) -> (prompt: String)
    ensures
        prompt@ == base_prompt_text(template_view(*template)),
{
    match template {
        Some(t) => {
            let mut prompt = t.template.clone();
            match &t.few_shot_examples {
                Some(examples) => {
                    let n: usize = examples.len();
                    let mut i: usize = 0;
                    let ghost all = examples_view(examples@);
                    assert(examples_text(all.take(0)) =~= Seq::<char>::empty());
                    assert(prompt@ =~= t.template@ + Seq::<char>::empty());
                    while i < n
                        invariant
                            i <= n,
                            n == examples.len(),
                            all == examples_view(examples@),
                            prompt@ == t.template@ + examples_text(all.take(i as int)),
                        decreases n - i,
                    {
                        proof {
                            let next = all.take(i + 1);
                            assert(next.drop_last() =~= all.take(i as int));
                            assert(next.last() == examples@[i as int]@);
                        }
                        prompt.append("\n\n");
                        prompt.append(examples[i].role.as_str());
                        prompt.append(": ");
                        prompt.append(examples[i].content.as_str());
                        assert(prompt@ =~= t.template@ + examples_text(all.take(i + 1)));
                        i = i + 1;
                    }
                    assert(all.take(n as int) =~= all);
                },
                None => {},
            }
            prompt
        },
        None => default_system_prompt(),
    }
}

/// Writes the catalogue of capabilities.
pub fn catalogue(defs: &Vec<ToolDefinition>) -> (out: String)
    ensures
        out@ == catalogue_text(definitions_view(defs@)),
{
    let mut out = String::new();
    let n: usize = defs.len();
    let mut i: usize = 0;
    let ghost all = definitions_view(defs@);
    assert(all.take(0).len() == 0);
    while i < n
        invariant
            i <= n,
            n == defs.len(),
            all == definitions_view(defs@),
            out@ == catalogue_text(all.take(i as int)),
        decreases n - i,
    {
        proof {
            let next = all.take(i + 1);
            assert(next.drop_last() =~= all.take(i as int));
            assert(next.last() == defs@[i as int]@);
            assert(next[0] == all[0]);
        }
        let ghost before = out@;
        if i > 0 {
            out.append("\n");
        }
        out.append("- ");
        match &defs[i].name {
            Some(name) => out.append(name.as_str()),
            None => out.append("unknown"),
        }
        out.append(": ");
        match &defs[i].description {
            Some(description) => out.append(description.as_str()),
            None => out.append(""),
        }
        proof {
            let line = catalogue_line(defs@[i as int]@);
            if i > 0 {
                assert(out@ =~= before + "\n"@ + line);
            } else {
                assert(before =~= Seq::<char>::empty());
                assert(out@ =~= line);
            }
        }
        i = i + 1;
    }
    assert(all.take(n as int) =~= all);
    out
}

/// Assembles the system prompt from the preamble, the surroundings and the
/// catalogue. A part of the surroundings that is missing is replaced by
/// its neutral default.
pub fn build_system_prompt(
    template: &Option<PromptTemplate>,
    context: &AmbientContext,
    defs: &Vec<ToolDefinition>,
) -> (prompt: String)
    ensures
        prompt@ == system_prompt_text(template_view(*template), context@, definitions_view(defs@)),
{
    let mut prompt = String::new();
    match &context.project_context {
        Some(c) => {
            prompt.append("Project Context:\n```\n");
            prompt.append(c.as_str());
            prompt.append("\n```\n\n");
            assert(prompt@ =~= context_block_text(context@.project_context));
        },
        None => {},
    }
    let base = base_prompt(template);
    prompt.append(base.as_str());
    prompt.append("\n\nCurrent working directory: ");
    match &context.current_dir {
        Some(d) => prompt.append(d.as_str()),
        None => prompt.append("unknown"),
    }
    prompt.append("\nCurrent project type: ");
    match &context.project_type {
        Some(p) => prompt.append(p.as_str()),
        None => prompt.append("Generic"),
    }
    prompt.append("\n");
    let ghost before_git = prompt@;
    match &context.git_branch {
        Some(b) => {
            prompt.append("You are currently on git branch: ");
            prompt.append(b.as_str());
        },
        None => {
            prompt.append("You are not in a git repository or branch could not be determined.");
        },
    }
    assert(prompt@ =~= before_git + git_info_text(context@.git_branch));
    prompt.append("\n\nYou can use the following tools:\n");
    let lines = catalogue(defs);
    prompt.append(lines.as_str());
    prompt.append(PROTOCOL_TEXT);
    prompt
}

} // verus!
