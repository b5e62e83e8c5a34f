//! The reason-act-observe loop as a state machine. The caller asks the
//! model, the user and the capabilities; every decision in between is
//! taken here.

use crate::config::Config;
use crate::json::{json_members, read_members, Members};
use crate::message::{
    clone_texts,
    history_view,
    lemma_history_push,
    lemma_texts_push,
    texts_view,
    Message,
    MessageView,
    Role,
};
use crate::permissions::{
    after_reply,
    after_use,
    Decisions,
    PermissionLevel,
    PermissionManager,
    PermissionReply,
};
use crate::prompt::{
    definitions_view,
    system_prompt_text,
    template_view,
    AmbientContext,
    PromptTemplate,
    ToolDefinition,
    ToolDefinitionView,
};
use crate::safety::{
    admission_verdict,
    refusal_text,
    reply_needed,
    verdict_of,
    Rules,
    SafetyValidator,
    ValidationResult,
    Verdict,
};
use crate::text::{
    chars_of,
    option_view,
    contains,
    ends_with,
    find_first,
    find_last,
    first_index_of,
    last_index_of,
    text_contains,
    starts_with,
    text_ends_with,
    text_equals,
    text_starts_with,
    trim,
    trimmed,
};
use vstd::prelude::*;

verus! {

/// The terminal snapshot of one run.
#[derive(Debug)]
pub struct AgentResult {
    pub success: bool,
    pub output: String,
    pub iterations: usize,
    pub tool_calls: Vec<String>,
}

/// A run result as a mathematical value.
pub struct AgentResultView {
    pub success: bool,
    pub output: Seq<char>,
    pub iterations: nat,
    pub tool_calls: Seq<Seq<char>>,
}

impl View for AgentResult {
    type V = AgentResultView;

    open spec fn view(&self) -> AgentResultView {
        AgentResultView {
            success: self.success,
            output: self.output@,
            iterations: self.iterations as nat,
            tool_calls: texts_view(self.tool_calls@),
        }
    }
}

impl Clone for AgentResult {
    fn clone(&self) -> (out: AgentResult)
        ensures
            out@ == self@,
    {
        AgentResult {
            success: self.success,
            output: self.output.clone(),
            iterations: self.iterations,
            tool_calls: clone_texts(&self.tool_calls),
        }
    }
}

/// An action that a response proposes: the capability's name and its
/// arguments in compact JSON.
#[derive(Debug)]
pub struct ParsedToolCall {
    pub name: String,
    pub args: String,
}

/// A proposed action as a mathematical value.
pub struct ToolCallView {
    pub name: Seq<char>,
    pub args: Seq<char>,
}

impl View for ParsedToolCall {
    type V = ToolCallView;

    open spec fn view(&self) -> ToolCallView {
        ToolCallView { name: self.name@, args: self.args@ }
    }
}

/// What a capability hands back.
#[derive(Debug)]
pub struct ToolResult {
    pub success: bool,
    pub output: String,
    pub error: Option<String>,
}

/// A capability's result as a mathematical value.
pub struct ToolResultView {
    pub success: bool,
    pub output: Seq<char>,
    pub error: Option<Seq<char>>,
}

impl View for ToolResult {
    type V = ToolResultView;

    open spec fn view(&self) -> ToolResultView {
        ToolResultView {
            success: self.success,
            output: self.output@,
            error: option_view(self.error),
        }
    }
}

/// A condition that aborts the run.
#[derive(Debug)]
pub enum AgentError {
    /// The run used up its passes without completing.
    MaxIterationsExceeded,
    /// No capability has the name that an admitted action gave.
    ToolNotFound(String),
}

impl AgentError {
    /// The condition in words.
    pub fn message(&self) -> (text: String)
        ensures
            text@ == match *self {
                AgentError::MaxIterationsExceeded => "iteration budget exceeded"@,
                AgentError::ToolNotFound(name) => "capability not found: "@ + name@,
            },
    {
        match self {
            AgentError::MaxIterationsExceeded => String::from_str("iteration budget exceeded"),
            AgentError::ToolNotFound(name) => {
                let mut text = String::from_str("capability not found: ");
                text.append(name.as_str());
                text
            },
        }
    }
}

/// What the loop does after a response.
#[derive(Debug)]
pub enum Step {
    /// The task is complete: the run ends with this result.
    Finished(AgentResult),
    /// The response proposed nothing and was recorded; ask the model again.
    Continue,
    /// The response proposed this action; take it to the checkpoint.
    Act(ParsedToolCall),
}

/// What the checkpoint hands back for an action that it decided.
#[derive(Debug)]
pub enum Admission {
    /// Run the capability and report its result.
    Execute,
    /// The run ends with this failing result.
    Refused(AgentResult),
}

/// The part of an agent that a run moves.
pub struct RunState {
    pub max_iterations: nat,
    pub iteration_count: nat,
    pub history: Seq<MessageView>,
    pub tool_calls: Seq<Seq<char>>,
}

/// Whether `text` says that the task is done: after trimming it ends with
/// the completion token, or it holds the phrase "task is complete".
pub open spec fn is_complete_text(text: Seq<char>) -> bool {
    ends_with(trimmed(text), "FINISH"@) || contains(text, "task is complete"@)
}

/// The span from the first opening brace to the last closing brace of
/// `text`, both included; none where either is missing or the closing one
/// comes first. A text that holds several objects has one span over all
/// of them, which is then no JSON document: only a response with a single
/// object proposes an action.
pub open spec fn object_span(text: Seq<char>) -> Option<Seq<char>> {
    match (first_index_of(text, '{'), last_index_of(text, '}')) {
        (Some(open), Some(close)) => if open <= close {
            Some(text.subrange(open, close + 1))
        } else {
            None
        },
        _ => None,
    }
}

/// The action that two members of an object make up: both are needed.
pub open spec fn call_from_members(tool: Option<Seq<char>>, args: Option<Seq<char>>) -> Option<
    ToolCallView,
> {
    match (tool, args) {
        (Some(name), Some(payload)) => Some(ToolCallView { name, args: payload }),
        _ => None,
    }
}

/// The action that the outcome of reading the object span gives.
pub open spec fn call_from_document(document: Option<Members>) -> Option<ToolCallView> {
    match document {
        Some(members) => call_from_members(members.name, members.payload),
        None => None,
    }
}

/// The action that `text` proposes: its object span, read as JSON, must
/// have a string under "tool" and some value under "args".
pub open spec fn parsed_call(text: Seq<char>) -> Option<ToolCallView> {
    match object_span(text) {
        Some(span) => call_from_document(json_members(span, "tool"@, "args"@)),
        None => None,
    }
}

/// The view of an optional action.
pub open spec fn call_view(call: Option<ParsedToolCall>) -> Option<ToolCallView> {
    match call {
        Some(c) => Some(c@),
        None => None,
    }
}

/// The command that the safety validator judges: the name, a blank and
/// the arguments.
pub open spec fn command_text(call: ToolCallView) -> Seq<char> {
    call.name + " "@ + call.args
}

/// What a capability's result says: its output where it succeeded, else
/// its error, or its output where it gave no error.
pub open spec fn result_text(result: ToolResultView) -> Seq<char> {
    if result.success {
        result.output
    } else {
        match result.error {
            Some(e) => e,
            None => result.output,
        }
    }
}

/// The observation that is recorded for the model.
pub open spec fn observation_text(name: Seq<char>, said: Seq<char>) -> Seq<char> {
    "Tool '"@ + name + "' result: "@ + said
}

/// Whether a definition carries the name `name`.
pub open spec fn defines(def: ToolDefinitionView, name: Seq<char>) -> bool {
    def.name == Some(name)
}

/// Whether some capability is registered under exactly `name`.
pub open spec fn registered(defs: Seq<ToolDefinitionView>, name: Seq<char>) -> bool {
    exists|i: int| 0 <= i < defs.len() && defines(#[trigger] defs[i], name)
}

/// The state at the start of a run: no pass made, nothing executed, and
/// the system prompt and the task at the end of the history.
pub open spec fn started(s: RunState, prompt: Seq<char>, task: Seq<char>) -> RunState {
    RunState {
        max_iterations: s.max_iterations,
        iteration_count: 0,
        history: s.history.push(MessageView { role: Role::System, content: prompt }).push(
            MessageView { role: Role::User, content: task },
        ),
        tool_calls: Seq::empty(),
    }
}

/// Whether another pass may begin.
pub open spec fn may_iterate(s: RunState) -> bool {
    s.iteration_count < s.max_iterations
}

/// The state after a pass began.
pub open spec fn iterated(s: RunState) -> RunState {
    RunState { iteration_count: s.iteration_count + 1, ..s }
}

/// The state after `content` was recorded under the assistant role.
pub open spec fn recorded(s: RunState, content: Seq<char>) -> RunState {
    RunState {
        history: s.history.push(MessageView { role: Role::Assistant, content }),
        ..s
    }
}

/// The state after a response: only one that neither completes the task
/// nor proposes an action is recorded.
pub open spec fn after_response(s: RunState, response: Seq<char>) -> RunState {
    if is_complete_text(response) || parsed_call(response) is Some {
        s
    } else {
        recorded(s, response)
    }
}

/// The state after the capability `name` ran and said `said`.
pub open spec fn observed(s: RunState, name: Seq<char>, said: Seq<char>) -> RunState {
    RunState {
        tool_calls: s.tool_calls.push(name),
        ..recorded(s, observation_text(name, said))
    }
}

/// The result with which a run in state `s` ends.
pub open spec fn result_in(s: RunState, success: bool, output: Seq<char>) -> AgentResultView {
    AgentResultView {
        success,
        output,
        iterations: s.iteration_count,
        tool_calls: s.tool_calls,
    }
}

/// The content of the last message of the assistant role in `history`,
/// or `fallback` where there is none.
pub open spec fn last_assistant_text(history: Seq<MessageView>, fallback: Seq<char>) -> Seq<char>
    decreases history.len(),
{
    if history.len() == 0 {
        fallback
    } else if history.last().role == Role::Assistant {
        history.last().content
    } else {
        last_assistant_text(history.drop_last(), fallback)
    }
}

/// A response tidied for display: trimmed, and where it then ends with
/// the completion token, without the token and trimmed again.
pub open spec fn formatted(text: Seq<char>) -> Seq<char> {
    let t = trimmed(text);
    if ends_with(t, "FINISH"@) {
        trimmed(t.subrange(0, t.len() - "FINISH"@.len()))
    } else {
        t
    }
}

/// What is shown of a reply: nothing where it is empty or the bare
/// completion token; else its tidied form, unless that, trimmed, is the
/// observation of a capability.
pub open spec fn shown(reply: Seq<char>) -> Option<Seq<char>> {
    if reply.len() == 0 || reply == "FINISH"@ || starts_with(
        trimmed(formatted(reply)),
        "Tool '"@,
    ) {
        None
    } else {
        Some(formatted(reply))
    }
}

/// The text that marks the history as holding the file at `path`.
pub open spec fn injection_tag(path: Seq<char>) -> Seq<char> {
    "File content of "@ + path + ":\n```"@
}

/// Whether the history holds the file at `path` already.
pub open spec fn already_injected(history: Seq<MessageView>, path: Seq<char>) -> bool {
    exists|i: int|
        0 <= i < history.len() && contains((#[trigger] history[i]).content, injection_tag(path))
}

/// The part of a file's content that is injected: all of it where it fits
/// the budget of `budget` tokens at four characters a token, else its
/// first `4 * budget` characters and a mark that the rest was cut.
pub open spec fn injected_text(content: Seq<char>, budget: nat) -> Seq<char> {
    if content.len() > 4 * budget {
        content.take(4 * budget as int) + "\n... (content truncated due to length)"@
    } else {
        content
    }
}

/// The message that carries the file at `path`.
pub open spec fn injection_message(path: Seq<char>, content: Seq<char>, budget: nat)
    -> MessageView {
    MessageView {
        role: Role::System,
        content: injection_tag(path) + "\n"@ + injected_text(content, budget) + "\n```"@,
    }
}

/// Builds the action from what was read out of the object span: `None`
/// where the span was no JSON document, else the two members. The action
/// needs both.
pub fn tool_call_from_members(document: Option<(Option<String>, Option<String>)>) -> (call:
    Option<ParsedToolCall>)
    ensures
        call_view(call) == match document {
            Some((tool, args)) => call_from_members(option_view(tool), option_view(args)),
            None => None,
        },
{
    match document {
        Some((Some(name), Some(payload))) => Some(ParsedToolCall { name, args: payload }),
        _ => None,
    }
}

/// Cuts the object span out of `text`.
pub fn find_object_span(text: &str) -> (span: Option<&str>)
    ensures
        match span {
            Some(s) => object_span(text@) == Some(s@),
            None => object_span(text@) is None,
        },
{
    let cs = chars_of(text);
    let n: usize = cs.len();
    match find_first(&cs, '{') {
        Some(open) => match find_last(&cs, '}') {
            Some(close) => {
                if open <= close {
                    assert(close < n);
                    Some(text.substring_char(open, close + 1))
                } else {
                    None
                }
            },
            None => None,
        },
        None => None,
    }
}

/// Writes the command that the safety validator is to judge.
pub fn command_string(call: &ParsedToolCall) -> (command: String)
    ensures
        command@ == command_text(call@),
{
    let mut command = call.name.clone();
    command.append(" ");
    command.append(call.args.as_str());
    command
}

/// The budget of passes of one run and the passes made so far. The
/// passes made never exceed the budget.
#[derive(Debug)]
pub struct Budget {
    max_iterations: usize,
    iteration_count: usize,
}

impl Budget {
    /// The passes made are within the budget. This holds of every value.
    #[verifier::type_invariant]
    pub closed spec fn wf(&self) -> bool {
        self.iteration_count <= self.max_iterations
    }

    /// The number of passes that a run may make.
    pub closed spec fn max(&self) -> nat {
        self.max_iterations as nat
    }

    /// The number of passes made.
    pub closed spec fn used(&self) -> nat {
        self.iteration_count as nat
    }

    /// A budget of `max_iterations` passes, none of them made.
    pub fn new(max_iterations: usize) -> (budget: Budget)
        ensures
            budget.max() == max_iterations,
            budget.used() == 0,
    {
        Budget { max_iterations, iteration_count: 0 }
    }

    /// Forgets the passes made.
    pub fn reset(&mut self)
        ensures
            final(self).max() == old(self).max(),
            final(self).used() == 0,
    {
        self.iteration_count = 0;
    }

    /// Counts one more pass where the budget has room for it, and says
    /// whether it had.
    pub fn advance(&mut self) -> (admitted: bool)
        ensures
            final(self).max() == old(self).max(),
            admitted == (old(self).used() < old(self).max()),
            final(self).used() == if admitted {
                old(self).used() + 1
            } else {
                old(self).used()
            },
    {
        if self.iteration_count < self.max_iterations {
            self.iteration_count = self.iteration_count + 1;
            true
        } else {
            false
        }
    }

    /// The number of passes made.
    pub fn passes(&self) -> (n: usize)
        ensures
            n == self.used(),
            self.used() <= self.max(),
    {
        proof {
            use_type_invariant(self);
        }
        self.iteration_count
    }
}

/// Orchestrates one conversation: counts the passes, keeps the history,
/// holds the permission decisions and the names of the capabilities.
#[derive(Debug)]
pub struct Agent {
    tools: Vec<ToolDefinition>,
    config: Config,
    safety_validator: SafetyValidator,
    permission_manager: PermissionManager,
    budget: Budget,
    tool_calls: Vec<String>,
    pub conversation_history: Vec<Message>,
}

impl Agent {
    /// What a run moves: the budget, the counter, the history and the
    /// names of the capabilities executed so far.
    pub closed spec fn state(&self) -> RunState {
        RunState {
            max_iterations: self.budget.max(),
            iteration_count: self.budget.used(),
            history: history_view(self.conversation_history@),
            tool_calls: texts_view(self.tool_calls@),
        }
    }

    /// The stored permission decisions.
    pub closed spec fn decisions(&self) -> Decisions {
        self.permission_manager.decisions()
    }

    /// The level of a capability without a stored decision.
    pub closed spec fn fallback(&self) -> PermissionLevel {
        self.permission_manager.fallback()
    }

    /// The level that holds for the capability `name`.
    pub open spec fn level(&self, name: Seq<char>) -> PermissionLevel {
        crate::permissions::level_of(self.decisions(), self.fallback(), name)
    }

    /// The definitions of the registered capabilities.
    pub closed spec fn definitions(&self) -> Seq<ToolDefinitionView> {
        definitions_view(self.tools@)
    }

    /// The rules by which commands are validated.
    pub closed spec fn rules(&self) -> Rules {
        self.safety_validator.rules()
    }

    /// Whether files that a response mentions are injected.
    pub closed spec fn injects(&self) -> bool {
        self.config.agent.context_injection
    }

    /// The token budget of one injected file.
    pub closed spec fn inject_budget(&self) -> nat {
        self.config.agent.max_inject_tokens as nat
    }

    /// The counter is within the budget and no capability has two stored
    /// decisions. This holds of every agent.
    pub open spec fn wf(&self) -> bool {
        &&& self.state().iteration_count <= self.state().max_iterations
        &&& crate::permissions::distinct_names(self.decisions())
    }

    /// What stays as it is while a run moves the state and the decisions.
    pub open spec fn same_setup(&self, other: &Agent) -> bool {
        &&& self.definitions() == other.definitions()
        &&& self.fallback() == other.fallback()
        &&& self.rules() == other.rules()
        &&& self.injects() == other.injects()
        &&& self.inject_budget() == other.inject_budget()
        &&& self.state().max_iterations == other.state().max_iterations
    }

    /// An agent over the given capabilities, settings, permission
    /// decisions and earlier history, with no pass made.
    pub fn new(
        tools: Vec<ToolDefinition>,
        config: Config,
        permission_manager: PermissionManager,
        conversation_history: Vec<Message>,
    ) -> (agent: Agent)
        ensures
            agent.wf(),
            agent.state() == (RunState {
                max_iterations: config.safety.max_iterations as nat,
                iteration_count: 0,
                history: history_view(conversation_history@),
                tool_calls: Seq::empty(),
            }),
            agent.definitions() == definitions_view(tools@),
            agent.decisions() == permission_manager.decisions(),
            agent.fallback() == permission_manager.fallback(),
            agent.rules() == (Rules {
                denied: texts_view(config.safety.denied_patterns@),
                approval: texts_view(config.safety.approval_patterns@),
            }),
            agent.injects() == config.agent.context_injection,
            agent.inject_budget() == config.agent.max_inject_tokens as nat,
    {
        proof {
            use_type_invariant(&permission_manager);
        }
        let safety_validator = SafetyValidator::new(&config);
        let budget = Budget::new(config.safety.max_iterations);
        let agent = Agent {
            tools,
            config,
            safety_validator,
            permission_manager,
            budget,
            tool_calls: Vec::new(),
            conversation_history,
        };
        assert(texts_view(agent.tool_calls@) =~= Seq::<Seq<char>>::empty());
        agent
    }

    /// The default preamble of the system prompt.
    pub fn default_system_prompt(&self) -> (prompt: String)
        ensures
            prompt@ == crate::prompt::DEFAULT_SYSTEM_PROMPT@,
    {
        crate::prompt::default_system_prompt()
    }

    /// The system prompt for this agent's capabilities.
    pub fn build_system_prompt(
        &self,
        template: &Option<PromptTemplate>,
        context: &AmbientContext,
    ) -> (prompt: String)
        ensures
            prompt@ == system_prompt_text(template_view(*template), context@, self.definitions()),
    {
        crate::prompt::build_system_prompt(template, context, &self.tools)
    }

    /// Tests whether a response says that the task is done.
    pub fn is_complete(&self, content: &str) -> (done: bool)
        ensures
            done == is_complete_text(content@),
    {
        text_ends_with(trim(content), "FINISH") || text_contains(content, "task is complete")
    }

    /// Extracts the one action that a response proposes. A span that is no
    /// JSON, or lacks one of the two members, proposes nothing.
    pub fn parse_tool_call(&self, content: &str) -> (call: Option<ParsedToolCall>)
        ensures
            call_view(call) == parsed_call(content@),
    {
        match find_object_span(content) {
            Some(span) => tool_call_from_members(read_members(span, "tool", "args")),
            None => None,
        }
    }

    /// Starts a run: resets the counter and the list of executed
    /// capabilities, and records the system prompt and the task.
    pub fn start(&mut self, system_prompt: String, task: &str)
        ensures
            final(self).wf(),
            final(self).same_setup(old(self)),
            final(self).decisions() == old(self).decisions(),
            final(self).state() == started(old(self).state(), system_prompt@, task@),
    {
        proof {
            use_type_invariant(&self.permission_manager);
        }
        self.budget.reset();
        proof {
            use_type_invariant(&self.budget);
        }
        self.tool_calls = Vec::new();
        let system = Message::system(system_prompt);
        let user = Message::user(task);
        proof {
            lemma_history_push(self.conversation_history@, system);
            lemma_history_push(self.conversation_history@.push(system), user);
            assert(texts_view(self.tool_calls@) =~= Seq::<Seq<char>>::empty());
        }
        self.conversation_history.push(system);
        self.conversation_history.push(user);
    }

    /// Begins a pass. Within the budget the counter goes up by one; with
    /// the budget used up the run aborts and nothing changes.
    pub fn begin_iteration(&mut self) -> (r: Result<(), AgentError>)
        ensures
            final(self).wf(),
            final(self).same_setup(old(self)),
            final(self).decisions() == old(self).decisions(),
            may_iterate(old(self).state()) ==> (r is Ok && final(self).state() == iterated(
                old(self).state(),
            )),
            !may_iterate(old(self).state()) ==> (r == Err::<(), AgentError>(
                AgentError::MaxIterationsExceeded,
            ) && final(self).state() == old(self).state()),
    {
        let admitted = self.budget.advance();
        proof {
            use_type_invariant(&self.permission_manager);
            use_type_invariant(&self.budget);
        }
        if admitted {
            Ok(())
        } else {
            Err(AgentError::MaxIterationsExceeded)
        }
    }

    /// The result with which the run ends now.
    fn result(&self, success: bool, output: String) -> (r: AgentResult)
        ensures
            r@ == result_in(self.state(), success, output@),
            self.wf(),
    {
        proof {
            use_type_invariant(&self.permission_manager);
        }
        AgentResult {
            success,
            output,
            iterations: self.budget.passes(),
            tool_calls: clone_texts(&self.tool_calls),
        }
    }

    /// Takes one response of the model. A response that completes the task
    /// ends the run with success and the whole response as output. Else
    /// the action that it proposes, if any, is handed out for the
    /// checkpoint. A response that proposes nothing is recorded under the
    /// assistant role.
    pub fn handle_response(&mut self, content: String) -> (step: Step)
        ensures
            final(self).wf(),
            final(self).same_setup(old(self)),
            final(self).decisions() == old(self).decisions(),
            final(self).state() == after_response(old(self).state(), content@),
            is_complete_text(content@) ==> (step matches Step::Finished(r) && r@ == result_in(
                old(self).state(),
                true,
                content@,
            )),
            !is_complete_text(content@) ==> match step {
                Step::Act(call) => parsed_call(content@) == Some(call@),
                Step::Continue => parsed_call(content@) is None,
                Step::Finished(_) => false,
            },
    {
        proof {
            use_type_invariant(&self.permission_manager);
            use_type_invariant(&self.budget);
        }
        if self.is_complete(content.as_str()) {
            return Step::Finished(self.result(true, content));
        }
        match self.parse_tool_call(content.as_str()) {
            Some(call) => Step::Act(call),
            None => {
                let m = Message::assistant(content);
                proof {
                    lemma_history_push(self.conversation_history@, m);
                }
                self.conversation_history.push(m);
                Step::Continue
            },
        }
    }

    /// The permission decisions as they stand.
    pub fn permission_manager(&self) -> (pm: &PermissionManager)
        ensures
            pm.decisions() == self.decisions(),
            pm.fallback() == self.fallback(),
            self.wf() ==> pm.wf(),
    {
        &self.permission_manager
    }

    /// The level that holds for the capability `name` now.
    pub fn check_permission(&self, name: &str) -> (level: PermissionLevel)
        ensures
            level == self.level(name@),
    {
        self.permission_manager.check_permission(name)
    }

    /// Tests whether a capability is registered under exactly `name`.
    pub fn is_registered(&self, name: &str) -> (found: bool)
        ensures
            found == registered(self.definitions(), name@),
    {
        let n: usize = self.tools.len();
        let mut i: usize = 0;
        while i < n
            invariant
                i <= n,
                n == self.tools@.len(),
                forall|j: int|
                    0 <= j < i ==> !defines(#[trigger] definitions_view(self.tools@)[j], name@),
            decreases n - i,
        {
            let hit = match &self.tools[i].name {
                Some(t) => text_equals(t.as_str(), name),
                None => false,
            };
            if hit {
                assert(defines(definitions_view(self.tools@)[i as int], name@));
                return true;
            }
            i = i + 1;
        }
        false
    }

    /// Tests whether the user is to be asked about a proposed action:
    /// its command is not denied and `Ask` holds for its capability.
    pub fn needs_reply(&self, call: &ParsedToolCall) -> (needed: bool)
        ensures
            needed == reply_needed(
                self.level(call@.name),
                verdict_of(self.rules(), command_text(call@)),
            ),
    {
        let command = command_string(call);
        match self.safety_validator.validate_command(command.as_str()) {
            ValidationResult::Denied(_) => false,
            _ => match self.permission_manager.check_permission(call.name.as_str()) {
                PermissionLevel::Ask => true,
                _ => false,
            },
        }
    }

    /// Decides whether a proposed action runs. The command made of the
    /// action's name and arguments is validated first, under every
    /// permission; a denied command is refused and changes nothing. Else
    /// the permission decides. `reply` is the user's answer, asked for
    /// where `Ask` holds for the capability; under another level it is not
    /// looked at.
    ///
    /// The answer is stored as the permission rules say, and a permission
    /// of `Once` is used up. A refusal ends the run with a failing result
    /// that gives the reason; an admitted action whose capability does not
    /// exist aborts the run.
    pub fn authorize(
        &mut self,
        call: &ParsedToolCall,
        reply: Option<PermissionReply>,
    ) -> (r: Result<Admission, AgentError>)
        ensures
            final(self).wf(),
            final(self).same_setup(old(self)),
            final(self).state() == old(self).state(),
            final(self).decisions() == if verdict_of(old(self).rules(), command_text(call@))
                is Denied {
                old(self).decisions()
            } else {
                match (old(self).level(call@.name), reply) {
                    (PermissionLevel::Ask, Some(answer)) => after_reply(
                        old(self).decisions(),
                        call@.name,
                        answer,
                    ),
                    (PermissionLevel::Once, _) => after_use(
                        old(self).decisions(),
                        old(self).fallback(),
                        call@.name,
                    ),
                    _ => old(self).decisions(),
                }
            },
            match admission_verdict(
                old(self).level(call@.name),
                reply,
                verdict_of(old(self).rules(), command_text(call@)),
                registered(old(self).definitions(), call@.name),
            ) {
                Verdict::Execute => r matches Ok(Admission::Execute),
                Verdict::Unknown => (r matches Err(AgentError::ToolNotFound(n)) && n@
                    == call@.name),
                refusal => (r matches Ok(Admission::Refused(res)) && res@ == result_in(
                    old(self).state(),
                    false,
                    refusal_text(refusal, call@.name),
                )),
            },
    {
        proof {
            use_type_invariant(&self.permission_manager);
            use_type_invariant(&self.budget);
        }
        let command = command_string(call);
        match self.safety_validator.validate_command(command.as_str()) {
            ValidationResult::Denied(reason) => {
                let mut output = String::from_str("Blocked by safety validation: ");
                output.append(reason.as_str());
                return Ok(Admission::Refused(self.result(false, output)));
            },
            _ => {},
        }
        let level = self.permission_manager.check_permission(call.name.as_str());
        let allowed = match level {
            PermissionLevel::Never => {
                let mut output = String::from_str("Permission denied for tool: ");
                output.append(call.name.as_str());
                return Ok(Admission::Refused(self.result(false, output)));
            },
            PermissionLevel::Always => true,
            PermissionLevel::Once => {
                self.permission_manager.consume_once(call.name.as_str());
                true
            },
            PermissionLevel::Ask => match reply {
                Some(answer) => self.permission_manager.record_reply(call.name.as_str(), answer),
                None => false,
            },
        };
        if !allowed {
            let output = String::from_str("Permission denied.");
            return Ok(Admission::Refused(self.result(false, output)));
        }
        if self.is_registered(call.name.as_str()) {
            Ok(Admission::Execute)
        } else {
            Err(AgentError::ToolNotFound(call.name.clone()))
        }
    }

    /// Records what an executed capability handed back: its name joins the
    /// list of executed capabilities, and the observation is appended to
    /// the history under the assistant role.
    pub fn observe(&mut self, call: &ParsedToolCall, result: &ToolResult)
        ensures
            final(self).wf(),
            final(self).same_setup(old(self)),
            final(self).decisions() == old(self).decisions(),
            final(self).state() == observed(old(self).state(), call@.name, result_text(result@)),
    {
        proof {
            use_type_invariant(&self.permission_manager);
            use_type_invariant(&self.budget);
        }
        let mut observation = String::from_str("Tool '");
        observation.append(call.name.as_str());
        observation.append("' result: ");
        if result.success {
            observation.append(result.output.as_str());
        } else {
            match &result.error {
                Some(e) => observation.append(e.as_str()),
                None => observation.append(result.output.as_str()),
            }
        }
        let name = call.name.clone();
        let m = Message::assistant(observation);
        proof {
            lemma_texts_push(self.tool_calls@, name);
            lemma_history_push(self.conversation_history@, m);
        }
        self.tool_calls.push(name);
        self.conversation_history.push(m);
    }

    /// Tidies a response for display.
    pub fn format_response(&self, content: &str) -> (out: String)
        ensures
            out@ == formatted(content@),
    {
        let t = trim(content);
        if text_ends_with(t, "FINISH") {
            proof {
                reveal_strlit("FINISH");
            }
            let n: usize = t.unicode_len();
            String::from_str(trim(t.substring_char(0, n - 6)))
        } else {
            String::from_str(t)
        }
    }

    /// What the session shows after a run that ended with `result`: the
    /// last message of the assistant, or the run's output where the
    /// assistant said nothing, tidied, unless that is not for showing.
    pub fn reply_to_show(&self, result: &AgentResult) -> (reply: Option<String>)
        ensures
            option_view(reply) == shown(
                last_assistant_text(self.state().history, result@.output),
            ),
    {
        let mut i: usize = self.conversation_history.len();
        let ghost history = history_view(self.conversation_history@);
        let mut found: Option<usize> = None;
        assert(history.take(i as int) =~= history);
        while i > 0 && found.is_none()
            invariant
                i <= self.conversation_history@.len(),
                history == history_view(self.conversation_history@),
                match found {
                    Some(k) => k < history.len() && history[k as int].role == Role::Assistant
                        && last_assistant_text(history, result@.output)
                        == history[k as int].content,
                    None => last_assistant_text(history, result@.output) == last_assistant_text(
                        history.take(i as int),
                        result@.output,
                    ),
                },
            decreases i, found.is_none() as int,
        {
            proof {
                let prefix = history.take(i as int);
                assert(prefix.last() == history[i - 1]);
                assert(prefix.drop_last() =~= history.take(i - 1));
            }
            if self.conversation_history[i - 1].role == Role::Assistant {
                found = Some(i - 1);
            } else {
                i = i - 1;
            }
        }
        let text = match found {
            Some(k) => self.conversation_history[k].content.as_str(),
            None => result.output.as_str(),
        };
        if text.unicode_len() == 0 || text_equals(text, "FINISH") {
            return None;
        }
        let tidy = self.format_response(text);
        if text_starts_with(trim(tidy.as_str()), "Tool '") {
            None
        } else {
            Some(tidy)
        }
    }

    /// Tests whether the file at `path` is to be read and injected: the
    /// mode is on and the history does not hold the file yet.
    pub fn needs_injection(&self, path: &str) -> (needed: bool)
        ensures
            needed == (self.injects() && !already_injected(self.state().history, path@)),
    {
        if !self.config.agent.context_injection {
            return false;
        }
        let mut tag = String::from_str("File content of ");
        tag.append(path);
        tag.append(":\n```");
        let n: usize = self.conversation_history.len();
        let mut i: usize = 0;
        while i < n
            invariant
                i <= n,
                n == self.conversation_history@.len(),
                tag@ == injection_tag(path@),
                forall|j: int|
                    0 <= j < i ==> !contains(
                        (#[trigger] history_view(self.conversation_history@)[j]).content,
                        tag@,
                    ),
            decreases n - i,
        {
            if text_contains(self.conversation_history[i].content.as_str(), tag.as_str()) {
                assert(contains(
                    history_view(self.conversation_history@)[i as int].content,
                    injection_tag(path@),
                ));
                return false;
            }
            i = i + 1;
        }
        true
    }

    /// Injects the content of the file at `path` as a system message,
    /// tagged with the path and cut to the token budget. With the mode
    /// off, or with the file in the history already, nothing changes.
    /// Returns whether the message was added.
    pub fn inject_file_content(&mut self, path: &str, content: &str) -> (added: bool)
        ensures
            final(self).wf(),
            final(self).same_setup(old(self)),
            final(self).decisions() == old(self).decisions(),
            added == (old(self).injects() && !already_injected(old(self).state().history, path@)),
            added ==> final(self).state() == (RunState {
                history: old(self).state().history.push(
                    injection_message(path@, content@, old(self).inject_budget()),
                ),
                ..old(self).state()
            }),
            !added ==> final(self).state() == old(self).state(),
    {
        proof {
            use_type_invariant(&self.permission_manager);
            use_type_invariant(&self.budget);
        }
        if !self.needs_injection(path) {
            return false;
        }
        let mut text = String::from_str("File content of ");
        text.append(path);
        text.append(":\n```");
        text.append("\n");
        let budget: usize = self.config.agent.max_inject_tokens;
        let len: usize = content.unicode_len();
        if budget <= usize::MAX / 4 && len > budget * 4 {
            let kept = content.substring_char(0, budget * 4);
            assert(kept@ =~= content@.take(4 * budget as int));
            text.append(kept);
            text.append("\n... (content truncated due to length)");
        } else {
            text.append(content);
        }
        text.append("\n```");
        let m = Message::system(text);
        proof {
            lemma_history_push(self.conversation_history@, m);
            assert(m@.content =~= injection_message(path@, content@, budget as nat).content);
        }
        self.conversation_history.push(m);
        true
    }
}

} // verus!
