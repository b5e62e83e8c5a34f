//! The checkpoint in front of every capability: the stored permission, the
//! user's answer where one was asked for, and the verdict of the safety
//! validator on the command.

use crate::config::Config;
use crate::message::{clone_texts, texts_view};
use crate::permissions::{reply_allows, PermissionLevel, PermissionReply};
use crate::text::{contains, text_contains};
use vstd::prelude::*;

verus! {

/// The verdict of the safety validator on one command.
#[derive(Debug)]
pub enum ValidationResult {
    Allowed,
    RequiresApproval,
    Denied(String),
}

/// A verdict as a mathematical value.
pub enum ValidationView {
    Allowed,
    RequiresApproval,
    Denied(Seq<char>),
}

impl View for ValidationResult {
    type V = ValidationView;

    open spec fn view(&self) -> ValidationView {
        match *self {
            ValidationResult::Allowed => ValidationView::Allowed,
            ValidationResult::RequiresApproval => ValidationView::RequiresApproval,
            ValidationResult::Denied(reason) => ValidationView::Denied(reason@),
        }
    }
}

/// The rules of a validator: the texts that deny a command and the texts
/// that mark it for approval.
pub struct Rules {
    pub denied: Seq<Seq<char>>,
    pub approval: Seq<Seq<char>>,
}

/// Whether `command` holds one of `patterns`.
pub open spec fn matches_any(patterns: Seq<Seq<char>>, command: Seq<char>) -> bool {
    exists|i: int| 0 <= i < patterns.len() && contains(command, #[trigger] patterns[i])
}

/// Whether `patterns[i]` is the first of `patterns` that `command` holds.
pub open spec fn first_match(patterns: Seq<Seq<char>>, command: Seq<char>, i: int) -> bool {
    &&& 0 <= i < patterns.len()
    &&& contains(command, patterns[i])
    &&& forall|j: int| 0 <= j < i ==> !contains(command, #[trigger] patterns[j])
}

/// The reason that is given for a command that holds `pattern`.
pub open spec fn denial_reason(pattern: Seq<char>) -> Seq<char> {
    "command contains denied pattern: "@ + pattern
}

/// The verdict on `command` under `rules`: denied where it holds a denied
/// text, with the first such text in the reason; else marked for approval
/// where it holds an approval text; else allowed.
pub open spec fn verdict_of(rules: Rules, command: Seq<char>) -> ValidationView {
    if matches_any(rules.denied, command) {
        ValidationView::Denied(
            denial_reason(rules.denied[choose|i: int| first_match(rules.denied, command, i)]),
        )
    } else if matches_any(rules.approval, command) {
        ValidationView::RequiresApproval
    } else {
        ValidationView::Allowed
    }
}

/// Finds the first of `patterns` that `command` holds.
fn find_match(patterns: &Vec<String>, command: &str) -> (found: Option<usize>)
    ensures
        match found {
            Some(i) => first_match(texts_view(patterns@), command@, i as int) && i
                < patterns@.len(),
            None => !matches_any(texts_view(patterns@), command@),
        },
{
    let n: usize = patterns.len();
    let mut i: usize = 0;
    while i < n
        invariant
            i <= n,
            n == patterns@.len(),
            forall|j: int|
                0 <= j < i ==> !contains(command@, #[trigger] texts_view(patterns@)[j]),
        decreases n - i,
    {
        if text_contains(command, patterns[i].as_str()) {
            assert(texts_view(patterns@)[i as int] == patterns@[i as int]@);
            return Some(i);
        }
        i = i + 1;
    }
    None
}

/// Classifies commands by the texts they hold. It keeps no state: the
/// verdict depends on the rules and the command alone.
#[derive(Debug)]
pub struct SafetyValidator {
    denied: Vec<String>,
    approval: Vec<String>,
}

impl SafetyValidator {
    /// The rules of the validator.
    pub closed spec fn rules(&self) -> Rules {
        Rules { denied: texts_view(self.denied@), approval: texts_view(self.approval@) }
    }

    /// A validator with the rules of the settings.
    pub fn new(config: &Config) -> (validator: SafetyValidator)
        ensures
            validator.rules() == (Rules {
                denied: texts_view(config.safety.denied_patterns@),
                approval: texts_view(config.safety.approval_patterns@),
            }),
    {
        SafetyValidator {
            denied: clone_texts(&config.safety.denied_patterns),
            approval: clone_texts(&config.safety.approval_patterns),
        }
    }

    /// Classifies one command.
    pub fn validate_command(&self, command: &str) -> (verdict: ValidationResult)
        ensures
            verdict@ == verdict_of(self.rules(), command@),
    {
        match find_match(&self.denied, command) {
            Some(i) => {
                proof {
                    let ps = texts_view(self.denied@);
                    let k = choose|k: int| first_match(ps, command@, k);
                    assert(first_match(ps, command@, i as int));
                    assert(k == i);
                    assert(ps[i as int] == self.denied@[i as int]@);
                }
                let mut reason = String::from_str("command contains denied pattern: ");
                reason.append(self.denied[i].as_str());
                ValidationResult::Denied(reason)
            },
            None => match find_match(&self.approval, command) {
                Some(_) => ValidationResult::RequiresApproval,
                None => ValidationResult::Allowed,
            },
        }
    }
}

/// What the checkpoint decides for one proposed action.
pub enum Verdict {
    /// The capability runs.
    Execute,
    /// The capability's standing decision is `Never`.
    Forbidden,
    /// The user was asked and did not allow the invocation, or was to be
    /// asked and gave no answer.
    Declined,
    /// The safety validator denied the command, with this reason.
    Unsafe(Seq<char>),
    /// The action was admitted, but no capability has its name.
    Unknown,
}

/// Whether the permission side of the checkpoint lets the invocation
/// pass: never under `Never`, always under `Always` and `Once`, and under
/// `Ask` only with an answer that allows it.
pub open spec fn permitted(level: PermissionLevel, reply: Option<PermissionReply>) -> bool {
    match level {
        PermissionLevel::Never => false,
        PermissionLevel::Always => true,
        PermissionLevel::Once => true,
        PermissionLevel::Ask => match reply {
            Some(r) => reply_allows(r),
            None => false,
        },
    }
}

/// The decision of the checkpoint. The validator's verdict is looked at
/// first and under every permission: a denied command is refused with the
/// validator's reason. A command that is not denied needs the permission,
/// and only then is the capability looked up.
pub open spec fn admission_verdict(
    level: PermissionLevel,
    reply: Option<PermissionReply>,
    validation: ValidationView,
    registered: bool,
) -> Verdict {
    match validation {
        ValidationView::Denied(reason) => Verdict::Unsafe(reason),
        _ => if level == PermissionLevel::Never {
            Verdict::Forbidden
        } else if !permitted(level, reply) {
            Verdict::Declined
        } else if registered {
            Verdict::Execute
        } else {
            Verdict::Unknown
        },
    }
}

/// Whether the user is to be asked before the checkpoint decides: the
/// command is not denied and `Ask` holds for the capability.
pub open spec fn reply_needed(level: PermissionLevel, validation: ValidationView) -> bool {
    !(validation is Denied) && level == PermissionLevel::Ask
}

/// The output of the run that a refusal ends, for a capability `name`.
pub open spec fn refusal_text(verdict: Verdict, name: Seq<char>) -> Seq<char> {
    match verdict {
        Verdict::Forbidden => "Permission denied for tool: "@ + name,
        Verdict::Declined => "Permission denied."@,
        Verdict::Unsafe(reason) => "Blocked by safety validation: "@ + reason,
        _ => Seq::empty(),
    }
}

/// A capability whose standing decision is `Never` does not run, whatever
/// the user answers, whatever the validator says and whether or not the
/// capability exists.
pub proof fn law_never_blocks(
    reply: Option<PermissionReply>,
    validation: ValidationView,
    registered: bool,
)
    ensures
        !(admission_verdict(PermissionLevel::Never, reply, validation, registered) is Execute),
        !(validation is Denied) ==> admission_verdict(
            PermissionLevel::Never,
            reply,
            validation,
            registered,
        ) == Verdict::Forbidden,
{
}

/// A command that the validator denies does not run under any permission,
/// `Always` included, and the refusal's output ends with the validator's
/// reason, letter for letter.
pub proof fn law_denied_blocks(
    level: PermissionLevel,
    reply: Option<PermissionReply>,
    reason: Seq<char>,
    registered: bool,
    name: Seq<char>,
)
    ensures
        admission_verdict(level, reply, ValidationView::Denied(reason), registered)
            == Verdict::Unsafe(reason),
        crate::text::ends_with(refusal_text(Verdict::Unsafe(reason), name), reason),
        contains(refusal_text(Verdict::Unsafe(reason), name), reason),
{
    let out = refusal_text(Verdict::Unsafe(reason), name);
    let lead = "Blocked by safety validation: "@;
    assert(out.subrange(out.len() - reason.len(), out.len() as int) =~= reason);
    assert(crate::text::occurs_at(out, reason, lead.len() as int));
}

/// The checkpoint lets a capability run only where the validator did not
/// deny the command, the permission lets the invocation pass and the
/// capability exists.
pub proof fn law_execute_needs_all(
    level: PermissionLevel,
    reply: Option<PermissionReply>,
    validation: ValidationView,
    registered: bool,
)
    ensures
        admission_verdict(level, reply, validation, registered) is Execute <==> (!(validation
            is Denied) && permitted(level, reply) && registered),
{
}

} // verus!
