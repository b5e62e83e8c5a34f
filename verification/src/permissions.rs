//! Stored permission decisions, one per capability name.

use crate::config::Config;
use crate::text::{lowercase, text_equals, to_lowercase, trim, trimmed};
use vstd::prelude::*;

verus! {

/// The standing decision on one capability.
#[derive(Clone, Copy, Debug, PartialEq, Eq, Structural)]
pub enum PermissionLevel {
    /// Never run it.
    Never,
    /// Run it without asking.
    Always,
    /// Run the next invocation, then ask again.
    Once,
    /// Ask before each invocation.
    Ask,
}

/// What the user answered when asked about one invocation.
#[derive(Clone, Copy, Debug, PartialEq, Eq, Structural)]
pub enum PermissionReply {
    /// Allow this and every later invocation.
    Always,
    /// Allow this invocation only.
    Once,
    /// Refuse this and every later invocation.
    Never,
    /// Refuse this invocation only.
    Decline,
}

impl PermissionLevel {
    /// The name of the level as it is shown to the user.
    pub fn label(&self) -> (name: &'static str)
        ensures
            name@ == level_label(*self),
    {
        match self {
            PermissionLevel::Never => "Never",
            PermissionLevel::Always => "Always",
            PermissionLevel::Once => "Once",
            PermissionLevel::Ask => "Ask",
        }
    }
}

/// The reply that a lower-case answer names; an answer that names none
/// declines.
pub open spec fn reply_named(word: Seq<char>) -> PermissionReply {
    if word == "a"@ || word == "always"@ {
        PermissionReply::Always
    } else if word == "y"@ || word == "yes"@ || word == "once"@ {
        PermissionReply::Once
    } else if word == "v"@ || word == "never"@ {
        PermissionReply::Never
    } else {
        PermissionReply::Decline
    }
}

/// Finds the reply that a lower-case answer names.
pub fn reply_for_word(word: &str) -> (reply: PermissionReply)
    ensures
        reply == reply_named(word@),
{
    if text_equals(word, "a") || text_equals(word, "always") {
        PermissionReply::Always
    } else if text_equals(word, "y") || text_equals(word, "yes") || text_equals(word, "once") {
        PermissionReply::Once
    } else if text_equals(word, "v") || text_equals(word, "never") {
        PermissionReply::Never
    } else {
        PermissionReply::Decline
    }
}

impl PermissionReply {
    /// Reads the line that the user typed when asked: it is trimmed and
    /// matched without regard to case.
    pub fn from_answer(answer: &str) -> (reply: PermissionReply)
        ensures
            reply == reply_named(lowercase(trimmed(answer@))),
    {
        let lower = to_lowercase(trim(answer));
        reply_for_word(lower.as_str())
    }
}

/// The displayed name of a level.
pub open spec fn level_label(level: PermissionLevel) -> Seq<char> {
    match level {
        PermissionLevel::Never => "Never"@,
        PermissionLevel::Always => "Always"@,
        PermissionLevel::Once => "Once"@,
        PermissionLevel::Ask => "Ask"@,
    }
}

/// A stored decision.
#[derive(Debug)]
pub struct PermissionEntry {
    pub tool: String,
    pub level: PermissionLevel,
}

/// The stored decisions as a list of pairs of name and level.
pub type Decisions = Seq<(Seq<char>, PermissionLevel)>;

/// A list of stored decisions as pairs of name and level.
pub open spec fn entries_view(entries: Seq<PermissionEntry>) -> Decisions {
    Seq::new(entries.len(), |i: int| (entries[i].tool@, entries[i].level))
}

/// Whether no name has two decisions.
pub open spec fn distinct_names(ds: Decisions) -> bool {
    forall|i: int, j: int| 0 <= i < j < ds.len() ==> (#[trigger] ds[i]).0 != (#[trigger] ds[j]).0
}

/// Whether `ds` holds a decision on `name`.
pub open spec fn has_decision(ds: Decisions, name: Seq<char>) -> bool {
    exists|i: int| 0 <= i < ds.len() && (#[trigger] ds[i]).0 == name
}

/// The place of the decision on `name`, where there is one.
pub open spec fn decision_index(ds: Decisions, name: Seq<char>) -> int {
    choose|i: int| 0 <= i < ds.len() && (#[trigger] ds[i]).0 == name
}

/// The level that holds for `name`: its stored decision, or `fallback`.
pub open spec fn level_of(ds: Decisions, fallback: PermissionLevel, name: Seq<char>)
    -> PermissionLevel {
    if has_decision(ds, name) {
        ds[decision_index(ds, name)].1
    } else {
        fallback
    }
}

/// The decisions after `name` was given `level`: its entry is replaced in
/// place, or a new entry is added at the end.
pub open spec fn with_level(ds: Decisions, name: Seq<char>, level: PermissionLevel) -> Decisions {
    if has_decision(ds, name) {
        ds.update(decision_index(ds, name), (name, level))
    } else {
        ds.push((name, level))
    }
}

/// The decisions after each of `defaults` was given in turn: a name that
/// comes twice keeps its place and takes its last level.
pub open spec fn with_levels(ds: Decisions, defaults: Decisions) -> Decisions
    decreases defaults.len(),
{
    if defaults.len() == 0 {
        ds
    } else {
        with_level(with_levels(ds, defaults.drop_last()), defaults.last().0, defaults.last().1)
    }
}

/// The decisions after the user answered `reply` to a question about
/// `name`: a standing answer is stored, a one-time answer changes nothing.
pub open spec fn after_reply(ds: Decisions, name: Seq<char>, reply: PermissionReply) -> Decisions {
    match reply {
        PermissionReply::Always => with_level(ds, name, PermissionLevel::Always),
        PermissionReply::Never => with_level(ds, name, PermissionLevel::Never),
        PermissionReply::Once => ds,
        PermissionReply::Decline => ds,
    }
}

/// Whether a reply allows the invocation it was asked about.
pub open spec fn reply_allows(reply: PermissionReply) -> bool {
    reply == PermissionReply::Always || reply == PermissionReply::Once
}

/// The decisions after an invocation of `name` used up a permission:
/// `Once` falls back to `Ask`, every other level stays.
pub open spec fn after_use(ds: Decisions, fallback: PermissionLevel, name: Seq<char>) -> Decisions {
    if level_of(ds, fallback, name) == PermissionLevel::Once {
        with_level(ds, name, PermissionLevel::Ask)
    } else {
        ds
    }
}

/// Giving a name a level keeps names distinct, makes that level hold for
/// the name, and leaves every other name's level as it was.
pub proof fn lemma_with_level(
    ds: Decisions,
    fallback: PermissionLevel,
    name: Seq<char>,
    level: PermissionLevel,
    other: Seq<char>,
)
    requires
        distinct_names(ds),
    ensures
        distinct_names(with_level(ds, name, level)),
        level_of(with_level(ds, name, level), fallback, name) == level,
        other != name ==> level_of(with_level(ds, name, level), fallback, other) == level_of(
            ds,
            fallback,
            other,
        ),
{
    let after = with_level(ds, name, level);
    if has_decision(ds, name) {
        let k = decision_index(ds, name);
        assert(after[k].0 == name);
        assert forall|i: int, j: int| 0 <= i < j < after.len() implies (#[trigger] after[i]).0 != (
        #[trigger] after[j]).0 by {
            assert(after[i].0 == ds[i].0 && after[j].0 == ds[j].0);
        }
        assert(has_decision(after, name));
        let k2 = decision_index(after, name);
        assert(k2 == k) by {
            if k2 < k {
                assert(after[k2].0 != after[k].0);
            } else if k < k2 {
                assert(after[k].0 != after[k2].0);
            }
        }
        if other != name {
            if has_decision(ds, other) {
                let m = decision_index(ds, other);
                assert(after[m].0 == other);
                assert(has_decision(after, other));
                let m2 = decision_index(after, other);
                assert(m2 == m) by {
                    if m2 < m {
                        assert(after[m2].0 != after[m].0);
                    } else if m < m2 {
                        assert(after[m].0 != after[m2].0);
                    }
                }
            } else {
                if has_decision(after, other) {
                    let m2 = decision_index(after, other);
                    assert(ds[m2].0 == other);
                }
            }
        }
    } else {
        let k = ds.len() as int;
        assert(after[k].0 == name);
        assert forall|i: int, j: int| 0 <= i < j < after.len() implies (#[trigger] after[i]).0 != (
        #[trigger] after[j]).0 by {
            if j == k {
                assert(after[i] == ds[i]);
            } else {
                assert(after[i] == ds[i] && after[j] == ds[j]);
            }
        }
        assert(has_decision(after, name));
        let k2 = decision_index(after, name);
        assert(k2 == k) by {
            if k2 < k {
                assert(after[k2] == ds[k2]);
            }
        }
        if other != name {
            if has_decision(ds, other) {
                let m = decision_index(ds, other);
                assert(after[m] == ds[m]);
                assert(has_decision(after, other));
                let m2 = decision_index(after, other);
                assert(m2 == m) by {
                    if m2 < m {
                        assert(after[m2].0 != after[m].0);
                    } else if m < m2 {
                        assert(after[m].0 != after[m2].0);
                    }
                }
            } else {
                if has_decision(after, other) {
                    let m2 = decision_index(after, other);
                    assert(m2 < k);
                    assert(after[m2] == ds[m2]);
                }
            }
        }
    }
}

/// The answer to a question moves the state as the answer says: `Always`
/// and `Never` hold from then on, and a one-time answer, allowing or not,
/// leaves every level as it was. No answer touches another capability.
pub proof fn law_reply_moves_state(
    ds: Decisions,
    fallback: PermissionLevel,
    name: Seq<char>,
    reply: PermissionReply,
    other: Seq<char>,
)
    requires
        distinct_names(ds),
    ensures
        distinct_names(after_reply(ds, name, reply)),
        level_of(after_reply(ds, name, reply), fallback, name) == match reply {
            PermissionReply::Always => PermissionLevel::Always,
            PermissionReply::Never => PermissionLevel::Never,
            _ => level_of(ds, fallback, name),
        },
        other != name ==> level_of(after_reply(ds, name, reply), fallback, other) == level_of(
            ds,
            fallback,
            other,
        ),
{
    lemma_with_level(ds, fallback, name, PermissionLevel::Always, other);
    lemma_with_level(ds, fallback, name, PermissionLevel::Never, other);
}

/// A permission of `Once` allows exactly one invocation: after its use
/// `Ask` holds. The use of any other level changes nothing, and no use
/// touches another capability.
pub proof fn law_once_reverts(
    ds: Decisions,
    fallback: PermissionLevel,
    name: Seq<char>,
    other: Seq<char>,
)
    requires
        distinct_names(ds),
    ensures
        distinct_names(after_use(ds, fallback, name)),
        level_of(after_use(ds, fallback, name), fallback, name) == if level_of(ds, fallback, name)
            == PermissionLevel::Once {
            PermissionLevel::Ask
        } else {
            level_of(ds, fallback, name)
        },
        other != name ==> level_of(after_use(ds, fallback, name), fallback, other) == level_of(
            ds,
            fallback,
            other,
        ),
{
    lemma_with_level(ds, fallback, name, PermissionLevel::Ask, other);
}

/// The permission decisions of one session.
#[derive(Debug)]
pub struct PermissionManager {
    entries: Vec<PermissionEntry>,
    fallback: PermissionLevel,
}

impl Clone for PermissionManager {
    fn clone(&self) -> (out: PermissionManager)
        ensures
            out.wf(),
            out.decisions() == self.decisions(),
            out.fallback() == self.fallback(),
    {
        proof {
            use_type_invariant(self);
        }
        let mut entries: Vec<PermissionEntry> = Vec::new();
        let n: usize = self.entries.len();
        let mut i: usize = 0;
        while i < n
            invariant
                i <= n,
                n == self.entries@.len(),
                entries@.len() == i,
                forall|j: int|
                    0 <= j < i ==> (#[trigger] entries@[j]).tool@ == self.entries@[j].tool@
                        && entries@[j].level == self.entries@[j].level,
            decreases n - i,
        {
            let tool = self.entries[i].tool.clone();
            entries.push(PermissionEntry { tool, level: self.entries[i].level });
            i = i + 1;
        }
        assert(entries_view(entries@) =~= self.decisions());
        PermissionManager { entries, fallback: self.fallback }
    }
}

impl PermissionManager {
    /// The stored decisions, in the order in which their names first came.
    pub closed spec fn decisions(&self) -> Decisions {
        entries_view(self.entries@)
    }

    /// The level of a capability that has no stored decision.
    pub closed spec fn fallback(&self) -> PermissionLevel {
        self.fallback
    }

    /// No name has two stored decisions. This holds of every manager.
    #[verifier::type_invariant]
    pub open spec fn wf(&self) -> bool {
        distinct_names(self.decisions())
    }

    /// The level that holds for `name`.
    pub open spec fn level(&self, name: Seq<char>) -> PermissionLevel {
        level_of(self.decisions(), self.fallback(), name)
    }

    /// A manager without stored decisions. Where approval is required a
    /// capability without a decision is asked about; where it is not, it runs.
    pub fn new(require_approval: bool) -> (pm: PermissionManager)
        ensures
            pm.wf(),
            pm.decisions() == Seq::<(Seq<char>, PermissionLevel)>::empty(),
            pm.fallback() == if require_approval {
                PermissionLevel::Ask
            } else {
                PermissionLevel::Always
            },
    {
        let fallback = if require_approval {
            PermissionLevel::Ask
        } else {
            PermissionLevel::Always
        };
        let pm = PermissionManager { entries: Vec::new(), fallback };
        assert(pm.decisions() =~= Seq::<(Seq<char>, PermissionLevel)>::empty());
        pm
    }

    /// The manager that a session starts with: the level of a capability
    /// without a decision follows the approval setting, and the default
    /// levels of the settings are stored in their order.
    pub fn from_config(config: &Config) -> (pm: PermissionManager)
        ensures
            pm.wf(),
            pm.fallback() == if config.safety.require_approval {
                PermissionLevel::Ask
            } else {
                PermissionLevel::Always
            },
            pm.decisions() == with_levels(
                Seq::empty(),
                entries_view(config.safety.default_permissions@),
            ),
    {
        let mut pm = PermissionManager::new(config.safety.require_approval);
        let defaults = &config.safety.default_permissions;
        let n: usize = defaults.len();
        let mut i: usize = 0;
        let ghost all = entries_view(defaults@);
        while i < n
            invariant
                i <= n,
                n == defaults@.len(),
                all == entries_view(defaults@),
                pm.wf(),
                pm.fallback() == if config.safety.require_approval {
                    PermissionLevel::Ask
                } else {
                    PermissionLevel::Always
                },
                pm.decisions() == with_levels(Seq::empty(), all.take(i as int)),
            decreases n - i,
        {
            proof {
                let next = all.take(i + 1);
                assert(next.drop_last() =~= all.take(i as int));
                assert(next.last() == (defaults@[i as int].tool@, defaults@[i as int].level));
            }
            pm.set_permission(defaults[i].tool.as_str(), defaults[i].level);
            i = i + 1;
        }
        assert(all.take(n as int) =~= all);
        pm
    }

    /// Where the decision on `name` is stored.
    fn find(&self, name: &str) -> (r: Option<usize>)
        ensures
            match r {
                Some(i) => has_decision(self.decisions(), name@) && decision_index(
                    self.decisions(),
                    name@,
                ) == i && i < self.entries@.len(),
                None => !has_decision(self.decisions(), name@),
            },
    {
        proof {
            use_type_invariant(self);
        }
        let n: usize = self.entries.len();
        let mut i: usize = 0;
        while i < n
            invariant
                i <= n,
                n == self.entries@.len(),
                self.wf(),
                forall|j: int| 0 <= j < i ==> (#[trigger] self.decisions()[j]).0 != name@,
            decreases n - i,
        {
            if text_equals(self.entries[i].tool.as_str(), name) {
                proof {
                    let ds = self.decisions();
                    assert(ds[i as int].0 == name@);
                    let k = decision_index(ds, name@);
                    if k < i {
                        assert(ds[k].0 != ds[i as int].0);
                    } else if i < k {
                        assert(ds[i as int].0 != ds[k].0);
                    }
                }
                return Some(i);
            }
            i = i + 1;
        }
        None
    }

    /// The level that holds for `name` now.
    pub fn check_permission(&self, name: &str) -> (level: PermissionLevel)
        ensures
            level == self.level(name@),
    {
        match self.find(name) {
            Some(i) => self.entries[i].level,
            None => self.fallback,
        }
    }

    /// Stores `level` as the decision on `name`.
    pub fn set_permission(&mut self, name: &str, level: PermissionLevel)
        ensures
            final(self).wf(),
            final(self).fallback() == old(self).fallback(),
            final(self).decisions() == with_level(old(self).decisions(), name@, level),
            final(self).level(name@) == level,
    {
        proof {
            use_type_invariant(&*self);
            lemma_with_level(self.decisions(), self.fallback(), name@, level, name@);
        }
        let found = self.find(name);
        let mut entries: Vec<PermissionEntry> = Vec::new();
        assert(entries_view(entries@) =~= Seq::<(Seq<char>, PermissionLevel)>::empty());
        core::mem::swap(&mut self.entries, &mut entries);
        match found {
            Some(i) => {
                entries.set(i, PermissionEntry { tool: String::from_str(name), level });
            },
            None => {
                entries.push(PermissionEntry { tool: String::from_str(name), level });
            },
        }
        assert(entries_view(entries@) =~= with_level(old(self).decisions(), name@, level));
        core::mem::swap(&mut self.entries, &mut entries);
    }

    /// Takes the user's answer to a question about `name`: a standing
    /// answer is stored, a one-time answer is not. Returns whether the
    /// invocation asked about may go on.
    pub fn record_reply(&mut self, name: &str, reply: PermissionReply) -> (allowed: bool)
        ensures
            final(self).wf(),
            final(self).fallback() == old(self).fallback(),
            final(self).decisions() == after_reply(old(self).decisions(), name@, reply),
            allowed == reply_allows(reply),
    {
        proof {
            use_type_invariant(&*self);
        }
        match reply {
            PermissionReply::Always => {
                self.set_permission(name, PermissionLevel::Always);
                true
            },
            PermissionReply::Never => {
                self.set_permission(name, PermissionLevel::Never);
                false
            },
            PermissionReply::Once => true,
            PermissionReply::Decline => false,
        }
    }

    /// Uses up a one-time permission: where `Once` holds for `name`, `Ask`
    /// holds from now on.
    pub fn consume_once(&mut self, name: &str)
        ensures
            final(self).wf(),
            final(self).fallback() == old(self).fallback(),
            final(self).decisions() == after_use(
                old(self).decisions(),
                old(self).fallback(),
                name@,
            ),
    {
        proof {
            use_type_invariant(&*self);
        }
        if self.check_permission(name) == PermissionLevel::Once {
            self.set_permission(name, PermissionLevel::Ask);
        }
    }

    /// The stored decisions, in order.
    pub fn get_all_permissions(&self) -> (all: &Vec<PermissionEntry>)
        ensures
            self.wf(),
            all@.len() == self.decisions().len(),
            forall|i: int|
                0 <= i < all@.len() ==> (#[trigger] all@[i].tool@, all@[i].level)
                    == self.decisions()[i],
    {
        proof {
            use_type_invariant(self);
        }
        &self.entries
    }
}

} // verus!
