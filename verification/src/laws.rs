//! What holds of whole runs, stated over the transitions of the agent.

use crate::agent::{
    after_response,
    already_injected,
    injection_message,
    injection_tag,
    is_complete_text,
    iterated,
    may_iterate,
    observed,
    parsed_call,
    result_in,
    started,
    RunState,
};
use crate::message::MessageView;
use crate::text::{contains, occurs_at};
use vstd::prelude::*;

verus! {

/// One pass that does not end the run: the model's response and, where
/// the response proposed an action that was admitted, what the capability
/// said.
pub struct Pass {
    pub response: Seq<char>,
    pub said: Seq<char>,
}

/// Whether the pass's response leaves the run open.
pub open spec fn open_pass(p: Pass) -> bool {
    !is_complete_text(p.response)
}

/// The state after one open pass: the pass is counted, and either the
/// observation of the executed action or the plain response is recorded.
pub open spec fn after_pass(s: RunState, p: Pass) -> RunState {
    match parsed_call(p.response) {
        Some(call) => observed(iterated(s), call.name, p.said),
        None => after_response(iterated(s), p.response),
    }
}

/// The state after a sequence of open passes.
pub open spec fn after_passes(s: RunState, passes: Seq<Pass>) -> RunState
    decreases passes.len(),
{
    if passes.len() == 0 {
        s
    } else {
        after_pass(after_passes(s, passes.drop_last()), passes.last())
    }
}

/// The names of the capabilities that a sequence of passes executed, in
/// order and with repetitions.
pub open spec fn executed_in(passes: Seq<Pass>) -> Seq<Seq<char>>
    decreases passes.len(),
{
    if passes.len() == 0 {
        Seq::empty()
    } else {
        match parsed_call(passes.last().response) {
            Some(call) => executed_in(passes.drop_last()).push(call.name),
            None => executed_in(passes.drop_last()),
        }
    }
}

/// Whether none of the passes ends the run.
pub open spec fn all_open(passes: Seq<Pass>) -> bool {
    forall|i: int| 0 <= i < passes.len() ==> open_pass(#[trigger] passes[i])
}

/// Every open pass moves the counter by exactly one, adds one message to
/// the history and adds to the executed capabilities exactly the one it
/// ran; the budget stays as it is.
pub proof fn law_pass_accounting(s: RunState, passes: Seq<Pass>)
    requires
        all_open(passes),
    ensures
        after_passes(s, passes).max_iterations == s.max_iterations,
        after_passes(s, passes).iteration_count == s.iteration_count + passes.len(),
        after_passes(s, passes).history.len() == s.history.len() + passes.len(),
        after_passes(s, passes).tool_calls == s.tool_calls + executed_in(passes),
    decreases passes.len(),
{
    if passes.len() == 0 {
        assert(s.tool_calls + executed_in(passes) =~= s.tool_calls);
    } else {
        assert forall|i: int| 0 <= i < passes.drop_last().len() implies open_pass(
            #[trigger] passes.drop_last()[i],
        ) by {
            assert(passes.drop_last()[i] == passes[i]);
        }
        assert(open_pass(passes.last()));
        law_pass_accounting(s, passes.drop_last());
        let before = after_passes(s, passes.drop_last());
        match parsed_call(passes.last().response) {
            Some(call) => {
                assert(before.tool_calls.push(call.name) =~= s.tool_calls + executed_in(passes));
            },
            None => {},
        }
    }
}

/// A run with a budget of `max_iterations` passes whose model never
/// completes the task asks the model exactly that many times: after fewer
/// open passes the next pass may begin, and after `max_iterations` of them
/// the next pass is refused, with the counter at the budget and not
/// beyond it.
pub proof fn law_iteration_budget(
    s: RunState,
    prompt: Seq<char>,
    task: Seq<char>,
    passes: Seq<Pass>,
)
    requires
        passes.len() <= s.max_iterations,
        all_open(passes),
    ensures
        after_passes(started(s, prompt, task), passes).iteration_count == passes.len(),
        after_passes(started(s, prompt, task), passes).iteration_count <= s.max_iterations,
        may_iterate(after_passes(started(s, prompt, task), passes)) <==> passes.len()
            < s.max_iterations,
{
    law_pass_accounting(started(s, prompt, task), passes);
}

/// A response that completes the task after some open passes ends the run
/// with success, with the response as output, with as many iterations as
/// the model was asked, and with exactly the capabilities that the passes
/// executed.
pub proof fn law_completion_accounting(
    s: RunState,
    prompt: Seq<char>,
    task: Seq<char>,
    passes: Seq<Pass>,
    response: Seq<char>,
)
    requires
        passes.len() < s.max_iterations,
        all_open(passes),
        is_complete_text(response),
    ensures
        may_iterate(after_passes(started(s, prompt, task), passes)),
        after_response(iterated(after_passes(started(s, prompt, task), passes)), response)
            == iterated(after_passes(started(s, prompt, task), passes)),
        result_in(iterated(after_passes(started(s, prompt, task), passes)), true, response)
            == (crate::agent::AgentResultView {
            success: true,
            output: response,
            iterations: passes.len() + 1,
            tool_calls: executed_in(passes),
        }),
{
    law_pass_accounting(started(s, prompt, task), passes);
    assert(Seq::<Seq<char>>::empty() + executed_in(passes) =~= executed_in(passes));
}

/// The action that a text proposes depends on the text alone: the same
/// text proposes the same name and the same arguments every time.
pub proof fn law_parse_repeatable(first: Seq<char>, second: Seq<char>)
    requires
        first == second,
    ensures
        parsed_call(first) == parsed_call(second),
{
}

/// A history to which the file at `path` was injected holds that file.
pub proof fn law_injected_is_found(
    history: Seq<MessageView>,
    path: Seq<char>,
    content: Seq<char>,
    budget: nat,
)
    ensures
        already_injected(history.push(injection_message(path, content, budget)), path),
{
    let m = injection_message(path, content, budget);
    let after = history.push(m);
    let tag = injection_tag(path);
    assert(m.content.subrange(0, tag.len() as int) =~= tag);
    assert(occurs_at(m.content, tag, 0));
    assert(contains(after[history.len() as int].content, tag));
}

/// A history that holds the file at `path` holds it after any messages
/// were appended, so a path that was injected once is not injected again
/// however often later responses mention it.
pub proof fn law_injection_lasts(
    history: Seq<MessageView>,
    more: Seq<MessageView>,
    path: Seq<char>,
)
    requires
        already_injected(history, path),
    ensures
        already_injected(history + more, path),
{
    let i = choose|i: int|
        0 <= i < history.len() && contains((#[trigger] history[i]).content, injection_tag(path));
    assert((history + more)[i] == history[i]);
}

} // verus!
