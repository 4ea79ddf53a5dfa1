//! What holds of whole conversations, proved from the single steps.

use crate::error::ChatErrorView;
use crate::message::{tool_message, MessageView, Role, ToolCallView};
use crate::model::{
    lemma_named_has_newest, lemma_newest_is_unique, names_tool, newest_named, newest_slot,
    CoordinatorView, DispatchView, StepView,
};
use crate::request::{RequestView, ResponseView, ToolInfoView};
use crate::stream::StreamView;
use vstd::prelude::*;

verus! {

/// The outcome of running a tool: its textual result, or the cause of its
/// failure.
pub type Outcome = Result<Seq<char>, Seq<char>>;

/// Where a conversation stands after the tool calls that are asked for, one
/// after the other, were answered by `outcomes` in turn. Answering stops
/// where the step asks for something else than a tool.
pub open spec fn answer_calls(state: CoordinatorView, step: StepView, outcomes: Seq<Outcome>) -> (
    CoordinatorView,
    StepView,
)
    decreases outcomes.len(),
{
    if outcomes.len() == 0 {
        (state, step)
    } else {
        match step {
            StepView::Invoke(dispatch) => {
                let (next, then) = state.on_tool_result(dispatch, outcomes[0]);
                answer_calls(next, then, outcomes.drop_first())
            },
            _ => (state, step),
        }
    }
}

/// The tool calls that were run on the way of [`answer_calls`], in the order
/// in which they were run.
pub open spec fn calls_run(state: CoordinatorView, step: StepView, outcomes: Seq<Outcome>) -> Seq<
    ToolCallView,
>
    decreases outcomes.len(),
{
    if outcomes.len() == 0 {
        Seq::empty()
    } else {
        match step {
            StepView::Invoke(dispatch) => {
                let (next, then) = state.on_tool_result(dispatch, outcomes[0]);
                seq![dispatch.current()] + calls_run(next, then, outcomes.drop_first())
            },
            _ => Seq::empty(),
        }
    }
}

/// The tool turns that report `results`, in the same order.
pub open spec fn tool_turns(results: Seq<Seq<char>>) -> Seq<MessageView> {
    Seq::new(results.len(), |i: int| tool_message(results[i]))
}

/// `results`, each as the outcome of a tool that succeeded.
pub open spec fn successes(results: Seq<Seq<char>>) -> Seq<Outcome> {
    Seq::new(results.len(), |i: int| Ok(results[i]))
}

/// Tool calls are run in the order of the reply that asked for them: whatever
/// the tools answer, the calls that are run are consecutive calls of the
/// reply, beginning with the one that was served first.
pub proof fn law_calls_run_in_reply_order(
    state: CoordinatorView,
    dispatch: DispatchView,
    outcomes: Seq<Outcome>,
)
    requires
        dispatch.in_range(),
    ensures
        ({
            let run = calls_run(state, StepView::Invoke(dispatch), outcomes);
            &&& dispatch.next + run.len() <= dispatch.calls.len()
            &&& run == dispatch.calls.subrange(dispatch.next, dispatch.next + run.len())
        }),
    decreases outcomes.len(),
{
    let run = calls_run(state, StepView::Invoke(dispatch), outcomes);
    if outcomes.len() == 0 {
        assert(run =~= dispatch.calls.subrange(dispatch.next, dispatch.next + run.len()));
    } else {
        let (next, then) = state.on_tool_result(dispatch, outcomes[0]);
        let rest = calls_run(next, then, outcomes.drop_first());
        match then {
            StepView::Invoke(following) => {
                assert(following.calls == dispatch.calls && following.next == dispatch.next + 1);
                law_calls_run_in_reply_order(next, following, outcomes.drop_first());
            },
            _ => {
                assert(rest =~= Seq::<ToolCallView>::empty());
            },
        }
        assert(run =~= dispatch.calls.subrange(dispatch.next, dispatch.next + run.len()));
    }
}

/// While the tools that are asked for are registered and succeed, every
/// result is recorded as one tool turn, in the order of the calls, and
/// nothing else is recorded. Then the call after them is served; after the
/// last call of the reply a new round opens with no new turns.
pub proof fn law_results_recorded_in_order(
    state: CoordinatorView,
    dispatch: DispatchView,
    results: Seq<Seq<char>>,
)
    requires
        dispatch.in_range(),
        results.len() > 0,
        dispatch.next + results.len() <= dispatch.calls.len(),
        forall|j: int|
            dispatch.next < j < dispatch.next + results.len() ==> state.registered(
                (#[trigger] dispatch.calls[j]).name,
            ),
    ensures
        ({
            let (end, step) = answer_calls(state, StepView::Invoke(dispatch), successes(results));
            let stop = dispatch.next + results.len();
            &&& end == state.with_history(state.history + tool_turns(results))
            &&& calls_run(state, StepView::Invoke(dispatch), successes(results))
                == dispatch.calls.subrange(dispatch.next, stop)
            &&& stop < dispatch.calls.len() ==> step == end.serve(dispatch.calls, stop)
            &&& stop == dispatch.calls.len() ==> step == StepView::Request(
                end.request_for(end.history),
            )
        }),
    decreases results.len(),
{
    let outcomes = successes(results);
    let stop = dispatch.next + results.len();
    let recorded = state.with_history(state.history.push(tool_message(results[0])));
    assert(recorded.history + Seq::<MessageView>::empty() =~= recorded.history);
    let (next, then) = state.on_tool_result(dispatch, outcomes[0]);
    assert(next == recorded);
    let later = results.drop_first();
    assert(outcomes.drop_first() =~= successes(later));
    if later.len() == 0 {
        assert(answer_calls(next, then, outcomes.drop_first()) == (next, then));
        assert(state.history + tool_turns(results) =~= recorded.history);
        assert(calls_run(next, then, outcomes.drop_first()) =~= Seq::<ToolCallView>::empty());
    } else {
        let following = DispatchView {
            calls: dispatch.calls,
            next: dispatch.next + 1,
            tool: newest_slot(state.tools, dispatch.calls[dispatch.next + 1].name),
        };
        assert(state.registered(dispatch.calls[dispatch.next + 1].name));
        assert(then == StepView::Invoke(following));
        law_results_recorded_in_order(next, following, later);
        assert(next.history + tool_turns(later) =~= state.history + tool_turns(results));
    }
    assert(calls_run(state, StepView::Invoke(dispatch), outcomes) =~= dispatch.calls.subrange(
        dispatch.next,
        stop,
    ));
}

/// A round in which every tool call succeeds ends in a request that carries
/// the output-format constraint whenever one is configured: by then the
/// newest turn reports a tool's result.
pub proof fn law_follow_up_carries_format(
    state: CoordinatorView,
    dispatch: DispatchView,
    results: Seq<Seq<char>>,
)
    requires
        dispatch.in_range(),
        dispatch.next + results.len() == dispatch.calls.len(),
        forall|j: int|
            dispatch.next < j < dispatch.calls.len() ==> state.registered(
                (#[trigger] dispatch.calls[j]).name,
            ),
    ensures
        answer_calls(state, StepView::Invoke(dispatch), successes(results)).1 matches StepView::Request(
            request,
        ) && request.format == state.format && request.messages == state.history + tool_turns(
            results,
        ),
{
    law_results_recorded_in_order(state, dispatch, results);
    let end = state.with_history(state.history + tool_turns(results));
    assert(end.history.last() == tool_message(results.last()));
}

/// A reply whose first tool call names a tool that is not registered fails
/// the round with the unknown-tool error; the history is what it was before,
/// with the reply's assistant turn added and nothing else.
pub proof fn law_unknown_tool_fails_round(state: CoordinatorView, response: ResponseView)
    requires
        response.message.tool_calls.len() > 0,
        !state.registered(response.message.tool_calls[0].name),
    ensures
        state.on_response(response) == (
            state.with_history(state.history.push(response.message)),
            StepView::Failed(ChatErrorView::UnknownToolName),
        ),
{
}

/// A tool that fails ends the round with the tool-invocation error, which
/// keeps the cause, and leaves the state as it was: no tool turn is recorded
/// for the failed call.
pub proof fn law_tool_failure_records_nothing(
    state: CoordinatorView,
    dispatch: DispatchView,
    cause: Seq<char>,
)
    ensures
        state.on_tool_result(dispatch, Err(cause)) == (
            state,
            StepView::Failed(ChatErrorView::ToolInvocationFailure(cause)),
        ),
{
}

/// A reply without tool calls ends the conversation: it is handed back as it
/// came, and no tool is asked for whatever outcomes are on offer.
pub proof fn law_plain_reply_ends_conversation(
    state: CoordinatorView,
    response: ResponseView,
    outcomes: Seq<Outcome>,
)
    requires
        response.message.tool_calls.len() == 0,
    ensures
        state.on_response(response).1 == StepView::Done(response),
        answer_calls(state.on_response(response).0, state.on_response(response).1, outcomes).1
            == StepView::Done(response),
        calls_run(state.on_response(response).0, state.on_response(response).1, outcomes).len()
            == 0,
{
}

/// One round as the outside world plays it: what the service answers to the
/// round's request, and what the tools answer, in turn, to the calls that are
/// run.
pub struct Exchange {
    pub reply: Result<ResponseView, Seq<char>>,
    pub outcomes: Seq<Outcome>,
}

/// Where a conversation stands after the rounds in `script` were played, one
/// for each request that is asked for. Playing stops where the step asks for
/// something else than a request.
pub open spec fn converse(state: CoordinatorView, step: StepView, script: Seq<Exchange>) -> (
    CoordinatorView,
    StepView,
)
    decreases script.len(),
{
    if script.len() == 0 {
        (state, step)
    } else {
        match step {
            StepView::Request(_) => {
                let (heard, asked) = match script[0].reply {
                    Ok(response) => state.on_response(response),
                    Err(cause) => state.on_transport_failure(cause),
                };
                let (next, then) = answer_calls(heard, asked, script[0].outcomes);
                converse(next, then, script.drop_first())
            },
            _ => (state, step),
        }
    }
}

/// A round in which the service asks for tools and every tool succeeds: the
/// reply, and the results of its calls in order.
pub struct ToolRound {
    pub reply: ResponseView,
    pub results: Seq<Seq<char>>,
}

impl ToolRound {
    /// Whether the reply asks for tools, all of them named in `tools`, and
    /// there is one result for each call.
    pub open spec fn served_by(self, tools: Seq<ToolInfoView>) -> bool {
        &&& self.reply.message.tool_calls.len() > 0
        &&& self.results.len() == self.reply.message.tool_calls.len()
        &&& forall|j: int|
            0 <= j < self.reply.message.tool_calls.len() ==> names_tool(
                tools,
                (#[trigger] self.reply.message.tool_calls[j]).name,
            )
    }

    /// The turns that the round adds to the history: the assistant's turn,
    /// then one tool turn for each result.
    pub open spec fn turns(self) -> Seq<MessageView> {
        seq![self.reply.message] + tool_turns(self.results)
    }
}

/// The turns that `rounds` add to the history, round after round.
pub open spec fn turns_of(rounds: Seq<ToolRound>) -> Seq<MessageView>
    decreases rounds.len(),
{
    if rounds.len() == 0 {
        Seq::empty()
    } else {
        rounds[0].turns() + turns_of(rounds.drop_first())
    }
}

/// The script in which the service first goes through `rounds` and then
/// gives `last` as its reply.
pub open spec fn script_of(rounds: Seq<ToolRound>, last: ResponseView) -> Seq<Exchange> {
    Seq::new(
        rounds.len() + 1,
        |i: int|
            if i < rounds.len() {
                Exchange { reply: Ok(rounds[i].reply), outcomes: successes(rounds[i].results) }
            } else {
                Exchange { reply: Ok(last), outcomes: Seq::empty() }
            },
    )
}

/// A conversation ends with the first reply that asks for no tool, and hands
/// that reply back as it came. However many rounds of tools come before it,
/// as long as their tools are registered and succeed, the history grows by
/// the turns of those rounds in order, and then by the final assistant turn.
pub proof fn law_conversation_ends_with_plain_reply(
    state: CoordinatorView,
    request: RequestView,
    rounds: Seq<ToolRound>,
    last: ResponseView,
)
    requires
        last.message.tool_calls.len() == 0,
        forall|i: int| 0 <= i < rounds.len() ==> (#[trigger] rounds[i]).served_by(state.tools),
    ensures
        converse(state, StepView::Request(request), script_of(rounds, last)) == (
            state.with_history(state.history + turns_of(rounds) + seq![last.message]),
            StepView::Done(last),
        ),
    decreases rounds.len(),
{
    let script = script_of(rounds, last);
    let rest = script.drop_first();
    if rounds.len() == 0 {
        let (heard, asked) = state.on_response(last);
        assert(answer_calls(heard, asked, script[0].outcomes) == (heard, asked));
        assert(converse(heard, asked, rest) == (heard, asked));
        assert(state.history + turns_of(rounds) + seq![last.message] =~= state.history.push(
            last.message,
        ));
    } else {
        let round = rounds[0];
        let calls = round.reply.message.tool_calls;
        assert(round.served_by(state.tools));
        let (heard, asked) = state.on_response(round.reply);
        assert(names_tool(state.tools, calls[0].name));
        let dispatch = DispatchView {
            calls,
            next: 0,
            tool: newest_slot(state.tools, calls[0].name),
        };
        assert(asked == StepView::Invoke(dispatch));
        assert forall|j: int| 0 < j < calls.len() implies heard.registered(
            (#[trigger] calls[j]).name,
        ) by {}
        law_results_recorded_in_order(heard, dispatch, round.results);
        let (next, then) = answer_calls(heard, asked, successes(round.results));
        assert(next == heard.with_history(heard.history + tool_turns(round.results)));
        let later = rounds.drop_first();
        assert(rest =~= script_of(later, last));
        assert forall|i: int| 0 <= i < later.len() implies (#[trigger] later[i]).served_by(
            next.tools,
        ) by {
            assert(later[i] == rounds[i + 1]);
        }
        law_conversation_ends_with_plain_reply(next, next.request_for(next.history), later, last);
        assert(next.history + turns_of(later) + seq![last.message] =~= state.history + turns_of(
            rounds,
        ) + seq![last.message]);
    }
}

/// Registering a tool makes it the one that is run for its name, whether or
/// not the name was taken, and leaves the tools of all other names in place.
pub proof fn law_newest_registration_wins(
    tools: Seq<ToolInfoView>,
    added: ToolInfoView,
    name: Seq<char>,
)
    ensures
        names_tool(tools.push(added), added.name),
        newest_slot(tools.push(added), added.name) == tools.len(),
        name != added.name ==> names_tool(tools.push(added), name) == names_tool(tools, name),
        name != added.name && names_tool(tools, name) ==> newest_slot(tools.push(added), name)
            == newest_slot(tools, name),
{
    let grown = tools.push(added);
    let last = tools.len() as int;
    assert(grown[last].name == added.name);
    assert(newest_named(grown, added.name, last));
    lemma_named_has_newest(grown, added.name);
    lemma_newest_is_unique(grown, added.name, last, newest_slot(grown, added.name));
    if name != added.name {
        if names_tool(tools, name) {
            let i = choose|i: int| 0 <= i < tools.len() && (#[trigger] tools[i]).name == name;
            assert(grown[i].name == name);
            lemma_named_has_newest(tools, name);
            let slot = newest_slot(tools, name);
            assert forall|j: int| slot < j < grown.len() implies (#[trigger] grown[j]).name
                != name by {
                if j < last {
                    assert(tools[j].name != name);
                }
            }
            assert(grown[slot].name == name);
            assert(newest_named(grown, name, slot));
            lemma_named_has_newest(grown, name);
            lemma_newest_is_unique(grown, name, slot, newest_slot(grown, name));
        }
        if names_tool(grown, name) {
            let i = choose|i: int| 0 <= i < grown.len() && (#[trigger] grown[i]).name == name;
            assert(tools[i].name == name);
        }
    }
}

/// The texts of `fragments`, joined in order.
pub open spec fn joined_content(fragments: Seq<ResponseView>) -> Seq<char>
    decreases fragments.len(),
{
    if fragments.len() == 0 {
        Seq::empty()
    } else {
        joined_content(fragments.drop_last()) + fragments.last().message.content
    }
}

/// The tool calls of `fragments`, gathered in order.
pub open spec fn joined_tool_calls(fragments: Seq<ResponseView>) -> Seq<ToolCallView>
    decreases fragments.len(),
{
    if fragments.len() == 0 {
        Seq::empty()
    } else {
        joined_tool_calls(fragments.drop_last()) + fragments.last().message.tool_calls
    }
}

/// The stream after `fragments` arrived, one after the other.
pub open spec fn gather(stream: StreamView, fragments: Seq<ResponseView>) -> StreamView
    decreases fragments.len(),
{
    if fragments.len() == 0 {
        stream
    } else {
        gather(stream, fragments.drop_last()).absorb(fragments.last())
    }
}

/// The whole reply that `fragments` stand for, as `coordinator` assembles it.
pub open spec fn whole_reply(coordinator: CoordinatorView, fragments: Seq<ResponseView>) -> ResponseView {
    ResponseView {
        model: coordinator.model,
        message: MessageView {
            role: Role::Assistant,
            content: joined_content(fragments),
            tool_calls: joined_tool_calls(fragments),
        },
        done: true,
    }
}

/// While fragments arrive the coordinator stays as it is, so no request is
/// asked for, and what is gathered is the fragments' texts and tool calls
/// joined in the order of arrival.
pub proof fn law_fragments_are_gathered(stream: StreamView, fragments: Seq<ResponseView>)
    ensures
        gather(stream, fragments).coordinator == stream.coordinator,
        gather(stream, fragments).content == stream.content + joined_content(fragments),
        gather(stream, fragments).tool_calls == stream.tool_calls + joined_tool_calls(fragments),
    decreases fragments.len(),
{
    if fragments.len() == 0 {
        assert(stream.content + joined_content(fragments) =~= stream.content);
        assert(stream.tool_calls + joined_tool_calls(fragments) =~= stream.tool_calls);
    } else {
        law_fragments_are_gathered(stream, fragments.drop_last());
        let before = gather(stream, fragments.drop_last());
        assert(before.content + fragments.last().message.content =~= stream.content
            + joined_content(fragments));
        assert(before.tool_calls + fragments.last().message.tool_calls =~= stream.tool_calls
            + joined_tool_calls(fragments));
    }
}

/// A reply that arrives in fragments is taken as the same reply arriving
/// whole: its text is the fragments' texts joined, and at the end of the
/// sequence the coordinator decides as it does on the whole reply.
pub proof fn law_stream_agrees_with_whole_reply(
    coordinator: CoordinatorView,
    fragments: Seq<ResponseView>,
)
    ensures
        gather(StreamView::fresh(coordinator), fragments).assembled() == whole_reply(
            coordinator,
            fragments,
        ),
        gather(StreamView::fresh(coordinator), fragments).on_end() == (
            StreamView::fresh(coordinator.on_response(whole_reply(coordinator, fragments)).0),
            coordinator.on_response(whole_reply(coordinator, fragments)).1,
        ),
{
    law_fragments_are_gathered(StreamView::fresh(coordinator), fragments);
    assert(Seq::<char>::empty() + joined_content(fragments) =~= joined_content(fragments));
    assert(Seq::<ToolCallView>::empty() + joined_tool_calls(fragments) =~= joined_tool_calls(
        fragments,
    ));
}

} // verus!
