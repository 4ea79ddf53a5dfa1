//! The coordinator as a mathematical state machine.
//!
//! A state is a [`CoordinatorView`]; the transitions below say, for each
//! thing that can happen during a conversation, what the state becomes and
//! what has to be done next. The executable coordinator is proved to follow
//! them step by step.

use crate::error::ChatErrorView;
use crate::history::ends_with_tool_result;
use crate::message::{tool_message, MessageView, ToolCallView};
use crate::request::{FormatView, KeepAlive, RequestView, ResponseView, ToolInfoView};
use vstd::prelude::*;

verus! {

/// Configuration and conversation of a coordinator.
pub struct CoordinatorView {
    pub model: Seq<char>,
    pub options: Seq<char>,
    pub history: Seq<MessageView>,
    pub tools: Seq<ToolInfoView>,
    pub debug: bool,
    pub format: Option<FormatView>,
    pub keep_alive: Option<KeepAlive>,
}

/// The tool calls of one reply, the position of the call that is being
/// served, and the place of its tool among the registered ones.
pub struct DispatchView {
    pub calls: Seq<ToolCallView>,
    pub next: int,
    pub tool: int,
}

/// What has to happen next.
pub enum StepView {
    /// Send this request to the service and report its reply.
    Request(RequestView),
    /// Run the call at `next` and report its result.
    Invoke(DispatchView),
    /// The conversation has its final reply.
    Done(ResponseView),
    /// The round was abandoned.
    Failed(ChatErrorView),
}

/// Whether one of the descriptors in `tools` carries the name `name`.
pub open spec fn names_tool(tools: Seq<ToolInfoView>, name: Seq<char>) -> bool {
    exists|i: int| 0 <= i < tools.len() && (#[trigger] tools[i]).name == name
}

/// Whether `slot` is the place of the newest descriptor in `tools` that
/// carries the name `name`.
pub open spec fn newest_named(tools: Seq<ToolInfoView>, name: Seq<char>, slot: int) -> bool {
    &&& 0 <= slot < tools.len()
    &&& tools[slot].name == name
    &&& forall|j: int| slot < j < tools.len() ==> (#[trigger] tools[j]).name != name
}

/// The place of the newest descriptor in `tools` that carries the name
/// `name`, where there is one. A tool that is registered under a name that is
/// taken stands in for the older one.
pub open spec fn newest_slot(tools: Seq<ToolInfoView>, name: Seq<char>) -> int {
    choose|slot: int| newest_named(tools, name, slot)
}

/// No two places are the newest for one name.
pub proof fn lemma_newest_is_unique(tools: Seq<ToolInfoView>, name: Seq<char>, a: int, b: int)
    requires
        newest_named(tools, name, a),
        newest_named(tools, name, b),
    ensures
        a == b,
{
    if a < b {
        assert(tools[b].name != name);
    } else if b < a {
        assert(tools[a].name != name);
    }
}

/// A name that some descriptor carries has a newest place.
pub proof fn lemma_named_has_newest(tools: Seq<ToolInfoView>, name: Seq<char>)
    requires
        names_tool(tools, name),
    ensures
        newest_named(tools, name, newest_slot(tools, name)),
    decreases tools.len(),
{
    let last = tools.len() - 1;
    if tools[last].name == name {
        assert(newest_named(tools, name, last));
    } else {
        let shorter = tools.drop_last();
        let i = choose|i: int| 0 <= i < tools.len() && (#[trigger] tools[i]).name == name;
        assert(shorter[i].name == name);
        lemma_named_has_newest(shorter, name);
        let slot = newest_slot(shorter, name);
        assert forall|j: int| slot < j < tools.len() implies (#[trigger] tools[j]).name
            != name by {
            if j < last {
                assert(shorter[j].name != name);
            }
        }
        assert(newest_named(tools, name, slot));
    }
}

impl DispatchView {
    /// The call that is being served.
    pub open spec fn current(self) -> ToolCallView {
        self.calls[self.next]
    }

    /// Whether `next` points at one of the calls.
    pub open spec fn in_range(self) -> bool {
        0 <= self.next < self.calls.len()
    }
}

impl CoordinatorView {
    /// Whether a tool called `name` is registered.
    pub open spec fn registered(self, name: Seq<char>) -> bool {
        names_tool(self.tools, name)
    }

    /// Whether the output-format constraint goes onto the next request: always
    /// when no tool is registered; otherwise only when the newest turn of the
    /// history reports a tool's result.
    pub open spec fn format_applies(self) -> bool {
        self.tools.len() == 0 || ends_with_tool_result(self.history)
    }

    /// The request that carries `messages` in the current state.
    pub open spec fn request_for(self, messages: Seq<MessageView>) -> RequestView {
        RequestView {
            model_name: self.model,
            messages,
            tools: self.tools,
            options: Some(self.options),
            format: if self.format_applies() {
                self.format
            } else {
                None
            },
            keep_alive: self.keep_alive,
        }
    }

    /// The same coordinator with another history.
    pub open spec fn with_history(self, history: Seq<MessageView>) -> CoordinatorView {
        CoordinatorView { history, ..self }
    }

    /// A round begins with the new turns `messages`: the request is shaped on
    /// the history as it stands, the new turns are recorded, and the request
    /// carries the whole conversation.
    pub open spec fn open_round(self, messages: Seq<MessageView>) -> (CoordinatorView, StepView) {
        let shaped = self.request_for(messages);
        let next = self.with_history(self.history + messages);
        (next, StepView::Request(RequestView { messages: next.history, ..shaped }))
    }

    /// Serving the call at `next`: if its name is registered, the tool that
    /// was registered last under that name is to be run; if not, the round
    /// fails.
    pub open spec fn serve(self, calls: Seq<ToolCallView>, next: int) -> StepView {
        if self.registered(calls[next].name) {
            StepView::Invoke(
                DispatchView { calls, next, tool: newest_slot(self.tools, calls[next].name) },
            )
        } else {
            StepView::Failed(ChatErrorView::UnknownToolName)
        }
    }

    /// The service replied: the assistant's turn is recorded; without tool
    /// calls the reply is final, otherwise its first call is served.
    pub open spec fn on_response(self, response: ResponseView) -> (CoordinatorView, StepView) {
        let next = self.with_history(self.history.push(response.message));
        if response.message.tool_calls.len() == 0 {
            (next, StepView::Done(response))
        } else {
            (next, next.serve(response.message.tool_calls, 0))
        }
    }

    /// The call at `dispatch.next` finished. A failure abandons the round and
    /// records nothing. A result is recorded as a tool turn; then the next
    /// call is served, or, after the last one, a new round begins with no new
    /// turns.
    pub open spec fn on_tool_result(
        self,
        dispatch: DispatchView,
        result: Result<Seq<char>, Seq<char>>,
    ) -> (CoordinatorView, StepView) {
        match result {
            Err(cause) => (self, StepView::Failed(ChatErrorView::ToolInvocationFailure(cause))),
            Ok(content) => {
                let next = self.with_history(self.history.push(tool_message(content)));
                if dispatch.next + 1 < dispatch.calls.len() {
                    (next, next.serve(dispatch.calls, dispatch.next + 1))
                } else {
                    next.open_round(Seq::empty())
                }
            },
        }
    }

    /// The exchange with the service failed: the round is abandoned and the
    /// state stays as it is.
    pub open spec fn on_transport_failure(self, cause: Seq<char>) -> (CoordinatorView, StepView) {
        (self, StepView::Failed(ChatErrorView::TransportFailure(cause)))
    }
}

} // verus!
