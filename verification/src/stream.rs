//! The decisions of a conversation whose replies arrive in fragments.

use crate::coordinator::{Coordinator, Dispatch, Step};
use crate::history::ChatHistory;
use crate::message::{
    lemma_views_push, views, ChatMessage, MessageView, Role, ToolCall, ToolCallView,
};
use crate::model::{newest_named, CoordinatorView, DispatchView, StepView};
use crate::request::{ChatMessageResponse, ResponseView};
use vstd::prelude::*;
use vstd::string::StringExecFns;

verus! {

/// A conversation in which every reply of the service arrives as a sequence
/// of fragments.
///
/// Made by [`Coordinator::chat_stream`], which uses up the coordinator. The
/// caller passes each fragment through [`ChatStream::on_fragment`] on its way
/// to the consumer and reports the end of a sequence with
/// [`ChatStream::on_end`]. A request is only ever asked for when a sequence
/// has ended and its tool calls have been served: a caller that stops
/// reporting fragments is asked for nothing more.
pub struct ChatStream<C: ChatHistory> {
    coordinator: Coordinator<C>,
    content: String,
    tool_calls: Vec<ToolCall>,
}

/// Mathematical model of a [`ChatStream`]: the coordinator, and the text and
/// tool calls gathered from the fragments of the reply that is arriving.
pub struct StreamView {
    pub coordinator: CoordinatorView,
    pub content: Seq<char>,
    pub tool_calls: Seq<ToolCallView>,
}

impl StreamView {
    /// A stream that has gathered nothing yet.
    pub open spec fn fresh(coordinator: CoordinatorView) -> StreamView {
        StreamView { coordinator, content: Seq::empty(), tool_calls: Seq::empty() }
    }

    /// One more fragment arrived: its text and its tool calls are gathered
    /// behind those of the fragments before it.
    pub open spec fn absorb(self, fragment: ResponseView) -> StreamView {
        StreamView {
            content: self.content + fragment.message.content,
            tool_calls: self.tool_calls + fragment.message.tool_calls,
            ..self
        }
    }

    /// The reply that the gathered fragments make up.
    pub open spec fn assembled(self) -> ResponseView {
        ResponseView {
            model: self.coordinator.model,
            message: MessageView {
                role: Role::Assistant,
                content: self.content,
                tool_calls: self.tool_calls,
            },
            done: true,
        }
    }

    /// The sequence of fragments ended: the coordinator takes the assembled
    /// reply as it takes a whole one, and gathering starts afresh.
    pub open spec fn on_end(self) -> (StreamView, StepView) {
        let (coordinator, step) = self.coordinator.on_response(self.assembled());
        (StreamView::fresh(coordinator), step)
    }

    /// A tool call finished: the coordinator takes its result.
    pub open spec fn on_tool_result(
        self,
        dispatch: DispatchView,
        result: Result<Seq<char>, Seq<char>>,
    ) -> (StreamView, StepView) {
        let (coordinator, step) = self.coordinator.on_tool_result(dispatch, result);
        (StreamView { coordinator, ..self }, step)
    }
}

impl<C: ChatHistory> View for ChatStream<C> {
    type V = StreamView;

    closed spec fn view(&self) -> StreamView {
        StreamView {
            coordinator: self.coordinator@,
            content: self.content@,
            tool_calls: views(self.tool_calls@),
        }
    }
}

impl<C: ChatHistory> Coordinator<C> {
    /// Opens a streamed conversation with the new turns `messages`. The first
    /// round opens as [`Coordinator::chat`] opens it.
    pub fn chat_stream(self, messages: Vec<ChatMessage>) -> (opened: (ChatStream<C>, Step))
        ensures
            opened.0@ == StreamView::fresh(self@.open_round(views(messages@)).0),
            opened.1@ == self@.open_round(views(messages@)).1,
            opened.1@ is Request,
    {
        let mut coordinator = self;
        let step = coordinator.chat(messages);
        let stream = ChatStream { coordinator, content: String::new(), tool_calls: Vec::new() };
        assert(views(stream.tool_calls@) =~= Seq::empty());
        (stream, step)
    }
}

impl<C: ChatHistory> ChatStream<C> {
    /// Takes the next fragment of the reply and hands it back for the
    /// consumer, unchanged and whatever it holds. Its text and its tool calls
    /// are gathered on the way.
    pub fn on_fragment(&mut self, fragment: ChatMessageResponse) -> (forwarded: ChatMessageResponse)
        ensures
            forwarded == fragment,
            final(self)@ == old(self)@.absorb(fragment@),
    {
        self.content.append(fragment.message.content.as_str());
        let ghost gathered = self.tool_calls@;
        let mut i: usize = 0;
        while i < fragment.message.tool_calls.len()
            invariant
                i <= fragment.message.tool_calls.len(),
                self.coordinator == old(self).coordinator,
                self.content@ == old(self).content@ + fragment.message.content@,
                gathered == old(self).tool_calls@,
                views(self.tool_calls@) == views(gathered) + views(
                    fragment.message.tool_calls@.subrange(0, i as int),
                ),
            decreases fragment.message.tool_calls.len() - i,
        {
            let call = fragment.message.tool_calls[i].clone();
            proof {
                let arrived = fragment.message.tool_calls@;
                lemma_views_push(self.tool_calls@, call);
                lemma_views_push(arrived.subrange(0, i as int), arrived[i as int]);
                assert(arrived.subrange(0, i + 1) =~= arrived.subrange(0, i as int).push(
                    arrived[i as int],
                ));
                assert((views(gathered) + views(arrived.subrange(0, i as int))).push(call@)
                    =~= views(gathered) + views(arrived.subrange(0, i as int)).push(call@));
            }
            self.tool_calls.push(call);
            i += 1;
        }
        assert(fragment.message.tool_calls@.subrange(0, i as int)
            =~= fragment.message.tool_calls@);
        fragment
    }

    /// Takes the end of the fragment sequence.
    ///
    /// The fragments make up one reply: an assistant turn with their texts
    /// joined and their tool calls gathered, both in the order of arrival.
    /// The coordinator takes that reply as [`Coordinator::on_response`] takes
    /// a whole one. [`Step::Done`] carries the assembled reply; the consumer
    /// has seen all of it already.
    pub fn on_end(&mut self) -> (step: Step)
        ensures
            (final(self)@, step@) == old(self)@.on_end(),
            old(self)@.tool_calls.len() == 0 ==> step@ == StepView::Done(old(self)@.assembled()),
            step@ matches StepView::Invoke(dispatch) ==> newest_named(
                final(self)@.coordinator.tools,
                dispatch.current().name,
                dispatch.tool,
            ),
    {
        let mut content = String::new();
        let mut tool_calls: Vec<ToolCall> = Vec::new();
        std::mem::swap(&mut content, &mut self.content);
        std::mem::swap(&mut tool_calls, &mut self.tool_calls);
        assert(views(self.tool_calls@) =~= Seq::empty());
        let reply = ChatMessageResponse {
            model: self.coordinator.model().clone(),
            message: ChatMessage { role: Role::Assistant, content, tool_calls },
            done: true,
        };
        self.coordinator.on_response(reply)
    }

    /// Takes the result of the tool call that `dispatch` pointed at, as
    /// [`Coordinator::on_tool_result`] does. After the last call of a reply
    /// the step asks for the one follow-up request.
    pub fn on_tool_result(&mut self, dispatch: Dispatch, result: Result<String, String>) -> (step:
        Step)
        ensures
            dispatch@.in_range(),
            (final(self)@, step@) == old(self)@.on_tool_result(
                dispatch@,
                match result {
                    Ok(content) => Ok(content@),
                    Err(cause) => Err(cause@),
                },
            ),
            step@ matches StepView::Invoke(following) ==> newest_named(
                final(self)@.coordinator.tools,
                following.current().name,
                following.tool,
            ),
    {
        self.coordinator.on_tool_result(dispatch, result)
    }

    /// Takes the failure of the exchange with the service, as
    /// [`Coordinator::on_transport_failure`] does.
    pub fn on_transport_failure(&self, cause: String) -> (step: Step)
        ensures
            step == Step::Failed(crate::error::ChatError::TransportFailure(cause)),
    {
        self.coordinator.on_transport_failure(cause)
    }

    /// The coordinator behind the stream.
    pub fn coordinator(&self) -> (coordinator: &Coordinator<C>)
        ensures
            coordinator@ == self@.coordinator,
    {
        &self.coordinator
    }

    /// Gives up the stream for its coordinator. What was gathered from an
    /// unfinished reply is dropped.
    pub fn into_coordinator(self) -> (coordinator: Coordinator<C>)
        ensures
            coordinator@ == self@.coordinator,
    {
        self.coordinator
    }
}

} // verus!
