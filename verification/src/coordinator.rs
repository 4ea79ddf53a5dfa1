//! The coordinator: configuration, conversation history and the decisions of
//! a buffered conversation.

use crate::error::ChatError;
use crate::history::{newest_is_tool_result, record, ChatHistory};
use crate::message::{lemma_views_push, tool_message, views, ChatMessage, ToolCall};
use crate::model::{
    lemma_newest_is_unique, newest_named, newest_slot, CoordinatorView, DispatchView, StepView,
};
use crate::request::{
    view_of, ChatMessageRequest, ChatMessageResponse, FormatType, KeepAlive, ModelOptions,
    ToolInfo,
};
use vstd::prelude::*;

verus! {

/// Drives a conversation with a text-generation service that may ask for
/// registered tools to be run.
///
/// The coordinator performs no input or output. A conversation is a loop
/// around it: [`Coordinator::chat`] opens a round and yields the request to
/// send; the caller reports the reply with [`Coordinator::on_response`], runs
/// each tool that is asked for and reports its result with
/// [`Coordinator::on_tool_result`], until a [`Step::Done`] or a
/// [`Step::Failed`] ends the conversation.
///
/// The service decides how many rounds a conversation takes; the coordinator
/// does not bound them.
pub struct Coordinator<C: ChatHistory> {
    model: String,
    options: ModelOptions,
    history: C,
    tool_infos: Vec<ToolInfo>,
    debug: bool,
    format: Option<FormatType>,
    keep_alive: Option<KeepAlive>,
}

/// The tool calls of one reply, with the position of the call that is to be
/// run now and the place of its tool among the registered ones. Handed out by
/// [`Step::Invoke`] and handed back together with the call's result.
#[derive(Debug)]
pub struct Dispatch {
    calls: Vec<ToolCall>,
    next: usize,
    tool: usize,
}

/// What the caller has to do next.
#[derive(Debug)]
pub enum Step {
    /// Send the request to the service; report the reply with
    /// [`Coordinator::on_response`].
    Request(ChatMessageRequest),
    /// Run the tool at [`Dispatch::tool`] on the arguments of
    /// [`Dispatch::call`]; report its result with
    /// [`Coordinator::on_tool_result`].
    Invoke(Dispatch),
    /// The conversation is over; this is the final reply.
    Done(ChatMessageResponse),
    /// The round was abandoned.
    Failed(ChatError),
}

impl<C: ChatHistory> View for Coordinator<C> {
    type V = CoordinatorView;

    closed spec fn view(&self) -> CoordinatorView {
        CoordinatorView {
            model: self.model@,
            options: self.options@,
            history: self.history.log(),
            tools: views(self.tool_infos@),
            debug: self.debug,
            format: view_of(self.format),
            keep_alive: self.keep_alive,
        }
    }
}

impl View for Dispatch {
    type V = DispatchView;

    closed spec fn view(&self) -> DispatchView {
        DispatchView { calls: views(self.calls@), next: self.next as int, tool: self.tool as int }
    }
}

impl View for Step {
    type V = StepView;

    open spec fn view(&self) -> StepView {
        match self {
            Step::Request(request) => StepView::Request(request@),
            Step::Invoke(dispatch) => StepView::Invoke(dispatch@),
            Step::Done(response) => StepView::Done(response@),
            Step::Failed(error) => StepView::Failed(error@),
        }
    }
}

impl Dispatch {
    #[verifier::type_invariant]
    spec fn well_formed(self) -> bool {
        self.next < self.calls.len()
    }

    /// The call that is to be run now.
    pub fn call(&self) -> (call: &ToolCall)
        ensures
            self@.in_range(),
            call@ == self@.current(),
    {
        proof {
            use_type_invariant(self);
        }
        &self.calls[self.next]
    }

    /// The place of the tool to run among the registered tools, counted from
    /// zero in the order of registration.
    pub fn tool(&self) -> (slot: usize)
        ensures
            slot == self@.tool,
    {
        self.tool
    }

    /// The position of the current call among the calls of its reply.
    pub fn position(&self) -> (position: usize)
        ensures
            position == self@.next,
            self@.in_range(),
    {
        proof {
            use_type_invariant(self);
        }
        self.next
    }

    /// How many calls the reply holds.
    pub fn len(&self) -> (len: usize)
        ensures
            len == self@.calls.len(),
            self@.in_range(),
    {
        proof {
            use_type_invariant(self);
        }
        self.calls.len()
    }
}

impl<C: ChatHistory> Coordinator<C> {
    /// A coordinator for `model` that continues `history`, with no tools, the
    /// service's default settings, no output-format constraint and no
    /// keep-alive duration.
    pub fn new(model: String, history: C) -> (coordinator: Self)
        ensures
            coordinator@ == (CoordinatorView {
                model: model@,
                options: Seq::empty(),
                history: history.log(),
                tools: Seq::empty(),
                debug: false,
                format: None,
                keep_alive: None,
            }),
    {
        let coordinator = Coordinator {
            model,
            options: ModelOptions::default(),
            history,
            tool_infos: Vec::new(),
            debug: false,
            format: None,
            keep_alive: None,
        };
        assert(views(coordinator.tool_infos@) =~= Seq::empty());
        coordinator
    }

    /// Registers a tool by its descriptor. The descriptor goes onto every
    /// request from now on, and calls that name the tool are served.
    pub fn add_tool(self, tool: ToolInfo) -> (coordinator: Self)
        ensures
            coordinator@ == (CoordinatorView { tools: self@.tools.push(tool@), ..self@ }),
    {
        let mut coordinator = self;
        proof {
            lemma_views_push(coordinator.tool_infos@, tool);
        }
        coordinator.tool_infos.push(tool);
        coordinator
    }

    /// Sets the output-format constraint.
    pub fn format(self, format: FormatType) -> (coordinator: Self)
        ensures
            coordinator@ == (CoordinatorView { format: Some(format@), ..self@ }),
    {
        let mut coordinator = self;
        coordinator.format = Some(format);
        coordinator
    }

    /// Replaces the generation settings.
    pub fn options(self, options: ModelOptions) -> (coordinator: Self)
        ensures
            coordinator@ == (CoordinatorView { options: options@, ..self@ }),
    {
        let mut coordinator = self;
        coordinator.options = options;
        coordinator
    }

    /// Switches the debug flag, which asks the caller to trace the
    /// conversation. The coordinator's decisions do not depend on it.
    pub fn debug(self, debug: bool) -> (coordinator: Self)
        ensures
            coordinator@ == (CoordinatorView { debug, ..self@ }),
    {
        let mut coordinator = self;
        coordinator.debug = debug;
        coordinator
    }

    /// Sets the keep-alive duration.
    pub fn keep_alive(self, keep_alive: KeepAlive) -> (coordinator: Self)
        ensures
            coordinator@ == (CoordinatorView { keep_alive: Some(keep_alive), ..self@ }),
    {
        let mut coordinator = self;
        coordinator.keep_alive = Some(keep_alive);
        coordinator
    }

    /// The model the requests are addressed to.
    pub fn model(&self) -> (model: &String)
        ensures
            model@ == self@.model,
    {
        &self.model
    }

    /// The conversation so far.
    pub fn history(&self) -> (history: &C)
        ensures
            history.log() == self@.history,
    {
        &self.history
    }

    /// Gives up the coordinator for its history.
    pub fn into_history(self) -> (history: C)
        ensures
            history.log() == self@.history,
    {
        self.history
    }

    /// The descriptors of the registered tools, in the order of registration.
    pub fn tool_infos(&self) -> (infos: &Vec<ToolInfo>)
        ensures
            views(infos@) == self@.tools,
    {
        &self.tool_infos
    }

    /// Whether the caller is asked to trace the conversation.
    pub fn debug_enabled(&self) -> (debug: bool)
        ensures
            debug == self@.debug,
    {
        self.debug
    }

    /// Looks a tool up by name: the place of the tool that was registered
    /// last under `name`, or nothing if none was.
    pub fn find_tool(&self, name: &String) -> (slot: Option<usize>)
        ensures
            slot is Some <==> self@.registered(name@),
            slot matches Some(place) ==> place == newest_slot(self@.tools, name@) && newest_named(
                self@.tools,
                name@,
                place as int,
            ),
    {
        let mut i: usize = self.tool_infos.len();
        while i > 0
            invariant
                i <= self.tool_infos.len(),
                forall|k: int|
                    i <= k < self.tool_infos.len() ==> (#[trigger] self@.tools[k]).name != name@,
            decreases i,
        {
            i -= 1;
            if self.tool_infos[i].name == *name {
                proof {
                    assert(newest_named(self@.tools, name@, i as int));
                    lemma_newest_is_unique(
                        self@.tools,
                        name@,
                        i as int,
                        newest_slot(self@.tools, name@),
                    );
                }
                return Some(i);
            }
        }
        None
    }

    /// Tells whether a tool called `name` is registered.
    pub fn is_registered(&self, name: &String) -> (found: bool)
        ensures
            found == self@.registered(name@),
    {
        self.find_tool(name).is_some()
    }

    /// Builds the request that carries `messages`.
    ///
    /// The settings and all tool descriptors are always attached, the
    /// keep-alive duration if one is configured. The output-format constraint
    /// is attached only if one is configured and either no tool is registered
    /// or the newest turn of the history reports a tool's result: a service
    /// that is held to a format from the start would never ask for a tool.
    /// The turns in `messages` play no part in that decision.
    pub fn generate_request(&self, messages: Vec<ChatMessage>) -> (request: ChatMessageRequest)
        ensures
            request@ == self@.request_for(views(messages@)),
            request@.messages == views(messages@),
            request@.options == Some(self@.options),
            request@.tools == self@.tools,
            request@.keep_alive == self@.keep_alive,
            self@.tools.len() == 0 ==> request@.format == self@.format,
            self@.tools.len() > 0 ==> request@.format == (if self@.history.len() > 0
                && self@.history.last().role == crate::message::Role::Tool {
                self@.format
            } else {
                None
            }),
    {
        let tools = self.tool_infos.clone();
        assert(views(tools@) =~= views(self.tool_infos@));
        let mut request = ChatMessageRequest::new(self.model.clone(), messages).options(
            self.options.clone(),
        ).tools(tools);

        if let Some(keep_alive) = self.keep_alive {
            request = request.keep_alive(keep_alive);
        }
        if let Some(format) = &self.format {
            if self.tool_infos.len() == 0 {
                request = request.format(format.clone());
            } else if newest_is_tool_result(&self.history) {
                request = request.format(format.clone());
            }
        }
        request
    }

    /// Opens a round with the new turns `messages`.
    ///
    /// The request is shaped by [`Coordinator::generate_request`] on the
    /// history as it stands; then the new turns are recorded, and the request
    /// that is handed out carries the whole conversation, oldest turn first.
    pub fn chat(&mut self, messages: Vec<ChatMessage>) -> (step: Step)
        ensures
            (final(self)@, step@) == old(self)@.open_round(views(messages@)),
            final(self)@.history == old(self)@.history + views(messages@),
            step@ matches StepView::Request(request) && request.messages == final(self)@.history,
    {
        let shaped = self.generate_request(messages);
        let ChatMessageRequest { model_name, messages, tools, options, format, keep_alive } =
            shaped;
        record(&mut self.history, &messages);
        let conversation = self.history.messages();
        Step::Request(
            ChatMessageRequest {
                model_name,
                messages: conversation,
                tools,
                options,
                format,
                keep_alive,
            },
        )
    }

    /// Serves the call at `next`: its tool is to be run if it is registered,
    /// and the round fails otherwise.
    fn serve(&self, calls: Vec<ToolCall>, next: usize) -> (step: Step)
        requires
            next < calls.len(),
        ensures
            step@ == self@.serve(views(calls@), next as int),
            step@ matches StepView::Invoke(dispatch) ==> newest_named(
                self@.tools,
                dispatch.current().name,
                dispatch.tool,
            ),
    {
        match self.find_tool(&calls[next].function.name) {
            Some(tool) => Step::Invoke(Dispatch { calls, next, tool }),
            None => Step::Failed(ChatError::UnknownToolName),
        }
    }

    /// Takes the service's reply to the request of this round.
    ///
    /// The assistant's turn is recorded, once. A reply without tool calls ends
    /// the conversation and is handed back as it came. Otherwise the calls are
    /// served one at a time in the order of the reply, starting with the
    /// first: if its tool is registered it is to be run, if not the round
    /// fails with [`ChatError::UnknownToolName`].
    pub fn on_response(&mut self, response: ChatMessageResponse) -> (step: Step)
        ensures
            (final(self)@, step@) == old(self)@.on_response(response@),
            final(self)@ == old(self)@.with_history(
                old(self)@.history.push(response@.message),
            ),
            response@.message.tool_calls.len() == 0 ==> step == Step::Done(response),
            response@.message.tool_calls.len() > 0 ==> (if old(self)@.registered(
                response@.message.tool_calls[0].name,
            ) {
                step@ == StepView::Invoke(
                    DispatchView {
                        calls: response@.message.tool_calls,
                        next: 0,
                        tool: newest_slot(old(self)@.tools, response@.message.tool_calls[0].name),
                    },
                )
            } else {
                step@ == StepView::Failed(crate::error::ChatErrorView::UnknownToolName)
            }),
            step@ matches StepView::Invoke(dispatch) ==> newest_named(
                final(self)@.tools,
                dispatch.current().name,
                dispatch.tool,
            ),
    {
        self.history.push(response.message.clone());
        if response.message.tool_calls.len() == 0 {
            Step::Done(response)
        } else {
            let ChatMessageResponse { model: _, message, done: _ } = response;
            self.serve(message.tool_calls, 0)
        }
    }

    /// Takes the result of the tool call that `dispatch` pointed at.
    ///
    /// A failure abandons the round with
    /// [`ChatError::ToolInvocationFailure`], which keeps the cause; no tool
    /// turn is recorded for the call. A result is recorded as a tool turn.
    /// Then the next call of the reply is served as the first one was; after
    /// the last call a new round opens with no new turns, as
    /// [`Coordinator::chat`] does.
    pub fn on_tool_result(&mut self, dispatch: Dispatch, result: Result<String, String>) -> (step:
        Step)
        ensures
            dispatch@.in_range(),
            (final(self)@, step@) == old(self)@.on_tool_result(
                dispatch@,
                match result {
                    Ok(content) => Ok(content@),
                    Err(cause) => Err(cause@),
                },
            ),
            result matches Err(cause) ==> final(self)@ == old(self)@ && step
                == Step::Failed(ChatError::ToolInvocationFailure(cause)),
            result matches Ok(content) ==> final(self)@ == old(self)@.with_history(
                old(self)@.history.push(tool_message(content@)),
            ),
            step@ matches StepView::Invoke(following) ==> following.calls == dispatch@.calls
                && following.next == dispatch@.next + 1 && newest_named(
                final(self)@.tools,
                following.current().name,
                following.tool,
            ),
    {
        proof {
            use_type_invariant(&dispatch);
        }
        match result {
            Err(cause) => Step::Failed(ChatError::ToolInvocationFailure(cause)),
            Ok(content) => {
                self.history.push(ChatMessage::tool(content));
                let Dispatch { calls, next, tool: _ } = dispatch;
                if next + 1 < calls.len() {
                    self.serve(calls, next + 1)
                } else {
                    let step = self.chat(Vec::new());
                    proof {
                        assert(views(Seq::<ChatMessage>::empty()) =~= Seq::empty());
                        assert(self@.history + Seq::empty() =~= self@.history);
                    }
                    step
                }
            },
        }
    }

    /// Takes the failure of the exchange with the service: the round is
    /// abandoned with [`ChatError::TransportFailure`], which keeps the cause.
    /// The history keeps what was recorded so far.
    pub fn on_transport_failure(&self, cause: String) -> (step: Step)
        ensures
            step == Step::Failed(ChatError::TransportFailure(cause)),
            (self@, step@) == self@.on_transport_failure(cause@),
    {
        Step::Failed(ChatError::TransportFailure(cause))
    }
}

} // verus!
