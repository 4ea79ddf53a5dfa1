//! What is sent to the text-generation service and what comes back.

use crate::message::{views, ChatMessage, MessageView};
use vstd::prelude::*;

verus! {

/// Generation settings, in the encoding the service expects. The coordinator
/// never looks inside; it attaches them to every request as they are.
#[derive(Debug, PartialEq, Eq)]
pub struct ModelOptions {
    pub settings: String,
}

/// A constraint on the shape of the service's output.
#[derive(Debug, PartialEq, Eq)]
pub enum FormatType {
    /// Any well-formed JSON value.
    Json,
    /// JSON that follows the given schema, kept as text.
    StructuredJson(String),
}

/// Unit of a keep-alive duration.
#[derive(Clone, Copy, Debug, PartialEq, Eq, Structural)]
pub enum TimeUnit {
    Seconds,
    Minutes,
    Hours,
}

/// How long the service should keep the model loaded after a request.
#[derive(Clone, Copy, Debug, PartialEq, Eq, Structural)]
pub enum KeepAlive {
    Indefinitely,
    UnloadOnCompletion,
    Until { time: u64, unit: TimeUnit },
}

/// Describes a registered tool to the service: its name, what it does, and
/// the schema of its parameters (kept as text).
#[derive(Debug, PartialEq, Eq)]
pub struct ToolInfo {
    pub name: String,
    pub description: String,
    pub parameters: String,
}

/// One outbound request.
#[derive(Debug, PartialEq, Eq)]
pub struct ChatMessageRequest {
    pub model_name: String,
    pub messages: Vec<ChatMessage>,
    pub tools: Vec<ToolInfo>,
    pub options: Option<ModelOptions>,
    pub format: Option<FormatType>,
    pub keep_alive: Option<KeepAlive>,
}

/// A reply of the service: a whole one, or one fragment of a reply that
/// arrives in pieces.
#[derive(Debug, PartialEq, Eq)]
pub struct ChatMessageResponse {
    pub model: String,
    pub message: ChatMessage,
    pub done: bool,
}

/// Mathematical model of a [`FormatType`].
pub enum FormatView {
    Json,
    StructuredJson(Seq<char>),
}

/// Mathematical model of a [`ToolInfo`].
pub struct ToolInfoView {
    pub name: Seq<char>,
    pub description: Seq<char>,
    pub parameters: Seq<char>,
}

/// Mathematical model of a [`ChatMessageRequest`].
pub struct RequestView {
    pub model_name: Seq<char>,
    pub messages: Seq<MessageView>,
    pub tools: Seq<ToolInfoView>,
    pub options: Option<Seq<char>>,
    pub format: Option<FormatView>,
    pub keep_alive: Option<KeepAlive>,
}

/// Mathematical model of a [`ChatMessageResponse`].
pub struct ResponseView {
    pub model: Seq<char>,
    pub message: MessageView,
    pub done: bool,
}

impl View for ModelOptions {
    type V = Seq<char>;

    open spec fn view(&self) -> Seq<char> {
        self.settings@
    }
}

impl View for FormatType {
    type V = FormatView;

    open spec fn view(&self) -> FormatView {
        match self {
            FormatType::Json => FormatView::Json,
            FormatType::StructuredJson(schema) => FormatView::StructuredJson(schema@),
        }
    }
}

impl View for ToolInfo {
    type V = ToolInfoView;

    open spec fn view(&self) -> ToolInfoView {
        ToolInfoView {
            name: self.name@,
            description: self.description@,
            parameters: self.parameters@,
        }
    }
}

/// The model of an optional value.
pub open spec fn view_of<T: View>(value: Option<T>) -> Option<T::V> {
    match value {
        Some(inner) => Some(inner@),
        None => None,
    }
}

impl View for ChatMessageRequest {
    type V = RequestView;

    open spec fn view(&self) -> RequestView {
        RequestView {
            model_name: self.model_name@,
            messages: views(self.messages@),
            tools: views(self.tools@),
            options: view_of(self.options),
            format: view_of(self.format),
            keep_alive: self.keep_alive,
        }
    }
}

impl View for ChatMessageResponse {
    type V = ResponseView;

    open spec fn view(&self) -> ResponseView {
        ResponseView { model: self.model@, message: self.message@, done: self.done }
    }
}

impl Default for ModelOptions {
    /// No settings: the service's own defaults apply.
    fn default() -> (options: Self)
        ensures
            options@ == Seq::<char>::empty(),
    {
        ModelOptions { settings: String::new() }
    }
}

impl Clone for ModelOptions {
    fn clone(&self) -> (copy: Self)
        ensures
            copy@ == self@,
    {
        ModelOptions { settings: self.settings.clone() }
    }
}

impl Clone for FormatType {
    fn clone(&self) -> (copy: Self)
        ensures
            copy@ == self@,
    {
        match self {
            FormatType::Json => FormatType::Json,
            FormatType::StructuredJson(schema) => FormatType::StructuredJson(schema.clone()),
        }
    }
}

impl Clone for ToolInfo {
    fn clone(&self) -> (copy: Self)
        ensures
            copy@ == self@,
    {
        ToolInfo {
            name: self.name.clone(),
            description: self.description.clone(),
            parameters: self.parameters.clone(),
        }
    }
}

impl Clone for ChatMessageRequest {
    fn clone(&self) -> (copy: Self)
        ensures
            copy@ == self@,
    {
        let messages = self.messages.clone();
        let tools = self.tools.clone();
        assert(views(messages@) =~= views(self.messages@));
        assert(views(tools@) =~= views(self.tools@));
        ChatMessageRequest {
            model_name: self.model_name.clone(),
            messages,
            tools,
            options: match &self.options {
                Some(options) => Some(options.clone()),
                None => None,
            },
            format: match &self.format {
                Some(format) => Some(format.clone()),
                None => None,
            },
            keep_alive: self.keep_alive,
        }
    }
}

impl Clone for ChatMessageResponse {
    fn clone(&self) -> (copy: Self)
        ensures
            copy@ == self@,
    {
        ChatMessageResponse {
            model: self.model.clone(),
            message: self.message.clone(),
            done: self.done,
        }
    }
}

impl ToolInfo {
    /// The descriptor of the tool called `name`.
    pub fn new(name: String, description: String, parameters: String) -> (info: Self)
        ensures
            info@ == (ToolInfoView {
                name: name@,
                description: description@,
                parameters: parameters@,
            }),
    {
        ToolInfo { name, description, parameters }
    }
}

impl ChatMessageRequest {
    /// A request to `model_name` that carries `messages` and nothing else.
    pub fn new(model_name: String, messages: Vec<ChatMessage>) -> (request: Self)
        ensures
            request@ == (RequestView {
                model_name: model_name@,
                messages: views(messages@),
                tools: Seq::empty(),
                options: None,
                format: None,
                keep_alive: None,
            }),
    {
        let request = ChatMessageRequest {
            model_name,
            messages,
            tools: Vec::new(),
            options: None,
            format: None,
            keep_alive: None,
        };
        assert(views(request.tools@) =~= Seq::<ToolInfoView>::empty());
        request
    }

    /// The same request with the generation settings replaced.
    pub fn options(self, options: ModelOptions) -> (request: Self)
        ensures
            request@ == (RequestView { options: Some(options@), ..self@ }),
    {
        let mut request = self;
        request.options = Some(options);
        request
    }

    /// The same request with the tool descriptors replaced.
    pub fn tools(self, tools: Vec<ToolInfo>) -> (request: Self)
        ensures
            request@ == (RequestView { tools: views(tools@), ..self@ }),
    {
        let mut request = self;
        request.tools = tools;
        request
    }

    /// The same request with the output-format constraint set.
    pub fn format(self, format: FormatType) -> (request: Self)
        ensures
            request@ == (RequestView { format: Some(format@), ..self@ }),
    {
        let mut request = self;
        request.format = Some(format);
        request
    }

    /// The same request with the keep-alive duration set.
    pub fn keep_alive(self, keep_alive: KeepAlive) -> (request: Self)
        ensures
            request@ == (RequestView { keep_alive: Some(keep_alive), ..self@ }),
    {
        let mut request = self;
        request.keep_alive = Some(keep_alive);
        request
    }
}

} // verus!
