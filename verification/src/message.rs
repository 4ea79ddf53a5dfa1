//! Conversation turns and the tool invocations a reply may ask for.

use vstd::prelude::*;

verus! {

/// Who authored a conversation turn.
#[derive(Clone, Copy, Debug, PartialEq, Eq, Structural)]
pub enum Role {
    System,
    User,
    Assistant,
    Tool,
}

/// The name of the tool to run and the structured arguments for it, kept as
/// the text in which the service sent them.
#[derive(Debug, PartialEq, Eq)]
pub struct ToolCallFunction {
    pub name: String,
    pub arguments: String,
}

/// One tool invocation requested by the service.
#[derive(Debug, PartialEq, Eq)]
pub struct ToolCall {
    pub function: ToolCallFunction,
}

/// One turn of a conversation.
#[derive(Debug, PartialEq, Eq)]
pub struct ChatMessage {
    pub role: Role,
    pub content: String,
    pub tool_calls: Vec<ToolCall>,
}

/// Mathematical model of a [`ToolCall`].
pub struct ToolCallView {
    pub name: Seq<char>,
    pub arguments: Seq<char>,
}

/// Mathematical model of a [`ChatMessage`].
pub struct MessageView {
    pub role: Role,
    pub content: Seq<char>,
    pub tool_calls: Seq<ToolCallView>,
}

/// The models of the items of a sequence, in the same order.
pub open spec fn views<T: View>(items: Seq<T>) -> Seq<T::V> {
    Seq::new(items.len(), |i: int| items[i]@)
}

/// Appending an item appends its model.
pub proof fn lemma_views_push<T: View>(items: Seq<T>, item: T)
    ensures
        views(items.push(item)) == views(items).push(item@),
{
    assert(views(items.push(item)) =~= views(items).push(item@));
}

/// The message that carries a tool's textual result back to the service.
pub open spec fn tool_message(content: Seq<char>) -> MessageView {
    MessageView { role: Role::Tool, content, tool_calls: Seq::empty() }
}

impl View for ToolCall {
    type V = ToolCallView;

    open spec fn view(&self) -> ToolCallView {
        ToolCallView { name: self.function.name@, arguments: self.function.arguments@ }
    }
}

impl View for ChatMessage {
    type V = MessageView;

    open spec fn view(&self) -> MessageView {
        MessageView {
            role: self.role,
            content: self.content@,
            tool_calls: views(self.tool_calls@),
        }
    }
}

impl Clone for ToolCall {
    fn clone(&self) -> (copy: Self)
        ensures
            copy@ == self@,
    {
        ToolCall {
            function: ToolCallFunction {
                name: self.function.name.clone(),
                arguments: self.function.arguments.clone(),
            },
        }
    }
}

impl Clone for ChatMessage {
    fn clone(&self) -> (copy: Self)
        ensures
            copy@ == self@,
    {
        let tool_calls = self.tool_calls.clone();
        assert(views(tool_calls@) =~= views(self.tool_calls@));
        ChatMessage { role: self.role, content: self.content.clone(), tool_calls }
    }
}

impl ToolCall {
    /// A request to run the tool called `name` on `arguments`.
    pub fn new(name: String, arguments: String) -> (call: Self)
        ensures
            call@ == (ToolCallView { name: name@, arguments: arguments@ }),
    {
        ToolCall { function: ToolCallFunction { name, arguments } }
    }
}

impl ChatMessage {
    /// A turn by `role` with the given text and no tool calls.
    pub fn new(role: Role, content: String) -> (message: Self)
        ensures
            message@ == (MessageView { role, content: content@, tool_calls: Seq::empty() }),
    {
        let message = ChatMessage { role, content, tool_calls: Vec::new() };
        assert(views(message.tool_calls@) =~= Seq::<ToolCallView>::empty());
        message
    }

    /// A system turn.
    pub fn system(content: String) -> (message: Self)
        ensures
            message@ == (MessageView {
                role: Role::System,
                content: content@,
                tool_calls: Seq::empty(),
            }),
    {
        ChatMessage::new(Role::System, content)
    }

    /// A user turn.
    pub fn user(content: String) -> (message: Self)
        ensures
            message@ == (MessageView {
                role: Role::User,
                content: content@,
                tool_calls: Seq::empty(),
            }),
    {
        ChatMessage::new(Role::User, content)
    }

    /// An assistant turn without tool calls.
    pub fn assistant(content: String) -> (message: Self)
        ensures
            message@ == (MessageView {
                role: Role::Assistant,
                content: content@,
                tool_calls: Seq::empty(),
            }),
    {
        ChatMessage::new(Role::Assistant, content)
    }

    /// The turn that reports a tool's result.
    pub fn tool(content: String) -> (message: Self)
        ensures
            message@ == tool_message(content@),
    {
        ChatMessage::new(Role::Tool, content)
    }
}

} // verus!
