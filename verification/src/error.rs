//! Why a round of a conversation was abandoned.

use vstd::prelude::*;

verus! {

/// The failures a round can end in. None of them is retried, and none of
/// them rolls the history back.
#[derive(Debug, PartialEq, Eq)]
pub enum ChatError {
    /// The service asked for a tool that is not registered.
    UnknownToolName,
    /// A registered tool ran and reported a failure; the cause is kept.
    ToolInvocationFailure(String),
    /// The exchange with the service failed; the cause is kept.
    TransportFailure(String),
}

/// Mathematical model of a [`ChatError`].
pub enum ChatErrorView {
    UnknownToolName,
    ToolInvocationFailure(Seq<char>),
    TransportFailure(Seq<char>),
}

impl View for ChatError {
    type V = ChatErrorView;

    open spec fn view(&self) -> ChatErrorView {
        match self {
            ChatError::UnknownToolName => ChatErrorView::UnknownToolName,
            ChatError::ToolInvocationFailure(cause) => ChatErrorView::ToolInvocationFailure(
                cause@,
            ),
            ChatError::TransportFailure(cause) => ChatErrorView::TransportFailure(cause@),
        }
    }
}

impl Clone for ChatError {
    fn clone(&self) -> (copy: Self)
        ensures
            copy@ == self@,
    {
        match self {
            ChatError::UnknownToolName => ChatError::UnknownToolName,
            ChatError::ToolInvocationFailure(cause) => ChatError::ToolInvocationFailure(
                cause.clone(),
            ),
            ChatError::TransportFailure(cause) => ChatError::TransportFailure(cause.clone()),
        }
    }
}

} // verus!
