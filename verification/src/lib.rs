//! A transport-free coordinator for tool-using chat conversations.
//!
//! The coordinator owns the conversation history and decides, one step at a
//! time, what has to happen next: which request goes to the text-generation
//! service, which registered tool has to be invoked, and when the exchange is
//! over. Sending requests and running tools is left to the caller, who reports
//! each outcome back. Every decision is specified over a mathematical model of
//! the conversation and proved against it.
//!
//! * [`message`] and [`request`] hold the data that travels;
//! * [`history`] says what a conversation store has to offer;
//! * [`model`] is the coordinator as a mathematical state machine;
//! * [`coordinator`] and [`stream`] are the executable coordinator, for
//!   replies that arrive whole and for replies that arrive in fragments;
//! * [`laws`] proves what holds of whole conversations.

pub mod coordinator;
pub mod error;
pub mod history;
pub mod laws;
pub mod message;
pub mod model;
pub mod request;
pub mod stream;

pub use crate::coordinator::{Coordinator, Dispatch, Step};
pub use crate::error::ChatError;
pub use crate::history::ChatHistory;
pub use crate::message::{ChatMessage, Role, ToolCall, ToolCallFunction};
pub use crate::request::{
    ChatMessageRequest, ChatMessageResponse, FormatType, KeepAlive, ModelOptions, TimeUnit,
    ToolInfo,
};
pub use crate::stream::ChatStream;
