//! Where a conversation is kept.

use crate::message::{lemma_views_push, views, ChatMessage, MessageView, Role};
use vstd::prelude::*;

verus! {

/// An ordered, append-only record of conversation turns.
///
/// The coordinator only ever appends to a history and reads it back; any
/// store that keeps the turns in the order in which they were pushed can
/// stand behind it.
pub trait ChatHistory {
    /// The recorded turns, oldest first.
    spec fn log(&self) -> Seq<MessageView>;

    /// Appends `message` as the newest turn.
    fn push(&mut self, message: ChatMessage)
        ensures
            final(self).log() == old(self).log().push(message@),
    ;

    /// A copy of the recorded turns, oldest first.
    fn messages(&self) -> (turns: Vec<ChatMessage>)
        ensures
            views(turns@) == self.log(),
    ;
}

impl ChatHistory for Vec<ChatMessage> {
    open spec fn log(&self) -> Seq<MessageView> {
        views(self@)
    }

    fn push(&mut self, message: ChatMessage) {
        proof {
            lemma_views_push(self@, message);
        }
        Vec::push(self, message);
    }

    fn messages(&self) -> (turns: Vec<ChatMessage>) {
        let turns = self.clone();
        assert(views(turns@) =~= views(self@));
        turns
    }
}

/// Whether the newest turn of `log` reports a tool's result.
pub open spec fn ends_with_tool_result(log: Seq<MessageView>) -> bool {
    log.len() > 0 && log.last().role == Role::Tool
}

/// Appends `messages` to `history`, oldest first.
pub fn record<C: ChatHistory>(history: &mut C, messages: &Vec<ChatMessage>)
    ensures
        final(history).log() == old(history).log() + views(messages@),
{
    let mut i: usize = 0;
    while i < messages.len()
        invariant
            i <= messages.len(),
            history.log() == old(history).log() + views(messages@.subrange(0, i as int)),
        decreases messages.len() - i,
    {
        history.push(messages[i].clone());
        assert(views(messages@.subrange(0, i + 1)) =~= views(messages@.subrange(0, i as int)).push(
            messages@[i as int]@,
        ));
        i += 1;
    }
    assert(messages@.subrange(0, messages@.len() as int) =~= messages@);
}

/// Tells whether the newest turn of `history` reports a tool's result.
pub fn newest_is_tool_result<C: ChatHistory>(history: &C) -> (answer: bool)
    ensures
        answer == ends_with_tool_result(history.log()),
{
    let turns = history.messages();
    let n = turns.len();
    if n == 0 {
        false
    } else {
        assert(views(turns@).last() == turns@[n - 1]@);
        turns[n - 1].role == Role::Tool
    }
}

} // verus!
