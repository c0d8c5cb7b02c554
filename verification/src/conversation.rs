//! Conversations with a model.

use vstd::prelude::*;
use vstd::string::StringExecFns;

verus! {

/// One message of a conversation.
#[derive(Debug, Clone)]
pub struct Message {
    /// Who speaks: `user`, `assistant`, `system`.
    pub role: String,
    /// What is said.
    pub content: String,
}

/// A conversation with one model.
#[derive(Debug, Clone)]
pub struct Conversation {
    /// Identifier; a manager sets it to the key it stores the conversation
    /// under.
    pub id: String,
    /// Model identifier.
    pub model: String,
    /// The messages, oldest first.
    pub messages: Vec<Message>,
}

impl Conversation {
    /// An empty conversation with `model`, without identifier.
    pub fn new(model: &str) -> (c: Conversation)
        ensures
            c.id@.len() == 0,
            c.model@ == model@,
            c.messages@.len() == 0,
    {
        Conversation { id: String::new(), model: String::from_str(model), messages: Vec::new() }
    }

    /// Appends a message.
    pub fn add_message(&mut self, role: &str, content: &str)
        ensures
            final(self).id == old(self).id,
            final(self).model == old(self).model,
            final(self).messages@.len() == old(self).messages@.len() + 1,
            final(self).messages@.drop_last() == old(self).messages@,
            final(self).messages@.last().role@ == role@,
            final(self).messages@.last().content@ == content@,
    {
        self.messages.push(
            Message { role: String::from_str(role), content: String::from_str(content) },
        );
        proof {
            assert(self.messages@.drop_last() =~= old(self).messages@);
        }
    }
}

} // verus!
