//! The conversation model: one message, and the ordered history of a chat.

use vstd::prelude::*;

verus! {

/// Role label of a turn written by the person chatting.
pub const USER_ROLE: &'static str = "user";

/// Role label of a turn written by the model.
pub const MODEL_ROLE: &'static str = "model";

/// Mathematical value of a [`ChatMessage`]: its two texts as sequences of characters.
pub struct MessageView {
    pub role: Seq<char>,
    pub content: Seq<char>,
}

/// One turn of a conversation.
#[derive(Debug, PartialEq, Eq)]
pub struct ChatMessage {
    pub role: String,
    pub content: String,
}

impl View for ChatMessage {
    type V = MessageView;

    open spec fn view(&self) -> MessageView {
        MessageView { role: self.role@, content: self.content@ }
    }
}

impl DeepView for ChatMessage {
    type V = MessageView;

    open spec fn deep_view(&self) -> MessageView {
        self@
    }
}

impl ChatMessage {
    /// A turn written by the person chatting.
    pub fn user(content: &str) -> (message: ChatMessage)
        ensures
            message@ == (MessageView { role: USER_ROLE@, content: content@ }),
    {
        ChatMessage { role: String::from_str(USER_ROLE), content: String::from_str(content) }
    }

    /// A turn written by the model.
    pub fn assistant(content: &str) -> (message: ChatMessage)
        ensures
            message@ == (MessageView { role: MODEL_ROLE@, content: content@ }),
    {
        ChatMessage { role: String::from_str(MODEL_ROLE), content: String::from_str(content) }
    }
}

/// The turns of one conversation, oldest first.
#[derive(Debug, PartialEq, Eq)]
pub struct ChatHistory {
    pub messages: Vec<ChatMessage>,
}

impl View for ChatHistory {
    type V = Seq<MessageView>;

    open spec fn view(&self) -> Seq<MessageView> {
        self.messages.deep_view()
    }
}

impl ChatHistory {
    /// The empty conversation.
    pub fn new() -> (history: ChatHistory)
        ensures
            history@ == Seq::<MessageView>::empty(),
    {
        ChatHistory { messages: Vec::new() }
    }

    /// Appends `message` as the newest turn; earlier turns keep their places.
    pub fn add_message(&mut self, message: ChatMessage)
        ensures
            final(self)@ == old(self)@.push(message@),
    {
        self.messages.push(message);
    }
}

impl Default for ChatHistory {
    fn default() -> (history: ChatHistory)
        ensures
            history@ == Seq::<MessageView>::empty(),
    {
        ChatHistory::new()
    }
}

} // verus!
