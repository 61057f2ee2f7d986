use vstd::prelude::*;

verus! {

/// The session ID type.
pub type SessionId = u64;

/// An interaction with the agent, such as a chat request.
#[derive(Debug, Clone, PartialEq, Eq)]
pub enum Interaction {
    /// A chat interaction.
    Chat(Chat),
}

/// The context data of a chat interaction.
#[derive(Debug, Clone, PartialEq, Eq, Default)]
pub struct Chat {
    pub messages: Vec<ChatMessage>,
    pub session_id: SessionId,
}

/// A message of a chat interaction.
#[derive(Debug, Clone, PartialEq, Eq, Default)]
pub struct ChatMessage {
    /// The message content.
    pub content: String,
    /// The message role.
    pub role: String,
}

impl Chat {
    /// Creates a chat interaction without messages, in session 0.
    pub fn new() -> (r: Self)
        ensures
            r.messages@ == Seq::<ChatMessage>::empty(),
            r.session_id == 0,
    {
        Chat { messages: Vec::new(), session_id: 0 }
    }

    /// Sets the messages of the chat interaction.
    pub fn messages(self, messages: Vec<ChatMessage>) -> (r: Self)
        ensures
            r == (Chat { messages, ..self }),
    {
        Chat { messages, ..self }
    }

    /// Sets the session ID of the chat interaction.
    pub fn session_id(self, session_id: SessionId) -> (r: Self)
        ensures
            r == (Chat { session_id, ..self }),
    {
        Chat { session_id, ..self }
    }

    /// Converts the chat interaction into an interaction.
    pub fn into_interaction(self) -> (r: Interaction)
        ensures
            r == Interaction::Chat(self),
    {
        Interaction::Chat(self)
    }
}

} // verus!
