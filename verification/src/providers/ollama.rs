//! Prompt shaping for the Ollama chat API.

use vstd::prelude::*;

use crate::adapter::{spec_role_text, MessageRole, PromptMessage};

verus! {

/// A chat message in the Ollama wire format.
#[derive(Debug)]
pub struct ChatMessage {
    /// The wire role.
    pub role: String,
    /// The message text.
    pub content: String,
}

/// Maps a prompt message to the Ollama wire shape: tool output becomes a
/// `user` message framed with a `[tool output]` marker; every other role
/// keeps its lowercase wire name and its content.
pub fn map_prompt_message(message: &PromptMessage) -> (r: ChatMessage)
    ensures
        r.role@ == if message@.role is Tool {
            "user"@
        } else {
            spec_role_text(message@.role)
        },
        r.content@ == if message@.role is Tool {
            "[tool output] "@ + message@.content
        } else {
            message@.content
        },
{
    match message.role() {
        MessageRole::Tool => {
            let mut s = String::from_str("[tool output] ");
            s.append(message.content());
            ChatMessage { role: "user".to_owned(), content: s }
        },
        role => ChatMessage { role: role.text().to_owned(), content: message.content().to_owned() },
    }
}

} // verus!
