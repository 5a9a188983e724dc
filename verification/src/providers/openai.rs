//! Prompt shaping for the OpenAI chat-completion API.

use vstd::prelude::*;

use crate::adapter::{spec_role_text, PromptMessage};

verus! {

/// A chat message in the OpenAI wire format.
#[derive(Debug)]
pub struct OpenAiMessage {
    /// The wire role.
    pub role: String,
    /// The message text.
    pub content: String,
}

/// Maps a prompt message to the OpenAI wire shape: the role keeps its
/// lowercase wire name and the content is carried unchanged.
pub fn map_prompt_message(message: &PromptMessage) -> (r: OpenAiMessage)
    ensures
        r.role@ == spec_role_text(message@.role),
        r.content@ == message@.content,
{
    OpenAiMessage { role: message.role().text().to_owned(), content: message.content().to_owned() }
}

} // verus!
