//! Prompt shaping for the Anthropic messages API.

use vstd::prelude::*;

use crate::adapter::{MessageRole, PromptMessage};

verus! {

/// A message in the Anthropic wire format.
#[derive(Debug)]
pub struct AnthropicMessage {
    /// The wire role: `user` or `assistant`.
    pub role: String,
    /// The message text.
    pub content: String,
}

/// Maps a prompt message to the Anthropic wire shape: assistant messages
/// keep the `assistant` role and every other role becomes `user` (system
/// prompts are extracted upstream); tool output is framed with a
/// `[Tool Output]` header.
pub fn map_prompt_message(message: &PromptMessage) -> (r: AnthropicMessage)
    ensures
        r.role@ == if message@.role is Assistant {
            "assistant"@
        } else {
            "user"@
        },
        r.content@ == if message@.role is Tool {
            "[Tool Output]\n"@ + message@.content
        } else {
            message@.content
        },
{
    let role = match message.role() {
        MessageRole::Assistant => "assistant",
        MessageRole::User | MessageRole::Tool | MessageRole::System => "user",
    };

    let content = if matches!(message.role(), MessageRole::Tool) {
        let mut s = String::from_str("[Tool Output]\n");
        s.append(message.content());
        s
    } else {
        message.content().to_owned()
    };

    AnthropicMessage { role: role.to_owned(), content }
}

} // verus!
