//! Prompt shaping for the Gemini content API.

use vstd::prelude::*;

use crate::adapter::{MessageRole, PromptMessage};

verus! {

/// One text part of a Gemini content entry.
#[derive(Debug)]
pub struct Part {
    /// The text carried by the part.
    pub text: String,
}

/// A content entry in the Gemini wire format.
#[derive(Debug)]
pub struct Content {
    /// The wire role: `user` or `model`.
    pub role: String,
    /// The text parts.
    pub parts: Vec<Part>,
}

/// Maps a prompt message to the Gemini wire shape: assistant messages get
/// the `model` role and every other role becomes `user` (system prompts
/// are extracted upstream); tool output is framed with a `[Tool Output]`
/// header; the content is a single text part.
pub fn map_prompt_message(message: &PromptMessage) -> (r: Content)
    ensures
        r.role@ == if message@.role is Assistant {
            "model"@
        } else {
            "user"@
        },
        r.parts@.len() == 1,
        r.parts@[0].text@ == if message@.role is Tool {
            "[Tool Output]\n"@ + message@.content
        } else {
            message@.content
        },
{
    let role = match message.role() {
        MessageRole::Assistant => "model",
        MessageRole::User | MessageRole::Tool | MessageRole::System => "user",
    };

    let text = if matches!(message.role(), MessageRole::Tool) {
        let mut s = String::from_str("[Tool Output]\n");
        s.append(message.content());
        s
    } else {
        message.content().to_owned()
    };

    let mut parts: Vec<Part> = Vec::new();
    parts.push(Part { text });
    Content { role: role.to_owned(), parts }
}

} // verus!
