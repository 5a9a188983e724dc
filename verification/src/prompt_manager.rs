//! Prompt coordination scaffolding: system instructions and the prompt
//! manager facade.

use vstd::prelude::*;

verus! {

/// Errors surfaced by prompt coordination.
#[derive(Debug)]
pub enum PromptError {
    /// Prompt inputs failed validation.
    Invalid {
        /// Human-readable reason.
        reason: String,
    },
}

/// Result alias for prompt operations.
pub type PromptResult<T> = Result<T, PromptError>;

/// Represents a system instruction applied to all downstream prompts.
#[derive(Debug)]
pub struct SystemInstruction {
    content: String,
}

impl SystemInstruction {
    /// The instruction text.
    pub closed spec fn spec_content(&self) -> Seq<char> {
        self.content@
    }

    /// Returns the textual content.
    pub fn content(&self) -> (r: &str)
        ensures
            r@ == self.spec_content(),
    {
        self.content.as_str()
    }
}

/// Builder for [`SystemInstruction`].
#[derive(Debug)]
pub struct SystemInstructionBuilder {
    content: String,
}

impl SystemInstructionBuilder {
    /// The content collected so far.
    pub closed spec fn spec_content(&self) -> Seq<char> {
        self.content@
    }

    /// Creates a new builder with empty content.
    pub fn new() -> (r: SystemInstructionBuilder)
        ensures
            r.spec_content() == Seq::<char>::empty(),
    {
        SystemInstructionBuilder { content: String::new() }
    }

    /// Sets the instruction content.
    pub fn content(self, content: &str) -> (r: SystemInstructionBuilder)
        ensures
            r.spec_content() == content@,
    {
        SystemInstructionBuilder { content: content.to_owned() }
    }

    /// Builds the instruction, carrying the content over.
    pub fn build(self) -> (r: PromptResult<SystemInstruction>)
        ensures
            r matches Ok(s) && s.spec_content() == self.spec_content(),
    {
        Ok(SystemInstruction { content: self.content })
    }
}

/// Coordinates prompt templates, system instructions, and context
/// budgeting.
#[derive(Debug)]
pub struct PromptManager {
    configured: bool,
}

/// Builder for [`PromptManager`].
#[derive(Debug)]
pub struct PromptManagerBuilder {
    configured: bool,
}

impl PromptManagerBuilder {
    /// Creates a new builder with default settings.
    pub fn new() -> (r: PromptManagerBuilder) {
        PromptManagerBuilder { configured: true }
    }

    /// Finalises builder construction.
    pub fn build(self) -> (r: PromptResult<PromptManager>)
        ensures
            r is Ok,
    {
        Ok(PromptManager { configured: self.configured })
    }
}

impl PromptManager {
    /// Returns a new builder instance.
    pub fn builder() -> (r: PromptManagerBuilder) {
        PromptManagerBuilder::new()
    }

    /// Validates the manager's prompt inputs; the default manager always
    /// validates.
    pub fn validate(&self) -> (r: PromptResult<()>)
        ensures
            r is Ok,
    {
        Ok(())
    }
}

} // verus!
