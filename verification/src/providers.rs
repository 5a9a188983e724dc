//! Provider-specific prompt shaping for the model adapters: the pure
//! mapping from the shared prompt messages to each provider's wire
//! message shape. The HTTP transport around these mappings lives with the
//! host application.

pub mod anthropic;
pub mod gemini;
pub mod ollama;
pub mod openai;
