//! Shared model adapter contracts: request and chunk shapes, adapter
//! metadata, and the error taxonomy.

use vstd::prelude::*;

verus! {

/// Error type shared by adapter implementations.
#[derive(Debug)]
pub enum AdapterError {
    /// Adapter is misconfigured or missing credentials.
    Configuration {
        /// Additional context for the failure.
        reason: String,
    },
    /// The supplied request was invalid for the target model.
    InvalidRequest {
        /// Reason describing why the request could not be processed.
        reason: String,
    },
    /// Transport-level failures (network, protocol).
    Transport {
        /// Additional context about the error.
        reason: String,
    },
    /// The provider rejected the request due to rate limiting.
    RateLimited {
        /// Suggested delay before retrying, in milliseconds.
        retry_after_millis: Option<u64>,
    },
    /// The provider returned a malformed response.
    Response {
        /// Additional context about the response failure.
        reason: String,
    },
}

impl AdapterError {
    /// Convenience constructor for invalid requests.
    pub fn invalid_request(reason: &str) -> (r: AdapterError)
        ensures
            r matches AdapterError::InvalidRequest { reason: s } && s@ == reason@,
    {
        AdapterError::InvalidRequest { reason: reason.to_owned() }
    }

    /// Convenience constructor for configuration issues.
    pub fn configuration(reason: &str) -> (r: AdapterError)
        ensures
            r matches AdapterError::Configuration { reason: s } && s@ == reason@,
    {
        AdapterError::Configuration { reason: reason.to_owned() }
    }

    /// Convenience constructor for transport failures.
    pub fn transport(reason: &str) -> (r: AdapterError)
        ensures
            r matches AdapterError::Transport { reason: s } && s@ == reason@,
    {
        AdapterError::Transport { reason: reason.to_owned() }
    }
}

/// Result alias used by model adapters.
pub type AdapterResult<T> = Result<T, AdapterError>;

/// Mathematical model of adapter metadata.
pub ghost struct AdapterMetadataModel {
    /// The provider label.
    pub provider: Seq<char>,
    /// The model identifier.
    pub model: Seq<char>,
    /// The optional version text.
    pub version: Option<Seq<char>>,
}

/// Minimal metadata describing a model adapter instance.
#[derive(Debug)]
pub struct AdapterMetadata {
    provider: String,
    model: String,
    version: Option<String>,
}

impl View for AdapterMetadata {
    type V = AdapterMetadataModel;

    closed spec fn view(&self) -> AdapterMetadataModel {
        AdapterMetadataModel {
            provider: self.provider@,
            model: self.model@,
            version: match self.version {
                Some(v) => Some(v@),
                None => None,
            },
        }
    }
}

impl Clone for AdapterMetadata {
    fn clone(&self) -> (res: Self)
        ensures
            res@ == self@,
    {
        AdapterMetadata {
            provider: self.provider.clone(),
            model: self.model.clone(),
            version: match &self.version {
                Some(v) => Some(v.clone()),
                None => None,
            },
        }
    }
}

impl AdapterMetadata {
    /// Creates metadata for the supplied provider and model identifier.
    pub fn new(provider: &str, model: &str) -> (r: AdapterMetadata)
        ensures
            r@.provider == provider@,
            r@.model == model@,
            r@.version is None,
    {
        AdapterMetadata { provider: provider.to_owned(), model: model.to_owned(), version: None }
    }

    /// Sets the adapter version information.
    pub fn with_version(self, version: &str) -> (r: AdapterMetadata)
        ensures
            r@.provider == self@.provider,
            r@.model == self@.model,
            r@.version == Some(version@),
    {
        let AdapterMetadata { provider, model, version: _ } = self;
        AdapterMetadata { provider, model, version: Some(version.to_owned()) }
    }

    /// Returns the provider identifier.
    pub fn provider(&self) -> (r: &str)
        ensures
            r@ == self@.provider,
    {
        self.provider.as_str()
    }

    /// Returns the configured model name.
    pub fn model(&self) -> (r: &str)
        ensures
            r@ == self@.model,
    {
        self.model.as_str()
    }
}

/// Roles supported in chat-style prompts.
#[derive(Clone, Copy, Debug, PartialEq, Eq, Structural)]
pub enum MessageRole {
    /// System messages steer the assistant behaviour.
    System,
    /// User-authored content.
    User,
    /// Assistant (model) responses.
    Assistant,
    /// Tool messages returned to the planner loop.
    Tool,
}

/// The lowercase wire name of a role.
pub open spec fn spec_role_text(role: MessageRole) -> Seq<char> {
    match role {
        MessageRole::System => "system"@,
        MessageRole::User => "user"@,
        MessageRole::Assistant => "assistant"@,
        MessageRole::Tool => "tool"@,
    }
}

impl MessageRole {
    /// Returns the lowercase wire name of the role.
    pub fn text(self) -> (r: &'static str)
        ensures
            r@ == spec_role_text(self),
    {
        match self {
            MessageRole::System => "system",
            MessageRole::User => "user",
            MessageRole::Assistant => "assistant",
            MessageRole::Tool => "tool",
        }
    }
}

/// Mathematical model of a prompt message.
pub ghost struct PromptMessageModel {
    /// The author role.
    pub role: MessageRole,
    /// The message text.
    pub content: Seq<char>,
}

/// Represents an instruction or message in a chat-style prompt.
#[derive(Debug)]
pub struct PromptMessage {
    role: MessageRole,
    content: String,
}

impl View for PromptMessage {
    type V = PromptMessageModel;

    closed spec fn view(&self) -> PromptMessageModel {
        PromptMessageModel { role: self.role, content: self.content@ }
    }
}

impl DeepView for PromptMessage {
    type V = PromptMessageModel;

    open spec fn deep_view(&self) -> PromptMessageModel {
        self.view()
    }
}

impl Clone for PromptMessage {
    fn clone(&self) -> (res: Self)
        ensures
            res@ == self@,
    {
        PromptMessage { role: self.role, content: self.content.clone() }
    }
}

impl PromptMessage {
    /// Creates a new prompt message.
    pub fn new(role: MessageRole, content: &str) -> (r: PromptMessage)
        ensures
            r@.role == role,
            r@.content == content@,
    {
        PromptMessage { role, content: content.to_owned() }
    }

    /// Returns the message role.
    pub fn role(&self) -> (r: MessageRole)
        ensures
            r == self@.role,
    {
        self.role
    }

    /// Returns the message content.
    pub fn content(&self) -> (r: &str)
        ensures
            r@ == self@.content,
    {
        self.content.as_str()
    }
}

/// Mathematical model of an inference request.
pub ghost struct InferenceRequestModel {
    /// The optional system prompt.
    pub system_prompt: Option<Seq<char>>,
    /// The conversation messages.
    pub messages: Seq<PromptMessageModel>,
    /// The optional output token budget.
    pub max_output_tokens: Option<u32>,
    /// The optional sampling temperature, as IEEE-754 single-precision
    /// bits.
    pub temperature_bits: Option<u32>,
    /// Names of tools the adapter may invoke.
    pub tools: Seq<Seq<char>>,
}

/// Request submitted to a model adapter.
///
/// The sampling temperature is carried as the bit pattern of an IEEE-754
/// single-precision value; the adapter that owns the floating-point
/// representation converts at the boundary.
#[derive(Debug)]
pub struct InferenceRequest {
    system_prompt: Option<String>,
    messages: Vec<PromptMessage>,
    max_output_tokens: Option<u32>,
    temperature_bits: Option<u32>,
    tools: Vec<String>,
}

impl View for InferenceRequest {
    type V = InferenceRequestModel;

    closed spec fn view(&self) -> InferenceRequestModel {
        InferenceRequestModel {
            system_prompt: match self.system_prompt {
                Some(p) => Some(p@),
                None => None,
            },
            messages: self.messages.deep_view(),
            max_output_tokens: self.max_output_tokens,
            temperature_bits: self.temperature_bits,
            tools: self.tools.deep_view(),
        }
    }
}

impl Clone for InferenceRequest {
    fn clone(&self) -> (res: Self)
        ensures
            res@ == self@,
    {
        let messages = self.messages.clone();
        let tools = self.tools.clone();
        proof {
            assert(messages.deep_view() =~= self.messages.deep_view());
            assert(tools.deep_view() =~= self.tools.deep_view());
        }
        InferenceRequest {
            system_prompt: match &self.system_prompt {
                Some(p) => Some(p.clone()),
                None => None,
            },
            messages,
            max_output_tokens: self.max_output_tokens,
            temperature_bits: self.temperature_bits,
            tools,
        }
    }
}

impl InferenceRequest {
    /// Creates a request with the supplied messages.
    ///
    /// Succeeds exactly when the message list is non-empty; the request
    /// then carries the messages unchanged and nothing else.
    pub fn new(messages: Vec<PromptMessage>) -> (r: AdapterResult<InferenceRequest>)
        ensures
            r is Ok <==> messages@.len() >= 1,
            r matches Ok(req) ==> req@ == (InferenceRequestModel {
                system_prompt: None,
                messages: messages.deep_view(),
                max_output_tokens: None,
                temperature_bits: None,
                tools: Seq::<Seq<char>>::empty(),
            }),
            r matches Err(e) ==> e is InvalidRequest,
    {
        if messages.len() == 0 {
            return Err(AdapterError::invalid_request(
                "inference request requires at least one message",
            ));
        }
        let r = InferenceRequest {
            system_prompt: None,
            messages,
            max_output_tokens: None,
            temperature_bits: None,
            tools: Vec::new(),
        };
        proof {
            assert(r@.tools =~= Seq::<Seq<char>>::empty());
        }
        Ok(r)
    }

    /// Sets the system prompt that guides model behaviour.
    pub fn with_system_prompt(self, prompt: &str) -> (r: InferenceRequest)
        ensures
            r@ == (InferenceRequestModel { system_prompt: Some(prompt@), ..self@ }),
    {
        let InferenceRequest { system_prompt: _, messages, max_output_tokens, temperature_bits, tools } =
            self;
        InferenceRequest {
            system_prompt: Some(prompt.to_owned()),
            messages,
            max_output_tokens,
            temperature_bits,
            tools,
        }
    }

    /// Sets the maximum output token budget.
    pub fn with_max_output_tokens(self, tokens: u32) -> (r: InferenceRequest)
        ensures
            r@ == (InferenceRequestModel { max_output_tokens: Some(tokens), ..self@ }),
    {
        let InferenceRequest { system_prompt, messages, max_output_tokens: _, temperature_bits, tools } =
            self;
        InferenceRequest {
            system_prompt,
            messages,
            max_output_tokens: Some(tokens),
            temperature_bits,
            tools,
        }
    }

    /// Sets the sampling temperature, as IEEE-754 single-precision bits.
    pub fn with_temperature(self, temperature_bits: u32) -> (r: InferenceRequest)
        ensures
            r@ == (InferenceRequestModel { temperature_bits: Some(temperature_bits), ..self@ }),
    {
        let InferenceRequest { system_prompt, messages, max_output_tokens, temperature_bits: _, tools } =
            self;
        InferenceRequest {
            system_prompt,
            messages,
            max_output_tokens,
            temperature_bits: Some(temperature_bits),
            tools,
        }
    }

    /// Declares tool names that the adapter may invoke.
    pub fn with_tools(self, tools: Vec<String>) -> (r: InferenceRequest)
        ensures
            r@ == (InferenceRequestModel { tools: tools.deep_view(), ..self@ }),
    {
        let InferenceRequest { system_prompt, messages, max_output_tokens, temperature_bits, tools: _ } =
            self;
        InferenceRequest { system_prompt, messages, max_output_tokens, temperature_bits, tools }
    }

    /// Returns the system prompt if configured.
    pub fn system_prompt(&self) -> (r: Option<&str>)
        ensures
            match r {
                Some(p) => self@.system_prompt == Some(p@),
                None => self@.system_prompt is None,
            },
    {
        match &self.system_prompt {
            Some(p) => Some(p.as_str()),
            None => None,
        }
    }

    /// Returns the prompt messages.
    pub fn messages(&self) -> (r: &Vec<PromptMessage>)
        ensures
            r.deep_view() == self@.messages,
    {
        &self.messages
    }

    /// Returns the configured maximum output tokens.
    pub fn max_output_tokens(&self) -> (r: Option<u32>)
        ensures
            r == self@.max_output_tokens,
    {
        self.max_output_tokens
    }

    /// Returns the configured sampling temperature bits.
    pub fn temperature(&self) -> (r: Option<u32>)
        ensures
            r == self@.temperature_bits,
    {
        self.temperature_bits
    }

    /// Returns the declared tool names.
    pub fn tools(&self) -> (r: &Vec<String>)
        ensures
            r.deep_view() == self@.tools,
    {
        &self.tools
    }
}

/// Streaming chunk returned by an adapter.
#[derive(Debug)]
pub struct InferenceChunk {
    /// Partial token delta emitted by the provider.
    pub delta: String,
    /// Whether the generation is complete.
    pub done: bool,
}

/// Mathematical model of an inference chunk.
pub ghost struct InferenceChunkModel {
    /// The partial text.
    pub delta: Seq<char>,
    /// Whether the stream is complete.
    pub done: bool,
}

impl View for InferenceChunk {
    type V = InferenceChunkModel;

    open spec fn view(&self) -> InferenceChunkModel {
        InferenceChunkModel { delta: self.delta@, done: self.done }
    }
}

impl DeepView for InferenceChunk {
    type V = InferenceChunkModel;

    open spec fn deep_view(&self) -> InferenceChunkModel {
        self.view()
    }
}

impl Clone for InferenceChunk {
    fn clone(&self) -> (res: Self)
        ensures
            res@ == self@,
    {
        InferenceChunk { delta: self.delta.clone(), done: self.done }
    }
}

impl InferenceChunk {
    /// Creates a new chunk.
    pub fn new(delta: &str, done: bool) -> (r: InferenceChunk)
        ensures
            r@.delta == delta@,
            r@.done == done,
    {
        InferenceChunk { delta: delta.to_owned(), done }
    }
}

} // verus!
