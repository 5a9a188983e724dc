//! Mesh message surface: the decoded message shape the kernel receives
//! from its transport collaborator, handler errors, and the context
//! handed to message handlers.

use vstd::prelude::*;

use crate::clock::now_unix_millis;
use crate::ids::AgentId;

verus! {

/// Type tags of inbound mesh messages.
#[derive(Debug, Clone, Copy, PartialEq, Eq, Structural)]
pub enum MessageType {
    /// Agent registration.
    AgentRegister,
    /// Agent discovery.
    AgentDiscover,
    /// Agent heartbeat.
    AgentHeartbeat,
    /// A call request.
    Call,
    /// A call response.
    Response,
    /// An application event.
    Event,
    /// Stream opening.
    StreamOpen,
    /// A stream chunk.
    StreamChunk,
    /// Stream closing.
    StreamClose,
    /// An acknowledgement.
    Ack,
    /// A protocol-level error.
    Error,
}

/// Mathematical model of a decoded mesh message.
pub ghost struct MessageModel {
    /// The decoded type tag, absent when the header held none.
    pub message_type: Option<MessageType>,
    /// The payload bytes.
    pub payload: Seq<u8>,
}

/// A decoded mesh message: a type tag and payload bytes. The wire codec
/// lives with the transport collaborator; the kernel receives decoded
/// values.
#[derive(Debug)]
pub struct Message {
    message_type: Option<MessageType>,
    payload: Vec<u8>,
}

impl View for Message {
    type V = MessageModel;

    closed spec fn view(&self) -> MessageModel {
        MessageModel { message_type: self.message_type, payload: self.payload@ }
    }
}

impl Clone for Message {
    fn clone(&self) -> (res: Self)
        ensures
            res@ == self@,
    {
        let payload = self.payload.clone();
        proof {
            assert(payload@ =~= self.payload@);
        }
        Message { message_type: self.message_type, payload }
    }
}

impl Message {
    /// Creates a message with the given type tag and payload.
    pub fn new(message_type: MessageType, payload: Vec<u8>) -> (r: Message)
        ensures
            r@.message_type == Some(message_type),
            r@.payload == payload@,
    {
        Message { message_type: Some(message_type), payload }
    }

    /// Creates a message whose type tag could not be decoded.
    pub fn untyped(payload: Vec<u8>) -> (r: Message)
        ensures
            r@.message_type is None,
            r@.payload == payload@,
    {
        Message { message_type: None, payload }
    }

    /// Returns the decoded type tag, if the header held one.
    pub fn message_type(&self) -> (r: Option<MessageType>)
        ensures
            r == self@.message_type,
    {
        self.message_type
    }

    /// Returns the payload bytes.
    pub fn payload(&self) -> (r: &Vec<u8>)
        ensures
            r@ == self@.payload,
    {
        &self.payload
    }
}

/// Mathematical model of a handler error.
pub ghost enum HandlerErrorModel {
    /// The message header did not contain a valid message type.
    MissingMessageType,
    /// The agent does not handle the message type.
    Unsupported(MessageType),
    /// Custom handler error with its text.
    Custom(Seq<char>),
}

/// Errors that can occur during message handling.
#[derive(Debug)]
pub enum HandlerError {
    /// The message header did not contain a valid message type.
    MissingMessageType,
    /// The agent does not handle the message type.
    Unsupported(MessageType),
    /// Custom handler error with human-readable context.
    Custom(String),
}

impl View for HandlerError {
    type V = HandlerErrorModel;

    open spec fn view(&self) -> HandlerErrorModel {
        match self {
            HandlerError::MissingMessageType => HandlerErrorModel::MissingMessageType,
            HandlerError::Unsupported(t) => HandlerErrorModel::Unsupported(*t),
            HandlerError::Custom(s) => HandlerErrorModel::Custom(s@),
        }
    }
}

impl Clone for HandlerError {
    fn clone(&self) -> (res: Self)
        ensures
            res@ == self@,
    {
        match self {
            HandlerError::MissingMessageType => HandlerError::MissingMessageType,
            HandlerError::Unsupported(t) => HandlerError::Unsupported(*t),
            HandlerError::Custom(s) => HandlerError::Custom(s.clone()),
        }
    }
}

impl HandlerError {
    /// Creates a custom error variant.
    pub fn custom(reason: &str) -> (r: HandlerError)
        ensures
            r@ == HandlerErrorModel::Custom(reason@),
    {
        HandlerError::Custom(reason.to_owned())
    }
}

/// Result alias for handler operations.
pub type HandlerResult<T> = Result<T, HandlerError>;

/// Mathematical model of a handler context.
pub ghost struct HandlerContextModel {
    /// The owning agent.
    pub agent_id: AgentId,
    /// Arrival time in milliseconds since the Unix epoch.
    pub received_at_millis: i64,
    /// The decoded message.
    pub message: MessageModel,
}

/// Context provided to message handlers.
#[derive(Debug)]
pub struct HandlerContext {
    agent_id: AgentId,
    received_at_millis: i64,
    message: Message,
}

impl View for HandlerContext {
    type V = HandlerContextModel;

    closed spec fn view(&self) -> HandlerContextModel {
        HandlerContextModel {
            agent_id: self.agent_id,
            received_at_millis: self.received_at_millis,
            message: self.message@,
        }
    }
}

impl HandlerContext {
    /// Constructs a context from an owned message, stamping the arrival
    /// time.
    pub fn from_message(agent_id: AgentId, message: Message) -> (r: HandlerContext)
        ensures
            r@.agent_id == agent_id,
            r@.message == message@,
    {
        HandlerContext { agent_id, received_at_millis: now_unix_millis(), message }
    }

    /// Returns the agent identifier.
    pub fn agent_id(&self) -> (r: AgentId)
        ensures
            r == self@.agent_id,
    {
        self.agent_id
    }

    /// Returns the arrival time, in milliseconds since the Unix epoch.
    pub fn received_at_millis(&self) -> (r: i64)
        ensures
            r == self@.received_at_millis,
    {
        self.received_at_millis
    }

    /// Returns the underlying mesh message.
    pub fn message(&self) -> (r: &Message)
        ensures
            r@ == self@.message,
    {
        &self.message
    }

    /// Returns the message type; fails exactly when the header held no
    /// decodable tag.
    pub fn message_type(&self) -> (r: HandlerResult<MessageType>)
        ensures
            match r {
                Ok(t) => self@.message.message_type == Some(t),
                Err(e) => self@.message.message_type is None && e is MissingMessageType,
            },
    {
        match self.message.message_type() {
            Some(t) => Ok(t),
            None => Err(HandlerError::MissingMessageType),
        }
    }
}

} // verus!
