//! Wire-level structures for talking to the mesh directory: registration,
//! discovery and heartbeat payloads, with addresses as plain text and
//! timestamps in milliseconds since the Unix epoch.

use vstd::prelude::*;

verus! {

/// Registration payload emitted by agents.
#[derive(Debug)]
pub struct RegisterRequest {
    /// Unique identifier for the agent (canonical text form).
    pub id: String,
    /// Human readable agent name.
    pub name: String,
    /// Capabilities advertised by the agent.
    pub capabilities: Vec<String>,
    /// Endpoint where the agent is reachable, as text.
    pub address: String,
    /// Additional metadata such as version, description, tags.
    pub metadata: Vec<(String, String)>,
}

/// Successful registration acknowledgement.
#[derive(Debug)]
pub struct RegisterResponse {
    /// Indicates whether the registration succeeded.
    pub success: bool,
    /// Agent identifier acknowledged by the registry.
    pub agent_id: String,
    /// Informational message.
    pub message: String,
}

/// Agent discovery request payload.
#[derive(Debug)]
pub struct DiscoverRequest {
    /// Capability filter.
    pub capability: String,
}

/// Simplified agent status representation.
#[derive(Debug, Clone, Copy, PartialEq, Eq, Structural)]
pub enum AgentStatus {
    /// Agent is healthy and online.
    Online,
    /// Agent missed heartbeats and is considered offline.
    Offline,
    /// Agent is online but reporting degraded health.
    Degraded,
}

/// Snapshot of an agent returned by discovery calls.
#[derive(Debug)]
pub struct AgentRecord {
    /// Agent identifier.
    pub id: String,
    /// Human readable name.
    pub name: String,
    /// Semantic version string.
    pub version: String,
    /// Optional description.
    pub description: Option<String>,
    /// Capability identifiers.
    pub capabilities: Vec<String>,
    /// Optional tags associated with the agent.
    pub tags: Vec<String>,
    /// Endpoint address, as text.
    pub address: String,
    /// Reported health status.
    pub status: AgentStatus,
    /// When the last heartbeat was observed, in milliseconds since the
    /// Unix epoch.
    pub last_heartbeat_millis: i64,
    /// When the agent was first registered, in milliseconds since the
    /// Unix epoch.
    pub registered_at_millis: i64,
}

/// Discovery response payload.
#[derive(Debug)]
pub struct DiscoverResponse {
    /// Capability that was queried.
    pub capability: String,
    /// Matching agents.
    pub agents: Vec<AgentRecord>,
    /// Count of returned agents.
    pub count: usize,
}

/// Heartbeat request emitted by agents.
#[derive(Debug)]
pub struct HeartbeatRequest {
    /// Identifier of the agent sending the heartbeat.
    pub agent_id: String,
}

/// Heartbeat acknowledgement returned to agents.
#[derive(Debug)]
pub struct HeartbeatResponse {
    /// Indicates whether the heartbeat succeeded.
    pub success: bool,
    /// Signals that the agent must re-register.
    pub needs_register: bool,
    /// Agent identifier associated with the heartbeat.
    pub agent_id: String,
    /// Registry timestamp for the heartbeat, in milliseconds since the
    /// Unix epoch.
    pub timestamp_millis: i64,
    /// Optional informational message.
    pub message: Option<String>,
}

/// Error payload used for protocol error responses.
#[derive(Debug)]
pub struct ErrorResponse {
    /// Human readable error message.
    pub error: String,
    /// Machine readable error code.
    pub code: String,
}

} // verus!
