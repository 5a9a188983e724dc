//! Runtime core for autonomous agents on a datagram-oriented mesh.
//!
//! The crate holds the per-agent runtime logic, each public function
//! carrying a contract that pins its behaviour:
//!
//! - identity and capability primitives, and the agent manifest;
//! - the lifecycle state machine and the kernel that owns it;
//! - the bounded scheduler's admission and permit accounting;
//! - the registration worker's retry, backoff and threshold decisions;
//! - the policy engine: matchers, rules, first-match evaluation;
//! - the three-tier memory subsystem: volatile ring, journal, and
//!   similarity index, with the bus that fans records out across them;
//! - prompt templates and the context window manager;
//! - adapter contracts with the per-provider prompt shaping; and
//! - the call-execution pipeline, a step machine that decides every
//!   transition of a call: policy enforcement, tool invocation order,
//!   inference streaming, and the memory transcript.
//!
//! The host around the library supplies what cannot be verified here:
//! file and network transports, the wire codecs, clocks and task
//! runtimes. It performs the actions this crate's state machines emit
//! and reports their results back.

mod adapter;
mod bus;
mod call;
mod capability;
mod clock;
mod context_window;
mod contracts;
mod decision;
mod engine;
mod embedding;
mod manifest;
mod memory_error;
mod meta;
mod prompt_manager;
pub mod providers;
mod registration;
mod registry_wire;
mod record;
mod scheduler;
mod template;
mod tool_registry;
mod ids;
mod journal;
mod kernel;
mod mesh;
mod text;
mod vector_index;
mod volatile;
mod lifecycle;

pub use adapter::{AdapterError, AdapterMetadata, AdapterMetadataModel, AdapterResult, InferenceChunk, InferenceChunkModel, InferenceRequest, InferenceRequestModel, MessageRole, PromptMessage, PromptMessageModel, spec_role_text};
pub use bus::{MemoryBus, MemoryBusBuilder, spec_index_entry};
pub use call::{CallOutcome, CallPayload, CallPipeline, PipelineAction, PipelineEvent, ToolInvocation, ToolInvocationResult, adapter_failure_error, build_inbound_record, build_inference_policy_request, build_inference_request, build_output_record, build_tool_policy_request, build_tool_record, check_payload, enforce_decision, expected_transcript, inbound_prefix, lemma_complete_transcript, lemma_no_memory_no_records, memory_failure_error, policy_failure_error, spec_deny_message, spec_enforce, spec_escalation_message, spec_join_comma, tool_failure_error, tool_markers};
pub use capability::{Capability, CapabilityBuilder, CapabilityId, Error, PrimitiveResult, validate_identifier, validate_scope};
pub use clock::now_unix_millis;
pub use context_window::{ContextError, ContextMessage, ContextMessageModel, ContextResult, ContextWindowConfig, ContextWindowManager, create_simple_summary, estimate_tokens, keeps_pinned, spec_count_role, spec_decimal, spec_estimate_tokens, spec_summary, subsequence_of};
pub use contracts::{ActionModel, PolicyAction, PolicyContext, PolicyContextModel, PolicyRequest, PolicyRequestModel, channel_text, spec_action_label, spec_channel_text};
pub use decision::{DecisionKind, PolicyDecision, PolicyDecisionModel};
pub use engine::{ActionMatcher, ActionMatcherModel, PolicyError, PolicyResult, PolicyRule, PolicyRuleModel, RuleBasedEngine, RuleMatcher, RuleMatcherModel, lemma_first_match_is_first, spec_action_matches, spec_evaluate, spec_first_match, spec_rule_matches};
pub use embedding::{EmbeddingVector, spec_finite_bits, spec_valid_embedding};
pub use ids::{AgentId, id_text, spec_id_text, spec_parse_id};
pub use memory_error::{MemoryError, MemoryResult};
pub use prompt_manager::{PromptError, PromptManager, PromptManagerBuilder, PromptResult, SystemInstruction, SystemInstructionBuilder};
pub use record::{ChannelModel, MemoryChannel, MemoryRecord, MemoryRecordBuilder, MemoryRecordModel, spec_record_wf};
pub use mesh::{HandlerContext, HandlerContextModel, HandlerError, HandlerErrorModel, HandlerResult, Message, MessageModel, MessageType};
pub use manifest::{AgentManifest, AgentManifestBuilder};
pub use meta::{MetaMap, MetaValue, MetaValueModel};
pub use registration::{RegistrationConfig, RegistrationWorker, RegistryDirective, RegistryError, RegistryResult, registration_directive, spec_registration_directive};
pub use registry_wire::{AgentRecord, AgentStatus, DiscoverRequest, DiscoverResponse, ErrorResponse, HeartbeatRequest, HeartbeatResponse, RegisterRequest, RegisterResponse};
pub use scheduler::{SchedulerConfig, SchedulerCore, SchedulerError, SchedulerResult, lemma_permits_bounded};
pub use template::{PromptTemplate, PromptTemplateModel, TemplateBuilder, TemplateError, TemplateResult, extract_variable_refs, spec_binding, spec_refs, spec_render, spec_trim};
pub use text::{is_blank, is_space_char, lemma_seq_char_le_total, lemma_seq_char_le_trans, seq_char_le, spec_blank, str_le};
pub use tool_registry::{ToolError, ToolMetadata, ToolMetadataModel, ToolRegistry, ToolResult, spec_tool_get};
pub use vector_index::{LocalVectorStore, TopK, VectorMatch, VectorMatchModel, VectorPoint, VectorPointModel, VectorQuery, VectorQueryModel, lemma_candidates_sound, rank_matches, score_ge, score_key, sorted_desc, spec_candidates, spec_matches_query};
pub use volatile::{VolatileConfig, VolatileMemory, VolatileStats, lemma_push_respects_caps, lemma_push_then_recent_one, spec_push, spec_recent};
pub use journal::{Journal, VecJournal, frame_line, lemma_append_then_tail_all, lemma_append_then_tail_one, lemma_frames_round_trip, spec_count_id, spec_frames, spec_join_frames, split_frames};
pub use kernel::{AgentKernel, KernelError, KernelResult};
pub use lifecycle::{AgentState, Lifecycle, LifecycleError, LifecycleEvent, LifecycleResult, lemma_abort_absorbing, lemma_terminal_state_stable, spec_transition};
