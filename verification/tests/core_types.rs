//! Tests for the primitive types, lifecycle machine, policy engine,
//! prompt handling and adapter contracts.

use mxp_agents::providers::{anthropic, gemini, ollama, openai};
use mxp_agents::{MemoryChannel, MemoryRecord};
use mxp_agents::{
    AgentId, AgentManifest, AgentState, Capability, CapabilityId, ContextMessage,
    ContextWindowConfig, ContextWindowManager, EmbeddingVector, InferenceRequest, Lifecycle,
    LifecycleEvent, MessageRole, MetaValue, PolicyAction, PolicyContext, PolicyDecision,
    PolicyRequest, PolicyRule, PromptMessage, PromptTemplate, RuleBasedEngine, RuleMatcher,
    ToolError, ToolMetadata, ToolRegistry, create_simple_summary, estimate_tokens,
    extract_variable_refs, validate_identifier,
};

fn bits(values: &[f32]) -> Vec<u32> {
    values.iter().map(|v| v.to_bits()).collect()
}

#[test]
fn round_trip_agent_id() {
    let id = AgentId::random();
    let parsed = AgentId::parse_text(&id.to_text()).expect("parse");
    assert_eq!(id, parsed);
}

#[test]
fn id_text_is_canonical() {
    let id = AgentId::from_bits(0x00112233_4455_6677_8899_aabbccddeeffu128);
    assert_eq!(id.to_text(), "00112233-4455-6677-8899-aabbccddeeff");
    assert_eq!(
        AgentId::parse_text("00112233-4455-6677-8899-AABBCCDDEEFF"),
        Some(id)
    );
    assert_eq!(AgentId::parse_text("not-an-id"), None);
}

#[test]
fn build_capability_success() {
    let id = CapabilityId::new("plan.execute").expect("id");
    let capability = Capability::builder(id)
        .name("Planner")
        .and_then(|b| b.version("1.0.0"))
        .and_then(|b| b.add_scope("read:tasks"))
        .and_then(|b| b.add_scope("write:plans"))
        .map(|b| b.description("Plan execution"))
        .and_then(|b| b.build())
        .expect("build");

    assert_eq!(capability.name(), "Planner");
    assert_eq!(capability.scopes().len(), 2);
}

#[test]
fn scopes_are_sorted_and_deduplicated() {
    let id = CapabilityId::new("plan.execute").expect("id");
    let capability = Capability::builder(id)
        .name("Planner")
        .and_then(|b| b.version("1.0.0"))
        .and_then(|b| b.add_scope("write:plans"))
        .and_then(|b| b.add_scope("read:tasks"))
        .and_then(|b| b.add_scope("write:plans"))
        .and_then(|b| b.build())
        .expect("build");

    assert_eq!(
        capability.scopes(),
        &vec!["read:tasks".to_owned(), "write:plans".to_owned()]
    );
}

#[test]
fn whitespace_only_labels_are_rejected() {
    assert!(MemoryRecord::builder(MemoryChannel::Input, b"p".to_vec())
        .tag("\u{000B}")
        .is_err());
    assert!(PolicyRule::new(
        "\u{000C}",
        RuleMatcher::any(),
        PolicyDecision::allow(),
    )
    .is_err());
    assert!(MemoryChannel::custom("\u{00A0}").is_err());
}

#[test]
fn capability_requires_scope() {
    let id = CapabilityId::new("empty.scope").expect("id");
    let err = Capability::builder(id)
        .name("Empty")
        .and_then(|b| b.version("1.0"))
        .and_then(|b| b.build())
        .expect_err("should fail");
    let _ = err;
}

#[test]
fn identifier_validation_rejects_bad_characters() {
    assert!(validate_identifier("plan.execute").is_ok());
    assert!(validate_identifier("").is_err());
    assert!(validate_identifier("Has.Upper").is_err());
    let long = "a".repeat(65);
    assert!(validate_identifier(&long).is_err());
}

#[test]
fn builds_manifest() {
    let capability = Capability::builder(CapabilityId::new("test.cap").expect("id"))
        .name("Test")
        .and_then(|b| b.version("1.0.0"))
        .and_then(|b| b.add_scope("read:test"))
        .and_then(|b| b.build())
        .expect("capability");

    let manifest = AgentManifest::builder(AgentId::random())
        .name("demo")
        .unwrap()
        .version("1.2.3")
        .unwrap()
        .description("demo agent")
        .capabilities(vec![capability])
        .add_tag("alpha")
        .unwrap()
        .build()
        .unwrap();

    assert_eq!(manifest.name(), "demo");
    assert_eq!(manifest.version(), "1.2.3");
    assert_eq!(manifest.description(), Some("demo agent"));
    assert_eq!(manifest.capabilities().len(), 1);
    assert_eq!(manifest.tags(), &vec!["alpha".to_owned()]);
}

#[test]
fn name_is_required() {
    let result = AgentManifest::builder(AgentId::random()).build();
    assert!(result.is_err());
}

#[test]
fn boot_to_active_flow() {
    let agent_id = AgentId::random();
    let mut lifecycle = Lifecycle::new(agent_id);

    assert_eq!(lifecycle.state(), AgentState::Init);
    lifecycle.transition(LifecycleEvent::Boot).unwrap();
    assert_eq!(lifecycle.state(), AgentState::Ready);
    lifecycle.transition(LifecycleEvent::Activate).unwrap();
    assert!(lifecycle.state().is_active());
}

#[test]
fn suspend_and_resume() {
    let agent_id = AgentId::random();
    let mut lifecycle = Lifecycle::new(agent_id);

    lifecycle.transition(LifecycleEvent::Boot).unwrap();
    lifecycle.transition(LifecycleEvent::Activate).unwrap();
    lifecycle.transition(LifecycleEvent::Suspend).unwrap();
    assert_eq!(lifecycle.state(), AgentState::Suspended);
    lifecycle.transition(LifecycleEvent::Resume).unwrap();
    assert_eq!(lifecycle.state(), AgentState::Active);
}

#[test]
fn abort_is_global() {
    let agent_id = AgentId::random();
    let mut lifecycle = Lifecycle::new(agent_id);

    lifecycle.transition(LifecycleEvent::Abort).unwrap();
    assert!(lifecycle.state().is_terminal());
    lifecycle.transition(LifecycleEvent::Abort).unwrap();
    assert_eq!(lifecycle.state(), AgentState::Terminated);
}

#[test]
fn invalid_transition_errors() {
    let agent_id = AgentId::random();
    let mut lifecycle = Lifecycle::new(agent_id);

    let err = lifecycle
        .transition(LifecycleEvent::Activate)
        .expect_err("activate should fail from init");
    let _ = err;
}

#[test]
fn rejects_empty_vectors() {
    let err = EmbeddingVector::new(vec![]).expect_err("empty vector should error");
    let _ = err;
}

#[test]
fn rejects_non_finite_values() {
    let err = EmbeddingVector::new(bits(&[1.0, f32::NAN])).expect_err("nan not allowed");
    let _ = err;
}

#[test]
fn serialization_roundtrip() {
    let embedding = EmbeddingVector::new(bits(&[0.1, 0.2, 0.3])).unwrap();
    let floats: Vec<f32> = embedding.as_slice().iter().map(|b| f32::from_bits(*b)).collect();
    let json = serde_json::to_string(&floats).unwrap();
    let decoded_floats: Vec<f32> = serde_json::from_str(&json).unwrap();
    let decoded = EmbeddingVector::new(decoded_floats.iter().map(|v| v.to_bits()).collect())
        .unwrap();
    assert_eq!(decoded.as_slice(), embedding.as_slice());
}

#[test]
fn decision_helpers_work() {
    let allow = PolicyDecision::allow();
    assert!(allow.is_allow());
    assert!(!allow.is_deny());

    let deny = PolicyDecision::deny("blocked");
    assert!(deny.is_deny());
    assert_eq!(deny.reason(), Some("blocked"));

    let escalate = PolicyDecision::escalate("needs approval", vec!["secops".into()]);
    assert!(escalate.is_escalate());
    assert_eq!(escalate.required_approvals(), &vec!["secops".to_owned()]);
}

#[test]
fn policy_context_manages_tags() {
    let mut ctx = PolicyContext::new();
    ctx.add_tag("alpha");
    ctx.add_tag("alpha");
    ctx.extend_tags(&vec!["beta".to_owned(), " ".to_owned(), "gamma".to_owned()]);

    assert_eq!(ctx.tags().len(), 3);
    assert!(ctx.has_tag("alpha"));
    assert!(ctx.has_tag("beta"));
    assert!(ctx.has_tag("gamma"));
}

#[test]
fn request_builder_adds_metadata() {
    let agent = AgentId::random();
    let request = PolicyRequest::new(
        agent,
        PolicyAction::InvokeTool { name: "echo".into() },
    )
    .with_metadata("foo", MetaValue::Count(1))
    .with_tag("cap:read");

    assert_eq!(request.context().metadata().len(), 1);
    assert!(request.context().has_tag("cap:read"));
}

#[test]
fn request_from_memory_record_contains_metadata() {
    let record = MemoryRecord::builder(MemoryChannel::Input, b"payload".to_vec())
        .tag("cap:read")
        .unwrap()
        .build()
        .unwrap();
    let agent = AgentId::random();
    let request = PolicyRequest::from_memory_record(agent, &record);

    assert!(request.context().metadata().contains_key("channel"));
    assert!(request.context().metadata().contains_key("id"));
    assert!(request.context().has_tag("cap:read"));
}

fn request_for_tool(name: &str) -> PolicyRequest {
    PolicyRequest::new(
        AgentId::random(),
        PolicyAction::InvokeTool { name: name.into() },
    )
}

#[test]
fn rule_matching_prefers_first_match() {
    let mut engine = RuleBasedEngine::new(PolicyDecision::allow());
    engine.add_rule(
        PolicyRule::new(
            "deny-echo",
            RuleMatcher::for_tool("echo"),
            PolicyDecision::deny("tool disabled"),
        )
        .unwrap(),
    );
    engine.add_rule(
        PolicyRule::new(
            "escalate-all-tools",
            RuleMatcher::for_any_tool(),
            PolicyDecision::escalate("needs approval", vec!["secops".into()]),
        )
        .unwrap(),
    );

    let decision = engine.evaluate(&request_for_tool("echo")).unwrap();
    assert!(decision.is_deny());
    assert_eq!(decision.reason(), Some("tool disabled"));

    let decision = engine.evaluate(&request_for_tool("other")).unwrap();
    assert!(decision.is_escalate());
}

#[test]
fn default_decision_applies_when_no_rules_match() {
    let engine = RuleBasedEngine::new(PolicyDecision::deny("no rules"));
    let decision = engine.evaluate(&request_for_tool("unknown")).unwrap();

    assert!(decision.is_deny());
}

#[test]
fn tag_matching_requires_subset() {
    let mut engine = RuleBasedEngine::new(PolicyDecision::allow());
    let matcher = RuleMatcher::for_any_tool().with_required_tags(&vec!["cap:write".to_owned()]);
    engine.add_rule(PolicyRule::new("cap-required", matcher, PolicyDecision::allow()).unwrap());

    let request = request_for_tool("writer")
        .with_tags(&vec!["cap:write".to_owned(), "tenant:a".to_owned()]);
    let decision = engine.evaluate(&request).unwrap();
    assert!(decision.is_allow());

    let request = request_for_tool("writer").with_tags(&vec!["cap:read".to_owned()]);
    let decision = engine.evaluate(&request).unwrap();
    assert!(decision.is_allow());
}

#[test]
fn adds_messages_within_budget() {
    let config = ContextWindowConfig {
        max_tokens: 1000,
        recent_window_size: 5,
        ..Default::default()
    };
    let mut manager = ContextWindowManager::new(config);

    manager.add_message(ContextMessage::new("user", "Hello"));
    manager.add_message(ContextMessage::new("assistant", "Hi there!"));

    assert_eq!(manager.get_messages().len(), 2);
}

#[test]
fn compresses_when_over_budget() {
    let config = ContextWindowConfig {
        max_tokens: 50,
        recent_window_size: 3,
        min_importance_threshold: 50,
        enable_summarization: false,
    };
    let mut manager = ContextWindowManager::new(config);

    for i in 0..10 {
        manager.add_message(
            ContextMessage::new(
                "user",
                &format!("This is a low importance test message number {i}"),
            )
            .with_importance(30),
        );
    }

    assert!(
        manager.current_tokens() <= manager.max_tokens(),
        "Token count {} exceeds max {}",
        manager.current_tokens(),
        manager.max_tokens()
    );
    assert!(
        manager.get_messages().len() < 10,
        "Expected fewer than 10 messages, got {}",
        manager.get_messages().len()
    );
}

#[test]
fn preserves_pinned_messages() {
    let config = ContextWindowConfig {
        max_tokens: 50,
        recent_window_size: 1,
        ..Default::default()
    };
    let mut manager = ContextWindowManager::new(config);

    let pinned = ContextMessage::new("system", "Important context").pinned();
    manager.add_message(pinned);

    for i in 0..20 {
        manager.add_message(ContextMessage::new("user", &format!("Message {i}")));
    }

    let messages = manager.get_messages();
    assert!(messages.iter().any(|m| m.content == "Important context"));
}

#[test]
fn estimates_tokens_reasonably() {
    let short = "Hello";
    let long = "This is a much longer message with many more words.";

    assert!(estimate_tokens(long) > estimate_tokens(short));
}

#[test]
fn creates_summary() {
    let messages = vec![
        ContextMessage::new("user", "Question 1"),
        ContextMessage::new("assistant", "Answer 1"),
        ContextMessage::new("user", "Question 2"),
    ];

    let summary = create_simple_summary(&messages);
    assert!(summary.contains("2 user messages"));
    assert!(summary.contains("1 assistant response"));
}

#[test]
fn clears_all_state() {
    let mut manager = ContextWindowManager::new(ContextWindowConfig::default());
    manager.add_message(ContextMessage::new("user", "Hello"));
    manager.clear();

    assert_eq!(manager.get_messages().len(), 0);
    assert_eq!(manager.current_tokens(), 0);
}

#[test]
fn renders_simple_template() {
    let template = PromptTemplate::builder("Hello {{name}}!")
        .with_variable("name", "World")
        .build()
        .unwrap();

    let rendered = template.render().unwrap();
    assert_eq!(rendered, "Hello World!");
}

#[test]
fn renders_multiple_variables() {
    let template = PromptTemplate::builder("{{greeting}} {{name}}, {{question}}")
        .with_variable("greeting", "Hello")
        .with_variable("name", "Alice")
        .with_variable("question", "how are you?")
        .build()
        .unwrap();

    let rendered = template.render().unwrap();
    assert_eq!(rendered, "Hello Alice, how are you?");
}

#[test]
fn runtime_variables_override_defaults() {
    let template = PromptTemplate::builder("Hello {{name}}!")
        .with_variable("name", "World")
        .build()
        .unwrap();

    let runtime = vec![("name".to_owned(), "Alice".to_owned())];

    let rendered = template.render_with(&runtime).unwrap();
    assert_eq!(rendered, "Hello Alice!");
}

#[test]
fn required_variables_error_when_missing() {
    let template = PromptTemplate::builder("Hello {{name}}!")
        .with_required_variable("name")
        .build()
        .unwrap();

    let err = template.render().expect_err("should error");
    let _ = err;
}

#[test]
fn extracts_variable_refs() {
    let template = "Hello {{name}}, you are {{age}} years old. {{greeting}}";
    let vars = extract_variable_refs(template);
    assert_eq!(vars.len(), 3);
    assert!(vars.contains(&"name".to_owned()));
    assert!(vars.contains(&"age".to_owned()));
    assert!(vars.contains(&"greeting".to_owned()));
}

#[test]
fn handles_nested_braces() {
    let template = "Code: {{code}}";
    let vars = extract_variable_refs(template);
    assert_eq!(vars, vec!["code".to_owned()]);
}

#[test]
fn mutable_template_updates() {
    let mut template = PromptTemplate::new("Hello {{name}}!");
    template.set_variable("name", "Bob");

    let rendered = template.render().unwrap();
    assert_eq!(rendered, "Hello Bob!");
}

#[test]
fn validates_request_messages() {
    let err = InferenceRequest::new(Vec::new()).expect_err("messages required");
    let _ = err;
}

#[test]
fn builds_request() {
    let request = InferenceRequest::new(vec![PromptMessage::new(MessageRole::User, "ping")])
        .unwrap()
        .with_max_output_tokens(256)
        .with_temperature(0.7f32.to_bits())
        .with_tools(vec!["echo".to_owned()]);

    assert_eq!(request.messages().len(), 1);
    assert_eq!(request.max_output_tokens(), Some(256));
    assert_eq!(request.temperature(), Some(0.7f32.to_bits()));
    assert_eq!(request.tools(), &vec!["echo".to_owned()]);
}

#[test]
fn anthropic_prompt_mapping_handles_tool_role() {
    let message = PromptMessage::new(MessageRole::Tool, "result");
    let mapped = anthropic::map_prompt_message(&message);
    assert_eq!(mapped.role, "user");
    assert!(mapped.content.contains("Tool Output"));
}

#[test]
fn prompt_mapping_uses_model_role() {
    let message = PromptMessage::new(MessageRole::Assistant, "response");
    let mapped = gemini::map_prompt_message(&message);
    assert_eq!(mapped.role, "model");
    assert_eq!(mapped.parts[0].text, "response");
}

#[test]
fn ollama_prompt_mapping_handles_tool_role() {
    let message = PromptMessage::new(MessageRole::Tool, "output");
    let mapped = ollama::map_prompt_message(&message);
    assert_eq!(mapped.role, "user");
    assert!(mapped.content.contains("tool output"));
}

#[test]
fn prompt_mapping_preserves_role() {
    let message = PromptMessage::new(MessageRole::User, "hello");
    let mapped = openai::map_prompt_message(&message);
    assert_eq!(mapped.role, "user");
    assert_eq!(mapped.content, "hello");
}

fn echo_metadata() -> ToolMetadata {
    ToolMetadata::new("echo", "1.0.0")
        .unwrap()
        .with_description("Echo incoming payload")
        .with_capabilities(vec![CapabilityId::new("tool.echo").unwrap()])
}

#[test]
fn register_and_look_up_tool() {
    let mut registry = ToolRegistry::new();
    registry.register_tool(echo_metadata()).unwrap();

    let handle = registry.get("echo").expect("registered");
    assert_eq!(handle.name(), "echo");
    assert_eq!(handle.version(), "1.0.0");
    assert!(registry.get("missing").is_none());
    assert_eq!(registry.list().len(), 1);
}

#[test]
fn duplicate_registration_errors() {
    let mut registry = ToolRegistry::new();
    registry.register_tool(echo_metadata()).unwrap();

    let err = registry
        .register_tool(ToolMetadata::new("echo", "1.0.1").unwrap())
        .expect_err("duplicate registration should fail");
    assert!(matches!(err, ToolError::DuplicateTool { name } if name == "echo"));
}

#[test]
fn invalid_metadata_errors() {
    let err = ToolMetadata::new("", "1.0.0").expect_err("empty name should error");
    assert!(matches!(err, ToolError::InvalidMetadata { .. }));

    let err = ToolMetadata::new("echo", " ").expect_err("empty version should error");
    assert!(matches!(err, ToolError::InvalidMetadata { .. }));
}
