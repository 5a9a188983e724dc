//! Tests for the scheduler core, registration decisions, the kernel, and
//! the call-execution pipeline end to end.

use mxp_agents::{
    AgentId, AgentKernel, AgentState, CallOutcome, CallPayload, CallPipeline, HandlerError,
    LifecycleEvent, LocalVectorStore, MemoryBus, MemoryChannel, MemoryRecord, MessageRole,
    PipelineAction, PipelineEvent, PolicyDecision, PolicyRule, PromptMessage,
    RegistrationConfig, RegistrationWorker, RegistryDirective, RuleBasedEngine, RuleMatcher,
    SchedulerConfig, SchedulerCore, SchedulerError, ToolInvocation, ToolMetadata, ToolRegistry,
    VecJournal, VolatileConfig, registration_directive,
};

#[test]
fn close_prevents_new_tasks() {
    let mut scheduler = SchedulerCore::new(SchedulerConfig::default());
    assert!(scheduler.check_spawn().is_ok());
    scheduler.close();
    assert_eq!(scheduler.check_spawn(), Err(SchedulerError::Closed));
    assert!(scheduler.is_closed());
}

#[test]
fn respects_max_concurrency() {
    let mut scheduler = SchedulerCore::new(SchedulerConfig::new(2));
    assert!(scheduler.try_acquire());
    assert!(scheduler.try_acquire());
    assert!(!scheduler.try_acquire());
    scheduler.release();
    assert!(scheduler.try_acquire());
}

#[test]
fn registration_config_validates_bounds() {
    let good = RegistrationConfig::new(10, 5, 20, 3);
    assert!(good.validate().is_ok());
    assert!(RegistrationConfig::new(0, 5, 20, 3).validate().is_err());
    assert!(RegistrationConfig::new(10, 0, 20, 3).validate().is_err());
    assert!(RegistrationConfig::new(10, 30, 20, 3).validate().is_err());
}

#[test]
fn register_backoff_doubles_and_caps() {
    let config = RegistrationConfig::new(10, 5, 20, 3);
    let mut worker = RegistrationWorker::new(config);
    assert_eq!(worker.on_register_failure(), 5);
    assert_eq!(worker.on_register_failure(), 10);
    assert_eq!(worker.on_register_failure(), 20);
    assert_eq!(worker.on_register_failure(), 20);
    worker.on_register_success();
    assert_eq!(worker.on_register_failure(), 5);
}

#[test]
fn heartbeat_failures_trigger_reregistration_at_threshold() {
    let config = RegistrationConfig::new(10, 5, 20, 3);
    let mut worker = RegistrationWorker::new(config);
    assert!(!worker.on_heartbeat_result(false));
    assert!(!worker.on_heartbeat_result(false));
    assert!(worker.on_heartbeat_result(false));
    assert!(!worker.on_heartbeat_result(false));
    assert!(!worker.on_heartbeat_result(true));
    assert!(!worker.on_heartbeat_result(false));
    assert!(!worker.on_heartbeat_result(false));
    assert!(worker.on_heartbeat_result(false));
}

#[test]
fn lifecycle_states_carry_registry_directives() {
    assert_eq!(registration_directive(AgentState::Ready), RegistryDirective::EnsureWorker);
    assert_eq!(registration_directive(AgentState::Active), RegistryDirective::EnsureWorker);
    assert_eq!(registration_directive(AgentState::Retiring), RegistryDirective::Shutdown);
    assert_eq!(registration_directive(AgentState::Terminated), RegistryDirective::Shutdown);
    assert_eq!(registration_directive(AgentState::Init), RegistryDirective::Leave);
    assert_eq!(registration_directive(AgentState::Suspended), RegistryDirective::Leave);
}

#[test]
fn kernel_transitions_report_directives() {
    let mut kernel = AgentKernel::new(AgentId::random());
    let (state, directive) = kernel.transition(LifecycleEvent::Boot).unwrap();
    assert_eq!(state, AgentState::Ready);
    assert_eq!(directive, RegistryDirective::EnsureWorker);
    let (state, directive) = kernel.transition(LifecycleEvent::Retire).unwrap();
    assert_eq!(state, AgentState::Retiring);
    assert_eq!(directive, RegistryDirective::Shutdown);
    assert!(kernel.transition(LifecycleEvent::Boot).is_err());
}

fn call_payload_with_echo() -> CallPayload {
    CallPayload {
        messages: vec![
            PromptMessage::new(MessageRole::System, "You are helpful."),
            PromptMessage::new(MessageRole::User, "Ping"),
        ],
        temperature_bits: None,
        max_output_tokens: None,
        tools: vec![ToolInvocation { name: "echo".to_owned(), input: "{\"value\":1}".to_owned() }],
    }
}

fn echo_registry() -> ToolRegistry {
    let mut registry = ToolRegistry::new();
    registry
        .register_tool(ToolMetadata::new("echo", "1.0.0").unwrap())
        .unwrap();
    registry
}

/// Drives a pipeline with an echo tool, a static adapter response, the
/// given policy engine, and an optional memory bus; returns the delivered
/// outcome or the failure, with every written record.
fn drive_pipeline(
    engine: Option<&RuleBasedEngine>,
    with_memory: bool,
) -> (Result<CallOutcome, HandlerError>, Vec<MemoryRecord>) {
    let registry = echo_registry();
    let mut bus = if with_memory {
        Some(
            MemoryBus::<VecJournal>::builder(VolatileConfig::new(16))
                .with_journal(VecJournal::new())
                .with_vector_store(LocalVectorStore::new())
                .build()
                .unwrap(),
        )
    } else {
        None
    };

    let mut pipeline = CallPipeline::new(
        AgentId::random(),
        call_payload_with_echo(),
        b"{\"messages\":[]}".to_vec(),
        "test",
        "static",
        engine.is_some(),
        with_memory,
        Some(&registry),
    );

    let mut action = pipeline.start();
    let mut written: Vec<MemoryRecord> = Vec::new();
    let mut steps = 0;
    loop {
        steps += 1;
        assert!(steps < 100, "pipeline did not settle");
        action = match action {
            PipelineAction::EvaluatePolicy { request, subject: _ } => {
                let decision = engine.expect("policy configured").evaluate(&request).unwrap();
                pipeline.step(PipelineEvent::Decision { decision })
            },
            PipelineAction::InvokeTool { name, input } => {
                assert_eq!(name, "echo");
                pipeline.step(PipelineEvent::ToolCompleted { output: input })
            },
            PipelineAction::Infer { request } => {
                assert!(request.messages().len() >= 2);
                pipeline.step(PipelineEvent::Chunk {
                    chunk: mxp_agents::InferenceChunk::new("static-response", true),
                })
            },
            PipelineAction::AwaitChunk => {
                pipeline.step(PipelineEvent::StreamEnded)
            },
            PipelineAction::RecordMemory { record } => {
                written.push(record.clone());
                if let Some(bus) = bus.as_mut() {
                    bus.record(record).unwrap();
                }
                pipeline.step(PipelineEvent::Recorded)
            },
            PipelineAction::Deliver { outcome } => {
                return (Ok(outcome), written);
            },
            PipelineAction::Fail { error } => {
                return (Err(error), written);
            },
        };
    }
}

#[test]
fn executes_call_pipeline() {
    let engine = RuleBasedEngine::new(PolicyDecision::allow());
    let (outcome, _) = drive_pipeline(Some(&engine), false);
    let outcome = outcome.expect("pipeline should complete");
    assert_eq!(outcome.response(), "static-response");
    assert_eq!(outcome.tool_results().len(), 1);
    assert_eq!(outcome.tool_results()[0].name, "echo");
    assert_eq!(outcome.tool_results()[0].output, "{\"value\":1}");
}

#[test]
fn persists_transcript_via_memory_bus() {
    let engine = RuleBasedEngine::new(PolicyDecision::allow());
    let (outcome, written) = drive_pipeline(Some(&engine), true);
    outcome.expect("pipeline should complete");
    assert_eq!(written.len(), 3);
    assert!(matches!(written[0].channel(), MemoryChannel::Input));
    assert!(matches!(written[1].channel(), MemoryChannel::Tool));
    assert!(matches!(written[2].channel(), MemoryChannel::Output));
}

#[test]
fn policy_denies_tool_invocation() {
    let mut engine = RuleBasedEngine::new(PolicyDecision::allow());
    engine.add_rule(
        PolicyRule::new(
            "deny-echo",
            RuleMatcher::for_tool("echo"),
            PolicyDecision::deny("disabled by policy"),
        )
        .unwrap(),
    );
    let (outcome, written) = drive_pipeline(Some(&engine), true);
    let err = outcome.expect_err("policy should deny");
    match err {
        HandlerError::Custom(reason) => {
            assert!(reason.contains("policy denied tool `echo`"), "got: {reason}");
        },
        other => panic!("unexpected error: {other:?}"),
    }
    // The inbound record was written before the denial; no output record
    // follows.
    assert_eq!(written.len(), 1);
    assert!(matches!(written[0].channel(), MemoryChannel::Input));
}

#[test]
fn audit_escalation_carries_reason_and_approvers() {
    let mut engine = RuleBasedEngine::new(PolicyDecision::allow());
    engine.add_rule(
        PolicyRule::new(
            "escalate-everything",
            RuleMatcher::any(),
            PolicyDecision::escalate("needs approval", vec!["secops".to_owned()]),
        )
        .unwrap(),
    );
    let (outcome, _) = drive_pipeline(Some(&engine), false);
    let err = outcome.expect_err("policy should escalate");
    match err {
        HandlerError::Custom(reason) => {
            assert!(reason.contains("policy escalation required"), "got: {reason}");
            assert!(reason.contains("needs approval"), "got: {reason}");
            assert!(reason.contains("secops"), "got: {reason}");
        },
        other => panic!("unexpected error: {other:?}"),
    }
}

#[test]
fn pipeline_without_policy_or_memory_delivers() {
    let (outcome, written) = drive_pipeline(None, false);
    let outcome = outcome.expect("pipeline should complete");
    assert_eq!(outcome.response(), "static-response");
    assert!(written.is_empty());
}

#[test]
fn empty_payload_is_refused() {
    let err = mxp_agents::check_payload(&Vec::new()).expect_err("empty payload");
    match err {
        HandlerError::Custom(reason) => assert_eq!(reason, "call payload missing"),
        other => panic!("unexpected error: {other:?}"),
    }
    assert!(mxp_agents::check_payload(&b"{}".to_vec()).is_ok());
}

#[test]
fn enforce_decision_formats_messages() {
    let allow = PolicyDecision::allow();
    assert!(mxp_agents::enforce_decision(&allow, "tool `echo`").is_ok());

    let deny = PolicyDecision::deny("disabled by policy");
    match mxp_agents::enforce_decision(&deny, "tool `echo`").expect_err("deny") {
        HandlerError::Custom(msg) => {
            assert_eq!(msg, "policy denied tool `echo`: disabled by policy");
        },
        other => panic!("unexpected error: {other:?}"),
    }

    let escalate = PolicyDecision::escalate(
        "needs approval",
        vec!["secops".to_owned(), "legal".to_owned()],
    );
    match mxp_agents::enforce_decision(&escalate, "model `test/static`").expect_err("escalate") {
        HandlerError::Custom(msg) => {
            assert_eq!(
                msg,
                "policy escalation required for model `test/static`: needs approval (approvers: secops, legal)"
            );
        },
        other => panic!("unexpected error: {other:?}"),
    }
}
