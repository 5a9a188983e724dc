//! Call-execution pipeline: policy checks, tool invocation, model
//! inference and memory recording, step by step.
//!
//! The pipeline is a state machine. Each step hands the host an action to
//! perform (evaluate a policy request, invoke a tool, run inference,
//! write a memory record, deliver the outcome); the host performs it and
//! reports the result as the next event. Every decision between actions
//! is made and verified here; the host only moves values.

use vstd::prelude::*;

use vstd::string::StringSliceAdditionalSpecFns;

use crate::adapter::{
    InferenceChunk, InferenceRequest, InferenceRequestModel, MessageRole, PromptMessage,
    PromptMessageModel,
};
use crate::contracts::{ActionModel, PolicyAction, PolicyRequest};
use crate::decision::{DecisionKind, PolicyDecision, PolicyDecisionModel};
use crate::ids::{id_text, AgentId};
use crate::memory_error::MemoryResult;
use crate::mesh::{HandlerError, HandlerResult};
use crate::meta::MetaValue;
use crate::record::{ChannelModel, MemoryChannel, MemoryRecord};
use crate::text::spec_blank;
use crate::tool_registry::{ToolMetadata, ToolRegistry};

verus! {

/// One requested tool invocation of a call payload: the tool name and its
/// input as JSON text.
#[derive(Debug)]
pub struct ToolInvocation {
    /// Name of the tool to invoke.
    pub name: String,
    /// The tool input, as JSON text.
    pub input: String,
}

impl View for ToolInvocation {
    type V = (Seq<char>, Seq<char>);

    open spec fn view(&self) -> (Seq<char>, Seq<char>) {
        (self.name@, self.input@)
    }
}

impl DeepView for ToolInvocation {
    type V = (Seq<char>, Seq<char>);

    open spec fn deep_view(&self) -> (Seq<char>, Seq<char>) {
        self.view()
    }
}

impl Clone for ToolInvocation {
    fn clone(&self) -> (res: Self)
        ensures
            res.name@ == self.name@,
            res.input@ == self.input@,
    {
        ToolInvocation { name: self.name.clone(), input: self.input.clone() }
    }
}

/// A decoded call payload: conversation messages, sampling parameters,
/// and requested tool invocations.
#[derive(Debug)]
pub struct CallPayload {
    /// Conversation messages.
    pub messages: Vec<PromptMessage>,
    /// Optional sampling temperature, as IEEE-754 single-precision bits.
    pub temperature_bits: Option<u32>,
    /// Optional output token budget.
    pub max_output_tokens: Option<u32>,
    /// Requested tool invocations, in order.
    pub tools: Vec<ToolInvocation>,
}

/// Result describing an executed tool invocation.
#[derive(Debug)]
pub struct ToolInvocationResult {
    /// Name of the tool that was invoked.
    pub name: String,
    /// Output produced by the tool, as JSON text.
    pub output: String,
}

impl View for ToolInvocationResult {
    type V = (Seq<char>, Seq<char>);

    open spec fn view(&self) -> (Seq<char>, Seq<char>) {
        (self.name@, self.output@)
    }
}

impl DeepView for ToolInvocationResult {
    type V = (Seq<char>, Seq<char>);

    open spec fn deep_view(&self) -> (Seq<char>, Seq<char>) {
        self.view()
    }
}

impl Clone for ToolInvocationResult {
    fn clone(&self) -> (res: Self)
        ensures
            res.name@ == self.name@,
            res.output@ == self.output@,
    {
        ToolInvocationResult { name: self.name.clone(), output: self.output.clone() }
    }
}

/// Outcome of processing a call message.
#[derive(Debug)]
pub struct CallOutcome {
    response: String,
    tool_results: Vec<ToolInvocationResult>,
}

impl CallOutcome {
    /// The aggregated response text.
    pub closed spec fn spec_response(&self) -> Seq<char> {
        self.response@
    }

    /// The tool results the outcome carries: name and output text pairs,
    /// in invocation order.
    pub closed spec fn spec_results(&self) -> Seq<(Seq<char>, Seq<char>)> {
        self.tool_results.deep_view()
    }

    /// How many tool results the outcome carries.
    pub open spec fn spec_tool_result_count(&self) -> nat {
        self.spec_results().len()
    }

    /// Returns the aggregated model response text.
    pub fn response(&self) -> (r: &str)
        ensures
            r@ == self.spec_response(),
    {
        self.response.as_str()
    }

    /// Returns the tool invocation results executed as part of this call.
    pub fn tool_results(&self) -> (r: &Vec<ToolInvocationResult>)
        ensures
            r.deep_view() == self.spec_results(),
    {
        &self.tool_results
    }
}

/// Checks that a call payload is present: an empty payload is refused
/// with the message the callers expect.
pub fn check_payload(payload: &Vec<u8>) -> (r: HandlerResult<()>)
    ensures
        r is Ok <==> payload@.len() > 0,
        r matches Err(e) ==> e@ == crate::mesh::HandlerErrorModel::Custom(
            "call payload missing"@,
        ),
{
    if payload.len() == 0 {
        Err(HandlerError::custom("call payload missing"))
    } else {
        Ok(())
    }
}

/// The denial message: `policy denied <subject>: <reason>`.
pub open spec fn spec_deny_message(subject: Seq<char>, reason: Option<Seq<char>>) -> Seq<char> {
    "policy denied "@ + subject + ": "@ + (match reason {
        Some(r) => r,
        None => "policy denied the request"@,
    })
}

/// The comma-separated join of labels.
pub open spec fn spec_join_comma(items: Seq<Seq<char>>) -> Seq<char>
    decreases items.len(),
{
    if items.len() == 0 {
        Seq::empty()
    } else if items.len() == 1 {
        items[0]
    } else {
        spec_join_comma(items.drop_last()) + ", "@ + items.last()
    }
}

/// The escalation message: `policy escalation required for <subject>:
/// <reason>`, with the approver list appended when there is one.
pub open spec fn spec_escalation_message(
    subject: Seq<char>,
    reason: Option<Seq<char>>,
    approvers: Seq<Seq<char>>,
) -> Seq<char> {
    let base = match reason {
        Some(r) => r,
        None => "policy escalation required"@,
    };
    let detail = if approvers.len() == 0 {
        base
    } else {
        base + " (approvers: "@ + spec_join_comma(approvers) + ")"@
    };
    "policy escalation required for "@ + subject + ": "@ + detail
}

/// What enforcing a decision yields: nothing for an allow, the exact
/// denial or escalation message otherwise.
pub open spec fn spec_enforce(subject: Seq<char>, d: PolicyDecisionModel) -> Result<
    (),
    Seq<char>,
> {
    match d.kind {
        DecisionKind::Allow => Ok(()),
        DecisionKind::Deny => Err(spec_deny_message(subject, d.reason)),
        DecisionKind::Escalate => Err(spec_escalation_message(subject, d.reason, d.approvals)),
    }
}

/// Joins labels with commas.
#[verifier::loop_isolation(false)]
fn join_comma(items: &Vec<String>) -> (r: String)
    ensures
        r@ == spec_join_comma(items.deep_view()),
{
    let mut out = String::new();
    let n = items.len();
    let mut i: usize = 0;
    while i < n
        invariant
            0 <= i <= n,
            i > 0 ==> out@ =~= spec_join_comma(items.deep_view().take(i as int)),
            i == 0 ==> out@ =~= Seq::<char>::empty(),
        decreases n - i,
    {
        if i > 0 {
            out.append(", ");
        }
        out.append(items[i].as_str());
        proof {
            assert(items.deep_view()[i as int] == items@[i as int]@);
            assert(items.deep_view().take(i as int + 1).drop_last() =~= items.deep_view().take(
                i as int,
            ));
            assert(items.deep_view().take(i as int + 1).last() == items.deep_view()[i as int]);
            assert(out@ =~= spec_join_comma(items.deep_view().take(i as int + 1)));
        }
        i = i + 1;
    }
    proof {
        assert(items.deep_view().take(n as int) =~= items.deep_view());
        if n == 0 {
            assert(out@ =~= spec_join_comma(items.deep_view()));
        }
    }
    out
}

/// Enforces a policy decision for a subject: an allow passes; a denial or
/// escalation fails with the exact user-visible message.
pub fn enforce_decision(decision: &PolicyDecision, subject: &str) -> (r: HandlerResult<()>)
    ensures
        match spec_enforce(subject@, decision@) {
            Ok(()) => r is Ok,
            Err(msg) => r matches Err(e) && e@ == crate::mesh::HandlerErrorModel::Custom(msg),
        },
{
    match decision.kind() {
        DecisionKind::Allow => Ok(()),
        DecisionKind::Deny => {
            let mut msg = String::from_str("policy denied ");
            msg.append(subject);
            msg.append(": ");
            match decision.reason() {
                Some(reason) => {
                    msg.append(reason);
                },
                None => {
                    msg.append("policy denied the request");
                },
            }
            proof {
                assert(msg@ =~= spec_deny_message(subject@, decision@.reason));
            }
            Err(HandlerError::Custom(msg))
        },
        DecisionKind::Escalate => {
            let mut msg = String::from_str("policy escalation required for ");
            msg.append(subject);
            msg.append(": ");
            match decision.reason() {
                Some(reason) => {
                    msg.append(reason);
                },
                None => {
                    msg.append("policy escalation required");
                },
            }
            let approvers = decision.required_approvals();
            if approvers.len() > 0 {
                msg.append(" (approvers: ");
                let joined = join_comma(approvers);
                msg.append(joined.as_str());
                msg.append(")");
            }
            proof {
                assert(msg@ =~= spec_escalation_message(
                    subject@,
                    decision@.reason,
                    decision@.approvals,
                ));
            }
            Err(HandlerError::Custom(msg))
        },
    }
}

/// Builds the message of a failed tool call: `tool \`<name>\` failed:
/// <reason>`.
pub fn tool_failure_error(name: &str, reason: &str) -> (r: HandlerError)
    ensures
        r@ == crate::mesh::HandlerErrorModel::Custom(
            "tool `"@ + name@ + "` failed: "@ + reason@,
        ),
{
    let mut msg = String::from_str("tool `");
    msg.append(name);
    msg.append("` failed: ");
    msg.append(reason);
    HandlerError::Custom(msg)
}

/// Builds the message of a failed adapter call: `adapter \`<provider>\`
/// for model \`<model>\` error: <reason>`.
pub fn adapter_failure_error(provider: &str, model: &str, reason: &str) -> (r: HandlerError)
    ensures
        r@ == crate::mesh::HandlerErrorModel::Custom(
            "adapter `"@ + provider@ + "` for model `"@ + model@ + "` error: "@ + reason@,
        ),
{
    let mut msg = String::from_str("adapter `");
    msg.append(provider);
    msg.append("` for model `");
    msg.append(model);
    msg.append("` error: ");
    msg.append(reason);
    HandlerError::Custom(msg)
}

/// Builds the message of a failed memory operation: `memory error:
/// <reason>`.
pub fn memory_failure_error(reason: &str) -> (r: HandlerError)
    ensures
        r@ == crate::mesh::HandlerErrorModel::Custom("memory error: "@ + reason@),
{
    let mut msg = String::from_str("memory error: ");
    msg.append(reason);
    HandlerError::Custom(msg)
}

/// Builds the message of a failed policy engine call: `policy engine
/// error: <reason>`.
pub fn policy_failure_error(reason: &str) -> (r: HandlerError)
    ensures
        r@ == crate::mesh::HandlerErrorModel::Custom("policy engine error: "@ + reason@),
{
    let mut msg = String::from_str("policy engine error: ");
    msg.append(reason);
    HandlerError::Custom(msg)
}

/// Builds the policy request guarding one tool invocation: the action
/// names the tool; the metadata carries the input and, when the tool is
/// registered, its version, any description and its capability
/// identifiers; one `cap:<id>` tag is added per capability.
#[verifier::loop_isolation(false)]
pub fn build_tool_policy_request(
    agent_id: AgentId,
    invocation: &ToolInvocation,
    info: &Option<ToolMetadata>,
) -> (r: PolicyRequest)
    ensures
        r@.agent_id == agent_id,
        r@.action == crate::contracts::ActionModel::InvokeTool(invocation.name@),
        forall|tg: Seq<char>| #[trigger]
            r@.context.tags.contains(tg) <==> (match info {
                Some(m) => exists|k: int|
                    0 <= k < m@.capabilities.len() && tg == "cap:"@ + #[trigger] m@.capabilities[k],
                None => false,
            }),
{
    proof {
        reveal_strlit("cap:");
    }
    let mut request = PolicyRequest::new(
        agent_id,
        PolicyAction::InvokeTool { name: invocation.name.clone() },
    );
    request = request.with_metadata("input", MetaValue::Text(invocation.input.clone()));
    match info {
        Some(metadata) => {
            request = request.with_metadata(
                "tool_version",
                MetaValue::Text(metadata.version().to_owned()),
            );
            match metadata.description() {
                Some(description) => {
                    request = request.with_metadata(
                        "tool_description",
                        MetaValue::Text(description.to_owned()),
                    );
                },
                None => {},
            }
            let caps = metadata.capabilities();
            let ghost cap_texts = metadata@.capabilities;
            if caps.len() > 0 {
                let mut labels: Vec<String> = Vec::new();
                let mut tags: Vec<String> = Vec::new();
                let n = caps.len();
                let mut i: usize = 0;
                while i < n
                    invariant
                        0 <= i <= n,
                        tags@.len() == i,
                        forall|k: int|
                            0 <= k < i ==> (#[trigger] tags@[k])@ == "cap:"@ + cap_texts[k],
                    decreases n - i,
                {
                    labels.push(caps[i].as_str().to_owned());
                    let mut tag = String::from_str("cap:");
                    tag.append(caps[i].as_str());
                    tags.push(tag);
                    i = i + 1;
                }
                request = request.with_metadata("capabilities", MetaValue::Labels(labels));
                let ghost before_tags = request@.context.tags;
                request = request.with_tags(&tags);
                proof {
                    assert(before_tags.len() == 0);
                    assert forall|tg: Seq<char>| #[trigger]
                        request@.context.tags.contains(tg) <==> (exists|k: int|
                        0 <= k < cap_texts.len() && tg == "cap:"@ + #[trigger] cap_texts[k]) by {
                        if request@.context.tags.contains(tg) {
                            let j = choose|j: int|
                                0 <= j < tags@.len() && #[trigger] tags.deep_view()[j] == tg
                                    && !spec_blank(tg);
                            assert(tags.deep_view()[j] == tags@[j]@);
                            assert(tg == "cap:"@ + cap_texts[j]);
                        }
                        if exists|k: int|
                            0 <= k < cap_texts.len() && tg == "cap:"@ + #[trigger] cap_texts[k] {
                            let k = choose|k: int|
                                0 <= k < cap_texts.len() && tg == "cap:"@
                                    + #[trigger] cap_texts[k];
                            assert(tg[0] == 'c');
                            assert(!crate::text::is_space_char(tg[0]));
                            assert(!spec_blank(tg));
                            assert(tags.deep_view()[k] == tg);
                        }
                    }
                }
            } else {
                proof {
                    assert(request@.context.tags.len() == 0);
                }
            }
        },
        None => {
            proof {
                assert(request@.context.tags.len() == 0);
            }
        },
    }
    request
}

/// Builds the policy request guarding model inference: the action names
/// the adapter's provider and model; the metadata carries the message
/// count and, when tools ran, their names; one `tool:<name>` tag is added
/// per tool.
#[verifier::loop_isolation(false)]
pub fn build_inference_policy_request(
    agent_id: AgentId,
    provider: &str,
    model: &str,
    message_count: u64,
    tool_names: &Vec<String>,
) -> (r: PolicyRequest)
    ensures
        r@.agent_id == agent_id,
        r@.action == crate::contracts::ActionModel::ModelInference(provider@, model@),
        forall|tg: Seq<char>| #[trigger]
            r@.context.tags.contains(tg) <==> (exists|k: int|
                0 <= k < tool_names@.len() && tg == "tool:"@
                    + #[trigger] tool_names.deep_view()[k]),
{
    proof {
        reveal_strlit("tool:");
    }
    let mut request = PolicyRequest::new(
        agent_id,
        PolicyAction::ModelInference { provider: provider.to_owned(), model: model.to_owned() },
    );
    request = request.with_metadata("message_count", MetaValue::Count(message_count));
    if tool_names.len() > 0 {
        let names = tool_names.clone();
        request = request.with_metadata("tools", MetaValue::Labels(names));
        let mut tags: Vec<String> = Vec::new();
        let n = tool_names.len();
        let mut i: usize = 0;
        while i < n
            invariant
                0 <= i <= n,
                tags@.len() == i,
                forall|k: int|
                    0 <= k < i ==> (#[trigger] tags@[k])@ == "tool:"@ + tool_names.deep_view()[k],
            decreases n - i,
        {
            let mut tag = String::from_str("tool:");
            tag.append(tool_names[i].as_str());
            proof {
                assert(tool_names.deep_view()[i as int] == tool_names@[i as int]@);
            }
            tags.push(tag);
            i = i + 1;
        }
        let ghost before_tags = request@.context.tags;
        request = request.with_tags(&tags);
        proof {
            assert(before_tags.len() == 0);
            assert forall|tg: Seq<char>| #[trigger]
                request@.context.tags.contains(tg) <==> (exists|k: int|
                0 <= k < tool_names@.len() && tg == "tool:"@
                    + #[trigger] tool_names.deep_view()[k]) by {
                if request@.context.tags.contains(tg) {
                    let j = choose|j: int|
                        0 <= j < tags@.len() && #[trigger] tags.deep_view()[j] == tg
                            && !spec_blank(tg);
                    assert(tags.deep_view()[j] == tags@[j]@);
                    assert(tg == "tool:"@ + tool_names.deep_view()[j]);
                }
                if exists|k: int|
                    0 <= k < tool_names@.len() && tg == "tool:"@
                        + #[trigger] tool_names.deep_view()[k] {
                    let k = choose|k: int|
                        0 <= k < tool_names@.len() && tg == "tool:"@
                            + #[trigger] tool_names.deep_view()[k];
                    assert(tg[0] == 't');
                    assert(!crate::text::is_space_char(tg[0]));
                    assert(!spec_blank(tg));
                    assert(tags.deep_view()[k] == tg);
                }
            }
        }
    } else {
        proof {
            assert(request@.context.tags.len() == 0);
        }
    }
    request
}

/// Builds the inbound-transcript record for a call: an `Input` record
/// holding the raw payload, tagged `mxp.call`, with direction, message
/// type and agent identity in the metadata.
pub fn build_inbound_record(agent_id: AgentId, raw_payload: &Vec<u8>) -> (r: MemoryResult<
    MemoryRecord,
>)
    ensures
        r matches Ok(rec) ==> {
            &&& rec@.channel is Input
            &&& rec@.payload == raw_payload@
            &&& rec@.tags =~= seq!["mxp.call"@]
            &&& rec@.embedding is None
        },
        r is Ok,
{
    proof {
        reveal_strlit("mxp.call");
    }
    let builder = MemoryRecord::builder(MemoryChannel::Input, raw_payload.clone());
    let builder = match builder.tag("mxp.call") {
        Ok(b) => b,
        Err(e) => {
            // Unreachable: the tag literal is never blank.
            proof {
                assert(!crate::text::is_space_char("mxp.call"@[0]));
                assert(!spec_blank("mxp.call"@));
                assert(false);
            }
            return Err(e);
        },
    };
    let builder = builder.metadata("direction", MetaValue::Text(String::from_str("inbound")));
    let builder = builder.metadata("message_type", MetaValue::Text(String::from_str("call")));
    let builder = builder.metadata("agent_id", MetaValue::Text(id_text(agent_id.as_bits())));
    let rec = match builder.build() {
        Ok(rec) => rec,
        Err(e) => {
            // Unreachable: building never fails.
            proof {
                assert(false);
            }
            return Err(e);
        },
    };
    proof {
        assert(rec@.tags =~= seq!["mxp.call"@]);
    }
    Ok(rec)
}

/// Builds a tool-transcript record: a `Tool` record holding the output
/// JSON bytes, tagged `mxp.call` and `tool`, with the direction and tool
/// name in the metadata.
pub fn build_tool_record(name: &str, output: &str) -> (r: MemoryResult<MemoryRecord>)
    ensures
        r matches Ok(rec) ==> {
            &&& rec@.channel is Tool
            &&& rec@.payload == output.spec_bytes()
            &&& rec@.tags =~= seq!["mxp.call"@, "tool"@]
            &&& rec@.embedding is None
        },
        r is Ok,
{
    proof {
        reveal_strlit("mxp.call");
        reveal_strlit("tool");
    }
    let payload = output.as_bytes_vec();
    let builder = MemoryRecord::builder(MemoryChannel::Tool, payload);
    let builder = match builder.tag("mxp.call") {
        Ok(b) => b,
        Err(e) => {
            // Unreachable: the tag literal is never blank.
            proof {
                assert(!crate::text::is_space_char("mxp.call"@[0]));
                assert(false);
            }
            return Err(e);
        },
    };
    let builder = match builder.tag("tool") {
        Ok(b) => b,
        Err(e) => {
            // Unreachable: the tag literal is never blank.
            proof {
                assert(!crate::text::is_space_char("tool"@[0]));
                assert(false);
            }
            return Err(e);
        },
    };
    let builder = builder.metadata("direction", MetaValue::Text(String::from_str("tool")));
    let builder = builder.metadata("tool_name", MetaValue::Text(name.to_owned()));
    let rec = match builder.build() {
        Ok(rec) => rec,
        Err(e) => {
            // Unreachable: building never fails.
            proof {
                assert(false);
            }
            return Err(e);
        },
    };
    proof {
        assert(rec@.tags =~= seq!["mxp.call"@, "tool"@]);
    }
    Ok(rec)
}

/// Builds the outbound-transcript record: an `Output` record holding the
/// response text bytes, tagged `mxp.call`, with direction and message
/// type in the metadata.
pub fn build_output_record(response: &str) -> (r: MemoryResult<MemoryRecord>)
    ensures
        r matches Ok(rec) ==> {
            &&& rec@.channel is Output
            &&& rec@.payload == response.spec_bytes()
            &&& rec@.tags =~= seq!["mxp.call"@]
            &&& rec@.embedding is None
        },
        r is Ok,
{
    proof {
        reveal_strlit("mxp.call");
    }
    let payload = response.as_bytes_vec();
    let builder = MemoryRecord::builder(MemoryChannel::Output, payload);
    let builder = match builder.tag("mxp.call") {
        Ok(b) => b,
        Err(e) => {
            // Unreachable: the tag literal is never blank.
            proof {
                assert(!crate::text::is_space_char("mxp.call"@[0]));
                assert(false);
            }
            return Err(e);
        },
    };
    let builder = builder.metadata("direction", MetaValue::Text(String::from_str("outbound")));
    let builder = builder.metadata("message_type", MetaValue::Text(String::from_str("call")));
    let rec = match builder.build() {
        Ok(rec) => rec,
        Err(e) => {
            // Unreachable: building never fails.
            proof {
                assert(false);
            }
            return Err(e);
        },
    };
    proof {
        assert(rec@.tags =~= seq!["mxp.call"@]);
    }
    Ok(rec)
}

/// Builds the inference request from the conversation and the payload's
/// sampling parameters; fails exactly when the message list is empty.
pub fn build_inference_request(
    messages: Vec<PromptMessage>,
    temperature_bits: Option<u32>,
    max_output_tokens: Option<u32>,
    tool_names: &Vec<String>,
) -> (r: HandlerResult<InferenceRequest>)
    ensures
        r is Ok <==> messages@.len() >= 1,
        r matches Err(e) ==> e@ == crate::mesh::HandlerErrorModel::Custom(
            "invalid request: inference request requires at least one message"@,
        ),
        r matches Ok(req) ==> req@ == (InferenceRequestModel {
            system_prompt: None,
            messages: messages.deep_view(),
            max_output_tokens,
            temperature_bits,
            tools: if tool_names.deep_view().len() > 0 {
                tool_names.deep_view()
            } else {
                Seq::<Seq<char>>::empty()
            },
        }),
{
    let mut request = match InferenceRequest::new(messages) {
        Ok(req) => req,
        Err(_) => {
            return Err(HandlerError::custom(
                "invalid request: inference request requires at least one message",
            ));
        },
    };
    match max_output_tokens {
        Some(tokens) => {
            request = request.with_max_output_tokens(tokens);
        },
        None => {},
    }
    match temperature_bits {
        Some(bits) => {
            request = request.with_temperature(bits);
        },
        None => {},
    }
    if tool_names.len() > 0 {
        let names = tool_names.clone();
        proof {
            assert(names.deep_view() =~= tool_names.deep_view());
        }
        request = request.with_tools(names);
    }
    Ok(request)
}

/// The transcript a complete call with `t` tool invocations writes: one
/// `Input` record, `t` `Tool` records, one `Output` record, in that
/// order.
pub open spec fn expected_transcript(t: nat) -> Seq<ChannelModel> {
    seq![ChannelModel::Input] + Seq::new(t, |i: int| ChannelModel::Tool) + seq![
        ChannelModel::Output,
    ]
}

} // verus!

verus! {

/// The next thing the host must do for the pipeline.
#[derive(Debug)]
pub enum PipelineAction {
    /// Evaluate the policy request (through whatever engine is installed)
    /// and report the decision; the subject label is for observers.
    EvaluatePolicy {
        /// The request to evaluate.
        request: PolicyRequest,
        /// The human-readable subject label.
        subject: String,
    },
    /// Invoke the named tool with the given JSON input.
    InvokeTool {
        /// The tool name.
        name: String,
        /// The input, as JSON text.
        input: String,
    },
    /// Run model inference for the request and feed the chunks back.
    Infer {
        /// The inference request.
        request: InferenceRequest,
    },
    /// Read the next chunk of the inference stream.
    AwaitChunk,
    /// Write the record to the memory bus.
    RecordMemory {
        /// The record to write.
        record: MemoryRecord,
    },
    /// Hand the outcome to the outcome sink; the pipeline is complete.
    Deliver {
        /// The completed outcome.
        outcome: CallOutcome,
    },
    /// The pipeline failed; propagate the error. No outcome is delivered.
    Fail {
        /// The error to propagate.
        error: HandlerError,
    },
}

/// What the host reports back after performing an action.
#[derive(Debug)]
pub enum PipelineEvent {
    /// The policy engine produced a decision.
    Decision {
        /// The decision.
        decision: PolicyDecision,
    },
    /// The policy engine itself failed.
    PolicyFailed {
        /// The engine's error text.
        reason: String,
    },
    /// The tool completed with the given JSON output.
    ToolCompleted {
        /// The output, as JSON text.
        output: String,
    },
    /// The tool failed.
    ToolFailed {
        /// The tool's error text.
        reason: String,
    },
    /// The memory record was written.
    Recorded,
    /// The memory write failed.
    RecordFailed {
        /// The memory error text.
        reason: String,
    },
    /// The inference stream produced a chunk.
    Chunk {
        /// The chunk.
        chunk: InferenceChunk,
    },
    /// The inference stream ended without a final chunk.
    StreamEnded,
    /// The adapter call failed.
    InferFailed {
        /// The adapter's error text.
        reason: String,
    },
}

/// Where the pipeline stands.
#[derive(Debug, Clone, Copy, PartialEq, Eq, Structural)]
enum Phase {
    /// Constructed, nothing emitted yet.
    Start,
    /// Awaiting the memory-policy decision for the inbound record.
    InboundPolicy,
    /// Awaiting the inbound record write.
    InboundRecord,
    /// Awaiting the tool-policy decision for invocation `i`.
    ToolPolicy(usize),
    /// Awaiting the result of tool invocation `i`.
    ToolRun(usize),
    /// Awaiting the inference-policy decision.
    InferencePolicy,
    /// Awaiting inference chunks.
    Inferring,
    /// Awaiting the memory-policy decision for tool record `i`.
    OutboundToolPolicy(usize),
    /// Awaiting the write of tool record `i`.
    OutboundToolRecord(usize),
    /// Awaiting the memory-policy decision for the output record.
    OutputPolicy,
    /// Awaiting the output record write.
    OutputRecord,
    /// The outcome was handed over.
    Done,
    /// The pipeline failed.
    Failed,
}

/// The transcript prefix present before any outbound record: the inbound
/// record when memory is configured, nothing otherwise.
pub open spec fn inbound_prefix(memory_configured: bool) -> Seq<ChannelModel> {
    if memory_configured {
        seq![ChannelModel::Input]
    } else {
        Seq::empty()
    }
}

/// `n` tool-channel markers.
pub open spec fn tool_markers(n: nat) -> Seq<ChannelModel> {
    Seq::new(n, |i: int| ChannelModel::Tool)
}

/// The call-execution pipeline: decides every transition of one call,
/// from the inbound transcript record through tool invocations and
/// inference to the outbound records and the delivered outcome.
pub struct CallPipeline {
    agent_id: AgentId,
    provider: String,
    model: String,
    policy_configured: bool,
    memory_configured: bool,
    requested_tools: Vec<ToolInvocation>,
    tool_info: Vec<Option<ToolMetadata>>,
    temperature_bits: Option<u32>,
    max_output_tokens: Option<u32>,
    raw_payload: Vec<u8>,
    messages: Vec<PromptMessage>,
    tool_names: Vec<String>,
    tool_results: Vec<ToolInvocationResult>,
    response: String,
    pending_record: Option<MemoryRecord>,
    pending_subject: String,
    phase: Phase,
    emitted: Ghost<Seq<ChannelModel>>,
}

impl CallPipeline {
    /// Whether the outcome has been handed over.
    pub closed spec fn spec_done(&self) -> bool {
        self.phase is Done
    }

    /// Whether the pipeline has failed.
    pub closed spec fn spec_failed(&self) -> bool {
        self.phase is Failed
    }

    /// Whether the pipeline has not been started yet.
    pub closed spec fn spec_at_start(&self) -> bool {
        self.phase is Start
    }

    /// Whether the pipeline is waiting for a policy decision.
    pub closed spec fn spec_awaiting_decision(&self) -> bool {
        match self.phase {
            Phase::InboundPolicy => true,
            Phase::ToolPolicy(_) => true,
            Phase::InferencePolicy => true,
            Phase::OutboundToolPolicy(_) => true,
            Phase::OutputPolicy => true,
            _ => false,
        }
    }

    /// The subject label of the decision being awaited.
    pub closed spec fn spec_subject(&self) -> Seq<char> {
        self.pending_subject@
    }

    /// Whether a memory bus is configured.
    pub closed spec fn spec_memory_configured(&self) -> bool {
        self.memory_configured
    }

    /// Whether a policy engine is configured.
    pub closed spec fn spec_policy_configured(&self) -> bool {
        self.policy_configured
    }

    /// How many tool invocations the payload requested.
    pub closed spec fn spec_tool_count(&self) -> nat {
        self.requested_tools@.len()
    }

    /// The channels of the memory records emitted so far, in order.
    pub closed spec fn spec_emitted(&self) -> Seq<ChannelModel> {
        self.emitted@
    }

    /// The response text accumulated from the inference chunks.
    pub closed spec fn spec_response(&self) -> Seq<char> {
        self.response@
    }

    /// Whether the pipeline is consuming the inference stream.
    pub closed spec fn spec_inferring(&self) -> bool {
        self.phase is Inferring
    }

    /// The tool results collected so far: name and output text pairs.
    pub closed spec fn spec_tool_results(&self) -> Seq<(Seq<char>, Seq<char>)> {
        self.tool_results.deep_view()
    }

    /// How many tool results have been collected.
    pub open spec fn spec_tool_results_len(&self) -> nat {
        self.spec_tool_results().len()
    }

    /// The requested tool invocations: name and input text pairs.
    pub closed spec fn spec_requested(&self) -> Seq<(Seq<char>, Seq<char>)> {
        self.requested_tools.deep_view()
    }

    /// The index of the tool invocation currently running, if one is.
    pub closed spec fn spec_running_tool(&self) -> Option<int> {
        match self.phase {
            Phase::ToolRun(i) => Some(i as int),
            _ => None,
        }
    }

    /// The index of the tool invocation whose policy decision is awaited,
    /// if one is.
    pub closed spec fn spec_awaiting_tool_policy(&self) -> Option<int> {
        match self.phase {
            Phase::ToolPolicy(i) => Some(i as int),
            _ => None,
        }
    }

    /// Whether the inference-policy decision is awaited.
    pub closed spec fn spec_awaiting_inference_policy(&self) -> bool {
        self.phase is InferencePolicy
    }

    /// Whether a memory-policy decision is awaited (for the inbound, a
    /// tool, or the output record).
    pub closed spec fn spec_awaiting_memory_policy(&self) -> bool {
        match self.phase {
            Phase::InboundPolicy => true,
            Phase::OutboundToolPolicy(_) => true,
            Phase::OutputPolicy => true,
            _ => false,
        }
    }

    /// Whether the inbound record's write is awaited.
    pub closed spec fn spec_recording_inbound(&self) -> bool {
        self.phase is InboundRecord
    }

    /// The index of the tool record whose write is awaited, if one is.
    pub closed spec fn spec_recording_outbound_tool(&self) -> Option<int> {
        match self.phase {
            Phase::OutboundToolRecord(i) => Some(i as int),
            _ => None,
        }
    }

    /// Whether the output record's write is awaited.
    pub closed spec fn spec_recording_output(&self) -> bool {
        self.phase is OutputRecord
    }

    /// The record awaiting its memory-policy decision, if one is pending.
    pub closed spec fn spec_pending_record(&self) -> Option<crate::record::MemoryRecordModel> {
        match self.pending_record {
            Some(r) => Some(r@),
            None => None,
        }
    }

    /// The conversation as it stands: the payload messages plus one tool
    /// message per completed invocation.
    pub closed spec fn spec_conversation(&self) -> Seq<PromptMessageModel> {
        self.messages.deep_view()
    }

    /// The names of the tools that have completed, in order.
    pub closed spec fn spec_tool_names(&self) -> Seq<Seq<char>> {
        self.tool_names.deep_view()
    }

    /// The raw call payload bytes the inbound record holds.
    pub closed spec fn spec_raw_payload(&self) -> Seq<u8> {
        self.raw_payload@
    }

    /// The adapter's provider label.
    pub closed spec fn spec_provider(&self) -> Seq<char> {
        self.provider@
    }

    /// The adapter's model identifier.
    pub closed spec fn spec_model(&self) -> Seq<char> {
        self.model@
    }

    /// The payload's sampling temperature, as IEEE-754 bits.
    pub closed spec fn spec_temperature_bits(&self) -> Option<u32> {
        self.temperature_bits
    }

    /// The payload's output token budget.
    pub closed spec fn spec_max_output_tokens(&self) -> Option<u32> {
        self.max_output_tokens
    }

    /// The pipeline invariant: each phase pins the transcript emitted so
    /// far and the progress counters.
    pub closed spec fn wf(&self) -> bool {
        let mem = self.memory_configured;
        let t = self.requested_tools@.len();
        &&& (self.spec_awaiting_decision() ==> self.policy_configured)
        &&& self.tool_info@.len() == self.requested_tools@.len()
        &&& match self.phase {
            Phase::Start => {
                &&& self.emitted@ == Seq::<ChannelModel>::empty()
                &&& self.tool_results@.len() == 0
                &&& self.tool_names@.len() == 0
            },
            Phase::InboundPolicy => {
                &&& mem
                &&& self.emitted@ == Seq::<ChannelModel>::empty()
                &&& self.tool_results@.len() == 0
                &&& self.tool_names@.len() == 0
                &&& self.pending_record matches Some(rec) && rec@.channel is Input
            },
            Phase::InboundRecord => {
                &&& mem
                &&& self.emitted@ == seq![ChannelModel::Input]
                &&& self.tool_results@.len() == 0
                &&& self.tool_names@.len() == 0
            },
            Phase::ToolPolicy(i) => {
                &&& i < t
                &&& self.tool_results@.len() == i
                &&& self.tool_names@.len() == i
                &&& self.emitted@ == inbound_prefix(mem)
            },
            Phase::ToolRun(i) => {
                &&& i < t
                &&& self.tool_results@.len() == i
                &&& self.tool_names@.len() == i
                &&& self.emitted@ == inbound_prefix(mem)
            },
            Phase::InferencePolicy => {
                &&& self.tool_results@.len() == t
                &&& self.emitted@ == inbound_prefix(mem)
            },
            Phase::Inferring => {
                &&& self.tool_results@.len() == t
                &&& self.emitted@ == inbound_prefix(mem)
            },
            Phase::OutboundToolPolicy(i) => {
                &&& mem
                &&& i < self.tool_results@.len()
                &&& self.tool_results@.len() == t
                &&& self.emitted@ == inbound_prefix(mem) + tool_markers(i as nat)
                &&& self.pending_record matches Some(rec) && rec@.channel is Tool
            },
            Phase::OutboundToolRecord(i) => {
                &&& mem
                &&& i < self.tool_results@.len()
                &&& self.tool_results@.len() == t
                &&& self.emitted@ == inbound_prefix(mem) + tool_markers((i + 1) as nat)
            },
            Phase::OutputPolicy => {
                &&& mem
                &&& self.tool_results@.len() == t
                &&& self.emitted@ == inbound_prefix(mem) + tool_markers(t)
                &&& self.pending_record matches Some(rec) && rec@.channel is Output
            },
            Phase::OutputRecord => {
                &&& mem
                &&& self.tool_results@.len() == t
                &&& self.emitted@ == inbound_prefix(mem) + tool_markers(t) + seq![
                    ChannelModel::Output,
                ]
            },
            Phase::Done => {
                &&& (mem ==> self.tool_results@.len() == t && self.emitted@
                    == expected_transcript(t))
                &&& (!mem ==> self.emitted@ == Seq::<ChannelModel>::empty())
            },
            Phase::Failed => true,
        }
    }

    /// Creates the pipeline for one decoded call: the adapter identity
    /// names the inference subject, the flags say whether a policy engine
    /// and a memory bus are installed, and any registry supplies tool
    /// metadata for the tool-policy requests.
    pub fn new(
        agent_id: AgentId,
        payload: CallPayload,
        raw_payload: Vec<u8>,
        provider: &str,
        model: &str,
        policy_configured: bool,
        memory_configured: bool,
        registry: Option<&ToolRegistry>,
    ) -> (r: CallPipeline)
        ensures
            r.wf(),
            r.spec_at_start(),
            r.spec_memory_configured() == memory_configured,
            r.spec_policy_configured() == policy_configured,
            r.spec_tool_count() == payload.tools@.len(),
            r.spec_requested() == payload.tools.deep_view(),
            r.spec_conversation() == payload.messages.deep_view(),
            r.spec_raw_payload() == raw_payload@,
            r.spec_temperature_bits() == payload.temperature_bits,
            r.spec_max_output_tokens() == payload.max_output_tokens,
            r.spec_provider() == provider@,
            r.spec_model() == model@,
            r.spec_response() == Seq::<char>::empty(),
            r.spec_tool_results() == Seq::<(Seq<char>, Seq<char>)>::empty(),
            r.spec_tool_names() == Seq::<Seq<char>>::empty(),
    {
        let CallPayload { messages, temperature_bits, max_output_tokens, tools } = payload;
        let mut tool_info: Vec<Option<ToolMetadata>> = Vec::new();
        let n = tools.len();
        let mut i: usize = 0;
        while i < n
            invariant
                0 <= i <= n,
                n == tools@.len(),
                tool_info@.len() == i,
            decreases n - i,
        {
            let info = match registry {
                Some(reg) => reg.get(tools[i].name.as_str()),
                None => None,
            };
            tool_info.push(info);
            i = i + 1;
        }
        let r = CallPipeline {
            agent_id,
            provider: provider.to_owned(),
            model: model.to_owned(),
            policy_configured,
            memory_configured,
            requested_tools: tools,
            tool_info,
            temperature_bits,
            max_output_tokens,
            raw_payload,
            messages,
            tool_names: Vec::new(),
            tool_results: Vec::new(),
            response: String::new(),
            pending_record: None,
            pending_subject: String::new(),
            phase: Phase::Start,
            emitted: Ghost(Seq::empty()),
        };
        r
    }

    /// Emits the action that checks and writes a pending memory record:
    /// the memory-policy evaluation when a policy engine is installed
    /// (entering `policy_phase`), the write itself otherwise (entering
    /// `record_phase` directly).
    fn emit_record_stage(&mut self, record: MemoryRecord, policy_phase: Phase, record_phase: Phase)
        -> (a: PipelineAction)
        ensures
            final(self).policy_configured == old(self).policy_configured,
            final(self).memory_configured == old(self).memory_configured,
            final(self).agent_id == old(self).agent_id,
            final(self).requested_tools == old(self).requested_tools,
            final(self).tool_info == old(self).tool_info,
            final(self).messages == old(self).messages,
            final(self).tool_names == old(self).tool_names,
            final(self).tool_results == old(self).tool_results,
            final(self).response == old(self).response,
            final(self).provider == old(self).provider,
            final(self).model == old(self).model,
            final(self).temperature_bits == old(self).temperature_bits,
            final(self).max_output_tokens == old(self).max_output_tokens,
            final(self).raw_payload == old(self).raw_payload,
            final(self).phase == (if old(self).policy_configured {
                policy_phase
            } else {
                record_phase
            }),
            old(self).policy_configured ==> final(self).pending_record == Some(record),
            !old(self).policy_configured ==> final(self).pending_record == old(self).pending_record,
            old(self).spec_policy_configured() ==> (match a {
                PipelineAction::EvaluatePolicy { request, subject } => final(self).emitted@ == old(self).emitted@ && subject@ == final(self).pending_subject@ && request@.action
                    == ActionModel::EmitEvent("memory_record"@),
                _ => false,
            }),
            !old(self).spec_policy_configured() ==> (match a {
                PipelineAction::RecordMemory { record: rec } => rec@ == record@ && final(self).emitted@ == old(self).emitted@.push(record@.channel) && final(self).pending_subject@ == old(self).pending_subject@,
                _ => false,
            }),
    {
        if self.policy_configured {
            let request = PolicyRequest::from_memory_record(self.agent_id, &record);
            let subject = request.action().label();
            self.pending_subject = subject.clone();
            self.pending_record = Some(record);
            self.phase = policy_phase;
            PipelineAction::EvaluatePolicy { request, subject }
        } else {
            proof {
                self.emitted@ = self.emitted@.push(record@.channel);
            }
            self.phase = record_phase;
            PipelineAction::RecordMemory { record }
        }
    }
}

} // verus!

verus! {

impl CallPipeline {
    /// Starts the pipeline, returning the first action for the host.
    pub fn start(&mut self) -> (a: PipelineAction)
        requires
            old(self).wf(),
            old(self).spec_at_start(),
        ensures
            final(self).wf(),
            !final(self).spec_at_start(),
            final(self).spec_memory_configured() == old(self).spec_memory_configured(),
            final(self).spec_policy_configured() == old(self).spec_policy_configured(),
            final(self).spec_tool_count() == old(self).spec_tool_count(),
            old(self).spec_memory_configured() ==> spec_record_stage(
                *old(self),
                *final(self),
                a,
                ChannelModel::Input,
                old(self).spec_raw_payload(),
            ),
            !old(self).spec_memory_configured() ==> spec_stage_after_tools(
                *old(self),
                *final(self),
                a,
                0,
            ),
    {
        if self.memory_configured {
            match build_inbound_record(self.agent_id, &self.raw_payload) {
                Ok(rec) => {
                    proof {
                        assert(rec@.payload == old(self).spec_raw_payload());
                    }
                    let a = self.emit_record_stage(rec, Phase::InboundPolicy, Phase::InboundRecord);
                    proof {
                        if !self.policy_configured {
                            assert(self.emitted@ =~= seq![ChannelModel::Input]);
                        }
                    }
                    a
                },
                Err(_) => {
                    proof {
                        assert(false);
                    }
                    self.phase = Phase::Failed;
                    PipelineAction::Fail { error: HandlerError::custom("memory error") }
                },
            }
        } else {
            self.begin_tools(0)
        }
    }

    /// Emits the next tool stage, or moves on to inference when every
    /// requested invocation has run.
    fn begin_tools(&mut self, i: usize) -> (a: PipelineAction)
        requires
            old(self).wf_config(),
            old(self).tool_results@.len() == i,
            old(self).tool_names@.len() == i,
            i <= old(self).requested_tools@.len(),
            old(self).emitted@ == inbound_prefix(old(self).memory_configured),
        ensures
            final(self).wf(),
            !final(self).spec_at_start(),
            final(self).spec_memory_configured() == old(self).spec_memory_configured(),
            final(self).spec_policy_configured() == old(self).spec_policy_configured(),
            final(self).spec_tool_count() == old(self).spec_tool_count(),
            final(self).spec_tool_results() == old(self).spec_tool_results(),
            !(a is Deliver),
            spec_stage_after_tools(*old(self), *final(self), a, i as int),
            spec_inputs_unchanged(*old(self), *final(self)),
    {
        if i < self.requested_tools.len() {
            if self.policy_configured {
                let request = build_tool_policy_request(
                    self.agent_id,
                    &self.requested_tools[i],
                    &self.tool_info[i],
                );
                let subject = request.action().label();
                self.pending_subject = subject.clone();
                self.phase = Phase::ToolPolicy(i);
                PipelineAction::EvaluatePolicy { request, subject }
            } else {
                self.phase = Phase::ToolRun(i);
                PipelineAction::InvokeTool {
                    name: self.requested_tools[i].name.clone(),
                    input: self.requested_tools[i].input.clone(),
                }
            }
        } else {
            self.begin_inference()
        }
    }

    /// Emits the inference-policy stage, or inference itself when no
    /// policy engine is installed.
    fn begin_inference(&mut self) -> (a: PipelineAction)
        requires
            old(self).wf_config(),
            old(self).tool_results@.len() == old(self).requested_tools@.len(),
            old(self).emitted@ == inbound_prefix(old(self).memory_configured),
        ensures
            final(self).wf(),
            !final(self).spec_at_start(),
            final(self).spec_memory_configured() == old(self).spec_memory_configured(),
            final(self).spec_policy_configured() == old(self).spec_policy_configured(),
            final(self).spec_tool_count() == old(self).spec_tool_count(),
            final(self).spec_tool_results() == old(self).spec_tool_results(),
            !(a is Deliver),
            spec_inference_entry(*old(self), *final(self), a),
            spec_inputs_unchanged(*old(self), *final(self)),
    {
        if self.policy_configured {
            let count: u64 = self.messages.len() as u64;
            let request = build_inference_policy_request(
                self.agent_id,
                self.provider.as_str(),
                self.model.as_str(),
                count,
                &self.tool_names,
            );
            let subject = request.action().label();
            self.pending_subject = subject.clone();
            self.phase = Phase::InferencePolicy;
            PipelineAction::EvaluatePolicy { request, subject }
        } else {
            self.do_infer()
        }
    }

    /// Builds and emits the inference request; an empty conversation
    /// fails the pipeline.
    fn do_infer(&mut self) -> (a: PipelineAction)
        requires
            old(self).wf_config(),
            old(self).tool_results@.len() == old(self).requested_tools@.len(),
            old(self).emitted@ == inbound_prefix(old(self).memory_configured),
        ensures
            final(self).wf(),
            !final(self).spec_at_start(),
            final(self).spec_memory_configured() == old(self).spec_memory_configured(),
            final(self).spec_policy_configured() == old(self).spec_policy_configured(),
            final(self).spec_tool_count() == old(self).spec_tool_count(),
            final(self).spec_tool_results() == old(self).spec_tool_results(),
            !(a is Deliver),
            spec_infer_emitted(*old(self), *final(self), a),
            spec_inputs_unchanged(*old(self), *final(self)),
    {
        let msgs = self.messages.clone();
        proof {
            assert(msgs.deep_view() =~= self.messages.deep_view());
            if self.tool_names@.len() == 0 {
                assert(self.tool_names.deep_view() =~= Seq::<Seq<char>>::empty());
            }
        }
        match build_inference_request(
            msgs,
            self.temperature_bits,
            self.max_output_tokens,
            &self.tool_names,
        ) {
            Ok(request) => {
                self.phase = Phase::Inferring;
                PipelineAction::Infer { request }
            },
            Err(error) => {
                self.phase = Phase::Failed;
                PipelineAction::Fail { error }
            },
        }
    }

    /// Emits the outbound stage for tool record `i`, the output record
    /// when every tool record is written, or the delivery when no memory
    /// bus is configured.
    fn begin_outbound(&mut self, i: usize) -> (a: PipelineAction)
        requires
            old(self).wf_config(),
            old(self).tool_results@.len() == old(self).requested_tools@.len(),
            i <= old(self).tool_results@.len(),
            old(self).memory_configured ==> old(self).emitted@ == inbound_prefix(
                old(self).memory_configured,
            ) + tool_markers(i as nat),
            !old(self).memory_configured ==> old(self).emitted@ == Seq::<ChannelModel>::empty(),
        ensures
            final(self).wf(),
            !final(self).spec_at_start(),
            final(self).spec_memory_configured() == old(self).spec_memory_configured(),
            final(self).spec_policy_configured() == old(self).spec_policy_configured(),
            final(self).spec_tool_count() == old(self).spec_tool_count(),
            final(self).spec_response() == old(self).spec_response(),
            final(self).spec_tool_results_len() == old(self).spec_tool_results_len(),
            final(self).spec_tool_results() == old(self).spec_tool_results(),
            (match a {
                PipelineAction::Deliver { outcome } => final(self).spec_done()
                    && outcome.spec_response() == old(self).spec_response()
                    && outcome.spec_results() == old(self).spec_tool_results(),
                _ => true,
            }),
            spec_outbound_entry(*old(self), *final(self), a, i as int),
            spec_inputs_unchanged(*old(self), *final(self)),
    {
        if !self.memory_configured {
            self.deliver()
        } else if i < self.tool_results.len() {
            let name = self.tool_results[i].name.clone();
            let output = self.tool_results[i].output.clone();
            proof {
                assert(output@ == old(self).spec_tool_results()[i as int].1);
            }
            match build_tool_record(name.as_str(), output.as_str()) {
                Ok(rec) => {
                    proof {
                        assert(rec@.payload == vstd::utf8::encode_utf8(
                            old(self).spec_tool_results()[i as int].1,
                        ));
                    }
                    let a = self.emit_record_stage(
                        rec,
                        Phase::OutboundToolPolicy(i),
                        Phase::OutboundToolRecord(i),
                    );
                    proof {
                        if !self.policy_configured {
                            assert(self.emitted@ =~= inbound_prefix(self.memory_configured)
                                + tool_markers((i + 1) as nat));
                        }
                    }
                    a
                },
                Err(_) => {
                    proof {
                        assert(false);
                    }
                    self.phase = Phase::Failed;
                    PipelineAction::Fail { error: HandlerError::custom("memory error") }
                },
            }
        } else {
            match build_output_record(self.response.as_str()) {
                Ok(rec) => {
                    proof {
                        assert(rec@.payload == vstd::utf8::encode_utf8(
                            old(self).spec_response(),
                        ));
                    }
                    let a = self.emit_record_stage(rec, Phase::OutputPolicy, Phase::OutputRecord);
                    proof {
                        if !self.policy_configured {
                            assert(self.emitted@ =~= inbound_prefix(self.memory_configured)
                                + tool_markers(self.requested_tools@.len()) + seq![
                                ChannelModel::Output,
                            ]);
                        }
                    }
                    a
                },
                Err(_) => {
                    proof {
                        assert(false);
                    }
                    self.phase = Phase::Failed;
                    PipelineAction::Fail { error: HandlerError::custom("memory error") }
                },
            }
        }
    }

    /// Hands the outcome over; the pipeline is complete.
    fn deliver(&mut self) -> (a: PipelineAction)
        requires
            old(self).wf_config(),
            old(self).memory_configured ==> old(self).tool_results@.len() == old(self).requested_tools@.len() && old(self).emitted@ == expected_transcript(
                old(self).requested_tools@.len(),
            ),
            !old(self).memory_configured ==> old(self).emitted@ == Seq::<ChannelModel>::empty(),
        ensures
            final(self).wf(),
            final(self).spec_done(),
            final(self).spec_memory_configured() == old(self).spec_memory_configured(),
            final(self).spec_policy_configured() == old(self).spec_policy_configured(),
            final(self).spec_tool_count() == old(self).spec_tool_count(),
            final(self).spec_response() == old(self).spec_response(),
            final(self).spec_tool_results() == old(self).spec_tool_results(),
            spec_inputs_unchanged(*old(self), *final(self)),
            (match a {
                PipelineAction::Deliver { outcome } => outcome.spec_response() == old(self).spec_response() && outcome.spec_results() == old(self).spec_tool_results(),
                _ => false,
            }),
    {
        let response = self.response.clone();
        let tool_results = self.tool_results.clone();
        proof {
            assert(tool_results.deep_view() =~= self.tool_results.deep_view());
        }
        let outcome = CallOutcome { response, tool_results };
        self.phase = Phase::Done;
        PipelineAction::Deliver { outcome }
    }

    /// The configuration part of the invariant, free of phase.
    pub closed spec fn wf_config(&self) -> bool {
        self.tool_info@.len() == self.requested_tools@.len()
    }

    /// Feeds the result of the last action back and returns the next
    /// action. A policy decision is enforced exactly: an allow proceeds
    /// to the awaited stage's own action (the pending record write, the
    /// requested invocation, or inference), while a denial or escalation
    /// fails the pipeline with the exact user-visible message for the
    /// awaited subject. Each acknowledged write, completed invocation and
    /// final chunk advances to the following stage, the output record's
    /// acknowledgement ends the run with the delivery, and every failure
    /// event fails the pipeline with its exact message.
    pub fn step(&mut self, event: PipelineEvent) -> (a: PipelineAction)
        requires
            old(self).wf(),
            !old(self).spec_at_start(),
            !old(self).spec_done(),
            !old(self).spec_failed(),
        ensures
            final(self).wf(),
            final(self).spec_memory_configured() == old(self).spec_memory_configured(),
            final(self).spec_policy_configured() == old(self).spec_policy_configured(),
            final(self).spec_tool_count() == old(self).spec_tool_count(),
            (match event {
                PipelineEvent::Chunk { chunk } => old(self).spec_inferring() ==> final(self).spec_response() == old(self).spec_response() + chunk@.delta,
                _ => true,
            }),
            (match a {
                PipelineAction::Deliver { outcome } => final(self).spec_done()
                    && outcome.spec_response() == final(self).spec_response()
                    && outcome.spec_results() == final(self).spec_tool_results(),
                _ => true,
            }),
            (match event {
                PipelineEvent::ToolCompleted { output } => (match old(self).spec_running_tool() {
                    Some(i) => final(self).spec_tool_results() == old(self).spec_tool_results().push((old(self).spec_requested()[i].0, output@)),
                    None => true,
                }),
                _ => true,
            }),
            (match event {
                PipelineEvent::Decision { decision } => old(self).spec_awaiting_decision() ==> (
                match spec_enforce(old(self).spec_subject(), decision@) {
                    Ok(()) => true,
                    Err(msg) => (match a {
                        PipelineAction::Fail { error } => error@
                            == crate::mesh::HandlerErrorModel::Custom(msg) && final(self).spec_failed(),
                        _ => false,
                    }),
                }),
                _ => true,
            }),
            (match event {
                PipelineEvent::Decision { decision } => (match spec_enforce(
                    old(self).spec_subject(),
                    decision@,
                ) {
                    Ok(()) => {
                        &&& old(self).spec_awaiting_memory_policy() ==> (match a {
                            PipelineAction::RecordMemory { record } => Some(record@) == old(self).spec_pending_record() && !final(self).spec_failed(),
                            _ => false,
                        })
                        &&& (match old(self).spec_awaiting_tool_policy() {
                            Some(i) => (match a {
                                PipelineAction::InvokeTool { name, input } => (name@, input@)
                                    == old(self).spec_requested()[i] && final(self).spec_running_tool() == Some(i) && !final(self).spec_failed(),
                                _ => false,
                            }),
                            None => true,
                        })
                        &&& old(self).spec_awaiting_inference_policy() ==> spec_infer_emitted(
                            *old(self),
                            *final(self),
                            a,
                        )
                    },
                    Err(msg) => true,
                }),
                _ => true,
            }),
            (match event {
                PipelineEvent::Recorded => {
                    &&& old(self).spec_recording_inbound() ==> spec_stage_after_tools(
                        *final(self),
                        *final(self),
                        a,
                        0,
                    )
                    &&& (match old(self).spec_recording_outbound_tool() {
                        Some(i) => spec_outbound_entry(*final(self), *final(self), a, i + 1),
                        None => true,
                    })
                    &&& old(self).spec_recording_output() ==> (match a {
                        PipelineAction::Deliver { outcome } => final(self).spec_done(),
                        _ => false,
                    })
                },
                _ => true,
            }),
            (match event {
                PipelineEvent::ToolCompleted { output } => (match old(self).spec_running_tool() {
                    Some(i) => spec_stage_after_tools(*final(self), *final(self), a, i + 1),
                    None => true,
                }),
                _ => true,
            }),
            (match event {
                PipelineEvent::Chunk { chunk } => old(self).spec_inferring() ==> (if chunk@.done {
                    spec_outbound_entry(*final(self), *final(self), a, 0)
                } else {
                    a is AwaitChunk && final(self).spec_inferring()
                }),
                _ => true,
            }),
            (match event {
                PipelineEvent::StreamEnded => old(self).spec_inferring() ==> spec_outbound_entry(
                    *final(self),
                    *final(self),
                    a,
                    0,
                ),
                _ => true,
            }),
            (match event {
                PipelineEvent::PolicyFailed { reason } => (match a {
                    PipelineAction::Fail { error } => error@
                        == crate::mesh::HandlerErrorModel::Custom(
                        "policy engine error: "@ + reason@,
                    ) && final(self).spec_failed(),
                    _ => false,
                }),
                _ => true,
            }),
            (match event {
                PipelineEvent::RecordFailed { reason } => (match a {
                    PipelineAction::Fail { error } => error@
                        == crate::mesh::HandlerErrorModel::Custom("memory error: "@ + reason@)
                        && final(self).spec_failed(),
                    _ => false,
                }),
                _ => true,
            }),
            (match event {
                PipelineEvent::ToolFailed { reason } => (match old(self).spec_running_tool() {
                    Some(i) => (match a {
                        PipelineAction::Fail { error } => error@
                            == crate::mesh::HandlerErrorModel::Custom(
                            "tool `"@ + old(self).spec_requested()[i].0 + "` failed: "@ + reason@,
                        ) && final(self).spec_failed(),
                        _ => false,
                    }),
                    None => true,
                }),
                _ => true,
            }),
            (match event {
                PipelineEvent::InferFailed { reason } => old(self).spec_inferring() ==> (match a {
                    PipelineAction::Fail { error } => error@
                        == crate::mesh::HandlerErrorModel::Custom(
                        "adapter `"@ + old(self).spec_provider() + "` for model `"@ + old(self).spec_model() + "` error: "@ + reason@,
                    ) && final(self).spec_failed(),
                    _ => false,
                }),
                _ => true,
            }),
    {
        let phase = self.phase;
        match (phase, event) {
            (Phase::InboundPolicy, PipelineEvent::Decision { decision }) => {
                match enforce_decision(&decision, self.pending_subject.as_str()) {
                    Ok(()) => {
                        let rec = match &self.pending_record {
                            Some(r) => r.clone(),
                            None => {
                                proof {
                                    assert(false);
                                }
                                self.phase = Phase::Failed;
                                return PipelineAction::Fail {
                                    error: HandlerError::custom("memory error"),
                                };
                            },
                        };
                        proof {
                            self.emitted@ = self.emitted@.push(rec@.channel);
                            assert(self.emitted@ =~= seq![ChannelModel::Input]);
                        }
                        self.phase = Phase::InboundRecord;
                        PipelineAction::RecordMemory { record: rec }
                    },
                    Err(error) => {
                        self.phase = Phase::Failed;
                        PipelineAction::Fail { error }
                    },
                }
            },
            (Phase::InboundRecord, PipelineEvent::Recorded) => self.begin_tools(0),
            (Phase::ToolPolicy(i), PipelineEvent::Decision { decision }) => {
                match enforce_decision(&decision, self.pending_subject.as_str()) {
                    Ok(()) => {
                        self.phase = Phase::ToolRun(i);
                        PipelineAction::InvokeTool {
                            name: self.requested_tools[i].name.clone(),
                            input: self.requested_tools[i].input.clone(),
                        }
                    },
                    Err(error) => {
                        self.phase = Phase::Failed;
                        PipelineAction::Fail { error }
                    },
                }
            },
            (Phase::ToolRun(i), PipelineEvent::ToolCompleted { output }) => {
                let n = self.requested_tools.len();
                proof {
                    assert(i < n);
                }
                let ghost before = self.tool_results.deep_view();
                let ghost output_text = output@;
                let name = self.requested_tools[i].name.clone();
                self.messages.push(PromptMessage::new(MessageRole::Tool, output.as_str()));
                self.tool_names.push(name.clone());
                self.tool_results.push(ToolInvocationResult { name, output });
                proof {
                    assert(self.tool_results.deep_view() =~= before.push((
                        self.requested_tools.deep_view()[i as int].0,
                        output_text,
                    )));
                }
                self.begin_tools(i + 1)
            },
            (Phase::ToolRun(i), PipelineEvent::ToolFailed { reason }) => {
                let error = tool_failure_error(
                    self.requested_tools[i].name.as_str(),
                    reason.as_str(),
                );
                self.phase = Phase::Failed;
                PipelineAction::Fail { error }
            },
            (Phase::InferencePolicy, PipelineEvent::Decision { decision }) => {
                match enforce_decision(&decision, self.pending_subject.as_str()) {
                    Ok(()) => self.do_infer(),
                    Err(error) => {
                        self.phase = Phase::Failed;
                        PipelineAction::Fail { error }
                    },
                }
            },
            (Phase::Inferring, PipelineEvent::Chunk { chunk }) => {
                self.response.append(chunk.delta.as_str());
                if chunk.done {
                    self.begin_outbound(0)
                } else {
                    PipelineAction::AwaitChunk
                }
            },
            (Phase::Inferring, PipelineEvent::StreamEnded) => self.begin_outbound(0),
            (Phase::Inferring, PipelineEvent::InferFailed { reason }) => {
                let error = adapter_failure_error(
                    self.provider.as_str(),
                    self.model.as_str(),
                    reason.as_str(),
                );
                self.phase = Phase::Failed;
                PipelineAction::Fail { error }
            },
            (Phase::OutboundToolPolicy(i), PipelineEvent::Decision { decision }) => {
                match enforce_decision(&decision, self.pending_subject.as_str()) {
                    Ok(()) => {
                        let rec = match &self.pending_record {
                            Some(r) => r.clone(),
                            None => {
                                proof {
                                    assert(false);
                                }
                                self.phase = Phase::Failed;
                                return PipelineAction::Fail {
                                    error: HandlerError::custom("memory error"),
                                };
                            },
                        };
                        proof {
                            self.emitted@ = self.emitted@.push(rec@.channel);
                            assert(self.emitted@ =~= inbound_prefix(self.memory_configured)
                                + tool_markers((i + 1) as nat));
                        }
                        self.phase = Phase::OutboundToolRecord(i);
                        PipelineAction::RecordMemory { record: rec }
                    },
                    Err(error) => {
                        self.phase = Phase::Failed;
                        PipelineAction::Fail { error }
                    },
                }
            },
            (Phase::OutboundToolRecord(i), PipelineEvent::Recorded) => {
                let n = self.tool_results.len();
                proof {
                    assert(i < n);
                }
                self.begin_outbound(i + 1)
            },
            (Phase::OutputPolicy, PipelineEvent::Decision { decision }) => {
                match enforce_decision(&decision, self.pending_subject.as_str()) {
                    Ok(()) => {
                        let rec = match &self.pending_record {
                            Some(r) => r.clone(),
                            None => {
                                proof {
                                    assert(false);
                                }
                                self.phase = Phase::Failed;
                                return PipelineAction::Fail {
                                    error: HandlerError::custom("memory error"),
                                };
                            },
                        };
                        proof {
                            self.emitted@ = self.emitted@.push(rec@.channel);
                            assert(self.emitted@ =~= inbound_prefix(self.memory_configured)
                                + tool_markers(self.requested_tools@.len()) + seq![
                                ChannelModel::Output,
                            ]);
                        }
                        self.phase = Phase::OutputRecord;
                        PipelineAction::RecordMemory { record: rec }
                    },
                    Err(error) => {
                        self.phase = Phase::Failed;
                        PipelineAction::Fail { error }
                    },
                }
            },
            (Phase::OutputRecord, PipelineEvent::Recorded) => {
                proof {
                    assert(self.emitted@ =~= expected_transcript(self.requested_tools@.len()));
                }
                self.deliver()
            },
            (_, PipelineEvent::PolicyFailed { reason }) => {
                let error = policy_failure_error(reason.as_str());
                self.phase = Phase::Failed;
                PipelineAction::Fail { error }
            },
            (_, PipelineEvent::RecordFailed { reason }) => {
                let error = memory_failure_error(reason.as_str());
                self.phase = Phase::Failed;
                PipelineAction::Fail { error }
            },
            (_, _) => {
                self.phase = Phase::Failed;
                PipelineAction::Fail { error: HandlerError::custom("unexpected pipeline event") }
            },
        }
    }
}

/// The pipeline inputs a stage transition leaves untouched: the decoded
/// payload, the conversation, the collected names, the response and the
/// adapter identity.
pub open spec fn spec_inputs_unchanged(pre: CallPipeline, post: CallPipeline) -> bool {
    &&& post.spec_requested() == pre.spec_requested()
    &&& post.spec_conversation() == pre.spec_conversation()
    &&& post.spec_tool_names() == pre.spec_tool_names()
    &&& post.spec_response() == pre.spec_response()
    &&& post.spec_provider() == pre.spec_provider()
    &&& post.spec_model() == pre.spec_model()
    &&& post.spec_temperature_bits() == pre.spec_temperature_bits()
    &&& post.spec_max_output_tokens() == pre.spec_max_output_tokens()
    &&& post.spec_raw_payload() == pre.spec_raw_payload()
}

/// What entering a record stage looks like: with a policy engine, the
/// action evaluates the `memory_record` event and the record (with the
/// given channel and payload) is left pending; without one, the action
/// writes that record directly.
pub open spec fn spec_record_stage(
    pre: CallPipeline,
    post: CallPipeline,
    a: PipelineAction,
    channel: ChannelModel,
    payload: Seq<u8>,
) -> bool {
    if pre.spec_policy_configured() {
        match a {
            PipelineAction::EvaluatePolicy { request, subject } => {
                &&& request@.action == ActionModel::EmitEvent("memory_record"@)
                &&& !post.spec_failed()
                &&& post.spec_pending_record() matches Some(m) && m.channel == channel
                    && m.payload == payload
            },
            _ => false,
        }
    } else {
        match a {
            PipelineAction::RecordMemory { record } => {
                &&& record@.channel == channel
                &&& record@.payload == payload
                &&& !post.spec_failed()
            },
            _ => false,
        }
    }
}

/// What emitting inference looks like: with a non-empty conversation the
/// action runs the exact request built from the pipeline's state; an
/// empty conversation fails the pipeline with the invalid-request
/// message.
pub open spec fn spec_infer_emitted(
    pre: CallPipeline,
    post: CallPipeline,
    a: PipelineAction,
) -> bool {
    if pre.spec_conversation().len() >= 1 {
        match a {
            PipelineAction::Infer { request } => {
                &&& request@ == (InferenceRequestModel {
                    system_prompt: None,
                    messages: pre.spec_conversation(),
                    max_output_tokens: pre.spec_max_output_tokens(),
                    temperature_bits: pre.spec_temperature_bits(),
                    tools: pre.spec_tool_names(),
                })
                &&& post.spec_inferring()
                &&& !post.spec_failed()
            },
            _ => false,
        }
    } else {
        match a {
            PipelineAction::Fail { error } => error@ == crate::mesh::HandlerErrorModel::Custom(
                "invalid request: inference request requires at least one message"@,
            ) && post.spec_failed(),
            _ => false,
        }
    }
}

/// What entering the inference stage looks like: the inference-policy
/// evaluation when a policy engine is installed, the inference itself
/// otherwise.
pub open spec fn spec_inference_entry(
    pre: CallPipeline,
    post: CallPipeline,
    a: PipelineAction,
) -> bool {
    if pre.spec_policy_configured() {
        match a {
            PipelineAction::EvaluatePolicy { request, subject } => {
                &&& request@.action == ActionModel::ModelInference(
                    pre.spec_provider(),
                    pre.spec_model(),
                )
                &&& post.spec_awaiting_inference_policy()
                &&& !post.spec_failed()
            },
            _ => false,
        }
    } else {
        spec_infer_emitted(pre, post, a)
    }
}

/// What entering tool stage `i` looks like: the tool-policy evaluation
/// for the requested invocation when a policy engine is installed, the
/// invocation itself otherwise.
pub open spec fn spec_tool_entry(
    pre: CallPipeline,
    post: CallPipeline,
    a: PipelineAction,
    i: int,
) -> bool {
    if pre.spec_policy_configured() {
        match a {
            PipelineAction::EvaluatePolicy { request, subject } => {
                &&& request@.action == ActionModel::InvokeTool(pre.spec_requested()[i].0)
                &&& post.spec_awaiting_tool_policy() == Some(i)
                &&& !post.spec_failed()
            },
            _ => false,
        }
    } else {
        match a {
            PipelineAction::InvokeTool { name, input } => {
                &&& (name@, input@) == pre.spec_requested()[i]
                &&& post.spec_running_tool() == Some(i)
                &&& !post.spec_failed()
            },
            _ => false,
        }
    }
}

/// What follows once `i` tool invocations are behind us: the next tool
/// stage, or the inference stage when every requested invocation ran.
pub open spec fn spec_stage_after_tools(
    pre: CallPipeline,
    post: CallPipeline,
    a: PipelineAction,
    i: int,
) -> bool {
    if i < pre.spec_tool_count() {
        spec_tool_entry(pre, post, a, i)
    } else {
        spec_inference_entry(pre, post, a)
    }
}

/// What follows once inference is done and `i` outbound tool records are
/// behind us: the delivery when no memory bus is configured, the next
/// tool record's stage, or the output record's stage.
pub open spec fn spec_outbound_entry(
    pre: CallPipeline,
    post: CallPipeline,
    a: PipelineAction,
    i: int,
) -> bool {
    if !pre.spec_memory_configured() {
        match a {
            PipelineAction::Deliver { outcome } => post.spec_done(),
            _ => false,
        }
    } else if i < pre.spec_tool_results_len() {
        spec_record_stage(
            pre,
            post,
            a,
            ChannelModel::Tool,
            vstd::utf8::encode_utf8(pre.spec_tool_results()[i].1),
        )
    } else {
        spec_record_stage(
            pre,
            post,
            a,
            ChannelModel::Output,
            vstd::utf8::encode_utf8(pre.spec_response()),
        )
    }
}

/// Law: a pipeline that has delivered its outcome with a memory bus
/// configured has recorded exactly one `Input` record, one `Tool` record
/// per requested invocation, and one `Output` record, in that order.
pub proof fn lemma_complete_transcript(p: &CallPipeline)
    requires
        p.wf(),
        p.spec_done(),
        p.spec_memory_configured(),
    ensures
        p.spec_emitted() == expected_transcript(p.spec_tool_count()),
{
}

/// Law: a pipeline that has delivered its outcome without a memory bus
/// has recorded nothing.
pub proof fn lemma_no_memory_no_records(p: &CallPipeline)
    requires
        p.wf(),
        p.spec_done(),
        !p.spec_memory_configured(),
    ensures
        p.spec_emitted() == Seq::<ChannelModel>::empty(),
{
}

} // verus!
