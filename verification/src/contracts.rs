//! Policy request and action contracts for governance evaluation.

use vstd::prelude::*;

use crate::ids::{id_text, spec_id_text, AgentId};
use crate::meta::{MetaMap, MetaValue, MetaValueModel};
use crate::record::{ChannelModel, MemoryRecord};
use crate::text::{is_blank, spec_blank};

verus! {

/// Mathematical model of a policy action.
pub ghost enum ActionModel {
    /// Tool invocation with the tool name.
    InvokeTool(Seq<char>),
    /// Model inference with provider and model.
    ModelInference(Seq<char>, Seq<char>),
    /// Event emission with the event type.
    EmitEvent(Seq<char>),
}

/// Describes the action being evaluated by the policy engine.
#[derive(Debug)]
pub enum PolicyAction {
    /// Request to invoke a registered tool.
    InvokeTool {
        /// Name of the tool to be invoked.
        name: String,
    },
    /// Request to execute a model inference via a model adapter.
    ModelInference {
        /// Provider backing the adapter.
        provider: String,
        /// Concrete model identifier.
        model: String,
    },
    /// Request to emit a mesh event.
    EmitEvent {
        /// Application-defined event type identifier.
        event_type: String,
    },
}

impl View for PolicyAction {
    type V = ActionModel;

    open spec fn view(&self) -> ActionModel {
        match self {
            PolicyAction::InvokeTool { name } => ActionModel::InvokeTool(name@),
            PolicyAction::ModelInference { provider, model } => ActionModel::ModelInference(
                provider@,
                model@,
            ),
            PolicyAction::EmitEvent { event_type } => ActionModel::EmitEvent(event_type@),
        }
    }
}

impl Clone for PolicyAction {
    fn clone(&self) -> (res: Self)
        ensures
            res@ == self@,
    {
        match self {
            PolicyAction::InvokeTool { name } => PolicyAction::InvokeTool { name: name.clone() },
            PolicyAction::ModelInference { provider, model } => PolicyAction::ModelInference {
                provider: provider.clone(),
                model: model.clone(),
            },
            PolicyAction::EmitEvent { event_type } => PolicyAction::EmitEvent {
                event_type: event_type.clone(),
            },
        }
    }
}

/// The human-readable subject label of an action.
pub open spec fn spec_action_label(a: ActionModel) -> Seq<char> {
    match a {
        ActionModel::InvokeTool(name) => "tool `"@ + name + "`"@,
        ActionModel::ModelInference(provider, model) => "model `"@ + provider + "/"@ + model
            + "`"@,
        ActionModel::EmitEvent(event_type) => "event `"@ + event_type + "`"@,
    }
}

impl PolicyAction {
    /// Returns a concise, human-readable label for the action.
    pub fn label(&self) -> (r: String)
        ensures
            r@ == spec_action_label(self@),
    {
        match self {
            PolicyAction::InvokeTool { name } => {
                let mut s = String::from_str("tool `");
                s.append(name.as_str());
                s.append("`");
                s
            },
            PolicyAction::ModelInference { provider, model } => {
                let mut s = String::from_str("model `");
                s.append(provider.as_str());
                s.append("/");
                s.append(model.as_str());
                s.append("`");
                s
            },
            PolicyAction::EmitEvent { event_type } => {
                let mut s = String::from_str("event `");
                s.append(event_type.as_str());
                s.append("`");
                s
            },
        }
    }
}

/// Mathematical model of a policy context.
pub ghost struct PolicyContextModel {
    /// The metadata entries.
    pub metadata: Seq<(Seq<char>, MetaValueModel)>,
    /// The tag labels, deduplicated, blanks dropped.
    pub tags: Seq<Seq<char>>,
}

/// Context supplied to a policy evaluation.
#[derive(Debug)]
pub struct PolicyContext {
    metadata: MetaMap,
    tags: Vec<String>,
}

impl View for PolicyContext {
    type V = PolicyContextModel;

    closed spec fn view(&self) -> PolicyContextModel {
        PolicyContextModel { metadata: self.metadata@, tags: self.tags.deep_view() }
    }
}

impl Clone for PolicyContext {
    fn clone(&self) -> (res: Self)
        ensures
            res@ == self@,
    {
        let tags = self.tags.clone();
        proof {
            assert(tags.deep_view() =~= self.tags.deep_view());
        }
        PolicyContext { metadata: self.metadata.clone(), tags }
    }
}

impl PolicyContext {
    /// Whether the context's tag set holds `tag`.
    pub open spec fn spec_has_tag(&self, tag: Seq<char>) -> bool {
        self@.tags.contains(tag)
    }

    /// Creates an empty context.
    pub fn new() -> (r: PolicyContext)
        ensures
            r@.metadata == Seq::<(Seq<char>, MetaValueModel)>::empty(),
            r@.tags == Seq::<Seq<char>>::empty(),
    {
        let r = PolicyContext { metadata: MetaMap::new(), tags: Vec::new() };
        proof {
            assert(r@.tags =~= Seq::<Seq<char>>::empty());
        }
        r
    }

    /// Inserts metadata into the request context, superseding any earlier
    /// entry under the same key.
    pub fn insert_metadata(&mut self, key: &str, value: MetaValue)
        ensures
            final(self)@.metadata == old(self)@.metadata.push((key@, value@)),
            final(self)@.tags == old(self)@.tags,
    {
        self.metadata.insert(key, value);
    }

    /// Returns whether the context carries the tag.
    pub fn has_tag(&self, tag: &str) -> (r: bool)
        ensures
            r == self.spec_has_tag(tag@),
    {
        let owned: String = tag.to_owned();
        let n = self.tags.len();
        let mut i: usize = 0;
        while i < n
            invariant
                0 <= i <= n,
                n == self.tags@.len(),
                owned@ == tag@,
                forall|j: int| 0 <= j < i ==> self.tags.deep_view()[j] != tag@,
            decreases n - i,
        {
            if self.tags[i] == owned {
                proof {
                    assert(self.tags.deep_view()[i as int] == tag@);
                }
                return true;
            }
            proof {
                assert(self.tags.deep_view()[i as int] == self.tags@[i as int]@);
            }
            i = i + 1;
        }
        proof {
            if self@.tags.contains(tag@) {
                let j = choose|j: int| 0 <= j < self@.tags.len() && self@.tags[j] == tag@;
                assert(self.tags.deep_view()[j] == tag@);
            }
        }
        false
    }

    /// Adds a tag to the context; blank tags are silently dropped and
    /// repeats are deduplicated.
    pub fn add_tag(&mut self, tag: &str)
        ensures
            final(self)@.metadata == old(self)@.metadata,
            spec_blank(tag@) || old(self).spec_has_tag(tag@) ==> final(self)@.tags == old(
                self,
            )@.tags,
            !spec_blank(tag@) && !old(self).spec_has_tag(tag@) ==> final(self)@.tags == old(
                self,
            )@.tags.push(tag@),
            forall|t: Seq<char>| #[trigger]
                final(self).spec_has_tag(t) <==> (old(self).spec_has_tag(t) || (!spec_blank(tag@)
                    && t == tag@)),
    {
        if is_blank(tag) {
            return ;
        }
        if self.has_tag(tag) {
            return ;
        }
        self.tags.push(tag.to_owned());
        proof {
            assert(self.tags.deep_view() =~= old(self).tags.deep_view().push(tag@));
            assert forall|t: Seq<char>| #[trigger]
                self.spec_has_tag(t) <==> (old(self).spec_has_tag(t) || t == tag@) by {
                if self.spec_has_tag(t) {
                    let j = choose|j: int| 0 <= j < self@.tags.len() && self@.tags[j] == t;
                    if j < self@.tags.len() - 1 {
                        assert(old(self)@.tags[j] == t);
                    }
                }
                if old(self).spec_has_tag(t) {
                    let j = choose|j: int|
                        0 <= j < old(self)@.tags.len() && old(self)@.tags[j] == t;
                    assert(self@.tags[j] == t);
                }
                if t == tag@ {
                    assert(self@.tags.last() == t);
                }
            }
        }
    }

    /// Extends the context with multiple tags, dropping blanks and
    /// deduplicating.
    pub fn extend_tags(&mut self, tags: &Vec<String>)
        ensures
            final(self)@.metadata == old(self)@.metadata,
            forall|t: Seq<char>| #[trigger]
                final(self).spec_has_tag(t) <==> (old(self).spec_has_tag(t) || (exists|i: int|
                    0 <= i < tags@.len() && tags.deep_view()[i] == t && !spec_blank(t))),
    {
        let n = tags.len();
        let mut i: usize = 0;
        while i < n
            invariant
                0 <= i <= n,
                n == tags@.len(),
                self@.metadata == old(self)@.metadata,
                forall|t: Seq<char>| #[trigger]
                    self.spec_has_tag(t) <==> (old(self).spec_has_tag(t) || (exists|j: int|
                        0 <= j < i && tags.deep_view()[j] == t && !spec_blank(t))),
            decreases n - i,
        {
            self.add_tag(tags[i].as_str());
            proof {
                assert(tags.deep_view()[i as int] == tags@[i as int]@);
            }
            i = i + 1;
        }
    }

    /// Returns the metadata associated with the context.
    pub fn metadata(&self) -> (r: &MetaMap)
        ensures
            r@ == self@.metadata,
    {
        &self.metadata
    }

    /// Returns the tags associated with the context.
    pub fn tags(&self) -> (r: &Vec<String>)
        ensures
            r.deep_view() == self@.tags,
    {
        &self.tags
    }
}

/// Mathematical model of a policy request.
pub ghost struct PolicyRequestModel {
    /// The requesting agent.
    pub agent_id: AgentId,
    /// The action under evaluation.
    pub action: ActionModel,
    /// The attached context.
    pub context: PolicyContextModel,
}

/// Full request sent to the policy engine for evaluation.
#[derive(Debug)]
pub struct PolicyRequest {
    agent_id: AgentId,
    action: PolicyAction,
    context: PolicyContext,
}

impl View for PolicyRequest {
    type V = PolicyRequestModel;

    closed spec fn view(&self) -> PolicyRequestModel {
        PolicyRequestModel { agent_id: self.agent_id, action: self.action@, context: self.context@ }
    }
}

impl Clone for PolicyRequest {
    fn clone(&self) -> (res: Self)
        ensures
            res@ == self@,
    {
        PolicyRequest {
            agent_id: self.agent_id,
            action: self.action.clone(),
            context: self.context.clone(),
        }
    }
}

impl PolicyRequest {
    /// Creates a policy request for the specified agent and action, with an
    /// empty context.
    pub fn new(agent_id: AgentId, action: PolicyAction) -> (r: PolicyRequest)
        ensures
            r@.agent_id == agent_id,
            r@.action == action@,
            r@.context.metadata == Seq::<(Seq<char>, MetaValueModel)>::empty(),
            r@.context.tags == Seq::<Seq<char>>::empty(),
    {
        PolicyRequest { agent_id, action, context: PolicyContext::new() }
    }

    /// Returns the agent identifier associated with the request.
    pub fn agent_id(&self) -> (r: AgentId)
        ensures
            r == self@.agent_id,
    {
        self.agent_id
    }

    /// Returns the targeted policy action.
    pub fn action(&self) -> (r: &PolicyAction)
        ensures
            r@ == self@.action,
    {
        &self.action
    }

    /// Returns the context attached to the request.
    pub fn context(&self) -> (r: &PolicyContext)
        ensures
            r@ == self@.context,
    {
        &self.context
    }

    /// Returns a mutable reference to the context.
    pub fn context_mut(&mut self) -> (r: &mut PolicyContext)
        ensures
            *r == old(self).spec_context(),
            final(self)@ == (PolicyRequestModel { context: final(r)@, ..old(self)@ }),
    {
        &mut self.context
    }

    /// The context value itself, for relating `context_mut` to the whole.
    pub closed spec fn spec_context(&self) -> PolicyContext {
        self.context
    }

    /// Adds metadata to the request context.
    pub fn with_metadata(self, key: &str, value: MetaValue) -> (r: PolicyRequest)
        ensures
            r@.agent_id == self@.agent_id,
            r@.action == self@.action,
            r@.context.metadata == self@.context.metadata.push((key@, value@)),
            r@.context.tags == self@.context.tags,
    {
        let PolicyRequest { agent_id, action, mut context } = self;
        context.insert_metadata(key, value);
        PolicyRequest { agent_id, action, context }
    }

    /// Adds a tag to the request context.
    pub fn with_tag(self, tag: &str) -> (r: PolicyRequest)
        ensures
            r@.agent_id == self@.agent_id,
            r@.action == self@.action,
            r@.context.metadata == self@.context.metadata,
            forall|t: Seq<char>| #[trigger]
                r@.context.tags.contains(t) <==> (self@.context.tags.contains(t) || (!spec_blank(
                    tag@,
                ) && t == tag@)),
    {
        let PolicyRequest { agent_id, action, mut context } = self;
        context.add_tag(tag);
        let r = PolicyRequest { agent_id, action, context };
        proof {
            assert forall|t: Seq<char>| #[trigger]
                r@.context.tags.contains(t) <==> (self@.context.tags.contains(t) || (!spec_blank(
                    tag@,
                ) && t == tag@)) by {
                assert(context.spec_has_tag(t) == r@.context.tags.contains(t));
            }
        }
        r
    }

    /// Adds multiple tags to the context.
    pub fn with_tags(self, tags: &Vec<String>) -> (r: PolicyRequest)
        ensures
            r@.agent_id == self@.agent_id,
            r@.action == self@.action,
            r@.context.metadata == self@.context.metadata,
            forall|t: Seq<char>| #[trigger]
                r@.context.tags.contains(t) <==> (self@.context.tags.contains(t) || (exists|i: int|
                    0 <= i < tags@.len() && tags.deep_view()[i] == t && !spec_blank(t))),
    {
        let PolicyRequest { agent_id, action, mut context } = self;
        context.extend_tags(tags);
        let r = PolicyRequest { agent_id, action, context };
        proof {
            assert forall|t: Seq<char>| #[trigger]
                r@.context.tags.contains(t) <==> (self@.context.tags.contains(t) || (exists|i: int|
                    0 <= i < tags@.len() && tags.deep_view()[i] == t && !spec_blank(t))) by {
                assert(context.spec_has_tag(t) == r@.context.tags.contains(t));
            }
        }
        r
    }

    /// Constructs a policy request describing a memory record emission:
    /// the action is an `EmitEvent` for the `memory_record` event type, the
    /// metadata names the record's channel, tags and identifier, and the
    /// record's tags are copied into the context tag set.
    pub fn from_memory_record(agent_id: AgentId, record: &MemoryRecord) -> (r: PolicyRequest)
        ensures
            r@.agent_id == agent_id,
            r@.action == ActionModel::EmitEvent("memory_record"@),
            r@.context.metadata.len() == 3,
            crate::meta::assoc_get(r@.context.metadata, "id"@) == Some(
                MetaValueModel::Text(spec_id_text(record@.id)),
            ),
            crate::meta::assoc_get(r@.context.metadata, "tags"@) == Some(
                MetaValueModel::Labels(record@.tags),
            ),
            forall|t: Seq<char>| #[trigger]
                r@.context.tags.contains(t) <==> (exists|i: int|
                    0 <= i < record@.tags.len() && record@.tags[i] == t && !spec_blank(t)),
    {
        let action = PolicyAction::EmitEvent { event_type: "memory_record".to_owned() };
        let mut context = PolicyContext::new();
        let channel_label = channel_text(record.channel());
        context.insert_metadata("channel", MetaValue::Text(channel_label));
        let tag_list = record.tags().clone();
        proof {
            assert(tag_list.deep_view() =~= record@.tags);
        }
        context.insert_metadata("tags", MetaValue::Labels(tag_list));
        context.insert_metadata("id", MetaValue::Text(id_text(record.id())));
        context.extend_tags(record.tags());
        let r = PolicyRequest { agent_id, action, context };
        proof {
            reveal_strlit("channel");
            reveal_strlit("tags");
            reveal_strlit("id");
            assert("id"@.len() == 2 && "tags"@.len() == 4 && "channel"@.len() == 7);
            let m0 = Seq::<(Seq<char>, MetaValueModel)>::empty();
            let m1 = m0.push(
                ("channel"@, MetaValueModel::Text(spec_channel_text(record@.channel))),
            );
            let m2 = m1.push(("tags"@, MetaValueModel::Labels(record@.tags)));
            let m3 = m2.push(("id"@, MetaValueModel::Text(spec_id_text(record@.id))));
            assert(r@.context.metadata == m3);
            assert(m3.len() == 3);
            assert(m3.last() == ("id"@, MetaValueModel::Text(spec_id_text(record@.id))));
            assert(crate::meta::assoc_get(m3, "id"@) == Some(
                MetaValueModel::Text(spec_id_text(record@.id)),
            ));
            assert(m3.drop_last() =~= m2);
            assert(m2.last() == ("tags"@, MetaValueModel::Labels(record@.tags)));
            assert(crate::meta::assoc_get(m3, "tags"@) == crate::meta::assoc_get(m2, "tags"@));
            assert(crate::meta::assoc_get(m2, "tags"@) == Some(
                MetaValueModel::Labels(record@.tags),
            ));
            assert forall|t: Seq<char>| #[trigger]
                r@.context.tags.contains(t) <==> (exists|i: int|
                    0 <= i < record@.tags.len() && record@.tags[i] == t && !spec_blank(t)) by {
                assert(context.spec_has_tag(t) == r@.context.tags.contains(t));
            }
        }
        r
    }
}

/// A short text naming a channel: the variant name, or the custom label
/// itself.
pub open spec fn spec_channel_text(c: ChannelModel) -> Seq<char> {
    match c {
        ChannelModel::Input => "Input"@,
        ChannelModel::Output => "Output"@,
        ChannelModel::Tool => "Tool"@,
        ChannelModel::System => "System"@,
        ChannelModel::Custom(label) => label,
    }
}

/// Renders the short text naming a channel.
pub fn channel_text(c: &crate::record::MemoryChannel) -> (r: String)
    ensures
        r@ == spec_channel_text(c@),
{
    match c {
        crate::record::MemoryChannel::Input => String::from_str("Input"),
        crate::record::MemoryChannel::Output => String::from_str("Output"),
        crate::record::MemoryChannel::Tool => String::from_str("Tool"),
        crate::record::MemoryChannel::System => String::from_str("System"),
        crate::record::MemoryChannel::Custom(label) => label.clone(),
    }
}

} // verus!
