//! Policy rule matching and the rule-based evaluation engine.

use vstd::prelude::*;

use crate::contracts::{ActionModel, PolicyAction, PolicyRequest, PolicyRequestModel};
use crate::decision::{PolicyDecision, PolicyDecisionModel};
use crate::text::{is_blank, spec_blank};

verus! {

/// Errors surfaced by policy engines.
#[derive(Debug)]
pub enum PolicyError {
    /// Request failed validation before evaluation.
    InvalidRequest(String),
    /// Rule configuration error.
    InvalidRule(String),
    /// Backend integration returned an error.
    Backend {
        /// Human-readable explanation for logging and operators.
        reason: String,
    },
}

/// Result alias for policy operations.
pub type PolicyResult<T> = Result<T, PolicyError>;

/// Mathematical model of an action matcher.
pub ghost enum ActionMatcherModel {
    /// Match all actions.
    Any,
    /// Match tool invocations, optionally narrowing on name.
    Tool(Option<Seq<char>>),
    /// Match model inference actions, optionally narrowing on provider and
    /// model.
    Model(Option<Seq<char>>, Option<Seq<char>>),
    /// Match event emissions, optionally narrowing on event type.
    Event(Option<Seq<char>>),
}

/// Whether an action matcher accepts an action.
pub open spec fn spec_action_matches(m: ActionMatcherModel, a: ActionModel) -> bool {
    match (m, a) {
        (ActionMatcherModel::Any, _) => true,
        (ActionMatcherModel::Tool(name), ActionModel::InvokeTool(action_name)) => match name {
            Some(expected) => expected == action_name,
            None => true,
        },
        (
            ActionMatcherModel::Model(provider, model),
            ActionModel::ModelInference(action_provider, action_model),
        ) => (match provider {
            Some(expected) => expected == action_provider,
            None => true,
        }) && (match model {
            Some(expected) => expected == action_model,
            None => true,
        }),
        (ActionMatcherModel::Event(event_type), ActionModel::EmitEvent(action_event)) => match
            event_type {
            Some(expected) => expected == action_event,
            None => true,
        },
        _ => false,
    }
}

/// Matches requests based on the action shape.
#[derive(Debug)]
pub enum ActionMatcher {
    /// Match all actions.
    Any,
    /// Match tool invocations, optionally narrowing on name.
    Tool {
        /// Optional tool name to match.
        name: Option<String>,
    },
    /// Match model inference actions.
    Model {
        /// Optional provider name.
        provider: Option<String>,
        /// Optional model name.
        model: Option<String>,
    },
    /// Match event emissions.
    Event {
        /// Optional event type.
        event_type: Option<String>,
    },
}

impl View for ActionMatcher {
    type V = ActionMatcherModel;

    open spec fn view(&self) -> ActionMatcherModel {
        match self {
            ActionMatcher::Any => ActionMatcherModel::Any,
            ActionMatcher::Tool { name } => ActionMatcherModel::Tool(
                match name {
                    Some(n) => Some(n@),
                    None => None,
                },
            ),
            ActionMatcher::Model { provider, model } => ActionMatcherModel::Model(
                match provider {
                    Some(p) => Some(p@),
                    None => None,
                },
                match model {
                    Some(m) => Some(m@),
                    None => None,
                },
            ),
            ActionMatcher::Event { event_type } => ActionMatcherModel::Event(
                match event_type {
                    Some(e) => Some(e@),
                    None => None,
                },
            ),
        }
    }
}

impl Clone for ActionMatcher {
    fn clone(&self) -> (res: Self)
        ensures
            res@ == self@,
    {
        match self {
            ActionMatcher::Any => ActionMatcher::Any,
            ActionMatcher::Tool { name } => ActionMatcher::Tool {
                name: match name {
                    Some(n) => Some(n.clone()),
                    None => None,
                },
            },
            ActionMatcher::Model { provider, model } => ActionMatcher::Model {
                provider: match provider {
                    Some(p) => Some(p.clone()),
                    None => None,
                },
                model: match model {
                    Some(m) => Some(m.clone()),
                    None => None,
                },
            },
            ActionMatcher::Event { event_type } => ActionMatcher::Event {
                event_type: match event_type {
                    Some(e) => Some(e.clone()),
                    None => None,
                },
            },
        }
    }
}

impl ActionMatcher {
    /// Returns whether the matcher accepts the action.
    pub fn matches(&self, action: &PolicyAction) -> (r: bool)
        ensures
            r == spec_action_matches(self@, action@),
    {
        match (self, action) {
            (ActionMatcher::Any, _) => true,
            (ActionMatcher::Tool { name }, PolicyAction::InvokeTool { name: action_name }) => {
                match name {
                    Some(expected) => *expected == *action_name,
                    None => true,
                }
            },
            (
                ActionMatcher::Model { provider, model },
                PolicyAction::ModelInference { provider: action_provider, model: action_model },
            ) => {
                let provider_ok = match provider {
                    Some(expected) => *expected == *action_provider,
                    None => true,
                };
                let model_ok = match model {
                    Some(expected) => *expected == *action_model,
                    None => true,
                };
                provider_ok && model_ok
            },
            (
                ActionMatcher::Event { event_type },
                PolicyAction::EmitEvent { event_type: action_event },
            ) => {
                match event_type {
                    Some(expected) => *expected == *action_event,
                    None => true,
                }
            },
            _ => false,
        }
    }
}

/// Mathematical model of a rule matcher.
pub ghost struct RuleMatcherModel {
    /// The action shape to accept.
    pub action: ActionMatcherModel,
    /// Tags the request context must all carry.
    pub required_tags: Seq<Seq<char>>,
}

/// Whether a rule matcher accepts a request: the action shape matches and
/// every required tag is present in the request context's tag set.
pub open spec fn spec_rule_matches(m: RuleMatcherModel, req: PolicyRequestModel) -> bool {
    &&& spec_action_matches(m.action, req.action)
    &&& forall|i: int|
        0 <= i < m.required_tags.len() ==> req.context.tags.contains(#[trigger] m.required_tags[i])
}

/// Matches a policy request based on action type and required tags.
#[derive(Debug)]
pub struct RuleMatcher {
    action: ActionMatcher,
    required_tags: Vec<String>,
}

impl View for RuleMatcher {
    type V = RuleMatcherModel;

    closed spec fn view(&self) -> RuleMatcherModel {
        RuleMatcherModel { action: self.action@, required_tags: self.required_tags.deep_view() }
    }
}

impl Clone for RuleMatcher {
    fn clone(&self) -> (res: Self)
        ensures
            res@ == self@,
    {
        let required_tags = self.required_tags.clone();
        proof {
            assert(required_tags.deep_view() =~= self.required_tags.deep_view());
        }
        RuleMatcher { action: self.action.clone(), required_tags }
    }
}

impl RuleMatcher {
    /// Creates a matcher that accepts all actions.
    pub fn any() -> (r: RuleMatcher)
        ensures
            r@.action is Any,
            r@.required_tags == Seq::<Seq<char>>::empty(),
    {
        let r = RuleMatcher { action: ActionMatcher::Any, required_tags: Vec::new() };
        proof {
            assert(r@.required_tags =~= Seq::<Seq<char>>::empty());
        }
        r
    }

    /// Creates a matcher targeting a specific tool name.
    pub fn for_tool(name: &str) -> (r: RuleMatcher)
        ensures
            r@.action == ActionMatcherModel::Tool(Some(name@)),
            r@.required_tags == Seq::<Seq<char>>::empty(),
    {
        let r = RuleMatcher {
            action: ActionMatcher::Tool { name: Some(name.to_owned()) },
            required_tags: Vec::new(),
        };
        proof {
            assert(r@.required_tags =~= Seq::<Seq<char>>::empty());
        }
        r
    }

    /// Creates a matcher targeting any tool invocation.
    pub fn for_any_tool() -> (r: RuleMatcher)
        ensures
            r@.action == ActionMatcherModel::Tool(None),
            r@.required_tags == Seq::<Seq<char>>::empty(),
    {
        let r = RuleMatcher { action: ActionMatcher::Tool { name: None }, required_tags: Vec::new() };
        proof {
            assert(r@.required_tags =~= Seq::<Seq<char>>::empty());
        }
        r
    }

    /// Creates a matcher for model inference of a particular provider and
    /// model.
    pub fn for_model(provider: &str, model: &str) -> (r: RuleMatcher)
        ensures
            r@.action == ActionMatcherModel::Model(Some(provider@), Some(model@)),
            r@.required_tags == Seq::<Seq<char>>::empty(),
    {
        let r = RuleMatcher {
            action: ActionMatcher::Model {
                provider: Some(provider.to_owned()),
                model: Some(model.to_owned()),
            },
            required_tags: Vec::new(),
        };
        proof {
            assert(r@.required_tags =~= Seq::<Seq<char>>::empty());
        }
        r
    }

    /// Creates a matcher for all model inference requests.
    pub fn for_any_model() -> (r: RuleMatcher)
        ensures
            r@.action == ActionMatcherModel::Model(None, None),
            r@.required_tags == Seq::<Seq<char>>::empty(),
    {
        let r = RuleMatcher {
            action: ActionMatcher::Model { provider: None, model: None },
            required_tags: Vec::new(),
        };
        proof {
            assert(r@.required_tags =~= Seq::<Seq<char>>::empty());
        }
        r
    }

    /// Requires that the request carries the supplied tags; blank tags are
    /// dropped.
    pub fn with_required_tags(self, tags: &Vec<String>) -> (r: RuleMatcher)
        ensures
            r@.action == self@.action,
            forall|t: Seq<char>| #[trigger]
                r@.required_tags.contains(t) <==> (self@.required_tags.contains(t) || (exists|
                    i: int,
                |
                    0 <= i < tags@.len() && tags.deep_view()[i] == t && !spec_blank(t))),
    {
        let RuleMatcher { action, mut required_tags } = self;
        let ghost start = required_tags.deep_view();
        let n = tags.len();
        let mut i: usize = 0;
        while i < n
            invariant
                0 <= i <= n,
                n == tags@.len(),
                forall|t: Seq<char>| #[trigger]
                    required_tags.deep_view().contains(t) <==> (start.contains(t) || (exists|j: int|
                        0 <= j < i && tags.deep_view()[j] == t && !spec_blank(t))),
            decreases n - i,
        {
            let tag = &tags[i];
            proof {
                assert(tags.deep_view()[i as int] == tags@[i as int]@);
            }
            if !is_blank(tag.as_str()) {
                let mut present = false;
                let m = required_tags.len();
                let mut j: usize = 0;
                while j < m
                    invariant
                        0 <= j <= m,
                        m == required_tags@.len(),
                        0 <= i < n,
                        n == tags@.len(),
                        present <==> (exists|k: int|
                            0 <= k < j && required_tags.deep_view()[k] == tags@[i as int]@),
                    decreases m - j,
                {
                    if required_tags[j] == tags[i] {
                        proof {
                            assert(required_tags.deep_view()[j as int] == tags@[i as int]@);
                        }
                        present = true;
                    }
                    proof {
                        assert(required_tags.deep_view()[j as int] == required_tags@[j as int]@);
                    }
                    j = j + 1;
                }
                if !present {
                    let ghost before = required_tags.deep_view();
                    required_tags.push(tag.clone());
                    proof {
                        assert(required_tags.deep_view() =~= before.push(tags@[i as int]@));
                        assert forall|t: Seq<char>| #[trigger]
                            required_tags.deep_view().contains(t) <==> (before.contains(t) || t
                                == tags@[i as int]@) by {
                            let cur = required_tags.deep_view();
                            if cur.contains(t) {
                                let k = choose|k: int| 0 <= k < cur.len() && cur[k] == t;
                                if k < cur.len() - 1 {
                                    assert(before[k] == t);
                                }
                            }
                            if before.contains(t) {
                                let k = choose|k: int|
                                    0 <= k < before.len() && before[k] == t;
                                assert(cur[k] == t);
                            }
                            if t == tags@[i as int]@ {
                                assert(cur.last() == t);
                            }
                        }
                    }
                }
            }
            i = i + 1;
        }
        RuleMatcher { action, required_tags }
    }

    /// Returns whether the matcher accepts the request.
    pub fn matches(&self, request: &PolicyRequest) -> (r: bool)
        ensures
            r == spec_rule_matches(self@, request@),
    {
        if !self.action.matches(request.action()) {
            return false;
        }
        let n = self.required_tags.len();
        let mut i: usize = 0;
        while i < n
            invariant
                0 <= i <= n,
                n == self.required_tags@.len(),
                spec_action_matches(self@.action, request@.action),
                forall|j: int|
                    0 <= j < i ==> request@.context.tags.contains(
                        #[trigger] self.required_tags.deep_view()[j],
                    ),
            decreases n - i,
        {
            proof {
                assert(self.required_tags.deep_view()[i as int] == self.required_tags@[i as int]@);
            }
            if !request.context().has_tag(self.required_tags[i].as_str()) {
                proof {
                    assert(!request@.context.tags.contains(self@.required_tags[i as int]));
                }
                return false;
            }
            i = i + 1;
        }
        true
    }
}

/// Mathematical model of a policy rule.
pub ghost struct PolicyRuleModel {
    /// The rule name.
    pub name: Seq<char>,
    /// The matcher deciding which requests the rule covers.
    pub matcher: RuleMatcherModel,
    /// The decision the rule yields.
    pub decision: PolicyDecisionModel,
}

/// Rule consisting of a matcher and a resulting decision.
#[derive(Debug)]
pub struct PolicyRule {
    name: String,
    matcher: RuleMatcher,
    decision: PolicyDecision,
}

impl View for PolicyRule {
    type V = PolicyRuleModel;

    closed spec fn view(&self) -> PolicyRuleModel {
        PolicyRuleModel { name: self.name@, matcher: self.matcher@, decision: self.decision@ }
    }
}

impl DeepView for PolicyRule {
    type V = PolicyRuleModel;

    open spec fn deep_view(&self) -> PolicyRuleModel {
        self.view()
    }
}

impl Clone for PolicyRule {
    fn clone(&self) -> (res: Self)
        ensures
            res@ == self@,
    {
        PolicyRule {
            name: self.name.clone(),
            matcher: self.matcher.clone(),
            decision: self.decision.clone(),
        }
    }
}

impl PolicyRule {
    /// Creates a new rule with the supplied matcher and decision.
    ///
    /// Succeeds exactly when the rule name is not blank.
    pub fn new(name: &str, matcher: RuleMatcher, decision: PolicyDecision) -> (r: PolicyResult<
        PolicyRule,
    >)
        ensures
            r is Ok <==> !spec_blank(name@),
            r matches Ok(rule) ==> rule@ == (PolicyRuleModel {
                name: name@,
                matcher: matcher@,
                decision: decision@,
            }),
    {
        if is_blank(name) {
            return Err(PolicyError::InvalidRule("rule name cannot be empty".to_owned()));
        }
        Ok(PolicyRule { name: name.to_owned(), matcher, decision })
    }

    /// Returns the rule name.
    pub fn name(&self) -> (r: &str)
        ensures
            r@ == self@.name,
    {
        self.name.as_str()
    }

    /// Returns the decision attached to the rule.
    pub fn decision(&self) -> (r: &PolicyDecision)
        ensures
            r@ == self@.decision,
    {
        &self.decision
    }

    /// Returns whether the rule covers the request.
    pub fn matches(&self, request: &PolicyRequest) -> (r: bool)
        ensures
            r == spec_rule_matches(self@.matcher, request@),
    {
        self.matcher.matches(request)
    }
}

/// The first rule in the list whose matcher accepts the request, if any.
pub open spec fn spec_first_match(rules: Seq<PolicyRuleModel>, req: PolicyRequestModel) -> Option<
    PolicyRuleModel,
>
    decreases rules.len(),
{
    if rules.len() == 0 {
        None
    } else if spec_rule_matches(rules[0].matcher, req) {
        Some(rules[0])
    } else {
        spec_first_match(rules.drop_first(), req)
    }
}

/// What a rule-based engine yields for a request: the first matching
/// rule's decision, or the default decision when no rule matches.
pub open spec fn spec_evaluate(
    rules: Seq<PolicyRuleModel>,
    default_decision: PolicyDecisionModel,
    req: PolicyRequestModel,
) -> PolicyDecisionModel {
    match spec_first_match(rules, req) {
        Some(rule) => rule.decision,
        None => default_decision,
    }
}

/// Rule-based, in-memory policy engine.
#[derive(Debug)]
pub struct RuleBasedEngine {
    rules: Vec<PolicyRule>,
    default_decision: PolicyDecision,
}

impl RuleBasedEngine {
    /// The ordered rule list.
    pub closed spec fn spec_rules(&self) -> Seq<PolicyRuleModel> {
        self.rules.deep_view()
    }

    /// The default decision.
    pub closed spec fn spec_default(&self) -> PolicyDecisionModel {
        self.default_decision@
    }

    /// Constructs a new rule-based engine with the provided default
    /// decision and no rules.
    pub fn new(default_decision: PolicyDecision) -> (r: RuleBasedEngine)
        ensures
            r.spec_rules() == Seq::<PolicyRuleModel>::empty(),
            r.spec_default() == default_decision@,
    {
        let r = RuleBasedEngine { rules: Vec::new(), default_decision };
        proof {
            assert(r.spec_rules() =~= Seq::<PolicyRuleModel>::empty());
        }
        r
    }

    /// Adds a rule to the engine, after the rules already present.
    pub fn add_rule(&mut self, rule: PolicyRule)
        ensures
            final(self).spec_rules() == old(self).spec_rules().push(rule@),
            final(self).spec_default() == old(self).spec_default(),
    {
        let ghost before = self.rules.deep_view();
        let ghost rule_model = rule@;
        self.rules.push(rule);
        proof {
            assert(self.rules.deep_view() =~= before.push(rule_model));
        }
    }

    /// Evaluates the supplied policy request: returns the decision of the
    /// first rule whose matcher accepts the request, or the default
    /// decision when none does.
    pub fn evaluate(&self, request: &PolicyRequest) -> (r: PolicyResult<PolicyDecision>)
        ensures
            r matches Ok(d) && d@ == spec_evaluate(
                self.spec_rules(),
                self.spec_default(),
                request@,
            ),
    {
        let n = self.rules.len();
        proof {
            assert(self.spec_rules().skip(0) =~= self.spec_rules());
        }
        let mut i: usize = 0;
        while i < n
            invariant
                0 <= i <= n,
                n == self.rules@.len(),
                n == self.spec_rules().len(),
                spec_first_match(self.spec_rules(), request@) == spec_first_match(
                    self.spec_rules().skip(i as int),
                    request@,
                ),
            decreases n - i,
        {
            proof {
                assert(self.rules.deep_view()[i as int] == self.rules@[i as int]@);
                assert(self.spec_rules().skip(i as int)[0] == self.spec_rules()[i as int]);
            }
            if self.rules[i].matches(request) {
                return Ok(self.rules[i].decision().clone());
            }
            proof {
                assert(self.spec_rules().skip(i as int).drop_first() =~= self.spec_rules().skip(
                    i as int + 1,
                ));
            }
            i = i + 1;
        }
        proof {
            assert(self.spec_rules().skip(n as int) =~= Seq::<PolicyRuleModel>::empty());
        }
        Ok(self.default_decision.clone())
    }
}

/// Law: evaluation picks the first matching rule. If some rule in the list
/// matches the request, the first match exists at an index before which no
/// rule matches; if none matches, the first match is absent, so evaluation
/// falls back to the default decision.
pub proof fn lemma_first_match_is_first(rules: Seq<PolicyRuleModel>, req: PolicyRequestModel)
    ensures
        match spec_first_match(rules, req) {
            Some(rule) => exists|i: int|
                {
                    &&& 0 <= i < rules.len()
                    &&& rules[i] == rule
                    &&& spec_rule_matches(rules[i].matcher, req)
                    &&& forall|j: int| 0 <= j < i ==> !spec_rule_matches(
                        #[trigger] rules[j].matcher,
                        req,
                    )
                },
            None => forall|j: int|
                0 <= j < rules.len() ==> !spec_rule_matches(#[trigger] rules[j].matcher, req),
        },
    decreases rules.len(),
{
    if rules.len() == 0 {
    } else if spec_rule_matches(rules[0].matcher, req) {
        let i: int = 0;
        assert(0 <= i < rules.len() && rules[i] == rules[0]);
    } else {
        lemma_first_match_is_first(rules.drop_first(), req);
        let rest = rules.drop_first();
        match spec_first_match(rest, req) {
            Some(rule) => {
                let i = choose|i: int|
                    {
                        &&& 0 <= i < rest.len()
                        &&& rest[i] == rule
                        &&& spec_rule_matches(rest[i].matcher, req)
                        &&& forall|j: int| 0 <= j < i ==> !spec_rule_matches(
                            #[trigger] rest[j].matcher,
                            req,
                        )
                    };
                assert(rules[i + 1] == rest[i]);
                assert forall|j: int| 0 <= j < i + 1 implies !spec_rule_matches(
                    #[trigger] rules[j].matcher,
                    req,
                ) by {
                    if j > 0 {
                        assert(rest[j - 1] == rules[j]);
                    }
                }
            },
            None => {
                assert forall|j: int| 0 <= j < rules.len() implies !spec_rule_matches(
                    #[trigger] rules[j].matcher,
                    req,
                ) by {
                    if j > 0 {
                        assert(rest[j - 1] == rules[j]);
                    }
                }
            },
        }
    }
}

} // verus!
