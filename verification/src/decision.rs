//! Policy decision types returned by engines.

use vstd::prelude::*;

verus! {

/// Describes the outcome of a policy evaluation.
#[derive(Debug, Clone, Copy, PartialEq, Eq, Structural)]
pub enum DecisionKind {
    /// Action is permitted without further intervention.
    Allow,
    /// Action is rejected outright.
    Deny,
    /// Action requires human approval or additional checks before proceeding.
    Escalate,
}

/// Mathematical model of a policy decision.
pub ghost struct PolicyDecisionModel {
    /// The decision kind.
    pub kind: DecisionKind,
    /// The optional reason text.
    pub reason: Option<Seq<char>>,
    /// The approver identifiers, meaningful for escalations.
    pub approvals: Seq<Seq<char>>,
}

/// Structured decision emitted by a policy engine.
#[derive(Debug)]
pub struct PolicyDecision {
    kind: DecisionKind,
    reason: Option<String>,
    required_approvals: Vec<String>,
}

impl View for PolicyDecision {
    type V = PolicyDecisionModel;

    closed spec fn view(&self) -> PolicyDecisionModel {
        PolicyDecisionModel {
            kind: self.kind,
            reason: match self.reason {
                Some(r) => Some(r@),
                None => None,
            },
            approvals: self.required_approvals.deep_view(),
        }
    }
}

impl Clone for PolicyDecision {
    fn clone(&self) -> (res: Self)
        ensures
            res@ == self@,
    {
        let reason = match &self.reason {
            Some(r) => Some(r.clone()),
            None => None,
        };
        let approvals = self.required_approvals.clone();
        proof {
            assert(approvals.deep_view() =~= self.required_approvals.deep_view());
        }
        PolicyDecision { kind: self.kind, reason, required_approvals: approvals }
    }
}

impl PolicyDecision {
    /// Returns an allow decision with no additional context.
    pub fn allow() -> (r: PolicyDecision)
        ensures
            r@.kind is Allow,
            r@.reason is None,
            r@.approvals == Seq::<Seq<char>>::empty(),
    {
        let r = PolicyDecision {
            kind: DecisionKind::Allow,
            reason: None,
            required_approvals: Vec::new(),
        };
        proof {
            assert(r@.approvals =~= Seq::<Seq<char>>::empty());
        }
        r
    }

    /// Returns a deny decision with an explanatory reason.
    pub fn deny(reason: &str) -> (r: PolicyDecision)
        ensures
            r@.kind is Deny,
            r@.reason == Some(reason@),
            r@.approvals == Seq::<Seq<char>>::empty(),
    {
        let r = PolicyDecision {
            kind: DecisionKind::Deny,
            reason: Some(reason.to_owned()),
            required_approvals: Vec::new(),
        };
        proof {
            assert(r@.approvals =~= Seq::<Seq<char>>::empty());
        }
        r
    }

    /// Returns an escalate decision with optional approver identifiers.
    pub fn escalate(reason: &str, approvers: Vec<String>) -> (r: PolicyDecision)
        ensures
            r@.kind is Escalate,
            r@.reason == Some(reason@),
            r@.approvals == approvers.deep_view(),
    {
        PolicyDecision {
            kind: DecisionKind::Escalate,
            reason: Some(reason.to_owned()),
            required_approvals: approvers,
        }
    }

    /// Returns the decision kind.
    pub fn kind(&self) -> (r: DecisionKind)
        ensures
            r == self@.kind,
    {
        self.kind
    }

    /// Returns true when the decision allows the action to proceed.
    pub fn is_allow(&self) -> (r: bool)
        ensures
            r == (self@.kind is Allow),
    {
        matches!(self.kind, DecisionKind::Allow)
    }

    /// Returns true when the decision denies the action.
    pub fn is_deny(&self) -> (r: bool)
        ensures
            r == (self@.kind is Deny),
    {
        matches!(self.kind, DecisionKind::Deny)
    }

    /// Returns true when additional approvals are required.
    pub fn is_escalate(&self) -> (r: bool)
        ensures
            r == (self@.kind is Escalate),
    {
        matches!(self.kind, DecisionKind::Escalate)
    }

    /// Returns the optional reason associated with the decision.
    pub fn reason(&self) -> (r: Option<&str>)
        ensures
            match r {
                Some(s) => self@.reason == Some(s@),
                None => self@.reason is None,
            },
    {
        match &self.reason {
            Some(s) => Some(s.as_str()),
            None => None,
        }
    }

    /// Returns approver identifiers required for escalation decisions.
    pub fn required_approvals(&self) -> (r: &Vec<String>)
        ensures
            r.deep_view() == self@.approvals,
    {
        &self.required_approvals
    }
}

} // verus!
