//! What a job is allowed to be: risk, permitted tiers, and whether a human
//! should approve.
use crate::amount::Amount;
use crate::text::contains_text;
use crate::types::{CapabilityTier, EcologicalJobSpec};
use vstd::prelude::*;

verus! {

/// The outcome of policy evaluation. `risk_score` lies in `[0, 1]`;
/// `allowed_tiers` is a non-empty set held as a list.
///
/// `requires_human_approval` is advisory: it is recorded on the audit log and
/// does not by itself refuse a job.
#[derive(Clone, Debug, PartialEq, Eq)]
pub struct PolicyDecision {
    pub risk_score: Amount,
    pub allowed_tiers: Vec<CapabilityTier>,
    pub requires_human_approval: bool,
    pub notes: Vec<String>,
}

/// A [`PolicyDecision`] with its lists as sequences.
pub ghost struct PolicyVerdict {
    pub risk_score: Amount,
    pub allowed_tiers: Seq<CapabilityTier>,
    pub requires_human_approval: bool,
    pub notes: Seq<Seq<char>>,
}

impl DeepView for PolicyDecision {
    type V = PolicyVerdict;

    open spec fn deep_view(&self) -> PolicyVerdict {
        PolicyVerdict {
            risk_score: self.risk_score,
            allowed_tiers: self.allowed_tiers@,
            requires_human_approval: self.requires_human_approval,
            notes: self.notes.deep_view(),
        }
    }
}

impl PolicyDecision {
    /// The risk score is at most one and some tier is allowed.
    pub open spec fn well_formed(&self) -> bool {
        &&& self.risk_score.micros <= Amount::units(1)
        &&& self.allowed_tiers@.len() > 0
    }

    /// Whether the decision permits `tier`.
    pub fn allows(&self, tier: &CapabilityTier) -> (r: bool)
        ensures
            r == self.allowed_tiers@.contains(*tier),
    {
        let mut i: usize = 0;
        while i < self.allowed_tiers.len()
            invariant
                i <= self.allowed_tiers.len(),
                forall|j: int| 0 <= j < i ==> self.allowed_tiers@[j] != *tier,
            decreases self.allowed_tiers.len() - i,
        {
            if self.allowed_tiers[i] == *tier {
                return true;
            }
            i += 1;
        }
        false
    }
}

/// The policy could not be evaluated.
#[derive(Clone, Copy, Debug, PartialEq, Eq, Structural)]
pub struct PolicyUnavailable;

/// Judges a job by its specification alone.
///
/// The relation says which answers the engine may give for which job. An
/// engine that states nothing leaves it as it is; whoever asks the engine
/// states its own result over it.
pub trait PolicyEngine: Send + Sync {
    /// Whether `answer` is one that this engine may give for `job`.
    open spec fn may_judge(
        &self,
        job: EcologicalJobSpec,
        answer: Result<PolicyDecision, PolicyUnavailable>,
    ) -> bool {
        true
    }

    fn evaluate(&self, job: &EcologicalJobSpec) -> (answer: Result<
        PolicyDecision,
        PolicyUnavailable,
    >)
        ensures
            self.may_judge(*job, answer),
    ;
}

/// Risk of a job that carries no sensitive tag: 0.1.
pub const BASE_RISK_MICROS: u128 = 100_000;

/// Risk of a job tagged as geoengineering: 0.9.
pub const GEOENGINEERING_RISK_MICROS: u128 = 900_000;

/// Least risk of a job tagged as critical infrastructure: 0.8.
pub const CRITICAL_INFRASTRUCTURE_RISK_MICROS: u128 = 800_000;

/// The decision of [`SimplePolicyEngine`] on a job with these domain tags.
///
/// A geoengineering job has risk 0.9 and wants human approval; a critical
/// infrastructure job has risk at least 0.8 and wants human approval; any
/// other job has risk 0.1. Every tier is allowed. Each rule that applies
/// leaves a note, in this order.
pub open spec fn simple_policy(tags: Seq<Seq<char>>) -> PolicyVerdict {
    let geo = tags.contains("geoengineering"@);
    let critical = tags.contains("critical_infrastructure"@);
    let geo_notes = if geo {
        seq!["geoengineering scenario: enforce HITL & multi-party approval"@]
    } else {
        Seq::<Seq<char>>::empty()
    };
    let critical_notes = if critical {
        seq!["critical infrastructure modeling: enforce HITL"@]
    } else {
        Seq::<Seq<char>>::empty()
    };
    PolicyVerdict {
        risk_score: Amount {
            micros: if geo {
                GEOENGINEERING_RISK_MICROS
            } else if critical {
                CRITICAL_INFRASTRUCTURE_RISK_MICROS
            } else {
                BASE_RISK_MICROS
            },
        },
        allowed_tiers: seq![CapabilityTier::Tier1, CapabilityTier::Tier2, CapabilityTier::Tier3],
        requires_human_approval: geo || critical,
        notes: geo_notes + critical_notes,
    }
}

/// A policy that knows two sensitive domains and allows every tier.
pub struct SimplePolicyEngine;

impl PolicyEngine for SimplePolicyEngine {
    /// The simple policy gives one answer for a job: the decision of
    /// [`simple_policy`] on its tags.
    open spec fn may_judge(
        &self,
        job: EcologicalJobSpec,
        answer: Result<PolicyDecision, PolicyUnavailable>,
    ) -> bool {
        answer matches Ok(decision) && decision.deep_view() == simple_policy(
            job.domain_tags.deep_view(),
        ) && decision.well_formed()
    }

    fn evaluate(&self, job: &EcologicalJobSpec) -> (r: Result<PolicyDecision, PolicyUnavailable>)
        ensures
            r matches Ok(decision) && decision.deep_view() == simple_policy(
                job.domain_tags.deep_view(),
            ) && decision.well_formed(),
    {
        let mut risk = Amount::from_micros(BASE_RISK_MICROS);
        let mut requires_human = false;
        let mut notes: Vec<String> = Vec::new();

        if contains_text(&job.domain_tags, &"geoengineering".to_string()) {
            risk = Amount::from_micros(GEOENGINEERING_RISK_MICROS);
            requires_human = true;
            notes.push("geoengineering scenario: enforce HITL & multi-party approval".to_string());
        }
        if contains_text(&job.domain_tags, &"critical_infrastructure".to_string()) {
            risk = risk.larger_of(Amount::from_micros(CRITICAL_INFRASTRUCTURE_RISK_MICROS));
            requires_human = true;
            notes.push("critical infrastructure modeling: enforce HITL".to_string());
        }
        let mut allowed_tiers: Vec<CapabilityTier> = Vec::new();
        allowed_tiers.push(CapabilityTier::Tier1);
        allowed_tiers.push(CapabilityTier::Tier2);
        allowed_tiers.push(CapabilityTier::Tier3);

        let decision = PolicyDecision {
            risk_score: risk,
            allowed_tiers,
            requires_human_approval: requires_human,
            notes,
        };
        assert(decision.notes.deep_view() =~= simple_policy(job.domain_tags.deep_view()).notes);
        assert(decision.allowed_tiers@ =~= simple_policy(job.domain_tags.deep_view()).allowed_tiers);
        Ok(decision)
    }
}

/// The two mandatory rules: a geoengineering job has risk at least 0.9, a
/// critical infrastructure job has risk at least 0.8, and either wants human
/// approval. Every job may ask for every tier.
pub proof fn law_sensitive_domains_want_approval(tags: Seq<Seq<char>>)
    ensures
        tags.contains("geoengineering"@) ==> simple_policy(tags).requires_human_approval
            && simple_policy(tags).risk_score.micros >= GEOENGINEERING_RISK_MICROS,
        tags.contains("critical_infrastructure"@) ==> simple_policy(tags).requires_human_approval
            && simple_policy(tags).risk_score.micros >= CRITICAL_INFRASTRUCTURE_RISK_MICROS,
        simple_policy(tags).risk_score.micros <= Amount::units(1),
        forall|tier: CapabilityTier| simple_policy(tags).allowed_tiers.contains(tier),
{
    let allowed = simple_policy(tags).allowed_tiers;
    assert forall|tier: CapabilityTier| allowed.contains(tier) by {
        match tier {
            CapabilityTier::Tier1 => {
                assert(allowed[0] == tier);
            },
            CapabilityTier::Tier2 => {
                assert(allowed[1] == tier);
            },
            CapabilityTier::Tier3 => {
                assert(allowed[2] == tier);
            },
        }
    }
}

} // verus!
