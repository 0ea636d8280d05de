//! Cognitive strategy specifications: strategy memory, agent self-model,
//! partnership, trust delegation, proactivity and communication.
use vstd::prelude::*;

use crate::m3_a::{HistoricalFalse, StrategyDomain, StrategyRollbackPolicy};
use crate::m3_b::StrategyRuntimeCompatibility;
use crate::primitives::{
    ContentRef, DeliveryMode, DurationMs, Error, SchemaDigest, SchemaVersion, Scope,
    StrategyVersionRef,
};
use crate::tags::{check_distinct_tags, check_has_tag, distinct_tags, has_tag, Tagged};
use crate::text::{blank, is_blank};

verus! {

#[derive(Debug, Clone, PartialEq, Eq)]
pub struct CognitiveStrategyEvidencePolicy {
    pub schema_version: SchemaVersion,
    pub minimum_verified_outcomes: u16,
    pub minimum_distinct_timepoints: u16,
    pub freshness_window: DurationMs,
    pub decay_after: DurationMs,
    pub expire_after: DurationMs,
    pub require_owner_feedback: bool,
}

impl CognitiveStrategyEvidencePolicy {
    pub open spec fn valid(&self) -> bool {
        &&& self.schema_version.0 != 0
        &&& 1 <= self.minimum_verified_outcomes <= 64
        &&& 1 <= self.minimum_distinct_timepoints <= self.minimum_verified_outcomes
        &&& self.freshness_window.0 != 0
        &&& self.freshness_window.0 <= self.decay_after.0 <= self.expire_after.0
    }

    pub fn validate(&self) -> (r: Result<(), Error>)
        ensures
            r is Ok <==> self.valid(),
    {
        if self.schema_version.0 == 0 || self.minimum_verified_outcomes == 0
            || self.minimum_verified_outcomes > 64 || self.minimum_distinct_timepoints == 0
            || self.minimum_distinct_timepoints > self.minimum_verified_outcomes
            || self.freshness_window.0 == 0 || self.decay_after.0 < self.freshness_window.0
            || self.expire_after.0 < self.decay_after.0 {
            return Err(
                Error(
                    "cognitive strategy evidence policy is incomplete or unbounded".to_string(),
                ),
            );
        }
        Ok(())
    }
}

#[derive(Debug, Clone, PartialEq, Eq)]
pub struct CognitiveStrategyEnvelope {
    pub schema_version: SchemaVersion,
    pub domain: StrategyDomain,
    pub version: StrategyVersionRef,
    pub scope: Scope,
    pub content_ref: ContentRef,
    pub content_digest: SchemaDigest,
    pub compatibility: StrategyRuntimeCompatibility,
    pub evidence_policy: CognitiveStrategyEvidencePolicy,
    pub rollback_policy: StrategyRollbackPolicy,
}

impl CognitiveStrategyEnvelope {
    pub open spec fn valid_for(&self, expected: StrategyDomain) -> bool {
        &&& self.compatibility.valid()
        &&& self.evidence_policy.valid()
        &&& self.rollback_policy.valid()
        &&& self.schema_version.0 != 0
        &&& self.domain == expected
        &&& !is_blank(self.version.0@)
        &&& !is_blank(self.scope.0@)
        &&& !is_blank(self.content_ref.0@)
        &&& !is_blank(self.content_digest.0@)
    }

    pub fn validate_for(&self, expected: StrategyDomain) -> (r: Result<(), Error>)
        ensures
            r is Ok <==> self.valid_for(expected),
    {
        self.compatibility.validate()?;
        self.evidence_policy.validate()?;
        self.rollback_policy.validate()?;
        if self.schema_version.0 == 0 || self.domain != expected || blank(self.version.0.as_str())
            || blank(self.scope.0.as_str()) || blank(self.content_ref.0.as_str()) || blank(
            self.content_digest.0.as_str(),
        ) {
            return Err(
                Error(
                    "cognitive strategy envelope identity is incomplete or mismatched".to_string(),
                ),
            );
        }
        Ok(())
    }
}

#[derive(Debug, Clone, Copy, PartialEq, Eq, Structural)]
pub enum StrategyConflictPolicy {
    PreserveAndReevaluate,
}

#[derive(Debug, Clone, Copy, PartialEq, Eq, Structural)]
pub enum StrategyFreshnessBasis {
    VerifiedEventTime,
}

#[derive(Debug, Clone, Copy, PartialEq, Eq, Structural)]
pub enum UntrustedEdgePolicy {
    Deny,
}

#[derive(Debug, Clone, PartialEq, Eq)]
pub struct StrategyMemorySpec {
    pub envelope: CognitiveStrategyEnvelope,
    pub conflict_policy: StrategyConflictPolicy,
    pub freshness_basis: StrategyFreshnessBasis,
    pub untrusted_edge_policy: UntrustedEdgePolicy,
    pub decay_step_basis_points: u16,
    pub maximum_derived_edges: u16,
    pub additive_schema_only: bool,
    pub rollback_on_active_evidence_loss: bool,
}

impl StrategyMemorySpec {
    pub open spec fn valid(&self) -> bool {
        &&& self.envelope.valid_for(StrategyDomain::StrategyMemory)
        &&& 1 <= self.decay_step_basis_points <= 10_000
        &&& 1 <= self.maximum_derived_edges <= 256
        &&& self.additive_schema_only
        &&& self.rollback_on_active_evidence_loss
    }

    pub fn validate(&self) -> (r: Result<(), Error>)
        ensures
            r is Ok <==> self.valid(),
    {
        self.envelope.validate_for(StrategyDomain::StrategyMemory)?;
        if self.decay_step_basis_points == 0 || self.decay_step_basis_points > 10_000
            || self.maximum_derived_edges == 0 || self.maximum_derived_edges > 256
            || !self.additive_schema_only || !self.rollback_on_active_evidence_loss {
            return Err(
                Error(
                    "strategy memory policy permits silent, breaking, or unbounded evolution".to_string(),
                ),
            );
        }
        Ok(())
    }
}

#[derive(Debug, Clone, Copy, PartialEq, Eq, Structural)]
pub enum AgentSelfAggregation {
    ScopedReliabilityAndGap,
}

#[derive(Debug, Clone, Copy, PartialEq, Eq, Structural)]
pub enum SelfAssessmentEffect {
    LowerCeilingOnly,
}

#[derive(Debug, Clone, PartialEq, Eq)]
pub struct AgentSelfStrategySpec {
    pub envelope: CognitiveStrategyEnvelope,
    pub aggregation: AgentSelfAggregation,
    pub self_assessment_effect: SelfAssessmentEffect,
    pub evidence_window: DurationMs,
    pub verified_success_weight_basis_points: u16,
    pub verified_failure_weight_basis_points: u16,
    pub minimum_scope_evidence: u16,
}

impl AgentSelfStrategySpec {
    pub open spec fn valid(&self) -> bool {
        &&& self.envelope.valid_for(StrategyDomain::AgentSelf)
        &&& self.evidence_window.0 != 0
        &&& self.evidence_window.0 <= self.envelope.evidence_policy.expire_after.0
        &&& self.verified_success_weight_basis_points != 0
        &&& self.verified_failure_weight_basis_points != 0
        &&& self.verified_success_weight_basis_points + self.verified_failure_weight_basis_points
            == 10_000
        &&& self.minimum_scope_evidence >= self.envelope.evidence_policy.minimum_verified_outcomes
    }

    pub fn validate(&self) -> (r: Result<(), Error>)
        ensures
            r is Ok <==> self.valid(),
    {
        self.envelope.validate_for(StrategyDomain::AgentSelf)?;
        let weights: u32 = self.verified_success_weight_basis_points as u32
            + self.verified_failure_weight_basis_points as u32;
        if self.evidence_window.0 == 0 || self.evidence_window.0
            > self.envelope.evidence_policy.expire_after.0
            || self.verified_success_weight_basis_points == 0
            || self.verified_failure_weight_basis_points == 0 || weights != 10_000
            || self.minimum_scope_evidence < self.envelope.evidence_policy.minimum_verified_outcomes {
            return Err(
                Error(
                    "agent self strategy lacks scoped result evidence or bounded weights".to_string(),
                ),
            );
        }
        Ok(())
    }
}

#[derive(Debug, Clone, Copy, PartialEq, Eq, PartialOrd, Ord, Structural)]
pub enum PartnershipAxis {
    Complementarity,
    Collaboration,
    Correction,
    ExpressionPreference,
}

impl Tagged for PartnershipAxis {
    open spec fn tag(&self) -> nat {
        match self {
            PartnershipAxis::Complementarity => 0,
            PartnershipAxis::Collaboration => 1,
            PartnershipAxis::Correction => 2,
            PartnershipAxis::ExpressionPreference => 3,
        }
    }

    fn tag_of(&self) -> (r: u8) {
        match self {
            PartnershipAxis::Complementarity => 0,
            PartnershipAxis::Collaboration => 1,
            PartnershipAxis::Correction => 2,
            PartnershipAxis::ExpressionPreference => 3,
        }
    }
}


#[derive(Debug, Clone, Copy, PartialEq, Eq, Structural)]
pub enum PartnershipOwnerCorrection {
    AuthoritativeEvidence,
}

#[derive(Debug, Clone, Copy, PartialEq, Eq, Structural)]
pub enum ExternalFeedbackRole {
    ContextOnly,
}

#[derive(Debug, Clone, PartialEq, Eq)]
pub struct PartnershipStrategySpec {
    pub envelope: CognitiveStrategyEnvelope,
    pub axes: Vec<PartnershipAxis>,
    pub owner_correction: PartnershipOwnerCorrection,
    pub external_feedback: ExternalFeedbackRole,
    pub minimum_collaboration_timepoints: u16,
    pub short_term_exception_can_stabilize: HistoricalFalse,
}

impl PartnershipStrategySpec {
    pub open spec fn valid(&self) -> bool {
        &&& self.envelope.valid_for(StrategyDomain::Partnership)
        &&& self.axes@.len() > 0
        &&& distinct_tags(self.axes@)
        &&& has_tag(self.axes@, 2)
        &&& self.minimum_collaboration_timepoints >= 2
        &&& self.minimum_collaboration_timepoints
            >= self.envelope.evidence_policy.minimum_distinct_timepoints
    }

    pub fn validate(&self) -> (r: Result<(), Error>)
        ensures
            r is Ok <==> self.valid(),
    {
        self.envelope.validate_for(StrategyDomain::Partnership)?;
        if self.axes.len() == 0 || !check_distinct_tags(&self.axes) || !check_has_tag(
            &self.axes,
            2,
        ) || self.minimum_collaboration_timepoints < 2 || self.minimum_collaboration_timepoints
            < self.envelope.evidence_policy.minimum_distinct_timepoints {
            return Err(
                Error(
                    "partnership strategy cannot stabilize bounded correction evidence".to_string(),
                ),
            );
        }
        Ok(())
    }
}

#[derive(Debug, Clone, Copy, PartialEq, Eq, Structural)]
pub enum TrustAutomaticDirection {
    CautionOnly,
}

#[derive(Debug, Clone, Copy, PartialEq, Eq, PartialOrd, Ord, Structural)]
pub enum DelegationRecommendationCeiling {
    Suggest,
    Prepare,
    RequestNarrowGrant,
}

#[derive(Debug, Clone, PartialEq, Eq)]
pub struct TrustDelegationStrategySpec {
    pub envelope: CognitiveStrategyEnvelope,
    pub automatic_direction: TrustAutomaticDirection,
    pub maximum_recommendation: DelegationRecommendationCeiling,
    pub verified_successes_before_recommendation: u16,
    pub failures_before_downgrade: u16,
    pub owner_review_required_for_expansion: bool,
}

impl TrustDelegationStrategySpec {
    pub open spec fn valid(&self) -> bool {
        &&& self.envelope.valid_for(StrategyDomain::TrustDelegation)
        &&& self.verified_successes_before_recommendation
            >= self.envelope.evidence_policy.minimum_verified_outcomes
        &&& self.failures_before_downgrade != 0
        &&& self.owner_review_required_for_expansion
    }

    pub fn validate(&self) -> (r: Result<(), Error>)
        ensures
            r is Ok <==> self.valid(),
    {
        self.envelope.validate_for(StrategyDomain::TrustDelegation)?;
        if self.verified_successes_before_recommendation
            < self.envelope.evidence_policy.minimum_verified_outcomes
            || self.failures_before_downgrade == 0 || !self.owner_review_required_for_expansion {
            return Err(
                Error(
                    "trust delegation strategy can expand authority without owner review".to_string(),
                ),
            );
        }
        Ok(())
    }
}

#[derive(Debug, Clone, PartialEq, Eq)]
pub struct AttentionCostProfile {
    pub schema_version: SchemaVersion,
    pub capacity: u32,
    pub interrupt_cost: u32,
    pub digest_cost: u32,
    pub ask_to_learn_cost: u32,
    pub rejection_cooldown_ticks: u32,
}

impl AttentionCostProfile {
    pub open spec fn valid(&self) -> bool {
        &&& self.schema_version.0 != 0
        &&& self.capacity != 0
        &&& 1 <= self.interrupt_cost <= self.capacity
        &&& 1 <= self.digest_cost <= self.capacity
        &&& 1 <= self.ask_to_learn_cost <= self.capacity
        &&& self.rejection_cooldown_ticks != 0
    }

    pub fn validate(&self) -> (r: Result<(), Error>)
        ensures
            r is Ok <==> self.valid(),
    {
        if self.schema_version.0 == 0 || self.capacity == 0 || self.interrupt_cost == 0
            || self.digest_cost == 0 || self.ask_to_learn_cost == 0 || self.interrupt_cost
            > self.capacity || self.digest_cost > self.capacity || self.ask_to_learn_cost
            > self.capacity || self.rejection_cooldown_ticks == 0 {
            return Err(Error("attention cost profile is incomplete or unbounded".to_string()));
        }
        Ok(())
    }
}

#[derive(Debug, Clone, Copy, PartialEq, Eq, Structural)]
pub enum CommitmentHandling {
    DeterministicAndPreserved,
}

#[derive(Debug, Clone, PartialEq, Eq)]
pub struct ProactivityStrategySpec {
    pub envelope: CognitiveStrategyEnvelope,
    pub minimum_value_basis_points: u16,
    pub preferred_delivery: DeliveryMode,
    pub attention: AttentionCostProfile,
    pub commitment_handling: CommitmentHandling,
    pub maximum_interruptions_per_tick: u16,
}

impl ProactivityStrategySpec {
    pub open spec fn valid(&self) -> bool {
        &&& self.envelope.valid_for(StrategyDomain::Proactivity)
        &&& self.attention.valid()
        &&& 1 <= self.minimum_value_basis_points <= 10_000
        &&& 1 <= self.maximum_interruptions_per_tick <= 16
    }

    pub fn validate(&self) -> (r: Result<(), Error>)
        ensures
            r is Ok <==> self.valid(),
    {
        self.envelope.validate_for(StrategyDomain::Proactivity)?;
        self.attention.validate()?;
        if self.minimum_value_basis_points == 0 || self.minimum_value_basis_points > 10_000
            || self.maximum_interruptions_per_tick == 0 || self.maximum_interruptions_per_tick
            > 16 {
            return Err(
                Error(
                    "proactivity strategy can bypass value or attention boundaries".to_string(),
                ),
            );
        }
        Ok(())
    }
}

#[derive(Debug, Clone, Copy, PartialEq, Eq, Structural)]
pub enum CommunicationExpressionProfile {
    Concise,
    Contextual,
    ExplicitUncertainty,
}

#[derive(Debug, Clone, Copy, PartialEq, Eq, Structural)]
pub enum CommunicationSummaryProfile {
    PerDecision,
    PerCheckpoint,
    FinalOnly,
}

#[derive(Debug, Clone, Copy, PartialEq, Eq, Structural)]
pub enum CommunicationSurfacePreference {
    CurrentAuthorizedSurface,
    OwnerLocalDigest,
}

#[derive(Debug, Clone, PartialEq, Eq)]
pub struct CommunicationStrategySpec {
    pub envelope: CognitiveStrategyEnvelope,
    pub expression: CommunicationExpressionProfile,
    pub summary: CommunicationSummaryProfile,
    pub surface: CommunicationSurfacePreference,
    pub external_feedback: ExternalFeedbackRole,
    pub maximum_summary_items: u16,
}

impl CommunicationStrategySpec {
    pub open spec fn valid(&self) -> bool {
        &&& self.envelope.valid_for(StrategyDomain::Communication)
        &&& 1 <= self.maximum_summary_items <= 64
    }

    pub fn validate(&self) -> (r: Result<(), Error>)
        ensures
            r is Ok <==> self.valid(),
    {
        self.envelope.validate_for(StrategyDomain::Communication)?;
        if self.maximum_summary_items == 0 || self.maximum_summary_items > 64 {
            return Err(
                Error("communication strategy summary boundary is zero or unbounded".to_string()),
            );
        }
        Ok(())
    }
}

#[derive(Debug, Clone, PartialEq, Eq)]
pub enum M3CStrategySpec {
    StrategyMemory(StrategyMemorySpec),
    AgentSelf(AgentSelfStrategySpec),
    Partnership(PartnershipStrategySpec),
    TrustDelegation(TrustDelegationStrategySpec),
    Proactivity(ProactivityStrategySpec),
    Communication(CommunicationStrategySpec),
}

impl M3CStrategySpec {
    pub open spec fn envelope_of(&self) -> CognitiveStrategyEnvelope {
        match self {
            M3CStrategySpec::StrategyMemory(spec) => spec.envelope,
            M3CStrategySpec::AgentSelf(spec) => spec.envelope,
            M3CStrategySpec::Partnership(spec) => spec.envelope,
            M3CStrategySpec::TrustDelegation(spec) => spec.envelope,
            M3CStrategySpec::Proactivity(spec) => spec.envelope,
            M3CStrategySpec::Communication(spec) => spec.envelope,
        }
    }

    pub fn envelope(&self) -> (r: &CognitiveStrategyEnvelope)
        ensures
            *r == self.envelope_of(),
    {
        match self {
            M3CStrategySpec::StrategyMemory(spec) => &spec.envelope,
            M3CStrategySpec::AgentSelf(spec) => &spec.envelope,
            M3CStrategySpec::Partnership(spec) => &spec.envelope,
            M3CStrategySpec::TrustDelegation(spec) => &spec.envelope,
            M3CStrategySpec::Proactivity(spec) => &spec.envelope,
            M3CStrategySpec::Communication(spec) => &spec.envelope,
        }
    }

    pub open spec fn valid(&self) -> bool {
        match self {
            M3CStrategySpec::StrategyMemory(spec) => spec.valid(),
            M3CStrategySpec::AgentSelf(spec) => spec.valid(),
            M3CStrategySpec::Partnership(spec) => spec.valid(),
            M3CStrategySpec::TrustDelegation(spec) => spec.valid(),
            M3CStrategySpec::Proactivity(spec) => spec.valid(),
            M3CStrategySpec::Communication(spec) => spec.valid(),
        }
    }

    pub fn validate(&self) -> (r: Result<(), Error>)
        ensures
            r is Ok <==> self.valid(),
    {
        match self {
            M3CStrategySpec::StrategyMemory(spec) => spec.validate(),
            M3CStrategySpec::AgentSelf(spec) => spec.validate(),
            M3CStrategySpec::Partnership(spec) => spec.validate(),
            M3CStrategySpec::TrustDelegation(spec) => spec.validate(),
            M3CStrategySpec::Proactivity(spec) => spec.validate(),
            M3CStrategySpec::Communication(spec) => spec.validate(),
        }
    }
}

} // verus!
