//! Controlled evolution: strategy candidates, replay, evaluation, activation
//! and rollback.
use vstd::prelude::*;

use crate::primitives::{
    ActiveStrategyId, CandidateId, ContentRef, DriverProfileRef, Error, EvaluationCaseRef, EventId,
    EvidenceRef, EvolutionAggregateRef, EvolutionEvaluationRef, EvolutionSnapshotRef,
    ExactReplayReportRef, InvariantResultRef, LoopSpecRef, ModelProfileRef, OwnerControlRef,
    PolicyProfileRef, Provenance, ReplayBundleRef, RunId, SchemaDigest, SchemaVersion, Scope,
    StabilityTier, StrategyVersionRef,
};
use crate::text::{
    all_filled, blank, check_all_filled, check_distinct_texts, check_has_text, check_none_blank,
    distinct_texts, has_text, is_blank, none_blank, same_text, Duplicate, Textual,
};

verus! {

#[derive(Debug, Clone, Copy, PartialEq, Eq, Hash, PartialOrd, Ord, Structural)]
pub enum StrategyDomain {
    Loop,
    Coordination,
    CapabilitySelection,
    ModelSelection,
    BackendSelection,
    ModelAdaptation,
    StrategyMemory,
    AgentSelf,
    Partnership,
    TrustDelegation,
    Proactivity,
    Communication,
}

#[derive(Debug, Clone, Copy, PartialEq, Eq, Hash, PartialOrd, Ord, Structural)]
pub enum EvolutionImpact {
    Cautious,
    Bounded,
    Expansive,
    Constitutional,
}

#[derive(Debug, Clone, Copy, PartialEq, Eq, Hash, PartialOrd, Ord, Structural)]
pub enum EffectMode {
    ExactReplay,
    CounterfactualDeny,
    LiveGoverned,
}

#[derive(Debug, Clone, Copy, PartialEq, Eq, Hash, PartialOrd, Ord, Structural)]
pub enum EvaluationVerdict {
    Pass,
    Fail,
    Unverifiable,
}

#[derive(Debug, Clone, Copy, PartialEq, Eq, Hash, PartialOrd, Ord, Structural)]
pub enum FitnessOutcome {
    Pass,
    Fail,
    Unverifiable,
}

#[derive(Debug, Clone, Copy, PartialEq, Eq, Hash, PartialOrd, Ord, Structural)]
pub enum FitnessDimension {
    Quality,
    Verification,
    Cost,
    Latency,
    RiskExposure,
    Interruption,
    Delegation,
}

#[derive(Debug, Clone, Copy, PartialEq, Eq, Hash, PartialOrd, Ord, Structural)]
pub enum FitnessUnit {
    Count,
    Milliseconds,
    Tokens,
    BasisPoints,
    Boolean,
}

#[derive(Debug, Clone, Copy, PartialEq, Eq, Hash, PartialOrd, Ord, Structural)]
pub enum InFlightDisposition {
    KeepPinned,
    Cancel,
    WaitForOwner,
}

/// A flag that only ever holds `false` on the wire.
#[derive(Debug, Clone, Copy, PartialEq, Eq, Hash, PartialOrd, Ord, Structural)]
pub struct HistoricalFalse;

#[derive(Debug, Clone, PartialEq, Eq)]
pub struct StrategyRollbackPolicy {
    pub schema_version: SchemaVersion,
    pub known_good: StrategyVersionRef,
    pub rollback_on_hard_regression: bool,
    pub owner_on_unverifiable: bool,
}

impl StrategyRollbackPolicy {
    pub open spec fn valid(&self) -> bool {
        self.schema_version.0 != 0 && !is_blank(self.known_good.0@)
    }

    pub fn validate(&self) -> (r: Result<(), Error>)
        ensures
            r is Ok <==> self.valid(),
    {
        if self.schema_version.0 == 0 || blank(self.known_good.0.as_str()) {
            return Err(Error("strategy rollback policy is incomplete".to_string()));
        }
        Ok(())
    }
}

#[derive(Debug, Clone, PartialEq, Eq)]
pub struct StrategyCandidate {
    pub schema_version: SchemaVersion,
    pub candidate: CandidateId,
    pub domain: StrategyDomain,
    pub scope: Scope,
    pub target_tier: StabilityTier,
    pub proposed_version: StrategyVersionRef,
    pub baseline: StrategyVersionRef,
    pub spec_ref: ContentRef,
    pub spec_digest: SchemaDigest,
    pub evidence: Vec<EvidenceRef>,
    pub provenance: Provenance,
    pub impact: EvolutionImpact,
    pub rollback_policy: StrategyRollbackPolicy,
}

impl StrategyCandidate {
    pub open spec fn valid(&self) -> bool {
        &&& self.rollback_policy.valid()
        &&& self.schema_version.0 != 0
        &&& !is_blank(self.candidate.0@)
        &&& !is_blank(self.scope.0@)
        &&& self.target_tier == StabilityTier::Stable
        &&& !is_blank(self.proposed_version.0@)
        &&& !is_blank(self.baseline.0@)
        &&& self.proposed_version.0@ != self.baseline.0@
        &&& self.rollback_policy.known_good.0@ == self.baseline.0@
        &&& !is_blank(self.spec_ref.0@)
        &&& !is_blank(self.spec_digest.0@)
        &&& all_filled(self.evidence@)
    }

    pub fn validate(&self) -> (r: Result<(), Error>)
        ensures
            r is Ok <==> self.valid(),
    {
        self.rollback_policy.validate()?;
        if self.schema_version.0 == 0 || blank(self.candidate.0.as_str()) || blank(
            self.scope.0.as_str(),
        ) || self.target_tier != StabilityTier::Stable || blank(
            self.proposed_version.0.as_str(),
        ) || blank(self.baseline.0.as_str()) || same_text(
            &self.proposed_version.0,
            &self.baseline.0,
        ) || !same_text(&self.rollback_policy.known_good.0, &self.baseline.0) || blank(
            self.spec_ref.0.as_str(),
        ) || blank(self.spec_digest.0.as_str()) || !check_all_filled(&self.evidence) {
            return Err(Error("strategy candidate is incomplete".to_string()));
        }
        Ok(())
    }
}

#[derive(Debug, Clone, PartialEq, Eq)]
pub struct EvolutionAggregateVersion {
    pub schema_version: SchemaVersion,
    pub aggregate: EvolutionAggregateRef,
    pub value: u64,
}

/// An aggregate version is identified by its aggregate.
impl Textual for EvolutionAggregateVersion {
    open spec fn text(&self) -> Seq<char> {
        self.aggregate.0@
    }

    fn as_text(&self) -> (r: &String) {
        &self.aggregate.0
    }
}

impl EvolutionAggregateVersion {
    pub open spec fn valid(&self) -> bool {
        self.schema_version.0 != 0 && !is_blank(self.aggregate.0@)
    }

    pub fn validate(&self) -> (r: Result<(), Error>)
        ensures
            r is Ok <==> self.valid(),
    {
        if self.schema_version.0 == 0 || blank(self.aggregate.0.as_str()) {
            return Err(Error("evolution aggregate version is incomplete".to_string()));
        }
        Ok(())
    }

    /// The same aggregate one version on; the last representable version has none.
    pub fn next(&self) -> (r: Result<Self, Error>)
        ensures
            r is Ok <==> self.value < u64::MAX,
            r matches Ok(n) ==> n.schema_version == self.schema_version && n.aggregate
                == self.aggregate && n.value == self.value + 1,
    {
        if self.value == u64::MAX {
            return Err(Error("evolution aggregate version is exhausted".to_string()));
        }
        Ok(
            EvolutionAggregateVersion {
                schema_version: self.schema_version,
                aggregate: self.aggregate.duplicate(),
                value: self.value + 1,
            },
        )
    }
}

#[derive(Debug, Clone, PartialEq, Eq)]
pub struct ActiveStrategyRef {
    pub schema_version: SchemaVersion,
    pub id: ActiveStrategyId,
    pub aggregate: EvolutionAggregateRef,
    pub domain: StrategyDomain,
    pub scope: Scope,
    pub version: StrategyVersionRef,
    pub spec_ref: ContentRef,
    pub spec_digest: SchemaDigest,
    pub activation_event: EventId,
}

impl ActiveStrategyRef {
    pub open spec fn valid(&self) -> bool {
        &&& self.schema_version.0 != 0
        &&& !is_blank(self.id.0@)
        &&& !is_blank(self.aggregate.0@)
        &&& !is_blank(self.scope.0@)
        &&& !is_blank(self.version.0@)
        &&& !is_blank(self.spec_ref.0@)
        &&& !is_blank(self.spec_digest.0@)
        &&& !is_blank(self.activation_event.0@)
    }

    pub fn validate(&self) -> (r: Result<(), Error>)
        ensures
            r is Ok <==> self.valid(),
    {
        if self.schema_version.0 == 0 || blank(self.id.0.as_str()) || blank(
            self.aggregate.0.as_str(),
        ) || blank(self.scope.0.as_str()) || blank(self.version.0.as_str()) || blank(
            self.spec_ref.0.as_str(),
        ) || blank(self.spec_digest.0.as_str()) || blank(self.activation_event.0.as_str()) {
            return Err(Error("active strategy reference is incomplete".to_string()));
        }
        Ok(())
    }

    /// Two active strategies occupy the same slot: same aggregate, domain and scope.
    pub open spec fn same_slot(&self, other: &ActiveStrategyRef) -> bool {
        self.aggregate.0@ == other.aggregate.0@ && self.domain == other.domain && self.scope.0@
            == other.scope.0@
    }
}

#[derive(Debug, Clone, PartialEq, Eq)]
pub struct EvolutionSnapshot {
    pub schema_version: SchemaVersion,
    pub snapshot: EvolutionSnapshotRef,
    pub aggregates: Vec<EvolutionAggregateVersion>,
    pub strategies: Vec<ActiveStrategyRef>,
    pub digest: SchemaDigest,
}

/// No two strategies occupy the same slot.
pub open spec fn distinct_slots(v: Seq<ActiveStrategyRef>) -> bool {
    forall|i: int, j: int|
        #![trigger v[i], v[j]]
        0 <= i < v.len() && 0 <= j < v.len() && i != j ==> !v[i].same_slot(&v[j])
}

fn check_distinct_slots(v: &Vec<ActiveStrategyRef>) -> (r: bool)
    ensures
        r == distinct_slots(v@),
{
    let mut i: usize = 0;
    while i < v.len()
        invariant
            i <= v.len(),
            forall|a: int, b: int|
                #![trigger v@[a], v@[b]]
                0 <= a < i && 0 <= b < v.len() && a != b ==> !v@[a].same_slot(&v@[b]),
        decreases v.len() - i,
    {
        let mut j: usize = 0;
        while j < v.len()
            invariant
                i < v.len(),
                j <= v.len(),
                forall|a: int, b: int|
                    #![trigger v@[a], v@[b]]
                    0 <= a < i && 0 <= b < v.len() && a != b ==> !v@[a].same_slot(&v@[b]),
                forall|b: int| #![trigger v@[b]] 0 <= b < j && b != i ==> !v@[i as int].same_slot(&v@[b]),
            decreases v.len() - j,
        {
            if j != i && same_text(&v[i].aggregate.0, &v[j].aggregate.0) && v[i].domain
                == v[j].domain && same_text(&v[i].scope.0, &v[j].scope.0) {
                return false;
            }
            j = j + 1;
        }
        i = i + 1;
    }
    true
}

impl EvolutionSnapshot {
    pub open spec fn valid(&self) -> bool {
        &&& self.schema_version.0 != 0
        &&& !is_blank(self.snapshot.0@)
        &&& self.aggregates@.len() > 0
        &&& distinct_texts(self.aggregates@)
        &&& forall|i: int| 0 <= i < self.aggregates@.len() ==> (#[trigger] self.aggregates@[i]).valid()
        &&& distinct_slots(self.strategies@)
        &&& forall|i: int| 0 <= i < self.strategies@.len() ==> (#[trigger] self.strategies@[i]).valid()
        &&& forall|i: int|
            0 <= i < self.strategies@.len() ==> has_text(
                self.aggregates@,
                (#[trigger] self.strategies@[i]).aggregate.0@,
            )
        &&& !is_blank(self.digest.0@)
    }

    pub fn validate(&self) -> (r: Result<(), Error>)
        ensures
            r is Ok <==> self.valid(),
    {
        if self.schema_version.0 == 0 || blank(self.snapshot.0.as_str())
            || self.aggregates.len() == 0 || !check_distinct_texts(&self.aggregates)
            || !check_distinct_slots(&self.strategies) || blank(self.digest.0.as_str()) {
            return Err(Error("evolution snapshot is incomplete".to_string()));
        }
        let mut i: usize = 0;
        while i < self.aggregates.len()
            invariant
                i <= self.aggregates@.len(),
                forall|j: int| 0 <= j < i ==> (#[trigger] self.aggregates@[j]).valid(),
            decreases self.aggregates@.len() - i,
        {
            if self.aggregates[i].validate().is_err() {
                return Err(Error("evolution snapshot is incomplete".to_string()));
            }
            i = i + 1;
        }
        let mut k: usize = 0;
        while k < self.strategies.len()
            invariant
                k <= self.strategies@.len(),
                forall|j: int|
                    0 <= j < k ==> (#[trigger] self.strategies@[j]).valid() && has_text(
                        self.aggregates@,
                        self.strategies@[j].aggregate.0@,
                    ),
            decreases self.strategies@.len() - k,
        {
            if self.strategies[k].validate().is_err() || !check_has_text(
                &self.aggregates,
                &self.strategies[k].aggregate.0,
            ) {
                return Err(Error("evolution snapshot is incomplete".to_string()));
            }
            k = k + 1;
        }
        Ok(())
    }
}

#[derive(Debug, Clone, PartialEq, Eq)]
pub struct ReplaySnapshot {
    pub schema_version: SchemaVersion,
    pub event_schema: SchemaVersion,
    pub policy: PolicyProfileRef,
    pub loop_spec: LoopSpecRef,
    pub model: ModelProfileRef,
    pub tool_schema: SchemaDigest,
    pub driver_profiles: Vec<DriverProfileRef>,
    pub evolution: EvolutionSnapshot,
    pub migration_graph_digest: SchemaDigest,
}

impl ReplaySnapshot {
    pub open spec fn valid(&self) -> bool {
        &&& self.evolution.valid()
        &&& self.schema_version.0 != 0
        &&& self.event_schema.0 != 0
        &&& !is_blank(self.policy.0@)
        &&& !is_blank(self.loop_spec.0@)
        &&& !is_blank(self.model.0@)
        &&& !is_blank(self.tool_schema.0@)
        &&& all_filled(self.driver_profiles@)
        &&& !is_blank(self.migration_graph_digest.0@)
    }

    pub fn validate(&self) -> (r: Result<(), Error>)
        ensures
            r is Ok <==> self.valid(),
    {
        self.evolution.validate()?;
        if self.schema_version.0 == 0 || self.event_schema.0 == 0 || blank(
            self.policy.0.as_str(),
        ) || blank(self.loop_spec.0.as_str()) || blank(self.model.0.as_str()) || blank(
            self.tool_schema.0.as_str(),
        ) || !check_all_filled(&self.driver_profiles) || blank(
            self.migration_graph_digest.0.as_str(),
        ) {
            return Err(Error("replay snapshot is incomplete".to_string()));
        }
        Ok(())
    }
}

#[derive(Debug, Clone, PartialEq, Eq)]
pub struct ReplayRequest {
    pub schema_version: SchemaVersion,
    pub bundle: ReplayBundleRef,
    pub source_runs: Vec<RunId>,
    pub event_refs: Vec<EventId>,
    pub cases: Vec<EvaluationCaseRef>,
    pub snapshot: ReplaySnapshot,
    pub effect_mode: EffectMode,
}

/// The conditions a replay request puts on its parts.
pub open spec fn replay_parts_valid(
    schema_version: SchemaVersion,
    bundle: ReplayBundleRef,
    source_runs: Seq<RunId>,
    event_refs: Seq<EventId>,
    cases: Seq<EvaluationCaseRef>,
    snapshot: ReplaySnapshot,
    effect_mode: EffectMode,
) -> bool {
    &&& snapshot.valid()
    &&& schema_version.0 != 0
    &&& !is_blank(bundle.0@)
    &&& all_filled(source_runs)
    &&& all_filled(event_refs)
    &&& all_filled(cases)
    &&& distinct_texts(source_runs)
    &&& distinct_texts(event_refs)
    &&& distinct_texts(cases)
    &&& effect_mode != EffectMode::LiveGoverned
}

fn check_replay_parts(
    schema_version: SchemaVersion,
    bundle: &ReplayBundleRef,
    source_runs: &Vec<RunId>,
    event_refs: &Vec<EventId>,
    cases: &Vec<EvaluationCaseRef>,
    snapshot: &ReplaySnapshot,
    effect_mode: EffectMode,
) -> (r: Result<(), Error>)
    ensures
        r is Ok <==> replay_parts_valid(
            schema_version,
            *bundle,
            source_runs@,
            event_refs@,
            cases@,
            *snapshot,
            effect_mode,
        ),
{
    snapshot.validate()?;
    if schema_version.0 == 0 || blank(bundle.0.as_str()) || !check_all_filled(source_runs)
        || !check_all_filled(event_refs) || !check_all_filled(cases) || !check_distinct_texts(
        source_runs,
    ) || !check_distinct_texts(event_refs) || !check_distinct_texts(cases) || effect_mode
        == EffectMode::LiveGoverned {
        return Err(Error("replay request is incomplete or permits live effects".to_string()));
    }
    Ok(())
}

impl ReplayRequest {
    pub open spec fn valid(&self) -> bool {
        replay_parts_valid(
            self.schema_version,
            self.bundle,
            self.source_runs@,
            self.event_refs@,
            self.cases@,
            self.snapshot,
            self.effect_mode,
        )
    }

    pub fn validate(&self) -> (r: Result<(), Error>)
        ensures
            r is Ok <==> self.valid(),
    {
        check_replay_parts(
            self.schema_version,
            &self.bundle,
            &self.source_runs,
            &self.event_refs,
            &self.cases,
            &self.snapshot,
            self.effect_mode,
        )
    }
}

#[derive(Debug, Clone, PartialEq, Eq)]
pub struct ReplayBundle {
    pub schema_version: SchemaVersion,
    pub bundle: ReplayBundleRef,
    pub source_runs: Vec<RunId>,
    pub event_refs: Vec<EventId>,
    pub cases: Vec<EvaluationCaseRef>,
    pub snapshot: ReplaySnapshot,
    pub effect_mode: EffectMode,
    pub content_digest: SchemaDigest,
}

impl ReplayBundle {
    /// A bundle is its replay request plus a content digest.
    pub open spec fn valid(&self) -> bool {
        &&& replay_parts_valid(
            self.schema_version,
            self.bundle,
            self.source_runs@,
            self.event_refs@,
            self.cases@,
            self.snapshot,
            self.effect_mode,
        )
        &&& !is_blank(self.content_digest.0@)
    }

    pub fn validate(&self) -> (r: Result<(), Error>)
        ensures
            r is Ok <==> self.valid(),
    {
        check_replay_parts(
            self.schema_version,
            &self.bundle,
            &self.source_runs,
            &self.event_refs,
            &self.cases,
            &self.snapshot,
            self.effect_mode,
        )?;
        if blank(self.content_digest.0.as_str()) {
            return Err(Error("replay bundle digest is empty".to_string()));
        }
        Ok(())
    }
}

#[derive(Debug, Clone, PartialEq, Eq)]
pub struct ExactReplayReport {
    pub schema_version: SchemaVersion,
    pub report: ExactReplayReportRef,
    pub bundle: ReplayBundleRef,
    pub event_count: u64,
    pub projections_match: bool,
    pub history_unchanged: bool,
    pub effect_calls: u64,
    pub digest: SchemaDigest,
}

impl ExactReplayReport {
    pub open spec fn valid(&self) -> bool {
        &&& self.schema_version.0 != 0
        &&& !is_blank(self.report.0@)
        &&& !is_blank(self.bundle.0@)
        &&& self.event_count != 0
        &&& self.projections_match
        &&& self.history_unchanged
        &&& self.effect_calls == 0
        &&& !is_blank(self.digest.0@)
    }

    pub fn validate(&self) -> (r: Result<(), Error>)
        ensures
            r is Ok <==> self.valid(),
    {
        if self.schema_version.0 == 0 || blank(self.report.0.as_str()) || blank(
            self.bundle.0.as_str(),
        ) || self.event_count == 0 || !self.projections_match || !self.history_unchanged
            || self.effect_calls != 0 || blank(self.digest.0.as_str()) {
            return Err(Error("exact replay report does not prove a safe replay".to_string()));
        }
        Ok(())
    }
}

#[derive(Debug, Clone, PartialEq, Eq)]
pub struct FitnessMetric {
    pub schema_version: SchemaVersion,
    pub dimension: FitnessDimension,
    pub outcome: FitnessOutcome,
    pub measured: Option<i64>,
    pub unit: FitnessUnit,
    pub evidence: Vec<EvidenceRef>,
}

impl FitnessMetric {
    pub open spec fn valid(&self) -> bool {
        &&& self.schema_version.0 != 0
        &&& !(self.measured matches Some(v) && v < 0)
        &&& all_filled(self.evidence@)
    }

    pub fn validate(&self) -> (r: Result<(), Error>)
        ensures
            r is Ok <==> self.valid(),
    {
        let negative = match self.measured {
            Some(v) => v < 0,
            None => false,
        };
        if self.schema_version.0 == 0 || negative || !check_all_filled(&self.evidence) {
            return Err(Error("fitness metric is incomplete".to_string()));
        }
        Ok(())
    }
}

#[derive(Debug, Clone, PartialEq, Eq)]
pub struct InvariantResult {
    pub schema_version: SchemaVersion,
    pub reference: InvariantResultRef,
    pub name: String,
    pub outcome: FitnessOutcome,
    pub evidence: Vec<EvidenceRef>,
}

/// An invariant result is identified by its reference.
impl Textual for InvariantResult {
    open spec fn text(&self) -> Seq<char> {
        self.reference.0@
    }

    fn as_text(&self) -> (r: &String) {
        &self.reference.0
    }
}

impl InvariantResult {
    pub open spec fn valid(&self) -> bool {
        &&& self.schema_version.0 != 0
        &&& !is_blank(self.reference.0@)
        &&& !is_blank(self.name@)
        &&& all_filled(self.evidence@)
    }

    pub fn validate(&self) -> (r: Result<(), Error>)
        ensures
            r is Ok <==> self.valid(),
    {
        if self.schema_version.0 == 0 || blank(self.reference.0.as_str()) || blank(
            self.name.as_str(),
        ) || !check_all_filled(&self.evidence) {
            return Err(Error("invariant result is incomplete".to_string()));
        }
        Ok(())
    }
}

/// No two metrics measure the same dimension.
pub open spec fn distinct_dimensions(v: Seq<FitnessMetric>) -> bool {
    forall|i: int, j: int|
        0 <= i < v.len() && 0 <= j < v.len() && i != j ==> (#[trigger] v[i]).dimension != (
        #[trigger] v[j]).dimension
}

fn check_distinct_dimensions(v: &Vec<FitnessMetric>) -> (r: bool)
    ensures
        r == distinct_dimensions(v@),
{
    let mut i: usize = 0;
    while i < v.len()
        invariant
            i <= v.len(),
            forall|a: int, b: int|
                0 <= a < i && 0 <= b < v.len() && a != b ==> (#[trigger] v@[a]).dimension != (
                #[trigger] v@[b]).dimension,
        decreases v.len() - i,
    {
        let mut j: usize = 0;
        while j < v.len()
            invariant
                i < v.len(),
                j <= v.len(),
                forall|a: int, b: int|
                    0 <= a < i && 0 <= b < v.len() && a != b ==> (#[trigger] v@[a]).dimension != (
                    #[trigger] v@[b]).dimension,
                forall|b: int|
                    0 <= b < j && b != i ==> v@[i as int].dimension != (#[trigger] v@[b]).dimension,
            decreases v.len() - j,
        {
            if j != i && v[i].dimension == v[j].dimension {
                return false;
            }
            j = j + 1;
        }
        i = i + 1;
    }
    true
}

/// The conditions an evolution comparison puts on its parts.
pub open spec fn comparison_parts_valid(
    schema_version: SchemaVersion,
    evaluation: EvolutionEvaluationRef,
    bundle: ReplayBundleRef,
    baseline: StrategyVersionRef,
    candidate: StrategyVersionRef,
    case_set_digest: SchemaDigest,
    holdout_digest: SchemaDigest,
    metrics: Seq<FitnessMetric>,
    hard_invariants: Seq<InvariantResult>,
    ground_truth: Seq<EvidenceRef>,
) -> bool {
    &&& schema_version.0 != 0
    &&& !is_blank(evaluation.0@)
    &&& !is_blank(bundle.0@)
    &&& !is_blank(baseline.0@)
    &&& !is_blank(candidate.0@)
    &&& baseline.0@ != candidate.0@
    &&& !is_blank(case_set_digest.0@)
    &&& !is_blank(holdout_digest.0@)
    &&& case_set_digest.0@ != holdout_digest.0@
    &&& metrics.len() > 0
    &&& distinct_dimensions(metrics)
    &&& forall|i: int| 0 <= i < metrics.len() ==> (#[trigger] metrics[i]).valid()
    &&& hard_invariants.len() > 0
    &&& distinct_texts(hard_invariants)
    &&& forall|i: int| 0 <= i < hard_invariants.len() ==> (#[trigger] hard_invariants[i]).valid()
    &&& none_blank(ground_truth)
}

fn check_comparison_parts(
    schema_version: SchemaVersion,
    evaluation: &EvolutionEvaluationRef,
    bundle: &ReplayBundleRef,
    baseline: &StrategyVersionRef,
    candidate: &StrategyVersionRef,
    case_set_digest: &SchemaDigest,
    holdout_digest: &SchemaDigest,
    metrics: &Vec<FitnessMetric>,
    hard_invariants: &Vec<InvariantResult>,
    ground_truth: &Vec<EvidenceRef>,
) -> (r: Result<(), Error>)
    ensures
        r is Ok <==> comparison_parts_valid(
            schema_version,
            *evaluation,
            *bundle,
            *baseline,
            *candidate,
            *case_set_digest,
            *holdout_digest,
            metrics@,
            hard_invariants@,
            ground_truth@,
        ),
{
    if schema_version.0 == 0 || blank(evaluation.0.as_str()) || blank(bundle.0.as_str()) || blank(
        baseline.0.as_str(),
    ) || blank(candidate.0.as_str()) || same_text(&baseline.0, &candidate.0) || blank(
        case_set_digest.0.as_str(),
    ) || blank(holdout_digest.0.as_str()) || same_text(&case_set_digest.0, &holdout_digest.0)
        || metrics.len() == 0 || !check_distinct_dimensions(metrics) || hard_invariants.len() == 0
        || !check_distinct_texts(hard_invariants) || !check_none_blank(ground_truth) {
        return Err(Error("evolution comparison is incomplete".to_string()));
    }
    let mut i: usize = 0;
    while i < metrics.len()
        invariant
            i <= metrics@.len(),
            forall|j: int| 0 <= j < i ==> (#[trigger] metrics@[j]).valid(),
        decreases metrics@.len() - i,
    {
        if metrics[i].validate().is_err() {
            return Err(Error("evolution comparison is incomplete".to_string()));
        }
        i = i + 1;
    }
    let mut k: usize = 0;
    while k < hard_invariants.len()
        invariant
            k <= hard_invariants@.len(),
            forall|j: int| 0 <= j < k ==> (#[trigger] hard_invariants@[j]).valid(),
        decreases hard_invariants@.len() - k,
    {
        if hard_invariants[k].validate().is_err() {
            return Err(Error("evolution comparison is incomplete".to_string()));
        }
        k = k + 1;
    }
    Ok(())
}

#[derive(Debug, Clone, PartialEq, Eq)]
pub struct EvolutionComparison {
    pub schema_version: SchemaVersion,
    pub evaluation: EvolutionEvaluationRef,
    pub bundle: ReplayBundleRef,
    pub baseline: StrategyVersionRef,
    pub candidate: StrategyVersionRef,
    pub case_set_digest: SchemaDigest,
    pub holdout_digest: SchemaDigest,
    pub metrics: Vec<FitnessMetric>,
    pub hard_invariants: Vec<InvariantResult>,
    pub ground_truth: Vec<EvidenceRef>,
    pub independent_verifier: bool,
    pub self_eval_only: bool,
}

impl EvolutionComparison {
    pub open spec fn valid(&self) -> bool {
        comparison_parts_valid(
            self.schema_version,
            self.evaluation,
            self.bundle,
            self.baseline,
            self.candidate,
            self.case_set_digest,
            self.holdout_digest,
            self.metrics@,
            self.hard_invariants@,
            self.ground_truth@,
        )
    }

    pub fn validate(&self) -> (r: Result<(), Error>)
        ensures
            r is Ok <==> self.valid(),
    {
        check_comparison_parts(
            self.schema_version,
            &self.evaluation,
            &self.bundle,
            &self.baseline,
            &self.candidate,
            &self.case_set_digest,
            &self.holdout_digest,
            &self.metrics,
            &self.hard_invariants,
            &self.ground_truth,
        )
    }
}

#[derive(Debug, Clone, PartialEq, Eq)]
pub struct EvolutionEvaluation {
    pub schema_version: SchemaVersion,
    pub evaluation: EvolutionEvaluationRef,
    pub bundle: ReplayBundleRef,
    pub baseline: StrategyVersionRef,
    pub candidate: StrategyVersionRef,
    pub case_set_digest: SchemaDigest,
    pub holdout_digest: SchemaDigest,
    pub metrics: Vec<FitnessMetric>,
    pub hard_invariants: Vec<InvariantResult>,
    pub ground_truth: Vec<EvidenceRef>,
    pub independent_verifier: bool,
    pub verdict: EvaluationVerdict,
}

impl EvolutionEvaluation {
    /// Everything passed and an independent verifier saw ground truth.
    pub open spec fn pass_is_grounded(&self) -> bool {
        &&& self.independent_verifier
        &&& self.ground_truth@.len() > 0
        &&& forall|i: int|
            0 <= i < self.metrics@.len() ==> (#[trigger] self.metrics@[i]).outcome
                == FitnessOutcome::Pass
        &&& forall|i: int|
            0 <= i < self.hard_invariants@.len() ==> (#[trigger] self.hard_invariants@[i]).outcome
                == FitnessOutcome::Pass
    }

    pub open spec fn valid(&self) -> bool {
        &&& comparison_parts_valid(
            self.schema_version,
            self.evaluation,
            self.bundle,
            self.baseline,
            self.candidate,
            self.case_set_digest,
            self.holdout_digest,
            self.metrics@,
            self.hard_invariants@,
            self.ground_truth@,
        )
        &&& (self.verdict == EvaluationVerdict::Pass ==> self.pass_is_grounded())
    }

    pub fn validate(&self) -> (r: Result<(), Error>)
        ensures
            r is Ok <==> self.valid(),
    {
        check_comparison_parts(
            self.schema_version,
            &self.evaluation,
            &self.bundle,
            &self.baseline,
            &self.candidate,
            &self.case_set_digest,
            &self.holdout_digest,
            &self.metrics,
            &self.hard_invariants,
            &self.ground_truth,
        )?;
        if self.verdict == EvaluationVerdict::Pass {
            if !self.independent_verifier || self.ground_truth.len() == 0 {
                return Err(Error("passing evaluation lacks independent ground truth".to_string()));
            }
            let mut i: usize = 0;
            while i < self.metrics.len()
                invariant
                    self.verdict == EvaluationVerdict::Pass,
                    i <= self.metrics@.len(),
                    forall|j: int|
                        0 <= j < i ==> (#[trigger] self.metrics@[j]).outcome
                            == FitnessOutcome::Pass,
                decreases self.metrics@.len() - i,
            {
                if self.metrics[i].outcome != FitnessOutcome::Pass {
                    return Err(
                        Error("passing evaluation lacks independent ground truth".to_string()),
                    );
                }
                i = i + 1;
            }
            let mut k: usize = 0;
            while k < self.hard_invariants.len()
                invariant
                    self.verdict == EvaluationVerdict::Pass,
                    k <= self.hard_invariants@.len(),
                    forall|j: int|
                        0 <= j < k ==> (#[trigger] self.hard_invariants@[j]).outcome
                            == FitnessOutcome::Pass,
                decreases self.hard_invariants@.len() - k,
            {
                if self.hard_invariants[k].outcome != FitnessOutcome::Pass {
                    return Err(
                        Error("passing evaluation lacks independent ground truth".to_string()),
                    );
                }
                k = k + 1;
            }
        }
        Ok(())
    }
}

/// A committed version is exactly one step after the expected version of the same aggregate.
pub open spec fn version_step_valid(
    aggregate: EvolutionAggregateRef,
    expected: EvolutionAggregateVersion,
    committed: EvolutionAggregateVersion,
) -> bool {
    &&& expected.valid()
    &&& committed.valid()
    &&& expected.aggregate.0@ == aggregate.0@
    &&& committed.aggregate.0@ == aggregate.0@
    &&& committed.value == (if expected.value < u64::MAX {
        expected.value + 1
    } else {
        0
    })
}

pub fn validate_version_step(
    aggregate: &EvolutionAggregateRef,
    expected: &EvolutionAggregateVersion,
    committed: &EvolutionAggregateVersion,
) -> (r: Result<(), Error>)
    ensures
        r is Ok <==> version_step_valid(*aggregate, *expected, *committed),
{
    expected.validate()?;
    committed.validate()?;
    let next: u64 = if expected.value < u64::MAX {
        expected.value + 1
    } else {
        0
    };
    if !same_text(&expected.aggregate.0, &aggregate.0) || !same_text(
        &committed.aggregate.0,
        &aggregate.0,
    ) || committed.value != next {
        return Err(Error("evolution aggregate version step is invalid".to_string()));
    }
    Ok(())
}

#[derive(Debug, Clone, PartialEq, Eq)]
pub struct StrategyActivation {
    pub schema_version: SchemaVersion,
    pub aggregate: EvolutionAggregateRef,
    pub domain: StrategyDomain,
    pub scope: Scope,
    pub from: Option<StrategyVersionRef>,
    pub to: StrategyVersionRef,
    pub spec_ref: ContentRef,
    pub spec_digest: SchemaDigest,
    pub evaluation: EvolutionEvaluationRef,
    pub promotion: EventId,
    pub owner_confirmation: Option<OwnerControlRef>,
    pub impact: EvolutionImpact,
    pub expected_version: EvolutionAggregateVersion,
    pub committed_version: EvolutionAggregateVersion,
}

impl StrategyActivation {
    /// Bounded and expansive activations need the owner's confirmation;
    /// constitutional ones are never activated this way.
    pub open spec fn valid(&self) -> bool {
        &&& version_step_valid(self.aggregate, self.expected_version, self.committed_version)
        &&& self.schema_version.0 != 0
        &&& !is_blank(self.aggregate.0@)
        &&& !is_blank(self.scope.0@)
        &&& !(self.from matches Some(f) && is_blank(f.0@))
        &&& !is_blank(self.to.0@)
        &&& !(self.from matches Some(f) && f.0@ == self.to.0@)
        &&& !is_blank(self.spec_ref.0@)
        &&& !is_blank(self.spec_digest.0@)
        &&& !is_blank(self.evaluation.0@)
        &&& !is_blank(self.promotion.0@)
        &&& !(self.owner_confirmation matches Some(c) && is_blank(c.0@))
        &&& ((self.impact == EvolutionImpact::Bounded || self.impact == EvolutionImpact::Expansive)
            ==> self.owner_confirmation is Some)
        &&& self.impact != EvolutionImpact::Constitutional
    }

    pub fn validate(&self) -> (r: Result<(), Error>)
        ensures
            r is Ok <==> self.valid(),
    {
        validate_version_step(&self.aggregate, &self.expected_version, &self.committed_version)?;
        let owner_required = self.impact == EvolutionImpact::Bounded || self.impact
            == EvolutionImpact::Expansive;
        let (from_blank, from_same) = match &self.from {
            Some(f) => (blank(f.0.as_str()), same_text(&f.0, &self.to.0)),
            None => (false, false),
        };
        let (confirmation_blank, confirmed) = match &self.owner_confirmation {
            Some(c) => (blank(c.0.as_str()), true),
            None => (false, false),
        };
        if self.schema_version.0 == 0 || blank(self.aggregate.0.as_str()) || blank(
            self.scope.0.as_str(),
        ) || from_blank || blank(self.to.0.as_str()) || from_same || blank(
            self.spec_ref.0.as_str(),
        ) || blank(self.spec_digest.0.as_str()) || blank(self.evaluation.0.as_str()) || blank(
            self.promotion.0.as_str(),
        ) || confirmation_blank || (owner_required && !confirmed) || self.impact
            == EvolutionImpact::Constitutional {
            return Err(Error("strategy activation is incomplete or unauthorized".to_string()));
        }
        Ok(())
    }
}

#[derive(Debug, Clone, PartialEq, Eq)]
pub struct StrategyRollback {
    pub schema_version: SchemaVersion,
    pub aggregate: EvolutionAggregateRef,
    pub domain: StrategyDomain,
    pub scope: Scope,
    pub failed: StrategyVersionRef,
    pub restored: StrategyVersionRef,
    pub restored_spec_ref: ContentRef,
    pub restored_spec_digest: SchemaDigest,
    pub triggers: Vec<EvidenceRef>,
    pub expected_version: EvolutionAggregateVersion,
    pub committed_version: EvolutionAggregateVersion,
    pub in_flight: InFlightDisposition,
    pub external_effects_reverted: HistoricalFalse,
}

impl StrategyRollback {
    pub open spec fn valid(&self) -> bool {
        &&& version_step_valid(self.aggregate, self.expected_version, self.committed_version)
        &&& self.schema_version.0 != 0
        &&& !is_blank(self.aggregate.0@)
        &&& !is_blank(self.scope.0@)
        &&& !is_blank(self.failed.0@)
        &&& !is_blank(self.restored.0@)
        &&& self.failed.0@ != self.restored.0@
        &&& !is_blank(self.restored_spec_ref.0@)
        &&& !is_blank(self.restored_spec_digest.0@)
        &&& all_filled(self.triggers@)
    }

    pub fn validate(&self) -> (r: Result<(), Error>)
        ensures
            r is Ok <==> self.valid(),
    {
        validate_version_step(&self.aggregate, &self.expected_version, &self.committed_version)?;
        if self.schema_version.0 == 0 || blank(self.aggregate.0.as_str()) || blank(
            self.scope.0.as_str(),
        ) || blank(self.failed.0.as_str()) || blank(self.restored.0.as_str()) || same_text(
            &self.failed.0,
            &self.restored.0,
        ) || blank(self.restored_spec_ref.0.as_str()) || blank(
            self.restored_spec_digest.0.as_str(),
        ) || !check_all_filled(&self.triggers) {
            return Err(Error("strategy rollback is incomplete".to_string()));
        }
        Ok(())
    }
}

} // verus!
