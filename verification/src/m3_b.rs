//! Runtime strategy specifications: loop, coordination, selection and model
//! adaptation.
use vstd::prelude::*;

use crate::primitives::{
    ContentRef, Error, ModelProfileRef, OrchestrationPatternRef, RoleRef, SchemaDigest,
    SchemaVersion, Scope, StrategyVersionRef,
};
use crate::tags::{
    check_distinct_tags, check_has_tag, distinct_tags, has_tag, ordered_before,
    ordered_before_tags, Tagged,
};
use crate::text::{blank, check_distinct_texts, distinct_texts, is_blank, same_text, Duplicate, Textual};

verus! {

#[derive(Debug, Clone, PartialEq, Eq)]
pub struct StrategyRuntimeCompatibility {
    pub schema_version: SchemaVersion,
    pub minimum_runtime_schema: SchemaVersion,
    pub event_schema: SchemaVersion,
    pub model_profile: Option<ModelProfileRef>,
    pub tool_schema: Option<SchemaDigest>,
    pub backend_schema: Option<SchemaDigest>,
}

impl StrategyRuntimeCompatibility {
    pub open spec fn valid(&self) -> bool {
        &&& self.schema_version.0 != 0
        &&& self.minimum_runtime_schema.0 != 0
        &&& self.event_schema.0 != 0
        &&& !(self.model_profile matches Some(v) && is_blank(v.0@))
        &&& !(self.tool_schema matches Some(v) && is_blank(v.0@))
        &&& !(self.backend_schema matches Some(v) && is_blank(v.0@))
    }

    pub fn validate(&self) -> (r: Result<(), Error>)
        ensures
            r is Ok <==> self.valid(),
    {
        let model_blank = match &self.model_profile {
            Some(v) => blank(v.0.as_str()),
            None => false,
        };
        let tool_blank = match &self.tool_schema {
            Some(v) => blank(v.0.as_str()),
            None => false,
        };
        let backend_blank = match &self.backend_schema {
            Some(v) => blank(v.0.as_str()),
            None => false,
        };
        if self.schema_version.0 == 0 || self.minimum_runtime_schema.0 == 0
            || self.event_schema.0 == 0 || model_blank || tool_blank || backend_blank {
            return Err(Error("strategy runtime compatibility is incomplete".to_string()));
        }
        Ok(())
    }
}

#[derive(Debug, Clone, Copy, PartialEq, Eq, PartialOrd, Ord, Structural)]
pub enum LoopPhase {
    Context,
    Deliberate,
    Policy,
    Approval,
    Execute,
    Verify,
    Checkpoint,
    Finish,
}

impl Tagged for LoopPhase {
    open spec fn tag(&self) -> nat {
        match self {
            LoopPhase::Context => 0,
            LoopPhase::Deliberate => 1,
            LoopPhase::Policy => 2,
            LoopPhase::Approval => 3,
            LoopPhase::Execute => 4,
            LoopPhase::Verify => 5,
            LoopPhase::Checkpoint => 6,
            LoopPhase::Finish => 7,
        }
    }

    fn tag_of(&self) -> (r: u8) {
        match self {
            LoopPhase::Context => 0,
            LoopPhase::Deliberate => 1,
            LoopPhase::Policy => 2,
            LoopPhase::Approval => 3,
            LoopPhase::Execute => 4,
            LoopPhase::Verify => 5,
            LoopPhase::Checkpoint => 6,
            LoopPhase::Finish => 7,
        }
    }
}


#[derive(Debug, Clone, Copy, PartialEq, Eq, PartialOrd, Ord, Structural)]
pub enum LoopTrigger {
    Reactive,
    Scheduled,
    CheckpointResume,
}

impl Tagged for LoopTrigger {
    open spec fn tag(&self) -> nat {
        match self {
            LoopTrigger::Reactive => 0,
            LoopTrigger::Scheduled => 1,
            LoopTrigger::CheckpointResume => 2,
        }
    }

    fn tag_of(&self) -> (r: u8) {
        match self {
            LoopTrigger::Reactive => 0,
            LoopTrigger::Scheduled => 1,
            LoopTrigger::CheckpointResume => 2,
        }
    }
}


#[derive(Debug, Clone, Copy, PartialEq, Eq, Structural)]
pub enum LoopFailureFallback {
    Stop,
    AskOwner,
    PreserveCheckpoint,
}

#[derive(Debug, Clone, PartialEq, Eq)]
pub struct LoopBudgetProfile {
    pub schema_version: SchemaVersion,
    pub max_turns: u32,
    pub max_tokens: u64,
    pub max_wall_time_ms: u64,
    pub max_cost_microunits: u64,
    pub max_tool_calls: u32,
}

impl LoopBudgetProfile {
    pub open spec fn valid(&self) -> bool {
        &&& self.schema_version.0 != 0
        &&& self.max_turns != 0
        &&& self.max_tokens != 0
        &&& self.max_wall_time_ms != 0
        &&& self.max_cost_microunits != 0
        &&& self.max_tool_calls != 0
    }

    pub fn validate(&self) -> (r: Result<(), Error>)
        ensures
            r is Ok <==> self.valid(),
    {
        if self.schema_version.0 == 0 || self.max_turns == 0 || self.max_tokens == 0
            || self.max_wall_time_ms == 0 || self.max_cost_microunits == 0 || self.max_tool_calls
            == 0 {
            return Err(Error("loop budget profile is zero or unbounded".to_string()));
        }
        Ok(())
    }
}

/// The identity every strategy specification carries.
pub open spec fn spec_identity_valid(
    schema_version: SchemaVersion,
    version: StrategyVersionRef,
    scope: Scope,
    content_ref: ContentRef,
    content_digest: SchemaDigest,
    compatibility: StrategyRuntimeCompatibility,
) -> bool {
    &&& compatibility.valid()
    &&& schema_version.0 != 0
    &&& !is_blank(version.0@)
    &&& !is_blank(scope.0@)
    &&& !is_blank(content_ref.0@)
    &&& !is_blank(content_digest.0@)
}

pub fn validate_spec_identity(
    schema_version: SchemaVersion,
    version: &StrategyVersionRef,
    scope: &Scope,
    content_ref: &ContentRef,
    content_digest: &SchemaDigest,
    compatibility: &StrategyRuntimeCompatibility,
) -> (r: Result<(), Error>)
    ensures
        r is Ok <==> spec_identity_valid(
            schema_version,
            *version,
            *scope,
            *content_ref,
            *content_digest,
            *compatibility,
        ),
{
    compatibility.validate()?;
    if schema_version.0 == 0 || blank(version.0.as_str()) || blank(scope.0.as_str()) || blank(
        content_ref.0.as_str(),
    ) || blank(content_digest.0.as_str()) {
        return Err(Error("strategy spec identity is incomplete".to_string()));
    }
    Ok(())
}

#[derive(Debug, Clone, PartialEq, Eq)]
pub struct LoopStrategySpec {
    pub schema_version: SchemaVersion,
    pub version: StrategyVersionRef,
    pub scope: Scope,
    pub content_ref: ContentRef,
    pub content_digest: SchemaDigest,
    pub compatibility: StrategyRuntimeCompatibility,
    pub phases: Vec<LoopPhase>,
    pub triggers: Vec<LoopTrigger>,
    pub checkpoint_cadence_turns: u32,
    pub verification_cadence_turns: u32,
    pub budget: LoopBudgetProfile,
    pub failure_fallback: LoopFailureFallback,
}

impl LoopStrategySpec {
    /// Every governed phase is present, the phases that gate an action come in
    /// their governed order, and the cadences fit the budget.
    pub open spec fn valid(&self) -> bool {
        &&& spec_identity_valid(
            self.schema_version,
            self.version,
            self.scope,
            self.content_ref,
            self.content_digest,
            self.compatibility,
        )
        &&& self.budget.valid()
        &&& self.phases@.len() > 0
        &&& distinct_tags(self.phases@)
        &&& self.triggers@.len() > 0
        &&& distinct_tags(self.triggers@)
        &&& self.checkpoint_cadence_turns != 0
        &&& self.verification_cadence_turns != 0
        &&& self.checkpoint_cadence_turns <= self.budget.max_turns
        &&& self.verification_cadence_turns <= self.budget.max_turns
        &&& has_tag(self.phases@, 0)
        &&& has_tag(self.phases@, 1)
        &&& has_tag(self.phases@, 2)
        &&& has_tag(self.phases@, 3)
        &&& has_tag(self.phases@, 4)
        &&& has_tag(self.phases@, 5)
        &&& has_tag(self.phases@, 7)
        &&& ordered_before_tags(self.phases@, 0, 1)
        &&& ordered_before_tags(self.phases@, 2, 3)
        &&& ordered_before_tags(self.phases@, 3, 4)
        &&& ordered_before_tags(self.phases@, 4, 5)
        &&& ordered_before_tags(self.phases@, 5, 7)
    }

    pub fn validate(&self) -> (r: Result<(), Error>)
        ensures
            r is Ok <==> self.valid(),
    {
        validate_spec_identity(
            self.schema_version,
            &self.version,
            &self.scope,
            &self.content_ref,
            &self.content_digest,
            &self.compatibility,
        )?;
        self.budget.validate()?;
        if self.phases.len() == 0 || !check_distinct_tags(&self.phases) || self.triggers.len()
            == 0 || !check_distinct_tags(&self.triggers) || self.checkpoint_cadence_turns == 0
            || self.verification_cadence_turns == 0 || self.checkpoint_cadence_turns
            > self.budget.max_turns || self.verification_cadence_turns > self.budget.max_turns
            || !check_has_tag(&self.phases, 0) || !check_has_tag(&self.phases, 1)
            || !check_has_tag(&self.phases, 2) || !check_has_tag(&self.phases, 3)
            || !check_has_tag(&self.phases, 4) || !check_has_tag(&self.phases, 5)
            || !check_has_tag(&self.phases, 7) || !ordered_before(&self.phases, 0, 1)
            || !ordered_before(&self.phases, 2, 3) || !ordered_before(&self.phases, 3, 4)
            || !ordered_before(&self.phases, 4, 5) || !ordered_before(&self.phases, 5, 7) {
            return Err(
                Error(
                    "loop strategy removes a governed phase or has invalid cadence".to_string(),
                ),
            );
        }
        Ok(())
    }
}

#[derive(Debug, Clone, Copy, PartialEq, Eq, Structural)]
pub enum CoordinationMode {
    Single,
    Multi,
}

#[derive(Debug, Clone, Copy, PartialEq, Eq, Structural)]
pub enum CoordinationTaskScale {
    Single,
    MultiStage,
    LongRunning,
}

#[derive(Debug, Clone, Copy, PartialEq, Eq, Structural)]
pub enum CoordinationDecomposability {
    Whole,
    Parallel,
    Sequential,
    Iterative,
}

#[derive(Debug, Clone, Copy, PartialEq, Eq, Structural)]
pub enum CoordinationVerifiability {
    SelfCheck,
    IndependentReview,
    Environment,
}

#[derive(Debug, Clone, Copy, PartialEq, Eq, Structural)]
pub enum CoordinationTopology {
    Direct,
    IndependentSlices,
    ReviewGate,
}

#[derive(Debug, Clone, Copy, PartialEq, Eq, Structural)]
pub enum CheckpointTopology {
    PerNode,
    ReviewGate,
    PerRoute,
}

#[derive(Debug, Clone, PartialEq, Eq)]
pub struct CoordinationApplicabilitySpec {
    pub schema_version: SchemaVersion,
    pub scale: CoordinationTaskScale,
    pub decomposability: CoordinationDecomposability,
    pub verifiability: CoordinationVerifiability,
}

#[derive(Debug, Clone, PartialEq, Eq)]
pub struct CoordinationPatternSpec {
    pub schema_version: SchemaVersion,
    pub pattern: OrchestrationPatternRef,
    pub topology: CoordinationTopology,
}

/// A pattern entry is identified by its pattern.
impl Textual for CoordinationPatternSpec {
    open spec fn text(&self) -> Seq<char> {
        self.pattern.0@
    }

    fn as_text(&self) -> (r: &String) {
        &self.pattern.0
    }
}

#[derive(Debug, Clone, PartialEq, Eq)]
pub struct CoordinationRoleWeight {
    pub schema_version: SchemaVersion,
    pub role: RoleRef,
    pub weight_basis_points: u16,
}

/// A role weight is identified by its role.
impl Textual for CoordinationRoleWeight {
    open spec fn text(&self) -> Seq<char> {
        self.role.0@
    }

    fn as_text(&self) -> (r: &String) {
        &self.role.0
    }
}

/// A list entry that carries a weight in basis points.
pub trait Weighted: Sized {
    spec fn weight(&self) -> nat;

    fn weight_of(&self) -> (r: u16)
        ensures
            r == self.weight(),
    ;
}

impl Weighted for CoordinationRoleWeight {
    open spec fn weight(&self) -> nat {
        self.weight_basis_points as nat
    }

    fn weight_of(&self) -> (r: u16) {
        self.weight_basis_points
    }
}

/// The sum of the weights of a list.
pub open spec fn total_weight<T: Weighted>(v: Seq<T>) -> nat
    decreases v.len(),
{
    if v.len() == 0 {
        0
    } else {
        total_weight(v.drop_last()) + v.last().weight()
    }
}

pub proof fn lemma_total_weight_prefix<T: Weighted>(v: Seq<T>, i: int, j: int)
    requires
        0 <= i <= j <= v.len(),
    ensures
        total_weight(v.subrange(0, i)) <= total_weight(v.subrange(0, j)),
    decreases j - i,
{
    if i < j {
        lemma_total_weight_prefix(v, i, j - 1);
        assert(v.subrange(0, j).drop_last() =~= v.subrange(0, j - 1));
    }
}

/// Whether the weights of a list add up to exactly 10 000 basis points.
pub fn weights_sum_to_whole<T: Weighted>(v: &Vec<T>) -> (r: bool)
    ensures
        r == (total_weight(v@) == 10_000),
{
    let mut acc: u64 = 0;
    let mut i: usize = 0;
    while i < v.len()
        invariant
            i <= v.len(),
            acc == total_weight(v@.subrange(0, i as int)),
            acc <= 10_000,
        decreases v.len() - i,
    {
        acc = acc + v[i].weight_of() as u64;
        proof {
            assert(v@.subrange(0, i + 1).drop_last() =~= v@.subrange(0, i as int));
        }
        i = i + 1;
        if acc > 10_000 {
            proof {
                lemma_total_weight_prefix(v@, i as int, v@.len() as int);
                assert(v@.subrange(0, v@.len() as int) =~= v@);
            }
            return false;
        }
    }
    proof {
        assert(v@.subrange(0, i as int) =~= v@);
    }
    acc == 10_000
}

#[derive(Debug, Clone, PartialEq, Eq)]
pub struct CoordinationStrategySpec {
    pub schema_version: SchemaVersion,
    pub version: StrategyVersionRef,
    pub scope: Scope,
    pub content_ref: ContentRef,
    pub content_digest: SchemaDigest,
    pub compatibility: StrategyRuntimeCompatibility,
    pub applicability: CoordinationApplicabilitySpec,
    pub patterns: Vec<CoordinationPatternSpec>,
    pub mode: CoordinationMode,
    pub role_weights: Vec<CoordinationRoleWeight>,
    pub max_subagents: u16,
    pub checkpoint_topology: CheckpointTopology,
}

impl CoordinationStrategySpec {
    pub open spec fn valid(&self) -> bool {
        &&& spec_identity_valid(
            self.schema_version,
            self.version,
            self.scope,
            self.content_ref,
            self.content_digest,
            self.compatibility,
        )
        &&& self.applicability.schema_version.0 != 0
        &&& self.patterns@.len() > 0
        &&& distinct_texts(self.patterns@)
        &&& forall|i: int|
            0 <= i < self.patterns@.len() ==> (#[trigger] self.patterns@[i]).schema_version.0 != 0
                && !is_blank(self.patterns@[i].pattern.0@)
        &&& self.role_weights@.len() > 0
        &&& distinct_texts(self.role_weights@)
        &&& forall|i: int|
            0 <= i < self.role_weights@.len() ==> {
                let role = #[trigger] self.role_weights@[i];
                &&& role.schema_version.0 != 0
                &&& !is_blank(role.role.0@)
                &&& role.weight_basis_points != 0
                &&& role.weight_basis_points <= 10_000
            }
        &&& total_weight(self.role_weights@) == 10_000
        &&& self.max_subagents != 0
        &&& self.max_subagents <= 16
        &&& (self.mode == CoordinationMode::Single ==> self.max_subagents == 1)
    }

    pub fn validate(&self) -> (r: Result<(), Error>)
        ensures
            r is Ok <==> self.valid(),
    {
        validate_spec_identity(
            self.schema_version,
            &self.version,
            &self.scope,
            &self.content_ref,
            &self.content_digest,
            &self.compatibility,
        )?;
        if self.applicability.schema_version.0 == 0 || self.patterns.len() == 0
            || !check_distinct_texts(&self.patterns) || self.role_weights.len() == 0
            || !check_distinct_texts(&self.role_weights) || !weights_sum_to_whole(
            &self.role_weights,
        ) || self.max_subagents == 0 || self.max_subagents > 16 || (self.mode
            == CoordinationMode::Single && self.max_subagents != 1) {
            return Err(
                Error(
                    "coordination strategy is empty, duplicated, overflowing, or unbounded".to_string(),
                ),
            );
        }
        let mut i: usize = 0;
        while i < self.patterns.len()
            invariant
                i <= self.patterns@.len(),
                forall|j: int|
                    0 <= j < i ==> (#[trigger] self.patterns@[j]).schema_version.0 != 0
                        && !is_blank(self.patterns@[j].pattern.0@),
            decreases self.patterns@.len() - i,
        {
            if self.patterns[i].schema_version.0 == 0 || blank(
                self.patterns[i].pattern.0.as_str(),
            ) {
                return Err(
                    Error(
                        "coordination strategy is empty, duplicated, overflowing, or unbounded".to_string(),
                    ),
                );
            }
            i = i + 1;
        }
        let mut k: usize = 0;
        while k < self.role_weights.len()
            invariant
                k <= self.role_weights@.len(),
                forall|j: int|
                    0 <= j < k ==> {
                        let role = #[trigger] self.role_weights@[j];
                        &&& role.schema_version.0 != 0
                        &&& !is_blank(role.role.0@)
                        &&& role.weight_basis_points != 0
                        &&& role.weight_basis_points <= 10_000
                    },
            decreases self.role_weights@.len() - k,
        {
            let role = &self.role_weights[k];
            if role.schema_version.0 == 0 || blank(role.role.0.as_str())
                || role.weight_basis_points == 0 || role.weight_basis_points > 10_000 {
                return Err(
                    Error(
                        "coordination strategy is empty, duplicated, overflowing, or unbounded".to_string(),
                    ),
                );
            }
            k = k + 1;
        }
        Ok(())
    }
}

#[derive(Debug, Clone, Copy, PartialEq, Eq, PartialOrd, Ord, Structural)]
pub enum SelectionTarget {
    Capability,
    Model,
    Backend,
}

#[derive(Debug, Clone, Copy, PartialEq, Eq, PartialOrd, Ord, Structural)]
pub enum SelectionFeature {
    VerifiedSuccess,
    FailurePenalty,
    Compatibility,
    Reliability,
    Cost,
    Latency,
}

impl Tagged for SelectionFeature {
    open spec fn tag(&self) -> nat {
        match self {
            SelectionFeature::VerifiedSuccess => 0,
            SelectionFeature::FailurePenalty => 1,
            SelectionFeature::Compatibility => 2,
            SelectionFeature::Reliability => 3,
            SelectionFeature::Cost => 4,
            SelectionFeature::Latency => 5,
        }
    }

    fn tag_of(&self) -> (r: u8) {
        match self {
            SelectionFeature::VerifiedSuccess => 0,
            SelectionFeature::FailurePenalty => 1,
            SelectionFeature::Compatibility => 2,
            SelectionFeature::Reliability => 3,
            SelectionFeature::Cost => 4,
            SelectionFeature::Latency => 5,
        }
    }
}


#[derive(Debug, Clone, Copy, PartialEq, Eq, Structural)]
pub enum SelectionTieBreaker {
    StableIdentity,
    LowerCost,
    RecentVerifiedSuccess,
}

#[derive(Debug, Clone, Copy, PartialEq, Eq, Structural)]
pub enum SelectionFallback {
    NoSelection,
    SeedOrder,
}

#[derive(Debug, Clone, PartialEq, Eq)]
pub struct SelectionFeatureWeight {
    pub schema_version: SchemaVersion,
    pub feature: SelectionFeature,
    pub weight_basis_points: u16,
}

/// A feature weight is identified by its feature.
impl Tagged for SelectionFeatureWeight {
    open spec fn tag(&self) -> nat {
        self.feature.tag()
    }

    fn tag_of(&self) -> (r: u8) {
        self.feature.tag_of()
    }
}

impl Weighted for SelectionFeatureWeight {
    open spec fn weight(&self) -> nat {
        self.weight_basis_points as nat
    }

    fn weight_of(&self) -> (r: u16) {
        self.weight_basis_points
    }
}

#[derive(Debug, Clone, PartialEq, Eq)]
pub struct SelectionStrategySpec {
    pub schema_version: SchemaVersion,
    pub version: StrategyVersionRef,
    pub scope: Scope,
    pub content_ref: ContentRef,
    pub content_digest: SchemaDigest,
    pub compatibility: StrategyRuntimeCompatibility,
    pub target: SelectionTarget,
    pub weights: Vec<SelectionFeatureWeight>,
    pub tie_breaker: SelectionTieBreaker,
    pub fallback: SelectionFallback,
    pub max_results: u16,
}

impl SelectionStrategySpec {
    /// Verified success, failure penalty and compatibility always carry weight,
    /// and the weights share out exactly the whole.
    pub open spec fn valid(&self) -> bool {
        &&& spec_identity_valid(
            self.schema_version,
            self.version,
            self.scope,
            self.content_ref,
            self.content_digest,
            self.compatibility,
        )
        &&& self.weights@.len() > 0
        &&& distinct_tags(self.weights@)
        &&& has_tag(self.weights@, 0)
        &&& has_tag(self.weights@, 1)
        &&& has_tag(self.weights@, 2)
        &&& forall|i: int|
            0 <= i < self.weights@.len() ==> {
                let w = #[trigger] self.weights@[i];
                &&& w.schema_version.0 != 0
                &&& w.weight_basis_points != 0
                &&& w.weight_basis_points <= 10_000
            }
        &&& total_weight(self.weights@) == 10_000
        &&& self.max_results != 0
        &&& self.max_results <= 256
    }

    pub fn validate(&self) -> (r: Result<(), Error>)
        ensures
            r is Ok <==> self.valid(),
    {
        validate_spec_identity(
            self.schema_version,
            &self.version,
            &self.scope,
            &self.content_ref,
            &self.content_digest,
            &self.compatibility,
        )?;
        if self.weights.len() == 0 || !check_distinct_tags(&self.weights) || !check_has_tag(
            &self.weights,
            0,
        ) || !check_has_tag(&self.weights, 1) || !check_has_tag(&self.weights, 2)
            || !weights_sum_to_whole(&self.weights) || self.max_results == 0 || self.max_results
            > 256 {
            return Err(
                Error(
                    "selection strategy lacks result evidence or has invalid weights".to_string(),
                ),
            );
        }
        let mut i: usize = 0;
        while i < self.weights.len()
            invariant
                i <= self.weights@.len(),
                forall|j: int|
                    0 <= j < i ==> {
                        let w = #[trigger] self.weights@[j];
                        &&& w.schema_version.0 != 0
                        &&& w.weight_basis_points != 0
                        &&& w.weight_basis_points <= 10_000
                    },
            decreases self.weights@.len() - i,
        {
            let w = &self.weights[i];
            if w.schema_version.0 == 0 || w.weight_basis_points == 0 || w.weight_basis_points
                > 10_000 {
                return Err(
                    Error(
                        "selection strategy lacks result evidence or has invalid weights".to_string(),
                    ),
                );
            }
            i = i + 1;
        }
        Ok(())
    }
}

#[derive(Debug, Clone, Copy, PartialEq, Eq, PartialOrd, Ord, Structural)]
pub enum ModelStrengthBand {
    Basic,
    Standard,
    Strong,
}

#[derive(Debug, Clone, PartialEq, Eq)]
pub struct ModelCapabilityPredicate {
    pub schema_version: SchemaVersion,
    pub minimum_context_window: u32,
    pub requires_tool_use: bool,
    pub minimum_strength: ModelStrengthBand,
}

#[derive(Debug, Clone, PartialEq, Eq)]
pub struct ModelScaffoldProfile {
    pub schema_version: SchemaVersion,
    pub externalized_steps: u16,
    pub verification_passes: u16,
    pub checkpoint_cadence_steps: u16,
}

#[derive(Debug, Clone, PartialEq, Eq)]
pub struct ModelAdaptationSpec {
    pub schema_version: SchemaVersion,
    pub version: StrategyVersionRef,
    pub scope: Scope,
    pub content_ref: ContentRef,
    pub content_digest: SchemaDigest,
    pub compatibility: StrategyRuntimeCompatibility,
    pub predicate: ModelCapabilityPredicate,
    pub scaffold: ModelScaffoldProfile,
}

impl ModelAdaptationSpec {
    pub open spec fn valid(&self) -> bool {
        &&& spec_identity_valid(
            self.schema_version,
            self.version,
            self.scope,
            self.content_ref,
            self.content_digest,
            self.compatibility,
        )
        &&& self.predicate.schema_version.0 != 0
        &&& self.predicate.minimum_context_window != 0
        &&& self.scaffold.schema_version.0 != 0
        &&& 1 <= self.scaffold.externalized_steps <= 16
        &&& 1 <= self.scaffold.verification_passes <= 8
        &&& 1 <= self.scaffold.checkpoint_cadence_steps <= self.scaffold.externalized_steps
    }

    pub fn validate(&self) -> (r: Result<(), Error>)
        ensures
            r is Ok <==> self.valid(),
    {
        validate_spec_identity(
            self.schema_version,
            &self.version,
            &self.scope,
            &self.content_ref,
            &self.content_digest,
            &self.compatibility,
        )?;
        if self.predicate.schema_version.0 == 0 || self.predicate.minimum_context_window == 0
            || self.scaffold.schema_version.0 == 0 || self.scaffold.externalized_steps == 0
            || self.scaffold.externalized_steps > 16 || self.scaffold.verification_passes == 0
            || self.scaffold.verification_passes > 8 || self.scaffold.checkpoint_cadence_steps
            == 0 || self.scaffold.checkpoint_cadence_steps > self.scaffold.externalized_steps {
            return Err(
                Error(
                    "model adaptation strategy is zero, unbounded, or unverifiable".to_string(),
                ),
            );
        }
        Ok(())
    }
}

fn duplicate_digest(v: &Option<SchemaDigest>) -> (r: Option<SchemaDigest>)
    ensures
        r == *v,
{
    match v {
        Some(d) => Some(d.duplicate()),
        None => None,
    }
}

impl Duplicate for StrategyRuntimeCompatibility {
    fn duplicate(&self) -> (r: Self) {
        StrategyRuntimeCompatibility {
            schema_version: self.schema_version,
            minimum_runtime_schema: self.minimum_runtime_schema,
            event_schema: self.event_schema,
            model_profile: match &self.model_profile {
                Some(m) => Some(m.duplicate()),
                None => None,
            },
            tool_schema: duplicate_digest(&self.tool_schema),
            backend_schema: duplicate_digest(&self.backend_schema),
        }
    }
}

impl Duplicate for ModelAdaptationSpec {
    fn duplicate(&self) -> (r: Self) {
        ModelAdaptationSpec {
            schema_version: self.schema_version,
            version: self.version.duplicate(),
            scope: self.scope.duplicate(),
            content_ref: self.content_ref.duplicate(),
            content_digest: self.content_digest.duplicate(),
            compatibility: self.compatibility.duplicate(),
            predicate: ModelCapabilityPredicate {
                schema_version: self.predicate.schema_version,
                minimum_context_window: self.predicate.minimum_context_window,
                requires_tool_use: self.predicate.requires_tool_use,
                minimum_strength: self.predicate.minimum_strength,
            },
            scaffold: ModelScaffoldProfile {
                schema_version: self.scaffold.schema_version,
                externalized_steps: self.scaffold.externalized_steps,
                verification_passes: self.scaffold.verification_passes,
                checkpoint_cadence_steps: self.scaffold.checkpoint_cadence_steps,
            },
        }
    }
}

/// Two optional digests name the same text, or are both absent.
pub open spec fn same_optional_digest(a: Option<SchemaDigest>, b: Option<SchemaDigest>) -> bool {
    match (a, b) {
        (Some(x), Some(y)) => x.0@ == y.0@,
        (None, None) => true,
        _ => false,
    }
}

/// Two compatibility records are equal field by field, strings by their text.
pub open spec fn same_compatibility(
    a: StrategyRuntimeCompatibility,
    b: StrategyRuntimeCompatibility,
) -> bool {
    &&& a.schema_version == b.schema_version
    &&& a.minimum_runtime_schema == b.minimum_runtime_schema
    &&& a.event_schema == b.event_schema
    &&& match (a.model_profile, b.model_profile) {
        (Some(x), Some(y)) => x.0@ == y.0@,
        (None, None) => true,
        _ => false,
    }
    &&& same_optional_digest(a.tool_schema, b.tool_schema)
    &&& same_optional_digest(a.backend_schema, b.backend_schema)
}

/// Two adaptation specifications are equal field by field, strings by their text.
pub open spec fn same_adaptation(a: ModelAdaptationSpec, b: ModelAdaptationSpec) -> bool {
    &&& a.schema_version == b.schema_version
    &&& a.version.0@ == b.version.0@
    &&& a.scope.0@ == b.scope.0@
    &&& a.content_ref.0@ == b.content_ref.0@
    &&& a.content_digest.0@ == b.content_digest.0@
    &&& same_compatibility(a.compatibility, b.compatibility)
    &&& a.predicate == b.predicate
    &&& a.scaffold == b.scaffold
}

fn equal_optional_digest(a: &Option<SchemaDigest>, b: &Option<SchemaDigest>) -> (r: bool)
    ensures
        r == same_optional_digest(*a, *b),
{
    match (a, b) {
        (Some(x), Some(y)) => same_text(&x.0, &y.0),
        (None, None) => true,
        _ => false,
    }
}

/// Whether two adaptation specifications are equal.
pub fn equal_adaptation(a: &ModelAdaptationSpec, b: &ModelAdaptationSpec) -> (r: bool)
    ensures
        r == same_adaptation(*a, *b),
{
    let ca = &a.compatibility;
    let cb = &b.compatibility;
    let model_same = match (&ca.model_profile, &cb.model_profile) {
        (Some(x), Some(y)) => same_text(&x.0, &y.0),
        (None, None) => true,
        _ => false,
    };
    a.schema_version.0 == b.schema_version.0 && same_text(&a.version.0, &b.version.0) && same_text(
        &a.scope.0,
        &b.scope.0,
    ) && same_text(&a.content_ref.0, &b.content_ref.0) && same_text(
        &a.content_digest.0,
        &b.content_digest.0,
    ) && ca.schema_version.0 == cb.schema_version.0 && ca.minimum_runtime_schema.0
        == cb.minimum_runtime_schema.0 && ca.event_schema.0 == cb.event_schema.0 && model_same
        && equal_optional_digest(&ca.tool_schema, &cb.tool_schema) && equal_optional_digest(
        &ca.backend_schema,
        &cb.backend_schema,
    ) && a.predicate.schema_version.0 == b.predicate.schema_version.0
        && a.predicate.minimum_context_window == b.predicate.minimum_context_window
        && a.predicate.requires_tool_use == b.predicate.requires_tool_use
        && a.predicate.minimum_strength == b.predicate.minimum_strength
        && a.scaffold.schema_version.0 == b.scaffold.schema_version.0
        && a.scaffold.externalized_steps == b.scaffold.externalized_steps
        && a.scaffold.verification_passes == b.scaffold.verification_passes
        && a.scaffold.checkpoint_cadence_steps == b.scaffold.checkpoint_cadence_steps
}

} // verus!
