//! Model adaptation: which scaffold a model runs under, chosen from the
//! strength its results were measured at, never from what its provider
//! declares alone; and the registry that binds each adaptation version to
//! one specification.
use vstd::prelude::*;

use crate::m3_b::{equal_adaptation, same_adaptation, ModelAdaptationSpec, ModelScaffoldProfile, ModelStrengthBand};
use crate::models::{ModelProfile, ModelStrength};
use crate::primitives::{Error, EvidenceRef, ModelProfileRef, SchemaVersion, StrategyVersionRef};
use crate::text::{
    all_filled, check_all_filled, check_distinct_texts, distinct_texts, duplicate_all, has_text,
    same_text, Duplicate, Textual,
};

verus! {

#[derive(Debug, Clone, PartialEq, Eq)]
pub struct ModelOutcomeEvidence {
    pub schema_version: SchemaVersion,
    pub profile: ModelProfileRef,
    pub measured_strength: ModelStrengthBand,
    pub verified_outcomes: u32,
    pub failures: u32,
    pub evidence_refs: Vec<EvidenceRef>,
}

#[derive(Debug, Clone, PartialEq, Eq)]
pub struct ModelScaffoldPlan {
    pub schema_version: SchemaVersion,
    pub strategy: StrategyVersionRef,
    pub effective_strength: ModelStrengthBand,
    pub scaffold: ModelScaffoldProfile,
    pub verification_required: bool,
    pub high_impact_trace_required: bool,
    pub high_impact_approval_required: bool,
    pub evidence_refs: Vec<EvidenceRef>,
}

/// The order of strength bands, weakest first.
pub open spec fn band_rank(b: ModelStrengthBand) -> nat {
    match b {
        ModelStrengthBand::Basic => 0,
        ModelStrengthBand::Standard => 1,
        ModelStrengthBand::Strong => 2,
    }
}

fn band_rank_of(b: ModelStrengthBand) -> (r: u8)
    ensures
        r == band_rank(b),
{
    match b {
        ModelStrengthBand::Basic => 0,
        ModelStrengthBand::Standard => 1,
        ModelStrengthBand::Strong => 2,
    }
}

/// The band of a declared strength.
pub open spec fn declared_band(s: ModelStrength) -> ModelStrengthBand {
    match s {
        ModelStrength::Basic => ModelStrengthBand::Basic,
        ModelStrength::Standard => ModelStrengthBand::Standard,
        ModelStrength::Strong => ModelStrengthBand::Strong,
    }
}

fn strength_band(s: ModelStrength) -> (r: ModelStrengthBand)
    ensures
        r == declared_band(s),
{
    match s {
        ModelStrength::Basic => ModelStrengthBand::Basic,
        ModelStrength::Standard => ModelStrengthBand::Standard,
        ModelStrength::Strong => ModelStrengthBand::Strong,
    }
}

/// The strength a plan may count on: the lower of the declared and the measured band.
pub open spec fn effective_band(profile: ModelProfile, evidence: ModelOutcomeEvidence) -> ModelStrengthBand {
    let declared = declared_band(profile.capability.strength);
    if band_rank(declared) <= band_rank(evidence.measured_strength) {
        declared
    } else {
        evidence.measured_strength
    }
}

/// The evidence measures this profile: it is versioned, names the profile,
/// counts at least one verified outcome and cites non-blank references.
pub open spec fn evidence_measures(profile: ModelProfile, evidence: ModelOutcomeEvidence) -> bool {
    &&& evidence.schema_version.0 != 0
    &&& evidence.profile.0@ == profile.reference_text()
    &&& evidence.verified_outcomes != 0
    &&& all_filled(evidence.evidence_refs@)
}

/// The specification does not pin another model.
pub open spec fn compatible_with(spec: ModelAdaptationSpec, profile: ModelProfile) -> bool {
    !(spec.compatibility.model_profile matches Some(required) && required.0@
        != profile.reference_text())
}

/// The measured capability satisfies the specification's predicate.
pub open spec fn satisfies_predicate(
    spec: ModelAdaptationSpec,
    profile: ModelProfile,
    evidence: ModelOutcomeEvidence,
) -> bool {
    &&& profile.capability.context_window >= spec.predicate.minimum_context_window
    &&& (spec.predicate.requires_tool_use ==> profile.capability.tool_use)
    &&& band_rank(effective_band(profile, evidence)) >= band_rank(spec.predicate.minimum_strength)
}

/// An adaptation applies: both specifications are valid, the evidence measures
/// the profile, the specification accepts the model, and its predicate holds.
pub open spec fn adaptation_applies(
    spec: ModelAdaptationSpec,
    profile: ModelProfile,
    evidence: ModelOutcomeEvidence,
) -> bool {
    &&& spec.valid()
    &&& profile.valid()
    &&& evidence_measures(profile, evidence)
    &&& compatible_with(spec, profile)
    &&& satisfies_predicate(spec, profile, evidence)
}

/// Chooses the scaffold for a model from measured evidence. Verification is
/// always required, and a high-impact step needs a trace and an approval
/// whatever the model's strength.
pub fn adapt_model_scaffold(
    spec: &ModelAdaptationSpec,
    profile: &ModelProfile,
    evidence: &ModelOutcomeEvidence,
    high_impact: bool,
) -> (r: Result<ModelScaffoldPlan, Error>)
    ensures
        r is Ok <==> adaptation_applies(*spec, *profile, *evidence),
        r matches Ok(plan) ==> {
            &&& plan.schema_version == SchemaVersion(1)
            &&& plan.strategy == spec.version
            &&& plan.effective_strength == effective_band(*profile, *evidence)
            &&& plan.scaffold == spec.scaffold
            &&& plan.verification_required
            &&& plan.high_impact_trace_required == high_impact
            &&& plan.high_impact_approval_required == high_impact
            &&& plan.evidence_refs@ == evidence.evidence_refs@
        },
{
    spec.validate()?;
    profile.validate()?;
    let own_ref = profile.profile_ref();
    if evidence.schema_version.0 == 0 || !same_text(&evidence.profile.0, &own_ref.0)
        || evidence.verified_outcomes == 0 || !check_all_filled(&evidence.evidence_refs) {
        return Err(
            Error("model adaptation requires measured result evidence for this profile".to_string()),
        );
    }
    let pinned_elsewhere = match &spec.compatibility.model_profile {
        Some(required) => !same_text(&required.0, &own_ref.0),
        None => false,
    };
    if pinned_elsewhere {
        return Err(
            Error("active model adaptation is incompatible with the selected model".to_string()),
        );
    }
    let declared = strength_band(profile.capability.strength);
    let effective = if band_rank_of(declared) <= band_rank_of(evidence.measured_strength) {
        declared
    } else {
        evidence.measured_strength
    };
    if profile.capability.context_window < spec.predicate.minimum_context_window || (
    spec.predicate.requires_tool_use && !profile.capability.tool_use) || band_rank_of(effective)
        < band_rank_of(spec.predicate.minimum_strength) {
        return Err(
            Error(
                "measured model capability does not satisfy the active adaptation predicate".to_string(),
            ),
        );
    }
    Ok(
        ModelScaffoldPlan {
            schema_version: SchemaVersion(1),
            strategy: spec.version.duplicate(),
            effective_strength: effective,
            scaffold: ModelScaffoldProfile {
                schema_version: spec.scaffold.schema_version,
                externalized_steps: spec.scaffold.externalized_steps,
                verification_passes: spec.scaffold.verification_passes,
                checkpoint_cadence_steps: spec.scaffold.checkpoint_cadence_steps,
            },
            verification_required: true,
            high_impact_trace_required: high_impact,
            high_impact_approval_required: high_impact,
            evidence_refs: duplicate_all(&evidence.evidence_refs),
        },
    )
}

/// A specification is known by its version.
impl Textual for ModelAdaptationSpec {
    open spec fn text(&self) -> Seq<char> {
        self.version.0@
    }

    fn as_text(&self) -> (r: &String) {
        &self.version.0
    }
}

/// Where adaptation specifications are looked up by version.
pub trait ModelAdaptationRegistry {
    fn resolve(&self, version: &StrategyVersionRef) -> Result<ModelAdaptationSpec, Error>;
}

/// The first position in `specs` whose version reads `version`.
pub open spec fn first_version_at(specs: Seq<ModelAdaptationSpec>, version: Seq<char>, i: int) -> bool {
    &&& 0 <= i < specs.len()
    &&& specs[i].text() == version
    &&& forall|j: int| 0 <= j < i ==> #[trigger] specs[j].text() != version
}

/// The specification listed first under `version`, if any.
pub open spec fn listed_under(specs: Seq<ModelAdaptationSpec>, version: Seq<char>) -> Option<
    ModelAdaptationSpec,
> {
    if has_text(specs, version) {
        Some(specs[choose|i: int| first_version_at(specs, version, i)])
    } else {
        None
    }
}

proof fn lemma_first_version_unique(specs: Seq<ModelAdaptationSpec>, version: Seq<char>, i: int, k: int)
    requires
        first_version_at(specs, version, i),
        first_version_at(specs, version, k),
    ensures
        i == k,
{
    if i < k {
        assert(specs[i].text() != version);
    } else if k < i {
        assert(specs[k].text() != version);
    }
}

proof fn lemma_first_version_exists(specs: Seq<ModelAdaptationSpec>, version: Seq<char>)
    requires
        has_text(specs, version),
    ensures
        exists|i: int| first_version_at(specs, version, i),
    decreases specs.len(),
{
    let k = choose|k: int| 0 <= k < specs.len() && #[trigger] specs[k].text() == version;
    if specs[0].text() == version {
        assert(first_version_at(specs, version, 0));
    } else {
        let rest = specs.subrange(1, specs.len() as int);
        assert(rest[k - 1].text() == version);
        assert(has_text(rest, version));
        lemma_first_version_exists(rest, version);
        let i = choose|i: int| first_version_at(rest, version, i);
        assert forall|j: int| 0 <= j < i + 1 implies #[trigger] specs[j].text() != version by {
            if j > 0 {
                assert(specs[j] == rest[j - 1]);
            }
        }
        assert(first_version_at(specs, version, i + 1));
    }
}

/// Each version bound to one specification, held in memory. The seed is bound
/// from the start, and a version once bound keeps its specification.
pub struct InMemoryModelAdaptationRegistry {
    seed: StrategyVersionRef,
    specs: Vec<ModelAdaptationSpec>,
}

impl InMemoryModelAdaptationRegistry {
    /// No version is bound twice, every bound specification is valid, and the seed is bound.
    pub closed spec fn wf(&self) -> bool {
        &&& distinct_texts(self.specs@)
        &&& forall|i: int| 0 <= i < self.specs@.len() ==> #[trigger] self.specs@[i].valid()
        &&& has_text(self.specs@, self.seed.0@)
    }

    /// The version the registry was seeded with.
    pub closed spec fn seed_text(&self) -> Seq<char> {
        self.seed.0@
    }

    /// The specification bound to `version`, if any.
    pub closed spec fn bound(&self, version: Seq<char>) -> Option<ModelAdaptationSpec> {
        listed_under(self.specs@, version)
    }

    /// A registry that binds the seed's version to the seed.
    pub fn with_seed(seed: ModelAdaptationSpec) -> (r: Result<Self, Error>)
        ensures
            r is Ok <==> seed.valid(),
            r matches Ok(registry) ==> {
                &&& registry.wf()
                &&& registry.seed_text() == seed.version.0@
                &&& forall|v: Seq<char>| #[trigger]
                    registry.bound(v) == if v == seed.version.0@ {
                        Some(seed)
                    } else {
                        None::<ModelAdaptationSpec>
                    }
            },
    {
        seed.validate()?;
        let version = seed.version.duplicate();
        let mut specs: Vec<ModelAdaptationSpec> = Vec::new();
        specs.push(seed);
        let registry = InMemoryModelAdaptationRegistry { seed: version, specs };
        proof {
            assert(registry.specs@[0].text() == registry.seed.0@);
            assert(first_version_at(registry.specs@, registry.seed.0@, 0));
            assert forall|v: Seq<char>| #[trigger]
                registry.bound(v) == if v == registry.seed.0@ {
                    Some(registry.specs@[0])
                } else {
                    None::<ModelAdaptationSpec>
                } by {
                if v == registry.seed.0@ {
                    let i = choose|i: int| first_version_at(registry.specs@, v, i);
                    lemma_first_version_unique(registry.specs@, v, i, 0);
                }
            }
        }
        Ok(registry)
    }

    /// The version the registry was seeded with.
    pub fn seed_version(&self) -> (r: &StrategyVersionRef)
        ensures
            r.0@ == self.seed_text(),
    {
        &self.seed
    }

    /// Binds a valid specification to its version. A version already bound
    /// accepts the same specification again and refuses any other.
    pub fn register(&mut self, spec: ModelAdaptationSpec) -> (r: Result<(), Error>)
        requires
            old(self).wf(),
        ensures
            final(self).wf(),
            final(self).seed_text() == old(self).seed_text(),
            r is Ok <==> spec.valid() && match old(self).bound(spec.version.0@) {
                Some(existing) => same_adaptation(existing, spec),
                None => true,
            },
            (r is Ok && old(self).bound(spec.version.0@) is None) ==> forall|v: Seq<char>| #[trigger]
                final(self).bound(v) == if v == spec.version.0@ {
                    Some(spec)
                } else {
                    old(self).bound(v)
                },
            !(r is Ok && old(self).bound(spec.version.0@) is None) ==> forall|v: Seq<char>| #[trigger]
                final(self).bound(v) == old(self).bound(v),
    {
        spec.validate()?;
        let ghost before = self.specs@;
        let mut i: usize = 0;
        while i < self.specs.len()
            invariant
                i <= self.specs@.len(),
                self.specs@ == before,
                *self == *old(self),
                self.wf(),
                spec.valid(),
                forall|j: int| 0 <= j < i ==> #[trigger] before[j].text() != spec.version.0@,
            decreases self.specs@.len() - i,
        {
            if same_text(&self.specs[i].version.0, &spec.version.0) {
                proof {
                    assert(first_version_at(before, spec.version.0@, i as int));
                    assert(has_text(before, spec.version.0@));
                    let k = choose|k: int| first_version_at(before, spec.version.0@, k);
                    lemma_first_version_unique(before, spec.version.0@, k, i as int);
                }
                if equal_adaptation(&self.specs[i], &spec) {
                    return Ok(());
                }
                return Err(
                    Error(
                        "model adaptation version is already bound to different content".to_string(),
                    ),
                );
            }
            i = i + 1;
        }
        assert(!has_text(before, spec.version.0@));
        self.specs.push(spec);
        proof {
            let after = self.specs@;
            assert(after == before.push(spec));
            assert forall|a: int, b: int|
                0 <= a < after.len() && 0 <= b < after.len() && a != b implies #[trigger] after[a].text()
                != #[trigger] after[b].text() by {
                if a < before.len() && b < before.len() {
                    assert(after[a] == before[a] && after[b] == before[b]);
                }
            }
            assert(has_text(after, self.seed.0@)) by {
                let k = choose|k: int| 0 <= k < before.len() && #[trigger] before[k].text() == self.seed.0@;
                assert(after[k] == before[k]);
            }
            assert forall|v: Seq<char>| #[trigger]
                listed_under(after, v) == if v == spec.version.0@ {
                    Some(spec)
                } else {
                    listed_under(before, v)
                } by {
                let n = before.len() as int;
                if v == spec.version.0@ {
                    assert(after[n].text() == v);
                    assert forall|j: int| 0 <= j < n implies #[trigger] after[j].text() != v by {
                        assert(after[j] == before[j]);
                    }
                    assert(first_version_at(after, v, n));
                    let i = choose|i: int| first_version_at(after, v, i);
                    lemma_first_version_unique(after, v, i, n);
                } else if has_text(before, v) {
                    lemma_first_version_exists(before, v);
                    let i = choose|i: int| first_version_at(before, v, i);
                    assert forall|j: int| 0 <= j < i implies #[trigger] after[j].text() != v by {
                        assert(after[j] == before[j]);
                        assert(before[j].text() != v);
                    }
                    assert(after[i] == before[i]);
                    assert(first_version_at(after, v, i));
                    let i2 = choose|i2: int| first_version_at(after, v, i2);
                    lemma_first_version_unique(after, v, i, i2);
                } else {
                    assert forall|j: int| 0 <= j < after.len() implies #[trigger] after[j].text() != v by {
                        if j < n {
                            assert(after[j] == before[j]);
                        }
                    }
                }
            }
        }
        Ok(())
    }
}

impl ModelAdaptationRegistry for InMemoryModelAdaptationRegistry {
    /// The specification bound to the version, or an error naming it.
    fn resolve(&self, version: &StrategyVersionRef) -> (r: Result<ModelAdaptationSpec, Error>)
        ensures
            match self.bound(version.0@) {
                Some(spec) => r == Ok::<ModelAdaptationSpec, Error>(spec),
                None => r is Err,
            },
    {
        let mut i: usize = 0;
        while i < self.specs.len()
            invariant
                i <= self.specs@.len(),
                forall|j: int| 0 <= j < i ==> #[trigger] self.specs@[j].text() != version.0@,
            decreases self.specs@.len() - i,
        {
            if same_text(&self.specs[i].version.0, &version.0) {
                proof {
                    assert(first_version_at(self.specs@, version.0@, i as int));
                    assert(has_text(self.specs@, version.0@));
                    let k = choose|k: int| first_version_at(self.specs@, version.0@, k);
                    lemma_first_version_unique(self.specs@, version.0@, k, i as int);
                }
                return Ok(self.specs[i].duplicate());
            }
            i = i + 1;
        }
        let mut message = "unsupported model adaptation version ".to_string();
        message.append(version.0.as_str());
        Err(Error(message))
    }
}

} // verus!
