use forme::adaptation::{
    adapt_model_scaffold, InMemoryModelAdaptationRegistry, ModelAdaptationRegistry,
    ModelOutcomeEvidence,
};
use forme::m3_b::{
    ModelAdaptationSpec, ModelCapabilityPredicate, ModelScaffoldProfile, ModelStrengthBand,
    StrategyRuntimeCompatibility,
};
use forme::models::{Cost, ModelCapability, ModelProfile, ModelStrength, RateLimit, Url};
use forme::primitives::{
    ContentRef, CredentialRef, EvidenceRef, ModelProfileRef, ProviderId, SchemaDigest,
    SchemaVersion, Scope, StrategyVersionRef,
};

fn profile(strength: ModelStrength) -> ModelProfile {
    ModelProfile {
        schema_version: SchemaVersion(1),
        provider: ProviderId("provider:m3-b".into()),
        model: "model-m3-b".into(),
        base_url: Url::parse("https://models.invalid/v1").unwrap(),
        capability: ModelCapability {
            schema_version: SchemaVersion(1),
            context_window: 32_000,
            tool_use: true,
            strength,
        },
        cost: Cost {
            schema_version: SchemaVersion(1),
            input_microunits_per_million: 1,
            output_microunits_per_million: 1,
        },
        rate_limit: RateLimit {
            schema_version: SchemaVersion(1),
            requests_per_minute: 60,
            tokens_per_minute: 100_000,
        },
        credential_ref: CredentialRef("secret-ref:m3-b".into()),
    }
}

fn spec(
    version: &str,
    minimum_strength: ModelStrengthBand,
    steps: u16,
    verification_passes: u16,
) -> ModelAdaptationSpec {
    ModelAdaptationSpec {
        schema_version: SchemaVersion(1),
        version: StrategyVersionRef(version.into()),
        scope: Scope("workspace:m3-b".into()),
        content_ref: ContentRef(format!("spec:{version}")),
        content_digest: SchemaDigest(format!("digest:{version}")),
        compatibility: StrategyRuntimeCompatibility {
            schema_version: SchemaVersion(1),
            minimum_runtime_schema: SchemaVersion(1),
            event_schema: SchemaVersion(1),
            model_profile: None,
            tool_schema: None,
            backend_schema: None,
        },
        predicate: ModelCapabilityPredicate {
            schema_version: SchemaVersion(1),
            minimum_context_window: 8_192,
            requires_tool_use: true,
            minimum_strength,
        },
        scaffold: ModelScaffoldProfile {
            schema_version: SchemaVersion(1),
            externalized_steps: steps,
            verification_passes,
            checkpoint_cadence_steps: 1,
        },
    }
}

fn evidence(profile: &ModelProfile, measured: ModelStrengthBand) -> ModelOutcomeEvidence {
    ModelOutcomeEvidence {
        schema_version: SchemaVersion(1),
        profile: profile.profile_ref(),
        measured_strength: measured,
        verified_outcomes: 5,
        failures: 0,
        evidence_refs: vec![EvidenceRef("evidence:model:m3-b".into())],
    }
}

#[test]
fn s61_weak_and_strong_profiles_change_scaffolding_but_not_governance() {
    let weak = profile(ModelStrength::Basic);
    let strong = profile(ModelStrength::Strong);
    let weak_plan = adapt_model_scaffold(
        &spec("adaptation:weak:v1", ModelStrengthBand::Basic, 4, 3),
        &weak,
        &evidence(&weak, ModelStrengthBand::Basic),
        true,
    )
    .unwrap();
    let strong_plan = adapt_model_scaffold(
        &spec("adaptation:strong:v1", ModelStrengthBand::Strong, 1, 1),
        &strong,
        &evidence(&strong, ModelStrengthBand::Strong),
        true,
    )
    .unwrap();
    assert!(weak_plan.scaffold.externalized_steps > strong_plan.scaffold.externalized_steps);
    assert!(weak_plan.scaffold.verification_passes > strong_plan.scaffold.verification_passes);
    for plan in [weak_plan, strong_plan] {
        assert!(plan.verification_required);
        assert!(plan.high_impact_trace_required);
        assert!(plan.high_impact_approval_required);
    }
}

#[test]
fn s61_provider_strength_cannot_replace_measured_outcome_evidence() {
    let strong = profile(ModelStrength::Strong);
    let strong_spec = spec("adaptation:strong:v1", ModelStrengthBand::Strong, 1, 1);
    let measured_basic = evidence(&strong, ModelStrengthBand::Basic);
    assert!(adapt_model_scaffold(&strong_spec, &strong, &measured_basic, true).is_err());
    let mut missing = evidence(&strong, ModelStrengthBand::Strong);
    missing.verified_outcomes = 0;
    assert!(adapt_model_scaffold(&strong_spec, &strong, &missing, true).is_err());
}

#[test]
fn s61_model_adaptation_registry_rejects_same_version_different_digest() {
    let seed = spec("adaptation:seed:v1", ModelStrengthBand::Basic, 4, 2);
    let mut registry = InMemoryModelAdaptationRegistry::with_seed(seed.clone()).unwrap();
    assert_eq!(registry.resolve(&seed.version).unwrap(), seed);
    let mut rebound = seed.clone();
    rebound.content_digest = SchemaDigest("digest:rebound".into());
    assert!(registry.register(rebound).is_err());
}

#[test]
fn the_plan_records_the_effective_strength_and_the_cited_evidence() {
    let standard = profile(ModelStrength::Standard);
    let plan = adapt_model_scaffold(
        &spec("adaptation:standard:v1", ModelStrengthBand::Basic, 3, 2),
        &standard,
        &evidence(&standard, ModelStrengthBand::Strong),
        false,
    )
    .unwrap();
    assert_eq!(plan.schema_version, SchemaVersion(1));
    assert_eq!(plan.strategy, StrategyVersionRef("adaptation:standard:v1".into()));
    assert_eq!(plan.effective_strength, ModelStrengthBand::Standard);
    assert_eq!(plan.scaffold.externalized_steps, 3);
    assert!(plan.verification_required);
    assert!(!plan.high_impact_trace_required);
    assert!(!plan.high_impact_approval_required);
    assert_eq!(plan.evidence_refs, vec![EvidenceRef("evidence:model:m3-b".into())]);
}

#[test]
fn adaptation_refuses_foreign_evidence_pinned_models_and_unmet_predicates() {
    let strong = profile(ModelStrength::Strong);
    let base = spec("adaptation:strong:v1", ModelStrengthBand::Basic, 1, 1);
    let mut foreign = evidence(&strong, ModelStrengthBand::Strong);
    foreign.profile = ModelProfileRef("provider:other:model".into());
    assert!(adapt_model_scaffold(&base, &strong, &foreign, true).is_err());
    let mut blank_ref = evidence(&strong, ModelStrengthBand::Strong);
    blank_ref.evidence_refs = vec![EvidenceRef(" ".into())];
    assert!(adapt_model_scaffold(&base, &strong, &blank_ref, true).is_err());
    let mut pinned = base.clone();
    pinned.compatibility.model_profile = Some(ModelProfileRef("provider:other:model".into()));
    assert!(adapt_model_scaffold(&pinned, &strong, &evidence(&strong, ModelStrengthBand::Strong), true).is_err());
    let mut own_pin = base.clone();
    own_pin.compatibility.model_profile = Some(strong.profile_ref());
    assert!(adapt_model_scaffold(&own_pin, &strong, &evidence(&strong, ModelStrengthBand::Strong), true).is_ok());
    let mut wide = base.clone();
    wide.predicate.minimum_context_window = 64_000;
    assert!(adapt_model_scaffold(&wide, &strong, &evidence(&strong, ModelStrengthBand::Strong), true).is_err());
    let mut invalid = base.clone();
    invalid.scaffold.externalized_steps = 17;
    assert!(adapt_model_scaffold(&invalid, &strong, &evidence(&strong, ModelStrengthBand::Strong), true).is_err());
}

#[test]
fn registry_binds_new_versions_and_accepts_the_same_content_again() {
    let seed = spec("adaptation:seed:v1", ModelStrengthBand::Basic, 4, 2);
    let mut registry = InMemoryModelAdaptationRegistry::with_seed(seed.clone()).unwrap();
    assert_eq!(registry.seed_version(), &seed.version);
    assert!(registry.register(seed.clone()).is_ok());
    let next = spec("adaptation:next:v1", ModelStrengthBand::Standard, 2, 1);
    assert!(registry.register(next.clone()).is_ok());
    assert_eq!(registry.resolve(&next.version).unwrap(), next);
    assert_eq!(registry.resolve(&seed.version).unwrap(), seed);
    let missing = registry.resolve(&StrategyVersionRef("adaptation:missing".into()));
    assert_eq!(
        missing.unwrap_err().0,
        "unsupported model adaptation version adaptation:missing".to_string()
    );
    let mut invalid = spec("adaptation:bad:v1", ModelStrengthBand::Basic, 1, 1);
    invalid.scaffold.verification_passes = 0;
    assert!(registry.register(invalid).is_err());
    assert!(InMemoryModelAdaptationRegistry::with_seed(spec("adaptation:bad", ModelStrengthBand::Basic, 0, 1)).is_err());
}
