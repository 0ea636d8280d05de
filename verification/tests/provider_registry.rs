use forme::json::JsonValue;
use forme::models::{
    ChatCompletionsProvider, Cost, ModelCapability, ModelProfile, ModelStrength, RateLimit,
    SecretString, Url,
};
use forme::primitives::{
    ActionType, Actor, ApprovalRule, AutonomyEnvelope, Budget, CapabilityRef, CapabilitySet,
    CredentialRef, DurationMs, PermissionRef, ProviderId, Risk, RollbackReq, SchemaVersion, Scope,
    SessionId, Timebox, ToolsetRef, TrustTier,
};
use forme::provider::{ExternalProvider, ProviderLifecycle, ResolveContext};
use forme::registry::{InMemoryProviderRegistry, ProviderConfig};

fn provider(id: &str) -> ChatCompletionsProvider {
    let profile = ModelProfile {
        schema_version: SchemaVersion(1),
        provider: ProviderId(id.into()),
        model: "model-a".into(),
        base_url: Url::parse("https://models.invalid/v1").unwrap(),
        capability: ModelCapability {
            schema_version: SchemaVersion(1),
            context_window: 16_384,
            tool_use: true,
            strength: ModelStrength::Standard,
        },
        cost: Cost {
            schema_version: SchemaVersion(1),
            input_microunits_per_million: 10,
            output_microunits_per_million: 20,
        },
        rate_limit: RateLimit {
            schema_version: SchemaVersion(1),
            requests_per_minute: 60,
            tokens_per_minute: 100_000,
        },
        credential_ref: CredentialRef("secret:model".into()),
    };
    ChatCompletionsProvider::new(
        profile,
        SecretString::new("test-only-secret".into()).unwrap(),
        DurationMs(1_000),
    )
    .unwrap()
}

fn configured() -> ProviderConfig {
    ProviderConfig {
        schema_version: SchemaVersion(1),
        credential_ref: Some(CredentialRef("secret:model".into())),
        endpoint: None,
        manifest: None,
    }
}

fn capability(id: &str) -> String {
    format!("model:{id}:model-a")
}

fn envelope(capabilities: &[String]) -> AutonomyEnvelope {
    AutonomyEnvelope {
        schema_version: SchemaVersion(1),
        scope: Scope("workspace:alpha".into()),
        capability: CapabilitySet {
            schema_version: SchemaVersion(1),
            capabilities: capabilities.iter().map(|c| CapabilityRef(c.clone())).collect(),
            permissions: Vec::<PermissionRef>::new(),
        },
        action_type: vec![ActionType::Observe],
        risk_limit: Risk::Low,
        approval_rule: ApprovalRule::Ask,
        budget: Budget("units:4".into()),
        timebox: Timebox { schema_version: SchemaVersion(1), starts_at: 10, expires_at: 100, max_turns: 4 },
        rollback: RollbackReq { schema_version: SchemaVersion(1), required: false, boundary: None },
    }
}

fn context(allowed: &[&str]) -> ResolveContext {
    ResolveContext {
        schema_version: SchemaVersion(1),
        session: SessionId("session:alpha".into()),
        toolset: ToolsetRef("toolset:alpha".into()),
        envelope: envelope(&[capability("model:a"), capability("model:b")]),
        policy_allowed_providers: allowed.iter().map(|p| ProviderId((*p).into())).collect(),
        policy_allowed_capabilities: Vec::new(),
    }
}

#[test]
fn discovered_providers_must_be_configured_enabled_and_trusted_before_a_grant() {
    let mut registry =
        InMemoryProviderRegistry::with_discovered(vec![provider("model:b"), provider("model:a")])
            .unwrap();
    let ids = registry.discover().iter().map(|p| p.id().0).collect::<Vec<_>>();
    assert_eq!(ids, vec!["model:a".to_string(), "model:b".to_string()]);
    let id = ProviderId("model:a".into());
    assert!(registry.grant(id.clone(), envelope(&[capability("model:a")])).is_err());
    assert!(registry.bind_trust(id.clone(), TrustTier::VerifiedProcess, Actor::Owner).is_err());
    assert!(registry.register(provider("model:a"), ProviderConfig::default()).is_err());
    assert_eq!(registry.register(provider("model:a"), configured()).unwrap(), id);
    assert!(registry.register(provider("model:a"), configured()).is_err());
    assert!(registry.register(provider("model:z"), configured()).is_err());
    registry.set_enabled(id.clone(), true).unwrap();
    assert!(registry.bind_trust(id.clone(), TrustTier::Untrusted, Actor::Owner).is_err());
    registry.bind_trust(id.clone(), TrustTier::VerifiedProcess, Actor::Owner).unwrap();
    assert!(registry.grant(id.clone(), envelope(&[capability("model:b")])).is_err());
    registry.grant(id.clone(), envelope(&[capability("model:a")])).unwrap();
    let record = registry.record(&id).unwrap();
    assert_eq!(record.state, ProviderLifecycle::Trusted(TrustTier::VerifiedProcess));
    assert_eq!(record.trust_bound_by, Some(Actor::Owner));
    assert!(record.grant.is_some());
    let moves = registry.take_transitions();
    assert_eq!(moves.len(), 5);
    assert_eq!(moves[0].provider_id, ProviderId("model:b".into()));
    assert_eq!(moves[2].from, Some(ProviderLifecycle::Discovered));
    assert_eq!(moves[2].to, ProviderLifecycle::Configured);
    assert_eq!(moves[4].by, Some(Actor::Owner));
    assert!(registry.take_transitions().is_empty());
}

#[test]
fn only_trusted_granted_and_allowed_providers_resolve() {
    let mut registry =
        InMemoryProviderRegistry::with_discovered(vec![provider("model:a"), provider("model:b")])
            .unwrap();
    for id in ["model:a", "model:b"] {
        registry.register(provider(id), configured()).unwrap();
        registry.set_enabled(ProviderId(id.into()), true).unwrap();
    }
    let a = ProviderId("model:a".into());
    registry.bind_trust(a.clone(), TrustTier::ApprovedSource, Actor::Owner).unwrap();
    registry.grant(a.clone(), envelope(&[capability("model:a")])).unwrap();
    let resolved = registry.resolve(&context(&["model:a", "model:b"]));
    assert_eq!(resolved.len(), 1);
    assert_eq!(resolved[0].provider.id(), a);
    assert!(registry.resolve(&context(&["model:b"])).is_empty());
    registry.set_enabled(a.clone(), false).unwrap();
    let record = registry.record(&a).unwrap();
    assert_eq!(record.state, ProviderLifecycle::Disabled);
    assert!(record.grant.is_none());
    assert!(record.trust_bound_by.is_none());
    assert!(registry.resolve(&context(&["model:a"])).is_empty());
    assert!(registry.set_enabled(a.clone(), false).is_err());
    registry.set_enabled(a.clone(), true).unwrap();
    assert!(registry.set_enabled(ProviderId("model:z".into()), true).is_err());
}

#[test]
fn discovery_refuses_duplicates_and_configuration_needs_a_source() {
    assert!(InMemoryProviderRegistry::with_discovered(vec![provider("model:a"), provider("model:a")])
        .is_err());
    let manifest_only = ProviderConfig {
        schema_version: SchemaVersion(1),
        credential_ref: None,
        endpoint: Some("  ".into()),
        manifest: Some(JsonValue::Null),
    };
    assert!(manifest_only.is_configured());
    assert!(!ProviderConfig { manifest: None, ..manifest_only }.is_configured());
    let endpoint = ProviderConfig {
        schema_version: SchemaVersion(1),
        credential_ref: None,
        endpoint: Some("https://mcp.invalid".into()),
        manifest: None,
    };
    assert!(endpoint.is_configured());
    let empty: InMemoryProviderRegistry<ChatCompletionsProvider> = InMemoryProviderRegistry::default();
    assert!(empty.discover().is_empty());
}
