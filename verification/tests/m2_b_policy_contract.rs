use forme::action::{
    ActionIntent, ActionParameters, AppApiActionSpec, AppApiOperation, ExternalInput,
};
use forme::policy::{
    ActionMatcher, AppApiConnectorLimit, ArgMatcher, DefaultPolicyEngine, ExternalPolicyLimits,
    PolicyContext, PolicyEngine, PolicyLayer, PolicyLayerSource, PolicyRule,
};
use forme::primitives::{
    ActionId, ActionType, AppApiMutationMethod, BackendKind, CapabilityRef, ContentRef,
    CredentialRef, DisclosureRequestRef, DurationMs, ExpectedEffect, GoalRef, IdempotencyKey,
    ParticipantId, PermissionRef, PolicyDecision, ProviderId, Representation, Risk,
    RollbackBoundary, SchemaDigest, SchemaVersion, Scope, SessionId, Source, ToolsetRef,
};

fn intent() -> ActionIntent {
    ActionIntent {
        schema_version: SchemaVersion(1),
        intent_id: ActionId("app-api:policy-test".into()),
        source: Source::Communication,
        goal: GoalRef("send one bounded response".into()),
        backend_hint: BackendKind::AppApi,
        capability_ref: CapabilityRef("connector:loopback:request".into()),
        action_type: ActionType::Deliver,
        scope: Scope("communication:loopback".into()),
        risk_hint: Risk::Medium,
        expected_effect: ExpectedEffect::Outward,
        rollback_expectation: RollbackBoundary("api-mutation-not-retractable".into()),
        parameters: ActionParameters::AppApi(AppApiActionSpec {
            schema_version: SchemaVersion(1),
            connector: ProviderId("connector:loopback".into()),
            endpoint: "http://127.0.0.1:38192/api/messages".into(),
            schema_digest: SchemaDigest("sha256:loopback-v1".into()),
            credential: Some(CredentialRef("secret:loopback".into())),
            operation: AppApiOperation::Mutation {
                method: AppApiMutationMethod::Post,
                body: Some(ExternalInput::Content(ContentRef("content:message-1".into()))),
                idempotency_key: IdempotencyKey("message-1".into()),
            },
            timeout: DurationMs(2_000),
            participant: Some(ParticipantId("external:person-a".into())),
            representation: Some(Representation::Agent),
            disclosure_request: Some(DisclosureRequestRef("disclosure:message-1".into())),
        }),
        requested_permissions: vec![PermissionRef("connector:loopback:use".into())],
        requested_at: 100,
        estimated_output_bytes: 4_096,
        estimated_duration: DurationMs(2_000),
    }
}

fn context() -> PolicyContext {
    let engine = DefaultPolicyEngine;
    let policy = engine.merge(&[PolicyLayer {
        schema_version: SchemaVersion(1),
        source: PolicyLayerSource::User,
        rules: vec![PolicyRule {
            schema_version: SchemaVersion(1),
            matcher: ActionMatcher {
                backend: Some(BackendKind::AppApi),
                capability: None,
                action_type: None,
                parameters: ArgMatcher::Any,
            },
            effect: PolicyDecision::Ask,
            scope: Scope("communication:loopback".into()),
        }],
    }]);
    PolicyContext {
        schema_version: SchemaVersion(1),
        session: SessionId("session:loopback".into()),
        toolset: ToolsetRef("toolset:loopback".into()),
        policy,
        visible_capabilities: vec![CapabilityRef("connector:loopback:request".into())],
        granted_permissions: vec![PermissionRef("connector:loopback:use".into())],
        allowed_scopes: vec![Scope("communication:loopback".into())],
        shell_allowlist: Vec::new(),
        file_roots: Vec::new(),
        mcp_allowlist: Vec::new(),
        external: ExternalPolicyLimits {
            schema_version: SchemaVersion(1),
            browser_origins: Vec::new(),
            computer_surfaces: Vec::new(),
            pty_programs: Vec::new(),
            pty_roots: Vec::new(),
            app_api_connectors: vec![AppApiConnectorLimit {
                schema_version: SchemaVersion(1),
                connector: ProviderId("connector:loopback".into()),
                base_url: "http://127.0.0.1:38192/api/".into(),
                schema_digest: SchemaDigest("sha256:loopback-v1".into()),
                credential_ref: Some(CredentialRef("secret:loopback".into())),
                allowed_mutations: vec![AppApiMutationMethod::Post],
                max_timeout: DurationMs(2_000),
            }],
        },
        network_allowed: true,
        sandbox_available: true,
        delegation: None,
        envelope: None,
    }
}

fn app_api_spec(intent: &mut ActionIntent) -> &mut AppApiActionSpec {
    let ActionParameters::AppApi(spec) = &mut intent.parameters else {
        panic!("wrong parameters");
    };
    spec
}

#[test]
fn s43_app_api_execution_recheck_is_total_and_fails_closed() {
    let engine = DefaultPolicyEngine;
    let valid = intent();
    assert_eq!(
        engine.evaluate_detailed(&context(), &valid).decision,
        PolicyDecision::Ask
    );

    let mut cases = Vec::new();
    let mut schema_drift = intent();
    app_api_spec(&mut schema_drift).schema_digest = SchemaDigest("sha256:changed".into());
    cases.push(schema_drift);

    let mut endpoint_escape = intent();
    app_api_spec(&mut endpoint_escape).endpoint = "http://127.0.0.1:38192/other/messages".into();
    cases.push(endpoint_escape);

    let mut credential_drift = intent();
    app_api_spec(&mut credential_drift).credential = Some(CredentialRef("secret:other".into()));
    cases.push(credential_drift);

    let mut impersonation_gap = intent();
    app_api_spec(&mut impersonation_gap).representation = None;
    cases.push(impersonation_gap);

    let mut disclosure_gap = intent();
    app_api_spec(&mut disclosure_gap).disclosure_request = None;
    cases.push(disclosure_gap);

    let mut unsafe_idempotency = valid;
    let AppApiOperation::Mutation {
        idempotency_key, ..
    } = &mut app_api_spec(&mut unsafe_idempotency).operation
    else {
        panic!("wrong operation");
    };
    *idempotency_key = IdempotencyKey("message-1\r\nforged: true".into());
    cases.push(unsafe_idempotency);

    assert!(cases.into_iter().all(|candidate| {
        engine.evaluate_detailed(&context(), &candidate).decision == PolicyDecision::Deny
    }));
}
