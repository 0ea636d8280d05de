use forme::action::{
    ActionIntent, ActionParameters, BrowserActionSpec, BrowserOperation, ComputerActionSpec,
    ComputerOperation, PtyActionSpec, SecretBinding,
};
use forme::event::EventKind;
use forme::policy::{
    ActionMatcher, ArgMatcher, ComputerSurfaceLimit, DefaultPolicyEngine, DelegationGrant,
    DelegationSubject, EffectivePolicy, EnvelopeDecision, ExternalPolicyLimits, PolicyContext,
    PolicyEngine, PolicyLayer, PolicyLayerSource, PolicyRule,
};
use forme::primitives::{
    ActionId, ActionType, Actor, ApprovalRule, AutonomyEnvelope, BackendKind, Budget,
    CapabilityRef, CapabilitySet, CoordinateBounds, CredentialRef, DurationMs, EventId,
    ExpectedEffect, FileOperation, GoalRef, PermissionRef, PointerButton, PolicyDecision,
    ProviderId, Risk, RollbackBoundary, RollbackReq, RunId, SchemaVersion, Scope, SessionId,
    Source, SurfaceRef, Timebox, ToolsetRef,
};

#[test]
fn merge_is_ordered_and_later_layers_cannot_relax_a_deny_or_ask() {
    let engine = DefaultPolicyEngine;
    let effective = engine.merge(&[
        layer(PolicyLayerSource::Hook, PolicyDecision::Allow),
        layer(PolicyLayerSource::Managed, PolicyDecision::Deny),
        layer(PolicyLayerSource::Final, PolicyDecision::Allow),
    ]);
    let context = context(effective);

    assert_eq!(
        engine.evaluate(&context, &shell_intent("git", false)),
        PolicyDecision::Deny
    );

    let effective = engine.merge(&[
        layer(PolicyLayerSource::Final, PolicyDecision::Allow),
        layer(PolicyLayerSource::User, PolicyDecision::Ask),
    ]);
    assert_eq!(
        engine.evaluate(
            &context_with_policy(&context, effective),
            &shell_intent("git", false)
        ),
        PolicyDecision::Ask
    );
}

#[test]
fn execution_time_recheck_denies_invisible_or_unsafe_parameters_before_rules() {
    let engine = DefaultPolicyEngine;
    let effective = engine.merge(&[layer(PolicyLayerSource::Managed, PolicyDecision::Allow)]);
    let mut policy_context = context(effective);
    let safe = shell_intent("git", false);
    assert_eq!(engine.evaluate(&policy_context, &safe), PolicyDecision::Allow);

    policy_context.visible_capabilities.clear();
    assert_eq!(engine.evaluate(&policy_context, &safe), PolicyDecision::Deny);

    let mut policy_context = context(policy_context.policy.clone());
    policy_context.sandbox_available = false;
    assert_eq!(engine.evaluate(&policy_context, &safe), PolicyDecision::Deny);

    let policy_context = context(policy_context.policy.clone());
    assert_eq!(
        engine.evaluate(&policy_context, &shell_intent("unknown-command", false)),
        PolicyDecision::Deny
    );
    assert_eq!(
        engine.evaluate(&policy_context, &shell_intent("git", true)),
        PolicyDecision::Deny
    );

    let escaped_file = file_intent("C:/outside/secret.txt");
    assert_eq!(
        engine.evaluate(&policy_context, &escaped_file),
        PolicyDecision::Deny
    );
    let traversed_file = file_intent("C:/workspace/alpha/../outside.txt");
    assert_eq!(
        engine.evaluate(&policy_context, &traversed_file),
        PolicyDecision::Deny
    );
}

#[test]
fn detailed_evaluation_maps_to_the_frozen_policy_event_payload() {
    let engine = DefaultPolicyEngine;
    let effective = engine.merge(&[layer(PolicyLayerSource::Workspace, PolicyDecision::Ask)]);
    let evaluation = engine.evaluate_detailed(&context(effective), &shell_intent("git", false));

    assert_eq!(evaluation.decision, PolicyDecision::Ask);
    let payload = evaluation.event_payload();
    assert_eq!(payload.kind, EventKind::ToolPolicyEvaluated);
    let body: serde_json::Value =
        serde_json::from_slice(&payload.body).expect("policy evaluation must map to ToolPolicyEvaluated");
    assert_eq!(body["decision"], "Ask");
    assert_eq!(body["rule_source"], "workspace");
    assert!(!body["reason"].as_str().unwrap().is_empty());
}

#[test]
fn envelope_enforces_permission_scope_capability_timebox_and_approval() {
    let engine = DefaultPolicyEngine;
    let runtime_envelope = envelope(ApprovalRule::Allow);
    let grant = DelegationGrant {
        schema_version: SchemaVersion(1),
        subject: DelegationSubject::Subagent(RunId("child-run".into())),
        envelope: runtime_envelope.clone(),
        granted_by: Actor::Owner,
        audit_ref: EventId("grant-event".into()),
    };
    let intent = shell_intent("git", false);

    assert_eq!(
        engine.enforce_envelope(&grant, &runtime_envelope, &intent),
        EnvelopeDecision::Within
    );

    let mut missing_permission = runtime_envelope.clone();
    missing_permission.capability.permissions.clear();
    assert_eq!(
        engine.enforce_envelope(&grant, &missing_permission, &intent),
        EnvelopeDecision::OutOfScope
    );

    let mut wrong_capability = shell_intent("git", false);
    wrong_capability.capability_ref = CapabilityRef("tool:delete-all".into());
    assert_eq!(
        engine.enforce_envelope(&grant, &runtime_envelope, &wrong_capability),
        EnvelopeDecision::OutOfScope
    );

    let mut expired = runtime_envelope.clone();
    expired.timebox.expires_at = 9;
    assert_eq!(
        engine.enforce_envelope(&grant, &expired, &intent),
        EnvelopeDecision::OutOfScope
    );

    let approval_envelope = envelope(ApprovalRule::Ask);
    let approval_grant = DelegationGrant {
        envelope: approval_envelope.clone(),
        ..grant
    };
    assert_eq!(
        engine.enforce_envelope(&approval_grant, &approval_envelope, &intent),
        EnvelopeDecision::NeedsApproval
    );
}

#[test]
fn s11_subagent_cannot_escape_its_envelope() {
    let engine = DefaultPolicyEngine;
    let envelope = envelope(ApprovalRule::Allow);
    let grant = DelegationGrant {
        schema_version: SchemaVersion(1),
        subject: DelegationSubject::Subagent(RunId("child-run".into())),
        envelope: envelope.clone(),
        granted_by: Actor::Owner,
        audit_ref: EventId("grant-event".into()),
    };
    let mut intent = shell_intent("git", false);
    intent.scope = Scope("workspace:other".into());

    assert_eq!(
        engine.enforce_envelope(&grant, &envelope, &intent),
        EnvelopeDecision::OutOfScope
    );
}

fn browser_intent(target_url: &str) -> ActionIntent {
    ActionIntent {
        schema_version: SchemaVersion(1),
        intent_id: ActionId("policy:browser".into()),
        source: Source::UserTurn,
        goal: GoalRef("read page".into()),
        backend_hint: BackendKind::Browser,
        capability_ref: CapabilityRef("tool:browser".into()),
        action_type: ActionType::Execute,
        scope: Scope("workspace:alpha".into()),
        risk_hint: Risk::Medium,
        expected_effect: ExpectedEffect::Outward,
        rollback_expectation: RollbackBoundary("none".into()),
        parameters: ActionParameters::Browser(BrowserActionSpec {
            schema_version: SchemaVersion(1),
            driver: ProviderId("driver:browser".into()),
            target_url: target_url.into(),
            allowed_origins: vec!["http://127.0.0.1:34001".into()],
            operation: BrowserOperation::ReadText { selector: None },
            artifact_scope: Scope("workspace:alpha".into()),
        }),
        requested_permissions: vec![PermissionRef("execute".into())],
        requested_at: 10,
        estimated_output_bytes: 512,
        estimated_duration: DurationMs(100),
    }
}

fn surface_bounds() -> CoordinateBounds {
    CoordinateBounds {
        schema_version: SchemaVersion(1),
        min_x: 0,
        min_y: 0,
        max_x_exclusive: 100,
        max_y_exclusive: 100,
    }
}

#[test]
fn s38_s40_external_parameter_recheck_is_fail_closed() {
    let engine = DefaultPolicyEngine;
    let browser = browser_intent("http://127.0.0.1:34001/task");
    let mut allowed =
        context(engine.merge(&[layer(PolicyLayerSource::User, PolicyDecision::Allow)]));
    allowed
        .visible_capabilities
        .push(browser.capability_ref.clone());
    allowed.external.browser_origins = vec!["http://127.0.0.1:34001".into()];
    assert_eq!(engine.evaluate(&allowed, &browser), PolicyDecision::Allow);

    let bad_scheme = browser_intent("javascript:alert(1)");
    assert_eq!(engine.evaluate(&allowed, &bad_scheme), PolicyDecision::Deny);

    let wrong_origin = browser_intent("http://127.0.0.1:34002/task");
    assert_eq!(engine.evaluate(&allowed, &wrong_origin), PolicyDecision::Deny);

    let mut computer = wrong_origin;
    computer.backend_hint = BackendKind::Computer;
    computer.capability_ref = CapabilityRef("tool:computer".into());
    computer.parameters = ActionParameters::Computer(ComputerActionSpec {
        schema_version: SchemaVersion(1),
        driver: ProviderId("driver:computer".into()),
        surface: SurfaceRef("surface:isolated".into()),
        bounds: surface_bounds(),
        operation: ComputerOperation::Click {
            x: 101,
            y: 20,
            button: PointerButton::Primary,
        },
        artifact_scope: Scope("workspace:alpha".into()),
    });
    allowed
        .visible_capabilities
        .push(computer.capability_ref.clone());
    allowed.external.computer_surfaces = vec![ComputerSurfaceLimit {
        schema_version: SchemaVersion(1),
        surface: SurfaceRef("surface:isolated".into()),
        bounds: surface_bounds(),
    }];
    assert_eq!(engine.evaluate(&allowed, &computer), PolicyDecision::Deny);

    let mut pty = computer;
    pty.backend_hint = BackendKind::Pty;
    pty.capability_ref = CapabilityRef("tool:pty".into());
    pty.parameters = ActionParameters::Pty(PtyActionSpec {
        schema_version: SchemaVersion(1),
        program: "C:/fixture/pty.exe".into(),
        args: Vec::new(),
        cwd: "C:/fixture".into(),
        cols: 80,
        rows: 24,
        input: None,
        environment: vec![SecretBinding {
            schema_version: SchemaVersion(1),
            name: "BAD-NAME".into(),
            value: CredentialRef("secret:fixture".into()),
        }],
    });
    allowed
        .visible_capabilities
        .push(pty.capability_ref.clone());
    allowed.external.pty_programs = vec!["C:/fixture/pty.exe".into()];
    allowed.external.pty_roots = vec!["C:/fixture".into()];
    assert_eq!(engine.evaluate(&allowed, &pty), PolicyDecision::Deny);
}

fn layer(source: PolicyLayerSource, effect: PolicyDecision) -> PolicyLayer {
    PolicyLayer {
        schema_version: SchemaVersion(1),
        source,
        rules: vec![PolicyRule {
            schema_version: SchemaVersion(1),
            matcher: ActionMatcher {
                parameters: ArgMatcher::Any,
                ..ActionMatcher::default()
            },
            effect,
            scope: Scope("workspace:alpha".into()),
        }],
    }
}

fn context(policy: EffectivePolicy) -> PolicyContext {
    PolicyContext {
        schema_version: SchemaVersion(1),
        session: SessionId("session-1".into()),
        toolset: ToolsetRef("toolset-1".into()),
        policy,
        visible_capabilities: vec![
            CapabilityRef("tool:shell".into()),
            CapabilityRef("tool:file".into()),
        ],
        granted_permissions: vec![PermissionRef("execute".into())],
        allowed_scopes: vec![Scope("workspace:alpha".into())],
        shell_allowlist: vec!["git".into()],
        file_roots: vec!["C:/workspace/alpha".into()],
        mcp_allowlist: Vec::new(),
        external: ExternalPolicyLimits::default(),
        network_allowed: false,
        sandbox_available: true,
        delegation: None,
        envelope: None,
    }
}

fn context_with_policy(context: &PolicyContext, policy: EffectivePolicy) -> PolicyContext {
    PolicyContext {
        policy,
        ..context.clone()
    }
}

fn shell_intent(program: &str, network: bool) -> ActionIntent {
    ActionIntent {
        schema_version: SchemaVersion(1),
        intent_id: ActionId(format!("intent-{program}")),
        source: Source::UserTurn,
        goal: GoalRef("inspect repository".into()),
        backend_hint: BackendKind::Shell,
        capability_ref: CapabilityRef("tool:shell".into()),
        action_type: ActionType::Execute,
        scope: Scope("workspace:alpha".into()),
        risk_hint: Risk::Low,
        expected_effect: ExpectedEffect::Internal,
        rollback_expectation: RollbackBoundary("none".into()),
        parameters: ActionParameters::Shell {
            program: program.into(),
            args: vec!["status".into()],
            cwd: Some("C:/workspace/alpha".into()),
            network,
        },
        requested_permissions: vec![PermissionRef("execute".into())],
        requested_at: 10,
        estimated_output_bytes: 512,
        estimated_duration: DurationMs(100),
    }
}

fn file_intent(path: &str) -> ActionIntent {
    ActionIntent {
        intent_id: ActionId("intent-file".into()),
        goal: GoalRef("write file".into()),
        backend_hint: BackendKind::File,
        capability_ref: CapabilityRef("tool:file".into()),
        action_type: ActionType::Write,
        parameters: ActionParameters::File {
            operation: FileOperation::Write,
            path: path.into(),
            content: Some(b"content".to_vec()),
        },
        ..shell_intent("git", false)
    }
}

fn envelope(approval_rule: ApprovalRule) -> AutonomyEnvelope {
    AutonomyEnvelope {
        schema_version: SchemaVersion(1),
        scope: Scope("workspace:alpha".into()),
        capability: CapabilitySet {
            schema_version: SchemaVersion(1),
            capabilities: vec![CapabilityRef("tool:shell".into())],
            permissions: vec![PermissionRef("execute".into())],
        },
        action_type: vec![ActionType::Execute],
        risk_limit: Risk::Low,
        approval_rule,
        budget: Budget("m0-bounded".into()),
        timebox: Timebox {
            schema_version: SchemaVersion(1),
            starts_at: 0,
            expires_at: 100,
            max_turns: 3,
        },
        rollback: RollbackReq {
            schema_version: SchemaVersion(1),
            required: false,
            boundary: None,
        },
    }
}
