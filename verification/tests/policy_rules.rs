use forme::action::{ActionIntent, ActionParameters};
use forme::policy::{
    ensure_app_api_endpoint, execution_recheck, normalized_origins, normalized_path, parse_url,
    path_within, safe_header_component, valid_environment_name, ActionMatcher, ArgMatcher,
    DefaultPolicyEngine, DelegationGrant, DelegationSubject, EffectivePolicy, EnvelopeDecision,
    ExternalPolicyLimits, PolicyContext, PolicyEngine, PolicyLayer, PolicyLayerSource, PolicyRule,
    UrlHost,
};
use forme::primitives::{
    ActionId, ActionType, Actor, ApprovalRule, AutonomyEnvelope, BackendKind, Budget,
    CapabilityRef, CapabilitySet, ContentRef, DurationMs, EventId, ExpectedEffect, GoalRef,
    McpServerRef, ParticipantId, PermissionRef, PolicyDecision, Risk, RollbackBoundary,
    RollbackReq, RunId, SchemaVersion, Scope, SessionId, Source, SurfaceRef, Timebox, ToolRef,
    ToolsetRef,
};

fn rule_layer(source: PolicyLayerSource, effect: PolicyDecision) -> PolicyLayer {
    PolicyLayer {
        schema_version: SchemaVersion(1),
        source,
        rules: vec![PolicyRule {
            schema_version: SchemaVersion(1),
            matcher: ActionMatcher::default(),
            effect,
            scope: Scope("workspace:alpha".into()),
        }],
    }
}

fn base_context(policy: EffectivePolicy) -> PolicyContext {
    PolicyContext {
        schema_version: SchemaVersion(1),
        session: SessionId("session-1".into()),
        toolset: ToolsetRef("toolset-1".into()),
        policy,
        visible_capabilities: vec![CapabilityRef("tool:shell".into())],
        granted_permissions: vec![PermissionRef("execute".into())],
        allowed_scopes: vec![Scope("workspace:alpha".into())],
        shell_allowlist: vec!["git".into()],
        file_roots: vec!["C:/workspace/alpha".into()],
        mcp_allowlist: vec!["server:docs/search".into()],
        external: ExternalPolicyLimits::default(),
        network_allowed: false,
        sandbox_available: true,
        delegation: None,
        envelope: None,
    }
}

fn intent_with(capability: &str, backend: BackendKind, parameters: ActionParameters) -> ActionIntent {
    ActionIntent {
        schema_version: SchemaVersion(1),
        intent_id: ActionId("intent".into()),
        source: Source::UserTurn,
        goal: GoalRef("goal".into()),
        backend_hint: backend,
        capability_ref: CapabilityRef(capability.into()),
        action_type: ActionType::Execute,
        scope: Scope("workspace:alpha/project".into()),
        risk_hint: Risk::Low,
        expected_effect: ExpectedEffect::Internal,
        rollback_expectation: RollbackBoundary("none".into()),
        parameters,
        requested_permissions: vec![PermissionRef("execute".into())],
        requested_at: 10,
        estimated_output_bytes: 512,
        estimated_duration: DurationMs(100),
    }
}

fn shell(program: &str) -> ActionIntent {
    intent_with(
        "tool:shell",
        BackendKind::Shell,
        ActionParameters::Shell {
            program: program.into(),
            args: vec!["status".into(), "--short".into()],
            cwd: None,
            network: false,
        },
    )
}

fn envelope(rule: ApprovalRule) -> AutonomyEnvelope {
    AutonomyEnvelope {
        schema_version: SchemaVersion(1),
        scope: Scope("workspace:alpha".into()),
        capability: CapabilitySet {
            schema_version: SchemaVersion(1),
            capabilities: vec![CapabilityRef("tool:shell".into())],
            permissions: vec![PermissionRef("execute".into())],
        },
        action_type: vec![ActionType::Execute],
        risk_limit: Risk::Low,
        approval_rule: rule,
        budget: Budget("bounded".into()),
        timebox: Timebox {
            schema_version: SchemaVersion(1),
            starts_at: 0,
            expires_at: 100,
            max_turns: 1,
        },
        rollback: RollbackReq { schema_version: SchemaVersion(1), required: false, boundary: None },
    }
}

#[test]
fn merge_orders_layers_by_source_and_keeps_each_source_in_order() {
    let engine = DefaultPolicyEngine;
    let mut first_hook = rule_layer(PolicyLayerSource::Hook, PolicyDecision::Allow);
    first_hook.schema_version = SchemaVersion(7);
    let effective = engine.merge(&[
        first_hook,
        rule_layer(PolicyLayerSource::Final, PolicyDecision::Allow),
        rule_layer(PolicyLayerSource::Managed, PolicyDecision::Deny),
        rule_layer(PolicyLayerSource::Hook, PolicyDecision::Ask),
        rule_layer(PolicyLayerSource::User, PolicyDecision::Ask),
    ]);
    let sources: Vec<PolicyLayerSource> = effective.layers().iter().map(|l| l.source).collect();
    assert_eq!(
        sources,
        vec![
            PolicyLayerSource::Managed,
            PolicyLayerSource::User,
            PolicyLayerSource::Hook,
            PolicyLayerSource::Hook,
            PolicyLayerSource::Final,
        ]
    );
    assert_eq!(effective.layers()[2].schema_version, SchemaVersion(7));
    assert_eq!(effective.layers()[3].rules[0].effect, PolicyDecision::Ask);
    assert_eq!(effective.schema_version, SchemaVersion(1));
}

#[test]
fn the_strictest_applicable_rule_wins_and_names_its_layer() {
    let engine = DefaultPolicyEngine;
    let context = base_context(engine.merge(&[
        rule_layer(PolicyLayerSource::Session, PolicyDecision::Ask),
        rule_layer(PolicyLayerSource::Final, PolicyDecision::Allow),
        rule_layer(PolicyLayerSource::Agent, PolicyDecision::Ask),
    ]));
    let evaluation = engine.evaluate_detailed(&context, &shell("git"));
    assert_eq!(evaluation.decision, PolicyDecision::Ask);
    assert_eq!(evaluation.rule_source.0, "agent");
    assert_eq!(evaluation.reason.0, "matched the effective policy");

    let mut narrow = rule_layer(PolicyLayerSource::Managed, PolicyDecision::Deny);
    narrow.rules[0].scope = Scope("workspace:beta".into());
    narrow.rules[0].matcher.parameters = ArgMatcher::ShellArgsPrefix(vec!["status".into()]);
    let context = base_context(engine.merge(&[narrow]));
    let evaluation = engine.evaluate_detailed(&context, &shell("git"));
    assert_eq!(evaluation.decision, PolicyDecision::Deny);
    assert_eq!(evaluation.rule_source.0, "final");
    assert_eq!(evaluation.reason.0, "no effective policy rule matched the action");
}

#[test]
fn argument_matchers_follow_the_action_parameters() {
    let intent = shell("git");
    assert!(ArgMatcher::ShellArgsPrefix(vec!["status".into()]).matches(&intent));
    assert!(!ArgMatcher::ShellArgsPrefix(vec!["--short".into()]).matches(&intent));
    assert!(ArgMatcher::ShellProgram("git".into()).matches(&intent));
    assert!(!ArgMatcher::FilePathPrefix("C:/".into()).matches(&intent));
    let mcp = intent_with(
        "tool:mcp",
        BackendKind::Mcp,
        ActionParameters::Mcp {
            server: McpServerRef("server:docs".into()),
            tool: ToolRef("search".into()),
            arguments: forme::action::JsonText("{}".into()),
            schema_digest: None,
            transport: forme::primitives::McpTransport::Stdio,
            stdio: forme::primitives::McpStdioSpec {
                schema_version: SchemaVersion(1),
                command: "docs".into(),
                args: Vec::new(),
                env: Vec::new(),
            },
            timeout: DurationMs(100),
        },
    );
    assert!(ArgMatcher::McpTarget {
        server: McpServerRef("server:docs".into()),
        tool: ToolRef("search".into())
    }
    .matches(&mcp));
    let context = PolicyContext {
        visible_capabilities: vec![CapabilityRef("tool:mcp".into())],
        ..base_context(DefaultPolicyEngine.merge(&[]))
    };
    assert_eq!(execution_recheck(&context, &mcp), None);
    let context = PolicyContext { mcp_allowlist: vec!["server:docs/other".into()], ..context };
    assert_eq!(execution_recheck(&context, &mcp), Some("MCP target is not allowlisted"));
}

#[test]
fn the_recheck_names_each_refusal() {
    let engine = DefaultPolicyEngine;
    let context = base_context(engine.merge(&[]));
    assert_eq!(execution_recheck(&context, &shell("git")), None);
    assert_eq!(
        execution_recheck(&context, &shell("rm")),
        Some("shell program is not allowlisted")
    );
    let mut hidden = shell("git");
    hidden.capability_ref = CapabilityRef("tool:other".into());
    assert_eq!(
        execution_recheck(&context, &hidden),
        Some("capability is not present in the resolved toolset")
    );
    let mut outside = shell("git");
    outside.scope = Scope("workspace:alphabet".into());
    assert_eq!(
        execution_recheck(&context, &outside),
        Some("action scope is not currently permitted")
    );
    let mut mismatched = shell("git");
    mismatched.backend_hint = BackendKind::File;
    assert_eq!(
        execution_recheck(&context, &mismatched),
        Some("backend and normalized action parameters disagree")
    );
    let notification = intent_with(
        "tool:shell",
        BackendKind::Notification,
        ActionParameters::Notification {
            surface: SurfaceRef("surface:local:tray".into()),
            target: ParticipantId("owner".into()),
            title: "Done".into(),
            body_ref: ContentRef("content:1".into()),
        },
    );
    assert_eq!(
        execution_recheck(&context, &notification),
        Some("local notification target or delivery parameters are invalid")
    );
    let deliver = ActionIntent {
        action_type: ActionType::Deliver,
        expected_effect: ExpectedEffect::Outward,
        ..notification
    };
    assert_eq!(execution_recheck(&context, &deliver), None);
    let refused = engine.evaluate_detailed(&context, &shell("rm"));
    assert_eq!(refused.decision, PolicyDecision::Deny);
    assert_eq!(refused.rule_source.0, "execution-recheck");
    assert_eq!(refused.reason.0, "shell program is not allowlisted");
}

#[test]
fn delegation_needs_both_envelopes_and_obeys_them() {
    let engine = DefaultPolicyEngine;
    let policy = engine.merge(&[rule_layer(PolicyLayerSource::User, PolicyDecision::Allow)]);
    let grant = DelegationGrant {
        schema_version: SchemaVersion(1),
        subject: DelegationSubject::Subagent(RunId("child".into())),
        envelope: envelope(ApprovalRule::Allow),
        granted_by: Actor::Owner,
        audit_ref: EventId("grant".into()),
    };
    let alone = PolicyContext { delegation: Some(grant.clone()), ..base_context(policy.clone()) };
    let evaluation = engine.evaluate_detailed(&alone, &shell("git"));
    assert_eq!(evaluation.decision, PolicyDecision::Deny);
    assert_eq!(evaluation.rule_source.0, "delegation-envelope");

    let within = PolicyContext {
        delegation: Some(grant.clone()),
        envelope: Some(envelope(ApprovalRule::Allow)),
        ..base_context(policy.clone())
    };
    assert_eq!(engine.evaluate(&within, &shell("git")), PolicyDecision::Allow);

    let asking = PolicyContext {
        delegation: Some(grant.clone()),
        envelope: Some(envelope(ApprovalRule::Ask)),
        ..base_context(policy.clone())
    };
    assert_eq!(engine.evaluate(&asking, &shell("git")), PolicyDecision::Ask);

    assert_eq!(
        engine.enforce_envelope(&grant, &envelope(ApprovalRule::Deny), &shell("git")),
        EnvelopeDecision::OutOfScope
    );
    let mut risky = shell("git");
    risky.risk_hint = Risk::High;
    assert_eq!(
        engine.enforce_envelope(&grant, &envelope(ApprovalRule::Allow), &risky),
        EnvelopeDecision::OutOfScope
    );
}

#[test]
fn paths_are_normalized_before_they_are_compared() {
    assert_eq!(
        normalized_path("C:\\Workspace\\Alpha\\..\\Beta\\.\\x"),
        Some("c:/workspace/beta/x".to_string())
    );
    assert_eq!(normalized_path("/a//b/../c/"), Some("/a/c".to_string()));
    assert_eq!(normalized_path("C:/.."), None);
    assert_eq!(normalized_path("/.."), None);
    assert_eq!(normalized_path("."), None);
    assert!(path_within("C:/workspace/alpha", "c:\\WORKSPACE\\alpha\\notes.txt"));
    assert!(path_within("C:/workspace/alpha", "C:/workspace/alpha"));
    assert!(!path_within("C:/workspace/alpha", "C:/workspace/alphabet"));
    assert!(!path_within("C:/workspace/alpha", "C:/workspace/alpha/../beta"));
}

#[test]
fn header_components_and_environment_names_are_bounded() {
    assert!(safe_header_component("external:person-a/1.0_x"));
    assert!(!safe_header_component(""));
    assert!(!safe_header_component("message-1\r\nforged: true"));
    assert!(!safe_header_component(&"a".repeat(257)));
    assert!(safe_header_component(&"a".repeat(256)));
    assert!(valid_environment_name("_API_TOKEN2"));
    assert!(!valid_environment_name("2TOKEN"));
    assert!(!valid_environment_name("BAD-NAME"));
    assert!(!valid_environment_name(""));
    assert!(!valid_environment_name(&"A".repeat(129)));
}

#[test]
fn urls_are_read_through_the_parser() {
    let parsed = parse_url("HTTP://Example.COM:80/a?b#c").expect("parses");
    assert_eq!(parsed.parts.scheme, "http");
    assert_eq!(parsed.parts.port, Some(80));
    assert_eq!(parsed.parts.path, "/a");
    assert_eq!(parsed.parts.query.as_deref(), Some("b"));
    assert_eq!(parsed.parts.fragment.as_deref(), Some("c"));
    assert_eq!(parsed.parts.origin, "http://example.com");
    assert_eq!(parsed.host, Some(UrlHost::Domain("example.com".into())));
    let loopback = parse_url("http://127.0.0.1:8080/").expect("parses");
    assert_eq!(loopback.host, Some(UrlHost::Ipv4(vec![127, 0, 0, 1])));
    assert!(parse_url("not a url").is_none());

    assert_eq!(
        normalized_origins(&vec!["HTTPS://Example.COM:443/".into()]).unwrap(),
        vec!["https://example.com".to_string()]
    );
    assert!(normalized_origins(&vec!["https://example.com/path".into()]).is_err());
    assert!(normalized_origins(&vec!["https://user@example.com/".into()]).is_err());
}

#[test]
fn app_api_endpoints_stay_under_a_safe_base() {
    assert!(ensure_app_api_endpoint("https://api.example/v1/", "https://api.example/v1/items").is_ok());
    assert!(ensure_app_api_endpoint("https://api.example/v1/", "https://api.example/v2/items").is_err());
    assert!(ensure_app_api_endpoint("https://api.example/v1", "https://api.example/v1/items").is_err());
    assert!(ensure_app_api_endpoint("https://api.example/v1/", "https://other.example/v1/x").is_err());
    assert!(ensure_app_api_endpoint("http://localhost:9000/api/", "http://localhost:9000/api/x").is_ok());
    assert!(ensure_app_api_endpoint("http://127.0.0.9/api/", "http://127.0.0.9/api/x").is_ok());
    assert!(ensure_app_api_endpoint("http://example.com/api/", "http://example.com/api/x").is_err());
    assert!(ensure_app_api_endpoint("http://[::1]/api/", "http://[::1]/api/x").is_err());
    assert!(ensure_app_api_endpoint("https://api.example/v1/", "https://api.example/v1/x?q=1").is_err());
    assert!(ensure_app_api_endpoint("https://u:p@api.example/v1/", "https://api.example/v1/x").is_err());
    assert!(ensure_app_api_endpoint("::", "https://api.example/v1/x").is_err());
}
