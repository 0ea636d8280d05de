use forme::event::EventKind;
use forme::memory::{
    escape_component, intention_expiry_from_storage, intention_seed_from_storage,
    intention_storage_ref, intention_trigger_from_storage, parse_i64, parse_intention_lease,
    same_intention_definition, secret_ref_like, unescape_component, validate_edge,
    validate_intention, validate_narrow_update, validate_node, validate_user_candidate,
    EvidencePriority, GraphQuery, HotColdProjectionPolicy, IntentionState, IntentionTrigger,
    MemoryEdge, MemoryNode, MemoryScope, NodeKind, EdgeKind, ProspectiveIntention,
    SelectiveRecall, TimeSlice, UserAttributeCandidate, elapsed_at_least, intrinsically_sensitive,
};
use forme::m2_c::{CapabilityGap, CapabilityUpdateProposal};
use forme::primitives::{
    ActionType, ApprovalRule, AutonomyEnvelope, Budget, CapabilityGapRef, CapabilityRef,
    CapabilitySet, CapabilityUpdateProposalRef, InterventionLevel, PermissionRef, Risk,
    RollbackReq, Timebox,
    Actor, CandidateId, Confidence, ContentRef, DurationMs, EdgeId, EvidenceRef, IntentionId,
    IntentionSource, IntentionTriggerRef, MemoryDeltasRef, NodeId, Provenance,
    RestingActivation, SchemaVersion, Scope, SeedRef, Source, StabilityTier, TrustTier,
    UserAttributeRef, UserAttributeValueRef, Weight, WorkspaceRef,
};

fn owner() -> Provenance {
    Provenance { source: Source::UserTurn, actor: Actor::Owner, trust_tier: TrustTier::OwnerInput, caused_by: None }
}

fn intention(trigger: IntentionTrigger, expires_at: Option<i64>) -> ProspectiveIntention {
    ProspectiveIntention {
        schema_version: SchemaVersion(1),
        id: IntentionId("intention:review".into()),
        source: IntentionSource::Commitment,
        trigger,
        state: IntentionState::Pending,
        seed: SeedRef("review | 100% done".into()),
        provenance: owner(),
        expires_at,
    }
}

#[test]
fn components_escape_and_read_back() {
    assert_eq!(escape_component("a|b%c"), "a%7Cb%25c");
    assert_eq!(unescape_component("a%7Cb%25c"), "a|b%c");
    for text in ["", "%7C", "|%|", "%257C", "plain"] {
        assert_eq!(unescape_component(&escape_component(text)), text);
    }
}

#[test]
fn memory_scopes_round_trip_through_event_scopes() {
    let scope = MemoryScope {
        schema_version: SchemaVersion(1),
        slice: TimeSlice::LongTerm,
        workspace: Some(WorkspaceRef("ws|1".into())),
        scope: Scope("project:a|b".into()),
    };
    let text = scope.event_scope();
    assert_eq!(text.0, "memory|long-term|ws%7C1|project:a%7Cb");
    assert_eq!(MemoryScope::from_event_scope(&text), scope);
    let bare = MemoryScope { workspace: None, ..scope.clone() };
    assert_eq!(MemoryScope::from_event_scope(&bare.event_scope()), bare);
    let other = MemoryScope::from_event_scope(&Scope("workspace:alpha".into()));
    assert_eq!(other.slice, TimeSlice::Daily);
    assert_eq!(other.workspace, None);
    assert_eq!(other.scope.0, "workspace:alpha");
    let wrong_slice = MemoryScope::from_event_scope(&Scope("memory|weekly|w|s".into()));
    assert_eq!(wrong_slice.scope.0, "memory|weekly|w|s");
}

#[test]
fn times_parse_as_i64_does() {
    assert_eq!(parse_i64("42"), Some(42));
    assert_eq!(parse_i64("+7"), Some(7));
    assert_eq!(parse_i64("-9223372036854775808"), Some(i64::MIN));
    assert_eq!(parse_i64("9223372036854775807"), Some(i64::MAX));
    assert_eq!(parse_i64("9223372036854775808"), None);
    assert_eq!(parse_i64("-9223372036854775809"), None);
    assert_eq!(parse_i64("99999999999999999999999"), None);
    assert_eq!(parse_i64(""), None);
    assert_eq!(parse_i64("-"), None);
    assert_eq!(parse_i64("1a"), None);
    assert_eq!(parse_i64(" 1"), None);
}

#[test]
fn triggers_are_written_and_read_back() {
    let at = IntentionTrigger::At(-15);
    assert_eq!(at.as_ref().0, "at:-15");
    assert_eq!(IntentionTrigger::from_ref(&at.as_ref()), at);
    let event = IntentionTrigger::OnEvent(EventKind::RunAccepted);
    assert_eq!(event.as_ref().0, "event:RunAccepted");
    assert_eq!(IntentionTrigger::from_ref(&event.as_ref()), event);
    let condition = IntentionTrigger::OnCondition(IntentionTriggerRef("at:soon".into()));
    assert_eq!(condition.as_ref().0, "condition:at:soon");
    assert_eq!(IntentionTrigger::from_ref(&condition.as_ref()), condition);
    assert_eq!(
        IntentionTrigger::from_ref(&IntentionTriggerRef("event:NoSuchKind".into())),
        IntentionTrigger::OnCondition(IntentionTriggerRef("event:NoSuchKind".into()))
    );
}

#[test]
fn stored_intentions_read_back_their_trigger_seed_and_expiry() {
    let stored = intention(IntentionTrigger::At(100), Some(200));
    let text = intention_storage_ref(&stored);
    assert_eq!(text.0, "at:100|seed=review %7C 100%25 done|expires=200");
    assert_eq!(intention_trigger_from_storage(&text), IntentionTrigger::At(100));
    assert_eq!(intention_seed_from_storage(&text).0, "review | 100% done");
    assert_eq!(intention_expiry_from_storage(&text), Some(200));
    let open = intention_storage_ref(&intention(IntentionTrigger::OnEvent(EventKind::RunComplete), None));
    assert_eq!(intention_expiry_from_storage(&open), None);
    let legacy = IntentionTriggerRef("at:5".into());
    assert_eq!(intention_seed_from_storage(&legacy).0, "recovered-from-legacy-event");
    assert_eq!(intention_trigger_from_storage(&legacy), IntentionTrigger::At(5));
}

#[test]
fn lease_markers_parse_in_both_forms() {
    assert_eq!(
        parse_intention_lease(&MemoryDeltasRef("intention-lease|3|150|intention%7Ca".into())),
        Some((IntentionId("intention|a".into()), 150))
    );
    assert_eq!(parse_intention_lease(&MemoryDeltasRef("intention-lease|3|150".into())), None);
    assert_eq!(parse_intention_lease(&MemoryDeltasRef("intention-lease|3|x|id".into())), None);
    assert_eq!(parse_intention_lease(&MemoryDeltasRef("intention-lease|3|1|id|more".into())), None);
    assert_eq!(
        parse_intention_lease(&MemoryDeltasRef("intention-lease:-20:intention:b".into())),
        Some((IntentionId("intention:b".into()), -20))
    );
    assert_eq!(parse_intention_lease(&MemoryDeltasRef("lease:1:x".into())), None);
}

#[test]
fn intentions_are_validated_and_compared_by_definition() {
    assert!(validate_intention(&intention(IntentionTrigger::At(100), Some(200))).is_ok());
    assert!(validate_intention(&intention(IntentionTrigger::At(100), Some(100))).is_err());
    let mut fired = intention(IntentionTrigger::At(1), None);
    fired.state = IntentionState::Fired;
    assert!(validate_intention(&fired).is_err());
    assert!(same_intention_definition(&fired, &intention(IntentionTrigger::At(1), None)));
    assert!(!same_intention_definition(&fired, &intention(IntentionTrigger::At(2), None)));
}

fn node(tier: StabilityTier, trust: TrustTier, confidence_bits: u32) -> MemoryNode {
    MemoryNode {
        schema_version: SchemaVersion(1),
        id: NodeId("node:a".into()),
        kind: NodeKind::Fact,
        content_ref: ContentRef("content:a".into()),
        tier,
        confidence: Confidence(confidence_bits),
        scope: MemoryScope {
            schema_version: SchemaVersion(1),
            slice: TimeSlice::Daily,
            workspace: None,
            scope: Scope("project-a".into()),
        },
        resting_activation: RestingActivation(0.5f32.to_bits()),
        recency: 10,
        provenance: Provenance { trust_tier: trust, ..owner() },
    }
}

#[test]
fn graph_facts_are_finite_complete_and_trust_bounded() {
    assert!(validate_node(&node(StabilityTier::Stable, TrustTier::OwnerInput, 0.9f32.to_bits())).is_ok());
    assert!(validate_node(&node(StabilityTier::Stable, TrustTier::Untrusted, 0.9f32.to_bits())).is_err());
    assert!(validate_node(&node(StabilityTier::Working, TrustTier::Untrusted, 0.9f32.to_bits())).is_ok());
    assert!(validate_node(&node(StabilityTier::Working, TrustTier::OwnerInput, f32::NAN.to_bits())).is_err());
    assert!(validate_node(&node(StabilityTier::Working, TrustTier::OwnerInput, f32::INFINITY.to_bits())).is_err());
    let edge = MemoryEdge {
        schema_version: SchemaVersion(1),
        id: EdgeId("edge:a-b".into()),
        from: NodeId("node:a".into()),
        to: NodeId("node:b".into()),
        kind: EdgeKind::Causal,
        weight: Weight(1.0f32.to_bits()),
        provenance: owner(),
    };
    assert!(validate_edge(&edge).is_ok());
    assert!(validate_edge(&MemoryEdge { to: NodeId("node:a".into()), ..edge.clone() }).is_err());
    assert!(validate_edge(&MemoryEdge {
        provenance: Provenance { trust_tier: TrustTier::Untrusted, ..owner() },
        ..edge
    })
    .is_err());
}

#[test]
fn user_candidates_keep_imported_and_untrusted_evidence_out_of_stable_tiers() {
    let candidate = UserAttributeCandidate {
        schema_version: SchemaVersion(1),
        candidate_id: CandidateId("candidate:1".into()),
        attribute: UserAttributeRef("review-style".into()),
        value: UserAttributeValueRef("rigorous".into()),
        evidence: vec![EvidenceRef("event:1".into())],
        confidence: Confidence(0.8f32.to_bits()),
        first_observed_at: 10,
        last_updated_at: 20,
        stability: StabilityTier::Stable,
        scope: Scope("workspace:test".into()),
        conflicts: Vec::new(),
        feedback: Vec::new(),
        provenance: owner(),
        evidence_priority: EvidencePriority::Process,
    };
    assert!(validate_user_candidate(&candidate).is_ok());
    let imported = UserAttributeCandidate { evidence_priority: EvidencePriority::Imported, ..candidate.clone() };
    assert!(validate_user_candidate(&imported).is_err());
    let reversed = UserAttributeCandidate { first_observed_at: 30, ..candidate.clone() };
    assert!(validate_user_candidate(&reversed).is_err());
    let working = UserAttributeCandidate { stability: StabilityTier::Working, ..imported };
    assert!(validate_user_candidate(&working).is_ok());
}

#[test]
fn projection_bounds_and_sensitive_markers() {
    let policy = HotColdProjectionPolicy {
        schema_version: SchemaVersion(1),
        hot_window: DurationMs(10),
        retention_window: DurationMs(100),
        redact_untrusted_content: true,
    };
    assert!(policy.validate().is_ok());
    assert!(HotColdProjectionPolicy { retention_window: DurationMs(10), ..policy.clone() }.validate().is_err());
    assert!(HotColdProjectionPolicy { retention_window: DurationMs(u64::MAX), ..policy }.validate().is_err());
    let recall = SelectiveRecall { schema_version: SchemaVersion(1), scope: Scope("w".into()), include_cold: false, limit: 1 };
    assert!(recall.validate().is_ok());
    assert!(SelectiveRecall { limit: 0, ..recall }.validate().is_err());
    assert!(elapsed_at_least(100, DurationMs(50), 150));
    assert!(!elapsed_at_least(100, DurationMs(51), 150));
    assert!(!elapsed_at_least(150, DurationMs(0), 100));
    assert!(!elapsed_at_least(i64::MIN, DurationMs(0), i64::MAX));
    assert!(intrinsically_sensitive(EventKind::ToolCallProposed));
    assert!(!intrinsically_sensitive(EventKind::RunComplete));
    assert!(secret_ref_like("Uses an API_KEY here"));
    assert!(secret_ref_like("Bearer token"));
    assert!(!secret_ref_like("artifact:release"));
    assert_eq!(GraphQuery::default().schema_version, SchemaVersion(1));
}

fn proposal(rule: ApprovalRule, ceiling: InterventionLevel, rollback: bool) -> CapabilityUpdateProposal {
    CapabilityUpdateProposal {
        schema_version: SchemaVersion(1),
        reference: CapabilityUpdateProposalRef("proposal:lint".into()),
        candidate_id: CandidateId("candidate:lint".into()),
        gap: CapabilityGap {
            schema_version: SchemaVersion(1),
            reference: CapabilityGapRef("gap:lint".into()),
            capability: CapabilityRef("capability:lint".into()),
            scope: Scope("workspace:alpha".into()),
            result_evidence: Vec::new(),
            self_confidence: None,
            ceiling,
        },
        requested_envelope: AutonomyEnvelope {
            schema_version: SchemaVersion(1),
            scope: Scope("workspace:alpha".into()),
            capability: CapabilitySet {
                schema_version: SchemaVersion(1),
                capabilities: vec![CapabilityRef("capability:lint".into())],
                permissions: vec![PermissionRef("read".into())],
            },
            action_type: vec![ActionType::Observe, ActionType::Analyze],
            risk_limit: Risk::Low,
            approval_rule: rule,
            budget: Budget("small".into()),
            timebox: Timebox { schema_version: SchemaVersion(1), starts_at: 0, expires_at: 10, max_turns: 8 },
            rollback: RollbackReq { schema_version: SchemaVersion(1), required: rollback, boundary: None },
        },
        evidence_refs: Vec::new(),
    }
}

#[test]
fn capability_updates_must_stay_narrow() {
    assert!(validate_narrow_update(&proposal(ApprovalRule::Ask, InterventionLevel::L3ActWithApproval, false)).is_ok());
    assert!(validate_narrow_update(&proposal(ApprovalRule::Ask, InterventionLevel::L2Prepare, false)).is_err());
    assert!(validate_narrow_update(&proposal(ApprovalRule::Allow, InterventionLevel::L4ActAutonomously, true)).is_ok());
    assert!(validate_narrow_update(&proposal(ApprovalRule::Allow, InterventionLevel::L4ActAutonomously, false)).is_err());
    assert!(validate_narrow_update(&proposal(ApprovalRule::Deny, InterventionLevel::L5HighImpact, true)).is_err());
    let mut wide = proposal(ApprovalRule::Ask, InterventionLevel::L3ActWithApproval, false);
    wide.requested_envelope.timebox.max_turns = 9;
    assert!(validate_narrow_update(&wide).is_err());
}
