use forme::control::CandidateReviewDecision;
use forme::event::EventKind;
use forme::growth::CapabilityGrowthEngine;
use forme::m2_c::{CapabilityResultEvidence, CapabilityUpdateProposal, ResourceEvidenceOutcome};
use forme::memory::CandidateState;
use forme::memory_state::{
    apply_candidate_transition, candidate_state_of, capability_update_proposal, fold_event,
    narrow_grant, plan_capability_proposal, plan_capability_review, MemoryEvent, MemoryEventPayload, MemoryState,
};
use forme::primitives::{
    ActionType, Actor, ApprovalRule, AutonomyEnvelope, Budget, CandidateId, CandidateTargetRef,
    CapabilityGapRef, CapabilityRef, CapabilitySet, CapabilityUpdateProposalRef, Confidence,
    EventId, EvidenceRef, InterventionLevel, PermissionRef, Provenance, Risk, RollbackBoundary,
    RollbackReq, SchemaVersion, Scope, Source, StabilityTier, Timebox, TrustTier,
    VerifiedPrincipal,
};

fn record(name: &str, outcome: ResourceEvidenceOutcome, owner: Option<bool>) -> CapabilityResultEvidence {
    CapabilityResultEvidence {
        schema_version: SchemaVersion(1),
        evidence_ref: EvidenceRef(name.into()),
        outcome,
        observed_at: 10,
        owner_feedback: owner,
    }
}

fn assess(
    evidence: Vec<CapabilityResultEvidence>,
    confidence: Option<f32>,
) -> Result<InterventionLevel, String> {
    CapabilityGrowthEngine
        .assess(
            CapabilityGapRef("gap:calendar".into()),
            CapabilityRef("capability:calendar".into()),
            Scope("workspace".into()),
            evidence,
            confidence.map(|value| Confidence(value.to_bits())),
        )
        .map(|gap| gap.ceiling)
        .map_err(|error| error.0)
}

fn three_confirmed_passes() -> Vec<CapabilityResultEvidence> {
    vec![
        record("evidence:a", ResourceEvidenceOutcome::Pass, Some(true)),
        record("evidence:b", ResourceEvidenceOutcome::Pass, None),
        record("evidence:c", ResourceEvidenceOutcome::Pass, None),
    ]
}

#[test]
fn confirmed_clean_results_allow_autonomy_until_confidence_caps_them() {
    assert_eq!(assess(three_confirmed_passes(), None), Ok(InterventionLevel::L4ActAutonomously));
    assert_eq!(assess(three_confirmed_passes(), Some(1.0)), Ok(InterventionLevel::L4ActAutonomously));
    assert_eq!(assess(three_confirmed_passes(), Some(0.7)), Ok(InterventionLevel::L4ActAutonomously));
    assert_eq!(assess(three_confirmed_passes(), Some(0.69)), Ok(InterventionLevel::L3ActWithApproval));
    assert_eq!(assess(three_confirmed_passes(), Some(0.4)), Ok(InterventionLevel::L3ActWithApproval));
    assert_eq!(assess(three_confirmed_passes(), Some(0.39)), Ok(InterventionLevel::L2Prepare));
    assert_eq!(assess(three_confirmed_passes(), Some(0.0)), Ok(InterventionLevel::L2Prepare));
    assert_eq!(assess(three_confirmed_passes(), Some(-0.0)), Ok(InterventionLevel::L2Prepare));
}

#[test]
fn fewer_or_tainted_results_lower_the_ceiling() {
    let two = vec![
        record("evidence:a", ResourceEvidenceOutcome::Pass, None),
        record("evidence:b", ResourceEvidenceOutcome::Pass, None),
    ];
    assert_eq!(assess(two, None), Ok(InterventionLevel::L3ActWithApproval));
    let unconfirmed = vec![
        record("evidence:a", ResourceEvidenceOutcome::Pass, None),
        record("evidence:b", ResourceEvidenceOutcome::Pass, None),
        record("evidence:c", ResourceEvidenceOutcome::Pass, None),
    ];
    assert_eq!(assess(unconfirmed, None), Ok(InterventionLevel::L3ActWithApproval));
    let one = vec![record("evidence:a", ResourceEvidenceOutcome::Pass, None)];
    assert_eq!(assess(one, Some(0.9)), Ok(InterventionLevel::L2Prepare));
    let rejected = vec![
        record("evidence:a", ResourceEvidenceOutcome::Pass, Some(true)),
        record("evidence:b", ResourceEvidenceOutcome::Pass, Some(false)),
        record("evidence:c", ResourceEvidenceOutcome::Pass, None),
    ];
    assert_eq!(assess(rejected, None), Ok(InterventionLevel::L1Suggest));
    let unverifiable = vec![
        record("evidence:a", ResourceEvidenceOutcome::Pass, Some(true)),
        record("evidence:b", ResourceEvidenceOutcome::Pass, None),
        record("evidence:c", ResourceEvidenceOutcome::Pass, None),
        record("evidence:d", ResourceEvidenceOutcome::Unverifiable, None),
    ];
    assert_eq!(assess(unverifiable, None), Ok(InterventionLevel::L3ActWithApproval));
}

#[test]
fn incomplete_or_duplicated_evidence_is_refused() {
    assert_eq!(
        assess(Vec::new(), None),
        Err("capability growth evidence is incomplete".to_string())
    );
    assert_eq!(
        assess(three_confirmed_passes(), Some(1.5)),
        Err("capability growth evidence is incomplete".to_string())
    );
    assert_eq!(
        assess(three_confirmed_passes(), Some(-0.1)),
        Err("capability growth evidence is incomplete".to_string())
    );
    assert_eq!(
        assess(three_confirmed_passes(), Some(f32::NAN)),
        Err("capability growth evidence is incomplete".to_string())
    );
    let mut stale = three_confirmed_passes();
    stale[1].observed_at = 0;
    assert_eq!(assess(stale, None), Err("capability growth evidence is incomplete".to_string()));
    let twice = vec![
        record("evidence:a", ResourceEvidenceOutcome::Pass, Some(true)),
        record("evidence:a", ResourceEvidenceOutcome::Pass, None),
    ];
    assert_eq!(assess(twice, None), Err("capability growth evidence is duplicated".to_string()));
}

#[test]
fn the_gap_keeps_what_it_was_given() {
    let gap = CapabilityGrowthEngine
        .assess(
            CapabilityGapRef("gap:calendar".into()),
            CapabilityRef("capability:calendar".into()),
            Scope("workspace".into()),
            three_confirmed_passes(),
            Some(Confidence(0.5f32.to_bits())),
        )
        .unwrap();
    assert_eq!(gap.schema_version, SchemaVersion(1));
    assert_eq!(gap.reference, CapabilityGapRef("gap:calendar".into()));
    assert_eq!(gap.capability, CapabilityRef("capability:calendar".into()));
    assert_eq!(gap.scope, Scope("workspace".into()));
    assert_eq!(gap.result_evidence, three_confirmed_passes());
    assert_eq!(gap.self_confidence, Some(Confidence(0.5f32.to_bits())));
    assert_eq!(gap.ceiling, InterventionLevel::L3ActWithApproval);
}

fn lint_evidence(count: usize, owner_confirmed: bool) -> Vec<CapabilityResultEvidence> {
    (0..count)
        .map(|index| CapabilityResultEvidence {
            schema_version: SchemaVersion(1),
            evidence_ref: EvidenceRef(format!("verification:lint:{index}")),
            outcome: ResourceEvidenceOutcome::Pass,
            observed_at: 100 + index as i64,
            owner_feedback: if index + 1 == count { Some(owner_confirmed) } else { None },
        })
        .collect()
}

fn provenance() -> Provenance {
    Provenance {
        source: Source::Internal,
        actor: Actor::System,
        trust_tier: TrustTier::VerifiedProcess,
        caused_by: None,
    }
}

fn envelope(scope: &str, capability: &str, approval_rule: ApprovalRule) -> AutonomyEnvelope {
    AutonomyEnvelope {
        schema_version: SchemaVersion(1),
        scope: Scope(scope.into()),
        capability: CapabilitySet {
            schema_version: SchemaVersion(1),
            capabilities: vec![CapabilityRef(capability.into())],
            permissions: vec![PermissionRef("permission:read".into())],
        },
        action_type: vec![ActionType::Analyze],
        risk_limit: Risk::Low,
        approval_rule,
        budget: Budget("units:4".into()),
        timebox: Timebox {
            schema_version: SchemaVersion(1),
            starts_at: 10,
            expires_at: 1_000,
            max_turns: 4,
        },
        rollback: RollbackReq {
            schema_version: SchemaVersion(1),
            required: true,
            boundary: Some(RollbackBoundary("discard prepared result".into())),
        },
    }
}

#[test]
fn s50_capability_growth_is_result_led_candidate_only_and_owner_grants_narrowly() {
    let engine = CapabilityGrowthEngine;
    let scope = Scope("workspace:alpha/resource:lint".into());
    let capability = CapabilityRef("capability:lint".into());
    let strong = engine
        .assess(
            CapabilityGapRef("gap:lint:strong".into()),
            capability.clone(),
            scope.clone(),
            lint_evidence(3, true),
            Some(Confidence(0.9f32.to_bits())),
        )
        .unwrap();
    assert_eq!(strong.ceiling, InterventionLevel::L4ActAutonomously);
    let self_limited = engine
        .assess(
            CapabilityGapRef("gap:lint:self-limited".into()),
            capability.clone(),
            scope.clone(),
            lint_evidence(3, true),
            Some(Confidence(0.2f32.to_bits())),
        )
        .unwrap();
    assert_eq!(self_limited.ceiling, InterventionLevel::L2Prepare);
    let one_success = engine
        .assess(
            CapabilityGapRef("gap:lint:one".into()),
            capability.clone(),
            scope.clone(),
            lint_evidence(1, true),
            Some(Confidence(1.0f32.to_bits())),
        )
        .unwrap();
    assert_eq!(one_success.ceiling, InterventionLevel::L2Prepare);

    let proposal = CapabilityUpdateProposal {
        schema_version: SchemaVersion(1),
        reference: CapabilityUpdateProposalRef("proposal:lint:narrow".into()),
        candidate_id: CandidateId("candidate:lint:narrow".into()),
        evidence_refs: strong
            .result_evidence
            .iter()
            .map(|evidence| evidence.evidence_ref.clone())
            .collect(),
        gap: strong,
        requested_envelope: envelope(&scope.0, &capability.0, ApprovalRule::Allow),
    };
    let mut memory = MemoryState::new();
    let mut kinds = vec![EventKind::CandidateCreated];
    fold_event(
        &mut memory,
        MemoryEvent {
            event_id: EventId("event:1".into()),
            schema_version: SchemaVersion(1),
            provenance: provenance(),
            payload: MemoryEventPayload::CandidateCreated {
                candidate_id: proposal.candidate_id.clone(),
                target: CandidateTargetRef(format!(
                    "capability-update:{}:{}",
                    capability.0, scope.0
                )),
                evidence_refs: proposal.evidence_refs.clone(),
                confidence: Confidence(0.9f32.to_bits()),
                provenance: provenance(),
                target_tier: StabilityTier::Working,
                capability_update: Some(proposal.clone()),
            },
        },
    );
    assert_eq!(
        candidate_state_of(&memory, &proposal.candidate_id),
        Some(CandidateState::Candidate)
    );
    assert!(plan_capability_review(
        &memory,
        &proposal.candidate_id,
        CandidateReviewDecision::Promote,
        &VerifiedPrincipal(String::new()),
        200,
    )
    .is_err());
    assert_eq!(kinds, vec![EventKind::CandidateCreated]);

    let owner = VerifiedPrincipal("owner:local".into());
    let (decision, grant_owed) = plan_capability_review(
        &memory,
        &proposal.candidate_id,
        CandidateReviewDecision::Promote,
        &owner,
        200,
    )
    .unwrap();
    let decision = decision.unwrap();
    assert!(grant_owed);
    kinds.push(decision.kind);
    apply_candidate_transition(
        &mut memory,
        &proposal.candidate_id,
        CandidateState::Promoted,
        Actor::Owner,
    );
    let stored = capability_update_proposal(&memory, &proposal.candidate_id).unwrap().clone();
    let grant = narrow_grant(stored, owner, 200);
    assert_eq!(grant.proposal, proposal.reference);
    assert_eq!(grant.envelope.scope, scope);
    assert_eq!(grant.envelope.capability.capabilities, vec![capability]);
    assert_eq!(grant.envelope.risk_limit, Risk::Low);
    assert_eq!(grant.envelope.timebox.max_turns, 4);

    assert_eq!(kinds, vec![EventKind::CandidateCreated, EventKind::CandidatePromoted]);
    assert!(!kinds.iter().any(|kind| matches!(
        kind,
        EventKind::AutonomyEnvelopeSet | EventKind::PluginToggled | EventKind::ToolsetResolved
    )));
    assert_eq!(
        candidate_state_of(&memory, &proposal.candidate_id),
        Some(CandidateState::Promoted)
    );
    assert_eq!(
        capability_update_proposal(&memory, &proposal.candidate_id).unwrap(),
        &proposal
    );
}

#[test]
fn capability_proposals_are_recorded_once_and_refuse_collisions() {
    let scope = Scope("workspace:alpha/resource:lint".into());
    let capability = CapabilityRef("capability:lint".into());
    let gap = CapabilityGrowthEngine
        .assess(
            CapabilityGapRef("gap:lint:strong".into()),
            capability.clone(),
            scope.clone(),
            lint_evidence(3, true),
            None,
        )
        .unwrap();
    let proposal = CapabilityUpdateProposal {
        schema_version: SchemaVersion(1),
        reference: CapabilityUpdateProposalRef("proposal:lint:narrow".into()),
        candidate_id: CandidateId("candidate:lint:narrow".into()),
        evidence_refs: vec![EvidenceRef("verification:lint:0".into())],
        gap,
        requested_envelope: envelope(&scope.0, &capability.0, ApprovalRule::Allow),
    };
    let mut memory = MemoryState::new();
    let payload = plan_capability_proposal(&memory, proposal.clone(), provenance()).unwrap().unwrap();
    match &payload {
        MemoryEventPayload::CandidateCreated { target, confidence, capability_update, .. } => {
            assert_eq!(target.0, "capability-update:capability:lint:workspace:alpha/resource:lint");
            assert_eq!(*confidence, Confidence(0));
            assert_eq!(capability_update.as_ref(), Some(&proposal));
        }
        other => panic!("unexpected payload {other:?}"),
    }
    fold_event(
        &mut memory,
        MemoryEvent {
            event_id: EventId("event:1".into()),
            schema_version: SchemaVersion(1),
            provenance: provenance(),
            payload,
        },
    );
    assert_eq!(plan_capability_proposal(&memory, proposal.clone(), provenance()), Ok(None));
    let mut other = proposal.clone();
    other.reference = CapabilityUpdateProposalRef("proposal:lint:other".into());
    assert_eq!(
        plan_capability_proposal(&memory, other, provenance()).unwrap_err().0,
        "capability update candidate id collision".to_string()
    );
    let mut untrusted = provenance();
    untrusted.trust_tier = TrustTier::Untrusted;
    assert!(plan_capability_proposal(&MemoryState::new(), proposal, untrusted).is_err());
}
