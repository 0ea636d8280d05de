use forme::event::EventKind;
use forme::m3_a::{
    EvolutionAggregateVersion, EvolutionImpact, HistoricalFalse, InFlightDisposition,
    StrategyActivation, StrategyCandidate, StrategyDomain, StrategyRollback,
    StrategyRollbackPolicy,
};
use forme::m3_b::StrategyRuntimeCompatibility;
use forme::m3_c::{
    CognitiveStrategyEnvelope, CognitiveStrategyEvidencePolicy, StrategyConflictPolicy,
    StrategyFreshnessBasis, StrategyMemorySpec, UntrustedEdgePolicy,
};
use forme::primitives::{
    Actor, CandidateId, CandidateTargetRef, ContentRef, DurationMs, EventId, EvidenceRef,
    EvolutionAggregateRef, EvolutionEvaluationRef, EvolutionSnapshotRef, ObjectRef,
    OwnerControlRef, ParticipantId, Provenance, RunId, SchemaDigest, SchemaVersion, Scope,
    Source, StabilityTier, StrategyVersionRef, TrustTier,
};
use forme::projection::{MemoryPayload, StoredEvent};
use forme::strategy_memory::{
    StrategyMemoryCandidateState, StrategyMemoryProjector, StrategyMemoryRecommendation,
};

fn trusted() -> Provenance {
    Provenance {
        source: Source::Internal,
        actor: Actor::System,
        trust_tier: TrustTier::VerifiedProcess,
        caused_by: None,
    }
}

fn untrusted() -> Provenance {
    Provenance {
        source: Source::Communication,
        actor: Actor::External(ParticipantId("participant:web".into())),
        trust_tier: TrustTier::Untrusted,
        caused_by: None,
    }
}

fn spec() -> StrategyMemorySpec {
    StrategyMemorySpec {
        envelope: CognitiveStrategyEnvelope {
            schema_version: SchemaVersion(1),
            domain: StrategyDomain::StrategyMemory,
            version: StrategyVersionRef("strategy-memory:v2".into()),
            scope: Scope("workspace:m3-c".into()),
            content_ref: ContentRef("spec:strategy-memory:v2".into()),
            content_digest: SchemaDigest("digest:strategy-memory:v2".into()),
            compatibility: StrategyRuntimeCompatibility {
                schema_version: SchemaVersion(1),
                minimum_runtime_schema: SchemaVersion(1),
                event_schema: SchemaVersion(1),
                model_profile: None,
                tool_schema: Some(SchemaDigest("tool:v1".into())),
                backend_schema: Some(SchemaDigest("backend:v1".into())),
            },
            evidence_policy: CognitiveStrategyEvidencePolicy {
                schema_version: SchemaVersion(1),
                minimum_verified_outcomes: 2,
                minimum_distinct_timepoints: 2,
                freshness_window: DurationMs(1_000),
                decay_after: DurationMs(2_000),
                expire_after: DurationMs(4_000),
                require_owner_feedback: false,
            },
            rollback_policy: StrategyRollbackPolicy {
                schema_version: SchemaVersion(1),
                known_good: StrategyVersionRef("strategy-memory:v1".into()),
                rollback_on_hard_regression: true,
                owner_on_unverifiable: true,
            },
        },
        conflict_policy: StrategyConflictPolicy::PreserveAndReevaluate,
        freshness_basis: StrategyFreshnessBasis::VerifiedEventTime,
        untrusted_edge_policy: UntrustedEdgePolicy::Deny,
        decay_step_basis_points: 1_000,
        maximum_derived_edges: 16,
        additive_schema_only: true,
        rollback_on_active_evidence_loss: true,
    }
}

fn strategy_candidate(id: &str, version: &str, evidence: &str) -> StrategyCandidate {
    StrategyCandidate {
        schema_version: SchemaVersion(1),
        candidate: CandidateId(id.into()),
        domain: StrategyDomain::StrategyMemory,
        scope: Scope("workspace:m3-c".into()),
        target_tier: StabilityTier::Stable,
        proposed_version: StrategyVersionRef(version.into()),
        baseline: StrategyVersionRef("strategy-memory:v1".into()),
        spec_ref: ContentRef(format!("spec:{version}")),
        spec_digest: SchemaDigest(format!("digest:{version}")),
        evidence: vec![EvidenceRef(evidence.into())],
        provenance: trusted(),
        impact: EvolutionImpact::Bounded,
        rollback_policy: StrategyRollbackPolicy {
            schema_version: SchemaVersion(1),
            known_good: StrategyVersionRef("strategy-memory:v1".into()),
            rollback_on_hard_regression: true,
            owner_on_unverifiable: true,
        },
    }
}

fn candidate_payload(candidate: StrategyCandidate) -> MemoryPayload {
    MemoryPayload::CandidateCreated {
        candidate_id: candidate.candidate.clone(),
        target: CandidateTargetRef(format!("strategy:{}", candidate.candidate.0)),
        evidence_refs: candidate.evidence.clone(),
        provenance: candidate.provenance.clone(),
        target_tier: StabilityTier::Stable,
        capability_update: None,
        strategy_candidate: Some(candidate),
    }
}

fn event(
    sequence: u64,
    ts: i64,
    provenance: Provenance,
    payload: MemoryPayload,
) -> StoredEvent {
    StoredEvent {
        event_id: EventId(format!("event:{sequence}")),
        run_id: RunId("run:m3-c-strategy-memory".into()),
        stream_seq: sequence,
        kind: kind_of(&payload),
        ts_unix_ms: ts,
        provenance,
        payload,
    }
}

fn kind_of(payload: &MemoryPayload) -> EventKind {
    match payload {
        MemoryPayload::CandidateCreated { .. } => EventKind::CandidateCreated,
        MemoryPayload::CandidateConflictDetected { .. } => EventKind::CandidateConflictDetected,
        MemoryPayload::CandidatePromoted { .. } => EventKind::CandidatePromoted,
        MemoryPayload::CandidateDowngraded { .. } => EventKind::CandidateDowngraded,
        MemoryPayload::StrategyActivated { .. } => EventKind::StrategyActivated,
        MemoryPayload::StrategyRolledBack { .. } => EventKind::StrategyRolledBack,
        MemoryPayload::RetractionEvent { .. } => EventKind::RetractionEvent,
        MemoryPayload::ReevaluationTaskCreated { .. } => EventKind::ReevaluationTaskCreated,
        _ => EventKind::ObservationRecorded,
    }
}

fn activation() -> StrategyActivation {
    let aggregate = EvolutionAggregateRef("evolution:m3-c".into());
    StrategyActivation {
        schema_version: SchemaVersion(1),
        aggregate: aggregate.clone(),
        domain: StrategyDomain::StrategyMemory,
        scope: Scope("workspace:m3-c".into()),
        from: Some(StrategyVersionRef("strategy-memory:v1".into())),
        to: StrategyVersionRef("strategy-memory:v2-left".into()),
        spec_ref: ContentRef("spec:strategy-memory:v2-left".into()),
        spec_digest: SchemaDigest("digest:strategy-memory:v2-left".into()),
        evaluation: EvolutionEvaluationRef("evaluation:strategy-memory".into()),
        promotion: EventId("event:promotion".into()),
        owner_confirmation: Some(OwnerControlRef("owner:activation".into())),
        impact: EvolutionImpact::Bounded,
        expected_version: EvolutionAggregateVersion {
            schema_version: SchemaVersion(1),
            aggregate: aggregate.clone(),
            value: 0,
        },
        committed_version: EvolutionAggregateVersion {
            schema_version: SchemaVersion(1),
            aggregate,
            value: 1,
        },
    }
}

fn rollback() -> StrategyRollback {
    let aggregate = EvolutionAggregateRef("evolution:m3-c".into());
    StrategyRollback {
        schema_version: SchemaVersion(1),
        aggregate: aggregate.clone(),
        domain: StrategyDomain::StrategyMemory,
        scope: Scope("workspace:m3-c".into()),
        failed: StrategyVersionRef("strategy-memory:v2-left".into()),
        restored: StrategyVersionRef("strategy-memory:v1".into()),
        restored_spec_ref: ContentRef("spec:strategy-memory:v1".into()),
        restored_spec_digest: SchemaDigest("digest:strategy-memory:v1".into()),
        triggers: vec![EvidenceRef("evidence:left".into())],
        expected_version: EvolutionAggregateVersion {
            schema_version: SchemaVersion(1),
            aggregate: aggregate.clone(),
            value: 1,
        },
        committed_version: EvolutionAggregateVersion {
            schema_version: SchemaVersion(1),
            aggregate,
            value: 2,
        },
        in_flight: InFlightDisposition::KeepPinned,
        external_effects_reverted: HistoricalFalse,
    }
}

#[test]
fn s63_conflict_retraction_and_decay_produce_governed_recommendations() {
    let left = strategy_candidate("candidate:left", "strategy-memory:v2-left", "evidence:left");
    let right = strategy_candidate(
        "candidate:right",
        "strategy-memory:v2-right",
        "evidence:right",
    );
    let events = vec![
        event(1, 100, trusted(), candidate_payload(left)),
        event(2, 110, trusted(), candidate_payload(right)),
        event(
            3,
            120,
            trusted(),
            MemoryPayload::CandidateConflictDetected {
                candidate_id: CandidateId("candidate:left".into()),
                conflict_with: CandidateId("candidate:right".into()),
            },
        ),
        event(
            4,
            130,
            trusted(),
            MemoryPayload::CandidatePromoted {
                candidate_id: CandidateId("candidate:left".into()),
            },
        ),
        event(
            5,
            140,
            trusted(),
            MemoryPayload::StrategyActivated {
                activation: activation(),
                active_snapshot: EvolutionSnapshotRef("snapshot:v2".into()),
            },
        ),
        event(
            6,
            150,
            trusted(),
            MemoryPayload::RetractionEvent {
                target_object: ObjectRef("evidence:left".into()),
            },
        ),
    ];

    let snapshot = StrategyMemoryProjector
        .rebuild(&events, &spec(), 151)
        .unwrap();
    assert_eq!(snapshot.candidates.len(), 2);
    assert_eq!(snapshot.lineage.len(), 2);
    let left = snapshot
        .candidates
        .iter()
        .find(|candidate| candidate.candidate.0 == "candidate:left")
        .unwrap();
    assert_eq!(left.state, StrategyMemoryCandidateState::Stable);
    assert!(left.active);
    assert_eq!(
        left.conflicts,
        vec![CandidateId("candidate:right".into())]
    );
    assert!(snapshot
        .recommendations
        .iter()
        .any(|recommendation| matches!(
            recommendation,
            StrategyMemoryRecommendation::Reevaluate { candidate, .. }
                if candidate.0 == "candidate:left"
        )));
    assert!(snapshot
        .recommendations
        .iter()
        .any(|recommendation| matches!(
            recommendation,
            StrategyMemoryRecommendation::Downgrade { candidate, .. }
                if candidate.0 == "candidate:left"
        )));
    assert!(snapshot
        .recommendations
        .iter()
        .any(|recommendation| matches!(
            recommendation,
            StrategyMemoryRecommendation::Rollback { failed, restored, .. }
                if failed.0 == "strategy-memory:v2-left" && restored.0 == "strategy-memory:v1"
        )));
}

#[test]
fn s63_untrusted_content_never_creates_lineage_or_maintenance_actions() {
    let mut candidate = strategy_candidate(
        "candidate:external",
        "strategy-memory:v2-external",
        "evidence:external",
    );
    candidate.provenance = untrusted();
    let events = vec![event(1, 100, untrusted(), candidate_payload(candidate))];
    let snapshot = StrategyMemoryProjector
        .rebuild(&events, &spec(), 10_000)
        .unwrap();
    assert_eq!(snapshot.candidates.len(), 1);
    assert!(!snapshot.candidates[0].trusted_lineage);
    assert!(snapshot.lineage.is_empty());
    assert!(snapshot.recommendations.is_empty());
}

#[test]
fn s63_append_only_resolution_keeps_history_and_removes_active_v2() {
    let candidate =
        strategy_candidate("candidate:left", "strategy-memory:v2-left", "evidence:left");
    let events = vec![
        event(1, 100, trusted(), candidate_payload(candidate)),
        event(
            2,
            110,
            trusted(),
            MemoryPayload::CandidatePromoted {
                candidate_id: CandidateId("candidate:left".into()),
            },
        ),
        event(
            3,
            120,
            trusted(),
            MemoryPayload::StrategyActivated {
                activation: activation(),
                active_snapshot: EvolutionSnapshotRef("snapshot:v2".into()),
            },
        ),
        event(
            4,
            130,
            trusted(),
            MemoryPayload::RetractionEvent {
                target_object: ObjectRef("evidence:left".into()),
            },
        ),
        event(
            5,
            140,
            trusted(),
            MemoryPayload::ReevaluationTaskCreated {
                derived_refs: vec![ObjectRef("candidate:left".into())],
            },
        ),
        event(
            6,
            150,
            trusted(),
            MemoryPayload::CandidateDowngraded {
                candidate_id: CandidateId("candidate:left".into()),
            },
        ),
        event(
            7,
            160,
            trusted(),
            MemoryPayload::StrategyRolledBack {
                rollback: rollback(),
                active_snapshot: EvolutionSnapshotRef("snapshot:v1-restored".into()),
            },
        ),
    ];
    let snapshot = StrategyMemoryProjector
        .rebuild(&events, &spec(), 161)
        .unwrap();
    assert_eq!(snapshot.candidates.len(), 1);
    assert_eq!(
        snapshot.candidates[0].state,
        StrategyMemoryCandidateState::Downgraded
    );
    assert!(!snapshot.candidates[0].active);
    assert!(snapshot.recommendations.is_empty());
    assert_eq!(
        events.iter().map(|event| event.kind).collect::<Vec<_>>(),
        vec![
            EventKind::CandidateCreated,
            EventKind::CandidatePromoted,
            EventKind::StrategyActivated,
            EventKind::RetractionEvent,
            EventKind::ReevaluationTaskCreated,
            EventKind::CandidateDowngraded,
            EventKind::StrategyRolledBack,
        ]
    );
}

#[test]
fn s63_malformed_control_payloads_and_candidate_envelopes_fail_closed() {
    let candidate =
        strategy_candidate("candidate:left", "strategy-memory:v2-left", "evidence:left");
    let mut mismatched = candidate_payload(candidate.clone());
    if let MemoryPayload::CandidateCreated { candidate_id, .. } = &mut mismatched {
        *candidate_id = CandidateId("candidate:other".into());
    }
    assert!(StrategyMemoryProjector
        .rebuild(
            &[event(
                1,
                100,
                trusted(),
                mismatched,
            )],
            &spec(),
            101,
        )
        .is_err());

    let mut invalid_activation = activation();
    invalid_activation.committed_version.value = 4;
    let events = vec![
        event(1, 100, trusted(), candidate_payload(candidate)),
        event(
            2,
            110,
            trusted(),
            MemoryPayload::StrategyActivated {
                activation: invalid_activation,
                active_snapshot: EvolutionSnapshotRef("snapshot:invalid".into()),
            },
        ),
    ];
    assert!(StrategyMemoryProjector
        .rebuild(&events, &spec(), 111)
        .is_err());

    let mut invalid_rollback = rollback();
    invalid_rollback.committed_version.value = 9;
    let events = vec![event(
        1,
        100,
        trusted(),
        MemoryPayload::StrategyRolledBack {
            rollback: invalid_rollback,
            active_snapshot: EvolutionSnapshotRef("snapshot:invalid".into()),
        },
    )];
    assert!(StrategyMemoryProjector
        .rebuild(&events, &spec(), 101)
        .is_err());
}

#[test]
fn stale_candidate_is_reevaluated_with_a_freshness_trigger() {
    let candidate = strategy_candidate("candidate:x", "strategy-memory:v2-x", "evidence:x");
    let events = vec![event(1, 100, trusted(), candidate_payload(candidate))];
    let snapshot = StrategyMemoryProjector.rebuild(&events, &spec(), 2_100).unwrap();
    assert_eq!(snapshot.lineage.len(), 1);
    assert_eq!(
        snapshot.recommendations,
        vec![StrategyMemoryRecommendation::Reevaluate {
            candidate: CandidateId("candidate:x".into()),
            triggers: vec![EvidenceRef("freshness-expired:candidate:x".into())],
        }]
    );
    let fresh = StrategyMemoryProjector.rebuild(&events, &spec(), 2_099).unwrap();
    assert!(fresh.recommendations.is_empty());
}

#[test]
fn conflicts_past_the_edge_bound_fail_closed_and_untrusted_controls_are_ignored() {
    let mut bounded = spec();
    bounded.maximum_derived_edges = 1;
    let events = vec![
        event(1, 100, trusted(), candidate_payload(strategy_candidate("candidate:a", "strategy-memory:v2-a", "evidence:a"))),
        event(2, 110, trusted(), candidate_payload(strategy_candidate("candidate:b", "strategy-memory:v2-b", "evidence:b"))),
        event(3, 120, trusted(), candidate_payload(strategy_candidate("candidate:c", "strategy-memory:v2-c", "evidence:c"))),
        event(
            4,
            130,
            trusted(),
            MemoryPayload::CandidateConflictDetected {
                candidate_id: CandidateId("candidate:a".into()),
                conflict_with: CandidateId("candidate:b".into()),
            },
        ),
    ];
    let snapshot = StrategyMemoryProjector.rebuild(&events, &bounded, 131).unwrap();
    assert_eq!(snapshot.candidates[0].conflicts, vec![CandidateId("candidate:b".into())]);
    assert_eq!(snapshot.candidates[1].conflicts, vec![CandidateId("candidate:a".into())]);
    let mut overflowing = events.clone();
    overflowing.push(event(
        5,
        140,
        trusted(),
        MemoryPayload::CandidateConflictDetected {
            candidate_id: CandidateId("candidate:a".into()),
            conflict_with: CandidateId("candidate:c".into()),
        },
    ));
    assert!(StrategyMemoryProjector.rebuild(&overflowing, &bounded, 141).is_err());
    let mut ignored = events.clone();
    ignored.push(event(
        5,
        140,
        untrusted(),
        MemoryPayload::CandidatePromoted { candidate_id: CandidateId("candidate:a".into()) },
    ));
    let snapshot = StrategyMemoryProjector.rebuild(&ignored, &bounded, 141).unwrap();
    assert_eq!(snapshot.candidates[0].state, StrategyMemoryCandidateState::Candidate);
    assert!(StrategyMemoryProjector.rebuild(&events, &bounded, 0).is_err());
}
