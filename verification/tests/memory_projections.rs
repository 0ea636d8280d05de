use forme::event::EventKind;
use forme::hot_cold::HotColdMemoryProjector;
use forme::lineage::GoalLineageProjector;
use forme::m2_c::{
    GoalCheckpoint, LongTermGoal, MemoryRetentionState, MemoryTemperature,
};
use forme::memory::{
    HotColdProjectionPolicy, LongTermContinuationDecision, LongTermContinuationGuard,
    SelectiveRecall,
};
use forme::primitives::{
    Actor, Budget, ContentRef, DurationMs, EventId, ExecutionRouteRef,
    GoalCheckpointRef, GoalFrameRef, IntentionId, IntentionOutcome, NodeId, ObjectRef,
    ParticipantId, Provenance, RunId, SchemaDigest, SchemaVersion, Scope, Source, TrustTier,
};
use forme::projection::{MemoryPayload, StoredEvent};

fn sequenced_event(
    sequence: u64,
    occurred_at: i64,
    kind: EventKind,
    payload: MemoryPayload,
    trust: TrustTier,
) -> StoredEvent {
    let untrusted = trust == TrustTier::Untrusted;
    StoredEvent {
        event_id: EventId(format!("memory-tier-event:{sequence}")),
        run_id: RunId("memory:m2-c-hot-cold".into()),
        stream_seq: sequence,
        kind,
        ts_unix_ms: occurred_at,
        provenance: Provenance {
            source: if untrusted { Source::Communication } else { Source::Internal },
            actor: if untrusted {
                Actor::External(ParticipantId("external:web".into()))
            } else {
                Actor::System
            },
            trust_tier: trust,
            caused_by: None,
        },
        payload,
    }
}

fn memory_node(sequence: u64, occurred_at: i64, scope: &str, content: &str) -> StoredEvent {
    sequenced_event(
        sequence,
        occurred_at,
        EventKind::MemoryNodeAppended,
        MemoryPayload::MemoryNodeAppended {
            node_id: NodeId(format!("memory-tier-node:{sequence}")),
            content_ref: ContentRef(content.into()),
            scope: Scope(scope.into()),
        },
        TrustTier::VerifiedProcess,
    )
}

#[test]
fn s52_hot_cold_projection_is_rebuildable_scoped_retained_and_secret_free() {
    let mut events = vec![
        memory_node(1, 700, "workspace:alpha", "artifact:cold-alpha"),
        memory_node(
            2,
            940,
            "workspace:alpha/project:release",
            "artifact:hot-alpha",
        ),
        memory_node(3, 950, "workspace:alpha", "secret:provider-api-key"),
        memory_node(4, 960, "workspace:beta", "artifact:hot-beta"),
        memory_node(5, 300, "workspace:alpha", "artifact:expired-alpha"),
        memory_node(6, 850, "workspace:alpha", "artifact:retracted-alpha"),
        sequenced_event(
            7,
            970,
            EventKind::RetractionEvent,
            MemoryPayload::RetractionEvent {
                target_object: ObjectRef("memory-tier-node:6".into()),
            },
            TrustTier::OwnerInput,
        ),
        sequenced_event(
            8,
            980,
            EventKind::ActionOutputDelta,
            MemoryPayload::ActionOutputDelta {
                scope: Scope("workspace:alpha".into()),
                content_ref: Some(ContentRef("artifact:external-output".into())),
            },
            TrustTier::Untrusted,
        ),
    ];
    let policy = HotColdProjectionPolicy {
        schema_version: SchemaVersion(1),
        hot_window: DurationMs(100),
        retention_window: DurationMs(600),
        redact_untrusted_content: true,
    };
    let projector = HotColdMemoryProjector;
    let snapshot = projector.rebuild(&events, &policy, 1_000).unwrap();
    events.reverse();
    let rebuilt = projector.rebuild(&events, &policy, 1_000).unwrap();
    assert_eq!(snapshot, rebuilt);
    assert_eq!(snapshot.aggregate_versions[0].value, 8);

    let entry = |sequence| {
        snapshot
            .entries
            .iter()
            .find(|entry| entry.stream_seq == sequence)
            .unwrap()
    };
    assert_eq!(entry(1).temperature, MemoryTemperature::Cold);
    assert_eq!(entry(1).retention, MemoryRetentionState::Active);
    assert_eq!(entry(2).temperature, MemoryTemperature::Hot);
    assert_eq!(entry(3).retention, MemoryRetentionState::Redacted);
    assert!(entry(3).content_ref.is_none());
    assert_eq!(entry(5).retention, MemoryRetentionState::Expired);
    assert!(entry(5).content_ref.is_none());
    assert_eq!(entry(6).retention, MemoryRetentionState::Tombstoned);
    assert!(entry(6).content_ref.is_none());
    assert_eq!(entry(8).retention, MemoryRetentionState::Redacted);

    let serialized = format!("{snapshot:?}");
    assert!(!serialized.contains("secret:provider-api-key"));
    assert!(!serialized.contains("raw-sensitive-marker"));

    let alpha_hot = projector
        .recall(
            &snapshot,
            &SelectiveRecall {
                schema_version: SchemaVersion(1),
                scope: Scope("workspace:alpha".into()),
                include_cold: false,
                limit: 10,
            },
        )
        .unwrap();
    assert_eq!(
        alpha_hot
            .iter()
            .map(|entry| entry.stream_seq)
            .collect::<Vec<_>>(),
        vec![2]
    );
    let alpha_all = projector
        .recall(
            &snapshot,
            &SelectiveRecall {
                schema_version: SchemaVersion(1),
                scope: Scope("workspace:alpha".into()),
                include_cold: true,
                limit: 10,
            },
        )
        .unwrap();
    assert_eq!(
        alpha_all
            .iter()
            .map(|entry| entry.stream_seq)
            .collect::<Vec<_>>(),
        vec![1, 2]
    );
    assert!(alpha_all.iter().all(|entry| entry
        .scope
        .as_ref()
        .is_some_and(|scope| scope.0 == "workspace:alpha"
            || scope.0.starts_with("workspace:alpha/")
            || scope.0.starts_with("workspace:alpha:"))));
    let beta = projector
        .recall(
            &snapshot,
            &SelectiveRecall {
                schema_version: SchemaVersion(1),
                scope: Scope("workspace:beta".into()),
                include_cold: true,
                limit: 10,
            },
        )
        .unwrap();
    assert_eq!(beta.len(), 1);
    assert_eq!(beta[0].stream_seq, 4);
}

#[test]
fn hot_cold_rebuild_refuses_bad_clock_policy_and_unsequenced_events() {
    let policy = HotColdProjectionPolicy {
        schema_version: SchemaVersion(1),
        hot_window: DurationMs(100),
        retention_window: DurationMs(600),
        redact_untrusted_content: false,
    };
    let projector = HotColdMemoryProjector;
    let events = vec![memory_node(1, 700, "workspace:alpha", "artifact:a")];
    assert!(projector.rebuild(&events, &policy, 0).is_err());
    assert!(projector.rebuild(&[], &policy, 1_000).is_err());
    let mut unsequenced = memory_node(1, 700, "workspace:alpha", "artifact:a");
    unsequenced.stream_seq = 0;
    assert!(projector.rebuild(&[unsequenced], &policy, 1_000).is_err());
    let unbounded = HotColdProjectionPolicy {
        retention_window: DurationMs(100),
        ..policy.clone()
    };
    assert!(projector.rebuild(&events, &unbounded, 1_000).is_err());
    let snapshot = projector.rebuild(&events, &policy, 1_000).unwrap();
    assert_eq!(snapshot.built_at, 1_000);
    assert_eq!(snapshot.entries.len(), 1);
    assert_eq!(snapshot.entries[0].content_ref, Some(ContentRef("artifact:a".into())));
    // Untrusted content is kept when the policy does not redact it.
    let untrusted = sequenced_event(
        2,
        990,
        EventKind::CommunicationEventReceived,
        MemoryPayload::CommunicationEventReceived {
            scope: Scope("workspace:alpha:inbox".into()),
            content_ref: Some(ContentRef("artifact:mail".into())),
        },
        TrustTier::Untrusted,
    );
    let snapshot = projector.rebuild(&[untrusted], &policy, 1_000).unwrap();
    assert_eq!(snapshot.entries[0].retention, MemoryRetentionState::Active);
    assert_eq!(snapshot.entries[0].temperature, MemoryTemperature::Hot);
}

#[test]
fn hot_cold_recall_honours_the_limit_and_rejects_incomplete_queries() {
    let policy = HotColdProjectionPolicy {
        schema_version: SchemaVersion(1),
        hot_window: DurationMs(100),
        retention_window: DurationMs(600),
        redact_untrusted_content: true,
    };
    let projector = HotColdMemoryProjector;
    let events = vec![
        memory_node(1, 950, "workspace:alpha", "artifact:1"),
        memory_node(2, 960, "workspace:alpha:notes", "artifact:2"),
        memory_node(3, 970, "workspace:alphabet", "artifact:3"),
    ];
    let snapshot = projector.rebuild(&events, &policy, 1_000).unwrap();
    let query = SelectiveRecall {
        schema_version: SchemaVersion(1),
        scope: Scope("workspace:alpha".into()),
        include_cold: false,
        limit: 1,
    };
    let first = projector.recall(&snapshot, &query).unwrap();
    assert_eq!(first.iter().map(|e| e.stream_seq).collect::<Vec<_>>(), vec![1]);
    let all = projector
        .recall(&snapshot, &SelectiveRecall { limit: 5, ..query.clone() })
        .unwrap();
    assert_eq!(all.iter().map(|e| e.stream_seq).collect::<Vec<_>>(), vec![1, 2]);
    assert!(projector
        .recall(&snapshot, &SelectiveRecall { limit: 0, ..query.clone() })
        .is_err());
    let mut broken = snapshot.clone();
    broken.aggregate_versions.clear();
    assert!(projector.recall(&broken, &query).is_err());
}

fn lineage_event(sequence: u64, kind: EventKind, payload: MemoryPayload) -> StoredEvent {
    StoredEvent {
        event_id: EventId(format!("event:{sequence}")),
        run_id: RunId("memory:m2-c-long-term".into()),
        stream_seq: sequence,
        kind,
        ts_unix_ms: 100 + sequence as i64,
        provenance: Provenance {
            source: Source::Internal,
            actor: Actor::System,
            trust_tier: TrustTier::VerifiedProcess,
            caused_by: None,
        },
        payload,
    }
}

fn release_goal() -> LongTermGoal {
    LongTermGoal {
        schema_version: SchemaVersion(1),
        goal_frame: GoalFrameRef("goal-frame:release".into()),
        scope: Scope("workspace:alpha/goal:release".into()),
        situation_digest: SchemaDigest("sha256:situation-v1".into()),
        budget: Budget("units:4".into()),
        expires_at: 1_000,
    }
}

fn release_checkpoint() -> GoalCheckpoint {
    GoalCheckpoint {
        schema_version: SchemaVersion(1),
        reference: GoalCheckpointRef("checkpoint:release:1".into()),
        goal_frame: GoalFrameRef("goal-frame:release".into()),
        intention: IntentionId("intention:release:1".into()),
        route: ExecutionRouteRef("route:release:1".into()),
        artifact: ContentRef("artifact:release-plan:1".into()),
        situation_digest: SchemaDigest("sha256:situation-v1".into()),
        evidence_refs: vec![EventId("verification:release-plan".into())],
        created_at: 120,
    }
}

fn release_events() -> Vec<StoredEvent> {
    let frame = GoalFrameRef("goal-frame:release".into());
    vec![
        lineage_event(
            1,
            EventKind::GoalFramed,
            MemoryPayload::GoalFramed { goal_frame: frame.clone(), long_term: Some(release_goal()) },
        ),
        lineage_event(
            2,
            EventKind::ProspectiveIntentionCreated,
            MemoryPayload::ProspectiveIntentionCreated {
                intention_id: IntentionId("intention:release:1".into()),
                goal_frame: Some(frame.clone()),
            },
        ),
        lineage_event(
            3,
            EventKind::OrchestrationRouteCreated,
            MemoryPayload::OrchestrationRouteCreated {
                route: ExecutionRouteRef("route:release:1".into()),
                goal_frame: Some(frame.clone()),
                checkpoint: Some(release_checkpoint()),
            },
        ),
    ]
}

#[test]
fn goal_lineage_rebuilds_intentions_routes_and_checkpoints() {
    let frame = GoalFrameRef("goal-frame:release".into());
    let events = release_events();
    let lineage = GoalLineageProjector.rebuild(&events, &frame).unwrap();
    assert_eq!(lineage.goal, release_goal());
    assert_eq!(lineage.intentions, vec![IntentionId("intention:release:1".into())]);
    assert_eq!(lineage.routes, vec![ExecutionRouteRef("route:release:1".into())]);
    assert_eq!(lineage.checkpoints, vec![release_checkpoint()]);
    assert_eq!(lineage.aggregate_versions.len(), 1);
    assert_eq!(lineage.aggregate_versions[0].value, 3);
    assert!(!lineage.cancelled);
    assert!(!lineage.revoked);
    let mut reversed = events.clone();
    reversed.reverse();
    assert_eq!(GoalLineageProjector.rebuild(&reversed, &frame).unwrap(), lineage);

    let mut cancelled = events.clone();
    cancelled.push(lineage_event(
        4,
        EventKind::ProspectiveIntentionResolved,
        MemoryPayload::ProspectiveIntentionResolved {
            intention_id: IntentionId("intention:release:1".into()),
            outcome: IntentionOutcome::Cancelled,
        },
    ));
    let after = GoalLineageProjector.rebuild(&cancelled, &frame).unwrap();
    assert!(after.cancelled);
    assert_eq!(after.resolutions.len(), 1);
    assert_eq!(after.resolutions[0].event_ref, EventId("event:4".into()));

    let mut revoked = events.clone();
    revoked.push(lineage_event(
        5,
        EventKind::RevocationEvent,
        MemoryPayload::RevocationEvent { target_object: ObjectRef("goal-frame:release".into()) },
    ));
    assert!(GoalLineageProjector.rebuild(&revoked, &frame).unwrap().revoked);
}

#[test]
fn goal_lineage_refuses_missing_changed_or_mismatched_definitions() {
    let frame = GoalFrameRef("goal-frame:release".into());
    let events = release_events();
    assert!(GoalLineageProjector.rebuild(&events, &GoalFrameRef(" ".into())).is_err());
    assert!(GoalLineageProjector.rebuild(&[], &frame).is_err());
    assert!(GoalLineageProjector
        .rebuild(&events[1..], &frame)
        .is_err());
    let mut changed = events.clone();
    changed.push(lineage_event(
        6,
        EventKind::GoalFramed,
        MemoryPayload::GoalFramed {
            goal_frame: frame.clone(),
            long_term: Some(LongTermGoal { expires_at: 2_000, ..release_goal() }),
        },
    ));
    assert!(GoalLineageProjector.rebuild(&changed, &frame).is_err());
    let mut mismatched = events.clone();
    mismatched.push(lineage_event(
        7,
        EventKind::OrchestrationRouteCreated,
        MemoryPayload::OrchestrationRouteCreated {
            route: ExecutionRouteRef("route:other".into()),
            goal_frame: Some(frame.clone()),
            checkpoint: Some(release_checkpoint()),
        },
    ));
    assert!(GoalLineageProjector.rebuild(&mismatched, &frame).is_err());
    let mut unsequenced = events.clone();
    unsequenced[0].stream_seq = 0;
    assert!(GoalLineageProjector.rebuild(&unsequenced, &frame).is_err());
    // A resolution read before its intention was created does not count.
    let mut early = events.clone();
    early.push(StoredEvent {
        run_id: RunId("memory:a-earlier-run".into()),
        ..lineage_event(
            9,
            EventKind::ProspectiveIntentionResolved,
            MemoryPayload::ProspectiveIntentionResolved {
                intention_id: IntentionId("intention:release:1".into()),
                outcome: IntentionOutcome::Cancelled,
            },
        )
    });
    let lineage = GoalLineageProjector.rebuild(&early, &frame).unwrap();
    assert!(!lineage.cancelled);
    assert!(lineage.resolutions.is_empty());
    assert_eq!(lineage.aggregate_versions.len(), 2);
    assert_eq!(lineage.aggregate_versions[0].aggregate, RunId("memory:a-earlier-run".into()));
}

#[test]
fn s49_long_term_goal_lineage_rebuilds_and_yields_replans_or_stops_before_action() {
    let goal_frame = GoalFrameRef("goal-frame:release".into());
    let situation = SchemaDigest("sha256:situation-v1".into());
    let events = release_events();
    let intention = IntentionId("intention:release:1".into());

    let lineage = GoalLineageProjector.rebuild(&events, &goal_frame).unwrap();
    assert_eq!(lineage.intentions, vec![intention.clone()]);
    assert_eq!(lineage.routes, vec![ExecutionRouteRef("route:release:1".into())]);
    assert_eq!(lineage.checkpoints.len(), 1);
    assert!(!lineage.cancelled);

    let reopened = GoalLineageProjector.rebuild(&events, &goal_frame).unwrap();
    assert_eq!(reopened, lineage);

    let guard = LongTermContinuationGuard;
    assert_eq!(
        guard.decide(&lineage, &situation, 200, true, 4).unwrap().decision,
        LongTermContinuationDecision::YieldToForeground
    );
    assert_eq!(
        guard
            .decide(&lineage, &SchemaDigest("sha256:situation-v2".into()), 200, false, 4)
            .unwrap()
            .decision,
        LongTermContinuationDecision::Replan
    );
    let continuation = guard.decide(&lineage, &situation, 200, false, 4).unwrap();
    assert_eq!(continuation.decision, LongTermContinuationDecision::Continue);
    assert_eq!(continuation.intention, Some(intention.clone()));

    let mut resolved = events.clone();
    resolved.push(lineage_event(
        4,
        EventKind::ProspectiveIntentionResolved,
        MemoryPayload::ProspectiveIntentionResolved {
            intention_id: intention.clone(),
            outcome: IntentionOutcome::Cancelled,
        },
    ));
    let cancelled = GoalLineageProjector.rebuild(&resolved, &goal_frame).unwrap();
    assert!(cancelled.cancelled);
    assert_eq!(
        guard.decide(&cancelled, &situation, 220, false, 4).unwrap().decision,
        LongTermContinuationDecision::Stop
    );
    assert_eq!(
        resolved.iter().map(|event| event.kind).collect::<Vec<_>>(),
        vec![
            EventKind::GoalFramed,
            EventKind::ProspectiveIntentionCreated,
            EventKind::OrchestrationRouteCreated,
            EventKind::ProspectiveIntentionResolved,
        ]
    );
    assert!(!resolved
        .iter()
        .any(|event| matches!(event.kind, EventKind::ActionPlanned | EventKind::ActionStarted)));
}
