use forme::memory::{
    intention_from_protocol, intention_storage_ref, intention_lease_ref, MemoryScope, RecallCue, ScopedMemoryQuery, CandidateState, ClaimStep, EdgeKind, IntentionState, IntentionTrigger,
    NodeKind, TimeSlice,
};
use forme::memory_state::{
    apply_candidate_transition, apply_claim, candidate_state_of, fold_event, plan_due_claims,
    plan_capability_proposal, plan_due_claims_after, plan_goal_schedule_creation,
    plan_intention_resolution, plan_schedule_creation, rebuild_memory, recall, search_scoped, user_attribute, MemoryEvent, MemoryEventPayload, MemoryState,
};
use forme::primitives::{
    ActionType, ApprovalRule, AutonomyEnvelope, Budget, CapabilityRef, CapabilitySet,
    PermissionRef, Risk, RollbackBoundary, RollbackReq, SeedRef, SessionId, Timebox,
    Actor, CandidateId, CandidateTargetRef, Confidence, ContentRef, EdgeId, EventId, EvidenceRef,
    HistoricalSourceRef, IntentionId, IntentionOutcome, IntentionSource, IntentionTriggerRef,
    NodeId, Provenance, Recency, RestingActivation, SchemaVersion, Scope, Source, StabilityTier,
    TrustTier, UserAttributeRef, UserAttributeValueRef, Weight,
};

fn provenance() -> Provenance {
    Provenance {
        source: Source::Internal,
        actor: Actor::System,
        trust_tier: TrustTier::VerifiedProcess,
        caused_by: None,
    }
}

fn event(id: &str, payload: MemoryEventPayload) -> MemoryEvent {
    MemoryEvent {
        event_id: EventId(id.into()),
        schema_version: SchemaVersion(1),
        provenance: provenance(),
        payload,
    }
}

fn node(id: &str, kind: &str, scope: &str) -> MemoryEvent {
    event(
        &format!("event:{id}"),
        MemoryEventPayload::MemoryNodeAppended {
            node_id: NodeId(id.into()),
            kind: kind.into(),
            content_ref: ContentRef(format!("content:{id}")),
            tier: StabilityTier::Working,
            confidence: Confidence(0.5f32.to_bits()),
            scope: Scope(scope.into()),
            resting_activation: RestingActivation(0.1f32.to_bits()),
            recency: Recency(10),
        },
    )
}

fn intention(id: &str, trigger: &str) -> MemoryEvent {
    event(
        &format!("created:{id}"),
        MemoryEventPayload::ProspectiveIntentionCreated {
            intention_id: IntentionId(id.into()),
            source: IntentionSource::Commitment,
            trigger: IntentionTriggerRef(trigger.into()),
            schedule: None,
        },
    )
}

fn user_candidate(id: &str) -> MemoryEvent {
    event(
        &format!("user:{id}"),
        MemoryEventPayload::UserAttributeCandidateCreated {
            candidate_id: CandidateId(id.into()),
            attribute: UserAttributeRef("review-style".into()),
            value: UserAttributeValueRef("rigorous".into()),
            evidence: vec![EvidenceRef("event:1".into())],
            confidence: Confidence(0.9f32.to_bits()),
            first_at: 10,
            last_at: 20,
            stability: StabilityTier::Stable,
            scope: Scope("workspace:test".into()),
            conflicts: Vec::new(),
            feedback: Vec::new(),
        },
    )
}

#[test]
fn replay_keeps_graph_entries_in_identifier_order() {
    let state = rebuild_memory(vec![
        node("node-b", "episodic", "workspace:alpha"),
        node("node-a", "unknown-kind", "memory|session|ws|label"),
        event(
            "event:edge",
            MemoryEventPayload::MemoryEdgeAppended {
                edge_id: EdgeId("edge-a-b".into()),
                from: NodeId("node-a".into()),
                to: NodeId("node-b".into()),
                kind: "temporal".into(),
                weight: Weight(1.0f32.to_bits()),
            },
        ),
        event("event:other", MemoryEventPayload::Other),
        event(
            "event:import",
            MemoryEventPayload::ImportedHistoricalEvidenceRecorded {
                source: HistoricalSourceRef("archive:notes".into()),
            },
        ),
    ]);
    let ids: Vec<&str> = state.nodes.iter().map(|n| n.id.0.as_str()).collect();
    assert_eq!(ids, vec!["node-a", "node-b"]);
    assert_eq!(state.nodes[0].kind, NodeKind::Fact);
    assert_eq!(state.nodes[1].kind, NodeKind::Episodic);
    assert_eq!(state.nodes[1].scope.slice, TimeSlice::Daily);
    assert_eq!(state.nodes[1].scope.scope, Scope("workspace:alpha".into()));
    assert_eq!(state.nodes[0].scope.slice, TimeSlice::Session);
    assert_eq!(state.node_events[0].event_id, EventId("event:node-a".into()));
    assert_eq!(state.edges.len(), 1);
    assert_eq!(state.edges[0].kind, EdgeKind::Temporal);
    assert_eq!(state.imported_history.len(), 1);
    assert!(state.imported_history[0].low_weight && state.imported_history[0].bootstrap_only);

    let again = rebuild_memory(vec![
        node("node-a", "episodic", "workspace:alpha"),
        node("node-a", "goal", "workspace:beta"),
    ]);
    assert_eq!(again.nodes.len(), 1);
    assert_eq!(again.nodes[0].kind, NodeKind::Goal);
}

#[test]
fn candidate_events_move_candidates_and_stable_attributes() {
    let mut state = rebuild_memory(vec![
        user_candidate("candidate:user"),
        event(
            "event:candidate",
            MemoryEventPayload::CandidateCreated {
                candidate_id: CandidateId("candidate:user".into()),
                target: CandidateTargetRef("user-attribute:review-style".into()),
                evidence_refs: vec![EvidenceRef("event:1".into())],
                confidence: Confidence(0.9f32.to_bits()),
                provenance: provenance(),
                target_tier: StabilityTier::Stable,
                capability_update: None,
            },
        ),
    ]);
    let id = CandidateId("candidate:user".into());
    let attribute = UserAttributeRef("review-style".into());
    let scope = Scope("workspace:test".into());
    assert_eq!(candidate_state_of(&state, &id), Some(CandidateState::Candidate));
    assert!(user_attribute(&state, &attribute, &scope).is_none());

    fold_event(&mut state, event("event:promoted", MemoryEventPayload::CandidatePromoted { candidate_id: id.clone() }));
    assert_eq!(candidate_state_of(&state, &id), Some(CandidateState::Promoted));
    let stable = user_attribute(&state, &attribute, &scope).unwrap();
    assert_eq!(stable.value, UserAttributeValueRef("rigorous".into()));
    assert_eq!(stable.evidence, vec![EvidenceRef("event:1".into())]);

    fold_event(&mut state, event("event:downgraded", MemoryEventPayload::CandidateDowngraded { candidate_id: id.clone() }));
    assert_eq!(candidate_state_of(&state, &id), Some(CandidateState::Downgraded));
    assert!(user_attribute(&state, &attribute, &scope).is_none());

    apply_candidate_transition(&mut state, &id, CandidateState::Decayed, Actor::System);
    assert_eq!(candidate_state_of(&state, &id), Some(CandidateState::Decayed));
    assert_eq!(state.candidates[0].decided_by, Some(Actor::System));
    fold_event(&mut state, event("event:rejected-unknown", MemoryEventPayload::CandidateRejected {
        candidate_id: CandidateId("candidate:missing".into()),
    }));
    assert_eq!(candidate_state_of(&state, &CandidateId("candidate:missing".into())), None);
}

#[test]
fn intentions_are_leased_fired_and_resolved_from_events() {
    let id = IntentionId("intention:review".into());
    let mut state = rebuild_memory(vec![intention("intention:review", "at:100|seed=review|expires=500")]);
    let record = &state.intentions[0];
    assert_eq!(record.intention.trigger, IntentionTrigger::At(100));
    assert_eq!(record.intention.seed.0, "review");
    assert_eq!(record.intention.expires_at, Some(500));
    assert_eq!(record.intention.state, IntentionState::Pending);

    let lease = intention_lease_ref(&EventId("created:intention:review".into()), 199, &id);
    fold_event(&mut state, event("event:lease", MemoryEventPayload::MemoryMaintenanceApplied { deltas_ref: lease }));
    assert_eq!(state.intentions[0].lease_until, Some(199));
    assert_eq!(state.intentions[0].claim_generation, EventId("event:lease".into()));
    assert!(plan_due_claims(&state, 150, 50, None, 4).is_empty());

    fold_event(&mut state, event("event:fired", MemoryEventPayload::ProspectiveIntentionResolved {
        intention_id: id.clone(),
        outcome: IntentionOutcome::Fired,
    }));
    assert_eq!(state.intentions[0].intention.state, IntentionState::Fired);
    assert_eq!(state.intentions[0].lease_until, Some(199));
    fold_event(&mut state, event("event:done", MemoryEventPayload::ProspectiveIntentionResolved {
        intention_id: id.clone(),
        outcome: IntentionOutcome::Done,
    }));
    assert_eq!(state.intentions[0].intention.state, IntentionState::Done);
    assert_eq!(state.intentions[0].lease_until, None);
    assert!(plan_due_claims(&state, 300, 50, None, 4).is_empty());
}

#[test]
fn claim_plans_follow_identifier_order_and_stop_at_the_cap() {
    let mut state = rebuild_memory(vec![
        intention("intention:b", "at:100|seed=b|expires="),
        intention("intention:a", "at:100|seed=a|expires="),
        intention("intention:c", "at:100|seed=c|expires=120"),
        intention("intention:d", "at:900|seed=d|expires="),
        intention("intention:e", "event:RunStarted|seed=e|expires="),
    ]);
    assert!(plan_due_claims(&state, 150, 0, None, 4).is_empty());
    assert!(plan_due_claims(&state, 150, 50, None, 0).is_empty());
    assert!(plan_due_claims(&state, 150, 50, Some(true), 4).is_empty());
    let plan = plan_due_claims(&state, 150, 50, None, 4);
    assert_eq!(
        plan,
        vec![
            (IntentionId("intention:a".into()), ClaimStep::Claim(200)),
            (IntentionId("intention:b".into()), ClaimStep::Claim(200)),
            (IntentionId("intention:c".into()), ClaimStep::Expire),
        ]
    );
    let capped = plan_due_claims(&state, 150, 50, Some(false), 1);
    assert_eq!(capped, vec![(IntentionId("intention:a".into()), ClaimStep::Claim(200))]);
    let saturated = plan_due_claims(&state, i64::MAX - 1, 50, None, 1);
    assert_eq!(saturated, vec![(IntentionId("intention:a".into()), ClaimStep::Claim(i64::MAX))]);

    for (id, step) in plan {
        apply_claim(&mut state, &id, step, &EventId(format!("claim:{}", id.0)));
    }
    assert_eq!(state.intentions[0].intention.state, IntentionState::Fired);
    assert_eq!(state.intentions[0].lease_until, Some(200));
    assert_eq!(state.intentions[0].claim_generation, EventId("claim:intention:a".into()));
    assert_eq!(state.intentions[2].intention.state, IntentionState::Expired);
    assert_eq!(state.intentions[2].lease_until, None);
    assert!(plan_due_claims(&state, 180, 50, None, 4).is_empty());
    assert_eq!(
        plan_due_claims(&state, 200, 50, None, 4),
        vec![
            (IntentionId("intention:a".into()), ClaimStep::Claim(250)),
            (IntentionId("intention:b".into()), ClaimStep::Claim(250)),
        ]
    );
    let before = state.intentions.clone();
    apply_claim(&mut state, &IntentionId("intention:a".into()), ClaimStep::Skip, &EventId("skip".into()));
    apply_claim(&mut state, &IntentionId("intention:missing".into()), ClaimStep::Expire, &EventId("x".into()));
    assert_eq!(state.intentions, before);
    let empty = MemoryState::new();
    assert!(plan_due_claims(&empty, 150, 50, None, 4).is_empty());
}

fn dated_node(id: &str, content: &str, scope: &str, recency: i64) -> MemoryEvent {
    event(
        &format!("event:{id}"),
        MemoryEventPayload::MemoryNodeAppended {
            node_id: NodeId(id.into()),
            kind: "episodic".into(),
            content_ref: ContentRef(content.into()),
            tier: StabilityTier::Working,
            confidence: Confidence(0.5f32.to_bits()),
            scope: Scope(scope.into()),
            resting_activation: RestingActivation(0.1f32.to_bits()),
            recency: Recency(recency),
        },
    )
}

fn daily(scope: &str) -> MemoryScope {
    MemoryScope { schema_version: SchemaVersion(1), slice: TimeSlice::Daily, workspace: None, scope: Scope(scope.into()) }
}

#[test]
fn scoped_search_and_recall_return_matches_newest_first() {
    let state = rebuild_memory(vec![
        dated_node("node-1", "release notes draft", "project-a", 10),
        dated_node("node-2", "release checklist", "project-a", 30),
        dated_node("node-3", "release plan", "project-b", 50),
        dated_node("node-4", "lunch order", "project-a", 40),
        dated_node("node-5", "release retro", "project-a", 30),
    ]);
    let query = ScopedMemoryQuery {
        schema_version: SchemaVersion(1),
        requester: daily("project-a"),
        target: daily("project-a"),
        query: "release".into(),
        limit: 10,
    };
    let hits = search_scoped(&state, &query).unwrap();
    let ids: Vec<&str> = hits.iter().map(|hit| hit.reference.node.0.as_str()).collect();
    assert_eq!(ids, vec!["node-2", "node-5", "node-1"]);
    assert_eq!(hits[0].reference.recency, 30);
    assert_eq!(hits[0].provenance, provenance());

    let mut limited = query.clone();
    limited.limit = 1;
    assert_eq!(search_scoped(&state, &limited).unwrap().len(), 1);
    let mut everything = query.clone();
    everything.query = String::new();
    assert_eq!(search_scoped(&state, &everything).unwrap().len(), 4);
    let mut crossing = query.clone();
    crossing.target = daily("project-b");
    assert_eq!(
        search_scoped(&state, &crossing).unwrap_err().0,
        "scoped memory query cannot cross its requester boundary".to_string()
    );
    let mut incomplete = query.clone();
    incomplete.limit = 0;
    assert_eq!(
        search_scoped(&state, &incomplete).unwrap_err().0,
        "scoped memory query is incomplete".to_string()
    );

    let cue = RecallCue { schema_version: SchemaVersion(1), scope: daily("project-a"), query: "release".into() };
    let recalled = recall(&state, &cue, 2);
    let ids: Vec<&str> = recalled.iter().map(|r| r.node.0.as_str()).collect();
    assert_eq!(ids, vec!["node-2", "node-5"]);
    assert!(recall(&state, &cue, 0).is_empty());
}

#[test]
fn intention_resolutions_follow_the_lifecycle() {
    let id = IntentionId("intention:review".into());
    let mut state = rebuild_memory(vec![intention("intention:review", "at:100|seed=review|expires=")]);
    assert!(plan_intention_resolution(&state, &IntentionId("intention:missing".into()), IntentionOutcome::Done).is_err());
    assert!(plan_intention_resolution(&state, &id, IntentionOutcome::Done).is_err());
    assert_eq!(plan_intention_resolution(&state, &id, IntentionOutcome::Cancelled), Ok(true));
    fold_event(&mut state, event("event:cancelled", MemoryEventPayload::ProspectiveIntentionResolved {
        intention_id: id.clone(),
        outcome: IntentionOutcome::Cancelled,
    }));
    assert_eq!(plan_intention_resolution(&state, &id, IntentionOutcome::Cancelled), Ok(false));
    assert!(plan_intention_resolution(&state, &id, IntentionOutcome::Fired).is_err());
}

#[test]
fn intention_claim_lease_survives_rebuild_and_resolution_is_idempotent() {
    let id = IntentionId("intention:review".into());
    let mut events = vec![event(
        "memory:intention-test:1",
        MemoryEventPayload::ProspectiveIntentionCreated {
            intention_id: id.clone(),
            source: IntentionSource::Commitment,
            trigger: IntentionTriggerRef("at:100|seed=review|expires=".into()),
            schedule: None,
        },
    )];
    let memory = rebuild_memory(events.clone());
    let claims = plan_due_claims(&memory, 100, 100, None, usize::MAX);
    assert_eq!(claims, vec![(id.clone(), ClaimStep::Claim(200))]);
    let generation = memory.intentions[0].claim_generation.clone();
    events.push(event(
        "memory:intention-test:2",
        MemoryEventPayload::MemoryMaintenanceApplied {
            deltas_ref: intention_lease_ref(&generation, 200, &id),
        },
    ));
    events.push(event(
        "memory:intention-test:3",
        MemoryEventPayload::ProspectiveIntentionResolved {
            intention_id: id.clone(),
            outcome: IntentionOutcome::Fired,
        },
    ));
    let memory = rebuild_memory(events.clone());
    assert!(plan_due_claims(&memory, 150, 100, None, usize::MAX).is_empty());

    let mut rebuilt = rebuild_memory(events);
    assert!(plan_due_claims(&rebuilt, 199, 100, None, usize::MAX).is_empty());
    let reclaimed = plan_due_claims(&rebuilt, 200, 100, None, usize::MAX);
    assert_eq!(reclaimed.len(), 1);
    assert_eq!(rebuilt.intentions[0].intention.seed.0, "review");
    rebuilt.resolve(&id, IntentionOutcome::Done, &EventId("memory:intention-test:4".into())).unwrap();
    rebuilt.resolve(&id, IntentionOutcome::Done, &EventId("memory:intention-test:5".into())).unwrap();
    assert_eq!(rebuilt.intentions[0].claim_generation, EventId("memory:intention-test:4".into()));
    assert!(plan_due_claims(&rebuilt, 500, 100, None, usize::MAX).is_empty());
    assert!(rebuilt.resolve(&IntentionId("intention:missing".into()), IntentionOutcome::Done, &EventId("x".into())).is_err());
}

fn schedule_command(id: &str, budget: &str) -> forme::control::ScheduleCommand {
    forme::control::ScheduleCommand {
        schema_version: SchemaVersion(1),
        intention: forme::control::ProspectiveIntention {
            schema_version: SchemaVersion(1),
            id: IntentionId(id.into()),
            source: IntentionSource::Commitment,
            trigger: forme::control::IntentionTrigger::At(100),
            state: forme::control::IntentionState::Pending,
            seed: SeedRef("continue the release goal".into()),
            provenance: provenance(),
            expires_at: Some(900),
        },
        session: SessionId("session:long-term".into()),
        envelope: AutonomyEnvelope {
            schema_version: SchemaVersion(1),
            scope: Scope("workspace:alpha/goal:release".into()),
            capability: CapabilitySet {
                schema_version: SchemaVersion(1),
                capabilities: vec![CapabilityRef("capability:planner".into())],
                permissions: vec![PermissionRef("permission:read".into())],
            },
            action_type: vec![ActionType::Analyze],
            risk_limit: Risk::Low,
            approval_rule: ApprovalRule::Ask,
            budget: Budget("units:4".into()),
            timebox: Timebox { schema_version: SchemaVersion(1), starts_at: 10, expires_at: 1_000, max_turns: 4 },
            rollback: RollbackReq {
                schema_version: SchemaVersion(1),
                required: true,
                boundary: Some(RollbackBoundary("discard prepared result".into())),
            },
        },
        budget: Budget(budget.into()),
    }
}

#[test]
fn schedule_creation_is_idempotent_and_refuses_colliding_ids() {
    let command = schedule_command("intention:release:1", "units:4");
    let empty = MemoryState::new();
    assert_eq!(plan_schedule_creation(&empty, &command), Ok(true));
    assert!(plan_goal_schedule_creation(&empty, &forme::primitives::GoalFrameRef(" ".into()), &command).is_err());
    let intention = intention_from_protocol(&command.intention);
    let state = rebuild_memory(vec![event(
        "event:schedule",
        MemoryEventPayload::ProspectiveIntentionCreated {
            intention_id: intention.id.clone(),
            source: intention.source,
            trigger: intention_storage_ref(&intention),
            schedule: Some(command.binding()),
        },
    )]);
    assert_eq!(plan_schedule_creation(&state, &command), Ok(false));
    assert_eq!(
        plan_goal_schedule_creation(&state, &forme::primitives::GoalFrameRef("goal-frame:release".into()), &command),
        Ok(false)
    );
    let rebound = schedule_command("intention:release:1", "units:9");
    assert_eq!(
        plan_schedule_creation(&state, &rebound).unwrap_err().0,
        "intention id collision".to_string()
    );
    assert_eq!(plan_schedule_creation(&state, &schedule_command("intention:release:2", "units:4")), Ok(true));
}

#[test]
fn a_claim_pass_resumes_after_an_intention_it_could_not_lease() {
    let state = rebuild_memory(vec![
        intention("intention:a", "at:100|seed=a|expires="),
        intention("intention:b", "at:100|seed=b|expires="),
        intention("intention:c", "at:100|seed=c|expires="),
    ]);
    let first = plan_due_claims(&state, 150, 50, None, 2);
    assert_eq!(first.len(), 2);
    let resumed = plan_due_claims_after(&state, &IntentionId("intention:a".into()), 150, 50, None, 2);
    assert_eq!(
        resumed,
        vec![
            (IntentionId("intention:b".into()), ClaimStep::Claim(200)),
            (IntentionId("intention:c".into()), ClaimStep::Claim(200)),
        ]
    );
    assert!(plan_due_claims_after(&state, &IntentionId("intention:c".into()), 150, 50, None, 2).is_empty());
    assert!(plan_due_claims_after(&state, &IntentionId("intention:a".into()), 150, 0, None, 2).is_empty());
}
