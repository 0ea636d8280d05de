use forme::m2_c::{SyncTransferEvent, SyncTransferPayload};
use forme::event::EventKind;
use forme::m4::{
    m4_schema, FederationSnapshot, RemoteOperation, ReplicationBatch, ReplicationCursor,
};
use forme::action::{
    contains_host_path, unsafe_path, ActionParameters, AppApiActionSpec, AppApiOperation,
};
use forme::primitives::{
    ActionType, BackendKind, CapabilityRef, CredentialRef, DurationMs, ExecutorCredentialSlotRef,
    ExpectedEffect, ProviderId, RollbackBoundary, Scope,
    Actor, AuthorityEpoch, AuthorityRef, EventId, FederatedPeerGrantRef, FederatedPeerRef,
    Provenance, ReasonRef, RedactionPolicyRef, ReplicationBatchRef, RunId, SchemaDigest,
    SchemaVersion, Source, TrustTier,
};

#[test]
fn empty_snapshot_is_valid_and_deterministic() {
    let snapshot = FederationSnapshot::empty(AuthorityRef("authority:test".into()));
    snapshot
        .validate()
        .expect("empty local federation snapshot");
    assert!(snapshot.digest.0.starts_with("sha256:"));
}

#[test]
fn remote_parameters_cannot_recurse_or_carry_secret() {
    let operation = RemoteOperation {
        schema_version: m4_schema(),
        backend: BackendKind::AppApi,
        parameters: ActionParameters::AppApi(AppApiActionSpec {
            schema_version: m4_schema(),
            connector: ProviderId("connector".into()),
            endpoint: "https://example.invalid".into(),
            schema_digest: SchemaDigest("sha256:schema".into()),
            credential: Some(CredentialRef("central-secret".into())),
            operation: AppApiOperation::Read,
            timeout: DurationMs(1000),
            participant: None,
            representation: None,
            disclosure_request: None,
        }),
        capability: CapabilityRef("api.read".into()),
        scope: Scope("workspace:test".into()),
        action_type: ActionType::Observe,
        expected_effect: ExpectedEffect::Internal,
        rollback_boundary: RollbackBoundary("none".into()),
        credential_slot: Some(ExecutorCredentialSlotRef("slot:api".into())),
        digest: SchemaDigest("sha256:operation".into()),
    };
    assert!(operation.validate().is_err());
}

#[test]
fn replication_batch_rejects_gap() {
    let peer = FederatedPeerRef("peer:1".into());
    let aggregate = RunId("run:1".into());
    let epoch = AuthorityEpoch(1);
    let mut batch = ReplicationBatch {
        schema_version: m4_schema(),
        batch: ReplicationBatchRef("batch:1".into()),
        peer: peer.clone(),
        peer_grant: FederatedPeerGrantRef("grant:1".into()),
        aggregate: aggregate.clone(),
        from: ReplicationCursor::zero(peer.clone(), aggregate.clone(), epoch),
        to: ReplicationCursor {
            schema_version: m4_schema(),
            peer: peer.clone(),
            aggregate: aggregate.clone(),
            stream_seq: 2,
            authority_epoch: epoch,
        },
        redaction: RedactionPolicyRef("m4-safe".into()),
        events: Vec::new(),
        content_digest: SchemaDigest("sha256:batch".into()),
    };
    assert!(batch.validate().is_err());
    batch.to.stream_seq = 1;
    assert!(batch.validate().is_err());
}

fn transfer_event(seq: u64) -> SyncTransferEvent {
    SyncTransferEvent {
        schema_version: SchemaVersion(1),
        event_id: EventId(format!("event:{seq}")),
        aggregate: RunId("run:1".into()),
        source_stream_seq: seq,
        turn_id: None,
        kind: EventKind::RunAccepted,
        payload: SyncTransferPayload::Redacted {
            kind: EventKind::RunAccepted,
            reason: ReasonRef("redacted".into()),
            digest: SchemaDigest("sha256:payload".into()),
        },
        event_schema_version: SchemaVersion(1),
        ts_unix_ms: 100 + seq as i64,
        provenance: Provenance {
            source: Source::Internal,
            actor: Actor::System,
            trust_tier: TrustTier::VerifiedProcess,
            caused_by: None,
        },
    }
}

fn contiguous_batch(events: Vec<SyncTransferEvent>, to: u64) -> ReplicationBatch {
    let peer = FederatedPeerRef("peer:1".into());
    let aggregate = RunId("run:1".into());
    let epoch = AuthorityEpoch(1);
    ReplicationBatch {
        schema_version: m4_schema(),
        batch: ReplicationBatchRef("batch:1".into()),
        peer: peer.clone(),
        peer_grant: FederatedPeerGrantRef("grant:1".into()),
        aggregate: aggregate.clone(),
        from: ReplicationCursor::zero(peer.clone(), aggregate.clone(), epoch),
        to: ReplicationCursor {
            schema_version: m4_schema(),
            peer,
            aggregate,
            stream_seq: to,
            authority_epoch: epoch,
        },
        redaction: RedactionPolicyRef("m4-safe".into()),
        events,
        content_digest: SchemaDigest(String::new()),
    }
}

#[test]
fn refreshed_contiguous_replication_batch_validates() {
    let mut batch = contiguous_batch(vec![transfer_event(1), transfer_event(2)], 2);
    assert!(batch.validate().is_err());
    batch.refresh_digest().unwrap();
    assert!(batch.content_digest.0.starts_with("sha256:"));
    assert_eq!(batch.content_digest.0.len(), 71);
    batch.validate().expect("contiguous batch with its own digest");
}

#[test]
fn replication_batch_with_a_gap_in_its_events_is_rejected() {
    let mut batch = contiguous_batch(vec![transfer_event(1), transfer_event(3)], 3);
    batch.refresh_digest().unwrap();
    assert!(batch.validate().is_err());
}

#[test]
fn replication_batch_digest_covers_its_events() {
    let mut batch = contiguous_batch(vec![transfer_event(1), transfer_event(2)], 2);
    batch.refresh_digest().unwrap();
    let before = batch.content_digest.clone();
    batch.events[1].ts_unix_ms += 1;
    assert!(batch.validate().is_err());
    batch.refresh_digest().unwrap();
    assert_ne!(before, batch.content_digest);
    batch.validate().expect("refreshed batch");
}

#[test]
fn empty_snapshot_digest_is_stable_and_depends_on_authority() {
    let a = FederationSnapshot::empty(AuthorityRef("authority:test".into()));
    let b = FederationSnapshot::empty(AuthorityRef("authority:test".into()));
    let c = FederationSnapshot::empty(AuthorityRef("authority:other".into()));
    assert_eq!(a.digest, b.digest);
    assert_ne!(a.digest, c.digest);
    assert!(FederationSnapshot::empty(AuthorityRef("  ".into())).validate().is_err());
}

#[test]
fn remote_operations_naming_a_rooted_or_parent_path_are_refused() {
    for bad in ["../x", "a/../b", "..", "a/..", "/etc/passwd", "/"] {
        assert!(unsafe_path(bad), "{bad}");
    }
    for good in ["a/b", "work", "a/..b", "..a/b", "a/.b"] {
        assert!(!unsafe_path(good), "{good}");
    }
    let shell = |cwd: &str| ActionParameters::Shell {
        program: "git".into(),
        args: vec!["status".into()],
        cwd: Some(cwd.into()),
        network: false,
    };
    assert!(contains_host_path(&shell("../outside")));
    assert!(!contains_host_path(&shell("work")));
    let mut operation = RemoteOperation {
        schema_version: m4_schema(),
        backend: BackendKind::Shell,
        parameters: shell("../outside"),
        capability: CapabilityRef("shell.run".into()),
        scope: Scope("workspace:test".into()),
        action_type: ActionType::Analyze,
        expected_effect: ExpectedEffect::Internal,
        rollback_boundary: RollbackBoundary("none".into()),
        credential_slot: None,
        digest: SchemaDigest("sha256:pending".into()),
    };
    operation.refresh_digest().unwrap();
    assert_eq!(
        operation.validate().unwrap_err().0,
        "remote operation contains a host path".to_string()
    );
    operation.parameters = shell("work/dir");
    operation.refresh_digest().unwrap();
    assert_eq!(operation.validate(), Ok(()));
}
