//! Federated runtime contracts: peer grants, the federation snapshot, remote
//! execution leases and receipts, the remote wire, replication, retention,
//! placement, checkpoint handoff and device signals.
use vstd::prelude::*;

use crate::action::{
    contains_host_path, host_paths, ActionIntent, ActionParameters, RemotePlacementPlan,
};
pub use crate::action::{RemoteActionSpec, RemoteOperation};
use crate::canon::{
    canonical_digest, canonical_digest_text, json_bool, json_int, json_null, json_opt_text, json_string,
    put_bool, put_i64, put_key, put_mark, put_names, put_null, put_opt_text, put_str, put_texts, put_u64,
    with_key, with_names, with_texts, Named,
};
use crate::event::EventKind;
use crate::m2_c::{
    put_transfer_events, with_transfer_events, GoalCheckpoint, SyncTransferEvent, };
use crate::m3_a::InFlightDisposition;
use crate::primitives::{
    ActionId, ApprovalId, ApprovalOutcome, BackendKind, Source, AuthorityEpoch, AuthorityRef, Budget, CapabilityEvidenceRef, CapabilityRef,
    ContentRef, DoneContractRef, Error, EventId, EvidenceRef, EvolutionSnapshotRef,
    ExecutorProfileRef, FailureEvidenceRef, FederatedCheckpointArtifactRef,
    FederatedDeviceSignalRef, FederatedPeerGrantRef, FederatedPeerRef, FederatedSessionRef,
    FederationAggregateRef, FederationSnapshotRef, FenceToken, ModelProfileRef, Nonce,
    OwnerControlRef, PeerGrantVersion, PlacementDecisionRef, PlanDigest, PolicyProfileRef,
    ReasonRef, RedactionPolicyRef, RemoteDispatchId, RemoteDriverReceiptRef,
    RemoteExecutionLeaseRef, RemoteExecutionReceiptRef, RemotePlacementPlanRef,
    RemoteWireRequestRef, ReplicaProjectionDigestRef, ReplicationBatchRef, RequiredTrue,
    RetentionReceiptRef, RetentionRequestRef, RollbackBoundary, RunId, SchemaDigest,
    SchemaVersion, Scope, Timestamp, ToolsetRef, TransportIdentityDigest, VerificationOutcome,
    VerifiedPrincipal,
};
use crate::tags::{check_tags_increasing, tags_increasing, Tagged};
use crate::text::{
    all_filled, blank, check_all_filled, check_distinct_texts, check_none_blank,
    check_strictly_sorted, distinct_texts, duplicate_all, is_blank, none_blank, same_text,
    strictly_sorted, Duplicate, Textual,
};

verus! {

pub open spec fn m4_schema_version() -> SchemaVersion {
    SchemaVersion(1)
}

/// The schema version of the federated runtime's objects.
pub fn m4_schema() -> (r: SchemaVersion)
    ensures
        r == m4_schema_version(),
{
    SchemaVersion(1)
}

#[derive(Debug, Clone, Copy, PartialEq, Eq, Hash, PartialOrd, Ord, Structural)]
pub enum FederatedPeerRole {
    OwnerClient,
    Executor,
    Replica,
}

impl Tagged for FederatedPeerRole {
    open spec fn tag(&self) -> nat {
        match self {
            FederatedPeerRole::OwnerClient => 0,
            FederatedPeerRole::Executor => 1,
            FederatedPeerRole::Replica => 2,
        }
    }

    fn tag_of(&self) -> (r: u8) {
        match self {
            FederatedPeerRole::OwnerClient => 0,
            FederatedPeerRole::Executor => 1,
            FederatedPeerRole::Replica => 2,
        }
    }
}


impl Named for FederatedPeerRole {
    open spec fn wire_name(&self) -> Seq<char> {
        match self {
            FederatedPeerRole::OwnerClient => "OwnerClient"@,
            FederatedPeerRole::Executor => "Executor"@,
            FederatedPeerRole::Replica => "Replica"@,
        }
    }

    fn wire_str(&self) -> (r: &'static str) {
        match self {
            FederatedPeerRole::OwnerClient => "OwnerClient",
            FederatedPeerRole::Executor => "Executor",
            FederatedPeerRole::Replica => "Replica",
        }
    }
}

#[derive(Debug, Clone, PartialEq, Eq)]
pub struct FederationAggregateVersion {
    pub schema_version: SchemaVersion,
    pub aggregate: FederationAggregateRef,
    pub version: u64,
}

impl FederationAggregateVersion {
    pub open spec fn valid(&self) -> bool {
        self.schema_version.0 != 0 && !is_blank(self.aggregate.0@)
    }

    pub fn validate(&self) -> (r: Result<(), Error>)
        ensures
            r is Ok <==> self.valid(),
    {
        if self.schema_version.0 == 0 {
            return Err(Error("federation aggregate version schema is invalid".to_string()));
        }
        if blank(self.aggregate.0.as_str()) {
            return Err(Error("federation aggregate is incomplete".to_string()));
        }
        Ok(())
    }

    /// The same aggregate one version on, for a valid version that is not the last.
    pub fn next(&self) -> (r: Result<Self, Error>)
        ensures
            r is Ok <==> self.valid() && self.version < u64::MAX,
            r matches Ok(n) ==> n.schema_version == self.schema_version && n.aggregate
                == self.aggregate && n.version == self.version + 1,
    {
        self.validate()?;
        if self.version == u64::MAX {
            return Err(Error("federation aggregate version is exhausted".to_string()));
        }
        Ok(
            FederationAggregateVersion {
                schema_version: self.schema_version,
                aggregate: self.aggregate.duplicate(),
                version: self.version + 1,
            },
        )
    }

    /// The canonical form, written after `acc`.
    pub open spec fn put_canonical(&self, acc: Seq<u8>) -> Seq<u8> {
        let a = with_key(acc + seq![0x7bu8], "schema_version"@) + json_int(
            self.schema_version.0 as int,
        );
        let a = with_key(a + seq![0x2cu8], "aggregate"@) + json_string(self.aggregate.0@);
        let a = with_key(a + seq![0x2cu8], "version"@) + json_int(self.version as int);
        a + seq![0x7du8]
    }

    pub fn write_canonical(&self, buf: &mut Vec<u8>)
        ensures
            final(buf)@ == self.put_canonical(old(buf)@),
    {
        put_mark(buf, 0x7b);
        put_key(buf, "schema_version");
        put_u64(buf, self.schema_version.0 as u64);
        put_mark(buf, 0x2c);
        put_key(buf, "aggregate");
        put_str(buf, self.aggregate.0.as_str());
        put_mark(buf, 0x2c);
        put_key(buf, "version");
        put_u64(buf, self.version);
        put_mark(buf, 0x7d);
    }
}

#[derive(Debug, Clone, PartialEq, Eq)]
pub struct FederatedPeerGrant {
    pub schema_version: SchemaVersion,
    pub peer: FederatedPeerRef,
    pub owner: VerifiedPrincipal,
    pub roles: Vec<FederatedPeerRole>,
    pub scopes: Vec<Scope>,
    pub capabilities: Vec<CapabilityRef>,
    pub transport_identity: TransportIdentityDigest,
    pub authority_epoch: AuthorityEpoch,
    pub grant_version: PeerGrantVersion,
    pub expires_at: Timestamp,
    pub created_by: OwnerControlRef,
}

impl FederatedPeerGrant {
    /// A complete grant whose roles, scopes and capabilities are sorted and free of repeats.
    pub open spec fn valid(&self) -> bool {
        &&& self.schema_version.0 != 0
        &&& self.roles@.len() > 0
        &&& self.scopes@.len() > 0
        &&& self.authority_epoch.0 != 0
        &&& self.expires_at > 0
        &&& !is_blank(self.peer.0@)
        &&& !is_blank(self.owner.0@)
        &&& !is_blank(self.transport_identity.0@)
        &&& !is_blank(self.created_by.0@)
        &&& self.grant_version.0 != 0
        &&& tags_increasing(self.roles@)
        &&& strictly_sorted(self.scopes@)
        &&& strictly_sorted(self.capabilities@)
    }

    pub fn validate(&self) -> (r: Result<(), Error>)
        ensures
            r is Ok <==> self.valid(),
    {
        if self.schema_version.0 == 0 || self.roles.len() == 0 || self.scopes.len() == 0
            || self.authority_epoch.0 == 0 || self.expires_at <= 0 {
            return Err(Error("federated peer grant is incomplete".to_string()));
        }
        if blank(self.peer.0.as_str()) || blank(self.owner.0.as_str()) || blank(
            self.transport_identity.0.as_str(),
        ) || blank(self.created_by.0.as_str()) {
            return Err(Error("federated peer grant is incomplete".to_string()));
        }
        self.grant_version.validate()?;
        if !check_tags_increasing(&self.roles) || !check_strictly_sorted(&self.scopes)
            || !check_strictly_sorted(&self.capabilities) {
            return Err(Error("federated peer grant lists must be sorted and unique".to_string()));
        }
        Ok(())
    }

    /// The canonical form of the whole grant.
    pub open spec fn canonical(&self) -> Seq<u8> {
        let a = with_key(seq![0x7bu8], "schema_version"@) + json_int(self.schema_version.0 as int);
        let a = with_key(a + seq![0x2cu8], "peer"@) + json_string(self.peer.0@);
        let a = with_key(a + seq![0x2cu8], "owner"@) + json_string(self.owner.0@);
        let a = with_names(with_key(a + seq![0x2cu8], "roles"@), self.roles@);
        let a = with_texts(with_key(a + seq![0x2cu8], "scopes"@), self.scopes@);
        let a = with_texts(with_key(a + seq![0x2cu8], "capabilities"@), self.capabilities@);
        let a = with_key(a + seq![0x2cu8], "transport_identity"@) + json_string(
            self.transport_identity.0@,
        );
        let a = with_key(a + seq![0x2cu8], "authority_epoch"@) + json_int(
            self.authority_epoch.0 as int,
        );
        let a = with_key(a + seq![0x2cu8], "grant_version"@) + json_int(
            self.grant_version.0 as int,
        );
        let a = with_key(a + seq![0x2cu8], "expires_at"@) + json_int(self.expires_at as int);
        let a = with_key(a + seq![0x2cu8], "created_by"@) + json_string(self.created_by.0@);
        a + seq![0x7du8]
    }

    pub fn encode(&self) -> (r: Vec<u8>)
        ensures
            r@ == self.canonical(),
    {
        let mut buf: Vec<u8> = Vec::new();
        put_mark(&mut buf, 0x7b);
        put_key(&mut buf, "schema_version");
        put_u64(&mut buf, self.schema_version.0 as u64);
        put_mark(&mut buf, 0x2c);
        put_key(&mut buf, "peer");
        put_str(&mut buf, self.peer.0.as_str());
        put_mark(&mut buf, 0x2c);
        put_key(&mut buf, "owner");
        put_str(&mut buf, self.owner.0.as_str());
        put_mark(&mut buf, 0x2c);
        put_key(&mut buf, "roles");
        put_names(&mut buf, &self.roles);
        put_mark(&mut buf, 0x2c);
        put_key(&mut buf, "scopes");
        put_texts(&mut buf, &self.scopes);
        put_mark(&mut buf, 0x2c);
        put_key(&mut buf, "capabilities");
        put_texts(&mut buf, &self.capabilities);
        put_mark(&mut buf, 0x2c);
        put_key(&mut buf, "transport_identity");
        put_str(&mut buf, self.transport_identity.0.as_str());
        put_mark(&mut buf, 0x2c);
        put_key(&mut buf, "authority_epoch");
        put_u64(&mut buf, self.authority_epoch.0);
        put_mark(&mut buf, 0x2c);
        put_key(&mut buf, "grant_version");
        put_u64(&mut buf, self.grant_version.0);
        put_mark(&mut buf, 0x2c);
        put_key(&mut buf, "expires_at");
        put_i64(&mut buf, self.expires_at);
        put_mark(&mut buf, 0x2c);
        put_key(&mut buf, "created_by");
        put_str(&mut buf, self.created_by.0.as_str());
        put_mark(&mut buf, 0x7d);
        assert(buf@ =~= Seq::<u8>::empty() + buf@);
        buf
    }

    /// A valid grant is referred to by the digest of its canonical form.
    pub fn reference(&self) -> (r: Result<FederatedPeerGrantRef, Error>)
        ensures
            r is Ok <==> self.valid(),
            r matches Ok(g) ==> g.0@ == canonical_digest_text(self.canonical()),
    {
        self.validate()?;
        let bytes = self.encode();
        Ok(FederatedPeerGrantRef(canonical_digest(&bytes).0))
    }
}

#[derive(Debug, Clone, PartialEq, Eq)]
pub struct FederationSnapshot {
    pub schema_version: SchemaVersion,
    pub authority: AuthorityRef,
    pub authority_epoch: AuthorityEpoch,
    pub registry_version: FederationAggregateVersion,
    pub grants: Vec<FederatedPeerGrantRef>,
    pub digest: SchemaDigest,
}

/// The canonical form of a snapshot's contents: its authority, epoch,
/// registry version and grants, as one JSON array.
pub open spec fn snapshot_material(
    authority: AuthorityRef,
    epoch: AuthorityEpoch,
    registry: FederationAggregateVersion,
    grants: Seq<FederatedPeerGrantRef>,
) -> Seq<u8> {
    let a = seq![0x5bu8] + json_string(authority.0@) + seq![0x2cu8] + json_int(epoch.0 as int)
        + seq![0x2cu8];
    let a = registry.put_canonical(a);
    with_texts(a + seq![0x2cu8], grants) + seq![0x5du8]
}

fn encode_snapshot_material(
    authority: &AuthorityRef,
    epoch: AuthorityEpoch,
    registry: &FederationAggregateVersion,
    grants: &Vec<FederatedPeerGrantRef>,
) -> (r: Vec<u8>)
    ensures
        r@ == snapshot_material(*authority, epoch, *registry, grants@),
{
    let mut buf: Vec<u8> = Vec::new();
    put_mark(&mut buf, 0x5b);
    put_str(&mut buf, authority.0.as_str());
    put_mark(&mut buf, 0x2c);
    put_u64(&mut buf, epoch.0);
    put_mark(&mut buf, 0x2c);
    registry.write_canonical(&mut buf);
    put_mark(&mut buf, 0x2c);
    put_texts(&mut buf, grants);
    put_mark(&mut buf, 0x5d);
    assert(buf@ =~= snapshot_material(*authority, epoch, *registry, grants@));
    buf
}

pub open spec fn is_federation_aggregate(t: Seq<char>) -> bool {
    t == "federation"@
}

fn federation_aggregate_name() -> (r: String)
    ensures
        r@ == "federation"@,
{
    let r = "federation".to_string();
    proof {
        broadcast use vstd::string::group_string_axioms;

    }
    r
}

impl FederationSnapshot {
    pub open spec fn material(&self) -> Seq<u8> {
        snapshot_material(self.authority, self.authority_epoch, self.registry_version, self.grants@)
    }

    /// A valid snapshot names its authority, tracks the `federation`
    /// aggregate, lists its grants in order, and carries the digest of its contents.
    pub open spec fn valid(&self) -> bool {
        &&& self.schema_version.0 != 0
        &&& !is_blank(self.authority.0@)
        &&& self.registry_version.valid()
        &&& is_federation_aggregate(self.registry_version.aggregate.0@)
        &&& !is_blank(self.digest.0@)
        &&& strictly_sorted(self.grants@)
        &&& self.digest.0@ == canonical_digest_text(self.material())
    }

    pub fn validate(&self) -> (r: Result<(), Error>)
        ensures
            r is Ok <==> self.valid(),
    {
        if self.schema_version.0 == 0 {
            return Err(Error("federation snapshot schema is invalid".to_string()));
        }
        if blank(self.authority.0.as_str()) {
            return Err(Error("authority is incomplete".to_string()));
        }
        self.registry_version.validate()?;
        if !same_text(&self.registry_version.aggregate.0, &federation_aggregate_name()) {
            return Err(Error("federation snapshot has the wrong aggregate".to_string()));
        }
        if blank(self.digest.0.as_str()) {
            return Err(Error("federation snapshot digest is incomplete".to_string()));
        }
        if !check_strictly_sorted(&self.grants) {
            return Err(Error("federation snapshot grants are not sorted".to_string()));
        }
        let material = encode_snapshot_material(
            &self.authority,
            self.authority_epoch,
            &self.registry_version,
            &self.grants,
        );
        let expected = canonical_digest(&material);
        if !same_text(&self.digest.0, &expected.0) {
            return Err(
                Error("federation snapshot digest does not match its contents".to_string()),
            );
        }
        Ok(())
    }

    /// The snapshot of a federation with no grants yet, at the initial epoch.
    pub fn empty(authority: AuthorityRef) -> (r: Self)
        ensures
            r.schema_version == m4_schema_version(),
            r.authority == authority,
            r.authority_epoch.0 == 0,
            r.registry_version.schema_version == m4_schema_version(),
            is_federation_aggregate(r.registry_version.aggregate.0@),
            r.registry_version.version == 0,
            r.grants@.len() == 0,
            r.digest.0@ == canonical_digest_text(r.material()),
            !is_blank(authority.0@) ==> r.valid(),
    {
        let registry_version = FederationAggregateVersion {
            schema_version: m4_schema(),
            aggregate: FederationAggregateRef(federation_aggregate_name()),
            version: 0,
        };
        let grants: Vec<FederatedPeerGrantRef> = Vec::new();
        let epoch = AuthorityEpoch::initial();
        let material = encode_snapshot_material(&authority, epoch, &registry_version, &grants);
        let digest = canonical_digest(&material);
        let r = FederationSnapshot {
            schema_version: m4_schema(),
            authority,
            authority_epoch: epoch,
            registry_version,
            grants,
            digest,
        };
        proof {
            reveal_strlit("federation");
            lemma_digest_text_not_blank(r.material());
        }
        r
    }
}

/// A digest text is never blank: it starts with `sha256:`.
pub proof fn lemma_digest_text_not_blank(canonical: Seq<u8>)
    ensures
        !is_blank(canonical_digest_text(canonical)),
{
    let t = canonical_digest_text(canonical);
    assert(t[0] == 's');
}

#[derive(Debug, Clone, Copy, PartialEq, Eq, Hash, Structural)]
pub enum RemoteLeaseState {
    Reserved,
    Acquired,
    Released,
    Expired,
    Fenced,
}

impl Named for RemoteLeaseState {
    open spec fn wire_name(&self) -> Seq<char> {
        match self {
            RemoteLeaseState::Reserved => "Reserved"@,
            RemoteLeaseState::Acquired => "Acquired"@,
            RemoteLeaseState::Released => "Released"@,
            RemoteLeaseState::Expired => "Expired"@,
            RemoteLeaseState::Fenced => "Fenced"@,
        }
    }

    fn wire_str(&self) -> (r: &'static str) {
        match self {
            RemoteLeaseState::Reserved => "Reserved",
            RemoteLeaseState::Acquired => "Acquired",
            RemoteLeaseState::Released => "Released",
            RemoteLeaseState::Expired => "Expired",
            RemoteLeaseState::Fenced => "Fenced",
        }
    }
}

impl RemoteLeaseState {
    pub open spec fn is_terminal(self) -> bool {
        self == RemoteLeaseState::Released || self == RemoteLeaseState::Expired || self
            == RemoteLeaseState::Fenced
    }

    /// Released, expired and fenced leases are finished.
    pub fn terminal(self) -> (r: bool)
        ensures
            r == self.is_terminal(),
    {
        match self {
            RemoteLeaseState::Released | RemoteLeaseState::Expired | RemoteLeaseState::Fenced => true,
            _ => false,
        }
    }
}

#[derive(Debug, Clone, PartialEq, Eq)]
pub struct RemoteExecutionLease {
    pub schema_version: SchemaVersion,
    pub lease: RemoteExecutionLeaseRef,
    pub dispatch: RemoteDispatchId,
    pub intent: ActionId,
    pub plan_digest: PlanDigest,
    pub placement: RemotePlacementPlanRef,
    pub executor: FederatedPeerRef,
    pub peer_grant: FederatedPeerGrantRef,
    pub grant_version: PeerGrantVersion,
    pub authority_epoch: AuthorityEpoch,
    pub fence: FenceToken,
    pub expires_at: Timestamp,
    pub state: RemoteLeaseState,
}

#[derive(Debug, Clone, Copy, PartialEq, Eq, Hash, Structural)]
pub enum RemoteDispatchClaimStatus {
    Reserved,
    Claimed,
    AlreadyAttempted,
}

#[derive(Debug, Clone, PartialEq, Eq)]
pub struct RemoteDispatchClaim {
    pub schema_version: SchemaVersion,
    pub dispatch: RemoteDispatchId,
    pub lease: RemoteExecutionLeaseRef,
    pub plan_digest: PlanDigest,
    pub authority_epoch: AuthorityEpoch,
    pub status: RemoteDispatchClaimStatus,
}

impl RemoteDispatchClaim {
    pub open spec fn valid(&self) -> bool {
        &&& self.schema_version.0 != 0
        &&& self.authority_epoch.0 != 0
        &&& !is_blank(self.dispatch.0@)
        &&& !is_blank(self.lease.0@)
        &&& !is_blank(self.plan_digest.0@)
    }

    pub fn validate(&self) -> (r: Result<(), Error>)
        ensures
            r is Ok <==> self.valid(),
    {
        if self.schema_version.0 == 0 || self.authority_epoch.0 == 0 {
            return Err(Error("remote dispatch claim is incomplete".to_string()));
        }
        if blank(self.dispatch.0.as_str()) || blank(self.lease.0.as_str()) || blank(
            self.plan_digest.0.as_str(),
        ) {
            return Err(Error("dispatch claim is incomplete".to_string()));
        }
        Ok(())
    }
}

impl RemoteExecutionLease {
    pub open spec fn valid(&self) -> bool {
        &&& self.schema_version.0 != 0
        &&& self.expires_at > 0
        &&& !is_blank(self.lease.0@)
        &&& !is_blank(self.dispatch.0@)
        &&& !is_blank(self.intent.0@)
        &&& !is_blank(self.plan_digest.0@)
        &&& !is_blank(self.placement.0@)
        &&& !is_blank(self.executor.0@)
        &&& !is_blank(self.peer_grant.0@)
        &&& self.grant_version.0 != 0
        &&& self.authority_epoch.0 != 0
        &&& self.fence.0 != 0
    }

    pub fn validate(&self) -> (r: Result<(), Error>)
        ensures
            r is Ok <==> self.valid(),
    {
        if self.schema_version.0 == 0 || self.expires_at <= 0 {
            return Err(Error("remote execution lease is incomplete".to_string()));
        }
        if blank(self.lease.0.as_str()) || blank(self.dispatch.0.as_str()) || blank(
            self.intent.0.as_str(),
        ) || blank(self.plan_digest.0.as_str()) || blank(self.placement.0.as_str()) || blank(
            self.executor.0.as_str(),
        ) || blank(self.peer_grant.0.as_str()) {
            return Err(Error("remote execution lease is incomplete".to_string()));
        }
        self.grant_version.validate()?;
        if self.authority_epoch.0 == 0 {
            return Err(Error("lease authority epoch is invalid".to_string()));
        }
        self.fence.validate()
    }
}

#[derive(Debug, Clone, Copy, PartialEq, Eq, Hash, Structural)]
pub enum RemoteReceiptOutcome {
    Completed,
    Failed,
    Cancelled,
    Unknown,
}

impl Named for RemoteReceiptOutcome {
    open spec fn wire_name(&self) -> Seq<char> {
        match self {
            RemoteReceiptOutcome::Completed => "Completed"@,
            RemoteReceiptOutcome::Failed => "Failed"@,
            RemoteReceiptOutcome::Cancelled => "Cancelled"@,
            RemoteReceiptOutcome::Unknown => "Unknown"@,
        }
    }

    fn wire_str(&self) -> (r: &'static str) {
        match self {
            RemoteReceiptOutcome::Completed => "Completed",
            RemoteReceiptOutcome::Failed => "Failed",
            RemoteReceiptOutcome::Cancelled => "Cancelled",
            RemoteReceiptOutcome::Unknown => "Unknown",
        }
    }
}

#[derive(Debug, Clone, PartialEq, Eq)]
pub struct RemoteDriverReceipt {
    pub schema_version: SchemaVersion,
    pub receipt: RemoteDriverReceiptRef,
    pub lease: RemoteExecutionLeaseRef,
    pub dispatch: RemoteDispatchId,
    pub intent: ActionId,
    pub plan_digest: PlanDigest,
    pub operation_digest: SchemaDigest,
    pub executor: FederatedPeerRef,
    pub authority_epoch: AuthorityEpoch,
    pub fence: FenceToken,
    pub outcome: RemoteReceiptOutcome,
    pub result_digest: Option<SchemaDigest>,
    pub observations: Vec<EvidenceRef>,
    pub observed_at: Timestamp,
}

impl RemoteDriverReceipt {
    pub open spec fn valid(&self) -> bool {
        &&& self.schema_version.0 != 0
        &&& self.observed_at > 0
        &&& self.observations@.len() > 0
        &&& !is_blank(self.receipt.0@)
        &&& !is_blank(self.lease.0@)
        &&& !is_blank(self.dispatch.0@)
        &&& !is_blank(self.intent.0@)
        &&& !is_blank(self.plan_digest.0@)
        &&& !is_blank(self.executor.0@)
        &&& !is_blank(self.operation_digest.0@)
        &&& self.authority_epoch.0 != 0
        &&& self.fence.0 != 0
    }

    pub fn validate(&self) -> (r: Result<(), Error>)
        ensures
            r is Ok <==> self.valid(),
    {
        if self.schema_version.0 == 0 || self.observed_at <= 0 || self.observations.len() == 0 {
            return Err(Error("remote driver receipt is incomplete".to_string()));
        }
        if blank(self.receipt.0.as_str()) || blank(self.lease.0.as_str()) || blank(
            self.dispatch.0.as_str(),
        ) || blank(self.intent.0.as_str()) || blank(self.plan_digest.0.as_str()) || blank(
            self.executor.0.as_str(),
        ) || blank(self.operation_digest.0.as_str()) {
            return Err(Error("remote driver receipt is incomplete".to_string()));
        }
        if self.authority_epoch.0 == 0 {
            return Err(Error("receipt authority epoch is invalid".to_string()));
        }
        self.fence.validate()
    }

    pub open spec fn put_canonical(&self, acc: Seq<u8>) -> Seq<u8> {
        let a = with_key(acc + seq![0x7bu8], "schema_version"@) + json_int(
            self.schema_version.0 as int,
        );
        let a = with_key(a + seq![0x2cu8], "receipt"@) + json_string(self.receipt.0@);
        let a = with_key(a + seq![0x2cu8], "lease"@) + json_string(self.lease.0@);
        let a = with_key(a + seq![0x2cu8], "dispatch"@) + json_string(self.dispatch.0@);
        let a = with_key(a + seq![0x2cu8], "intent"@) + json_string(self.intent.0@);
        let a = with_key(a + seq![0x2cu8], "plan_digest"@) + json_string(self.plan_digest.0@);
        let a = with_key(a + seq![0x2cu8], "operation_digest"@) + json_string(
            self.operation_digest.0@,
        );
        let a = with_key(a + seq![0x2cu8], "executor"@) + json_string(self.executor.0@);
        let a = with_key(a + seq![0x2cu8], "authority_epoch"@) + json_int(
            self.authority_epoch.0 as int,
        );
        let a = with_key(a + seq![0x2cu8], "fence"@) + json_int(self.fence.0 as int);
        let a = with_key(a + seq![0x2cu8], "outcome"@) + json_string(self.outcome.wire_name());
        let a = with_key(a + seq![0x2cu8], "result_digest"@) + json_opt_text(
            match self.result_digest {
                Some(d) => Some(d.0@),
                None => None,
            },
        );
        let a = with_texts(with_key(a + seq![0x2cu8], "observations"@), self.observations@);
        let a = with_key(a + seq![0x2cu8], "observed_at"@) + json_int(self.observed_at as int);
        a + seq![0x7du8]
    }

    pub fn write_canonical(&self, buf: &mut Vec<u8>)
        ensures
            final(buf)@ == self.put_canonical(old(buf)@),
    {
        put_mark(buf, 0x7b);
        put_key(buf, "schema_version");
        put_u64(buf, self.schema_version.0 as u64);
        put_mark(buf, 0x2c);
        put_key(buf, "receipt");
        put_str(buf, self.receipt.0.as_str());
        put_mark(buf, 0x2c);
        put_key(buf, "lease");
        put_str(buf, self.lease.0.as_str());
        put_mark(buf, 0x2c);
        put_key(buf, "dispatch");
        put_str(buf, self.dispatch.0.as_str());
        put_mark(buf, 0x2c);
        put_key(buf, "intent");
        put_str(buf, self.intent.0.as_str());
        put_mark(buf, 0x2c);
        put_key(buf, "plan_digest");
        put_str(buf, self.plan_digest.0.as_str());
        put_mark(buf, 0x2c);
        put_key(buf, "operation_digest");
        put_str(buf, self.operation_digest.0.as_str());
        put_mark(buf, 0x2c);
        put_key(buf, "executor");
        put_str(buf, self.executor.0.as_str());
        put_mark(buf, 0x2c);
        put_key(buf, "authority_epoch");
        put_u64(buf, self.authority_epoch.0);
        put_mark(buf, 0x2c);
        put_key(buf, "fence");
        put_u64(buf, self.fence.0);
        put_mark(buf, 0x2c);
        put_key(buf, "outcome");
        put_str(buf, self.outcome.wire_str());
        put_mark(buf, 0x2c);
        put_key(buf, "result_digest");
        put_opt_text(
            buf,
            match &self.result_digest {
                Some(d) => Some(&d.0),
                None => None,
            },
        );
        put_mark(buf, 0x2c);
        put_key(buf, "observations");
        put_texts(buf, &self.observations);
        put_mark(buf, 0x2c);
        put_key(buf, "observed_at");
        put_i64(buf, self.observed_at);
        put_mark(buf, 0x7d);
    }
}

#[derive(Debug, Clone, PartialEq, Eq)]
pub struct RemoteExecutionReceipt {
    pub schema_version: SchemaVersion,
    pub receipt: RemoteExecutionReceiptRef,
    pub driver_receipt: RemoteDriverReceiptRef,
    pub driver_receipt_digest: SchemaDigest,
    pub lease: RemoteExecutionLeaseRef,
    pub intent: ActionId,
    pub plan_digest: PlanDigest,
    pub operation_digest: SchemaDigest,
    pub executor: FederatedPeerRef,
    pub rollback_boundary: RollbackBoundary,
    pub outcome: RemoteReceiptOutcome,
    pub verification: Vec<EvidenceRef>,
    pub ground_truth: Vec<EvidenceRef>,
    pub authority_verified: RequiredTrue,
}

impl RemoteExecutionReceipt {
    pub open spec fn valid(&self) -> bool {
        &&& self.schema_version.0 != 0
        &&& self.verification@.len() > 0
        &&& self.ground_truth@.len() > 0
        &&& !is_blank(self.receipt.0@)
        &&& !is_blank(self.driver_receipt.0@)
        &&& !is_blank(self.lease.0@)
        &&& !is_blank(self.intent.0@)
        &&& !is_blank(self.plan_digest.0@)
        &&& !is_blank(self.executor.0@)
        &&& !is_blank(self.rollback_boundary.0@)
        &&& !is_blank(self.driver_receipt_digest.0@)
        &&& !is_blank(self.operation_digest.0@)
    }

    pub fn validate(&self) -> (r: Result<(), Error>)
        ensures
            r is Ok <==> self.valid(),
    {
        if self.schema_version.0 == 0 || self.verification.len() == 0
            || self.ground_truth.len() == 0 {
            return Err(Error("remote execution receipt is incomplete".to_string()));
        }
        if blank(self.receipt.0.as_str()) || blank(self.driver_receipt.0.as_str()) || blank(
            self.lease.0.as_str(),
        ) || blank(self.intent.0.as_str()) || blank(self.plan_digest.0.as_str()) || blank(
            self.executor.0.as_str(),
        ) || blank(self.rollback_boundary.0.as_str()) || blank(
            self.driver_receipt_digest.0.as_str(),
        ) || blank(self.operation_digest.0.as_str()) {
            return Err(Error("remote execution receipt is incomplete".to_string()));
        }
        Ok(())
    }
}

#[derive(Debug, Clone, PartialEq, Eq)]
pub struct RemoteLeaseTransition {
    pub schema_version: SchemaVersion,
    pub lease: RemoteExecutionLeaseRef,
    pub expected: RemoteLeaseState,
    pub next: RemoteLeaseState,
    pub reason: ReasonRef,
    pub authority_epoch: AuthorityEpoch,
}

impl RemoteLeaseTransition {
    /// A lease transition always leaves a live lease for a finished one.
    pub open spec fn valid(&self) -> bool {
        &&& self.schema_version.0 != 0
        &&& self.authority_epoch.0 != 0
        &&& !is_blank(self.lease.0@)
        &&& !is_blank(self.reason.0@)
        &&& !self.expected.is_terminal()
        &&& self.next.is_terminal()
    }

    pub fn validate(&self) -> (r: Result<(), Error>)
        ensures
            r is Ok <==> self.valid(),
    {
        if self.schema_version.0 == 0 || self.authority_epoch.0 == 0 {
            return Err(Error("remote lease transition is incomplete".to_string()));
        }
        if blank(self.lease.0.as_str()) || blank(self.reason.0.as_str()) {
            return Err(Error("remote lease transition is incomplete".to_string()));
        }
        if self.expected.terminal() || !self.next.terminal() {
            return Err(Error("remote lease transition is not terminal".to_string()));
        }
        Ok(())
    }
}

#[derive(Debug, Clone, PartialEq, Eq)]
pub struct RemoteDispatchAcceptance {
    pub schema_version: SchemaVersion,
    pub dispatch: RemoteDispatchId,
    pub lease: RemoteExecutionLeaseRef,
    pub accepted: RequiredTrue,
    pub receipt: RemoteDriverReceiptRef,
    pub authority_epoch: AuthorityEpoch,
    pub fence: FenceToken,
}

impl RemoteDispatchAcceptance {
    /// The acceptance answers exactly this lease: same dispatch, lease, epoch and fence.
    pub open spec fn valid_for(&self, lease: &RemoteExecutionLease) -> bool {
        &&& self.schema_version.0 != 0
        &&& self.dispatch.0@ == lease.dispatch.0@
        &&& self.lease.0@ == lease.lease.0@
        &&& self.authority_epoch == lease.authority_epoch
        &&& self.fence == lease.fence
        &&& !is_blank(self.receipt.0@)
    }

    pub fn validate_for(&self, lease: &RemoteExecutionLease) -> (r: Result<(), Error>)
        ensures
            r is Ok <==> self.valid_for(lease),
    {
        if self.schema_version.0 == 0 || !same_text(&self.dispatch.0, &lease.dispatch.0)
            || !same_text(&self.lease.0, &lease.lease.0) || self.authority_epoch.0
            != lease.authority_epoch.0 || self.fence.0 != lease.fence.0 {
            return Err(Error("remote dispatch acceptance binding is invalid".to_string()));
        }
        if blank(self.receipt.0.as_str()) {
            return Err(Error("remote driver receipt is incomplete".to_string()));
        }
        Ok(())
    }

    pub open spec fn put_canonical(&self, acc: Seq<u8>) -> Seq<u8> {
        let a = with_key(acc + seq![0x7bu8], "schema_version"@) + json_int(
            self.schema_version.0 as int,
        );
        let a = with_key(a + seq![0x2cu8], "dispatch"@) + json_string(self.dispatch.0@);
        let a = with_key(a + seq![0x2cu8], "lease"@) + json_string(self.lease.0@);
        let a = with_key(a + seq![0x2cu8], "accepted"@) + json_bool(true);
        let a = with_key(a + seq![0x2cu8], "receipt"@) + json_string(self.receipt.0@);
        let a = with_key(a + seq![0x2cu8], "authority_epoch"@) + json_int(
            self.authority_epoch.0 as int,
        );
        let a = with_key(a + seq![0x2cu8], "fence"@) + json_int(self.fence.0 as int);
        a + seq![0x7du8]
    }

    pub fn write_canonical(&self, buf: &mut Vec<u8>)
        ensures
            final(buf)@ == self.put_canonical(old(buf)@),
    {
        put_mark(buf, 0x7b);
        put_key(buf, "schema_version");
        put_u64(buf, self.schema_version.0 as u64);
        put_mark(buf, 0x2c);
        put_key(buf, "dispatch");
        put_str(buf, self.dispatch.0.as_str());
        put_mark(buf, 0x2c);
        put_key(buf, "lease");
        put_str(buf, self.lease.0.as_str());
        put_mark(buf, 0x2c);
        put_key(buf, "accepted");
        put_bool(buf, true);
        put_mark(buf, 0x2c);
        put_key(buf, "receipt");
        put_str(buf, self.receipt.0.as_str());
        put_mark(buf, 0x2c);
        put_key(buf, "authority_epoch");
        put_u64(buf, self.authority_epoch.0);
        put_mark(buf, 0x2c);
        put_key(buf, "fence");
        put_u64(buf, self.fence.0);
        put_mark(buf, 0x7d);
    }
}

#[derive(Debug, Clone, PartialEq, Eq)]
pub struct RemoteProbeRequest {
    pub schema_version: SchemaVersion,
    pub lease: RemoteExecutionLeaseRef,
    pub dispatch: RemoteDispatchId,
    pub authority_epoch: AuthorityEpoch,
    pub fence: FenceToken,
    pub nonce: Nonce,
}

impl RemoteProbeRequest {
    pub open spec fn valid(&self) -> bool {
        &&& self.schema_version.0 != 0
        &&& self.authority_epoch.0 != 0
        &&& !is_blank(self.lease.0@)
        &&& !is_blank(self.dispatch.0@)
        &&& !is_blank(self.nonce.0@)
        &&& self.fence.0 != 0
    }

    pub fn validate(&self) -> (r: Result<(), Error>)
        ensures
            r is Ok <==> self.valid(),
    {
        if self.schema_version.0 == 0 || self.authority_epoch.0 == 0 {
            return Err(Error("remote probe request is incomplete".to_string()));
        }
        if blank(self.lease.0.as_str()) || blank(self.dispatch.0.as_str()) || blank(
            self.nonce.0.as_str(),
        ) {
            return Err(Error("remote probe request is incomplete".to_string()));
        }
        self.fence.validate()
    }
}

#[derive(Debug, Clone, PartialEq, Eq)]
pub struct RemoteCancelRequest {
    pub schema_version: SchemaVersion,
    pub lease: RemoteExecutionLeaseRef,
    pub dispatch: RemoteDispatchId,
    pub authority_epoch: AuthorityEpoch,
    pub fence: FenceToken,
    pub nonce: Nonce,
    pub reason: ReasonRef,
}

impl RemoteCancelRequest {
    pub open spec fn valid(&self) -> bool {
        &&& self.schema_version.0 != 0
        &&& self.authority_epoch.0 != 0
        &&& !is_blank(self.lease.0@)
        &&& !is_blank(self.dispatch.0@)
        &&& !is_blank(self.nonce.0@)
        &&& !is_blank(self.reason.0@)
        &&& self.fence.0 != 0
    }

    pub fn validate(&self) -> (r: Result<(), Error>)
        ensures
            r is Ok <==> self.valid(),
    {
        if self.schema_version.0 == 0 || self.authority_epoch.0 == 0 {
            return Err(Error("remote cancel request is incomplete".to_string()));
        }
        if blank(self.lease.0.as_str()) || blank(self.dispatch.0.as_str()) || blank(
            self.nonce.0.as_str(),
        ) || blank(self.reason.0.as_str()) {
            return Err(Error("remote cancel request is incomplete".to_string()));
        }
        self.fence.validate()
    }
}

#[derive(Debug, Clone, Copy, PartialEq, Eq, Hash, Structural)]
pub enum RemoteProbeOutcome {
    NotDispatched,
    Completed,
    Failed,
    Unknown,
}

impl Named for RemoteProbeOutcome {
    open spec fn wire_name(&self) -> Seq<char> {
        match self {
            RemoteProbeOutcome::NotDispatched => "NotDispatched"@,
            RemoteProbeOutcome::Completed => "Completed"@,
            RemoteProbeOutcome::Failed => "Failed"@,
            RemoteProbeOutcome::Unknown => "Unknown"@,
        }
    }

    fn wire_str(&self) -> (r: &'static str) {
        match self {
            RemoteProbeOutcome::NotDispatched => "NotDispatched",
            RemoteProbeOutcome::Completed => "Completed",
            RemoteProbeOutcome::Failed => "Failed",
            RemoteProbeOutcome::Unknown => "Unknown",
        }
    }
}

#[derive(Debug, Clone, PartialEq, Eq)]
pub struct RemoteProbeResult {
    pub schema_version: SchemaVersion,
    pub lease: RemoteExecutionLeaseRef,
    pub outcome: RemoteProbeOutcome,
    pub receipt: Option<RemoteDriverReceiptRef>,
    pub evidence: Vec<EvidenceRef>,
}

impl RemoteProbeResult {
    /// A finished probe names its receipt; a probe of an undispatched action has none.
    pub open spec fn valid(&self) -> bool {
        &&& self.schema_version.0 != 0
        &&& !is_blank(self.lease.0@)
        &&& ((self.outcome == RemoteProbeOutcome::Completed || self.outcome
            == RemoteProbeOutcome::Failed) ==> self.receipt is Some)
        &&& (self.outcome == RemoteProbeOutcome::NotDispatched ==> self.receipt is None)
    }

    pub fn validate(&self) -> (r: Result<(), Error>)
        ensures
            r is Ok <==> self.valid(),
    {
        if self.schema_version.0 == 0 {
            return Err(Error("remote probe result schema is invalid".to_string()));
        }
        if blank(self.lease.0.as_str()) {
            return Err(Error("probe result lease is incomplete".to_string()));
        }
        let has_receipt = match &self.receipt {
            Some(_) => true,
            None => false,
        };
        if (self.outcome == RemoteProbeOutcome::Completed || self.outcome
            == RemoteProbeOutcome::Failed) && !has_receipt {
            return Err(Error("terminal remote probe has no receipt".to_string()));
        }
        if self.outcome == RemoteProbeOutcome::NotDispatched && has_receipt {
            return Err(Error("not-dispatched probe cannot carry a receipt".to_string()));
        }
        Ok(())
    }

    pub open spec fn put_canonical(&self, acc: Seq<u8>) -> Seq<u8> {
        let a = with_key(acc + seq![0x7bu8], "schema_version"@) + json_int(
            self.schema_version.0 as int,
        );
        let a = with_key(a + seq![0x2cu8], "lease"@) + json_string(self.lease.0@);
        let a = with_key(a + seq![0x2cu8], "outcome"@) + json_string(self.outcome.wire_name());
        let a = with_key(a + seq![0x2cu8], "receipt"@) + json_opt_text(
            match self.receipt {
                Some(d) => Some(d.0@),
                None => None,
            },
        );
        let a = with_texts(with_key(a + seq![0x2cu8], "evidence"@), self.evidence@);
        a + seq![0x7du8]
    }

    pub fn write_canonical(&self, buf: &mut Vec<u8>)
        ensures
            final(buf)@ == self.put_canonical(old(buf)@),
    {
        put_mark(buf, 0x7b);
        put_key(buf, "schema_version");
        put_u64(buf, self.schema_version.0 as u64);
        put_mark(buf, 0x2c);
        put_key(buf, "lease");
        put_str(buf, self.lease.0.as_str());
        put_mark(buf, 0x2c);
        put_key(buf, "outcome");
        put_str(buf, self.outcome.wire_str());
        put_mark(buf, 0x2c);
        put_key(buf, "receipt");
        put_opt_text(
            buf,
            match &self.receipt {
                Some(d) => Some(&d.0),
                None => None,
            },
        );
        put_mark(buf, 0x2c);
        put_key(buf, "evidence");
        put_texts(buf, &self.evidence);
        put_mark(buf, 0x7d);
    }
}

#[derive(Debug, Clone, Copy, PartialEq, Eq, Hash, Structural)]
pub enum RemoteCancelOutcome {
    NotDispatched,
    Cancelled,
    AlreadyCompleted,
    Unknown,
}

impl Named for RemoteCancelOutcome {
    open spec fn wire_name(&self) -> Seq<char> {
        match self {
            RemoteCancelOutcome::NotDispatched => "NotDispatched"@,
            RemoteCancelOutcome::Cancelled => "Cancelled"@,
            RemoteCancelOutcome::AlreadyCompleted => "AlreadyCompleted"@,
            RemoteCancelOutcome::Unknown => "Unknown"@,
        }
    }

    fn wire_str(&self) -> (r: &'static str) {
        match self {
            RemoteCancelOutcome::NotDispatched => "NotDispatched",
            RemoteCancelOutcome::Cancelled => "Cancelled",
            RemoteCancelOutcome::AlreadyCompleted => "AlreadyCompleted",
            RemoteCancelOutcome::Unknown => "Unknown",
        }
    }
}

#[derive(Debug, Clone, PartialEq, Eq)]
pub struct RemoteCancelResult {
    pub schema_version: SchemaVersion,
    pub lease: RemoteExecutionLeaseRef,
    pub outcome: RemoteCancelOutcome,
    pub evidence: Vec<EvidenceRef>,
}

impl RemoteCancelResult {
    pub open spec fn valid(&self) -> bool {
        self.schema_version.0 != 0 && !is_blank(self.lease.0@)
    }

    pub fn validate(&self) -> (r: Result<(), Error>)
        ensures
            r is Ok <==> self.valid(),
    {
        if self.schema_version.0 == 0 {
            return Err(Error("remote cancel result schema is invalid".to_string()));
        }
        if blank(self.lease.0.as_str()) {
            return Err(Error("cancel result lease is incomplete".to_string()));
        }
        Ok(())
    }

    pub open spec fn put_canonical(&self, acc: Seq<u8>) -> Seq<u8> {
        let a = with_key(acc + seq![0x7bu8], "schema_version"@) + json_int(
            self.schema_version.0 as int,
        );
        let a = with_key(a + seq![0x2cu8], "lease"@) + json_string(self.lease.0@);
        let a = with_key(a + seq![0x2cu8], "outcome"@) + json_string(self.outcome.wire_name());
        let a = with_texts(with_key(a + seq![0x2cu8], "evidence"@), self.evidence@);
        a + seq![0x7du8]
    }

    pub fn write_canonical(&self, buf: &mut Vec<u8>)
        ensures
            final(buf)@ == self.put_canonical(old(buf)@),
    {
        put_mark(buf, 0x7b);
        put_key(buf, "schema_version");
        put_u64(buf, self.schema_version.0 as u64);
        put_mark(buf, 0x2c);
        put_key(buf, "lease");
        put_str(buf, self.lease.0.as_str());
        put_mark(buf, 0x2c);
        put_key(buf, "outcome");
        put_str(buf, self.outcome.wire_str());
        put_mark(buf, 0x2c);
        put_key(buf, "evidence");
        put_texts(buf, &self.evidence);
        put_mark(buf, 0x7d);
    }
}

#[derive(Debug, Clone, PartialEq, Eq)]
pub struct RemoteReceiptRequest {
    pub schema_version: SchemaVersion,
    pub receipt: RemoteDriverReceiptRef,
    pub lease: RemoteExecutionLeaseRef,
    pub dispatch: RemoteDispatchId,
    pub authority_epoch: AuthorityEpoch,
    pub fence: FenceToken,
    pub nonce: Nonce,
}

impl RemoteReceiptRequest {
    pub open spec fn valid(&self) -> bool {
        &&& self.schema_version.0 != 0
        &&& self.authority_epoch.0 != 0
        &&& !is_blank(self.receipt.0@)
        &&& !is_blank(self.lease.0@)
        &&& !is_blank(self.dispatch.0@)
        &&& !is_blank(self.nonce.0@)
        &&& self.fence.0 != 0
    }

    pub fn validate(&self) -> (r: Result<(), Error>)
        ensures
            r is Ok <==> self.valid(),
    {
        if self.schema_version.0 == 0 || self.authority_epoch.0 == 0 {
            return Err(Error("remote receipt request is incomplete".to_string()));
        }
        if blank(self.receipt.0.as_str()) || blank(self.lease.0.as_str()) || blank(
            self.dispatch.0.as_str(),
        ) || blank(self.nonce.0.as_str()) {
            return Err(Error("remote receipt request is incomplete".to_string()));
        }
        self.fence.validate()
    }
}

#[derive(Debug, Clone, PartialEq, Eq)]
pub enum RemoteWireResponse {
    Dispatch(RemoteDispatchAcceptance),
    Probe(RemoteProbeResult),
    Cancel(RemoteCancelResult),
    Receipt(RemoteDriverReceipt),
}

impl RemoteWireResponse {
    pub open spec fn valid(&self) -> bool {
        match self {
            RemoteWireResponse::Dispatch(response) => {
                &&& response.schema_version.0 != 0
                &&& response.authority_epoch.0 != 0
                &&& !is_blank(response.dispatch.0@)
                &&& !is_blank(response.lease.0@)
                &&& !is_blank(response.receipt.0@)
                &&& response.fence.0 != 0
            },
            RemoteWireResponse::Probe(response) => response.valid(),
            RemoteWireResponse::Cancel(response) => response.valid(),
            RemoteWireResponse::Receipt(response) => response.valid(),
        }
    }

    pub fn validate(&self) -> (r: Result<(), Error>)
        ensures
            r is Ok <==> self.valid(),
    {
        match self {
            RemoteWireResponse::Dispatch(response) => {
                if response.schema_version.0 == 0 || response.authority_epoch.0 == 0 {
                    return Err(Error("remote dispatch response is incomplete".to_string()));
                }
                if blank(response.dispatch.0.as_str()) || blank(response.lease.0.as_str())
                    || blank(response.receipt.0.as_str()) {
                    return Err(Error("remote dispatch response is incomplete".to_string()));
                }
                response.fence.validate()
            },
            RemoteWireResponse::Probe(response) => response.validate(),
            RemoteWireResponse::Cancel(response) => response.validate(),
            RemoteWireResponse::Receipt(response) => response.validate(),
        }
    }

    /// The tagged form `{"kind":...,"body":...}` with snake-case kinds.
    pub open spec fn put_canonical(&self, acc: Seq<u8>) -> Seq<u8> {
        match self {
            RemoteWireResponse::Dispatch(b) => b.put_canonical(
                with_key(with_key(acc + seq![0x7bu8], "kind"@) + json_string("dispatch"@) + seq![0x2cu8], "body"@),
            ) + seq![0x7du8],
            RemoteWireResponse::Probe(b) => b.put_canonical(
                with_key(with_key(acc + seq![0x7bu8], "kind"@) + json_string("probe"@) + seq![0x2cu8], "body"@),
            ) + seq![0x7du8],
            RemoteWireResponse::Cancel(b) => b.put_canonical(
                with_key(with_key(acc + seq![0x7bu8], "kind"@) + json_string("cancel"@) + seq![0x2cu8], "body"@),
            ) + seq![0x7du8],
            RemoteWireResponse::Receipt(b) => b.put_canonical(
                with_key(with_key(acc + seq![0x7bu8], "kind"@) + json_string("receipt"@) + seq![0x2cu8], "body"@),
            ) + seq![0x7du8],
        }
    }

    pub fn write_canonical(&self, buf: &mut Vec<u8>)
        ensures
            final(buf)@ == self.put_canonical(old(buf)@),
    {
        put_mark(buf, 0x7b);
        put_key(buf, "kind");
        match self {
            RemoteWireResponse::Dispatch(b) => {
                put_str(buf, "dispatch");
                put_mark(buf, 0x2c);
                put_key(buf, "body");
                b.write_canonical(buf);
            },
            RemoteWireResponse::Probe(b) => {
                put_str(buf, "probe");
                put_mark(buf, 0x2c);
                put_key(buf, "body");
                b.write_canonical(buf);
            },
            RemoteWireResponse::Cancel(b) => {
                put_str(buf, "cancel");
                put_mark(buf, 0x2c);
                put_key(buf, "body");
                b.write_canonical(buf);
            },
            RemoteWireResponse::Receipt(b) => {
                put_str(buf, "receipt");
                put_mark(buf, 0x2c);
                put_key(buf, "body");
                b.write_canonical(buf);
            },
        }
        put_mark(buf, 0x7d);
    }
}

#[derive(Debug, Clone, PartialEq, Eq)]
pub struct RemoteWireReply {
    pub schema_version: SchemaVersion,
    pub request: RemoteWireRequestRef,
    pub response: RemoteWireResponse,
    pub digest: SchemaDigest,
}

impl RemoteWireReply {
    /// The canonical form with the digest cleared.
    pub open spec fn material(&self) -> Seq<u8> {
        let a = with_key(seq![0x7bu8], "schema_version"@) + json_int(self.schema_version.0 as int);
        let a = with_key(a + seq![0x2cu8], "request"@) + json_string(self.request.0@);
        let a = self.response.put_canonical(with_key(a + seq![0x2cu8], "response"@));
        let a = with_key(a + seq![0x2cu8], "digest"@) + json_string(""@);
        a + seq![0x7du8]
    }

    pub fn encode_material(&self) -> (r: Vec<u8>)
        ensures
            r@ == self.material(),
    {
        let mut buf: Vec<u8> = Vec::new();
        put_mark(&mut buf, 0x7b);
        put_key(&mut buf, "schema_version");
        put_u64(&mut buf, self.schema_version.0 as u64);
        put_mark(&mut buf, 0x2c);
        put_key(&mut buf, "request");
        put_str(&mut buf, self.request.0.as_str());
        put_mark(&mut buf, 0x2c);
        put_key(&mut buf, "response");
        self.response.write_canonical(&mut buf);
        put_mark(&mut buf, 0x2c);
        put_key(&mut buf, "digest");
        put_str(&mut buf, "");
        put_mark(&mut buf, 0x7d);
        assert(buf@ =~= self.material());
        buf
    }

    pub open spec fn fields_valid(&self) -> bool {
        &&& self.schema_version.0 != 0
        &&& !is_blank(self.request.0@)
        &&& self.response.valid()
    }

    pub open spec fn valid(&self) -> bool {
        &&& self.fields_valid()
        &&& self.digest.0@ == canonical_digest_text(self.material())
    }

    pub fn validate(&self) -> (r: Result<(), Error>)
        ensures
            r is Ok <==> self.valid(),
    {
        if self.schema_version.0 == 0 {
            return Err(Error("remote wire reply schema is invalid".to_string()));
        }
        if blank(self.request.0.as_str()) {
            return Err(Error("remote reply request is incomplete".to_string()));
        }
        self.response.validate()?;
        let material = self.encode_material();
        if !same_text(&self.digest.0, &canonical_digest(&material).0) {
            return Err(Error("remote wire reply digest mismatch".to_string()));
        }
        Ok(())
    }

    /// Sets the digest to that of the reply's contents, which are unchanged.
    pub fn refresh_digest(&mut self) -> (r: Result<(), Error>)
        ensures
            r is Ok,
            final(self).schema_version == old(self).schema_version,
            final(self).request == old(self).request,
            final(self).response == old(self).response,
            final(self).digest.0@ == canonical_digest_text(old(self).material()),
            final(self).valid() == old(self).fields_valid(),
    {
        let material = self.encode_material();
        self.digest = canonical_digest(&material);
        Ok(())
    }
}

#[derive(Debug, Clone, PartialEq, Eq)]
pub struct ReplicationCursor {
    pub schema_version: SchemaVersion,
    pub peer: FederatedPeerRef,
    pub aggregate: RunId,
    pub stream_seq: u64,
    pub authority_epoch: AuthorityEpoch,
}

impl ReplicationCursor {
    /// The cursor before the first event of a peer's replica of an aggregate.
    pub fn zero(peer: FederatedPeerRef, aggregate: RunId, epoch: AuthorityEpoch) -> (r: Self)
        ensures
            r.schema_version == m4_schema_version(),
            r.peer == peer,
            r.aggregate == aggregate,
            r.stream_seq == 0,
            r.authority_epoch == epoch,
    {
        ReplicationCursor {
            schema_version: m4_schema(),
            peer,
            aggregate,
            stream_seq: 0,
            authority_epoch: epoch,
        }
    }

    pub open spec fn valid(&self) -> bool {
        &&& self.schema_version.0 != 0
        &&& self.authority_epoch.0 != 0
        &&& !is_blank(self.peer.0@)
        &&& !is_blank(self.aggregate.0@)
    }

    pub fn validate(&self) -> (r: Result<(), Error>)
        ensures
            r is Ok <==> self.valid(),
    {
        if self.schema_version.0 == 0 || self.authority_epoch.0 == 0 {
            return Err(Error("replication cursor is incomplete".to_string()));
        }
        if blank(self.peer.0.as_str()) {
            return Err(Error("replication peer is incomplete".to_string()));
        }
        if blank(self.aggregate.0.as_str()) {
            return Err(Error("replication aggregate is incomplete".to_string()));
        }
        Ok(())
    }

    pub open spec fn put_canonical(&self, acc: Seq<u8>) -> Seq<u8> {
        let a = with_key(acc + seq![0x7bu8], "schema_version"@) + json_int(
            self.schema_version.0 as int,
        );
        let a = with_key(a + seq![0x2cu8], "peer"@) + json_string(self.peer.0@);
        let a = with_key(a + seq![0x2cu8], "aggregate"@) + json_string(self.aggregate.0@);
        let a = with_key(a + seq![0x2cu8], "stream_seq"@) + json_int(self.stream_seq as int);
        let a = with_key(a + seq![0x2cu8], "authority_epoch"@) + json_int(
            self.authority_epoch.0 as int,
        );
        a + seq![0x7du8]
    }

    pub fn write_canonical(&self, buf: &mut Vec<u8>)
        ensures
            final(buf)@ == self.put_canonical(old(buf)@),
    {
        put_mark(buf, 0x7b);
        put_key(buf, "schema_version");
        put_u64(buf, self.schema_version.0 as u64);
        put_mark(buf, 0x2c);
        put_key(buf, "peer");
        put_str(buf, self.peer.0.as_str());
        put_mark(buf, 0x2c);
        put_key(buf, "aggregate");
        put_str(buf, self.aggregate.0.as_str());
        put_mark(buf, 0x2c);
        put_key(buf, "stream_seq");
        put_u64(buf, self.stream_seq);
        put_mark(buf, 0x2c);
        put_key(buf, "authority_epoch");
        put_u64(buf, self.authority_epoch.0);
        put_mark(buf, 0x7d);
    }
}

#[derive(Debug, Clone, PartialEq)]
pub struct ReplicationBatch {
    pub schema_version: SchemaVersion,
    pub batch: ReplicationBatchRef,
    pub peer: FederatedPeerRef,
    pub peer_grant: FederatedPeerGrantRef,
    pub aggregate: RunId,
    pub from: ReplicationCursor,
    pub to: ReplicationCursor,
    pub redaction: RedactionPolicyRef,
    pub events: Vec<SyncTransferEvent>,
    pub content_digest: SchemaDigest,
}

/// The events follow the cursor `from` one by one: the `i`-th carries stream
/// position `from + i + 1`, all within `aggregate`.
pub open spec fn contiguous_after(
    events: Seq<SyncTransferEvent>,
    aggregate: Seq<char>,
    from: u64,
) -> bool {
    forall|i: int|
        0 <= i < events.len() ==> {
            &&& (#[trigger] events[i]).aggregate.0@ == aggregate
            &&& events[i].source_stream_seq == from + i + 1
        }
}

impl ReplicationBatch {
    /// The canonical form with the content digest cleared.
    pub open spec fn material(&self) -> Seq<u8> {
        let a = with_key(seq![0x7bu8], "schema_version"@) + json_int(self.schema_version.0 as int);
        let a = with_key(a + seq![0x2cu8], "batch"@) + json_string(self.batch.0@);
        let a = with_key(a + seq![0x2cu8], "peer"@) + json_string(self.peer.0@);
        let a = with_key(a + seq![0x2cu8], "peer_grant"@) + json_string(self.peer_grant.0@);
        let a = with_key(a + seq![0x2cu8], "aggregate"@) + json_string(self.aggregate.0@);
        let a = self.from.put_canonical(with_key(a + seq![0x2cu8], "from"@));
        let a = self.to.put_canonical(with_key(a + seq![0x2cu8], "to"@));
        let a = with_key(a + seq![0x2cu8], "redaction"@) + json_string(self.redaction.0@);
        let a = with_transfer_events(with_key(a + seq![0x2cu8], "events"@), self.events@);
        let a = with_key(a + seq![0x2cu8], "content_digest"@) + json_string(""@);
        a + seq![0x7du8]
    }

    pub fn encode_material(&self) -> (r: Vec<u8>)
        ensures
            r@ == self.material(),
    {
        let mut buf: Vec<u8> = Vec::new();
        put_mark(&mut buf, 0x7b);
        put_key(&mut buf, "schema_version");
        put_u64(&mut buf, self.schema_version.0 as u64);
        put_mark(&mut buf, 0x2c);
        put_key(&mut buf, "batch");
        put_str(&mut buf, self.batch.0.as_str());
        put_mark(&mut buf, 0x2c);
        put_key(&mut buf, "peer");
        put_str(&mut buf, self.peer.0.as_str());
        put_mark(&mut buf, 0x2c);
        put_key(&mut buf, "peer_grant");
        put_str(&mut buf, self.peer_grant.0.as_str());
        put_mark(&mut buf, 0x2c);
        put_key(&mut buf, "aggregate");
        put_str(&mut buf, self.aggregate.0.as_str());
        put_mark(&mut buf, 0x2c);
        put_key(&mut buf, "from");
        self.from.write_canonical(&mut buf);
        put_mark(&mut buf, 0x2c);
        put_key(&mut buf, "to");
        self.to.write_canonical(&mut buf);
        put_mark(&mut buf, 0x2c);
        put_key(&mut buf, "redaction");
        put_str(&mut buf, self.redaction.0.as_str());
        put_mark(&mut buf, 0x2c);
        put_key(&mut buf, "events");
        put_transfer_events(&mut buf, &self.events);
        put_mark(&mut buf, 0x2c);
        put_key(&mut buf, "content_digest");
        put_str(&mut buf, "");
        put_mark(&mut buf, 0x7d);
        assert(buf@ =~= self.material());
        buf
    }

    /// Both cursors belong to the batch's peer and aggregate, share one
    /// epoch, and `from` lies strictly before `to`.
    pub open spec fn cursors_bound(&self) -> bool {
        &&& self.from.peer.0@ == self.peer.0@
        &&& self.to.peer.0@ == self.peer.0@
        &&& self.from.aggregate.0@ == self.aggregate.0@
        &&& self.to.aggregate.0@ == self.aggregate.0@
        &&& self.from.authority_epoch == self.to.authority_epoch
        &&& self.from.stream_seq < self.to.stream_seq
    }

    /// A valid batch carries the events right after `from` up to `to`
    /// without a gap, and the digest of its contents.
    pub open spec fn valid(&self) -> bool {
        &&& self.fields_valid()
        &&& !is_blank(self.content_digest.0@)
        &&& self.content_digest.0@ == canonical_digest_text(self.material())
    }

    fn check_contiguous(&self) -> (r: bool)
        ensures
            r == contiguous_after(self.events@, self.aggregate.0@, self.from.stream_seq),
    {
        let mut i: usize = 0;
        while i < self.events.len()
            invariant
                i <= self.events@.len(),
                forall|j: int|
                    0 <= j < i ==> {
                        &&& (#[trigger] self.events@[j]).aggregate.0@ == self.aggregate.0@
                        &&& self.events@[j].source_stream_seq == self.from.stream_seq + j + 1
                    },
            decreases self.events.len() - i,
        {
            let offset: u64 = i as u64 + 1;
            let expected = match self.from.stream_seq.checked_add(offset) {
                Some(e) => e,
                None => {
                    proof {
                        assert(self.events@[i as int].source_stream_seq
                            != self.from.stream_seq + i + 1);
                    }
                    return false;
                },
            };
            let event = &self.events[i];
            if !same_text(&event.aggregate.0, &self.aggregate.0)
                || event.source_stream_seq != expected {
                return false;
            }
            i = i + 1;
        }
        true
    }

    pub fn validate(&self) -> (r: Result<(), Error>)
        ensures
            r is Ok <==> self.valid(),
    {
        if self.schema_version.0 == 0 || self.events.len() == 0 {
            return Err(Error("replication batch is incomplete".to_string()));
        }
        if blank(self.batch.0.as_str()) || blank(self.peer.0.as_str()) || blank(
            self.peer_grant.0.as_str(),
        ) || blank(self.aggregate.0.as_str()) || blank(self.redaction.0.as_str()) {
            return Err(Error("replication batch is incomplete".to_string()));
        }
        self.from.validate()?;
        self.to.validate()?;
        if !same_text(&self.from.peer.0, &self.peer.0) || !same_text(&self.to.peer.0, &self.peer.0)
            || !same_text(&self.from.aggregate.0, &self.aggregate.0) || !same_text(
            &self.to.aggregate.0,
            &self.aggregate.0,
        ) || self.from.authority_epoch.0 != self.to.authority_epoch.0
            || self.from.stream_seq >= self.to.stream_seq {
            return Err(Error("replication cursor binding is invalid".to_string()));
        }
        if !self.check_contiguous() {
            return Err(Error("replication events are not contiguous".to_string()));
        }
        let last = self.events.len() - 1;
        if self.events[last].source_stream_seq != self.to.stream_seq {
            return Err(Error("replication batch endpoint does not match events".to_string()));
        }
        if blank(self.content_digest.0.as_str()) {
            return Err(Error("replication content digest is incomplete".to_string()));
        }
        let material = self.encode_material();
        if !same_text(&self.content_digest.0, &canonical_digest(&material).0) {
            return Err(Error("replication content digest does not match its contents".to_string()));
        }
        Ok(())
    }

    /// Sets the content digest to that of the batch's contents, which are unchanged.
    pub fn refresh_digest(&mut self) -> (r: Result<(), Error>)
        ensures
            r is Ok,
            final(self).material() == old(self).material(),
            final(self).events == old(self).events,
            final(self).content_digest.0@ == canonical_digest_text(old(self).material()),
            final(self).valid() == old(self).fields_valid(),
    {
        let material = self.encode_material();
        self.content_digest = canonical_digest(&material);
        proof {
            lemma_digest_text_not_blank(old(self).material());
            assert(self.material() == old(self).material());
        }
        Ok(())
    }

    /// Everything a valid batch needs but its digest.
    pub open spec fn fields_valid(&self) -> bool {
        &&& self.schema_version.0 != 0
        &&& self.events@.len() > 0
        &&& !is_blank(self.batch.0@)
        &&& !is_blank(self.peer.0@)
        &&& !is_blank(self.peer_grant.0@)
        &&& !is_blank(self.aggregate.0@)
        &&& !is_blank(self.redaction.0@)
        &&& self.from.valid()
        &&& self.to.valid()
        &&& self.cursors_bound()
        &&& contiguous_after(self.events@, self.aggregate.0@, self.from.stream_seq)
        &&& self.events@.last().source_stream_seq == self.to.stream_seq
    }
}

#[derive(Debug, Clone, PartialEq, Eq)]
pub struct ReplicationAck {
    pub schema_version: SchemaVersion,
    pub batch: ReplicationBatchRef,
    pub peer: FederatedPeerRef,
    pub aggregate: RunId,
    pub applied: ReplicationCursor,
    pub projection_digest: SchemaDigest,
}

impl ReplicationAck {
    pub open spec fn valid(&self) -> bool {
        &&& self.schema_version.0 != 0
        &&& !is_blank(self.batch.0@)
        &&& !is_blank(self.peer.0@)
        &&& !is_blank(self.aggregate.0@)
        &&& self.applied.valid()
        &&& !is_blank(self.projection_digest.0@)
    }

    pub fn validate(&self) -> (r: Result<(), Error>)
        ensures
            r is Ok <==> self.valid(),
    {
        if self.schema_version.0 == 0 {
            return Err(Error("replication ack schema is invalid".to_string()));
        }
        if blank(self.batch.0.as_str()) || blank(self.peer.0.as_str()) || blank(
            self.aggregate.0.as_str(),
        ) {
            return Err(Error("replication ack is incomplete".to_string()));
        }
        self.applied.validate()?;
        if blank(self.projection_digest.0.as_str()) {
            return Err(Error("replica projection digest is incomplete".to_string()));
        }
        Ok(())
    }
}

#[derive(Debug, Clone, PartialEq, Eq)]
pub struct ReplicationExportRequest {
    pub schema_version: SchemaVersion,
    pub peer: FederatedPeerRef,
    pub aggregate: RunId,
    pub after: ReplicationCursor,
    pub limit: u32,
    pub redaction: RedactionPolicyRef,
    pub grant: FederatedPeerGrantRef,
}

impl ReplicationExportRequest {
    pub open spec fn valid(&self) -> bool {
        &&& self.schema_version.0 != 0
        &&& self.limit != 0
        &&& !is_blank(self.peer.0@)
        &&& !is_blank(self.aggregate.0@)
        &&& !is_blank(self.grant.0@)
        &&& self.after.valid()
    }

    pub fn validate(&self) -> (r: Result<(), Error>)
        ensures
            r is Ok <==> self.valid(),
    {
        if self.schema_version.0 == 0 || self.limit == 0 {
            return Err(Error("replication export request is incomplete".to_string()));
        }
        if blank(self.peer.0.as_str()) || blank(self.aggregate.0.as_str()) || blank(
            self.grant.0.as_str(),
        ) {
            return Err(Error("replication export request is incomplete".to_string()));
        }
        self.after.validate()
    }
}

#[derive(Debug, Clone, PartialEq, Eq)]
pub struct ReplicaScope {
    pub schema_version: SchemaVersion,
    pub scopes: Vec<Scope>,
    pub allow_owner_view: bool,
}

impl ReplicaScope {
    pub open spec fn valid(&self) -> bool {
        &&& self.schema_version.0 != 0
        &&& self.scopes@.len() > 0
        &&& strictly_sorted(self.scopes@)
    }

    pub fn validate(&self) -> (r: Result<(), Error>)
        ensures
            r is Ok <==> self.valid(),
    {
        if self.schema_version.0 == 0 || self.scopes.len() == 0 {
            return Err(Error("replica scope is incomplete".to_string()));
        }
        if !check_strictly_sorted(&self.scopes) {
            return Err(Error("replica scopes are not sorted".to_string()));
        }
        Ok(())
    }
}

#[derive(Debug, Clone, PartialEq, Eq)]
pub struct ReplicaApplyReport {
    pub schema_version: SchemaVersion,
    pub batch: ReplicationBatchRef,
    pub status: ReplicaApplyStatus,
    pub cursor: ReplicationCursor,
    pub projection_digest: SchemaDigest,
    pub applied_events: Vec<EventId>,
}

#[derive(Debug, Clone, Copy, PartialEq, Eq, Hash, Structural)]
pub enum ReplicaApplyStatus {
    Applied,
    Duplicate,
}

#[derive(Debug, Clone, PartialEq, Eq)]
pub struct FederatedPeerState {
    pub schema_version: SchemaVersion,
    pub grant: FederatedPeerGrant,
    pub revoked: bool,
    pub last_seen_at: Option<Timestamp>,
}

#[derive(Debug, Clone, PartialEq, Eq)]
pub struct FederatedControlEnvelope {
    pub schema_version: SchemaVersion,
    pub peer: FederatedPeerRef,
    pub session: FederatedSessionRef,
    pub owner: VerifiedPrincipal,
    pub nonce: Nonce,
    pub expires_at: Timestamp,
    pub command_digest: SchemaDigest,
}

impl FederatedControlEnvelope {
    /// Unexpired at `now` and complete.
    pub open spec fn valid(&self, now: Timestamp) -> bool {
        &&& self.schema_version.0 != 0
        &&& self.expires_at > now
        &&& !is_blank(self.peer.0@)
        &&& !is_blank(self.session.0@)
        &&& !is_blank(self.owner.0@)
        &&& !is_blank(self.nonce.0@)
        &&& !is_blank(self.command_digest.0@)
    }

    pub fn validate(&self, now: Timestamp) -> (r: Result<(), Error>)
        ensures
            r is Ok <==> self.valid(now),
    {
        if self.schema_version.0 == 0 || self.expires_at <= now {
            return Err(Error("federated control envelope is expired or invalid".to_string()));
        }
        if blank(self.peer.0.as_str()) || blank(self.session.0.as_str()) || blank(
            self.owner.0.as_str(),
        ) || blank(self.nonce.0.as_str()) || blank(self.command_digest.0.as_str()) {
            return Err(Error("federated control envelope is incomplete".to_string()));
        }
        Ok(())
    }

    /// Checks the envelope and that it carries the digest of `command`, the
    /// canonical encoding of the command it authorizes.
    pub fn validate_command(&self, command: &Vec<u8>, now: Timestamp) -> (r: Result<(), Error>)
        ensures
            r is Ok <==> self.valid(now) && self.command_digest.0@ == canonical_digest_text(
                command@,
            ),
    {
        self.validate(now)?;
        if !same_text(&self.command_digest.0, &canonical_digest(command).0) {
            return Err(
                Error("federated control command digest does not match its envelope".to_string()),
            );
        }
        Ok(())
    }
}

#[derive(Debug, Clone, Copy, PartialEq, Eq, Hash, Structural)]
pub enum RetentionStatus {
    NotRequested,
    Requested,
    Verified,
    Unknown,
}

impl Named for RetentionStatus {
    open spec fn wire_name(&self) -> Seq<char> {
        match self {
            RetentionStatus::NotRequested => "NotRequested"@,
            RetentionStatus::Requested => "Requested"@,
            RetentionStatus::Verified => "Verified"@,
            RetentionStatus::Unknown => "Unknown"@,
        }
    }

    fn wire_str(&self) -> (r: &'static str) {
        match self {
            RetentionStatus::NotRequested => "NotRequested",
            RetentionStatus::Requested => "Requested",
            RetentionStatus::Verified => "Verified",
            RetentionStatus::Unknown => "Unknown",
        }
    }
}

#[derive(Debug, Clone, PartialEq, Eq)]
pub struct FederatedRetentionRequest {
    pub schema_version: SchemaVersion,
    pub request: RetentionRequestRef,
    pub peer: FederatedPeerRef,
    pub scope: Scope,
    pub authority_epoch: AuthorityEpoch,
    pub requested_by: OwnerControlRef,
    pub expires_at: Timestamp,
    pub digest: SchemaDigest,
}

impl FederatedRetentionRequest {
    /// The canonical form, with `d` in place of the digest.
    pub open spec fn put_with_digest(&self, acc: Seq<u8>, d: Seq<char>) -> Seq<u8> {
        let a = with_key(acc + seq![0x7bu8], "schema_version"@) + json_int(
            self.schema_version.0 as int,
        );
        let a = with_key(a + seq![0x2cu8], "request"@) + json_string(self.request.0@);
        let a = with_key(a + seq![0x2cu8], "peer"@) + json_string(self.peer.0@);
        let a = with_key(a + seq![0x2cu8], "scope"@) + json_string(self.scope.0@);
        let a = with_key(a + seq![0x2cu8], "authority_epoch"@) + json_int(
            self.authority_epoch.0 as int,
        );
        let a = with_key(a + seq![0x2cu8], "requested_by"@) + json_string(self.requested_by.0@);
        let a = with_key(a + seq![0x2cu8], "expires_at"@) + json_int(self.expires_at as int);
        let a = with_key(a + seq![0x2cu8], "digest"@) + json_string(d);
        a + seq![0x7du8]
    }

    pub fn write_with_digest(&self, buf: &mut Vec<u8>, d: &str)
        ensures
            final(buf)@ == self.put_with_digest(old(buf)@, d@),
    {
        put_mark(buf, 0x7b);
        put_key(buf, "schema_version");
        put_u64(buf, self.schema_version.0 as u64);
        put_mark(buf, 0x2c);
        put_key(buf, "request");
        put_str(buf, self.request.0.as_str());
        put_mark(buf, 0x2c);
        put_key(buf, "peer");
        put_str(buf, self.peer.0.as_str());
        put_mark(buf, 0x2c);
        put_key(buf, "scope");
        put_str(buf, self.scope.0.as_str());
        put_mark(buf, 0x2c);
        put_key(buf, "authority_epoch");
        put_u64(buf, self.authority_epoch.0);
        put_mark(buf, 0x2c);
        put_key(buf, "requested_by");
        put_str(buf, self.requested_by.0.as_str());
        put_mark(buf, 0x2c);
        put_key(buf, "expires_at");
        put_i64(buf, self.expires_at);
        put_mark(buf, 0x2c);
        put_key(buf, "digest");
        put_str(buf, d);
        put_mark(buf, 0x7d);
    }

    /// The canonical form with the digest cleared.
    pub open spec fn material(&self) -> Seq<u8> {
        self.put_with_digest(Seq::empty(), ""@)
    }

    pub fn encode_material(&self) -> (r: Vec<u8>)
        ensures
            r@ == self.material(),
    {
        let mut buf: Vec<u8> = Vec::new();
        self.write_with_digest(&mut buf, "");
        buf
    }

    pub open spec fn fields_valid(&self) -> bool {
        &&& self.schema_version.0 != 0
        &&& self.authority_epoch.0 != 0
        &&& self.expires_at > 0
        &&& !is_blank(self.request.0@)
        &&& !is_blank(self.peer.0@)
        &&& !is_blank(self.scope.0@)
        &&& !is_blank(self.requested_by.0@)
    }

    pub open spec fn valid(&self) -> bool {
        &&& self.fields_valid()
        &&& self.digest.0@ == canonical_digest_text(self.material())
    }

    pub fn validate(&self) -> (r: Result<(), Error>)
        ensures
            r is Ok <==> self.valid(),
    {
        if self.schema_version.0 == 0 || self.authority_epoch.0 == 0 || self.expires_at <= 0 {
            return Err(Error("federated retention request is incomplete".to_string()));
        }
        if blank(self.request.0.as_str()) || blank(self.peer.0.as_str()) || blank(
            self.scope.0.as_str(),
        ) || blank(self.requested_by.0.as_str()) {
            return Err(Error("federated retention request is incomplete".to_string()));
        }
        let material = self.encode_material();
        if !same_text(&self.digest.0, &canonical_digest(&material).0) {
            return Err(Error("retention request digest mismatch".to_string()));
        }
        Ok(())
    }

    /// Sets the digest to that of the request's contents, which are unchanged.
    pub fn refresh_digest(&mut self) -> (r: Result<(), Error>)
        ensures
            r is Ok,
            final(self).material() == old(self).material(),
            final(self).fields_valid() == old(self).fields_valid(),
            final(self).digest.0@ == canonical_digest_text(old(self).material()),
            final(self).valid() == old(self).fields_valid(),
    {
        let material = self.encode_material();
        self.digest = canonical_digest(&material);
        Ok(())
    }
}

#[derive(Debug, Clone, PartialEq, Eq)]
pub struct FederatedRetentionReceipt {
    pub schema_version: SchemaVersion,
    pub receipt: RetentionReceiptRef,
    pub request: RetentionRequestRef,
    pub peer: FederatedPeerRef,
    pub authority_epoch: AuthorityEpoch,
    pub deleted_projection: ReplicaProjectionDigestRef,
    pub evidence: Vec<EvidenceRef>,
    pub observed_at: Timestamp,
    pub digest: SchemaDigest,
}

impl FederatedRetentionReceipt {
    /// The canonical form, with `d` in place of the digest.
    pub open spec fn put_with_digest(&self, acc: Seq<u8>, d: Seq<char>) -> Seq<u8> {
        let a = with_key(acc + seq![0x7bu8], "schema_version"@) + json_int(
            self.schema_version.0 as int,
        );
        let a = with_key(a + seq![0x2cu8], "receipt"@) + json_string(self.receipt.0@);
        let a = with_key(a + seq![0x2cu8], "request"@) + json_string(self.request.0@);
        let a = with_key(a + seq![0x2cu8], "peer"@) + json_string(self.peer.0@);
        let a = with_key(a + seq![0x2cu8], "authority_epoch"@) + json_int(
            self.authority_epoch.0 as int,
        );
        let a = with_key(a + seq![0x2cu8], "deleted_projection"@) + json_string(
            self.deleted_projection.0@,
        );
        let a = with_texts(with_key(a + seq![0x2cu8], "evidence"@), self.evidence@);
        let a = with_key(a + seq![0x2cu8], "observed_at"@) + json_int(self.observed_at as int);
        let a = with_key(a + seq![0x2cu8], "digest"@) + json_string(d);
        a + seq![0x7du8]
    }

    pub fn write_with_digest(&self, buf: &mut Vec<u8>, d: &str)
        ensures
            final(buf)@ == self.put_with_digest(old(buf)@, d@),
    {
        put_mark(buf, 0x7b);
        put_key(buf, "schema_version");
        put_u64(buf, self.schema_version.0 as u64);
        put_mark(buf, 0x2c);
        put_key(buf, "receipt");
        put_str(buf, self.receipt.0.as_str());
        put_mark(buf, 0x2c);
        put_key(buf, "request");
        put_str(buf, self.request.0.as_str());
        put_mark(buf, 0x2c);
        put_key(buf, "peer");
        put_str(buf, self.peer.0.as_str());
        put_mark(buf, 0x2c);
        put_key(buf, "authority_epoch");
        put_u64(buf, self.authority_epoch.0);
        put_mark(buf, 0x2c);
        put_key(buf, "deleted_projection");
        put_str(buf, self.deleted_projection.0.as_str());
        put_mark(buf, 0x2c);
        put_key(buf, "evidence");
        put_texts(buf, &self.evidence);
        put_mark(buf, 0x2c);
        put_key(buf, "observed_at");
        put_i64(buf, self.observed_at);
        put_mark(buf, 0x2c);
        put_key(buf, "digest");
        put_str(buf, d);
        put_mark(buf, 0x7d);
    }

    pub open spec fn material(&self) -> Seq<u8> {
        self.put_with_digest(Seq::empty(), ""@)
    }

    pub fn encode_material(&self) -> (r: Vec<u8>)
        ensures
            r@ == self.material(),
    {
        let mut buf: Vec<u8> = Vec::new();
        self.write_with_digest(&mut buf, "");
        buf
    }

    pub open spec fn fields_valid(&self) -> bool {
        &&& self.schema_version.0 != 0
        &&& self.authority_epoch.0 != 0
        &&& self.observed_at > 0
        &&& self.evidence@.len() > 0
        &&& !is_blank(self.receipt.0@)
        &&& !is_blank(self.request.0@)
        &&& !is_blank(self.peer.0@)
        &&& !is_blank(self.deleted_projection.0@)
    }

    pub open spec fn valid(&self) -> bool {
        &&& self.fields_valid()
        &&& self.digest.0@ == canonical_digest_text(self.material())
    }

    pub fn validate(&self) -> (r: Result<(), Error>)
        ensures
            r is Ok <==> self.valid(),
    {
        if self.schema_version.0 == 0 || self.authority_epoch.0 == 0 || self.observed_at <= 0
            || self.evidence.len() == 0 {
            return Err(Error("federated retention receipt is incomplete".to_string()));
        }
        if blank(self.receipt.0.as_str()) || blank(self.request.0.as_str()) || blank(
            self.peer.0.as_str(),
        ) || blank(self.deleted_projection.0.as_str()) {
            return Err(Error("federated retention receipt is incomplete".to_string()));
        }
        let material = self.encode_material();
        if !same_text(&self.digest.0, &canonical_digest(&material).0) {
            return Err(Error("retention receipt digest mismatch".to_string()));
        }
        Ok(())
    }

    /// Sets the digest to that of the receipt's contents, which are unchanged.
    pub fn refresh_digest(&mut self) -> (r: Result<(), Error>)
        ensures
            r is Ok,
            final(self).material() == old(self).material(),
            final(self).fields_valid() == old(self).fields_valid(),
            final(self).digest.0@ == canonical_digest_text(old(self).material()),
            final(self).valid() == old(self).fields_valid(),
    {
        let material = self.encode_material();
        self.digest = canonical_digest(&material);
        Ok(())
    }
}

#[derive(Debug, Clone, PartialEq, Eq)]
pub struct FederatedRetentionState {
    pub schema_version: SchemaVersion,
    pub request: FederatedRetentionRequest,
    pub status: RetentionStatus,
    pub receipt: Option<FederatedRetentionReceipt>,
    pub digest: SchemaDigest,
}

impl FederatedRetentionState {
    pub open spec fn material(&self) -> Seq<u8> {
        let a = with_key(seq![0x7bu8], "schema_version"@) + json_int(self.schema_version.0 as int);
        let a = self.request.put_with_digest(
            with_key(a + seq![0x2cu8], "request"@),
            self.request.digest.0@,
        );
        let a = with_key(a + seq![0x2cu8], "status"@) + json_string(self.status.wire_name());
        let a = with_key(a + seq![0x2cu8], "receipt"@);
        let a = match self.receipt {
            Some(receipt) => receipt.put_with_digest(a, receipt.digest.0@),
            None => a + json_null(),
        };
        let a = with_key(a + seq![0x2cu8], "digest"@) + json_string(""@);
        a + seq![0x7du8]
    }

    pub fn encode_material(&self) -> (r: Vec<u8>)
        ensures
            r@ == self.material(),
    {
        let mut buf: Vec<u8> = Vec::new();
        put_mark(&mut buf, 0x7b);
        put_key(&mut buf, "schema_version");
        put_u64(&mut buf, self.schema_version.0 as u64);
        put_mark(&mut buf, 0x2c);
        put_key(&mut buf, "request");
        self.request.write_with_digest(&mut buf, self.request.digest.0.as_str());
        put_mark(&mut buf, 0x2c);
        put_key(&mut buf, "status");
        put_str(&mut buf, self.status.wire_str());
        put_mark(&mut buf, 0x2c);
        put_key(&mut buf, "receipt");
        match &self.receipt {
            Some(receipt) => receipt.write_with_digest(&mut buf, receipt.digest.0.as_str()),
            None => put_null(&mut buf),
        }
        put_mark(&mut buf, 0x2c);
        put_key(&mut buf, "digest");
        put_str(&mut buf, "");
        put_mark(&mut buf, 0x7d);
        assert(buf@ =~= self.material());
        buf
    }

    /// A verified state carries a valid receipt for its own request, peer and
    /// epoch; a requested or unknown one carries none.
    pub open spec fn status_matches_receipt(&self) -> bool {
        match (self.status, self.receipt) {
            (RetentionStatus::Verified, Some(receipt)) => {
                &&& receipt.valid()
                &&& receipt.request.0@ == self.request.request.0@
                &&& receipt.peer.0@ == self.request.peer.0@
                &&& receipt.authority_epoch == self.request.authority_epoch
            },
            (RetentionStatus::Requested, None) => true,
            (RetentionStatus::Unknown, None) => true,
            _ => false,
        }
    }

    pub open spec fn fields_valid(&self) -> bool {
        &&& self.schema_version.0 != 0
        &&& self.status != RetentionStatus::NotRequested
        &&& self.request.valid()
        &&& self.status_matches_receipt()
    }

    pub open spec fn valid(&self) -> bool {
        &&& self.fields_valid()
        &&& self.digest.0@ == canonical_digest_text(self.material())
    }

    pub fn validate(&self) -> (r: Result<(), Error>)
        ensures
            r is Ok <==> self.valid(),
    {
        if self.schema_version.0 == 0 || self.status == RetentionStatus::NotRequested {
            return Err(Error("federated retention state is incomplete".to_string()));
        }
        self.request.validate()?;
        match (&self.status, &self.receipt) {
            (RetentionStatus::Verified, Some(receipt)) => {
                receipt.validate()?;
                if !same_text(&receipt.request.0, &self.request.request.0) || !same_text(
                    &receipt.peer.0,
                    &self.request.peer.0,
                ) || receipt.authority_epoch.0 != self.request.authority_epoch.0 {
                    return Err(Error("retention state lineage is invalid".to_string()));
                }
            },
            (RetentionStatus::Requested, None) => {},
            (RetentionStatus::Unknown, None) => {},
            _ => {
                return Err(Error("retention state status and receipt disagree".to_string()));
            },
        }
        let material = self.encode_material();
        if !same_text(&self.digest.0, &canonical_digest(&material).0) {
            return Err(Error("retention state digest mismatch".to_string()));
        }
        Ok(())
    }

    /// Sets the digest to that of the state's contents, which are unchanged.
    pub fn refresh_digest(&mut self) -> (r: Result<(), Error>)
        ensures
            r is Ok,
            final(self).material() == old(self).material(),
            final(self).fields_valid() == old(self).fields_valid(),
            final(self).digest.0@ == canonical_digest_text(old(self).material()),
            final(self).valid() == old(self).fields_valid(),
    {
        let material = self.encode_material();
        self.digest = canonical_digest(&material);
        Ok(())
    }
}

#[derive(Debug, Clone, PartialEq, Eq)]
pub enum FederatedOwnerCommand {
    Register(FederatedPeerGrant),
    Revoke { peer: FederatedPeerRef, grant: FederatedPeerGrantRef, in_flight: InFlightDisposition },
    ResolveApproval { approval: ApprovalId, plan_digest: PlanDigest, outcome: ApprovalOutcome },
    Cancel { lease: RemoteExecutionLeaseRef, reason: ReasonRef },
    RequestRetention(FederatedRetentionRequest),
}

#[derive(Debug, Clone, Copy, PartialEq, Eq, Hash, Structural)]
pub enum ExecutorHealthState {
    Healthy,
    Stale,
    Unavailable,
}

impl Named for ExecutorHealthState {
    open spec fn wire_name(&self) -> Seq<char> {
        match self {
            ExecutorHealthState::Healthy => "Healthy"@,
            ExecutorHealthState::Stale => "Stale"@,
            ExecutorHealthState::Unavailable => "Unavailable"@,
        }
    }

    fn wire_str(&self) -> (r: &'static str) {
        match self {
            ExecutorHealthState::Healthy => "Healthy",
            ExecutorHealthState::Stale => "Stale",
            ExecutorHealthState::Unavailable => "Unavailable",
        }
    }
}

#[derive(Debug, Clone, PartialEq, Eq)]
pub struct FederatedExecutorCandidate {
    pub schema_version: SchemaVersion,
    pub peer: FederatedPeerRef,
    pub grant: FederatedPeerGrantRef,
    pub profile: ExecutorProfileRef,
    pub scope: Scope,
    pub capability: CapabilityRef,
    pub expires_at: Timestamp,
    pub health: ExecutorHealthState,
    pub health_observed_at: Timestamp,
    pub capability_evidence: Vec<CapabilityEvidenceRef>,
    pub failure_evidence: Vec<FailureEvidenceRef>,
    pub managed_policy_allowed: bool,
    pub score_basis_points: u16,
}

impl FederatedExecutorCandidate {
    /// A complete candidate with a score of at most 10000 basis points and
    /// evidence lists sorted without repeats.
    pub open spec fn valid(&self) -> bool {
        &&& self.schema_version.0 != 0
        &&& self.expires_at > 0
        &&& self.health_observed_at > 0
        &&& self.score_basis_points <= 10000
        &&& !is_blank(self.peer.0@)
        &&& !is_blank(self.grant.0@)
        &&& !is_blank(self.profile.0@)
        &&& !is_blank(self.scope.0@)
        &&& !is_blank(self.capability.0@)
        &&& strictly_sorted(self.capability_evidence@)
        &&& strictly_sorted(self.failure_evidence@)
    }

    pub fn validate(&self) -> (r: Result<(), Error>)
        ensures
            r is Ok <==> self.valid(),
    {
        if self.schema_version.0 == 0 || self.expires_at <= 0 || self.health_observed_at <= 0
            || self.score_basis_points > 10000 {
            return Err(Error("federated executor candidate is incomplete".to_string()));
        }
        if blank(self.peer.0.as_str()) || blank(self.grant.0.as_str()) || blank(
            self.profile.0.as_str(),
        ) || blank(self.scope.0.as_str()) || blank(self.capability.0.as_str()) {
            return Err(Error("federated executor candidate is incomplete".to_string()));
        }
        if !check_strictly_sorted(&self.capability_evidence) || !check_strictly_sorted(
            &self.failure_evidence,
        ) {
            return Err(Error("candidate evidence must be sorted and unique".to_string()));
        }
        Ok(())
    }

    #[verifier::opaque]
    pub open spec fn put_canonical(&self, acc: Seq<u8>) -> Seq<u8> {
        let a = with_key(acc + seq![0x7bu8], "schema_version"@) + json_int(
            self.schema_version.0 as int,
        );
        let a = with_key(a + seq![0x2cu8], "peer"@) + json_string(self.peer.0@);
        let a = with_key(a + seq![0x2cu8], "grant"@) + json_string(self.grant.0@);
        let a = with_key(a + seq![0x2cu8], "profile"@) + json_string(self.profile.0@);
        let a = with_key(a + seq![0x2cu8], "scope"@) + json_string(self.scope.0@);
        let a = with_key(a + seq![0x2cu8], "capability"@) + json_string(self.capability.0@);
        let a = with_key(a + seq![0x2cu8], "expires_at"@) + json_int(self.expires_at as int);
        let a = with_key(a + seq![0x2cu8], "health"@) + json_string(self.health.wire_name());
        let a = with_key(a + seq![0x2cu8], "health_observed_at"@) + json_int(
            self.health_observed_at as int,
        );
        let a = with_texts(
            with_key(a + seq![0x2cu8], "capability_evidence"@),
            self.capability_evidence@,
        );
        let a = with_texts(with_key(a + seq![0x2cu8], "failure_evidence"@), self.failure_evidence@);
        let a = with_key(a + seq![0x2cu8], "managed_policy_allowed"@) + json_bool(
            self.managed_policy_allowed,
        );
        let a = with_key(a + seq![0x2cu8], "score_basis_points"@) + json_int(
            self.score_basis_points as int,
        );
        a + seq![0x7du8]
    }

    pub fn write_canonical(&self, buf: &mut Vec<u8>)
        ensures
            final(buf)@ == self.put_canonical(old(buf)@),
    {
        put_mark(buf, 0x7b);
        put_key(buf, "schema_version");
        put_u64(buf, self.schema_version.0 as u64);
        put_mark(buf, 0x2c);
        put_key(buf, "peer");
        put_str(buf, self.peer.0.as_str());
        put_mark(buf, 0x2c);
        put_key(buf, "grant");
        put_str(buf, self.grant.0.as_str());
        put_mark(buf, 0x2c);
        put_key(buf, "profile");
        put_str(buf, self.profile.0.as_str());
        put_mark(buf, 0x2c);
        put_key(buf, "scope");
        put_str(buf, self.scope.0.as_str());
        put_mark(buf, 0x2c);
        put_key(buf, "capability");
        put_str(buf, self.capability.0.as_str());
        put_mark(buf, 0x2c);
        put_key(buf, "expires_at");
        put_i64(buf, self.expires_at);
        put_mark(buf, 0x2c);
        put_key(buf, "health");
        put_str(buf, self.health.wire_str());
        put_mark(buf, 0x2c);
        put_key(buf, "health_observed_at");
        put_i64(buf, self.health_observed_at);
        put_mark(buf, 0x2c);
        put_key(buf, "capability_evidence");
        put_texts(buf, &self.capability_evidence);
        put_mark(buf, 0x2c);
        put_key(buf, "failure_evidence");
        put_texts(buf, &self.failure_evidence);
        put_mark(buf, 0x2c);
        put_key(buf, "managed_policy_allowed");
        put_bool(buf, self.managed_policy_allowed);
        put_mark(buf, 0x2c);
        put_key(buf, "score_basis_points");
        put_u64(buf, self.score_basis_points as u64);
        put_mark(buf, 0x7d);
        proof {
            reveal(FederatedExecutorCandidate::put_canonical);
        }
    }
}

#[derive(Debug, Clone, Copy, PartialEq, Eq, Hash, Structural)]
pub enum PlacementFilterReason {
    GrantInactive,
    RoleDenied,
    ScopeDenied,
    CapabilityDenied,
    ManagedPolicyDenied,
    SchemaIncompatible,
    HealthStale,
    EvidenceInsufficient,
}

impl Named for PlacementFilterReason {
    open spec fn wire_name(&self) -> Seq<char> {
        match self {
            PlacementFilterReason::GrantInactive => "GrantInactive"@,
            PlacementFilterReason::RoleDenied => "RoleDenied"@,
            PlacementFilterReason::ScopeDenied => "ScopeDenied"@,
            PlacementFilterReason::CapabilityDenied => "CapabilityDenied"@,
            PlacementFilterReason::ManagedPolicyDenied => "ManagedPolicyDenied"@,
            PlacementFilterReason::SchemaIncompatible => "SchemaIncompatible"@,
            PlacementFilterReason::HealthStale => "HealthStale"@,
            PlacementFilterReason::EvidenceInsufficient => "EvidenceInsufficient"@,
        }
    }

    fn wire_str(&self) -> (r: &'static str) {
        match self {
            PlacementFilterReason::GrantInactive => "GrantInactive",
            PlacementFilterReason::RoleDenied => "RoleDenied",
            PlacementFilterReason::ScopeDenied => "ScopeDenied",
            PlacementFilterReason::CapabilityDenied => "CapabilityDenied",
            PlacementFilterReason::ManagedPolicyDenied => "ManagedPolicyDenied",
            PlacementFilterReason::SchemaIncompatible => "SchemaIncompatible",
            PlacementFilterReason::HealthStale => "HealthStale",
            PlacementFilterReason::EvidenceInsufficient => "EvidenceInsufficient",
        }
    }
}

#[derive(Debug, Clone, PartialEq, Eq)]
pub struct PlacementCandidateTrace {
    pub schema_version: SchemaVersion,
    pub candidate: FederatedExecutorCandidate,
    pub eligible: bool,
    pub reasons: Vec<PlacementFilterReason>,
}

impl PlacementCandidateTrace {
    /// A valid candidate that is eligible exactly when no filter reason was recorded.
    pub open spec fn valid(&self) -> bool {
        &&& self.candidate.valid()
        &&& self.schema_version.0 != 0
        &&& self.eligible <==> self.reasons@.len() == 0
    }

    pub fn validate(&self) -> (r: Result<(), Error>)
        ensures
            r is Ok <==> self.valid(),
    {
        self.candidate.validate()?;
        if self.schema_version.0 == 0 || (self.eligible && self.reasons.len() != 0) || (
        !self.eligible && self.reasons.len() == 0) {
            return Err(Error("placement candidate trace is inconsistent".to_string()));
        }
        Ok(())
    }

    pub open spec fn put_canonical(&self, acc: Seq<u8>) -> Seq<u8> {
        let a = with_key(acc + seq![0x7bu8], "schema_version"@) + json_int(
            self.schema_version.0 as int,
        );
        let a = self.candidate.put_canonical(with_key(a + seq![0x2cu8], "candidate"@));
        let a = with_key(a + seq![0x2cu8], "eligible"@) + json_bool(self.eligible);
        let a = with_names(with_key(a + seq![0x2cu8], "reasons"@), self.reasons@);
        a + seq![0x7du8]
    }

    pub fn write_canonical(&self, buf: &mut Vec<u8>)
        ensures
            final(buf)@ == self.put_canonical(old(buf)@),
    {
        put_mark(buf, 0x7b);
        put_key(buf, "schema_version");
        put_u64(buf, self.schema_version.0 as u64);
        put_mark(buf, 0x2c);
        put_key(buf, "candidate");
        self.candidate.write_canonical(buf);
        put_mark(buf, 0x2c);
        put_key(buf, "eligible");
        put_bool(buf, self.eligible);
        put_mark(buf, 0x2c);
        put_key(buf, "reasons");
        put_names(buf, &self.reasons);
        put_mark(buf, 0x7d);
    }
}

/// A JSON array of candidate traces, written after `acc`.
pub open spec fn with_traces(acc: Seq<u8>, v: Seq<PlacementCandidateTrace>) -> Seq<u8> {
    joined_traces(acc + seq![0x5bu8], v) + seq![0x5du8]
}

pub open spec fn joined_traces(acc: Seq<u8>, v: Seq<PlacementCandidateTrace>) -> Seq<u8>
    decreases v.len(),
{
    if v.len() == 0 {
        acc
    } else if v.len() == 1 {
        v[0].put_canonical(acc)
    } else {
        v.last().put_canonical(joined_traces(acc, v.drop_last()) + seq![0x2cu8])
    }
}

pub fn put_traces(buf: &mut Vec<u8>, v: &Vec<PlacementCandidateTrace>)
    ensures
        final(buf)@ == with_traces(old(buf)@, v@),
{
    let ghost start = buf@;
    buf.push(0x5b);
    let ghost open_acc = start + seq![0x5bu8];
    assert(buf@ =~= open_acc);
    let mut i: usize = 0;
    while i < v.len()
        invariant
            i <= v.len(),
            buf@ == joined_traces(open_acc, v@.subrange(0, i as int)),
        decreases v.len() - i,
    {
        let ghost prefix = v@.subrange(0, i as int);
        let ghost next = v@.subrange(0, i + 1);
        proof {
            assert(next.drop_last() =~= prefix);
            assert(next.last() == v@[i as int]);
        }
        if i > 0 {
            put_mark(buf, 0x2c);
            v[i].write_canonical(buf);
            proof {
                assert(next.len() > 1);
                assert(joined_traces(open_acc, next) == next.last().put_canonical(
                    joined_traces(open_acc, next.drop_last()) + seq![0x2cu8],
                ));
            }
        } else {
            v[i].write_canonical(buf);
            proof {
                assert(next.len() == 1);
                assert(next[0] == v@[0]);
                assert(joined_traces(open_acc, next) == next[0].put_canonical(open_acc));
            }
        }
        i = i + 1;
    }
    put_mark(buf, 0x5d);
    assert(v@.subrange(0, i as int) =~= v@);
}

/// The peers of the traced candidates, in order.
pub open spec fn traced_peers(v: Seq<PlacementCandidateTrace>) -> Seq<FederatedPeerRef> {
    v.map_values(|t: PlacementCandidateTrace| t.candidate.peer)
}

fn collect_traced_peers(v: &Vec<PlacementCandidateTrace>) -> (r: Vec<FederatedPeerRef>)
    ensures
        r@ == traced_peers(v@),
{
    let mut r: Vec<FederatedPeerRef> = Vec::new();
    let mut i: usize = 0;
    while i < v.len()
        invariant
            i <= v.len(),
            r@ == traced_peers(v@.subrange(0, i as int)),
        decreases v.len() - i,
    {
        r.push(v[i].candidate.peer.duplicate());
        i = i + 1;
        assert(r@ =~= traced_peers(v@.subrange(0, i as int)));
    }
    assert(v@.subrange(0, i as int) =~= v@);
    r
}

/// Some eligible candidate is the peer `chosen`.
pub open spec fn chosen_is_eligible(v: Seq<PlacementCandidateTrace>, chosen: Seq<char>) -> bool {
    exists|i: int| 0 <= i < v.len() && (#[trigger] v[i]).eligible && v[i].candidate.peer.0@ == chosen
}

fn check_chosen_is_eligible(v: &Vec<PlacementCandidateTrace>, chosen: &FederatedPeerRef) -> (r: bool)
    ensures
        r == chosen_is_eligible(v@, chosen.0@),
{
    let mut i: usize = 0;
    while i < v.len()
        invariant
            i <= v.len(),
            forall|j: int|
                0 <= j < i ==> !((#[trigger] v@[j]).eligible && v@[j].candidate.peer.0@
                    == chosen.0@),
        decreases v.len() - i,
    {
        if v[i].eligible && same_text(&v[i].candidate.peer.0, &chosen.0) {
            return true;
        }
        i = i + 1;
    }
    false
}

#[derive(Debug, Clone, PartialEq, Eq)]
pub struct FederatedPlacementDecision {
    pub schema_version: SchemaVersion,
    pub decision: PlacementDecisionRef,
    pub federation_snapshot: FederationSnapshotRef,
    pub scope: Scope,
    pub capability: CapabilityRef,
    pub evaluated_at: Timestamp,
    pub candidates: Vec<PlacementCandidateTrace>,
    pub chosen: Option<FederatedPeerRef>,
    pub placement: Option<RemotePlacementPlanRef>,
    pub digest: SchemaDigest,
}

impl FederatedPlacementDecision {
    pub open spec fn material(&self) -> Seq<u8> {
        let a = with_key(seq![0x7bu8], "schema_version"@) + json_int(self.schema_version.0 as int);
        let a = with_key(a + seq![0x2cu8], "decision"@) + json_string(self.decision.0@);
        let a = with_key(a + seq![0x2cu8], "federation_snapshot"@) + json_string(
            self.federation_snapshot.0@,
        );
        let a = with_key(a + seq![0x2cu8], "scope"@) + json_string(self.scope.0@);
        let a = with_key(a + seq![0x2cu8], "capability"@) + json_string(self.capability.0@);
        let a = with_key(a + seq![0x2cu8], "evaluated_at"@) + json_int(self.evaluated_at as int);
        let a = with_traces(with_key(a + seq![0x2cu8], "candidates"@), self.candidates@);
        let a = with_key(a + seq![0x2cu8], "chosen"@) + json_opt_text(
            match self.chosen {
                Some(p) => Some(p.0@),
                None => None,
            },
        );
        let a = with_key(a + seq![0x2cu8], "placement"@) + json_opt_text(
            match self.placement {
                Some(p) => Some(p.0@),
                None => None,
            },
        );
        let a = with_key(a + seq![0x2cu8], "digest"@) + json_string(""@);
        a + seq![0x7du8]
    }

    pub fn encode_material(&self) -> (r: Vec<u8>)
        ensures
            r@ == self.material(),
    {
        let mut buf: Vec<u8> = Vec::new();
        put_mark(&mut buf, 0x7b);
        put_key(&mut buf, "schema_version");
        put_u64(&mut buf, self.schema_version.0 as u64);
        put_mark(&mut buf, 0x2c);
        put_key(&mut buf, "decision");
        put_str(&mut buf, self.decision.0.as_str());
        put_mark(&mut buf, 0x2c);
        put_key(&mut buf, "federation_snapshot");
        put_str(&mut buf, self.federation_snapshot.0.as_str());
        put_mark(&mut buf, 0x2c);
        put_key(&mut buf, "scope");
        put_str(&mut buf, self.scope.0.as_str());
        put_mark(&mut buf, 0x2c);
        put_key(&mut buf, "capability");
        put_str(&mut buf, self.capability.0.as_str());
        put_mark(&mut buf, 0x2c);
        put_key(&mut buf, "evaluated_at");
        put_i64(&mut buf, self.evaluated_at);
        put_mark(&mut buf, 0x2c);
        put_key(&mut buf, "candidates");
        put_traces(&mut buf, &self.candidates);
        put_mark(&mut buf, 0x2c);
        put_key(&mut buf, "chosen");
        put_opt_text(
            &mut buf,
            match &self.chosen {
                Some(p) => Some(&p.0),
                None => None,
            },
        );
        put_mark(&mut buf, 0x2c);
        put_key(&mut buf, "placement");
        put_opt_text(
            &mut buf,
            match &self.placement {
                Some(p) => Some(&p.0),
                None => None,
            },
        );
        put_mark(&mut buf, 0x2c);
        put_key(&mut buf, "digest");
        put_str(&mut buf, "");
        put_mark(&mut buf, 0x7d);
        assert(buf@ =~= self.material());
        buf
    }

    /// An executor is chosen, with a placement, only among eligible
    /// candidates; otherwise neither is set.
    pub open spec fn choice_authorized(&self) -> bool {
        match (self.chosen, self.placement) {
            (Some(chosen), Some(_)) => chosen_is_eligible(self.candidates@, chosen.0@),
            (None, None) => true,
            _ => false,
        }
    }

    pub open spec fn fields_valid(&self) -> bool {
        &&& self.schema_version.0 != 0
        &&& self.evaluated_at > 0
        &&& self.candidates@.len() > 0
        &&& !is_blank(self.decision.0@)
        &&& !is_blank(self.federation_snapshot.0@)
        &&& !is_blank(self.scope.0@)
        &&& !is_blank(self.capability.0@)
        &&& forall|i: int| 0 <= i < self.candidates@.len() ==> (#[trigger] self.candidates@[i]).valid()
        &&& strictly_sorted(traced_peers(self.candidates@))
        &&& self.choice_authorized()
    }

    pub open spec fn valid(&self) -> bool {
        &&& self.fields_valid()
        &&& self.digest.0@ == canonical_digest_text(self.material())
    }

    fn validate_candidates(&self) -> (r: Result<(), Error>)
        ensures
            r is Ok <==> forall|i: int|
                0 <= i < self.candidates@.len() ==> (#[trigger] self.candidates@[i]).valid(),
    {
        let mut i: usize = 0;
        while i < self.candidates.len()
            invariant
                i <= self.candidates@.len(),
                forall|j: int| 0 <= j < i ==> (#[trigger] self.candidates@[j]).valid(),
            decreases self.candidates.len() - i,
        {
            self.candidates[i].validate()?;
            i = i + 1;
        }
        Ok(())
    }

    pub fn validate(&self) -> (r: Result<(), Error>)
        ensures
            r is Ok <==> self.valid(),
    {
        if self.schema_version.0 == 0 || self.evaluated_at <= 0 || self.candidates.len() == 0 {
            return Err(Error("federated placement decision is incomplete".to_string()));
        }
        if blank(self.decision.0.as_str()) || blank(self.federation_snapshot.0.as_str()) || blank(
            self.scope.0.as_str(),
        ) || blank(self.capability.0.as_str()) {
            return Err(Error("federated placement decision is incomplete".to_string()));
        }
        self.validate_candidates()?;
        let peers = collect_traced_peers(&self.candidates);
        if !check_strictly_sorted(&peers) {
            return Err(Error("placement candidates must be sorted and unique".to_string()));
        }
        let authorized = match (&self.chosen, &self.placement) {
            (Some(chosen), Some(_)) => check_chosen_is_eligible(&self.candidates, chosen),
            (None, None) => true,
            _ => false,
        };
        if !authorized {
            return Err(Error("placement chose an unauthorized executor".to_string()));
        }
        let material = self.encode_material();
        if !same_text(&self.digest.0, &canonical_digest(&material).0) {
            return Err(Error("placement decision digest mismatch".to_string()));
        }
        Ok(())
    }

    /// Sets the digest to that of the decision's contents, which are unchanged.
    pub fn refresh_digest(&mut self) -> (r: Result<(), Error>)
        ensures
            r is Ok,
            final(self).material() == old(self).material(),
            final(self).fields_valid() == old(self).fields_valid(),
            final(self).digest.0@ == canonical_digest_text(old(self).material()),
            final(self).valid() == old(self).fields_valid(),
    {
        let material = self.encode_material();
        self.digest = canonical_digest(&material);
        Ok(())
    }
}

#[derive(Debug, Clone, PartialEq, Eq)]
pub struct FederatedCheckpointArtifact {
    pub schema_version: SchemaVersion,
    pub reference: FederatedCheckpointArtifactRef,
    pub checkpoint: GoalCheckpoint,
    pub done_contract: DoneContractRef,
    pub verification_outcome: VerificationOutcome,
    pub verification_events: Vec<EventId>,
    pub artifacts: Vec<ContentRef>,
    pub spent_budget: Budget,
    pub remaining_budget: Budget,
    pub external_effects: Vec<EvidenceRef>,
    pub scope: Scope,
    pub policy: PolicyProfileRef,
    pub toolset: ToolsetRef,
    pub model: ModelProfileRef,
    pub evolution_snapshot: EvolutionSnapshotRef,
    pub federation_snapshot: FederationSnapshotRef,
    pub digest: SchemaDigest,
}

impl FederatedCheckpointArtifact {
    pub open spec fn material(&self) -> Seq<u8> {
        let a = with_key(seq![0x7bu8], "schema_version"@) + json_int(self.schema_version.0 as int);
        let a = with_key(a + seq![0x2cu8], "reference"@) + json_string(self.reference.0@);
        let a = self.checkpoint.put_canonical(with_key(a + seq![0x2cu8], "checkpoint"@));
        let a = with_key(a + seq![0x2cu8], "done_contract"@) + json_string(self.done_contract.0@);
        let a = self.verification_outcome.put_canonical(
            with_key(a + seq![0x2cu8], "verification_outcome"@),
        );
        let a = with_texts(
            with_key(a + seq![0x2cu8], "verification_events"@),
            self.verification_events@,
        );
        let a = with_texts(with_key(a + seq![0x2cu8], "artifacts"@), self.artifacts@);
        let a = with_key(a + seq![0x2cu8], "spent_budget"@) + json_string(self.spent_budget.0@);
        let a = with_key(a + seq![0x2cu8], "remaining_budget"@) + json_string(
            self.remaining_budget.0@,
        );
        let a = with_texts(with_key(a + seq![0x2cu8], "external_effects"@), self.external_effects@);
        let a = with_key(a + seq![0x2cu8], "scope"@) + json_string(self.scope.0@);
        let a = with_key(a + seq![0x2cu8], "policy"@) + json_string(self.policy.0@);
        let a = with_key(a + seq![0x2cu8], "toolset"@) + json_string(self.toolset.0@);
        let a = with_key(a + seq![0x2cu8], "model"@) + json_string(self.model.0@);
        let a = with_key(a + seq![0x2cu8], "evolution_snapshot"@) + json_string(
            self.evolution_snapshot.0@,
        );
        let a = with_key(a + seq![0x2cu8], "federation_snapshot"@) + json_string(
            self.federation_snapshot.0@,
        );
        let a = with_key(a + seq![0x2cu8], "digest"@) + json_string(""@);
        a + seq![0x7du8]
    }

    pub fn encode_material(&self) -> (r: Vec<u8>)
        ensures
            r@ == self.material(),
    {
        let mut buf: Vec<u8> = Vec::new();
        put_mark(&mut buf, 0x7b);
        put_key(&mut buf, "schema_version");
        put_u64(&mut buf, self.schema_version.0 as u64);
        put_mark(&mut buf, 0x2c);
        put_key(&mut buf, "reference");
        put_str(&mut buf, self.reference.0.as_str());
        put_mark(&mut buf, 0x2c);
        put_key(&mut buf, "checkpoint");
        self.checkpoint.write_canonical(&mut buf);
        put_mark(&mut buf, 0x2c);
        put_key(&mut buf, "done_contract");
        put_str(&mut buf, self.done_contract.0.as_str());
        put_mark(&mut buf, 0x2c);
        put_key(&mut buf, "verification_outcome");
        self.verification_outcome.write_canonical(&mut buf);
        put_mark(&mut buf, 0x2c);
        put_key(&mut buf, "verification_events");
        put_texts(&mut buf, &self.verification_events);
        put_mark(&mut buf, 0x2c);
        put_key(&mut buf, "artifacts");
        put_texts(&mut buf, &self.artifacts);
        put_mark(&mut buf, 0x2c);
        put_key(&mut buf, "spent_budget");
        put_str(&mut buf, self.spent_budget.0.as_str());
        put_mark(&mut buf, 0x2c);
        put_key(&mut buf, "remaining_budget");
        put_str(&mut buf, self.remaining_budget.0.as_str());
        put_mark(&mut buf, 0x2c);
        put_key(&mut buf, "external_effects");
        put_texts(&mut buf, &self.external_effects);
        put_mark(&mut buf, 0x2c);
        put_key(&mut buf, "scope");
        put_str(&mut buf, self.scope.0.as_str());
        put_mark(&mut buf, 0x2c);
        put_key(&mut buf, "policy");
        put_str(&mut buf, self.policy.0.as_str());
        put_mark(&mut buf, 0x2c);
        put_key(&mut buf, "toolset");
        put_str(&mut buf, self.toolset.0.as_str());
        put_mark(&mut buf, 0x2c);
        put_key(&mut buf, "model");
        put_str(&mut buf, self.model.0.as_str());
        put_mark(&mut buf, 0x2c);
        put_key(&mut buf, "evolution_snapshot");
        put_str(&mut buf, self.evolution_snapshot.0.as_str());
        put_mark(&mut buf, 0x2c);
        put_key(&mut buf, "federation_snapshot");
        put_str(&mut buf, self.federation_snapshot.0.as_str());
        put_mark(&mut buf, 0x2c);
        put_key(&mut buf, "digest");
        put_str(&mut buf, "");
        put_mark(&mut buf, 0x7d);
        assert(buf@ =~= self.material());
        buf
    }

    /// A durably verified checkpoint: it passed verification with evidence
    /// events, produced artifacts, and names every reference it rests on.
    pub open spec fn fields_valid(&self) -> bool {
        &&& self.schema_version.0 != 0
        &&& self.verification_outcome == VerificationOutcome::Pass
        &&& self.verification_events@.len() > 0
        &&& self.artifacts@.len() > 0
        &&& self.checkpoint.valid()
        &&& !is_blank(self.reference.0@)
        &&& !is_blank(self.done_contract.0@)
        &&& !is_blank(self.spent_budget.0@)
        &&& !is_blank(self.remaining_budget.0@)
        &&& !is_blank(self.scope.0@)
        &&& !is_blank(self.policy.0@)
        &&& !is_blank(self.toolset.0@)
        &&& !is_blank(self.model.0@)
        &&& !is_blank(self.evolution_snapshot.0@)
        &&& !is_blank(self.federation_snapshot.0@)
    }

    pub open spec fn valid(&self) -> bool {
        &&& self.fields_valid()
        &&& self.digest.0@ == canonical_digest_text(self.material())
    }

    pub fn validate(&self) -> (r: Result<(), Error>)
        ensures
            r is Ok <==> self.valid(),
    {
        let passed = match &self.verification_outcome {
            VerificationOutcome::Pass => true,
            _ => false,
        };
        if self.schema_version.0 == 0 || !passed || self.verification_events.len() == 0
            || self.artifacts.len() == 0 {
            return Err(Error("federated checkpoint is not durably verified".to_string()));
        }
        self.checkpoint.validate()?;
        if blank(self.reference.0.as_str()) || blank(self.done_contract.0.as_str()) || blank(
            self.spent_budget.0.as_str(),
        ) || blank(self.remaining_budget.0.as_str()) || blank(self.scope.0.as_str()) || blank(
            self.policy.0.as_str(),
        ) || blank(self.toolset.0.as_str()) || blank(self.model.0.as_str()) || blank(
            self.evolution_snapshot.0.as_str(),
        ) || blank(self.federation_snapshot.0.as_str()) {
            return Err(Error("federated checkpoint is incomplete".to_string()));
        }
        let material = self.encode_material();
        if !same_text(&self.digest.0, &canonical_digest(&material).0) {
            return Err(Error("federated checkpoint digest mismatch".to_string()));
        }
        Ok(())
    }

    /// Sets the digest to that of the checkpoint's contents, which are unchanged.
    pub fn refresh_digest(&mut self) -> (r: Result<(), Error>)
        ensures
            r is Ok,
            final(self).material() == old(self).material(),
            final(self).fields_valid() == old(self).fields_valid(),
            final(self).digest.0@ == canonical_digest_text(old(self).material()),
            final(self).valid() == old(self).fields_valid(),
    {
        let material = self.encode_material();
        self.digest = canonical_digest(&material);
        Ok(())
    }
}

#[derive(Debug, Clone, PartialEq, Eq)]
pub struct FederatedHandoffPlan {
    pub schema_version: SchemaVersion,
    pub checkpoint: FederatedCheckpointArtifactRef,
    pub from_run: RunId,
    pub next_run: RunId,
    pub target: FederatedPeerRef,
    pub placement: RemotePlacementPlanRef,
    pub evolution_snapshot: EvolutionSnapshotRef,
    pub federation_snapshot: FederationSnapshotRef,
    pub budget: Budget,
    pub digest: SchemaDigest,
}

impl FederatedHandoffPlan {
    pub open spec fn material(&self) -> Seq<u8> {
        let a = with_key(seq![0x7bu8], "schema_version"@) + json_int(self.schema_version.0 as int);
        let a = with_key(a + seq![0x2cu8], "checkpoint"@) + json_string(self.checkpoint.0@);
        let a = with_key(a + seq![0x2cu8], "from_run"@) + json_string(self.from_run.0@);
        let a = with_key(a + seq![0x2cu8], "next_run"@) + json_string(self.next_run.0@);
        let a = with_key(a + seq![0x2cu8], "target"@) + json_string(self.target.0@);
        let a = with_key(a + seq![0x2cu8], "placement"@) + json_string(self.placement.0@);
        let a = with_key(a + seq![0x2cu8], "evolution_snapshot"@) + json_string(
            self.evolution_snapshot.0@,
        );
        let a = with_key(a + seq![0x2cu8], "federation_snapshot"@) + json_string(
            self.federation_snapshot.0@,
        );
        let a = with_key(a + seq![0x2cu8], "budget"@) + json_string(self.budget.0@);
        let a = with_key(a + seq![0x2cu8], "digest"@) + json_string(""@);
        a + seq![0x7du8]
    }

    pub fn encode_material(&self) -> (r: Vec<u8>)
        ensures
            r@ == self.material(),
    {
        let mut buf: Vec<u8> = Vec::new();
        put_mark(&mut buf, 0x7b);
        put_key(&mut buf, "schema_version");
        put_u64(&mut buf, self.schema_version.0 as u64);
        put_mark(&mut buf, 0x2c);
        put_key(&mut buf, "checkpoint");
        put_str(&mut buf, self.checkpoint.0.as_str());
        put_mark(&mut buf, 0x2c);
        put_key(&mut buf, "from_run");
        put_str(&mut buf, self.from_run.0.as_str());
        put_mark(&mut buf, 0x2c);
        put_key(&mut buf, "next_run");
        put_str(&mut buf, self.next_run.0.as_str());
        put_mark(&mut buf, 0x2c);
        put_key(&mut buf, "target");
        put_str(&mut buf, self.target.0.as_str());
        put_mark(&mut buf, 0x2c);
        put_key(&mut buf, "placement");
        put_str(&mut buf, self.placement.0.as_str());
        put_mark(&mut buf, 0x2c);
        put_key(&mut buf, "evolution_snapshot");
        put_str(&mut buf, self.evolution_snapshot.0.as_str());
        put_mark(&mut buf, 0x2c);
        put_key(&mut buf, "federation_snapshot");
        put_str(&mut buf, self.federation_snapshot.0.as_str());
        put_mark(&mut buf, 0x2c);
        put_key(&mut buf, "budget");
        put_str(&mut buf, self.budget.0.as_str());
        put_mark(&mut buf, 0x2c);
        put_key(&mut buf, "digest");
        put_str(&mut buf, "");
        put_mark(&mut buf, 0x7d);
        assert(buf@ =~= self.material());
        buf
    }

    /// A complete plan that hands a checkpoint on to a different run.
    pub open spec fn fields_valid(&self) -> bool {
        &&& self.schema_version.0 != 0
        &&& self.from_run.0@ != self.next_run.0@
        &&& !is_blank(self.checkpoint.0@)
        &&& !is_blank(self.from_run.0@)
        &&& !is_blank(self.next_run.0@)
        &&& !is_blank(self.target.0@)
        &&& !is_blank(self.placement.0@)
        &&& !is_blank(self.evolution_snapshot.0@)
        &&& !is_blank(self.federation_snapshot.0@)
        &&& !is_blank(self.budget.0@)
    }

    pub open spec fn valid(&self) -> bool {
        &&& self.fields_valid()
        &&& self.digest.0@ == canonical_digest_text(self.material())
    }

    pub fn validate(&self) -> (r: Result<(), Error>)
        ensures
            r is Ok <==> self.valid(),
    {
        if self.schema_version.0 == 0 || same_text(&self.from_run.0, &self.next_run.0) {
            return Err(Error("federated handoff plan is incomplete".to_string()));
        }
        if blank(self.checkpoint.0.as_str()) || blank(self.from_run.0.as_str()) || blank(
            self.next_run.0.as_str(),
        ) || blank(self.target.0.as_str()) || blank(self.placement.0.as_str()) || blank(
            self.evolution_snapshot.0.as_str(),
        ) || blank(self.federation_snapshot.0.as_str()) || blank(self.budget.0.as_str()) {
            return Err(Error("federated handoff plan is incomplete".to_string()));
        }
        let material = self.encode_material();
        if !same_text(&self.digest.0, &canonical_digest(&material).0) {
            return Err(Error("federated handoff digest mismatch".to_string()));
        }
        Ok(())
    }

    /// Sets the digest to that of the plan's contents, which are unchanged.
    pub fn refresh_digest(&mut self) -> (r: Result<(), Error>)
        ensures
            r is Ok,
            final(self).material() == old(self).material(),
            final(self).fields_valid() == old(self).fields_valid(),
            final(self).digest.0@ == canonical_digest_text(old(self).material()),
            final(self).valid() == old(self).fields_valid(),
    {
        let material = self.encode_material();
        self.digest = canonical_digest(&material);
        Ok(())
    }
}

#[derive(Debug, Clone, Copy, PartialEq, Eq, Hash, Structural)]
pub enum FederatedSignalKind {
    Tick,
    Reconnect,
    Foreground,
    Cancel,
}

impl Named for FederatedSignalKind {
    open spec fn wire_name(&self) -> Seq<char> {
        match self {
            FederatedSignalKind::Tick => "Tick"@,
            FederatedSignalKind::Reconnect => "Reconnect"@,
            FederatedSignalKind::Foreground => "Foreground"@,
            FederatedSignalKind::Cancel => "Cancel"@,
        }
    }

    fn wire_str(&self) -> (r: &'static str) {
        match self {
            FederatedSignalKind::Tick => "Tick",
            FederatedSignalKind::Reconnect => "Reconnect",
            FederatedSignalKind::Foreground => "Foreground",
            FederatedSignalKind::Cancel => "Cancel",
        }
    }
}


#[derive(Debug, Clone, PartialEq, Eq)]
pub struct FederatedDeviceSignal {
    pub schema_version: SchemaVersion,
    pub signal: FederatedDeviceSignalRef,
    pub peer: FederatedPeerRef,
    pub session: FederatedSessionRef,
    pub kind: FederatedSignalKind,
    pub nonce: Nonce,
    pub observed_at: Timestamp,
    pub expires_at: Timestamp,
    pub digest: SchemaDigest,
}

impl FederatedDeviceSignal {
    pub open spec fn material(&self) -> Seq<u8> {
        let a = with_key(seq![0x7bu8], "schema_version"@) + json_int(self.schema_version.0 as int);
        let a = with_key(a + seq![0x2cu8], "signal"@) + json_string(self.signal.0@);
        let a = with_key(a + seq![0x2cu8], "peer"@) + json_string(self.peer.0@);
        let a = with_key(a + seq![0x2cu8], "session"@) + json_string(self.session.0@);
        let a = with_key(a + seq![0x2cu8], "kind"@) + json_string(self.kind.wire_name());
        let a = with_key(a + seq![0x2cu8], "nonce"@) + json_string(self.nonce.0@);
        let a = with_key(a + seq![0x2cu8], "observed_at"@) + json_int(self.observed_at as int);
        let a = with_key(a + seq![0x2cu8], "expires_at"@) + json_int(self.expires_at as int);
        let a = with_key(a + seq![0x2cu8], "digest"@) + json_string(""@);
        a + seq![0x7du8]
    }

    pub fn encode_material(&self) -> (r: Vec<u8>)
        ensures
            r@ == self.material(),
    {
        let mut buf: Vec<u8> = Vec::new();
        put_mark(&mut buf, 0x7b);
        put_key(&mut buf, "schema_version");
        put_u64(&mut buf, self.schema_version.0 as u64);
        put_mark(&mut buf, 0x2c);
        put_key(&mut buf, "signal");
        put_str(&mut buf, self.signal.0.as_str());
        put_mark(&mut buf, 0x2c);
        put_key(&mut buf, "peer");
        put_str(&mut buf, self.peer.0.as_str());
        put_mark(&mut buf, 0x2c);
        put_key(&mut buf, "session");
        put_str(&mut buf, self.session.0.as_str());
        put_mark(&mut buf, 0x2c);
        put_key(&mut buf, "kind");
        put_str(&mut buf, self.kind.wire_str());
        put_mark(&mut buf, 0x2c);
        put_key(&mut buf, "nonce");
        put_str(&mut buf, self.nonce.0.as_str());
        put_mark(&mut buf, 0x2c);
        put_key(&mut buf, "observed_at");
        put_i64(&mut buf, self.observed_at);
        put_mark(&mut buf, 0x2c);
        put_key(&mut buf, "expires_at");
        put_i64(&mut buf, self.expires_at);
        put_mark(&mut buf, 0x2c);
        put_key(&mut buf, "digest");
        put_str(&mut buf, "");
        put_mark(&mut buf, 0x7d);
        assert(buf@ =~= self.material());
        buf
    }

    /// Observed before it expires, unexpired at `now`, and complete.
    pub open spec fn fields_valid(&self, now: Timestamp) -> bool {
        &&& self.schema_version.0 != 0
        &&& self.observed_at > 0
        &&& self.expires_at > now
        &&& self.observed_at < self.expires_at
        &&& !is_blank(self.signal.0@)
        &&& !is_blank(self.peer.0@)
        &&& !is_blank(self.session.0@)
        &&& !is_blank(self.nonce.0@)
    }

    pub open spec fn valid(&self, now: Timestamp) -> bool {
        &&& self.fields_valid(now)
        &&& self.digest.0@ == canonical_digest_text(self.material())
    }

    pub fn validate(&self, now: Timestamp) -> (r: Result<(), Error>)
        ensures
            r is Ok <==> self.valid(now),
    {
        if self.schema_version.0 == 0 || self.observed_at <= 0 || self.expires_at <= now
            || self.observed_at >= self.expires_at {
            return Err(Error("federated device signal is expired or invalid".to_string()));
        }
        if blank(self.signal.0.as_str()) || blank(self.peer.0.as_str()) || blank(
            self.session.0.as_str(),
        ) || blank(self.nonce.0.as_str()) {
            return Err(Error("federated device signal is incomplete".to_string()));
        }
        let material = self.encode_material();
        if !same_text(&self.digest.0, &canonical_digest(&material).0) {
            return Err(Error("federated device signal digest mismatch".to_string()));
        }
        Ok(())
    }

    /// Sets the digest to that of the signal's contents, which are unchanged.
    pub fn refresh_digest(&mut self) -> (r: Result<(), Error>)
        ensures
            r is Ok,
            final(self).material() == old(self).material(),
            final(self).digest.0@ == canonical_digest_text(old(self).material()),
            forall|now: Timestamp| #[trigger] final(self).valid(now) == old(self).fields_valid(now),
    {
        let material = self.encode_material();
        self.digest = canonical_digest(&material);
        Ok(())
    }
}

#[derive(Debug, Clone, PartialEq, Eq)]
pub struct FederatedPeerManifest {
    pub schema_version: SchemaVersion,
    pub peer: FederatedPeerRef,
    pub roles: Vec<FederatedPeerRole>,
    pub scopes: Vec<Scope>,
    pub transport_identity: TransportIdentityDigest,
    pub authority_epoch: AuthorityEpoch,
    pub grant_version: PeerGrantVersion,
    pub expires_at: Timestamp,
    pub grant_ref: FederatedPeerGrantRef,
}

impl FederatedPeerManifest {
    /// A complete manifest whose roles and scopes are sorted without repeats.
    pub open spec fn valid(&self) -> bool {
        &&& self.schema_version.0 != 0
        &&& self.roles@.len() > 0
        &&& self.scopes@.len() > 0
        &&& self.authority_epoch.0 != 0
        &&& self.expires_at > 0
        &&& !is_blank(self.peer.0@)
        &&& !is_blank(self.transport_identity.0@)
        &&& !is_blank(self.grant_ref.0@)
        &&& self.grant_version.0 != 0
        &&& tags_increasing(self.roles@)
        &&& strictly_sorted(self.scopes@)
    }

    pub fn validate(&self) -> (r: Result<(), Error>)
        ensures
            r is Ok <==> self.valid(),
    {
        if self.schema_version.0 == 0 || self.roles.len() == 0 || self.scopes.len() == 0
            || self.authority_epoch.0 == 0 || self.expires_at <= 0 {
            return Err(Error("federated peer manifest is incomplete".to_string()));
        }
        if blank(self.peer.0.as_str()) || blank(self.transport_identity.0.as_str()) || blank(
            self.grant_ref.0.as_str(),
        ) {
            return Err(Error("federated peer manifest is incomplete".to_string()));
        }
        self.grant_version.validate()?;
        if !check_tags_increasing(&self.roles) || !check_strictly_sorted(&self.scopes) {
            return Err(Error("peer manifest lists must be sorted and unique".to_string()));
        }
        Ok(())
    }
}

#[derive(Debug, Clone, PartialEq, Eq)]
pub struct ReplicationManifest {
    pub schema_version: SchemaVersion,
    pub peer: FederatedPeerRef,
    pub aggregate: RunId,
    pub from: ReplicationCursor,
    pub to: ReplicationCursor,
    pub batch: ReplicationBatchRef,
    pub batch_digest: SchemaDigest,
    pub event_digests: Vec<SchemaDigest>,
    pub redaction: RedactionPolicyRef,
    pub authority_epoch: AuthorityEpoch,
}

impl ReplicationManifest {
    /// Both cursors belong to the manifest's peer, aggregate and epoch, and
    /// it lists one event digest for each position between them.
    pub open spec fn lineage_valid(&self) -> bool {
        &&& self.peer.0@ == self.from.peer.0@
        &&& self.peer.0@ == self.to.peer.0@
        &&& self.aggregate.0@ == self.from.aggregate.0@
        &&& self.aggregate.0@ == self.to.aggregate.0@
        &&& self.authority_epoch == self.from.authority_epoch
        &&& self.authority_epoch == self.to.authority_epoch
        &&& self.from.stream_seq < self.to.stream_seq
        &&& self.event_digests@.len() == self.to.stream_seq - self.from.stream_seq
    }

    pub open spec fn valid(&self) -> bool {
        &&& self.schema_version.0 != 0
        &&& self.authority_epoch.0 != 0
        &&& self.event_digests@.len() > 0
        &&& self.from.valid()
        &&& self.to.valid()
        &&& !is_blank(self.peer.0@)
        &&& !is_blank(self.aggregate.0@)
        &&& !is_blank(self.batch.0@)
        &&& !is_blank(self.batch_digest.0@)
        &&& !is_blank(self.redaction.0@)
        &&& self.lineage_valid()
    }

    pub fn validate(&self) -> (r: Result<(), Error>)
        ensures
            r is Ok <==> self.valid(),
    {
        if self.schema_version.0 == 0 || self.authority_epoch.0 == 0 || self.event_digests.len()
            == 0 {
            return Err(Error("replication manifest is incomplete".to_string()));
        }
        self.from.validate()?;
        self.to.validate()?;
        if blank(self.peer.0.as_str()) || blank(self.aggregate.0.as_str()) || blank(
            self.batch.0.as_str(),
        ) || blank(self.batch_digest.0.as_str()) || blank(self.redaction.0.as_str()) {
            return Err(Error("replication manifest is incomplete".to_string()));
        }
        if !same_text(&self.peer.0, &self.from.peer.0) || !same_text(&self.peer.0, &self.to.peer.0)
            || !same_text(&self.aggregate.0, &self.from.aggregate.0) || !same_text(
            &self.aggregate.0,
            &self.to.aggregate.0,
        ) || self.authority_epoch.0 != self.from.authority_epoch.0 || self.authority_epoch.0
            != self.to.authority_epoch.0 || self.to.stream_seq <= self.from.stream_seq {
            return Err(Error("replication manifest cursor lineage is invalid".to_string()));
        }
        let span: u64 = self.to.stream_seq - self.from.stream_seq;
        if self.event_digests.len() as u64 != span {
            return Err(Error("replication manifest cursor lineage is invalid".to_string()));
        }
        Ok(())
    }
}

#[derive(Debug, Clone, PartialEq, Eq)]
pub struct FederatedTraceManifest {
    pub schema_version: SchemaVersion,
    pub run: RunId,
    pub owner_commands: Vec<EventId>,
    pub approvals: Vec<EventId>,
    pub leases: Vec<EventId>,
    pub actions: Vec<EventId>,
    pub verifications: Vec<EventId>,
    pub replication: Vec<EventId>,
    pub recovery: Vec<EventId>,
    pub revocations: Vec<EventId>,
}

impl FederatedTraceManifest {
    /// Every referenced event, list after list.
    pub open spec fn all_events(&self) -> Seq<EventId> {
        self.owner_commands@ + self.approvals@ + self.leases@ + self.actions@
            + self.verifications@ + self.replication@ + self.recovery@ + self.revocations@
    }

    fn collect_events(&self) -> (r: Vec<EventId>)
        ensures
            r@ == self.all_events(),
    {
        let mut all = duplicate_all(&self.owner_commands);
        let mut more = duplicate_all(&self.approvals);
        all.append(&mut more);
        let mut more = duplicate_all(&self.leases);
        all.append(&mut more);
        let mut more = duplicate_all(&self.actions);
        all.append(&mut more);
        let mut more = duplicate_all(&self.verifications);
        all.append(&mut more);
        let mut more = duplicate_all(&self.replication);
        all.append(&mut more);
        let mut more = duplicate_all(&self.recovery);
        all.append(&mut more);
        let mut more = duplicate_all(&self.revocations);
        all.append(&mut more);
        all
    }

    /// The run is named and the manifest references at least one event,
    /// none blank and none twice.
    pub open spec fn valid(&self) -> bool {
        &&& self.schema_version.0 != 0
        &&& !is_blank(self.run.0@)
        &&& self.all_events().len() > 0
        &&& none_blank(self.all_events())
        &&& distinct_texts(self.all_events())
    }

    pub fn validate(&self) -> (r: Result<(), Error>)
        ensures
            r is Ok <==> self.valid(),
    {
        if self.schema_version.0 == 0 || blank(self.run.0.as_str()) {
            return Err(Error("federated trace manifest is incomplete".to_string()));
        }
        let all = self.collect_events();
        if all.len() == 0 || !check_none_blank(&all) || !check_distinct_texts(&all) {
            return Err(
                Error("federated trace references must be non-empty and unique".to_string()),
            );
        }
        Ok(())
    }
}

#[derive(Debug, Clone, PartialEq, Eq)]
pub struct FederationGoldenReport {
    pub schema_version: SchemaVersion,
    pub scenario: String,
    pub event_kinds: Vec<EventKind>,
    pub authority_driver_calls: u32,
    pub mutation_ordinal: u64,
    pub replica_cursor: Option<ReplicationCursor>,
    pub secret_scan_matches: u32,
    pub negative_assertions: Vec<String>,
    pub trace_digest: SchemaDigest,
}

impl FederationGoldenReport {
    /// Complete evidence of one run: one authority driver call, the first
    /// mutation, no secret found, and at least one filled negative assertion.
    pub open spec fn valid(&self) -> bool {
        &&& self.schema_version.0 != 0
        &&& !is_blank(self.scenario@)
        &&& self.event_kinds@.len() > 0
        &&& self.authority_driver_calls == 1
        &&& self.mutation_ordinal == 1
        &&& self.secret_scan_matches == 0
        &&& all_filled(self.negative_assertions@)
        &&& !is_blank(self.trace_digest.0@)
        &&& match self.replica_cursor {
            Some(cursor) => cursor.valid(),
            None => true,
        }
    }

    pub fn validate(&self) -> (r: Result<(), Error>)
        ensures
            r is Ok <==> self.valid(),
    {
        if self.schema_version.0 == 0 || blank(self.scenario.as_str()) || self.event_kinds.len()
            == 0 || self.authority_driver_calls != 1 || self.mutation_ordinal != 1
            || self.secret_scan_matches != 0 || !check_all_filled(&self.negative_assertions) {
            return Err(Error("federation golden report is not complete evidence".to_string()));
        }
        if blank(self.trace_digest.0.as_str()) {
            return Err(Error("federation golden trace digest is incomplete".to_string()));
        }
        if let Some(cursor) = &self.replica_cursor {
            cursor.validate()?;
        }
        Ok(())
    }
}

impl RemoteExecutionLease {
    #[verifier::opaque]
    pub open spec fn put_canonical(&self, acc: Seq<u8>) -> Seq<u8> {
        let a = with_key(acc + seq![0x7bu8], "schema_version"@) + json_int(self.schema_version.0 as int);
        let a = with_key(a + seq![0x2cu8], "lease"@) + json_string(self.lease.0@);
        let a = with_key(a + seq![0x2cu8], "dispatch"@) + json_string(self.dispatch.0@);
        let a = with_key(a + seq![0x2cu8], "intent"@) + json_string(self.intent.0@);
        let a = with_key(a + seq![0x2cu8], "plan_digest"@) + json_string(self.plan_digest.0@);
        let a = with_key(a + seq![0x2cu8], "placement"@) + json_string(self.placement.0@);
        let a = with_key(a + seq![0x2cu8], "executor"@) + json_string(self.executor.0@);
        let a = with_key(a + seq![0x2cu8], "peer_grant"@) + json_string(self.peer_grant.0@);
        let a = with_key(a + seq![0x2cu8], "grant_version"@) + json_int(self.grant_version.0 as int);
        let a = with_key(a + seq![0x2cu8], "authority_epoch"@) + json_int(self.authority_epoch.0 as int);
        let a = with_key(a + seq![0x2cu8], "fence"@) + json_int(self.fence.0 as int);
        let a = with_key(a + seq![0x2cu8], "expires_at"@) + json_int(self.expires_at as int);
        let a = with_key(a + seq![0x2cu8], "state"@) + json_string(self.state.wire_name());
        a + seq![0x7du8]
    }

    pub fn write_canonical(&self, buf: &mut Vec<u8>)
        ensures
            final(buf)@ == self.put_canonical(old(buf)@),
    {
        put_mark(buf, 0x7b);
        put_key(buf, "schema_version");
        put_u64(buf, self.schema_version.0 as u64);
        put_mark(buf, 0x2c);
        put_key(buf, "lease");
        put_str(buf, self.lease.0.as_str());
        put_mark(buf, 0x2c);
        put_key(buf, "dispatch");
        put_str(buf, self.dispatch.0.as_str());
        put_mark(buf, 0x2c);
        put_key(buf, "intent");
        put_str(buf, self.intent.0.as_str());
        put_mark(buf, 0x2c);
        put_key(buf, "plan_digest");
        put_str(buf, self.plan_digest.0.as_str());
        put_mark(buf, 0x2c);
        put_key(buf, "placement");
        put_str(buf, self.placement.0.as_str());
        put_mark(buf, 0x2c);
        put_key(buf, "executor");
        put_str(buf, self.executor.0.as_str());
        put_mark(buf, 0x2c);
        put_key(buf, "peer_grant");
        put_str(buf, self.peer_grant.0.as_str());
        put_mark(buf, 0x2c);
        put_key(buf, "grant_version");
        put_u64(buf, self.grant_version.0 as u64);
        put_mark(buf, 0x2c);
        put_key(buf, "authority_epoch");
        put_u64(buf, self.authority_epoch.0 as u64);
        put_mark(buf, 0x2c);
        put_key(buf, "fence");
        put_u64(buf, self.fence.0 as u64);
        put_mark(buf, 0x2c);
        put_key(buf, "expires_at");
        put_i64(buf, self.expires_at);
        put_mark(buf, 0x2c);
        put_key(buf, "state");
        put_str(buf, self.state.wire_str());
        put_mark(buf, 0x7d);
        proof {
            reveal(RemoteExecutionLease::put_canonical);
        }
    }
}

impl RemoteProbeRequest {
    #[verifier::opaque]
    pub open spec fn put_canonical(&self, acc: Seq<u8>) -> Seq<u8> {
        let a = with_key(acc + seq![0x7bu8], "schema_version"@) + json_int(self.schema_version.0 as int);
        let a = with_key(a + seq![0x2cu8], "lease"@) + json_string(self.lease.0@);
        let a = with_key(a + seq![0x2cu8], "dispatch"@) + json_string(self.dispatch.0@);
        let a = with_key(a + seq![0x2cu8], "authority_epoch"@) + json_int(self.authority_epoch.0 as int);
        let a = with_key(a + seq![0x2cu8], "fence"@) + json_int(self.fence.0 as int);
        let a = with_key(a + seq![0x2cu8], "nonce"@) + json_string(self.nonce.0@);
        a + seq![0x7du8]
    }

    pub fn write_canonical(&self, buf: &mut Vec<u8>)
        ensures
            final(buf)@ == self.put_canonical(old(buf)@),
    {
        put_mark(buf, 0x7b);
        put_key(buf, "schema_version");
        put_u64(buf, self.schema_version.0 as u64);
        put_mark(buf, 0x2c);
        put_key(buf, "lease");
        put_str(buf, self.lease.0.as_str());
        put_mark(buf, 0x2c);
        put_key(buf, "dispatch");
        put_str(buf, self.dispatch.0.as_str());
        put_mark(buf, 0x2c);
        put_key(buf, "authority_epoch");
        put_u64(buf, self.authority_epoch.0 as u64);
        put_mark(buf, 0x2c);
        put_key(buf, "fence");
        put_u64(buf, self.fence.0 as u64);
        put_mark(buf, 0x2c);
        put_key(buf, "nonce");
        put_str(buf, self.nonce.0.as_str());
        put_mark(buf, 0x7d);
        proof {
            reveal(RemoteProbeRequest::put_canonical);
        }
    }
}

impl RemoteCancelRequest {
    #[verifier::opaque]
    pub open spec fn put_canonical(&self, acc: Seq<u8>) -> Seq<u8> {
        let a = with_key(acc + seq![0x7bu8], "schema_version"@) + json_int(self.schema_version.0 as int);
        let a = with_key(a + seq![0x2cu8], "lease"@) + json_string(self.lease.0@);
        let a = with_key(a + seq![0x2cu8], "dispatch"@) + json_string(self.dispatch.0@);
        let a = with_key(a + seq![0x2cu8], "authority_epoch"@) + json_int(self.authority_epoch.0 as int);
        let a = with_key(a + seq![0x2cu8], "fence"@) + json_int(self.fence.0 as int);
        let a = with_key(a + seq![0x2cu8], "nonce"@) + json_string(self.nonce.0@);
        let a = with_key(a + seq![0x2cu8], "reason"@) + json_string(self.reason.0@);
        a + seq![0x7du8]
    }

    pub fn write_canonical(&self, buf: &mut Vec<u8>)
        ensures
            final(buf)@ == self.put_canonical(old(buf)@),
    {
        put_mark(buf, 0x7b);
        put_key(buf, "schema_version");
        put_u64(buf, self.schema_version.0 as u64);
        put_mark(buf, 0x2c);
        put_key(buf, "lease");
        put_str(buf, self.lease.0.as_str());
        put_mark(buf, 0x2c);
        put_key(buf, "dispatch");
        put_str(buf, self.dispatch.0.as_str());
        put_mark(buf, 0x2c);
        put_key(buf, "authority_epoch");
        put_u64(buf, self.authority_epoch.0 as u64);
        put_mark(buf, 0x2c);
        put_key(buf, "fence");
        put_u64(buf, self.fence.0 as u64);
        put_mark(buf, 0x2c);
        put_key(buf, "nonce");
        put_str(buf, self.nonce.0.as_str());
        put_mark(buf, 0x2c);
        put_key(buf, "reason");
        put_str(buf, self.reason.0.as_str());
        put_mark(buf, 0x7d);
        proof {
            reveal(RemoteCancelRequest::put_canonical);
        }
    }
}

impl RemoteReceiptRequest {
    #[verifier::opaque]
    pub open spec fn put_canonical(&self, acc: Seq<u8>) -> Seq<u8> {
        let a = with_key(acc + seq![0x7bu8], "schema_version"@) + json_int(self.schema_version.0 as int);
        let a = with_key(a + seq![0x2cu8], "receipt"@) + json_string(self.receipt.0@);
        let a = with_key(a + seq![0x2cu8], "lease"@) + json_string(self.lease.0@);
        let a = with_key(a + seq![0x2cu8], "dispatch"@) + json_string(self.dispatch.0@);
        let a = with_key(a + seq![0x2cu8], "authority_epoch"@) + json_int(self.authority_epoch.0 as int);
        let a = with_key(a + seq![0x2cu8], "fence"@) + json_int(self.fence.0 as int);
        let a = with_key(a + seq![0x2cu8], "nonce"@) + json_string(self.nonce.0@);
        a + seq![0x7du8]
    }

    pub fn write_canonical(&self, buf: &mut Vec<u8>)
        ensures
            final(buf)@ == self.put_canonical(old(buf)@),
    {
        put_mark(buf, 0x7b);
        put_key(buf, "schema_version");
        put_u64(buf, self.schema_version.0 as u64);
        put_mark(buf, 0x2c);
        put_key(buf, "receipt");
        put_str(buf, self.receipt.0.as_str());
        put_mark(buf, 0x2c);
        put_key(buf, "lease");
        put_str(buf, self.lease.0.as_str());
        put_mark(buf, 0x2c);
        put_key(buf, "dispatch");
        put_str(buf, self.dispatch.0.as_str());
        put_mark(buf, 0x2c);
        put_key(buf, "authority_epoch");
        put_u64(buf, self.authority_epoch.0 as u64);
        put_mark(buf, 0x2c);
        put_key(buf, "fence");
        put_u64(buf, self.fence.0 as u64);
        put_mark(buf, 0x2c);
        put_key(buf, "nonce");
        put_str(buf, self.nonce.0.as_str());
        put_mark(buf, 0x7d);
        proof {
            reveal(RemoteReceiptRequest::put_canonical);
        }
    }
}

fn same_bytes(a: &Vec<u8>, b: &Vec<u8>) -> (r: bool)
    ensures
        r == (a@ == b@),
{
    if a.len() != b.len() {
        return false;
    }
    let mut i: usize = 0;
    while i < a.len()
        invariant
            a@.len() == b@.len(),
            i <= a@.len(),
            forall|j: int| 0 <= j < i ==> a@[j] == b@[j],
        decreases a.len() - i,
    {
        if a[i] != b[i] {
            return false;
        }
        i = i + 1;
    }
    assert(a@ =~= b@);
    true
}

/// Two placement plans with the same canonical form.
pub open spec fn same_plan(a: RemotePlacementPlan, b: RemotePlacementPlan) -> bool {
    a.put_canonical(Seq::empty()) == b.put_canonical(Seq::empty())
}

fn check_same_plan(a: &RemotePlacementPlan, b: &RemotePlacementPlan) -> (r: bool)
    ensures
        r == same_plan(*a, *b),
{
    let mut x: Vec<u8> = Vec::new();
    a.write_canonical(&mut x);
    let mut y: Vec<u8> = Vec::new();
    b.write_canonical(&mut y);
    assert(x@ =~= a.put_canonical(Seq::empty()));
    assert(y@ =~= b.put_canonical(Seq::empty()));
    same_bytes(&x, &y)
}

/// The lease was granted for this plan: its placement is the plan's digest
/// and it names the plan's executor, grant, grant version and epoch.
pub open spec fn lease_binds_plan(lease: RemoteExecutionLease, plan: RemotePlacementPlan) -> bool {
    &&& lease.placement.0@ == plan.digest.0@
    &&& lease.executor.0@ == plan.executor.0@
    &&& lease.peer_grant.0@ == plan.peer_grant.0@
    &&& lease.grant_version == plan.grant_version
    &&& lease.authority_epoch == plan.authority_epoch
}

fn check_lease_binds_plan(lease: &RemoteExecutionLease, plan: &RemotePlacementPlan) -> (r: bool)
    ensures
        r == lease_binds_plan(*lease, *plan),
{
    same_text(&lease.placement.0, &plan.digest.0) && same_text(&lease.executor.0, &plan.executor.0)
        && same_text(&lease.peer_grant.0, &plan.peer_grant.0) && lease.grant_version.0
        == plan.grant_version.0 && lease.authority_epoch.0 == plan.authority_epoch.0
}

#[derive(Debug, PartialEq, Eq)]
pub struct RemoteLeaseRequest {
    pub schema_version: SchemaVersion,
    pub lease: RemoteExecutionLeaseRef,
    pub dispatch: RemoteDispatchId,
    pub intent: ActionId,
    pub plan_digest: PlanDigest,
    pub placement: RemotePlacementPlan,
    pub expires_at: Timestamp,
}

impl RemoteLeaseRequest {
    pub open spec fn valid_given(&self, host_path: bool) -> bool {
        &&& self.schema_version.0 != 0
        &&& self.expires_at > 0
        &&& self.placement.valid_given(host_path)
        &&& !is_blank(self.lease.0@)
        &&& !is_blank(self.dispatch.0@)
        &&& !is_blank(self.intent.0@)
        &&& !is_blank(self.plan_digest.0@)
    }

    pub fn check(&self, host_path: bool) -> (r: Result<(), Error>)
        ensures
            r is Ok <==> self.valid_given(host_path),
    {
        if self.schema_version.0 == 0 || self.expires_at <= 0 {
            return Err(Error("remote lease request is incomplete".to_string()));
        }
        self.placement.check(host_path)?;
        if blank(self.lease.0.as_str()) || blank(self.dispatch.0.as_str()) || blank(
            self.intent.0.as_str(),
        ) || blank(self.plan_digest.0.as_str()) {
            return Err(Error("remote lease request is incomplete".to_string()));
        }
        Ok(())
    }

    pub fn validate(&self) -> (r: Result<(), Error>)
        ensures
            r is Ok ==> self.valid_given(false),
            host_paths(self.placement.operation.parameters).len() == 0 ==> (r is Ok
                <==> self.valid_given(false)),
    {
        let host_path = contains_host_path(&self.placement.operation.parameters);
        self.check(host_path)
    }
}

#[derive(Debug, PartialEq, Eq)]
pub enum RemoteWireCommand {
    Dispatch { plan: Box<RemotePlacementPlan>, lease: RemoteExecutionLease },
    Probe(RemoteProbeRequest),
    Cancel(RemoteCancelRequest),
    Receipt(RemoteReceiptRequest),
}

impl RemoteWireCommand {
    /// The host paths the command's plan names, if it carries one.
    pub open spec fn host_paths(&self) -> Seq<Seq<char>> {
        match self {
            RemoteWireCommand::Dispatch { plan, .. } => host_paths(plan.operation.parameters),
            _ => Seq::empty(),
        }
    }

    pub open spec fn valid_given(&self, host_path: bool) -> bool {
        match self {
            RemoteWireCommand::Dispatch { plan, lease } => {
                &&& plan.valid_given(host_path)
                &&& lease.valid()
                &&& lease_binds_plan(*lease, **plan)
                &&& lease.state == RemoteLeaseState::Acquired
            },
            RemoteWireCommand::Probe(request) => request.valid(),
            RemoteWireCommand::Cancel(request) => request.valid(),
            RemoteWireCommand::Receipt(request) => request.valid(),
        }
    }

    pub fn check(&self, host_path: bool) -> (r: Result<(), Error>)
        ensures
            r is Ok <==> self.valid_given(host_path),
    {
        match self {
            RemoteWireCommand::Dispatch { plan, lease } => {
                plan.check(host_path)?;
                lease.validate()?;
                if !check_lease_binds_plan(lease, plan) || lease.state != RemoteLeaseState::Acquired {
                    return Err(Error("remote dispatch wire binding is invalid".to_string()));
                }
                Ok(())
            },
            RemoteWireCommand::Probe(request) => request.validate(),
            RemoteWireCommand::Cancel(request) => request.validate(),
            RemoteWireCommand::Receipt(request) => request.validate(),
        }
    }

    pub fn validate(&self) -> (r: Result<(), Error>)
        ensures
            r is Ok ==> self.valid_given(false),
            self.host_paths().len() == 0 ==> (r is Ok <==> self.valid_given(false)),
    {
        let host_path = match self {
            RemoteWireCommand::Dispatch { plan, .. } => contains_host_path(&plan.operation.parameters),
            _ => false,
        };
        self.check(host_path)
    }

    /// The tagged form `{"kind":...,"body":...}` with snake-case kinds.
    pub open spec fn put_canonical(&self, acc: Seq<u8>) -> Seq<u8> {
        match self {
            RemoteWireCommand::Dispatch { plan, lease } => put_dispatch_body(
                tag_prefix(acc, "dispatch"@), **plan, *lease,
            ) + seq![0x7du8],
            RemoteWireCommand::Probe(b) => b.put_canonical(tag_prefix(acc, "probe"@)) + seq![0x7du8],
            RemoteWireCommand::Cancel(b) => b.put_canonical(tag_prefix(acc, "cancel"@)) + seq![0x7du8],
            RemoteWireCommand::Receipt(b) => b.put_canonical(tag_prefix(acc, "receipt"@)) + seq![
                0x7du8,
            ],
        }
    }

    pub fn write_canonical(&self, buf: &mut Vec<u8>)
        ensures
            final(buf)@ == self.put_canonical(old(buf)@),
    {
        match self {
            RemoteWireCommand::Dispatch { plan, lease } => {
                write_tag_prefix(buf, "dispatch");
                write_dispatch_body(buf, plan, lease);
            },
            RemoteWireCommand::Probe(b) => {
                write_tag_prefix(buf, "probe");
                b.write_canonical(buf);
            },
            RemoteWireCommand::Cancel(b) => {
                write_tag_prefix(buf, "cancel");
                b.write_canonical(buf);
            },
            RemoteWireCommand::Receipt(b) => {
                write_tag_prefix(buf, "receipt");
                b.write_canonical(buf);
            },
        }
        put_mark(buf, 0x7d);
    }
}

/// `{"kind":<kind>,"body":` written after `acc`.
pub open spec fn tag_prefix(acc: Seq<u8>, kind: Seq<char>) -> Seq<u8> {
    with_key(with_key(acc + seq![0x7bu8], "kind"@) + json_string(kind) + seq![0x2cu8], "body"@)
}

fn write_tag_prefix(buf: &mut Vec<u8>, kind: &str)
    ensures
        final(buf)@ == tag_prefix(old(buf)@, kind@),
{
    put_mark(buf, 0x7b);
    put_key(buf, "kind");
    put_str(buf, kind);
    put_mark(buf, 0x2c);
    put_key(buf, "body");
}

/// The body of a dispatch command: `{"plan":...,"lease":...}`.
pub open spec fn put_dispatch_body(
    acc: Seq<u8>,
    plan: RemotePlacementPlan,
    lease: RemoteExecutionLease,
) -> Seq<u8> {
    let a = plan.put_canonical(with_key(acc + seq![0x7bu8], "plan"@));
    lease.put_canonical(with_key(a + seq![0x2cu8], "lease"@)) + seq![0x7du8]
}

fn write_dispatch_body(buf: &mut Vec<u8>, plan: &RemotePlacementPlan, lease: &RemoteExecutionLease)
    ensures
        final(buf)@ == put_dispatch_body(old(buf)@, *plan, *lease),
{
    put_mark(buf, 0x7b);
    put_key(buf, "plan");
    plan.write_canonical(buf);
    put_mark(buf, 0x2c);
    put_key(buf, "lease");
    lease.write_canonical(buf);
    put_mark(buf, 0x7d);
}

#[derive(Debug, PartialEq, Eq)]
pub struct RemoteWireEnvelope {
    pub schema_version: SchemaVersion,
    pub request: RemoteWireRequestRef,
    pub authority: AuthorityRef,
    pub peer: FederatedPeerRef,
    pub nonce: Nonce,
    pub expires_at: Timestamp,
    pub command: RemoteWireCommand,
    pub digest: SchemaDigest,
}

impl RemoteWireEnvelope {
    /// The canonical form, with `d` in place of the digest.
    #[verifier::opaque]
    pub open spec fn put_with_digest(&self, acc: Seq<u8>, d: Seq<char>) -> Seq<u8> {
        let a = with_key(acc + seq![0x7bu8], "schema_version"@) + json_int(self.schema_version.0 as int);
        let a = with_key(a + seq![0x2cu8], "request"@) + json_string(self.request.0@);
        let a = with_key(a + seq![0x2cu8], "authority"@) + json_string(self.authority.0@);
        let a = with_key(a + seq![0x2cu8], "peer"@) + json_string(self.peer.0@);
        let a = with_key(a + seq![0x2cu8], "nonce"@) + json_string(self.nonce.0@);
        let a = with_key(a + seq![0x2cu8], "expires_at"@) + json_int(self.expires_at as int);
        let a = self.command.put_canonical(with_key(a + seq![0x2cu8], "command"@));
        let a = with_key(a + seq![0x2cu8], "digest"@) + json_string(d);
        a + seq![0x7du8]
    }

    pub fn write_with_digest(&self, buf: &mut Vec<u8>, d: &str)
        ensures
            final(buf)@ == self.put_with_digest(old(buf)@, d@),
    {
        put_mark(buf, 0x7b);
        put_key(buf, "schema_version");
        put_u64(buf, self.schema_version.0 as u64);
        put_mark(buf, 0x2c);
        put_key(buf, "request");
        put_str(buf, self.request.0.as_str());
        put_mark(buf, 0x2c);
        put_key(buf, "authority");
        put_str(buf, self.authority.0.as_str());
        put_mark(buf, 0x2c);
        put_key(buf, "peer");
        put_str(buf, self.peer.0.as_str());
        put_mark(buf, 0x2c);
        put_key(buf, "nonce");
        put_str(buf, self.nonce.0.as_str());
        put_mark(buf, 0x2c);
        put_key(buf, "expires_at");
        put_i64(buf, self.expires_at);
        put_mark(buf, 0x2c);
        put_key(buf, "command");
        self.command.write_canonical(buf);
        put_mark(buf, 0x2c);
        put_key(buf, "digest");
        put_str(buf, d);
        put_mark(buf, 0x7d);
        proof {
            reveal(RemoteWireEnvelope::put_with_digest);
        }
    }

    /// The canonical form as it stands, digest included.
    pub open spec fn put_canonical(&self, acc: Seq<u8>) -> Seq<u8> {
        self.put_with_digest(acc, self.digest.0@)
    }

    pub fn write_canonical(&self, buf: &mut Vec<u8>)
        ensures
            final(buf)@ == self.put_canonical(old(buf)@),
    {
        self.write_with_digest(buf, self.digest.0.as_str());
    }

    /// The canonical form with the digest cleared.
    pub open spec fn material(&self) -> Seq<u8> {
        self.put_with_digest(Seq::empty(), ""@)
    }

    pub fn encode_material(&self) -> (r: Vec<u8>)
        ensures
            r@ == self.material(),
    {
        let mut buf: Vec<u8> = Vec::new();
        self.write_with_digest(&mut buf, "");
        buf
    }

    pub open spec fn fields_valid_given(&self, now: Timestamp, host_path: bool) -> bool {
        &&& self.schema_version.0 != 0
        &&& self.expires_at > now
        &&& !is_blank(self.request.0@)
        &&& !is_blank(self.authority.0@)
        &&& !is_blank(self.peer.0@)
        &&& !is_blank(self.nonce.0@)
        &&& self.command.valid_given(host_path)
    }

    pub open spec fn valid_given(&self, now: Timestamp, host_path: bool) -> bool {
        &&& self.fields_valid_given(now, host_path)
        &&& self.digest.0@ == canonical_digest_text(self.material())
    }

    pub fn check(&self, now: Timestamp, host_path: bool) -> (r: Result<(), Error>)
        ensures
            r is Ok <==> self.valid_given(now, host_path),
    {
        if self.schema_version.0 == 0 || self.expires_at <= now {
            return Err(Error("remote wire envelope is expired or invalid".to_string()));
        }
        if blank(self.request.0.as_str()) || blank(self.authority.0.as_str()) || blank(
            self.peer.0.as_str(),
        ) || blank(self.nonce.0.as_str()) {
            return Err(Error("remote wire envelope is incomplete".to_string()));
        }
        self.command.check(host_path)?;
        let material = self.encode_material();
        if !same_text(&self.digest.0, &canonical_digest(&material).0) {
            return Err(Error("remote wire envelope digest mismatch".to_string()));
        }
        Ok(())
    }

    pub fn validate(&self, now: Timestamp) -> (r: Result<(), Error>)
        ensures
            r is Ok ==> self.valid_given(now, false),
            self.command.host_paths().len() == 0 ==> (r is Ok <==> self.valid_given(now, false)),
    {
        let host_path = match &self.command {
            RemoteWireCommand::Dispatch { plan, .. } => contains_host_path(&plan.operation.parameters),
            _ => false,
        };
        self.check(now, host_path)
    }

    /// Sets the digest to that of the envelope's contents, which are unchanged.
    pub fn refresh_digest(&mut self) -> (r: Result<(), Error>)
        ensures
            r is Ok,
            final(self).material() == old(self).material(),
            final(self).command == old(self).command,
            final(self).digest.0@ == canonical_digest_text(old(self).material()),
    {
        let material = self.encode_material();
        let ghost before = *self;
        self.digest = canonical_digest(&material);
        proof {
            lemma_wire_envelope_digest_free(before, *self);
        }
        Ok(())
    }
}

proof fn lemma_wire_envelope_digest_free(a: RemoteWireEnvelope, b: RemoteWireEnvelope)
    requires
        b == (RemoteWireEnvelope { digest: b.digest, ..a }),
    ensures
        a.material() == b.material(),
{
    reveal(RemoteWireEnvelope::put_with_digest);
}

#[derive(Debug, PartialEq, Eq)]
pub struct RemoteAdmission {
    pub schema_version: SchemaVersion,
    pub admission: RemoteDispatchId,
    pub plan: RemotePlacementPlan,
    pub lease: RemoteExecutionLease,
}

impl RemoteAdmission {
    pub open spec fn valid_given(&self, host_path: bool) -> bool {
        &&& self.schema_version.0 != 0
        &&& self.plan.valid_given(host_path)
        &&& self.lease.valid()
        &&& self.lease.state == RemoteLeaseState::Acquired
        &&& self.lease.placement.0@ == self.plan.digest.0@
        &&& !is_blank(self.admission.0@)
    }

    pub fn check(&self, host_path: bool) -> (r: Result<(), Error>)
        ensures
            r is Ok <==> self.valid_given(host_path),
    {
        if self.schema_version.0 == 0 {
            return Err(Error("remote admission schema is invalid".to_string()));
        }
        self.plan.check(host_path)?;
        self.lease.validate()?;
        if self.lease.state != RemoteLeaseState::Acquired || !same_text(
            &self.lease.placement.0,
            &self.plan.digest.0,
        ) {
            return Err(Error("remote admission lease binding is invalid".to_string()));
        }
        if blank(self.admission.0.as_str()) {
            return Err(Error("admission is incomplete".to_string()));
        }
        Ok(())
    }

    pub fn validate(&self) -> (r: Result<(), Error>)
        ensures
            r is Ok ==> self.valid_given(false),
            host_paths(self.plan.operation.parameters).len() == 0 ==> (r is Ok
                <==> self.valid_given(false)),
    {
        let host_path = contains_host_path(&self.plan.operation.parameters);
        self.check(host_path)
    }
}

#[derive(Debug, PartialEq, Eq)]
pub struct RemoteActionRecoveryRecord {
    pub schema_version: SchemaVersion,
    pub run: RunId,
    pub source: Source,
    pub intent: ActionIntent,
    pub placement: RemotePlacementPlan,
    pub lease: RemoteExecutionLease,
    pub driver_receipt: Option<RemoteDriverReceiptRef>,
    pub digest: SchemaDigest,
}

impl RemoteActionRecoveryRecord {
    /// The canonical form, with `d` in place of the digest.
    #[verifier::opaque]
    pub open spec fn put_with_digest(&self, acc: Seq<u8>, d: Seq<char>) -> Seq<u8> {
        let a = with_key(acc + seq![0x7bu8], "schema_version"@) + json_int(self.schema_version.0 as int);
        let a = with_key(a + seq![0x2cu8], "run"@) + json_string(self.run.0@);
        let a = with_key(a + seq![0x2cu8], "source"@) + json_string(self.source.wire_name());
        let a = self.intent.put_canonical(with_key(a + seq![0x2cu8], "intent"@));
        let a = self.placement.put_canonical(with_key(a + seq![0x2cu8], "placement"@));
        let a = self.lease.put_canonical(with_key(a + seq![0x2cu8], "lease"@));
        let a = with_key(a + seq![0x2cu8], "driver_receipt"@) + json_opt_text(
            match self.driver_receipt {
                Some(p) => Some(p.0@),
                None => None,
            },
        );
        let a = with_key(a + seq![0x2cu8], "digest"@) + json_string(d);
        a + seq![0x7du8]
    }

    pub fn write_with_digest(&self, buf: &mut Vec<u8>, d: &str)
        ensures
            final(buf)@ == self.put_with_digest(old(buf)@, d@),
    {
        put_mark(buf, 0x7b);
        put_key(buf, "schema_version");
        put_u64(buf, self.schema_version.0 as u64);
        put_mark(buf, 0x2c);
        put_key(buf, "run");
        put_str(buf, self.run.0.as_str());
        put_mark(buf, 0x2c);
        put_key(buf, "source");
        put_str(buf, self.source.wire_str());
        put_mark(buf, 0x2c);
        put_key(buf, "intent");
        self.intent.write_canonical(buf);
        put_mark(buf, 0x2c);
        put_key(buf, "placement");
        self.placement.write_canonical(buf);
        put_mark(buf, 0x2c);
        put_key(buf, "lease");
        self.lease.write_canonical(buf);
        put_mark(buf, 0x2c);
        put_key(buf, "driver_receipt");
        put_opt_text(
            buf,
            match &self.driver_receipt {
                Some(p) => Some(&p.0),
                None => None,
            },
        );
        put_mark(buf, 0x2c);
        put_key(buf, "digest");
        put_str(buf, d);
        put_mark(buf, 0x7d);
        proof {
            reveal(RemoteActionRecoveryRecord::put_with_digest);
        }
    }

    /// The canonical form as it stands, digest included.
    pub open spec fn put_canonical(&self, acc: Seq<u8>) -> Seq<u8> {
        self.put_with_digest(acc, self.digest.0@)
    }

    pub fn write_canonical(&self, buf: &mut Vec<u8>)
        ensures
            final(buf)@ == self.put_canonical(old(buf)@),
    {
        self.write_with_digest(buf, self.digest.0.as_str());
    }

    /// The canonical form with the digest cleared.
    pub open spec fn material(&self) -> Seq<u8> {
        self.put_with_digest(Seq::empty(), ""@)
    }

    pub fn encode_material(&self) -> (r: Vec<u8>)
        ensures
            r@ == self.material(),
    {
        let mut buf: Vec<u8> = Vec::new();
        self.write_with_digest(&mut buf, "");
        buf
    }

    /// The intent is a remote action carrying exactly this plan, and the
    /// lease was granted to this intent for this plan.
    pub open spec fn bound(&self) -> bool {
        &&& self.intent.parameters matches ActionParameters::Remote(spec) && same_plan(
            spec.placement,
            self.placement,
        )
        &&& self.lease.intent.0@ == self.intent.intent_id.0@
        &&& lease_binds_plan(self.lease, self.placement)
    }

    pub open spec fn fields_valid_given(&self, host_path: bool) -> bool {
        &&& self.schema_version.0 != 0
        &&& self.source == self.intent.source
        &&& self.intent.backend_hint == BackendKind::Remote
        &&& self.lease.state == RemoteLeaseState::Acquired
        &&& !is_blank(self.run.0@)
        &&& !is_blank(self.intent.intent_id.0@)
        &&& self.placement.valid_given(host_path)
        &&& self.lease.valid()
        &&& self.bound()
        &&& self.driver_receipt matches Some(d) ==> !is_blank(d.0@)
    }

    pub open spec fn valid_given(&self, host_path: bool) -> bool {
        &&& self.fields_valid_given(host_path)
        &&& self.digest.0@ == canonical_digest_text(self.material())
    }

    pub fn check(&self, host_path: bool) -> (r: Result<(), Error>)
        ensures
            r is Ok <==> self.valid_given(host_path),
    {
        if self.schema_version.0 == 0 || self.source != self.intent.source || self.intent.backend_hint
            != BackendKind::Remote || self.lease.state != RemoteLeaseState::Acquired {
            return Err(Error("remote recovery record is incomplete".to_string()));
        }
        if blank(self.run.0.as_str()) || blank(self.intent.intent_id.0.as_str()) {
            return Err(Error("remote recovery record is incomplete".to_string()));
        }
        self.placement.check(host_path)?;
        self.lease.validate()?;
        let spec = match &self.intent.parameters {
            ActionParameters::Remote(spec) => spec,
            _ => {
                return Err(Error("remote recovery intent has no placement".to_string()));
            },
        };
        if !check_same_plan(&spec.placement, &self.placement) || !same_text(
            &self.lease.intent.0,
            &self.intent.intent_id.0,
        ) || !check_lease_binds_plan(&self.lease, &self.placement) {
            return Err(Error("remote recovery binding is invalid".to_string()));
        }
        if let Some(receipt) = &self.driver_receipt {
            if blank(receipt.0.as_str()) {
                return Err(Error("remote recovery receipt is empty".to_string()));
            }
        }
        let material = self.encode_material();
        if !same_text(&self.digest.0, &canonical_digest(&material).0) {
            return Err(Error("remote recovery digest mismatch".to_string()));
        }
        Ok(())
    }

    pub fn validate(&self) -> (r: Result<(), Error>)
        ensures
            r is Ok ==> self.valid_given(false),
            host_paths(self.placement.operation.parameters).len() == 0 ==> (r is Ok
                <==> self.valid_given(false)),
    {
        let host_path = contains_host_path(&self.placement.operation.parameters);
        self.check(host_path)
    }

    /// Sets the digest to that of the record's contents, which are unchanged.
    pub fn refresh_digest(&mut self) -> (r: Result<(), Error>)
        ensures
            r is Ok,
            final(self).material() == old(self).material(),
            final(self).placement == old(self).placement,
            final(self).digest.0@ == canonical_digest_text(old(self).material()),
    {
        let material = self.encode_material();
        let ghost before = *self;
        self.digest = canonical_digest(&material);
        proof {
            lemma_recovery_digest_free(before, *self);
        }
        Ok(())
    }
}

proof fn lemma_recovery_digest_free(a: RemoteActionRecoveryRecord, b: RemoteActionRecoveryRecord)
    requires
        b == (RemoteActionRecoveryRecord { digest: b.digest, ..a }),
    ensures
        a.material() == b.material(),
{
    reveal(RemoteActionRecoveryRecord::put_with_digest);
}

} // verus!
