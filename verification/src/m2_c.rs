//! Resource graph, long-term goals, capability growth, managed plugins,
//! hot/cold memory and one-peer synchronisation.
use vstd::prelude::*;

use crate::event::{Event, EventKind, EventPayload};
use crate::primitives::{
    AutonomyEnvelope, Budget, CandidateId, CapabilityGapRef, CapabilityRef,
    CapabilityUpdateProposalRef, Confidence, ContentRef, Error, EventId, EvidenceRef,
    ExecutionRouteRef, GoalCheckpointRef, GoalFrameRef, IntentionId, IntentionOutcome,
    InterventionLevel, ManagedPluginPolicyRef, ManagedPluginSnapshotRef, ManagedPluginSourceRef,
    PluginManifestRef, PluginRef, PluginSignatureRef, Provenance, ReasonRef, RedactionPolicyRef,
    ResourceGraphSnapshotRef, ResourceRef, RunId, SchemaDigest, SchemaVersion, Scope, SyncBatchId,
    SyncPeerRef, Timestamp, TurnId, VerifiedPrincipal, Version,
};
use crate::canon::{
    json_int, json_opt_text, json_string, put_i64, put_key, put_mark, put_opt_text, put_str,
    put_texts, put_u64, with_key, with_texts, Named,
};
use crate::text::{
    all_filled, blank, check_all_filled, check_distinct_texts, check_has_text, distinct_texts,
    duplicate_all, has_text, is_blank, same_text, Duplicate, Textual,
};

verus! {

#[derive(Debug, Clone, Copy, PartialEq, Eq, Hash, PartialOrd, Ord, Structural)]
pub enum ResourceKind {
    Tool,
    Skill,
    Model,
    Memory,
    Source,
    Backend,
}

#[derive(Debug, Clone, Copy, PartialEq, Eq, Hash, Structural)]
pub enum ResourceEvidenceOutcome {
    Pass,
    Fail,
    Unverifiable,
    Revoked,
}

#[derive(Debug, Clone, PartialEq, Eq)]
pub struct ResourceScore {
    pub schema_version: SchemaVersion,
    pub passed: u32,
    pub failed: u32,
    pub unverifiable: u32,
    pub latest_at: Timestamp,
}

impl ResourceScore {
    /// Verified passes count four, failures minus six, unverifiable results minus two.
    pub open spec fn score(&self) -> int {
        self.passed * 4 - self.failed * 6 - self.unverifiable * 2
    }

    pub fn rank(&self) -> (r: i64)
        ensures
            r == self.score(),
    {
        self.passed as i64 * 4 - self.failed as i64 * 6 - self.unverifiable as i64 * 2
    }
}

#[derive(Debug, Clone, PartialEq, Eq)]
pub struct ResourceNode {
    pub schema_version: SchemaVersion,
    pub resource: ResourceRef,
    pub kind: ResourceKind,
    pub scope: Scope,
    pub available: bool,
    pub score: ResourceScore,
    pub evidence_refs: Vec<EventId>,
}

#[derive(Debug, Clone, Copy, PartialEq, Eq, Hash, PartialOrd, Ord, Structural)]
pub enum ResourceRelation {
    Provides,
    UsedBy,
    Supports,
}

#[derive(Debug, Clone, PartialEq, Eq)]
pub struct ResourceEdge {
    pub schema_version: SchemaVersion,
    pub from: ResourceRef,
    pub to: ResourceRef,
    pub relation: ResourceRelation,
    pub scope: Scope,
    pub fresh_at: Timestamp,
    pub evidence_refs: Vec<EventId>,
}

#[derive(Debug, Clone, PartialEq, Eq)]
pub struct AggregateVersion {
    pub schema_version: SchemaVersion,
    pub aggregate: RunId,
    pub value: u64,
}

impl AggregateVersion {
    pub open spec fn valid(&self) -> bool {
        self.schema_version.0 != 0 && !is_blank(self.aggregate.0@)
    }

    pub fn validate(&self) -> (r: Result<(), Error>)
        ensures
            r is Ok <==> self.valid(),
    {
        if self.schema_version.0 == 0 || blank(self.aggregate.0.as_str()) {
            return Err(Error("aggregate version is incomplete".to_string()));
        }
        Ok(())
    }
}

/// An aggregate version is known by its aggregate.
impl Textual for AggregateVersion {
    open spec fn text(&self) -> Seq<char> {
        self.aggregate.0@
    }

    fn as_text(&self) -> (r: &String) {
        &self.aggregate.0
    }
}

#[derive(Debug, Clone, PartialEq, Eq)]
pub struct ResourceGraphSnapshot {
    pub schema_version: SchemaVersion,
    pub reference: ResourceGraphSnapshotRef,
    pub aggregate_versions: Vec<AggregateVersion>,
    pub nodes: Vec<ResourceNode>,
    pub edges: Vec<ResourceEdge>,
    pub evidence_refs: Vec<EventId>,
    pub built_at: Timestamp,
}

impl ResourceGraphSnapshot {
    pub open spec fn valid(&self) -> bool {
        &&& self.schema_version.0 != 0
        &&& !is_blank(self.reference.0@)
        &&& self.aggregate_versions@.len() > 0
        &&& forall|i: int|
            0 <= i < self.aggregate_versions@.len() ==> (
            #[trigger] self.aggregate_versions@[i]).valid()
    }

    pub fn validate(&self) -> (r: Result<(), Error>)
        ensures
            r is Ok <==> self.valid(),
    {
        if self.schema_version.0 == 0 || blank(self.reference.0.as_str())
            || self.aggregate_versions.len() == 0 {
            return Err(Error("resource graph snapshot is incomplete".to_string()));
        }
        let mut i: usize = 0;
        while i < self.aggregate_versions.len()
            invariant
                i <= self.aggregate_versions@.len(),
                forall|j: int| 0 <= j < i ==> (#[trigger] self.aggregate_versions@[j]).valid(),
            decreases self.aggregate_versions@.len() - i,
        {
            if self.aggregate_versions[i].validate().is_err() {
                return Err(Error("resource graph snapshot is incomplete".to_string()));
            }
            i = i + 1;
        }
        Ok(())
    }
}

#[derive(Debug, Clone, PartialEq, Eq)]
pub struct LongTermGoal {
    pub schema_version: SchemaVersion,
    pub goal_frame: GoalFrameRef,
    pub scope: Scope,
    pub situation_digest: SchemaDigest,
    pub budget: Budget,
    pub expires_at: Timestamp,
}

impl LongTermGoal {
    pub open spec fn valid(&self) -> bool {
        &&& self.schema_version.0 != 0
        &&& !is_blank(self.goal_frame.0@)
        &&& !is_blank(self.scope.0@)
        &&& !is_blank(self.situation_digest.0@)
        &&& !is_blank(self.budget.0@)
        &&& self.expires_at > 0
    }

    pub fn validate(&self) -> (r: Result<(), Error>)
        ensures
            r is Ok <==> self.valid(),
    {
        if self.schema_version.0 == 0 || blank(self.goal_frame.0.as_str()) || blank(
            self.scope.0.as_str(),
        ) || blank(self.situation_digest.0.as_str()) || blank(self.budget.0.as_str())
            || self.expires_at <= 0 {
            return Err(Error("long-term goal is incomplete".to_string()));
        }
        Ok(())
    }
}

#[derive(Debug, Clone, PartialEq, Eq)]
pub struct GoalCheckpoint {
    pub schema_version: SchemaVersion,
    pub reference: GoalCheckpointRef,
    pub goal_frame: GoalFrameRef,
    pub intention: IntentionId,
    pub route: ExecutionRouteRef,
    pub artifact: ContentRef,
    pub situation_digest: SchemaDigest,
    pub evidence_refs: Vec<EventId>,
    pub created_at: Timestamp,
}

impl GoalCheckpoint {
    pub open spec fn valid(&self) -> bool {
        &&& self.schema_version.0 != 0
        &&& !is_blank(self.reference.0@)
        &&& !is_blank(self.goal_frame.0@)
        &&& !is_blank(self.intention.0@)
        &&& !is_blank(self.route.0@)
        &&& !is_blank(self.artifact.0@)
        &&& !is_blank(self.situation_digest.0@)
        &&& self.evidence_refs@.len() > 0
        &&& self.created_at > 0
    }

    pub fn validate(&self) -> (r: Result<(), Error>)
        ensures
            r is Ok <==> self.valid(),
    {
        if self.schema_version.0 == 0 || blank(self.reference.0.as_str()) || blank(
            self.goal_frame.0.as_str(),
        ) || blank(self.intention.0.as_str()) || blank(self.route.0.as_str()) || blank(
            self.artifact.0.as_str(),
        ) || blank(self.situation_digest.0.as_str()) || self.evidence_refs.len() == 0
            || self.created_at <= 0 {
            return Err(Error("goal checkpoint is incomplete".to_string()));
        }
        Ok(())
    }
}

impl GoalCheckpoint {
    pub open spec fn put_canonical(&self, acc: Seq<u8>) -> Seq<u8> {
        let a = with_key(acc + seq![0x7bu8], "schema_version"@) + json_int(
            self.schema_version.0 as int,
        );
        let a = with_key(a + seq![0x2cu8], "reference"@) + json_string(self.reference.0@);
        let a = with_key(a + seq![0x2cu8], "goal_frame"@) + json_string(self.goal_frame.0@);
        let a = with_key(a + seq![0x2cu8], "intention"@) + json_string(self.intention.0@);
        let a = with_key(a + seq![0x2cu8], "route"@) + json_string(self.route.0@);
        let a = with_key(a + seq![0x2cu8], "artifact"@) + json_string(self.artifact.0@);
        let a = with_key(a + seq![0x2cu8], "situation_digest"@) + json_string(
            self.situation_digest.0@,
        );
        let a = with_texts(with_key(a + seq![0x2cu8], "evidence_refs"@), self.evidence_refs@);
        let a = with_key(a + seq![0x2cu8], "created_at"@) + json_int(self.created_at as int);
        a + seq![0x7du8]
    }

    pub fn write_canonical(&self, buf: &mut Vec<u8>)
        ensures
            final(buf)@ == self.put_canonical(old(buf)@),
    {
        put_mark(buf, 0x7b);
        put_key(buf, "schema_version");
        put_u64(buf, self.schema_version.0 as u64);
        put_mark(buf, 0x2c);
        put_key(buf, "reference");
        put_str(buf, self.reference.0.as_str());
        put_mark(buf, 0x2c);
        put_key(buf, "goal_frame");
        put_str(buf, self.goal_frame.0.as_str());
        put_mark(buf, 0x2c);
        put_key(buf, "intention");
        put_str(buf, self.intention.0.as_str());
        put_mark(buf, 0x2c);
        put_key(buf, "route");
        put_str(buf, self.route.0.as_str());
        put_mark(buf, 0x2c);
        put_key(buf, "artifact");
        put_str(buf, self.artifact.0.as_str());
        put_mark(buf, 0x2c);
        put_key(buf, "situation_digest");
        put_str(buf, self.situation_digest.0.as_str());
        put_mark(buf, 0x2c);
        put_key(buf, "evidence_refs");
        put_texts(buf, &self.evidence_refs);
        put_mark(buf, 0x2c);
        put_key(buf, "created_at");
        put_i64(buf, self.created_at);
        put_mark(buf, 0x7d);
    }
}

impl Duplicate for LongTermGoal {
    fn duplicate(&self) -> (r: Self) {
        LongTermGoal {
            schema_version: self.schema_version,
            goal_frame: self.goal_frame.duplicate(),
            scope: self.scope.duplicate(),
            situation_digest: self.situation_digest.duplicate(),
            budget: self.budget.duplicate(),
            expires_at: self.expires_at,
        }
    }
}

/// A checkpoint is known by its reference.
impl Textual for GoalCheckpoint {
    open spec fn text(&self) -> Seq<char> {
        self.reference.0@
    }

    fn as_text(&self) -> (r: &String) {
        &self.reference.0
    }
}

impl GoalCheckpoint {
    /// The same checkpoint, field by field.
    pub open spec fn same_as(&self, other: GoalCheckpoint) -> bool {
        &&& self.schema_version == other.schema_version
        &&& self.reference == other.reference
        &&& self.goal_frame == other.goal_frame
        &&& self.intention == other.intention
        &&& self.route == other.route
        &&& self.artifact == other.artifact
        &&& self.situation_digest == other.situation_digest
        &&& self.evidence_refs@ == other.evidence_refs@
        &&& self.created_at == other.created_at
    }

    pub fn copy(&self) -> (r: Self)
        ensures
            r.same_as(*self),
    {
        GoalCheckpoint {
            schema_version: self.schema_version,
            reference: self.reference.duplicate(),
            goal_frame: self.goal_frame.duplicate(),
            intention: self.intention.duplicate(),
            route: self.route.duplicate(),
            artifact: self.artifact.duplicate(),
            situation_digest: self.situation_digest.duplicate(),
            evidence_refs: duplicate_all(&self.evidence_refs),
            created_at: self.created_at,
        }
    }
}

#[derive(Debug, Clone, PartialEq, Eq)]
pub struct GoalLineageSnapshot {
    pub schema_version: SchemaVersion,
    pub goal: LongTermGoal,
    pub intentions: Vec<IntentionId>,
    pub resolutions: Vec<GoalIntentionResolution>,
    pub routes: Vec<ExecutionRouteRef>,
    pub checkpoints: Vec<GoalCheckpoint>,
    pub aggregate_versions: Vec<AggregateVersion>,
    pub cancelled: bool,
    pub revoked: bool,
}

#[derive(Debug, Clone, PartialEq, Eq)]
pub struct GoalIntentionResolution {
    pub schema_version: SchemaVersion,
    pub intention: IntentionId,
    pub outcome: IntentionOutcome,
    pub event_ref: EventId,
}

#[derive(Debug, Clone, PartialEq, Eq)]
pub struct CapabilityResultEvidence {
    pub schema_version: SchemaVersion,
    pub evidence_ref: EvidenceRef,
    pub outcome: ResourceEvidenceOutcome,
    pub observed_at: Timestamp,
    pub owner_feedback: Option<bool>,
}

#[derive(Debug, Clone, PartialEq, Eq)]
pub struct CapabilityGap {
    pub schema_version: SchemaVersion,
    pub reference: CapabilityGapRef,
    pub capability: CapabilityRef,
    pub scope: Scope,
    pub result_evidence: Vec<CapabilityResultEvidence>,
    pub self_confidence: Option<Confidence>,
    pub ceiling: InterventionLevel,
}

#[derive(Debug, Clone, PartialEq, Eq)]
pub struct CapabilityUpdateProposal {
    pub schema_version: SchemaVersion,
    pub reference: CapabilityUpdateProposalRef,
    pub candidate_id: CandidateId,
    pub gap: CapabilityGap,
    pub requested_envelope: AutonomyEnvelope,
    pub evidence_refs: Vec<EvidenceRef>,
}

impl CapabilityUpdateProposal {
    pub open spec fn valid(&self) -> bool {
        &&& self.schema_version.0 != 0
        &&& !is_blank(self.reference.0@)
        &&& !is_blank(self.candidate_id.0@)
        &&& self.gap.schema_version.0 != 0
        &&& !is_blank(self.gap.reference.0@)
        &&& !is_blank(self.gap.capability.0@)
        &&& !is_blank(self.gap.scope.0@)
        &&& self.gap.result_evidence@.len() > 0
        &&& self.requested_envelope.schema_version.0 != 0
        &&& self.evidence_refs@.len() > 0
    }

    pub fn validate(&self) -> (r: Result<(), Error>)
        ensures
            r is Ok <==> self.valid(),
    {
        if self.schema_version.0 == 0 || blank(self.reference.0.as_str()) || blank(
            self.candidate_id.0.as_str(),
        ) || self.gap.schema_version.0 == 0 || blank(self.gap.reference.0.as_str()) || blank(
            self.gap.capability.0.as_str(),
        ) || blank(self.gap.scope.0.as_str()) || self.gap.result_evidence.len() == 0
            || self.requested_envelope.schema_version.0 == 0 || self.evidence_refs.len() == 0 {
            return Err(Error("capability update proposal is incomplete".to_string()));
        }
        Ok(())
    }
}

#[derive(Debug, Clone, PartialEq, Eq)]
pub struct NarrowCapabilityGrant {
    pub schema_version: SchemaVersion,
    pub proposal: CapabilityUpdateProposalRef,
    pub envelope: AutonomyEnvelope,
    pub approved_by: VerifiedPrincipal,
    pub approved_at: Timestamp,
    pub evidence_refs: Vec<EvidenceRef>,
}

#[derive(Debug, Clone, PartialEq, Eq)]
pub struct ManagedPluginBinding {
    pub schema_version: SchemaVersion,
    pub source: ManagedPluginSourceRef,
    pub source_digest: SchemaDigest,
    pub manifest_digest: SchemaDigest,
    pub signature: PluginSignatureRef,
}

impl ManagedPluginBinding {
    pub open spec fn valid(&self) -> bool {
        &&& self.schema_version.0 != 0
        &&& !is_blank(self.source.0@)
        &&& !is_blank(self.source_digest.0@)
        &&& !is_blank(self.manifest_digest.0@)
        &&& !is_blank(self.signature.0@)
    }

    pub fn validate(&self) -> (r: Result<(), Error>)
        ensures
            r is Ok <==> self.valid(),
    {
        if self.schema_version.0 == 0 || blank(self.source.0.as_str()) || blank(
            self.source_digest.0.as_str(),
        ) || blank(self.manifest_digest.0.as_str()) || blank(self.signature.0.as_str()) {
            return Err(Error("managed plugin binding is incomplete".to_string()));
        }
        Ok(())
    }
}

#[derive(Debug, Clone, PartialEq, Eq)]
pub struct ManagedPluginPolicy {
    pub schema_version: SchemaVersion,
    pub reference: ManagedPluginPolicyRef,
    pub version: Version,
    pub allowed_plugins: Vec<PluginRef>,
    pub denied_plugins: Vec<PluginRef>,
    pub allowed_sources: Vec<ManagedPluginSourceRef>,
    pub revoked_manifests: Vec<SchemaDigest>,
    pub require_signature: bool,
}

impl ManagedPluginPolicy {
    pub open spec fn valid(&self) -> bool {
        &&& self.schema_version.0 != 0
        &&& !is_blank(self.reference.0@)
        &&& self.version.0 != 0
        &&& self.allowed_sources@.len() > 0
        &&& self.require_signature
    }

    pub fn validate(&self) -> (r: Result<(), Error>)
        ensures
            r is Ok <==> self.valid(),
    {
        if self.schema_version.0 == 0 || blank(self.reference.0.as_str()) || self.version.0 == 0
            || self.allowed_sources.len() == 0 || !self.require_signature {
            return Err(Error("managed plugin policy is incomplete".to_string()));
        }
        Ok(())
    }

    /// A plugin is allowed when it is listed, not denied, comes from an
    /// allowed source, and its manifest is not revoked.
    pub open spec fn permits(&self, plugin: &PluginRef, binding: &ManagedPluginBinding) -> bool {
        &&& !has_text(self.denied_plugins@, plugin.0@)
        &&& has_text(self.allowed_plugins@, plugin.0@)
        &&& has_text(self.allowed_sources@, binding.source.0@)
        &&& !has_text(self.revoked_manifests@, binding.manifest_digest.0@)
    }

    pub fn allows(&self, plugin: &PluginRef, binding: &ManagedPluginBinding) -> (r: bool)
        ensures
            r == self.permits(plugin, binding),
    {
        !check_has_text(&self.denied_plugins, &plugin.0) && check_has_text(
            &self.allowed_plugins,
            &plugin.0,
        ) && check_has_text(&self.allowed_sources, &binding.source.0) && !check_has_text(
            &self.revoked_manifests,
            &binding.manifest_digest.0,
        )
    }
}

#[derive(Debug, Clone, PartialEq, Eq)]
pub struct ManagedPluginSnapshot {
    pub schema_version: SchemaVersion,
    pub reference: ManagedPluginSnapshotRef,
    pub policy: ManagedPluginPolicyRef,
    pub policy_version: Version,
    pub plugin: PluginRef,
    pub source: ManagedPluginSourceRef,
    pub manifest: PluginManifestRef,
    pub manifest_digest: SchemaDigest,
    pub generation: u64,
}

impl ManagedPluginSnapshot {
    pub open spec fn valid(&self) -> bool {
        &&& self.schema_version.0 != 0
        &&& !is_blank(self.reference.0@)
        &&& !is_blank(self.policy.0@)
        &&& self.policy_version.0 != 0
        &&& !is_blank(self.plugin.0@)
        &&& !is_blank(self.source.0@)
        &&& !is_blank(self.manifest.0@)
        &&& !is_blank(self.manifest_digest.0@)
        &&& self.generation != 0
    }

    pub fn validate(&self) -> (r: Result<(), Error>)
        ensures
            r is Ok <==> self.valid(),
    {
        if self.schema_version.0 == 0 || blank(self.reference.0.as_str()) || blank(
            self.policy.0.as_str(),
        ) || self.policy_version.0 == 0 || blank(self.plugin.0.as_str()) || blank(
            self.source.0.as_str(),
        ) || blank(self.manifest.0.as_str()) || blank(self.manifest_digest.0.as_str())
            || self.generation == 0 {
            return Err(Error("managed plugin snapshot is incomplete".to_string()));
        }
        Ok(())
    }
}

#[derive(Debug, Clone, Copy, PartialEq, Eq, Hash, Structural)]
pub enum MemoryTemperature {
    Hot,
    Cold,
}

#[derive(Debug, Clone, Copy, PartialEq, Eq, Hash, Structural)]
pub enum MemoryRetentionState {
    Active,
    Redacted,
    Expired,
    Tombstoned,
}

#[derive(Debug, Clone, PartialEq, Eq)]
pub struct MemoryTierEntry {
    pub schema_version: SchemaVersion,
    pub event_id: EventId,
    pub aggregate: RunId,
    pub stream_seq: u64,
    pub scope: Option<Scope>,
    pub temperature: MemoryTemperature,
    pub retention: MemoryRetentionState,
    pub content_ref: Option<ContentRef>,
    pub occurred_at: Timestamp,
}

#[derive(Debug, Clone, PartialEq, Eq)]
pub struct HotColdMemorySnapshot {
    pub schema_version: SchemaVersion,
    pub aggregate_versions: Vec<AggregateVersion>,
    pub entries: Vec<MemoryTierEntry>,
    pub built_at: Timestamp,
}

#[derive(Debug, Clone, PartialEq, Eq)]
pub struct SyncPeer {
    pub schema_version: SchemaVersion,
    pub reference: SyncPeerRef,
    pub owner: VerifiedPrincipal,
    pub allowed_scopes: Vec<Scope>,
}

impl SyncPeer {
    pub open spec fn valid(&self) -> bool {
        &&& self.schema_version.0 != 0
        &&& !is_blank(self.reference.0@)
        &&& !is_blank(self.owner.0@)
        &&& all_filled(self.allowed_scopes@)
        &&& distinct_texts(self.allowed_scopes@)
    }

    pub fn validate(&self) -> (r: Result<(), Error>)
        ensures
            r is Ok <==> self.valid(),
    {
        if self.schema_version.0 == 0 || blank(self.reference.0.as_str()) || blank(
            self.owner.0.as_str(),
        ) || !check_all_filled(&self.allowed_scopes) || !check_distinct_texts(
            &self.allowed_scopes,
        ) {
            return Err(Error("sync peer is incomplete".to_string()));
        }
        Ok(())
    }
}

#[derive(Debug, Clone, PartialEq, Eq)]
pub struct SyncRedactionPolicy {
    pub schema_version: SchemaVersion,
    pub reference: RedactionPolicyRef,
    pub redact_raw_content: bool,
    pub forbid_secret_refs: bool,
    pub forbidden_keys: Vec<String>,
    pub forbidden_value_markers: Vec<String>,
}

impl SyncRedactionPolicy {
    pub open spec fn valid(&self) -> bool {
        &&& self.schema_version.0 != 0
        &&& !is_blank(self.reference.0@)
        &&& self.redact_raw_content
        &&& self.forbid_secret_refs
    }

    pub fn validate(&self) -> (r: Result<(), Error>)
        ensures
            r is Ok <==> self.valid(),
    {
        if self.schema_version.0 == 0 || blank(self.reference.0.as_str())
            || !self.redact_raw_content || !self.forbid_secret_refs {
            return Err(Error("sync redaction policy is incomplete".to_string()));
        }
        Ok(())
    }
}

/// The identifiers of a list of events, in order.
pub open spec fn event_ids(events: Seq<Event>) -> Seq<EventId> {
    events.map_values(|e: Event| e.event_id)
}

pub fn collect_event_ids(events: &Vec<Event>) -> (r: Vec<EventId>)
    ensures
        r@ == event_ids(events@),
{
    let mut r: Vec<EventId> = Vec::new();
    let mut i: usize = 0;
    while i < events.len()
        invariant
            i <= events@.len(),
            r@ == event_ids(events@.subrange(0, i as int)),
        decreases events@.len() - i,
    {
        r.push(events[i].event_id.duplicate());
        i = i + 1;
        assert(event_ids(events@.subrange(0, i as int)) =~= event_ids(
            events@.subrange(0, (i - 1) as int),
        ).push(events@[i - 1].event_id));
    }
    assert(events@.subrange(0, i as int) =~= events@);
    r
}

#[derive(Debug, Clone, PartialEq, Eq)]
pub struct SyncWriteBatch {
    pub schema_version: SchemaVersion,
    pub batch_id: SyncBatchId,
    pub peer: SyncPeer,
    pub aggregate: RunId,
    pub expected_version: AggregateVersion,
    pub events: Vec<Event>,
}

/// The sequence number the batch expects at position `index`; a position past
/// the numeric range is expected to carry sequence zero.
pub open spec fn expected_sequence(expected: u64, index: int) -> int {
    if expected + 1 + index <= u64::MAX {
        expected + 1 + index
    } else {
        0
    }
}

impl SyncWriteBatch {
    pub open spec fn valid(&self) -> bool {
        &&& self.peer.valid()
        &&& self.expected_version.valid()
        &&& self.schema_version.0 != 0
        &&& !is_blank(self.batch_id.0@)
        &&& !is_blank(self.aggregate.0@)
        &&& self.events@.len() > 0
        &&& self.expected_version.aggregate.0@ == self.aggregate.0@
        &&& distinct_texts(event_ids(self.events@))
        &&& self.expected_version.value < u64::MAX
        &&& forall|i: int|
            0 <= i < self.events@.len() ==> {
                &&& (#[trigger] self.events@[i]).run_id.0@ == self.aggregate.0@
                &&& self.events@[i].stream_seq == expected_sequence(
                    self.expected_version.value,
                    i,
                )
                &&& self.events@[i].schema_version.0 != 0
                &&& self.events@[i].kind_matches()
            }
    }

    pub fn validate(&self) -> (r: Result<(), Error>)
        ensures
            r is Ok <==> self.valid(),
    {
        self.peer.validate()?;
        self.expected_version.validate()?;
        let ids = collect_event_ids(&self.events);
        if self.schema_version.0 == 0 || blank(self.batch_id.0.as_str()) || blank(
            self.aggregate.0.as_str(),
        ) || self.events.len() == 0 || !same_text(
            &self.expected_version.aggregate.0,
            &self.aggregate.0,
        ) || !check_distinct_texts(&ids) || self.expected_version.value == u64::MAX {
            return Err(Error("sync write batch is incomplete".to_string()));
        }
        let first: u64 = self.expected_version.value + 1;
        let mut i: usize = 0;
        while i < self.events.len()
            invariant
                i <= self.events@.len(),
                first == self.expected_version.value + 1,
                forall|j: int|
                    0 <= j < i ==> {
                        &&& (#[trigger] self.events@[j]).run_id.0@ == self.aggregate.0@
                        &&& self.events@[j].stream_seq == expected_sequence(
                            self.expected_version.value,
                            j,
                        )
                        &&& self.events@[j].schema_version.0 != 0
                        &&& self.events@[j].kind_matches()
                    },
            decreases self.events@.len() - i,
        {
            let event = &self.events[i];
            let expected: u64 = if (i as u64) <= u64::MAX - first {
                first + i as u64
            } else {
                0
            };
            if !same_text(&event.run_id.0, &self.aggregate.0) || event.stream_seq != expected
                || event.schema_version.0 == 0 || event.validate_payload_kind().is_err() {
                return Err(Error("sync write batch is incomplete".to_string()));
            }
            i = i + 1;
        }
        Ok(())
    }
}

#[derive(Debug, Clone, PartialEq, Eq)]
pub struct SyncExportRequest {
    pub schema_version: SchemaVersion,
    pub peer: SyncPeer,
    pub aggregate: RunId,
    pub after_version: AggregateVersion,
    pub limit: u32,
    pub redaction: SyncRedactionPolicy,
}

impl SyncExportRequest {
    pub open spec fn valid(&self) -> bool {
        &&& self.peer.valid()
        &&& self.after_version.valid()
        &&& self.redaction.valid()
        &&& self.schema_version.0 != 0
        &&& !is_blank(self.aggregate.0@)
        &&& self.after_version.aggregate.0@ == self.aggregate.0@
        &&& self.limit != 0
    }

    pub fn validate(&self) -> (r: Result<(), Error>)
        ensures
            r is Ok <==> self.valid(),
    {
        self.peer.validate()?;
        self.after_version.validate()?;
        self.redaction.validate()?;
        if self.schema_version.0 == 0 || blank(self.aggregate.0.as_str()) || !same_text(
            &self.after_version.aggregate.0,
            &self.aggregate.0,
        ) || self.limit == 0 {
            return Err(Error("sync export request is incomplete".to_string()));
        }
        Ok(())
    }
}

#[derive(Debug, Clone, PartialEq, Eq)]
pub enum SyncTransferPayload {
    Full(Box<EventPayload>),
    Redacted { kind: EventKind, reason: ReasonRef, digest: SchemaDigest },
}

#[derive(Debug, Clone, PartialEq, Eq)]
pub struct SyncTransferEvent {
    pub schema_version: SchemaVersion,
    pub event_id: EventId,
    pub aggregate: RunId,
    pub source_stream_seq: u64,
    pub turn_id: Option<TurnId>,
    pub kind: EventKind,
    pub payload: SyncTransferPayload,
    pub event_schema_version: SchemaVersion,
    pub ts_unix_ms: Timestamp,
    pub provenance: Provenance,
}

#[derive(Debug, Clone, PartialEq, Eq)]
pub struct SyncTransferBatch {
    pub schema_version: SchemaVersion,
    pub batch_id: SyncBatchId,
    pub peer: SyncPeerRef,
    pub aggregate: RunId,
    pub from_version: u64,
    pub to_version: u64,
    pub events: Vec<SyncTransferEvent>,
}

impl SyncTransferPayload {
    /// `{"Full":<payload>}` or `{"Redacted":{"kind":...,"reason":...,"digest":...}}`.
    pub open spec fn put_canonical(&self, acc: Seq<u8>) -> Seq<u8> {
        match self {
            SyncTransferPayload::Full(p) => p.put_canonical(
                with_key(acc + seq![0x7bu8], "Full"@),
            ) + seq![0x7du8],
            SyncTransferPayload::Redacted { kind, reason, digest } => {
                let a = with_key(with_key(acc + seq![0x7bu8], "Redacted"@) + seq![0x7bu8], "kind"@)
                    + json_string(kind.wire_name());
                let a = with_key(a + seq![0x2cu8], "reason"@) + json_string(reason.0@);
                let a = with_key(a + seq![0x2cu8], "digest"@) + json_string(digest.0@);
                a + seq![0x7du8] + seq![0x7du8]
            },
        }
    }

    pub fn write_canonical(&self, buf: &mut Vec<u8>)
        ensures
            final(buf)@ == self.put_canonical(old(buf)@),
    {
        match self {
            SyncTransferPayload::Full(p) => {
                put_mark(buf, 0x7b);
                put_key(buf, "Full");
                p.write_canonical(buf);
                put_mark(buf, 0x7d);
            },
            SyncTransferPayload::Redacted { kind, reason, digest } => {
                put_mark(buf, 0x7b);
                put_key(buf, "Redacted");
                put_mark(buf, 0x7b);
                put_key(buf, "kind");
                put_str(buf, kind.wire_str());
                put_mark(buf, 0x2c);
                put_key(buf, "reason");
                put_str(buf, reason.0.as_str());
                put_mark(buf, 0x2c);
                put_key(buf, "digest");
                put_str(buf, digest.0.as_str());
                put_mark(buf, 0x7d);
                put_mark(buf, 0x7d);
            },
        }
    }
}

impl SyncTransferEvent {
    pub open spec fn put_canonical(&self, acc: Seq<u8>) -> Seq<u8> {
        let a = with_key(acc + seq![0x7bu8], "schema_version"@) + json_int(
            self.schema_version.0 as int,
        );
        let a = with_key(a + seq![0x2cu8], "event_id"@) + json_string(self.event_id.0@);
        let a = with_key(a + seq![0x2cu8], "aggregate"@) + json_string(self.aggregate.0@);
        let a = with_key(a + seq![0x2cu8], "source_stream_seq"@) + json_int(
            self.source_stream_seq as int,
        );
        let a = with_key(a + seq![0x2cu8], "turn_id"@) + json_opt_text(
            match self.turn_id {
                Some(t) => Some(t.0@),
                None => None,
            },
        );
        let a = with_key(a + seq![0x2cu8], "kind"@) + json_string(self.kind.wire_name());
        let a = self.payload.put_canonical(with_key(a + seq![0x2cu8], "payload"@));
        let a = with_key(a + seq![0x2cu8], "event_schema_version"@) + json_int(
            self.event_schema_version.0 as int,
        );
        let a = with_key(a + seq![0x2cu8], "ts_unix_ms"@) + json_int(self.ts_unix_ms as int);
        let a = self.provenance.put_canonical(with_key(a + seq![0x2cu8], "provenance"@));
        a + seq![0x7du8]
    }

    pub fn write_canonical(&self, buf: &mut Vec<u8>)
        ensures
            final(buf)@ == self.put_canonical(old(buf)@),
    {
        put_mark(buf, 0x7b);
        put_key(buf, "schema_version");
        put_u64(buf, self.schema_version.0 as u64);
        put_mark(buf, 0x2c);
        put_key(buf, "event_id");
        put_str(buf, self.event_id.0.as_str());
        put_mark(buf, 0x2c);
        put_key(buf, "aggregate");
        put_str(buf, self.aggregate.0.as_str());
        put_mark(buf, 0x2c);
        put_key(buf, "source_stream_seq");
        put_u64(buf, self.source_stream_seq);
        put_mark(buf, 0x2c);
        put_key(buf, "turn_id");
        put_opt_text(
            buf,
            match &self.turn_id {
                Some(t) => Some(&t.0),
                None => None,
            },
        );
        put_mark(buf, 0x2c);
        put_key(buf, "kind");
        put_str(buf, self.kind.wire_str());
        put_mark(buf, 0x2c);
        put_key(buf, "payload");
        self.payload.write_canonical(buf);
        put_mark(buf, 0x2c);
        put_key(buf, "event_schema_version");
        put_u64(buf, self.event_schema_version.0 as u64);
        put_mark(buf, 0x2c);
        put_key(buf, "ts_unix_ms");
        put_i64(buf, self.ts_unix_ms);
        put_mark(buf, 0x2c);
        put_key(buf, "provenance");
        self.provenance.write_canonical(buf);
        put_mark(buf, 0x7d);
    }
}

/// A JSON array of transferred events, written after `acc`.
pub open spec fn with_transfer_events(acc: Seq<u8>, v: Seq<SyncTransferEvent>) -> Seq<u8> {
    joined_transfer_events(acc + seq![0x5bu8], v) + seq![0x5du8]
}

pub open spec fn joined_transfer_events(acc: Seq<u8>, v: Seq<SyncTransferEvent>) -> Seq<u8>
    decreases v.len(),
{
    if v.len() == 0 {
        acc
    } else if v.len() == 1 {
        v[0].put_canonical(acc)
    } else {
        v.last().put_canonical(joined_transfer_events(acc, v.drop_last()) + seq![0x2cu8])
    }
}

pub fn put_transfer_events(buf: &mut Vec<u8>, v: &Vec<SyncTransferEvent>)
    ensures
        final(buf)@ == with_transfer_events(old(buf)@, v@),
{
    let ghost start = buf@;
    buf.push(0x5b);
    let ghost open_acc = start + seq![0x5bu8];
    assert(buf@ =~= open_acc);
    let mut i: usize = 0;
    while i < v.len()
        invariant
            i <= v.len(),
            buf@ == joined_transfer_events(open_acc, v@.subrange(0, i as int)),
        decreases v.len() - i,
    {
        let ghost prefix = v@.subrange(0, i as int);
        let ghost next = v@.subrange(0, i + 1);
        proof {
            assert(next.drop_last() =~= prefix);
            assert(next.last() == v@[i as int]);
        }
        if i > 0 {
            put_mark(buf, 0x2c);
            v[i].write_canonical(buf);
            proof {
                assert(next.len() > 1);
                assert(joined_transfer_events(open_acc, next) == next.last().put_canonical(
                    joined_transfer_events(open_acc, next.drop_last()) + seq![0x2cu8],
                ));
            }
        } else {
            v[i].write_canonical(buf);
            proof {
                assert(prefix.len() == 0);
                assert(next.len() == 1);
                assert(next[0] == v@[0]);
                assert(joined_transfer_events(open_acc, next) == next[0].put_canonical(open_acc));
            }
        }
        i = i + 1;
    }
    put_mark(buf, 0x5d);
    assert(v@.subrange(0, i as int) =~= v@);
}

/// The identifiers of a list of transferred events, in order.
pub open spec fn transfer_ids(events: Seq<SyncTransferEvent>) -> Seq<EventId> {
    events.map_values(|e: SyncTransferEvent| e.event_id)
}

/// The authoritative event that a transferred event becomes.
pub open spec fn authoritative_event(t: SyncTransferEvent, payload: EventPayload) -> Event {
    Event {
        event_id: t.event_id,
        run_id: t.aggregate,
        stream_seq: t.source_stream_seq,
        turn_id: t.turn_id,
        kind: payload.kind,
        payload: payload,
        schema_version: t.event_schema_version,
        ts_unix_ms: t.ts_unix_ms,
        provenance: t.provenance,
    }
}

impl SyncTransferBatch {
    /// The batch header is complete and ends at its last event.
    pub open spec fn header_valid(&self, peer: &SyncPeer) -> bool {
        &&& self.schema_version.0 != 0
        &&& !is_blank(self.batch_id.0@)
        &&& self.peer.0@ == peer.reference.0@
        &&& !is_blank(self.aggregate.0@)
        &&& self.events@.len() > 0
        &&& self.from_version < self.to_version
        &&& self.events@.last().source_stream_seq == self.to_version
    }

    /// Each transferred event is full, in sequence after `from_version`, and
    /// belongs to the batch's aggregate.
    pub open spec fn events_valid(&self) -> bool {
        forall|i: int|
            0 <= i < self.events@.len() ==> {
                let t = #[trigger] self.events@[i];
                &&& self.from_version + i + 1 <= u64::MAX
                &&& t.schema_version.0 != 0
                &&& t.aggregate.0@ == self.aggregate.0@
                &&& t.source_stream_seq == self.from_version + i + 1
                &&& t.event_schema_version.0 != 0
                &&& t.payload matches SyncTransferPayload::Full(p) && p.kind == t.kind
            }
    }

    pub open spec fn convertible(&self, peer: &SyncPeer) -> bool {
        &&& peer.valid()
        &&& self.header_valid(peer)
        &&& self.events_valid()
        &&& distinct_texts(transfer_ids(self.events@))
    }

    /// Turns a peer's transferred batch into an authoritative write: every
    /// event must be full, contiguous after `from_version`, and end at
    /// `to_version`; redacted events never become authoritative.
    pub fn into_authoritative_write(self, peer: SyncPeer) -> (r: Result<SyncWriteBatch, Error>)
        ensures
            r is Ok <==> self.convertible(&peer),
            r matches Ok(b) ==> {
                &&& b.valid()
                &&& b.schema_version == self.schema_version
                &&& b.batch_id == self.batch_id
                &&& b.peer == peer
                &&& b.aggregate == self.aggregate
                &&& b.expected_version == (AggregateVersion {
                    schema_version: SchemaVersion(1),
                    aggregate: self.aggregate,
                    value: self.from_version,
                })
                &&& b.events@.len() == self.events@.len()
                &&& forall|i: int|
                    0 <= i < self.events@.len() ==> (self.events@[i].payload matches SyncTransferPayload::Full(
                        p,
                    ) && #[trigger] b.events@[i] == authoritative_event(self.events@[i], *p))
            },
    {
        peer.validate()?;
        let n = self.events.len();
        if self.schema_version.0 == 0 || blank(self.batch_id.0.as_str()) || !same_text(
            &self.peer.0,
            &peer.reference.0,
        ) || blank(self.aggregate.0.as_str()) || n == 0 || self.from_version
            >= self.to_version || self.events[n - 1].source_stream_seq != self.to_version {
            return Err(Error("sync transfer batch is incomplete".to_string()));
        }
        let mut i: usize = 0;
        while i < n
            invariant
                n == self.events@.len(),
                i <= n,
                forall|j: int|
                    0 <= j < i ==> {
                        let t = #[trigger] self.events@[j];
                        &&& self.from_version + j + 1 <= u64::MAX
                        &&& t.schema_version.0 != 0
                        &&& t.aggregate.0@ == self.aggregate.0@
                        &&& t.source_stream_seq == self.from_version + j + 1
                        &&& t.event_schema_version.0 != 0
                        &&& t.payload matches SyncTransferPayload::Full(p) && p.kind == t.kind
                    },
            decreases n - i,
        {
            if self.from_version > u64::MAX - 1 - (i as u64) {
                return Err(Error("sync transfer sequence is exhausted".to_string()));
            }
            let expected_sequence = self.from_version + (i as u64) + 1;
            let transfer = &self.events[i];
            if transfer.schema_version.0 == 0 || !same_text(
                &transfer.aggregate.0,
                &self.aggregate.0,
            ) || transfer.source_stream_seq != expected_sequence
                || transfer.event_schema_version.0 == 0 {
                return Err(Error("sync transfer event is not contiguous".to_string()));
            }
            match &transfer.payload {
                SyncTransferPayload::Full(payload) => {
                    if payload.kind() != transfer.kind {
                        return Err(
                            Error("sync transfer payload kind does not match".to_string()),
                        );
                    }
                },
                SyncTransferPayload::Redacted { .. } => {
                    return Err(
                        Error(
                            "redacted sync transfer cannot become an authoritative event".to_string(),
                        ),
                    );
                },
            }
            i = i + 1;
        }
        let ghost original = self.events@;
        let SyncTransferBatch {
            schema_version,
            batch_id,
            peer: _,
            aggregate,
            from_version,
            to_version: _,
            mut events,
        } = self;
        let mut converted: Vec<Event> = Vec::new();
        while events.len() > 0
            invariant
                converted@.len() + events@.len() == original.len(),
                events@ == original.subrange(converted@.len() as int, original.len() as int),
                forall|j: int|
                    0 <= j < original.len() ==> ((#[trigger] original[j]).payload matches SyncTransferPayload::Full(
                        p,
                    ) && p.kind == original[j].kind),
                forall|j: int|
                    0 <= j < converted@.len() ==> (original[j].payload matches SyncTransferPayload::Full(
                        p,
                    ) && #[trigger] converted@[j] == authoritative_event(original[j], *p)),
            decreases events@.len(),
        {
            let transfer = events.remove(0);
            let ghost k = converted@.len();
            assert(transfer == original[k as int]);
            match transfer.payload {
                SyncTransferPayload::Full(payload) => {
                    let mut event = Event::new(
                        transfer.event_id,
                        transfer.aggregate,
                        transfer.turn_id,
                        *payload,
                        transfer.event_schema_version,
                        transfer.ts_unix_ms,
                        transfer.provenance,
                    );
                    event.stream_seq = transfer.source_stream_seq;
                    converted.push(event);
                },
                SyncTransferPayload::Redacted { .. } => {
                    assert(false);
                },
            }
        }
        let batch = SyncWriteBatch {
            schema_version,
            batch_id,
            peer,
            aggregate: aggregate.duplicate(),
            expected_version: AggregateVersion {
                schema_version: SchemaVersion(1),
                aggregate,
                value: from_version,
            },
            events: converted,
        };
        proof {
            assert(event_ids(batch.events@) =~= transfer_ids(original));
        }
        batch.validate()?;
        Ok(batch)
    }
}

#[derive(Debug, Clone, Copy, PartialEq, Eq, Hash, Structural)]
pub enum SyncApplyStatus {
    Applied,
    Duplicate,
    Conflict,
}

#[derive(Debug, Clone, PartialEq, Eq)]
pub struct SyncApplyReport {
    pub schema_version: SchemaVersion,
    pub batch_id: SyncBatchId,
    pub status: SyncApplyStatus,
    pub expected_version: u64,
    pub actual_version: u64,
    pub resulting_version: u64,
    pub applied_events: Vec<EventId>,
}

#[derive(Debug, Clone, Copy, PartialEq, Eq, Hash, Structural)]
pub enum ExpectedAppendStatus {
    Applied,
    Duplicate,
    Conflict,
}

#[derive(Debug, Clone, PartialEq, Eq)]
pub struct ExpectedAppend {
    pub schema_version: SchemaVersion,
    pub status: ExpectedAppendStatus,
    pub expected_version: u64,
    pub actual_version: u64,
    pub resulting_version: u64,
    pub event_id: Option<EventId>,
}

} // verus!
