//! The memory state that events fold into: graph nodes and edges,
//! candidates, prospective intentions, attributes of the owner and imported
//! history. Each keyed collection is a list kept in order of its keys, so
//! replaying the same events always gives the same state; the leased claim
//! plan for due intentions is read from that state.
use vstd::prelude::*;

use crate::canon::Named;
use crate::control::{ScheduleBinding, ScheduleCommand};
use crate::control::CandidateReviewDecision;
use crate::m2_c::{CapabilityGap, CapabilityResultEvidence, CapabilityUpdateProposal, NarrowCapabilityGrant};
use crate::memory::{
    claim_step, claim_step_for, trusted_process, require_trusted_process, narrow_update,
    validate_narrow_update, intention_of, intention_ok, same_definition, same_intention_definition,
    intention_from_protocol, validate_intention, intention_step, valid_intention_transition, plan_candidate_transition, transition_refused, CandidateDecision, edge_kind_from_label, lease_reading, memory_scope_parts,
    node_kind_from_label, parse_intention_lease, stored_expiry, stored_seed, trigger_reading,
    bar_fields, memory_scope_contains, memory_scope_covers, RecallCue, ScopedMemoryQuery, CandidateSpec, CandidateState, ClaimStep, EdgeKind, EvidencePriority,
    ImportedHistoricalEvidence, IntentionState, IntentionTrigger, MemoryEdge, MemoryNode,
    MemoryScope, NodeKind, ProspectiveIntention, TriggerReading, UserAttributeCandidate,
    UserModelAttribute, intention_expiry_from_storage, intention_seed_from_storage,
    intention_trigger_from_storage,
};
use crate::primitives::{
    Actor, AutonomyEnvelope, GoalFrameRef, CandidateId, CandidateTargetRef, Error, VerifiedPrincipal, CandidateUpdate, Confidence, ContentRef, EdgeId, EventId,
    EvidenceRef, FeedbackRef, HistoricalSourceRef, IntentionId, IntentionOutcome, IntentionSource,
    IntentionTriggerRef, MemoryDeltasRef, NodeId, Provenance, Recency, RestingActivation,
    SchemaVersion, Scope, StabilityTier, Timestamp, UserAttributeRef, UserAttributeValueRef, Weight,
};
use crate::projection::{ascending, find_text, put_in_order, put_result};
use crate::text::{
    lemma_text_lt_transitive, text_less, contains_text, text_contains, blank, is_blank, duplicate_all, has_text, lemma_text_lt_irreflexive, same_text, text_lt, Duplicate, Textual,
};

verus! {

/// The entries of an ordered list, by key.
pub open spec fn keyed<T: Textual>(v: Seq<T>) -> Map<Seq<char>, T> {
    Map::new(
        |t: Seq<char>| has_text(v, t),
        |t: Seq<char>| v[choose|i: int| 0 <= i < v.len() && #[trigger] v[i].text() == t],
    )
}

/// In an ordered list an entry is the one its key finds.
pub proof fn lemma_keyed_at<T: Textual>(v: Seq<T>, i: int)
    requires
        ascending(v),
        0 <= i < v.len(),
    ensures
        keyed(v).contains_key(v[i].text()),
        keyed(v)[v[i].text()] == v[i],
{
    let t = v[i].text();
    assert(has_text(v, t));
    let c = choose|c: int| 0 <= c < v.len() && #[trigger] v[c].text() == t;
    lemma_text_lt_irreflexive(t);
    if c < i {
        assert(text_lt(v[c].text(), v[i].text()));
    } else if i < c {
        assert(text_lt(v[i].text(), v[c].text()));
    }
}

/// Putting an entry in order binds its key to it and leaves the other keys alone.
pub proof fn lemma_keyed_put<T: Textual>(before: Seq<T>, after: Seq<T>, x: T)
    requires
        ascending(before),
        put_result(before, after, x),
    ensures
        keyed(after) == keyed(before).insert(x.text(), x),
{
    let k = choose|k: int| 0 <= k < after.len() && after[k] == x;
    lemma_keyed_at(after, k);
    assert forall|t: Seq<char>| #[trigger] has_text(after, t) <==> (has_text(before, t) || t == x.text()) by {
        if has_text(after, t) && t != x.text() {
            let i = choose|i: int| 0 <= i < after.len() && #[trigger] after[i].text() == t;
            assert(before.contains(after[i]));
        }
        if has_text(before, t) && t != x.text() {
            let j = choose|j: int| 0 <= j < before.len() && #[trigger] before[j].text() == t;
            assert(after.contains(before[j]));
            let i = choose|i: int| 0 <= i < after.len() && after[i] == before[j];
            assert(after[i].text() == t);
        }
    }
    assert forall|t: Seq<char>| #[trigger] keyed(after).contains_key(t) && t != x.text() implies keyed(
        after,
    )[t] == keyed(before)[t] by {
        let i = choose|i: int| 0 <= i < after.len() && #[trigger] after[i].text() == t;
        lemma_keyed_at(after, i);
        assert(before.contains(after[i]));
        let j = choose|j: int| 0 <= j < before.len() && before[j] == after[i];
        lemma_keyed_at(before, j);
    }
    assert(keyed(after) =~= keyed(before).insert(x.text(), x));
}

/// Replacing an entry by one with the same key keeps the order and rebinds the key.
pub proof fn lemma_keyed_update<T: Textual>(v: Seq<T>, i: int, x: T)
    requires
        ascending(v),
        0 <= i < v.len(),
        x.text() == v[i].text(),
    ensures
        ascending(v.update(i, x)),
        keyed(v.update(i, x)) == keyed(v).insert(x.text(), x),
{
    let w = v.update(i, x);
    assert forall|a: int, b: int| 0 <= a < b < w.len() implies text_lt(
        #[trigger] w[a].text(),
        #[trigger] w[b].text(),
    ) by {
        assert(text_lt(v[a].text(), v[b].text()));
    }
    lemma_keyed_at(w, i);
    assert forall|t: Seq<char>| #[trigger] has_text(w, t) <==> has_text(v, t) by {
        if has_text(w, t) {
            let j = choose|j: int| 0 <= j < w.len() && #[trigger] w[j].text() == t;
            assert(v[j].text() == t);
        }
        if has_text(v, t) {
            let j = choose|j: int| 0 <= j < v.len() && #[trigger] v[j].text() == t;
            assert(w[j].text() == t);
        }
    }
    assert forall|t: Seq<char>| #[trigger] keyed(w).contains_key(t) && t != x.text() implies keyed(
        w,
    )[t] == keyed(v)[t] by {
        let j = choose|j: int| 0 <= j < w.len() && #[trigger] w[j].text() == t;
        lemma_keyed_at(w, j);
        lemma_keyed_at(v, j);
    }
    assert(keyed(w) =~= keyed(v).insert(x.text(), x));
}

/// Which event appended a node.
#[derive(Debug, Clone, PartialEq, Eq)]
pub struct NodeEvent {
    pub node_id: NodeId,
    pub event_id: EventId,
}

/// A capability update proposed with a candidate.
#[derive(Debug, Clone, PartialEq, Eq)]
pub struct CapabilityUpdateEntry {
    pub candidate_id: CandidateId,
    pub proposal: CapabilityUpdateProposal,
}

/// A candidate with its review state and who decided it.
#[derive(Debug, Clone, PartialEq, Eq)]
pub struct CandidateRecord {
    pub update: CandidateUpdate,
    pub spec: CandidateSpec,
    pub state: CandidateState,
    pub decided_by: Option<crate::primitives::Actor>,
}

/// An intention with its schedule, its lease and the event that last changed it.
#[derive(Debug, Clone, PartialEq, Eq)]
pub struct IntentionRecord {
    pub intention: ProspectiveIntention,
    pub schedule: Option<ScheduleBinding>,
    pub lease_until: Option<Timestamp>,
    pub claim_generation: EventId,
}

impl Textual for MemoryNode {
    open spec fn text(&self) -> Seq<char> {
        self.id.0@
    }

    fn as_text(&self) -> (r: &String) {
        &self.id.0
    }
}

impl Textual for NodeEvent {
    open spec fn text(&self) -> Seq<char> {
        self.node_id.0@
    }

    fn as_text(&self) -> (r: &String) {
        &self.node_id.0
    }
}

impl Textual for MemoryEdge {
    open spec fn text(&self) -> Seq<char> {
        self.id.0@
    }

    fn as_text(&self) -> (r: &String) {
        &self.id.0
    }
}

impl Textual for CandidateRecord {
    open spec fn text(&self) -> Seq<char> {
        self.spec.id.0@
    }

    fn as_text(&self) -> (r: &String) {
        &self.spec.id.0
    }
}

impl Textual for IntentionRecord {
    open spec fn text(&self) -> Seq<char> {
        self.intention.id.0@
    }

    fn as_text(&self) -> (r: &String) {
        &self.intention.id.0
    }
}

impl Textual for UserAttributeCandidate {
    open spec fn text(&self) -> Seq<char> {
        self.candidate_id.0@
    }

    fn as_text(&self) -> (r: &String) {
        &self.candidate_id.0
    }
}

impl Textual for CapabilityUpdateEntry {
    open spec fn text(&self) -> Seq<char> {
        self.candidate_id.0@
    }

    fn as_text(&self) -> (r: &String) {
        &self.candidate_id.0
    }
}

/// The key of a stable attribute: the attribute and the scope it holds in.
pub open spec fn attribute_key(a: UserModelAttribute) -> (Seq<char>, Seq<char>) {
    (a.attribute.0@, a.scope.0@)
}

/// No two stable attributes share a key.
pub open spec fn distinct_attribute_keys(v: Seq<UserModelAttribute>) -> bool {
    forall|i: int, j: int|
        0 <= i < v.len() && 0 <= j < v.len() && i != j ==> attribute_key(#[trigger] v[i])
            != attribute_key(#[trigger] v[j])
}

/// The stable attributes by key.
pub open spec fn attributes_keyed(v: Seq<UserModelAttribute>) -> Map<
    (Seq<char>, Seq<char>),
    UserModelAttribute,
> {
    Map::new(
        |k: (Seq<char>, Seq<char>)| exists|i: int| 0 <= i < v.len() && #[trigger] attribute_key(v[i]) == k,
        |k: (Seq<char>, Seq<char>)| v[choose|i: int| 0 <= i < v.len() && #[trigger] attribute_key(v[i]) == k],
    )
}

proof fn lemma_attribute_at(v: Seq<UserModelAttribute>, i: int)
    requires
        distinct_attribute_keys(v),
        0 <= i < v.len(),
    ensures
        attributes_keyed(v).contains_key(attribute_key(v[i])),
        attributes_keyed(v)[attribute_key(v[i])] == v[i],
{
    let k = attribute_key(v[i]);
    assert(exists|i2: int| 0 <= i2 < v.len() && #[trigger] attribute_key(v[i2]) == k);
    let c = choose|c: int| 0 <= c < v.len() && #[trigger] attribute_key(v[c]) == k;
    assert(c == i);
}

/// What memory holds after the events folded so far.
#[derive(Debug)]
pub struct MemoryState {
    pub nodes: Vec<MemoryNode>,
    pub node_events: Vec<NodeEvent>,
    pub edges: Vec<MemoryEdge>,
    pub candidates: Vec<CandidateRecord>,
    pub intentions: Vec<IntentionRecord>,
    pub user_candidates: Vec<UserAttributeCandidate>,
    pub stable_user_attributes: Vec<UserModelAttribute>,
    pub imported_history: Vec<ImportedHistoricalEvidence>,
    pub capability_updates: Vec<CapabilityUpdateEntry>,
}

impl MemoryState {
    /// Every keyed collection is in order of its keys, and no two stable
    /// attributes share a key.
    pub open spec fn wf(&self) -> bool {
        &&& ascending(self.nodes@)
        &&& ascending(self.node_events@)
        &&& ascending(self.edges@)
        &&& ascending(self.candidates@)
        &&& ascending(self.intentions@)
        &&& ascending(self.user_candidates@)
        &&& distinct_attribute_keys(self.stable_user_attributes@)
        &&& ascending(self.capability_updates@)
    }

    /// Memory before any event.
    pub open spec fn is_empty(&self) -> bool {
        &&& self.nodes@.len() == 0
        &&& self.node_events@.len() == 0
        &&& self.edges@.len() == 0
        &&& self.candidates@.len() == 0
        &&& self.intentions@.len() == 0
        &&& self.user_candidates@.len() == 0
        &&& self.stable_user_attributes@.len() == 0
        &&& self.imported_history@.len() == 0
        &&& self.capability_updates@.len() == 0
    }

    pub fn new() -> (r: MemoryState)
        ensures
            r.wf(),
            r.is_empty(),
    {
        MemoryState {
            nodes: Vec::new(),
            node_events: Vec::new(),
            edges: Vec::new(),
            candidates: Vec::new(),
            intentions: Vec::new(),
            user_candidates: Vec::new(),
            stable_user_attributes: Vec::new(),
            imported_history: Vec::new(),
            capability_updates: Vec::new(),
        }
    }
}

/// The payload of a memory event, with the fields the fold reads.
#[derive(Debug, Clone, PartialEq, Eq)]
pub enum MemoryEventPayload {
    MemoryNodeAppended {
        node_id: NodeId,
        kind: String,
        content_ref: ContentRef,
        tier: StabilityTier,
        confidence: Confidence,
        scope: Scope,
        resting_activation: RestingActivation,
        recency: Recency,
    },
    MemoryEdgeAppended { edge_id: EdgeId, from: NodeId, to: NodeId, kind: String, weight: Weight },
    CandidateCreated {
        candidate_id: CandidateId,
        target: CandidateTargetRef,
        evidence_refs: Vec<EvidenceRef>,
        confidence: Confidence,
        provenance: Provenance,
        target_tier: StabilityTier,
        capability_update: Option<CapabilityUpdateProposal>,
    },
    CandidatePromoted { candidate_id: CandidateId },
    CandidateRejected { candidate_id: CandidateId },
    CandidateDowngraded { candidate_id: CandidateId },
    CandidateDecayed { candidate_id: CandidateId },
    UserAttributeCandidateCreated {
        candidate_id: CandidateId,
        attribute: UserAttributeRef,
        value: UserAttributeValueRef,
        evidence: Vec<EvidenceRef>,
        confidence: Confidence,
        first_at: Timestamp,
        last_at: Timestamp,
        stability: StabilityTier,
        scope: Scope,
        conflicts: Vec<CandidateId>,
        feedback: Vec<FeedbackRef>,
    },
    ImportedHistoricalEvidenceRecorded { source: HistoricalSourceRef },
    ProspectiveIntentionCreated {
        intention_id: IntentionId,
        source: IntentionSource,
        trigger: IntentionTriggerRef,
        schedule: Option<ScheduleBinding>,
    },
    MemoryMaintenanceApplied { deltas_ref: MemoryDeltasRef },
    ProspectiveIntentionResolved { intention_id: IntentionId, outcome: IntentionOutcome },
    /// Any payload the memory state does not read.
    Other,
}

/// An event as the memory state reads it.
#[derive(Debug, Clone, PartialEq, Eq)]
pub struct MemoryEvent {
    pub event_id: EventId,
    pub schema_version: SchemaVersion,
    pub provenance: Provenance,
    pub payload: MemoryEventPayload,
}

/// `m` is what an event's scope text `s` reads as.
pub open spec fn reads_memory_scope(m: MemoryScope, s: Seq<char>) -> bool {
    &&& m.schema_version == SchemaVersion(1)
    &&& match memory_scope_parts(s) {
        Some(p) => m.slice == p.0 && m.scope.0@ == p.2 && match m.workspace {
            Some(w) => p.1.len() > 0 && w.0@ == p.1,
            None => p.1.len() == 0,
        },
        None => m.slice == crate::memory::TimeSlice::Daily && m.workspace is None && m.scope.0@ == s,
    }
}

/// `t` is what the first field of a stored intention trigger `s` reads as.
pub open spec fn reads_trigger(t: IntentionTrigger, s: Seq<char>) -> bool {
    match trigger_reading(bar_fields(s)[0]) {
        TriggerReading::At(x) => t == IntentionTrigger::At(x),
        TriggerReading::Event(name) => t matches IntentionTrigger::OnEvent(k) && k.wire_name() == name,
        TriggerReading::Condition(c) => t matches IntentionTrigger::OnCondition(x) && x.0@ == c,
    }
}

/// The state an intention resolution leaves it in.
pub open spec fn resolved_state(outcome: IntentionOutcome) -> IntentionState {
    match outcome {
        IntentionOutcome::Fired => IntentionState::Fired,
        IntentionOutcome::Done => IntentionState::Done,
        IntentionOutcome::Expired => IntentionState::Expired,
        IntentionOutcome::Cancelled => IntentionState::Cancelled,
    }
}

/// A stable attribute holds what the candidate says, its lists by their entries.
pub open spec fn attribute_from(a: UserModelAttribute, c: UserAttributeCandidate) -> bool {
    &&& a.schema_version == c.schema_version
    &&& a.attribute == c.attribute
    &&& a.value == c.value
    &&& a.evidence@ == c.evidence@
    &&& a.confidence == c.confidence
    &&& a.stability == c.stability
    &&& a.scope == c.scope
    &&& a.first_observed_at == c.first_observed_at
    &&& a.last_updated_at == c.last_updated_at
    &&& a.conflicts@ == c.conflicts@
    &&& a.feedback@ == c.feedback@
    &&& a.provenance == c.provenance
}

/// The collections a step leaves alone: `true` for each one kept.
pub open spec fn keeps(
    before: MemoryState,
    after: MemoryState,
    nodes: bool,
    edges: bool,
    candidates: bool,
    intentions: bool,
    user_candidates: bool,
    stable: bool,
    imported: bool,
    updates: bool,
) -> bool {
    &&& nodes ==> after.nodes@ == before.nodes@ && after.node_events@ == before.node_events@
    &&& edges ==> after.edges@ == before.edges@
    &&& candidates ==> after.candidates@ == before.candidates@
    &&& intentions ==> after.intentions@ == before.intentions@
    &&& user_candidates ==> after.user_candidates@ == before.user_candidates@
    &&& stable ==> after.stable_user_attributes@ == before.stable_user_attributes@
    &&& imported ==> after.imported_history@ == before.imported_history@
    &&& updates ==> after.capability_updates@ == before.capability_updates@
}

/// The candidate under `id`, if any, is now in state `to`.
pub open spec fn candidate_moved(
    before: Seq<CandidateRecord>,
    after: Seq<CandidateRecord>,
    id: Seq<char>,
    to: CandidateState,
) -> bool {
    if keyed(before).contains_key(id) {
        keyed(after) == keyed(before).insert(id, CandidateRecord { state: to, ..keyed(before)[id] })
    } else {
        after == before
    }
}

/// Promoting a candidate raises the owner's attribute it proposes to stable,
/// when that candidate came from the process's own evidence.
pub open spec fn attribute_promoted(
    before: MemoryState,
    after: MemoryState,
    id: Seq<char>,
) -> bool {
    let uc = keyed(before.user_candidates@);
    if uc.contains_key(id) && uc[id].evidence_priority == EvidencePriority::Process {
        let k = (uc[id].attribute.0@, uc[id].scope.0@);
        let m = attributes_keyed(after.stable_user_attributes@);
        &&& m.contains_key(k)
        &&& attribute_from(m[k], uc[id])
        &&& m == attributes_keyed(before.stable_user_attributes@).insert(k, m[k])
    } else {
        after.stable_user_attributes@ == before.stable_user_attributes@
    }
}

/// Demoting a candidate takes the owner's attribute it proposed out of the stable ones.
pub open spec fn attribute_demoted(before: MemoryState, after: MemoryState, id: Seq<char>) -> bool {
    let uc = keyed(before.user_candidates@);
    if uc.contains_key(id) {
        attributes_keyed(after.stable_user_attributes@) == attributes_keyed(
            before.stable_user_attributes@,
        ).remove((uc[id].attribute.0@, uc[id].scope.0@))
    } else {
        after.stable_user_attributes@ == before.stable_user_attributes@
    }
}

/// One event folded into memory.
pub open spec fn memory_step(before: MemoryState, after: MemoryState, event: MemoryEvent) -> bool {
    match event.payload {
        MemoryEventPayload::MemoryNodeAppended {
            node_id,
            kind,
            content_ref,
            tier,
            confidence,
            scope,
            resting_activation,
            recency,
        } => {
            let m = keyed(after.nodes@);
            &&& keeps(before, after, false, true, true, true, true, true, true, true)
            &&& m.contains_key(node_id.0@)
            &&& m == keyed(before.nodes@).insert(node_id.0@, m[node_id.0@])
            &&& m[node_id.0@] == (MemoryNode {
                schema_version: event.schema_version,
                id: node_id,
                kind: node_kind_from_label(kind@),
                content_ref,
                tier,
                confidence,
                scope: m[node_id.0@].scope,
                resting_activation,
                recency: recency.0,
                provenance: event.provenance,
            })
            &&& reads_memory_scope(m[node_id.0@].scope, scope.0@)
            &&& keyed(after.node_events@) == keyed(before.node_events@).insert(
                node_id.0@,
                NodeEvent { node_id, event_id: event.event_id },
            )
        },
        MemoryEventPayload::MemoryEdgeAppended { edge_id, from, to, kind, weight } => {
            &&& keeps(before, after, true, false, true, true, true, true, true, true)
            &&& keyed(after.edges@) == keyed(before.edges@).insert(
                edge_id.0@,
                MemoryEdge {
                    schema_version: event.schema_version,
                    id: edge_id,
                    from,
                    to,
                    kind: edge_kind_from_label(kind@),
                    weight,
                    provenance: event.provenance,
                },
            )
        },
        MemoryEventPayload::CandidateCreated {
            candidate_id,
            target,
            evidence_refs,
            confidence,
            provenance,
            target_tier,
            capability_update,
        } => {
            &&& keeps(before, after, true, true, false, true, true, true, true, false)
            &&& keyed(after.candidates@) == keyed(before.candidates@).insert(
                candidate_id.0@,
                CandidateRecord {
                    update: CandidateUpdate { schema_version: event.schema_version },
                    spec: CandidateSpec {
                        schema_version: event.schema_version,
                        id: candidate_id,
                        target,
                        evidence_refs,
                        confidence,
                        provenance,
                        target_tier,
                    },
                    state: CandidateState::Candidate,
                    decided_by: None,
                },
            )
            &&& match capability_update {
                Some(proposal) => keyed(after.capability_updates@) == keyed(
                    before.capability_updates@,
                ).insert(candidate_id.0@, CapabilityUpdateEntry { candidate_id, proposal }),
                None => after.capability_updates@ == before.capability_updates@,
            }
        },
        MemoryEventPayload::CandidatePromoted { candidate_id } => {
            &&& keeps(before, after, true, true, false, true, true, false, true, true)
            &&& candidate_moved(
                before.candidates@,
                after.candidates@,
                candidate_id.0@,
                CandidateState::Promoted,
            )
            &&& attribute_promoted(before, after, candidate_id.0@)
        },
        MemoryEventPayload::CandidateRejected { candidate_id } => {
            &&& keeps(before, after, true, true, false, true, true, true, true, true)
            &&& candidate_moved(
                before.candidates@,
                after.candidates@,
                candidate_id.0@,
                CandidateState::Rejected,
            )
        },
        MemoryEventPayload::CandidateDowngraded { candidate_id } => {
            &&& keeps(before, after, true, true, false, true, true, false, true, true)
            &&& candidate_moved(
                before.candidates@,
                after.candidates@,
                candidate_id.0@,
                CandidateState::Downgraded,
            )
            &&& attribute_demoted(before, after, candidate_id.0@)
        },
        MemoryEventPayload::CandidateDecayed { candidate_id } => {
            &&& keeps(before, after, true, true, false, true, true, false, true, true)
            &&& candidate_moved(
                before.candidates@,
                after.candidates@,
                candidate_id.0@,
                CandidateState::Decayed,
            )
            &&& attribute_demoted(before, after, candidate_id.0@)
        },
        MemoryEventPayload::UserAttributeCandidateCreated {
            candidate_id,
            attribute,
            value,
            evidence,
            confidence,
            first_at,
            last_at,
            stability,
            scope,
            conflicts,
            feedback,
        } => {
            &&& keeps(before, after, true, true, true, true, false, true, true, true)
            &&& keyed(after.user_candidates@) == keyed(before.user_candidates@).insert(
                candidate_id.0@,
                UserAttributeCandidate {
                    schema_version: event.schema_version,
                    candidate_id,
                    attribute,
                    value,
                    evidence,
                    confidence,
                    first_observed_at: first_at,
                    last_updated_at: last_at,
                    stability,
                    scope,
                    conflicts,
                    feedback,
                    provenance: event.provenance,
                    evidence_priority: EvidencePriority::Process,
                },
            )
        },
        MemoryEventPayload::ImportedHistoricalEvidenceRecorded { source } => {
            &&& keeps(before, after, true, true, true, true, true, true, false, true)
            &&& after.imported_history@ == before.imported_history@.push(
                ImportedHistoricalEvidence {
                    schema_version: event.schema_version,
                    source,
                    low_weight: true,
                    bootstrap_only: true,
                    provenance: event.provenance,
                },
            )
        },
        MemoryEventPayload::ProspectiveIntentionCreated { intention_id, source, trigger, schedule } => {
            let m = keyed(after.intentions@);
            let r = m[intention_id.0@];
            &&& keeps(before, after, true, true, true, false, true, true, true, true)
            &&& m.contains_key(intention_id.0@)
            &&& m == keyed(before.intentions@).insert(intention_id.0@, r)
            &&& r == (IntentionRecord {
                intention: ProspectiveIntention {
                    schema_version: event.schema_version,
                    id: intention_id,
                    source,
                    trigger: r.intention.trigger,
                    state: IntentionState::Pending,
                    seed: r.intention.seed,
                    provenance: event.provenance,
                    expires_at: stored_expiry(trigger.0@),
                },
                schedule,
                lease_until: None,
                claim_generation: event.event_id,
            })
            &&& reads_trigger(r.intention.trigger, trigger.0@)
            &&& r.intention.seed.0@ == stored_seed(trigger.0@)
        },
        MemoryEventPayload::MemoryMaintenanceApplied { deltas_ref } => {
            &&& keeps(before, after, true, true, true, false, true, true, true, true)
            &&& match lease_reading(deltas_ref.0@) {
                Some((id, lease)) => if keyed(before.intentions@).contains_key(id) {
                    keyed(after.intentions@) == keyed(before.intentions@).insert(
                        id,
                        IntentionRecord {
                            lease_until: Some(lease),
                            claim_generation: event.event_id,
                            ..keyed(before.intentions@)[id]
                        },
                    )
                } else {
                    after.intentions@ == before.intentions@
                },
                None => after.intentions@ == before.intentions@,
            }
        },
        MemoryEventPayload::ProspectiveIntentionResolved { intention_id, outcome } => {
            let old = keyed(before.intentions@)[intention_id.0@];
            &&& keeps(before, after, true, true, true, false, true, true, true, true)
            &&& if keyed(before.intentions@).contains_key(intention_id.0@) {
                keyed(after.intentions@) == keyed(before.intentions@).insert(
                    intention_id.0@,
                    IntentionRecord {
                        intention: ProspectiveIntention {
                            state: resolved_state(outcome),
                            ..old.intention
                        },
                        lease_until: if resolved_state(outcome) == IntentionState::Fired {
                            old.lease_until
                        } else {
                            None
                        },
                        claim_generation: event.event_id,
                        ..old
                    },
                )
            } else {
                after.intentions@ == before.intentions@
            }
        },
        MemoryEventPayload::Other => keeps(
            before,
            after,
            true,
            true,
            true,
            true,
            true,
            true,
            true,
            true,
        ),
    }
}

/// `state` is what replaying `events` in order gives, from an empty memory.
pub open spec fn memory_replay(events: Seq<MemoryEvent>, state: MemoryState) -> bool
    decreases events.len(),
{
    if events.len() == 0 {
        state.is_empty()
    } else {
        exists|mid: MemoryState|
            #![trigger memory_step(mid, state, events.last())]
            memory_replay(events.drop_last(), mid) && memory_step(mid, state, events.last())
    }
}

/// Puts an entry in its place by key.
pub fn put_keyed<T: Textual>(v: &mut Vec<T>, x: T)
    requires
        ascending(old(v)@),
    ensures
        ascending(final(v)@),
        keyed(final(v)@) == keyed(old(v)@).insert(x.text(), x),
{
    let ghost before = v@;
    let ghost xx = x;
    put_in_order(v, x);
    proof {
        lemma_keyed_put(before, v@, xx);
    }
}

proof fn lemma_reinsert<T>(s: Seq<T>, i: int, x: T)
    requires
        0 <= i < s.len(),
    ensures
        s.remove(i).insert(i, x) == s.update(i, x),
{
    assert(s.remove(i).insert(i, x) =~= s.update(i, x));
}

fn move_candidate(v: &mut Vec<CandidateRecord>, id: &CandidateId, to: CandidateState)
    requires
        ascending(old(v)@),
    ensures
        ascending(final(v)@),
        candidate_moved(old(v)@, final(v)@, id.0@, to),
{
    let ghost before = v@;
    match find_text(v, &id.0) {
        Some(i) => {
            proof {
                lemma_keyed_at(before, i as int);
            }
            let mut rec = v.remove(i);
            rec.state = to;
            v.insert(i, rec);
            proof {
                lemma_reinsert(before, i as int, rec);
                lemma_keyed_update(before, i as int, rec);
            }
        },
        None => {},
    }
}

fn put_attribute(v: &mut Vec<UserModelAttribute>, a: UserModelAttribute)
    requires
        distinct_attribute_keys(old(v)@),
    ensures
        distinct_attribute_keys(final(v)@),
        attributes_keyed(final(v)@) == attributes_keyed(old(v)@).insert(attribute_key(a), a),
{
    let ghost before = v@;
    let ghost k = attribute_key(a);
    let mut i: usize = 0;
    while i < v.len()
        invariant
            i <= v@.len(),
            v@ == before,
            distinct_attribute_keys(before),
            before == old(v)@,
            k == attribute_key(a),
            forall|j: int| 0 <= j < i ==> attribute_key(#[trigger] before[j]) != k,
        decreases v@.len() - i,
    {
        if same_text(&v[i].attribute.0, &a.attribute.0) && same_text(&v[i].scope.0, &a.scope.0) {
            let ghost old_i = before[i as int];
            v.set(i, a);
            proof {
                let after = v@;
                assert forall|x: int, y: int|
                    0 <= x < after.len() && 0 <= y < after.len() && x != y implies attribute_key(
                    #[trigger] after[x],
                ) != attribute_key(#[trigger] after[y]) by {
                    if x != i && y != i {
                        assert(attribute_key(before[x]) != attribute_key(before[y]));
                    } else if x == i {
                        assert(attribute_key(before[i as int]) != attribute_key(before[y]));
                    } else {
                        assert(attribute_key(before[x]) != attribute_key(before[i as int]));
                    }
                }
                lemma_attribute_at(after, i as int);
                assert forall|q: (Seq<char>, Seq<char>)| #[trigger] attributes_keyed(after).contains_key(q)
                    <==> (attributes_keyed(before).contains_key(q) || q == k) by {
                    if attributes_keyed(after).contains_key(q) {
                        let j = choose|j: int| 0 <= j < after.len() && #[trigger] attribute_key(after[j]) == q;
                        if j != i {
                            assert(attribute_key(before[j]) == q);
                        }
                    }
                    if attributes_keyed(before).contains_key(q) {
                        let j = choose|j: int| 0 <= j < before.len() && #[trigger] attribute_key(before[j]) == q;
                        assert(attribute_key(after[j]) == q);
                    }
                }
                assert forall|q: (Seq<char>, Seq<char>)| #[trigger] attributes_keyed(after).contains_key(q) && q != k
                    implies attributes_keyed(after)[q] == attributes_keyed(before)[q] by {
                    let j = choose|j: int| 0 <= j < after.len() && #[trigger] attribute_key(after[j]) == q;
                    lemma_attribute_at(after, j);
                    lemma_attribute_at(before, j);
                }
                assert(attributes_keyed(after) =~= attributes_keyed(before).insert(k, a));
            }
            return;
        }
        i = i + 1;
    }
    v.push(a);
    proof {
        let after = v@;
        let n = before.len() as int;
        assert forall|x: int, y: int|
            0 <= x < after.len() && 0 <= y < after.len() && x != y implies attribute_key(
            #[trigger] after[x],
        ) != attribute_key(#[trigger] after[y]) by {
            if x < n && y < n {
                assert(attribute_key(before[x]) != attribute_key(before[y]));
            }
        }
        lemma_attribute_at(after, n);
        assert forall|q: (Seq<char>, Seq<char>)| #[trigger] attributes_keyed(after).contains_key(q)
            <==> (attributes_keyed(before).contains_key(q) || q == k) by {
            if attributes_keyed(after).contains_key(q) {
                let j = choose|j: int| 0 <= j < after.len() && #[trigger] attribute_key(after[j]) == q;
                if j < n {
                    assert(attribute_key(before[j]) == q);
                }
            }
            if attributes_keyed(before).contains_key(q) {
                let j = choose|j: int| 0 <= j < before.len() && #[trigger] attribute_key(before[j]) == q;
                assert(attribute_key(after[j]) == q);
            }
        }
        assert forall|q: (Seq<char>, Seq<char>)| #[trigger] attributes_keyed(after).contains_key(q) && q != k
            implies attributes_keyed(after)[q] == attributes_keyed(before)[q] by {
            let j = choose|j: int| 0 <= j < after.len() && #[trigger] attribute_key(after[j]) == q;
            lemma_attribute_at(after, j);
            lemma_attribute_at(before, j);
        }
        assert(attributes_keyed(after) =~= attributes_keyed(before).insert(k, a));
    }
}

fn remove_attribute(v: &mut Vec<UserModelAttribute>, attribute: &UserAttributeRef, scope: &Scope)
    requires
        distinct_attribute_keys(old(v)@),
    ensures
        distinct_attribute_keys(final(v)@),
        attributes_keyed(final(v)@) == attributes_keyed(old(v)@).remove((attribute.0@, scope.0@)),
{
    let ghost before = v@;
    let ghost k = (attribute.0@, scope.0@);
    let mut i: usize = 0;
    while i < v.len()
        invariant
            i <= v@.len(),
            v@ == before,
            distinct_attribute_keys(before),
            before == old(v)@,
            k == (attribute.0@, scope.0@),
            forall|j: int| 0 <= j < i ==> attribute_key(#[trigger] before[j]) != k,
        decreases v@.len() - i,
    {
        if same_text(&v[i].attribute.0, &attribute.0) && same_text(&v[i].scope.0, &scope.0) {
            v.remove(i);
            proof {
                let after = v@;
                assert forall|x: int, y: int|
                    0 <= x < after.len() && 0 <= y < after.len() && x != y implies attribute_key(
                    #[trigger] after[x],
                ) != attribute_key(#[trigger] after[y]) by {
                    let bx = if x < i { x } else { x + 1 };
                    let by = if y < i { y } else { y + 1 };
                    assert(after[x] == before[bx] && after[y] == before[by]);
                    assert(attribute_key(before[bx]) != attribute_key(before[by]));
                }
                assert forall|q: (Seq<char>, Seq<char>)| #[trigger] attributes_keyed(after).contains_key(q)
                    <==> (attributes_keyed(before).contains_key(q) && q != k) by {
                    if attributes_keyed(after).contains_key(q) {
                        let j = choose|j: int| 0 <= j < after.len() && #[trigger] attribute_key(after[j]) == q;
                        let bj = if j < i { j } else { j + 1 };
                        assert(after[j] == before[bj]);
                        assert(attribute_key(before[bj]) != attribute_key(before[i as int]));
                    }
                    if attributes_keyed(before).contains_key(q) && q != k {
                        let j = choose|j: int| 0 <= j < before.len() && #[trigger] attribute_key(before[j]) == q;
                        assert(j != i);
                        let aj = if j < i { j } else { j - 1 };
                        assert(after[aj] == before[j]);
                        assert(attribute_key(after[aj]) == q);
                    }
                }
                assert forall|q: (Seq<char>, Seq<char>)| #[trigger] attributes_keyed(after).contains_key(q)
                    implies attributes_keyed(after)[q] == attributes_keyed(before)[q] by {
                    let j = choose|j: int| 0 <= j < after.len() && #[trigger] attribute_key(after[j]) == q;
                    let bj = if j < i { j } else { j + 1 };
                    assert(after[j] == before[bj]);
                    lemma_attribute_at(after, j);
                    lemma_attribute_at(before, bj);
                }
                assert(attributes_keyed(after) =~= attributes_keyed(before).remove(k));
            }
            return;
        }
        i = i + 1;
    }
    proof {
        assert(!attributes_keyed(before).contains_key(k));
        assert(attributes_keyed(before).remove(k) =~= attributes_keyed(before));
    }
}

fn attribute_of(c: &UserAttributeCandidate) -> (a: UserModelAttribute)
    ensures
        attribute_from(a, *c),
        attribute_key(a) == (c.attribute.0@, c.scope.0@),
{
    UserModelAttribute {
        schema_version: c.schema_version,
        attribute: c.attribute.duplicate(),
        value: c.value.duplicate(),
        evidence: duplicate_all(&c.evidence),
        confidence: c.confidence,
        stability: c.stability,
        scope: c.scope.duplicate(),
        first_observed_at: c.first_observed_at,
        last_updated_at: c.last_updated_at,
        conflicts: duplicate_all(&c.conflicts),
        feedback: duplicate_all(&c.feedback),
        provenance: c.provenance.duplicate(),
    }
}

fn promote_attribute(state: &mut MemoryState, id: &CandidateId)
    requires
        old(state).wf(),
    ensures
        final(state).wf(),
        keeps(*old(state), *final(state), true, true, true, true, true, false, true, true),
        attribute_promoted(*old(state), *final(state), id.0@),
{
    match find_text(&state.user_candidates, &id.0) {
        Some(i) => {
            proof {
                lemma_keyed_at(state.user_candidates@, i as int);
            }
            if state.user_candidates[i].evidence_priority == EvidencePriority::Process {
                let a = attribute_of(&state.user_candidates[i]);
                put_attribute(&mut state.stable_user_attributes, a);
            }
        },
        None => {},
    }
}

fn demote_attribute(state: &mut MemoryState, id: &CandidateId)
    requires
        old(state).wf(),
    ensures
        final(state).wf(),
        keeps(*old(state), *final(state), true, true, true, true, true, false, true, true),
        attribute_demoted(*old(state), *final(state), id.0@),
{
    match find_text(&state.user_candidates, &id.0) {
        Some(i) => {
            proof {
                lemma_keyed_at(state.user_candidates@, i as int);
            }
            let attribute = state.user_candidates[i].attribute.duplicate();
            let scope = state.user_candidates[i].scope.duplicate();
            remove_attribute(&mut state.stable_user_attributes, &attribute, &scope);
        },
        None => {},
    }
}

fn lease_intention(v: &mut Vec<IntentionRecord>, id: &IntentionId, lease: i64, event_id: EventId)
    requires
        ascending(old(v)@),
    ensures
        ascending(final(v)@),
        if keyed(old(v)@).contains_key(id.0@) {
            keyed(final(v)@) == keyed(old(v)@).insert(
                id.0@,
                IntentionRecord {
                    lease_until: Some(lease),
                    claim_generation: event_id,
                    ..keyed(old(v)@)[id.0@]
                },
            )
        } else {
            final(v)@ == old(v)@
        },
{
    let ghost before = v@;
    match find_text(v, &id.0) {
        Some(i) => {
            proof {
                lemma_keyed_at(before, i as int);
            }
            let mut rec = v.remove(i);
            rec.lease_until = Some(lease);
            rec.claim_generation = event_id;
            v.insert(i, rec);
            proof {
                lemma_reinsert(before, i as int, rec);
                lemma_keyed_update(before, i as int, rec);
            }
        },
        None => {},
    }
}

fn state_after(outcome: IntentionOutcome) -> (r: IntentionState)
    ensures
        r == resolved_state(outcome),
{
    match outcome {
        IntentionOutcome::Fired => IntentionState::Fired,
        IntentionOutcome::Done => IntentionState::Done,
        IntentionOutcome::Expired => IntentionState::Expired,
        IntentionOutcome::Cancelled => IntentionState::Cancelled,
    }
}

fn resolve_intention(
    v: &mut Vec<IntentionRecord>,
    id: &IntentionId,
    outcome: IntentionOutcome,
    event_id: EventId,
)
    requires
        ascending(old(v)@),
    ensures
        ascending(final(v)@),
        ({
            let old_rec = keyed(old(v)@)[id.0@];
            if keyed(old(v)@).contains_key(id.0@) {
                keyed(final(v)@) == keyed(old(v)@).insert(
                    id.0@,
                    IntentionRecord {
                        intention: ProspectiveIntention {
                            state: resolved_state(outcome),
                            ..old_rec.intention
                        },
                        lease_until: if resolved_state(outcome) == IntentionState::Fired {
                            old_rec.lease_until
                        } else {
                            None
                        },
                        claim_generation: event_id,
                        ..old_rec
                    },
                )
            } else {
                final(v)@ == old(v)@
            }
        }),
{
    let ghost before = v@;
    match find_text(v, &id.0) {
        Some(i) => {
            proof {
                lemma_keyed_at(before, i as int);
            }
            let mut rec = v.remove(i);
            let st = state_after(outcome);
            rec.intention.state = st;
            if st != IntentionState::Fired {
                rec.lease_until = None;
            }
            rec.claim_generation = event_id;
            v.insert(i, rec);
            proof {
                lemma_reinsert(before, i as int, rec);
                lemma_keyed_update(before, i as int, rec);
            }
        },
        None => {},
    }
}

/// Folds one event into memory.
pub fn fold_event(state: &mut MemoryState, event: MemoryEvent)
    requires
        old(state).wf(),
    ensures
        final(state).wf(),
        memory_step(*old(state), *final(state), event),
{
    let MemoryEvent { event_id, schema_version, provenance, payload } = event;
    match payload {
        MemoryEventPayload::MemoryNodeAppended {
            node_id,
            kind,
            content_ref,
            tier,
            confidence,
            scope,
            resting_activation,
            recency,
        } => {
            let node_event = NodeEvent { node_id: node_id.duplicate(), event_id };
            put_keyed(&mut state.node_events, node_event);
            let node = MemoryNode {
                schema_version,
                id: node_id,
                kind: NodeKind::parse(kind.as_str()),
                content_ref,
                tier,
                confidence,
                scope: MemoryScope::from_event_scope(&scope),
                resting_activation,
                recency: recency.0,
                provenance,
            };
            put_keyed(&mut state.nodes, node);
        },
        MemoryEventPayload::MemoryEdgeAppended { edge_id, from, to, kind, weight } => {
            let edge = MemoryEdge {
                schema_version,
                id: edge_id,
                from,
                to,
                kind: EdgeKind::parse(kind.as_str()),
                weight,
                provenance,
            };
            put_keyed(&mut state.edges, edge);
        },
        MemoryEventPayload::CandidateCreated {
            candidate_id,
            target,
            evidence_refs,
            confidence,
            provenance: candidate_provenance,
            target_tier,
            capability_update,
        } => {
            match capability_update {
                Some(proposal) => {
                    let entry = CapabilityUpdateEntry { candidate_id: candidate_id.duplicate(), proposal };
                    put_keyed(&mut state.capability_updates, entry);
                },
                None => {},
            }
            let record = CandidateRecord {
                update: CandidateUpdate { schema_version },
                spec: CandidateSpec {
                    schema_version,
                    id: candidate_id,
                    target,
                    evidence_refs,
                    confidence,
                    provenance: candidate_provenance,
                    target_tier,
                },
                state: CandidateState::Candidate,
                decided_by: None,
            };
            put_keyed(&mut state.candidates, record);
        },
        MemoryEventPayload::CandidatePromoted { candidate_id } => {
            move_candidate(&mut state.candidates, &candidate_id, CandidateState::Promoted);
            promote_attribute(state, &candidate_id);
        },
        MemoryEventPayload::CandidateRejected { candidate_id } => {
            move_candidate(&mut state.candidates, &candidate_id, CandidateState::Rejected);
        },
        MemoryEventPayload::CandidateDowngraded { candidate_id } => {
            move_candidate(&mut state.candidates, &candidate_id, CandidateState::Downgraded);
            demote_attribute(state, &candidate_id);
        },
        MemoryEventPayload::CandidateDecayed { candidate_id } => {
            move_candidate(&mut state.candidates, &candidate_id, CandidateState::Decayed);
            demote_attribute(state, &candidate_id);
        },
        MemoryEventPayload::UserAttributeCandidateCreated {
            candidate_id,
            attribute,
            value,
            evidence,
            confidence,
            first_at,
            last_at,
            stability,
            scope,
            conflicts,
            feedback,
        } => {
            let candidate = UserAttributeCandidate {
                schema_version,
                candidate_id,
                attribute,
                value,
                evidence,
                confidence,
                first_observed_at: first_at,
                last_updated_at: last_at,
                stability,
                scope,
                conflicts,
                feedback,
                provenance,
                evidence_priority: EvidencePriority::Process,
            };
            put_keyed(&mut state.user_candidates, candidate);
        },
        MemoryEventPayload::ImportedHistoricalEvidenceRecorded { source } => {
            state.imported_history.push(
                ImportedHistoricalEvidence {
                    schema_version,
                    source,
                    low_weight: true,
                    bootstrap_only: true,
                    provenance,
                },
            );
        },
        MemoryEventPayload::ProspectiveIntentionCreated { intention_id, source, trigger, schedule } => {
            let record = IntentionRecord {
                intention: ProspectiveIntention {
                    schema_version,
                    id: intention_id,
                    source,
                    trigger: intention_trigger_from_storage(&trigger),
                    state: IntentionState::Pending,
                    seed: intention_seed_from_storage(&trigger),
                    provenance,
                    expires_at: intention_expiry_from_storage(&trigger),
                },
                schedule,
                lease_until: None,
                claim_generation: event_id,
            };
            put_keyed(&mut state.intentions, record);
        },
        MemoryEventPayload::MemoryMaintenanceApplied { deltas_ref } => {
            match parse_intention_lease(&deltas_ref) {
                Some((id, lease)) => {
                    lease_intention(&mut state.intentions, &id, lease, event_id);
                },
                None => {},
            }
        },
        MemoryEventPayload::ProspectiveIntentionResolved { intention_id, outcome } => {
            resolve_intention(&mut state.intentions, &intention_id, outcome, event_id);
        },
        MemoryEventPayload::Other => {},
    }
}

/// The memory state that replaying `events` in order gives.
pub fn rebuild_memory(events: Vec<MemoryEvent>) -> (r: MemoryState)
    ensures
        r.wf(),
        memory_replay(events@, r),
{
    let ghost all = events@;
    let mut events = events;
    let total: usize = events.len();
    let mut state = MemoryState::new();
    let mut k: usize = 0;
    while events.len() > 0
        invariant
            k <= all.len(),
            all.len() == total,
            events@ == all.subrange(k as int, all.len() as int),
            state.wf(),
            memory_replay(all.subrange(0, k as int), state),
        decreases events@.len(),
    {
        let ghost mid = state;
        let event = events.remove(0);
        fold_event(&mut state, event);
        proof {
            let done = all.subrange(0, k + 1);
            assert(done.drop_last() =~= all.subrange(0, k as int));
            assert(done.last() == event);
            assert(memory_step(mid, state, done.last()));
        }
        k = k + 1;
    }
    proof {
        assert(all.subrange(0, k as int) =~= all);
    }
    state
}

/// The claim plan for the intentions `s`, in their order: each one a pass
/// would expire or claim, with what it does to it, up to `remaining` claims.
pub open spec fn due_claims_from(
    s: Seq<IntentionRecord>,
    now: Timestamp,
    lease_ms: i64,
    schedule_filter: Option<bool>,
    remaining: nat,
) -> Seq<(IntentionId, ClaimStep)>
    decreases s.len(),
{
    if s.len() == 0 || remaining == 0 {
        Seq::empty()
    } else {
        let r = s[0];
        let step = claim_step_for(
            r.intention,
            r.lease_until,
            r.schedule is Some,
            schedule_filter,
            now,
            lease_ms,
        );
        let rest = s.drop_first();
        match step {
            ClaimStep::Skip => due_claims_from(rest, now, lease_ms, schedule_filter, remaining),
            ClaimStep::Expire => seq![(r.intention.id, step)] + due_claims_from(
                rest,
                now,
                lease_ms,
                schedule_filter,
                remaining,
            ),
            ClaimStep::Claim(_) => seq![(r.intention.id, step)] + due_claims_from(
                rest,
                now,
                lease_ms,
                schedule_filter,
                (remaining - 1) as nat,
            ),
        }
    }
}

/// The claim plan of a pass over memory at `now`: nothing without a positive
/// lease or room for a claim, else the intentions in order of their
/// identifiers, cut after `max_claims` claims.
pub open spec fn due_claims(
    state: MemoryState,
    now: Timestamp,
    lease_ms: i64,
    schedule_filter: Option<bool>,
    max_claims: usize,
) -> Seq<(IntentionId, ClaimStep)> {
    if lease_ms <= 0 || max_claims == 0 {
        Seq::empty()
    } else {
        due_claims_from(state.intentions@, now, lease_ms, schedule_filter, max_claims as nat)
    }
}

/// How many entries of a plan claim.
pub open spec fn claims_in(plan: Seq<(IntentionId, ClaimStep)>) -> nat
    decreases plan.len(),
{
    if plan.len() == 0 {
        0
    } else {
        claims_in(plan.drop_first()) + if plan[0].1 is Claim {
            1nat
        } else {
            0nat
        }
    }
}

proof fn lemma_claims_in_prefixed(x: (IntentionId, ClaimStep), rest: Seq<(IntentionId, ClaimStep)>)
    ensures
        claims_in(seq![x] + rest) == claims_in(rest) + if x.1 is Claim {
            1nat
        } else {
            0nat
        },
{
    assert((seq![x] + rest).drop_first() =~= rest);
}

/// A plan never claims more than it has room for, and every entry it lists
/// expires or claims.
pub proof fn lemma_plan_is_capped(
    s: Seq<IntentionRecord>,
    now: Timestamp,
    lease_ms: i64,
    schedule_filter: Option<bool>,
    remaining: nat,
)
    ensures
        claims_in(due_claims_from(s, now, lease_ms, schedule_filter, remaining)) <= remaining,
        forall|i: int|
            0 <= i < due_claims_from(s, now, lease_ms, schedule_filter, remaining).len() ==> (
            #[trigger] due_claims_from(s, now, lease_ms, schedule_filter, remaining)[i]).1 !is Skip,
    decreases s.len(),
{
    if s.len() > 0 && remaining > 0 {
        let r = s[0];
        let step = claim_step_for(
            r.intention,
            r.lease_until,
            r.schedule is Some,
            schedule_filter,
            now,
            lease_ms,
        );
        let rest = s.drop_first();
        match step {
            ClaimStep::Skip => {
                lemma_plan_is_capped(rest, now, lease_ms, schedule_filter, remaining);
            },
            ClaimStep::Expire => {
                lemma_plan_is_capped(rest, now, lease_ms, schedule_filter, remaining);
                lemma_claims_in_prefixed(
                    (r.intention.id, step),
                    due_claims_from(rest, now, lease_ms, schedule_filter, remaining),
                );
            },
            ClaimStep::Claim(_) => {
                lemma_plan_is_capped(rest, now, lease_ms, schedule_filter, (remaining - 1) as nat);
                lemma_claims_in_prefixed(
                    (r.intention.id, step),
                    due_claims_from(rest, now, lease_ms, schedule_filter, (remaining - 1) as nat),
                );
            },
        }
    }
}

/// What a claim pass at `now` would do, in order of the intentions'
/// identifiers: which to resolve as expired and which to lease and fire,
/// stopping once `max_claims` are claimed. Nothing is planned without a
/// positive lease or room for a claim.
pub fn plan_due_claims(
    state: &MemoryState,
    now: Timestamp,
    lease_ms: i64,
    schedule_filter: Option<bool>,
    max_claims: usize,
) -> (r: Vec<(IntentionId, ClaimStep)>)
    ensures
        (lease_ms <= 0 || max_claims == 0) ==> r@.len() == 0,
        r@ == due_claims(*state, now, lease_ms, schedule_filter, max_claims),
{
    if lease_ms <= 0 || max_claims == 0 {
        return Vec::new();
    }
    let r = plan_claims_from(state, 0, now, lease_ms, schedule_filter, max_claims);
    assert(state.intentions@.subrange(0, state.intentions@.len() as int) =~= state.intentions@);
    r
}

/// Where the intentions listed after the identifier `t` begin: every entry
/// before is not above `t`, every entry from there on is.
pub open spec fn position_after(s: Seq<IntentionRecord>, t: Seq<char>) -> int {
    choose|k: int| #[trigger] splits_after(s, t, k)
}

/// Position `k` splits `s` into the entries not above `t` and those above it.
pub open spec fn splits_after(s: Seq<IntentionRecord>, t: Seq<char>, k: int) -> bool {
    &&& 0 <= k <= s.len()
    &&& forall|j: int| 0 <= j < k ==> !text_lt(t, #[trigger] s[j].text())
    &&& forall|j: int| k <= j < s.len() ==> text_lt(t, #[trigger] s[j].text())
}

/// The claim plan of a pass that resumes after the intention `after`, with
/// room for `max_claims` more claims: a pass whose lease append for `after`
/// failed moves on to the intentions listed after it.
pub fn plan_due_claims_after(
    state: &MemoryState,
    after: &IntentionId,
    now: Timestamp,
    lease_ms: i64,
    schedule_filter: Option<bool>,
    max_claims: usize,
) -> (r: Vec<(IntentionId, ClaimStep)>)
    requires
        state.wf(),
    ensures
        (lease_ms <= 0 || max_claims == 0) ==> r@.len() == 0,
        !(lease_ms <= 0 || max_claims == 0) ==> r@ == due_claims_from(
            state.intentions@.subrange(
                position_after(state.intentions@, after.0@),
                state.intentions@.len() as int,
            ),
            now,
            lease_ms,
            schedule_filter,
            max_claims as nat,
        ),
{
    if lease_ms <= 0 || max_claims == 0 {
        return Vec::new();
    }
    let ghost s = state.intentions@;
    let n = state.intentions.len();
    let mut k: usize = 0;
    while k < n && !text_less(&after.0, &state.intentions[k].intention.id.0)
        invariant
            k <= n,
            n == s.len(),
            s == state.intentions@,
            forall|j: int| 0 <= j < k ==> !text_lt(after.0@, #[trigger] s[j].text()),
        decreases n - k,
    {
        k = k + 1;
    }
    proof {
        assert forall|j: int| k <= j < s.len() implies text_lt(after.0@, #[trigger] s[j].text()) by {
            if j > k {
                assert(text_lt(s[k as int].text(), s[j].text()));
                lemma_text_lt_transitive(after.0@, s[k as int].text(), s[j].text());
            }
        }
        assert(splits_after(s, after.0@, k as int));
        let p = position_after(s, after.0@);
        assert(splits_after(s, after.0@, p));
        if p < k {
            assert(text_lt(after.0@, s[p].text()));
        } else if k < p {
            assert(text_lt(after.0@, s[k as int].text()));
        }
        assert(p == k);
    }
    plan_claims_from(state, k, now, lease_ms, schedule_filter, max_claims)
}

fn plan_claims_from(
    state: &MemoryState,
    start: usize,
    now: Timestamp,
    lease_ms: i64,
    schedule_filter: Option<bool>,
    max_claims: usize,
) -> (r: Vec<(IntentionId, ClaimStep)>)
    requires
        start <= state.intentions@.len(),
    ensures
        r@ == due_claims_from(
            state.intentions@.subrange(start as int, state.intentions@.len() as int),
            now,
            lease_ms,
            schedule_filter,
            max_claims as nat,
        ),
{
    let mut plan: Vec<(IntentionId, ClaimStep)> = Vec::new();
    let ghost all = state.intentions@;
    let n = state.intentions.len();
    let ghost base = all.subrange(start as int, n as int);
    let mut remaining: usize = max_claims;
    let mut i: usize = start;
    proof {
        let d = due_claims_from(base, now, lease_ms, schedule_filter, max_claims as nat);
        assert(plan@ + d =~= d);
    }
    while i < n && remaining > 0
        invariant
            n == all.len(),
            all == state.intentions@,
            start <= i <= n,
            base == all.subrange(start as int, n as int),
            plan@ + due_claims_from(all.subrange(i as int, n as int), now, lease_ms, schedule_filter, remaining as nat)
                == due_claims_from(base, now, lease_ms, schedule_filter, max_claims as nat),
        decreases n - i,
    {
        let r = &state.intentions[i];
        let step = claim_step(
            &r.intention,
            r.lease_until,
            r.schedule.is_some(),
            schedule_filter,
            now,
            lease_ms,
        );
        let ghost s = all.subrange(i as int, n as int);
        let ghost before = plan@;
        proof {
            assert(s[0] == all[i as int]);
            assert(s.drop_first() =~= all.subrange(i + 1, n as int));
        }
        match step {
            ClaimStep::Skip => {},
            ClaimStep::Expire => {
                plan.push((r.intention.id.duplicate(), step));
                proof {
                    assert(before + due_claims_from(s, now, lease_ms, schedule_filter, remaining as nat)
                        =~= plan@ + due_claims_from(all.subrange(i + 1, n as int), now, lease_ms, schedule_filter, remaining as nat));
                }
            },
            ClaimStep::Claim(_) => {
                plan.push((r.intention.id.duplicate(), step));
                proof {
                    assert(before + due_claims_from(s, now, lease_ms, schedule_filter, remaining as nat)
                        =~= plan@ + due_claims_from(all.subrange(i + 1, n as int), now, lease_ms, schedule_filter, (remaining - 1) as nat));
                }
                remaining = remaining - 1;
            },
        }
        i = i + 1;
    }
    proof {
        let s = all.subrange(i as int, n as int);
        assert(due_claims_from(s, now, lease_ms, schedule_filter, remaining as nat).len() == 0);
        assert(plan@ =~= plan@ + due_claims_from(s, now, lease_ms, schedule_filter, remaining as nat));
    }
    plan
}

/// The record a claim step leaves: expired and free of its lease, or fired
/// under a lease until the given time; the step's event last changed it.
pub open spec fn claimed_record(r: IntentionRecord, step: ClaimStep, event: EventId) -> IntentionRecord {
    match step {
        ClaimStep::Skip => r,
        ClaimStep::Expire => IntentionRecord {
            intention: ProspectiveIntention { state: IntentionState::Expired, ..r.intention },
            lease_until: None,
            claim_generation: event,
            ..r
        },
        ClaimStep::Claim(until) => IntentionRecord {
            intention: ProspectiveIntention { state: IntentionState::Fired, ..r.intention },
            lease_until: Some(until),
            claim_generation: event,
            ..r
        },
    }
}

/// Records in memory what a claim step did to an intention, once its event was stored.
pub fn apply_claim(state: &mut MemoryState, id: &IntentionId, step: ClaimStep, event: &EventId)
    requires
        old(state).wf(),
    ensures
        final(state).wf(),
        keeps(*old(state), *final(state), true, true, true, false, true, true, true, true),
        if keyed(old(state).intentions@).contains_key(id.0@) && !(step is Skip) {
            keyed(final(state).intentions@) == keyed(old(state).intentions@).insert(
                id.0@,
                claimed_record(keyed(old(state).intentions@)[id.0@], step, *event),
            )
        } else {
            final(state).intentions@ == old(state).intentions@
        },
{
    if let ClaimStep::Skip = step {
        return;
    }
    let ghost before = state.intentions@;
    match find_text(&state.intentions, &id.0) {
        Some(i) => {
            proof {
                lemma_keyed_at(before, i as int);
            }
            let mut rec = state.intentions.remove(i);
            match step {
                ClaimStep::Expire => {
                    rec.intention.state = IntentionState::Expired;
                    rec.lease_until = None;
                },
                ClaimStep::Claim(until) => {
                    rec.intention.state = IntentionState::Fired;
                    rec.lease_until = Some(until);
                },
                ClaimStep::Skip => {},
            }
            rec.claim_generation = event.duplicate();
            state.intentions.insert(i, rec);
            proof {
                lemma_reinsert(before, i as int, rec);
                lemma_keyed_update(before, i as int, rec);
            }
        },
        None => {},
    }
}

/// The state of the candidate under `id`, if it is registered.
pub open spec fn candidate_state_in(state: MemoryState, id: Seq<char>) -> Option<CandidateState> {
    if keyed(state.candidates@).contains_key(id) {
        Some(keyed(state.candidates@)[id].state)
    } else {
        None
    }
}

pub fn candidate_state_of(state: &MemoryState, id: &CandidateId) -> (r: Option<CandidateState>)
    requires
        state.wf(),
    ensures
        r == candidate_state_in(*state, id.0@),
{
    match find_text(&state.candidates, &id.0) {
        Some(i) => {
            proof {
                lemma_keyed_at(state.candidates@, i as int);
            }
            Some(state.candidates[i].state)
        },
        None => None,
    }
}

/// Records an accepted candidate transition, once its event was stored: the
/// candidate moves to `to`, decided by `by`; a promotion raises the owner's
/// attribute it proposes, a downgrade or decay takes it back out.
pub fn apply_candidate_transition(
    state: &mut MemoryState,
    id: &CandidateId,
    to: CandidateState,
    by: Actor,
)
    requires
        old(state).wf(),
    ensures
        final(state).wf(),
        keeps(*old(state), *final(state), true, true, false, true, true, false, true, true),
        keyed(old(state).candidates@).contains_key(id.0@) ==> {
            &&& keyed(final(state).candidates@) == keyed(old(state).candidates@).insert(
                id.0@,
                CandidateRecord {
                    state: to,
                    decided_by: Some(by),
                    ..keyed(old(state).candidates@)[id.0@]
                },
            )
            &&& to == CandidateState::Promoted ==> attribute_promoted(*old(state), *final(state), id.0@)
            &&& (to == CandidateState::Downgraded || to == CandidateState::Decayed)
                ==> attribute_demoted(*old(state), *final(state), id.0@)
            &&& !(to == CandidateState::Promoted || to == CandidateState::Downgraded || to
                == CandidateState::Decayed) ==> final(state).stable_user_attributes@ == old(
                state,
            ).stable_user_attributes@
        },
        !keyed(old(state).candidates@).contains_key(id.0@) ==> final(state).candidates@ == old(
            state,
        ).candidates@ && final(state).stable_user_attributes@ == old(state).stable_user_attributes@,
{
    let ghost before = state.candidates@;
    match find_text(&state.candidates, &id.0) {
        Some(i) => {
            proof {
                lemma_keyed_at(before, i as int);
            }
            let mut rec = state.candidates.remove(i);
            rec.state = to;
            rec.decided_by = Some(by);
            state.candidates.insert(i, rec);
            proof {
                lemma_reinsert(before, i as int, rec);
                lemma_keyed_update(before, i as int, rec);
            }
            match to {
                CandidateState::Promoted => promote_attribute(state, id),
                CandidateState::Downgraded | CandidateState::Decayed => demote_attribute(state, id),
                _ => {},
            }
        },
        None => {},
    }
}

/// The stable attribute of the owner under `attribute` in `scope`, if any.
pub fn user_attribute<'a>(
    state: &'a MemoryState,
    attribute: &UserAttributeRef,
    scope: &Scope,
) -> (r: Option<&'a UserModelAttribute>)
    requires
        state.wf(),
    ensures
        match r {
            Some(a) => attributes_keyed(state.stable_user_attributes@).contains_key(
                (attribute.0@, scope.0@),
            ) && *a == attributes_keyed(state.stable_user_attributes@)[(attribute.0@, scope.0@)],
            None => !attributes_keyed(state.stable_user_attributes@).contains_key(
                (attribute.0@, scope.0@),
            ),
        },
{
    let v = &state.stable_user_attributes;
    let ghost k = (attribute.0@, scope.0@);
    let mut i: usize = 0;
    while i < v.len()
        invariant
            i <= v@.len(),
            k == (attribute.0@, scope.0@),
            v@ == state.stable_user_attributes@,
            distinct_attribute_keys(v@),
            forall|j: int| 0 <= j < i ==> attribute_key(#[trigger] v@[j]) != k,
        decreases v@.len() - i,
    {
        if same_text(&v[i].attribute.0, &attribute.0) && same_text(&v[i].scope.0, &scope.0) {
            proof {
                lemma_attribute_at(v@, i as int);
            }
            return Some(&v[i]);
        }
        i = i + 1;
    }
    None
}

/// The capability update proposed with a candidate, if any.
pub fn capability_update_proposal<'a>(state: &'a MemoryState, candidate: &CandidateId) -> (r: Option<
    &'a CapabilityUpdateProposal,
>)
    requires
        state.wf(),
    ensures
        match r {
            Some(p) => keyed(state.capability_updates@).contains_key(candidate.0@) && *p == keyed(
                state.capability_updates@,
            )[candidate.0@].proposal,
            None => !keyed(state.capability_updates@).contains_key(candidate.0@),
        },
{
    match find_text(&state.capability_updates, &candidate.0) {
        Some(i) => {
            proof {
                lemma_keyed_at(state.capability_updates@, i as int);
            }
            Some(&state.capability_updates[i].proposal)
        },
        None => None,
    }
}

/// The state an owner's review of a capability update moves its candidate to:
/// promoted or rejected; other decisions do not apply to capability updates.
pub open spec fn review_target(decision: CandidateReviewDecision) -> Option<CandidateState> {
    match decision {
        CandidateReviewDecision::Promote => Some(CandidateState::Promoted),
        CandidateReviewDecision::Reject => Some(CandidateState::Rejected),
        _ => None,
    }
}

/// When an owner's review of a capability update is refused: not bound to a
/// named owner at a real time, no proposal under the candidate, a decision
/// other than promote or reject, or a candidate move the lifecycle refuses.
pub open spec fn review_refused(
    state: MemoryState,
    candidate: Seq<char>,
    decision: CandidateReviewDecision,
    owner: Seq<char>,
    reviewed_at: Timestamp,
) -> bool {
    ||| is_blank(owner)
    ||| reviewed_at <= 0
    ||| !keyed(state.capability_updates@).contains_key(candidate)
    ||| review_target(decision) is None
    ||| transition_refused(candidate_state_in(state, candidate), review_target(decision)->0, Actor::Owner)
}

/// Decides an owner's review of a proposed capability update: the candidate
/// transition to record (none when it is already there), and whether a
/// narrow grant is owed, which it is exactly on promotion.
pub fn plan_capability_review(
    state: &MemoryState,
    candidate: &CandidateId,
    decision: CandidateReviewDecision,
    owner: &VerifiedPrincipal,
    reviewed_at: Timestamp,
) -> (r: Result<(Option<CandidateDecision>, bool), Error>)
    requires
        state.wf(),
    ensures
        r is Err <==> review_refused(*state, candidate.0@, decision, owner.0@, reviewed_at),
        r matches Ok((d, grant)) ==> {
            &&& grant == (decision == CandidateReviewDecision::Promote)
            &&& d is None ==> candidate_state_in(*state, candidate.0@) == review_target(decision)
            &&& d matches Some(x) ==> x.kind == crate::memory::transition_kind(review_target(decision)->0)
                && x.by == crate::primitives::DecisionActor::User
        },
{
    if blank(owner.0.as_str()) || reviewed_at <= 0 {
        return Err(Error("capability update review is not owner-bound".to_string()));
    }
    if capability_update_proposal(state, candidate).is_none() {
        return Err(Error("capability update proposal is not registered".to_string()));
    }
    let to = match decision {
        CandidateReviewDecision::Promote => CandidateState::Promoted,
        CandidateReviewDecision::Reject => CandidateState::Rejected,
        _ => {
            return Err(Error("capability update review only supports promote or reject".to_string()));
        },
    };
    let current = candidate_state_of(state, candidate);
    let planned = plan_candidate_transition(current, to, &Actor::Owner)?;
    let grant = match decision {
        CandidateReviewDecision::Promote => true,
        _ => false,
    };
    Ok((planned, grant))
}

/// The narrow grant an owner's promotion of a capability update gives.
pub fn narrow_grant(
    proposal: CapabilityUpdateProposal,
    owner: VerifiedPrincipal,
    reviewed_at: Timestamp,
) -> (r: NarrowCapabilityGrant)
    ensures
        r.schema_version == SchemaVersion(1),
        r.proposal == proposal.reference,
        r.envelope == proposal.requested_envelope,
        r.approved_by == owner,
        r.approved_at == reviewed_at,
        r.evidence_refs == proposal.evidence_refs,
{
    NarrowCapabilityGrant {
        schema_version: SchemaVersion(1),
        proposal: proposal.reference,
        envelope: proposal.requested_envelope,
        approved_by: owner,
        approved_at: reviewed_at,
        evidence_refs: proposal.evidence_refs,
    }
}

/// A reference to a memory node, as a search returns it.
#[derive(Debug, Clone, PartialEq, Eq)]
pub struct MemoryRef {
    pub schema_version: SchemaVersion,
    pub node: NodeId,
    pub content_ref: ContentRef,
    pub tier: StabilityTier,
    pub scope: MemoryScope,
    pub recency: Timestamp,
}

/// A node a scoped search found, with where it came from.
#[derive(Debug, Clone, PartialEq, Eq)]
pub struct ScopedMemoryHit {
    pub schema_version: SchemaVersion,
    pub reference: MemoryRef,
    pub provenance: Provenance,
}

/// The two memory scopes are equal, strings by their text.
pub open spec fn same_memory_scope(a: MemoryScope, b: MemoryScope) -> bool {
    &&& a.schema_version == b.schema_version
    &&& a.slice == b.slice
    &&& a.scope.0@ == b.scope.0@
    &&& match (a.workspace, b.workspace) {
        (Some(x), Some(y)) => x.0@ == y.0@,
        (None, None) => true,
        _ => false,
    }
}

fn equal_memory_scope(a: &MemoryScope, b: &MemoryScope) -> (r: bool)
    ensures
        r == same_memory_scope(*a, *b),
{
    let workspaces = match (&a.workspace, &b.workspace) {
        (Some(x), Some(y)) => same_text(&x.0, &y.0),
        (None, None) => true,
        _ => false,
    };
    a.schema_version.0 == b.schema_version.0 && a.slice == b.slice && same_text(
        &a.scope.0,
        &b.scope.0,
    ) && workspaces
}

fn copy_scope(m: &MemoryScope) -> (r: MemoryScope)
    ensures
        r == *m,
{
    MemoryScope {
        schema_version: m.schema_version,
        slice: m.slice,
        workspace: match &m.workspace {
            Some(w) => Some(w.duplicate()),
            None => None,
        },
        scope: m.scope.duplicate(),
    }
}

/// A node a search in `scope` for `query` finds: in exactly that scope, and
/// its content naming the query, or any content for an empty query.
pub open spec fn node_matches(n: MemoryNode, scope: MemoryScope, query: Seq<char>) -> bool {
    same_memory_scope(n.scope, scope) && (query.len() == 0 || contains_text(n.content_ref.0@, query))
}

/// The reference a search gives for a node.
pub open spec fn reference_to(n: MemoryNode) -> MemoryRef {
    MemoryRef {
        schema_version: SchemaVersion(1),
        node: n.id,
        content_ref: n.content_ref,
        tier: n.tier,
        scope: n.scope,
        recency: n.recency,
    }
}

/// The hit a scoped search gives for a node.
pub open spec fn hit_for(n: MemoryNode) -> ScopedMemoryHit {
    ScopedMemoryHit { schema_version: SchemaVersion(1), reference: reference_to(n), provenance: n.provenance }
}

/// The nodes of `s` that a search in `scope` for `query` finds, in order.
pub open spec fn matching_nodes(s: Seq<MemoryNode>, scope: MemoryScope, query: Seq<char>) -> Seq<
    MemoryNode,
>
    decreases s.len(),
{
    if s.len() == 0 {
        Seq::empty()
    } else {
        matching_nodes(s.drop_last(), scope, query) + if node_matches(s.last(), scope, query) {
            seq![s.last()]
        } else {
            Seq::empty()
        }
    }
}

/// A result that carries the time it was last seen.
pub trait Recent {
    spec fn seen_at(&self) -> Timestamp;

    fn recency_of(&self) -> (r: Timestamp)
        ensures
            r == self.seen_at(),
    ;
}

impl Recent for MemoryRef {
    open spec fn seen_at(&self) -> Timestamp {
        self.recency
    }

    fn recency_of(&self) -> (r: Timestamp) {
        self.recency
    }
}

impl Recent for ScopedMemoryHit {
    open spec fn seen_at(&self) -> Timestamp {
        self.reference.recency
    }

    fn recency_of(&self) -> (r: Timestamp) {
        self.reference.recency
    }
}

/// `x` put into a newest-first list after every entry at least as recent.
pub open spec fn place_by_recency<T: Recent>(s: Seq<T>, x: T) -> Seq<T>
    decreases s.len(),
{
    if s.len() == 0 {
        seq![x]
    } else if s[0].seen_at() >= x.seen_at() {
        seq![s[0]] + place_by_recency(s.drop_first(), x)
    } else {
        seq![x] + s
    }
}

/// `s` ordered newest first; entries equally recent keep their order.
pub open spec fn newest_first<T: Recent>(s: Seq<T>) -> Seq<T>
    decreases s.len(),
{
    if s.len() == 0 {
        Seq::empty()
    } else {
        place_by_recency(newest_first(s.drop_last()), s.last())
    }
}

proof fn lemma_place_at<T: Recent>(s: Seq<T>, x: T, p: int)
    requires
        0 <= p <= s.len(),
        forall|k: int| 0 <= k < p ==> (#[trigger] s[k]).seen_at() >= x.seen_at(),
        p < s.len() ==> s[p].seen_at() < x.seen_at(),
    ensures
        place_by_recency(s, x) == s.insert(p, x),
    decreases p,
{
    if p == 0 {
        assert(seq![x] + s =~= s.insert(0, x));
    } else {
        let rest = s.drop_first();
        assert forall|k: int| 0 <= k < p - 1 implies (#[trigger] rest[k]).seen_at() >= x.seen_at() by {
            assert(rest[k] == s[k + 1]);
        }
        if p - 1 < rest.len() {
            assert(rest[p - 1] == s[p]);
        }
        lemma_place_at(rest, x, p - 1);
        assert(seq![s[0]] + rest.insert(p - 1, x) =~= s.insert(p, x));
    }
}

/// Each entry is at least as recent as every later one.
pub open spec fn is_newest_first<T: Recent>(s: Seq<T>) -> bool {
    forall|i: int, j: int| 0 <= i < j < s.len() ==> #[trigger] s[i].seen_at() >= #[trigger] s[j].seen_at()
}

proof fn lemma_place_keeps_order<T: Recent>(s: Seq<T>, x: T)
    requires
        is_newest_first(s),
    ensures
        is_newest_first(place_by_recency(s, x)),
        place_by_recency(s, x).len() == s.len() + 1,
        forall|k: int| 0 <= k < place_by_recency(s, x).len() ==> #[trigger] place_by_recency(s, x)[k] == x
            || s.contains(place_by_recency(s, x)[k]),
    decreases s.len(),
{
    if s.len() > 0 {
        let rest = s.drop_first();
        if s[0].seen_at() >= x.seen_at() {
            assert(is_newest_first(rest)) by {
                assert forall|i: int, j: int| 0 <= i < j < rest.len() implies #[trigger] rest[i].seen_at()
                    >= #[trigger] rest[j].seen_at() by {
                    assert(rest[i] == s[i + 1] && rest[j] == s[j + 1]);
                }
            }
            lemma_place_keeps_order(rest, x);
            let pr = place_by_recency(rest, x);
            let r = seq![s[0]] + pr;
            assert forall|k: int| 0 <= k < pr.len() implies #[trigger] pr[k] == x || s.contains(pr[k]) by {
                if pr[k] != x {
                    let m = choose|m: int| 0 <= m < rest.len() && rest[m] == pr[k];
                    assert(s[m + 1] == pr[k]);
                }
            }
            assert forall|i: int, j: int| 0 <= i < j < r.len() implies #[trigger] r[i].seen_at()
                >= #[trigger] r[j].seen_at() by {
                if i == 0 {
                    assert(r[j] == pr[j - 1]);
                    if pr[j - 1] != x {
                        let m = choose|m: int| 0 <= m < rest.len() && rest[m] == pr[j - 1];
                        assert(s[m + 1] == pr[j - 1]);
                    }
                } else {
                    assert(r[i] == pr[i - 1] && r[j] == pr[j - 1]);
                }
            }
            assert forall|k: int| 0 <= k < r.len() implies #[trigger] r[k] == x || s.contains(r[k]) by {
                if k == 0 {
                    assert(s[0] == r[0]);
                } else {
                    assert(r[k] == pr[k - 1]);
                }
            }
        } else {
            let r = seq![x] + s;
            assert forall|i: int, j: int| 0 <= i < j < r.len() implies #[trigger] r[i].seen_at()
                >= #[trigger] r[j].seen_at() by {
                if i == 0 {
                    assert(r[j] == s[j - 1]);
                    if j - 1 > 0 {
                        assert(s[0].seen_at() >= s[j - 1].seen_at());
                    }
                } else {
                    assert(r[i] == s[i - 1] && r[j] == s[j - 1]);
                }
            }
            assert forall|k: int| 0 <= k < r.len() implies #[trigger] r[k] == x || s.contains(r[k]) by {
                if k > 0 {
                    assert(r[k] == s[k - 1]);
                }
            }
        }
    }
}

/// Search results come newest first, however the matching nodes were listed.
pub proof fn lemma_newest_first_is_ordered<T: Recent>(s: Seq<T>)
    ensures
        is_newest_first(newest_first(s)),
        newest_first(s).len() == s.len(),
    decreases s.len(),
{
    if s.len() > 0 {
        lemma_newest_first_is_ordered(s.drop_last());
        lemma_place_keeps_order(newest_first(s.drop_last()), s.last());
    }
}

fn place_newest_first<T: Recent>(v: &mut Vec<T>, x: T)
    ensures
        final(v)@ == place_by_recency(old(v)@, x),
{
    let t = x.recency_of();
    let mut p: usize = 0;
    while p < v.len() && v[p].recency_of() >= t
        invariant
            p <= v@.len(),
            v@ == old(v)@,
            t == x.seen_at(),
            forall|k: int| 0 <= k < p ==> (#[trigger] v@[k]).seen_at() >= t,
        decreases v@.len() - p,
    {
        p = p + 1;
    }
    proof {
        lemma_place_at(v@, x, p as int);
    }
    v.insert(p, x);
}

/// What a search in `scope` for `query` over memory gives: the matching
/// nodes as `f` presents them, newest first, at most `limit` of them.
pub open spec fn search_result<T: Recent>(
    nodes: Seq<MemoryNode>,
    scope: MemoryScope,
    query: Seq<char>,
    limit: nat,
    f: spec_fn(MemoryNode) -> T,
) -> Seq<T> {
    let found = newest_first(matching_nodes(nodes, scope, query).map_values(f));
    if found.len() <= limit {
        found
    } else {
        found.subrange(0, limit as int)
    }
}

/// When a scoped search is refused: it is incomplete, or its target lies
/// outside what its requester may see.
pub open spec fn scoped_query_refused(query: ScopedMemoryQuery) -> bool {
    ||| query.schema_version.0 == 0
    ||| query.requester.schema_version.0 == 0
    ||| query.target.schema_version.0 == 0
    ||| query.limit == 0
    ||| is_blank(query.requester.scope.0@)
    ||| is_blank(query.target.scope.0@)
    ||| !memory_scope_covers(query.requester, query.target)
}

/// Searches the target scope of a query on behalf of its requester: the
/// nodes in exactly that scope whose content names the query, newest first,
/// at most the query's limit and never more than 32.
pub fn search_scoped(state: &MemoryState, query: &ScopedMemoryQuery) -> (r: Result<
    Vec<ScopedMemoryHit>,
    Error,
>)
    ensures
        r is Err <==> scoped_query_refused(*query),
        r matches Ok(hits) ==> hits@ == search_result(
            state.nodes@,
            query.target,
            query.query@,
            if query.limit < 32 {
                query.limit as nat
            } else {
                32
            },
            |n: MemoryNode| hit_for(n),
        ),
{
    if query.schema_version.0 == 0 || query.requester.schema_version.0 == 0
        || query.target.schema_version.0 == 0 || query.limit == 0 || blank(
        query.requester.scope.0.as_str(),
    ) || blank(query.target.scope.0.as_str()) {
        return Err(Error("scoped memory query is incomplete".to_string()));
    }
    if !memory_scope_contains(&query.requester, &query.target) {
        return Err(Error("scoped memory query cannot cross its requester boundary".to_string()));
    }
    let ghost f = |n: MemoryNode| hit_for(n);
    let nodes = &state.nodes;
    let mut hits: Vec<ScopedMemoryHit> = Vec::new();
    let mut i: usize = 0;
    while i < nodes.len()
        invariant
            i <= nodes@.len(),
            f == (|n: MemoryNode| hit_for(n)),
            hits@ == newest_first(
                matching_nodes(nodes@.take(i as int), query.target, query.query@).map_values(f),
            ),
        decreases nodes@.len() - i,
    {
        let n = &nodes[i];
        let ghost before = matching_nodes(nodes@.take(i as int), query.target, query.query@);
        proof {
            assert(nodes@.take(i + 1).drop_last() =~= nodes@.take(i as int));
            assert(nodes@.take(i + 1).last() == nodes@[i as int]);
        }
        let query_empty = query.query.unicode_len() == 0;
        if equal_memory_scope(&n.scope, &query.target) && (query_empty || text_contains(
            n.content_ref.0.as_str(),
            query.query.as_str(),
        )) {
            let hit = ScopedMemoryHit {
                schema_version: SchemaVersion(1),
                reference: MemoryRef {
                    schema_version: SchemaVersion(1),
                    node: n.id.duplicate(),
                    content_ref: n.content_ref.duplicate(),
                    tier: n.tier,
                    scope: copy_scope(&n.scope),
                    recency: n.recency,
                },
                provenance: n.provenance.duplicate(),
            };
            place_newest_first(&mut hits, hit);
            proof {
                let after = matching_nodes(nodes@.take(i + 1), query.target, query.query@);
                assert(after == before.push(nodes@[i as int]));
                assert(after.map_values(f) =~= before.map_values(f).push(hit));
                assert(after.map_values(f).drop_last() =~= before.map_values(f));
            }
        } else {
            proof {
                let after = matching_nodes(nodes@.take(i + 1), query.target, query.query@);
                assert(after =~= before);
            }
        }
        i = i + 1;
    }
    proof {
        assert(nodes@.take(nodes@.len() as int) =~= nodes@);
    }
    let cap: usize = if query.limit < 32 {
        query.limit
    } else {
        32
    };
    hits.truncate(cap);
    Ok(hits)
}

/// Recalls what memory holds in the cue's scope for its query: at most `k`
/// references, newest first; nothing for an unversioned cue or `k` of zero.
pub fn recall(state: &MemoryState, cue: &RecallCue, k: usize) -> (r: Vec<MemoryRef>)
    ensures
        (cue.schema_version.0 == 0 || k == 0) ==> r@.len() == 0,
        !(cue.schema_version.0 == 0 || k == 0) ==> r@ == search_result(
            state.nodes@,
            cue.scope,
            cue.query@,
            k as nat,
            |n: MemoryNode| reference_to(n),
        ),
{
    let mut found: Vec<MemoryRef> = Vec::new();
    if cue.schema_version.0 == 0 || k == 0 {
        return found;
    }
    let ghost f = |n: MemoryNode| reference_to(n);
    let nodes = &state.nodes;
    let mut i: usize = 0;
    while i < nodes.len()
        invariant
            i <= nodes@.len(),
            f == (|n: MemoryNode| reference_to(n)),
            found@ == newest_first(
                matching_nodes(nodes@.take(i as int), cue.scope, cue.query@).map_values(f),
            ),
        decreases nodes@.len() - i,
    {
        let n = &nodes[i];
        let ghost before = matching_nodes(nodes@.take(i as int), cue.scope, cue.query@);
        proof {
            assert(nodes@.take(i + 1).drop_last() =~= nodes@.take(i as int));
            assert(nodes@.take(i + 1).last() == nodes@[i as int]);
        }
        let query_empty = cue.query.unicode_len() == 0;
        if equal_memory_scope(&n.scope, &cue.scope) && (query_empty || text_contains(
            n.content_ref.0.as_str(),
            cue.query.as_str(),
        )) {
            let reference = MemoryRef {
                schema_version: SchemaVersion(1),
                node: n.id.duplicate(),
                content_ref: n.content_ref.duplicate(),
                tier: n.tier,
                scope: copy_scope(&n.scope),
                recency: n.recency,
            };
            place_newest_first(&mut found, reference);
            proof {
                let after = matching_nodes(nodes@.take(i + 1), cue.scope, cue.query@);
                assert(after == before.push(nodes@[i as int]));
                assert(after.map_values(f) =~= before.map_values(f).push(reference));
                assert(after.map_values(f).drop_last() =~= before.map_values(f));
            }
        } else {
            proof {
                let after = matching_nodes(nodes@.take(i + 1), cue.scope, cue.query@);
                assert(after =~= before);
            }
        }
        i = i + 1;
    }
    proof {
        assert(nodes@.take(nodes@.len() as int) =~= nodes@);
    }
    found.truncate(k);
    found
}

/// While the lease a claim took still holds, the intention is not claimed
/// again: a later pass before the lease ends expires or skips it.
pub proof fn lemma_lease_blocks_reclaim(
    r: IntentionRecord,
    until: Timestamp,
    event: EventId,
    schedule_filter: Option<bool>,
    now: Timestamp,
    lease_ms: i64,
)
    requires
        now < until,
    ensures
        ({
            let c = claimed_record(r, ClaimStep::Claim(until), event);
            claim_step_for(c.intention, c.lease_until, c.schedule is Some, schedule_filter, now, lease_ms)
                !is Claim
        }),
{
}

/// The state of the intention under `id`, if it is registered.
pub open spec fn intention_state_in(state: MemoryState, id: Seq<char>) -> Option<IntentionState> {
    if keyed(state.intentions@).contains_key(id) {
        Some(keyed(state.intentions@)[id].intention.state)
    } else {
        None
    }
}

/// Decides an intention's resolution: refused for an unregistered
/// intention or a move its lifecycle does not allow; otherwise whether an
/// event is to be recorded, which it is unless the intention is already in
/// the outcome's state.
pub fn plan_intention_resolution(
    state: &MemoryState,
    id: &IntentionId,
    outcome: IntentionOutcome,
) -> (r: Result<bool, Error>)
    requires
        state.wf(),
    ensures
        r is Err <==> match intention_state_in(*state, id.0@) {
            None => true,
            Some(s) => s != resolved_state(outcome) && !intention_step(s, resolved_state(outcome)),
        },
        r matches Ok(record) ==> record == (intention_state_in(*state, id.0@) != Some(
            resolved_state(outcome),
        )),
{
    let current = match find_text(&state.intentions, &id.0) {
        Some(i) => {
            proof {
                lemma_keyed_at(state.intentions@, i as int);
            }
            state.intentions[i].intention.state
        },
        None => {
            return Err(Error("intention is not registered".to_string()));
        },
    };
    let target = state_after(outcome);
    if current == target {
        return Ok(false);
    }
    if !valid_intention_transition(current, target) {
        return Err(Error("intention transition is not allowed".to_string()));
    }
    Ok(true)
}

/// The record a resolution leaves: in the outcome's state, free of its
/// lease unless fired, last changed by the resolution's event.
pub open spec fn resolved_record(r: IntentionRecord, outcome: IntentionOutcome, event: EventId) -> IntentionRecord {
    IntentionRecord {
        intention: ProspectiveIntention { state: resolved_state(outcome), ..r.intention },
        lease_until: if resolved_state(outcome) == IntentionState::Fired {
            r.lease_until
        } else {
            None
        },
        claim_generation: event,
        ..r
    }
}

impl MemoryState {
    /// Resolves an intention with `outcome`, recorded by `event`: refused for
    /// an unregistered intention or a move its lifecycle does not allow;
    /// nothing changes when it is already in the outcome's state.
    pub fn resolve(&mut self, id: &IntentionId, outcome: IntentionOutcome, event: &EventId) -> (r:
        Result<(), Error>)
        requires
            old(self).wf(),
        ensures
            final(self).wf(),
            r is Err <==> match intention_state_in(*old(self), id.0@) {
                None => true,
                Some(s) => s != resolved_state(outcome) && !intention_step(s, resolved_state(outcome)),
            },
            keeps(*old(self), *final(self), true, true, true, false, true, true, true, true),
            (r is Err || intention_state_in(*old(self), id.0@) == Some(resolved_state(outcome)))
                ==> final(self).intentions@ == old(self).intentions@,
            (r is Ok && intention_state_in(*old(self), id.0@) != Some(resolved_state(outcome)))
                ==> keyed(final(self).intentions@) == keyed(old(self).intentions@).insert(
                id.0@,
                resolved_record(keyed(old(self).intentions@)[id.0@], outcome, *event),
            ),
    {
        let record = plan_intention_resolution(self, id, outcome)?;
        if record {
            resolve_intention(&mut self.intentions, id, outcome, event.duplicate());
        }
        Ok(())
    }
}

/// Two lists carry the same texts in the same order.
pub open spec fn same_texts<T: Textual>(a: Seq<T>, b: Seq<T>) -> bool {
    a.len() == b.len() && forall|i: int| 0 <= i < a.len() ==> (#[trigger] a[i]).text() == b[i].text()
}

fn equal_texts<T: Textual>(a: &Vec<T>, b: &Vec<T>) -> (r: bool)
    ensures
        r == same_texts(a@, b@),
{
    if a.len() != b.len() {
        return false;
    }
    let mut i: usize = 0;
    while i < a.len()
        invariant
            i <= a@.len(),
            a@.len() == b@.len(),
            forall|j: int| 0 <= j < i ==> (#[trigger] a@[j]).text() == b@[j].text(),
        decreases a@.len() - i,
    {
        if !same_text(a[i].as_text(), b[i].as_text()) {
            return false;
        }
        i = i + 1;
    }
    true
}

fn equal_action_types(a: &Vec<crate::primitives::ActionType>, b: &Vec<crate::primitives::ActionType>) -> (r:
    bool)
    ensures
        r == (a@ == b@),
{
    if a.len() != b.len() {
        return false;
    }
    let mut i: usize = 0;
    while i < a.len()
        invariant
            i <= a@.len(),
            a@.len() == b@.len(),
            forall|j: int| 0 <= j < i ==> a@[j] == b@[j],
        decreases a@.len() - i,
    {
        if a[i] != b[i] {
            return false;
        }
        i = i + 1;
    }
    assert(a@ =~= b@);
    true
}

/// Two envelopes are equal field by field, strings by their text.
pub open spec fn same_envelope(a: AutonomyEnvelope, b: AutonomyEnvelope) -> bool {
    &&& a.schema_version == b.schema_version
    &&& a.scope.0@ == b.scope.0@
    &&& a.capability.schema_version == b.capability.schema_version
    &&& same_texts(a.capability.capabilities@, b.capability.capabilities@)
    &&& same_texts(a.capability.permissions@, b.capability.permissions@)
    &&& a.action_type@ == b.action_type@
    &&& a.risk_limit == b.risk_limit
    &&& a.approval_rule == b.approval_rule
    &&& a.budget.0@ == b.budget.0@
    &&& a.timebox == b.timebox
    &&& a.rollback.schema_version == b.rollback.schema_version
    &&& a.rollback.required == b.rollback.required
    &&& match (a.rollback.boundary, b.rollback.boundary) {
        (Some(x), Some(y)) => x.0@ == y.0@,
        (None, None) => true,
        _ => false,
    }
}

fn equal_envelope(a: &AutonomyEnvelope, b: &AutonomyEnvelope) -> (r: bool)
    ensures
        r == same_envelope(*a, *b),
{
    let boundary = match (&a.rollback.boundary, &b.rollback.boundary) {
        (Some(x), Some(y)) => same_text(&x.0, &y.0),
        (None, None) => true,
        _ => false,
    };
    a.schema_version.0 == b.schema_version.0 && same_text(&a.scope.0, &b.scope.0)
        && a.capability.schema_version.0 == b.capability.schema_version.0 && equal_texts(
        &a.capability.capabilities,
        &b.capability.capabilities,
    ) && equal_texts(&a.capability.permissions, &b.capability.permissions) && equal_action_types(
        &a.action_type,
        &b.action_type,
    ) && a.risk_limit == b.risk_limit && a.approval_rule == b.approval_rule && same_text(
        &a.budget.0,
        &b.budget.0,
    ) && a.timebox.schema_version.0 == b.timebox.schema_version.0 && a.timebox.starts_at
        == b.timebox.starts_at && a.timebox.expires_at == b.timebox.expires_at
        && a.timebox.max_turns == b.timebox.max_turns && a.rollback.schema_version.0
        == b.rollback.schema_version.0 && a.rollback.required == b.rollback.required && boundary
}

/// A schedule binding is the one a command carries, strings by their text.
pub open spec fn binding_for(b: ScheduleBinding, command: ScheduleCommand) -> bool {
    &&& b.schema_version == command.schema_version
    &&& b.session.0@ == command.session.0@
    &&& same_envelope(b.envelope, command.envelope)
    &&& b.budget.0@ == command.budget.0@
}

/// When creating the schedule a command asks for is refused: the command or
/// its intention is invalid, or its identifier is taken by an intention
/// defined otherwise or bound to another schedule.
pub open spec fn schedule_refused(state: MemoryState, command: ScheduleCommand) -> bool {
    let intention = intention_of(command.intention);
    let m = keyed(state.intentions@);
    ||| !command.valid()
    ||| !intention_ok(intention)
    ||| (m.contains_key(intention.id.0@) && !same_schedule(m[intention.id.0@], intention, command))
}

/// A held intention is the one a command would create: the same definition,
/// bound to the command's schedule.
pub open spec fn same_schedule(
    held: IntentionRecord,
    intention: ProspectiveIntention,
    command: ScheduleCommand,
) -> bool {
    &&& same_definition(held.intention, intention)
    &&& match held.schedule {
        Some(b) => binding_for(b, command),
        None => false,
    }
}

/// Decides whether a command's schedule is to be created: refused as
/// `schedule_refused` says; already there, with nothing to record, when an
/// intention of the same definition and binding holds its identifier;
/// otherwise an intention-created event is to be recorded.
pub fn plan_schedule_creation(state: &MemoryState, command: &ScheduleCommand) -> (r: Result<bool, Error>)
    requires
        state.wf(),
    ensures
        r is Err <==> schedule_refused(*state, *command),
        r matches Ok(record) ==> record == !keyed(state.intentions@).contains_key(
            intention_of(command.intention).id.0@,
        ),
{
    command.validate()?;
    let intention = intention_from_protocol(&command.intention);
    validate_intention(&intention)?;
    match find_text(&state.intentions, &intention.id.0) {
        Some(i) => {
            proof {
                lemma_keyed_at(state.intentions@, i as int);
            }
            let existing = &state.intentions[i];
            let same_binding = match &existing.schedule {
                Some(b) => b.schema_version.0 == command.schema_version.0 && same_text(
                    &b.session.0,
                    &command.session.0,
                ) && equal_envelope(&b.envelope, &command.envelope) && same_text(
                    &b.budget.0,
                    &command.budget.0,
                ),
                None => false,
            };
            if same_intention_definition(&existing.intention, &intention) && same_binding {
                Ok(false)
            } else {
                Err(Error("intention id collision".to_string()))
            }
        },
        None => Ok(true),
    }
}

/// As `plan_schedule_creation`, for a schedule serving a goal, which must name its goal frame.
pub fn plan_goal_schedule_creation(
    state: &MemoryState,
    goal_frame: &GoalFrameRef,
    command: &ScheduleCommand,
) -> (r: Result<bool, Error>)
    requires
        state.wf(),
    ensures
        r is Err <==> is_blank(goal_frame.0@) || schedule_refused(*state, *command),
        r matches Ok(record) ==> record == !keyed(state.intentions@).contains_key(
            intention_of(command.intention).id.0@,
        ),
{
    if blank(goal_frame.0.as_str()) {
        return Err(Error("goal schedule has no goal frame".to_string()));
    }
    plan_schedule_creation(state, command)
}

/// Two result records are equal, strings by their text.
pub open spec fn same_result(a: CapabilityResultEvidence, b: CapabilityResultEvidence) -> bool {
    &&& a.schema_version == b.schema_version
    &&& a.evidence_ref.0@ == b.evidence_ref.0@
    &&& a.outcome == b.outcome
    &&& a.observed_at == b.observed_at
    &&& a.owner_feedback == b.owner_feedback
}

/// Two capability gaps are equal, strings by their text.
pub open spec fn same_gap(a: CapabilityGap, b: CapabilityGap) -> bool {
    &&& a.schema_version == b.schema_version
    &&& a.reference.0@ == b.reference.0@
    &&& a.capability.0@ == b.capability.0@
    &&& a.scope.0@ == b.scope.0@
    &&& a.result_evidence@.len() == b.result_evidence@.len()
    &&& forall|i: int|
        0 <= i < a.result_evidence@.len() ==> same_result(
            #[trigger] a.result_evidence@[i],
            b.result_evidence@[i],
        )
    &&& a.self_confidence == b.self_confidence
    &&& a.ceiling == b.ceiling
}

/// Two capability update proposals are equal, strings by their text.
pub open spec fn same_proposal(a: CapabilityUpdateProposal, b: CapabilityUpdateProposal) -> bool {
    &&& a.schema_version == b.schema_version
    &&& a.reference.0@ == b.reference.0@
    &&& a.candidate_id.0@ == b.candidate_id.0@
    &&& same_gap(a.gap, b.gap)
    &&& same_envelope(a.requested_envelope, b.requested_envelope)
    &&& same_texts(a.evidence_refs@, b.evidence_refs@)
}

fn equal_gap(a: &CapabilityGap, b: &CapabilityGap) -> (r: bool)
    ensures
        r == same_gap(*a, *b),
{
    if !(a.schema_version.0 == b.schema_version.0 && same_text(&a.reference.0, &b.reference.0)
        && same_text(&a.capability.0, &b.capability.0) && same_text(&a.scope.0, &b.scope.0)
        && a.self_confidence == b.self_confidence && a.ceiling == b.ceiling
        && a.result_evidence.len() == b.result_evidence.len()) {
        return false;
    }
    let mut i: usize = 0;
    while i < a.result_evidence.len()
        invariant
            i <= a.result_evidence@.len(),
            a.result_evidence@.len() == b.result_evidence@.len(),
            forall|j: int| 0 <= j < i ==> same_result(#[trigger] a.result_evidence@[j], b.result_evidence@[j]),
        decreases a.result_evidence@.len() - i,
    {
        let x = &a.result_evidence[i];
        let y = &b.result_evidence[i];
        if !(x.schema_version.0 == y.schema_version.0 && same_text(&x.evidence_ref.0, &y.evidence_ref.0)
            && x.outcome == y.outcome && x.observed_at == y.observed_at && x.owner_feedback
            == y.owner_feedback) {
            return false;
        }
        i = i + 1;
    }
    true
}

fn equal_proposal(a: &CapabilityUpdateProposal, b: &CapabilityUpdateProposal) -> (r: bool)
    ensures
        r == same_proposal(*a, *b),
{
    a.schema_version.0 == b.schema_version.0 && same_text(&a.reference.0, &b.reference.0) && same_text(
        &a.candidate_id.0,
        &b.candidate_id.0,
    ) && equal_gap(&a.gap, &b.gap) && equal_envelope(&a.requested_envelope, &b.requested_envelope)
        && equal_texts(&a.evidence_refs, &b.evidence_refs)
}

/// The candidate target of a capability update: `capability-update:<capability>:<scope>`.
pub open spec fn capability_update_target(p: CapabilityUpdateProposal) -> Seq<char> {
    "capability-update:"@ + p.gap.capability.0@ + ":"@ + p.gap.scope.0@
}

/// When proposing a capability update is refused: the proposal is invalid,
/// it does not come from a trusted process, it asks for more than a narrow
/// envelope, or its candidate already carries a different proposal.
pub open spec fn proposal_refused(
    state: MemoryState,
    proposal: CapabilityUpdateProposal,
    provenance: Provenance,
) -> bool {
    let m = keyed(state.capability_updates@);
    ||| !proposal.valid()
    ||| !trusted_process(provenance)
    ||| !narrow_update(proposal)
    ||| (m.contains_key(proposal.candidate_id.0@) && !same_proposal(
        m[proposal.candidate_id.0@].proposal,
        proposal,
    ))
}

/// Decides a proposed capability update: refused as `proposal_refused`
/// says; nothing to record when its candidate already carries the same
/// proposal; otherwise the candidate-created payload to record, which
/// carries the proposal, targets the working tier and is as confident as
/// the gap's own confidence (zero when it gives none).
pub fn plan_capability_proposal(
    state: &MemoryState,
    proposal: CapabilityUpdateProposal,
    provenance: Provenance,
) -> (r: Result<Option<MemoryEventPayload>, Error>)
    requires
        state.wf(),
    ensures
        r is Err <==> proposal_refused(*state, proposal, provenance),
        r matches Ok(None) ==> keyed(state.capability_updates@).contains_key(proposal.candidate_id.0@),
        r matches Ok(Some(payload)) ==> {
            &&& !keyed(state.capability_updates@).contains_key(proposal.candidate_id.0@)
            &&& payload matches MemoryEventPayload::CandidateCreated {
                candidate_id,
                target,
                evidence_refs,
                confidence,
                provenance: by,
                target_tier,
                capability_update,
            }
            &&& candidate_id == proposal.candidate_id
            &&& target.0@ == capability_update_target(proposal)
            &&& evidence_refs@ == proposal.evidence_refs@
            &&& confidence == match proposal.gap.self_confidence {
                Some(c) => c,
                None => Confidence(0),
            }
            &&& by == provenance
            &&& target_tier == StabilityTier::Working
            &&& capability_update == Some(proposal)
        },
{
    proposal.validate()?;
    require_trusted_process(&provenance)?;
    validate_narrow_update(&proposal)?;
    match find_text(&state.capability_updates, &proposal.candidate_id.0) {
        Some(i) => {
            proof {
                lemma_keyed_at(state.capability_updates@, i as int);
            }
            if equal_proposal(&state.capability_updates[i].proposal, &proposal) {
                return Ok(None);
            }
            return Err(Error("capability update candidate id collision".to_string()));
        },
        None => {},
    }
    let mut text = "capability-update:".to_string();
    text.append(proposal.gap.capability.0.as_str());
    text.append(":");
    text.append(proposal.gap.scope.0.as_str());
    proof {
        reveal_strlit("capability-update:");
        reveal_strlit(":");
        assert(text@ =~= capability_update_target(proposal));
    }
    let confidence = match proposal.gap.self_confidence {
        Some(c) => c,
        None => Confidence(0),
    };
    let candidate_id = proposal.candidate_id.duplicate();
    let evidence_refs = duplicate_all(&proposal.evidence_refs);
    Ok(
        Some(
            MemoryEventPayload::CandidateCreated {
                candidate_id,
                target: CandidateTargetRef(text),
                evidence_refs,
                confidence,
                provenance,
                target_tier: StabilityTier::Working,
                capability_update: Some(proposal),
            },
        ),
    )
}

} // verus!
