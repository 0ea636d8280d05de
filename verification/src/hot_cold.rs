//! The hot/cold memory projection: every stored event as a memory tier entry,
//! hot or cold by its age, and active, redacted, expired or tombstoned.
use vstd::prelude::*;

use crate::m2_c::{
    AggregateVersion, HotColdMemorySnapshot, MemoryRetentionState, MemoryTemperature,
    MemoryTierEntry,
};
use crate::memory::{
    elapsed_at_least, intrinsically_sensitive, secret_like, secret_ref_like, sensitive_kind,
    window_elapsed, HotColdProjectionPolicy, SelectiveRecall,
};
use crate::primitives::{ContentRef, Error, Scope, SchemaVersion, Timestamp, TrustTier};
use crate::projection::{
    lemma_ascending_same_texts, lemma_store_order_ignores_arrival, lemma_unsequenced_alike,
    lists_versions, own_places,
    raise_version, record_version, store_order, store_ordered, MemoryPayload, StoredEvent,
};
use crate::text::{check_has_text, has_text, Duplicate, Textual};

verus! {

/// The scope an event's payload names, if it names one.
pub open spec fn payload_scope(p: MemoryPayload) -> Option<Scope> {
    match p {
        MemoryPayload::ApprovalRequested { scope } => Some(scope),
        MemoryPayload::ActionPlanned { scope } => Some(scope),
        MemoryPayload::ActionStarted { scope } => Some(scope),
        MemoryPayload::ActionOutputDelta { scope, .. } => Some(scope),
        MemoryPayload::FailureEvidenceRecorded { scope } => Some(scope),
        MemoryPayload::ObservationRecorded { scope } => Some(scope),
        MemoryPayload::CommunicationEventReceived { scope, .. } => Some(scope),
        MemoryPayload::MemoryNodeAppended { scope, .. } => Some(scope),
        MemoryPayload::UserAttributeCandidateCreated { scope } => Some(scope),
        MemoryPayload::GoalFramed { long_term, .. } => match long_term {
            Some(goal) => Some(goal.scope),
            None => None,
        },
        MemoryPayload::CandidateCreated { capability_update, .. } => match capability_update {
            Some(proposal) => Some(proposal.gap.scope),
            None => None,
        },
        MemoryPayload::SessionBound { workspace } => Some(Scope(workspace.0)),
        _ => None,
    }
}

pub fn event_scope(event: &StoredEvent) -> (r: Option<Scope>)
    ensures
        r == payload_scope(event.payload),
{
    match &event.payload {
        MemoryPayload::ApprovalRequested { scope } => Some(scope.duplicate()),
        MemoryPayload::ActionPlanned { scope } => Some(scope.duplicate()),
        MemoryPayload::ActionStarted { scope } => Some(scope.duplicate()),
        MemoryPayload::ActionOutputDelta { scope, .. } => Some(scope.duplicate()),
        MemoryPayload::FailureEvidenceRecorded { scope } => Some(scope.duplicate()),
        MemoryPayload::ObservationRecorded { scope } => Some(scope.duplicate()),
        MemoryPayload::CommunicationEventReceived { scope, .. } => Some(scope.duplicate()),
        MemoryPayload::MemoryNodeAppended { scope, .. } => Some(scope.duplicate()),
        MemoryPayload::UserAttributeCandidateCreated { scope } => Some(scope.duplicate()),
        MemoryPayload::GoalFramed { long_term, .. } => match long_term {
            Some(goal) => Some(goal.scope.duplicate()),
            None => None,
        },
        MemoryPayload::CandidateCreated { capability_update, .. } => match capability_update {
            Some(proposal) => Some(proposal.gap.scope.duplicate()),
            None => None,
        },
        MemoryPayload::SessionBound { workspace } => Some(Scope(workspace.0.clone())),
        _ => None,
    }
}

/// The content an event's payload refers to, if it refers to any.
pub open spec fn payload_content(p: MemoryPayload) -> Option<ContentRef> {
    match p {
        MemoryPayload::ActionOutputDelta { content_ref, .. } => content_ref,
        MemoryPayload::CommunicationEventReceived { content_ref, .. } => content_ref,
        MemoryPayload::MemoryNodeAppended { content_ref, .. } => Some(content_ref),
        MemoryPayload::OrchestrationRouteCreated { checkpoint, .. } => match checkpoint {
            Some(c) => Some(c.artifact),
            None => None,
        },
        _ => None,
    }
}

fn duplicate_content(c: &Option<ContentRef>) -> (r: Option<ContentRef>)
    ensures
        r == *c,
{
    match c {
        Some(x) => Some(x.duplicate()),
        None => None,
    }
}

pub fn event_content_ref(event: &StoredEvent) -> (r: Option<ContentRef>)
    ensures
        r == payload_content(event.payload),
{
    match &event.payload {
        MemoryPayload::ActionOutputDelta { content_ref, .. } => duplicate_content(content_ref),
        MemoryPayload::CommunicationEventReceived { content_ref, .. } => duplicate_content(
            content_ref,
        ),
        MemoryPayload::MemoryNodeAppended { content_ref, .. } => Some(content_ref.duplicate()),
        MemoryPayload::OrchestrationRouteCreated { checkpoint, .. } => match checkpoint {
            Some(c) => Some(c.artifact.duplicate()),
            None => None,
        },
        _ => None,
    }
}

/// The object a retraction or revocation removes from memory.
pub open spec fn tombstone_target(p: MemoryPayload) -> Option<Seq<char>> {
    match p {
        MemoryPayload::RetractionEvent { target_object } => Some(target_object.0@),
        MemoryPayload::RevocationEvent { target_object } => Some(target_object.0@),
        _ => None,
    }
}

fn tombstone_of(event: &StoredEvent) -> (r: Option<String>)
    ensures
        match r {
            Some(t) => tombstone_target(event.payload) == Some(t@),
            None => tombstone_target(event.payload) is None,
        },
{
    match &event.payload {
        MemoryPayload::RetractionEvent { target_object } => Some(target_object.0.clone()),
        MemoryPayload::RevocationEvent { target_object } => Some(target_object.0.clone()),
        _ => None,
    }
}

/// Every object named by a retraction or revocation in `s`.
pub open spec fn tombstones(s: Seq<StoredEvent>) -> Set<Seq<char>> {
    Set::new(
        |t: Seq<char>| exists|i: int| 0 <= i < s.len() && tombstone_target(#[trigger] s[i].payload) == Some(t),
    )
}

/// The objects an event stands for: itself, its content, and what its
/// payload creates.
pub open spec fn object_refs(e: StoredEvent) -> Seq<Seq<char>> {
    let refs = seq![e.event_id.0@];
    let refs = match payload_content(e.payload) {
        Some(c) => refs.push(c.0@),
        None => refs,
    };
    match e.payload {
        MemoryPayload::MemoryNodeAppended { node_id, .. } => refs.push(node_id.0@),
        MemoryPayload::CandidateCreated { candidate_id, target, .. } => refs.push(
            candidate_id.0@,
        ).push(target.0@),
        MemoryPayload::GoalFramed { goal_frame, .. } => refs.push(goal_frame.0@),
        MemoryPayload::ProspectiveIntentionCreated { intention_id, .. } => refs.push(
            intention_id.0@,
        ),
        MemoryPayload::ExternalCommunicationGranted { grant_ref } => refs.push(grant_ref.0@),
        MemoryPayload::PluginContributionRegistered { manifest } => refs.push(manifest.0@),
        _ => refs,
    }
}

fn event_object_refs(event: &StoredEvent) -> (r: Vec<String>)
    ensures
        r@.map_values(|s: String| s@) == object_refs(*event),
{
    let mut refs: Vec<String> = Vec::new();
    refs.push(event.event_id.0.clone());
    match event_content_ref(event) {
        Some(c) => refs.push(c.0),
        None => {},
    }
    match &event.payload {
        MemoryPayload::MemoryNodeAppended { node_id, .. } => refs.push(node_id.0.clone()),
        MemoryPayload::CandidateCreated { candidate_id, target, .. } => {
            refs.push(candidate_id.0.clone());
            refs.push(target.0.clone());
        },
        MemoryPayload::GoalFramed { goal_frame, .. } => refs.push(goal_frame.0.clone()),
        MemoryPayload::ProspectiveIntentionCreated { intention_id, .. } => refs.push(
            intention_id.0.clone(),
        ),
        MemoryPayload::ExternalCommunicationGranted { grant_ref } => refs.push(
            grant_ref.0.clone(),
        ),
        MemoryPayload::PluginContributionRegistered { manifest } => refs.push(
            manifest.0.clone(),
        ),
        _ => {},
    }
    proof {
        assert(refs@.map_values(|s: String| s@) =~= object_refs(*event));
    }
    refs
}

/// Some object the event stands for was retracted or revoked.
pub open spec fn is_tombstoned(e: StoredEvent, tombs: Set<Seq<char>>) -> bool {
    exists|j: int| 0 <= j < object_refs(e).len() && tombs.contains(#[trigger] object_refs(e)[j])
}

/// The event's content must not be handed out: its kind is sensitive, its
/// content looks like a secret, or it is untrusted content that the policy
/// redacts.
pub open spec fn is_redacted(e: StoredEvent, policy: HotColdProjectionPolicy) -> bool {
    ||| sensitive_kind(e.kind)
    ||| (payload_content(e.payload) matches Some(c) && secret_like(c.0@))
    ||| (policy.redact_untrusted_content && e.provenance.trust_tier == TrustTier::Untrusted
        && payload_content(e.payload) is Some)
}

pub open spec fn retention_of(
    e: StoredEvent,
    policy: HotColdProjectionPolicy,
    now: Timestamp,
    tombs: Set<Seq<char>>,
) -> MemoryRetentionState {
    if is_tombstoned(e, tombs) {
        MemoryRetentionState::Tombstoned
    } else if window_elapsed(e.ts_unix_ms, policy.retention_window, now) {
        MemoryRetentionState::Expired
    } else if is_redacted(e, policy) {
        MemoryRetentionState::Redacted
    } else {
        MemoryRetentionState::Active
    }
}

/// The memory tier entry of one event: cold once the hot window has passed,
/// and its content kept only while the entry is active.
pub open spec fn tier_entry(
    e: StoredEvent,
    policy: HotColdProjectionPolicy,
    now: Timestamp,
    tombs: Set<Seq<char>>,
) -> MemoryTierEntry {
    let retention = retention_of(e, policy, now, tombs);
    MemoryTierEntry {
        schema_version: SchemaVersion(1),
        event_id: e.event_id,
        aggregate: e.run_id,
        stream_seq: e.stream_seq,
        scope: payload_scope(e.payload),
        temperature: if window_elapsed(e.ts_unix_ms, policy.hot_window, now) {
            MemoryTemperature::Cold
        } else {
            MemoryTemperature::Hot
        },
        retention,
        content_ref: if retention == MemoryRetentionState::Active {
            payload_content(e.payload)
        } else {
            None
        },
        occurred_at: e.ts_unix_ms,
    }
}

/// The highest sequence number of each aggregate in `s`.
pub open spec fn versions_of(s: Seq<StoredEvent>) -> Map<Seq<char>, u64>
    decreases s.len(),
{
    if s.len() == 0 {
        Map::empty()
    } else {
        raise_version(versions_of(s.drop_last()), s.last().run_id.0@, s.last().stream_seq)
    }
}

/// When a hot/cold rebuild is refused: an invalid policy or clock, no events,
/// or an event the store has not sequenced.
pub open spec fn hot_cold_refused(
    events: Seq<StoredEvent>,
    policy: HotColdProjectionPolicy,
    now: Timestamp,
) -> bool {
    ||| !policy.valid()
    ||| now <= 0
    ||| events.len() == 0
    ||| exists|i: int| 0 <= i < events.len() && #[trigger] events[i].stream_seq == 0
}

/// The snapshot holds one tier entry per event in store order, and the
/// version of each aggregate.
pub open spec fn hot_cold_snapshot(
    snap: HotColdMemorySnapshot,
    events: Seq<StoredEvent>,
    policy: HotColdProjectionPolicy,
    now: Timestamp,
) -> bool {
    let sorted = store_ordered(events);
    &&& snap.schema_version == SchemaVersion(1)
    &&& snap.built_at == now
    &&& snap.entries@ == sorted.map_values(
        |e: StoredEvent| tier_entry(e, policy, now, tombstones(sorted)),
    )
    &&& lists_versions(snap.aggregate_versions@, versions_of(sorted))
}

/// A hot/cold rebuild does not depend on the order in which the events
/// arrive: the same events, each with a place of its own, are refused alike
/// and described by the same snapshots.
pub proof fn lemma_hot_cold_rebuild_ignores_arrival(
    a: Seq<StoredEvent>,
    b: Seq<StoredEvent>,
    policy: HotColdProjectionPolicy,
    now: Timestamp,
    snap: HotColdMemorySnapshot,
)
    requires
        a.to_multiset() == b.to_multiset(),
        own_places(a.to_multiset()),
    ensures
        hot_cold_refused(a, policy, now) == hot_cold_refused(b, policy, now),
        hot_cold_snapshot(snap, a, policy, now) == hot_cold_snapshot(snap, b, policy, now),
{
    lemma_store_order_ignores_arrival(a, b);
    lemma_unsequenced_alike(a, b);
}

/// Two rebuilds of the same events, however they arrived, give the same
/// snapshot: the same entries in the same order, the same build time, and
/// the same version for each aggregate, listed alike.
pub proof fn lemma_hot_cold_rebuilds_agree(
    a: Seq<StoredEvent>,
    b: Seq<StoredEvent>,
    policy: HotColdProjectionPolicy,
    now: Timestamp,
    s1: HotColdMemorySnapshot,
    s2: HotColdMemorySnapshot,
)
    requires
        a.to_multiset() == b.to_multiset(),
        own_places(a.to_multiset()),
        hot_cold_snapshot(s1, a, policy, now),
        hot_cold_snapshot(s2, b, policy, now),
    ensures
        s1.schema_version == s2.schema_version,
        s1.built_at == s2.built_at,
        s1.entries@ == s2.entries@,
        s1.aggregate_versions@.len() == s2.aggregate_versions@.len(),
        forall|i: int|
            0 <= i < s1.aggregate_versions@.len() ==> (#[trigger] s1.aggregate_versions@[i]).text()
                == s2.aggregate_versions@[i].text() && s1.aggregate_versions@[i].value
                == s2.aggregate_versions@[i].value && s1.aggregate_versions@[i].schema_version
                == s2.aggregate_versions@[i].schema_version,
{
    lemma_store_order_ignores_arrival(a, b);
    let m = versions_of(store_ordered(a));
    let v = s1.aggregate_versions@;
    let w = s2.aggregate_versions@;
    assert forall|t: Seq<char>| #[trigger] has_text(v, t) <==> has_text(w, t) by {
        if has_text(v, t) {
            let i = choose|i: int| 0 <= i < v.len() && #[trigger] v[i].text() == t;
            assert(m.contains_key(v[i].text()));
        }
        if has_text(w, t) {
            let i = choose|i: int| 0 <= i < w.len() && #[trigger] w[i].text() == t;
            assert(m.contains_key(w[i].text()));
        }
    }
    lemma_ascending_same_texts(v, w);
    assert forall|i: int| 0 <= i < v.len() implies (#[trigger] v[i]).text() == w[i].text() && v[i].value
        == w[i].value && v[i].schema_version == w[i].schema_version by {
        assert(v[i].text() == w[i].text());
    }
}

/// The projection never hands out content that is sensitive in itself,
/// looks like a secret, or is untrusted content the policy redacts: an entry
/// keeps its content only when none of these holds.
pub proof fn lemma_tier_entry_secret_free(
    e: StoredEvent,
    policy: HotColdProjectionPolicy,
    now: Timestamp,
    tombs: Set<Seq<char>>,
)
    ensures
        tier_entry(e, policy, now, tombs).content_ref matches Some(c) ==> {
            &&& !sensitive_kind(e.kind)
            &&& !secret_like(c.0@)
            &&& !(policy.redact_untrusted_content && e.provenance.trust_tier == TrustTier::Untrusted)
            &&& tier_entry(e, policy, now, tombs).retention == MemoryRetentionState::Active
        },
{
}

/// An entry recall hands out: active, hot unless cold entries are asked for,
/// and in a scope within the one asked for.
pub open spec fn recalled(entry: MemoryTierEntry, query: SelectiveRecall) -> bool {
    &&& entry.retention == MemoryRetentionState::Active
    &&& (query.include_cold || entry.temperature == MemoryTemperature::Hot)
    &&& (entry.scope matches Some(s) && scope_reaches(query.scope.0@, s.0@))
}

/// `requested` is `granted` or lies below it, after a `/` or a `:`.
pub open spec fn scope_reaches(granted: Seq<char>, requested: Seq<char>) -> bool {
    ||| requested == granted
    ||| (granted.len() < requested.len() && requested.take(granted.len() as int) == granted && (
    requested[granted.len() as int] == '/' || requested[granted.len() as int] == ':'))
}

pub fn memory_scope_reaches(granted: &Scope, requested: &Scope) -> (r: bool)
    ensures
        r == scope_reaches(granted.0@, requested.0@),
{
    let g = granted.0.as_str();
    let q = requested.0.as_str();
    let n = g.unicode_len();
    let m = q.unicode_len();
    if n == m {
        let mut i: usize = 0;
        while i < n
            invariant
                n == g@.len(),
                m == q@.len(),
                g@ == granted.0@,
                q@ == requested.0@,
                n == m,
                i <= n,
                forall|j: int| 0 <= j < i ==> q@[j] == g@[j],
            decreases n - i,
        {
            if g.get_char(i) != q.get_char(i) {
                proof {
                    assert(q@[i as int] != g@[i as int]);
                }
                return false;
            }
            i = i + 1;
        }
        proof {
            assert(q@ =~= g@);
        }
        return true;
    }
    if n > m {
        proof {
            assert(q@ != g@);
        }
        return false;
    }
    let mut i: usize = 0;
    while i < n
        invariant
            n == g@.len(),
            m == q@.len(),
            g@ == granted.0@,
            q@ == requested.0@,
            n < m,
            i <= n,
            forall|j: int| 0 <= j < i ==> q@[j] == g@[j],
        decreases n - i,
    {
        if g.get_char(i) != q.get_char(i) {
            proof {
                assert(q@.take(n as int)[i as int] != g@[i as int]);
            }
            return false;
        }
        i = i + 1;
    }
    proof {
        assert(q@.take(n as int) =~= g@);
    }
    let c = q.get_char(n);
    c == '/' || c == ':'
}

/// The entries recall hands out from `s`, in order.
pub open spec fn recalled_entries(s: Seq<MemoryTierEntry>, query: SelectiveRecall) -> Seq<
    MemoryTierEntry,
>
    decreases s.len(),
{
    if s.len() == 0 {
        Seq::empty()
    } else if recalled(s.last(), query) {
        recalled_entries(s.drop_last(), query).push(s.last())
    } else {
        recalled_entries(s.drop_last(), query)
    }
}

/// At most the first `n` entries of `s`.
pub open spec fn at_most(s: Seq<MemoryTierEntry>, n: int) -> Seq<MemoryTierEntry> {
    if s.len() <= n {
        s
    } else {
        s.take(n)
    }
}

/// A snapshot recall can read: versioned, with an aggregate version, and
/// every entry sequenced and dated.
pub open spec fn snapshot_complete(snap: HotColdMemorySnapshot) -> bool {
    &&& snap.schema_version.0 != 0
    &&& snap.aggregate_versions@.len() > 0
    &&& forall|i: int|
        0 <= i < snap.entries@.len() ==> (#[trigger] snap.entries@[i]).schema_version.0 != 0
            && snap.entries@[i].stream_seq != 0 && snap.entries@[i].occurred_at > 0
}

impl Duplicate for MemoryTierEntry {
    fn duplicate(&self) -> (r: Self) {
        MemoryTierEntry {
            schema_version: self.schema_version,
            event_id: self.event_id.duplicate(),
            aggregate: self.aggregate.duplicate(),
            stream_seq: self.stream_seq,
            scope: match &self.scope {
                Some(s) => Some(s.duplicate()),
                None => None,
            },
            temperature: self.temperature,
            retention: self.retention,
            content_ref: duplicate_content(&self.content_ref),
            occurred_at: self.occurred_at,
        }
    }
}

fn recall_matches(entry: &MemoryTierEntry, query: &SelectiveRecall) -> (r: bool)
    ensures
        r == recalled(*entry, *query),
{
    let active = match entry.retention {
        MemoryRetentionState::Active => true,
        _ => false,
    };
    let warm = query.include_cold || match entry.temperature {
        MemoryTemperature::Hot => true,
        MemoryTemperature::Cold => false,
    };
    let within = match &entry.scope {
        Some(s) => memory_scope_reaches(&query.scope, s),
        None => false,
    };
    active && warm && within
}

/// Builds hot/cold memory tiers from stored events and recalls from them.
#[derive(Debug, Clone, Copy, Default)]
pub struct HotColdMemoryProjector;

impl HotColdMemoryProjector {
    /// One tier entry per event in store order, with the version of each
    /// aggregate read.
    pub fn rebuild(
        &self,
        events: &[StoredEvent],
        policy: &HotColdProjectionPolicy,
        now: Timestamp,
    ) -> (r: Result<HotColdMemorySnapshot, Error>)
        ensures
            r is Err <==> hot_cold_refused(events@, *policy, now),
            r matches Ok(snap) ==> hot_cold_snapshot(snap, events@, *policy, now),
    {
        if let Err(err) = policy.validate() {
            return Err(err);
        }
        if now <= 0 || events.len() == 0 {
            return Err(Error("hot/cold projection requires events and a valid clock".to_string()));
        }
        let mut z: usize = 0;
        while z < events.len()
            invariant
                z <= events@.len(),
                forall|i: int| 0 <= i < z ==> #[trigger] events@[i].stream_seq != 0,
            decreases events@.len() - z,
        {
            if events[z].stream_seq == 0 {
                return Err(
                    Error("hot/cold projection only accepts store-sequenced events".to_string()),
                );
            }
            z = z + 1;
        }
        let order = store_order(events);
        let ghost sorted = order@.map_values(|i: usize| events@[i as int]);
        // Everything retracted or revoked.
        let mut tombs: Vec<String> = Vec::new();
        let mut k: usize = 0;
        while k < order.len()
            invariant
                k <= order@.len(),
                order@.len() == events@.len(),
                forall|i: int| 0 <= i < order@.len() ==> #[trigger] order@[i] < events@.len(),
                sorted == order@.map_values(|i: usize| events@[i as int]),
                forall|t: Seq<char>|
                    has_text(tombs@, t) <==> exists|i: int|
                        0 <= i < k && tombstone_target(#[trigger] sorted[i].payload) == Some(t),
            decreases order@.len() - k,
        {
            let e = &events[order[k]];
            proof {
                assert(sorted[k as int] == *e);
            }
            let ghost before = tombs@;
            match tombstone_of(e) {
                Some(t) => {
                    tombs.push(t);
                    proof {
                        assert forall|x: Seq<char>| has_text(tombs@, x) <==> exists|i: int|
                            0 <= i < k + 1 && tombstone_target(#[trigger] sorted[i].payload)
                                == Some(x) by {
                            if has_text(tombs@, x) {
                                let j = choose|j: int| 0 <= j < tombs@.len() && #[trigger] tombs@[j].text() == x;
                                if j < before.len() {
                                    assert(before[j] == tombs@[j]);
                                    assert(has_text(before, x));
                                } else {
                                    assert(tombstone_target(sorted[k as int].payload) == Some(x));
                                }
                            }
                            if exists|i: int|
                                0 <= i < k + 1 && tombstone_target(#[trigger] sorted[i].payload)
                                    == Some(x) {
                                let i = choose|i: int|
                                    0 <= i < k + 1 && tombstone_target(#[trigger] sorted[i].payload)
                                        == Some(x);
                                if i < k {
                                    assert(has_text(before, x));
                                    let j = choose|j: int| 0 <= j < before.len() && #[trigger] before[j].text() == x;
                                    assert(tombs@[j] == before[j]);
                                } else {
                                    assert(tombs@[before.len() as int].text() == x);
                                }
                            }
                        }
                    }
                },
                None => {
                    proof {
                        assert forall|x: Seq<char>| has_text(tombs@, x) <==> exists|i: int|
                            0 <= i < k + 1 && tombstone_target(#[trigger] sorted[i].payload)
                                == Some(x) by {
                            if exists|i: int|
                                0 <= i < k + 1 && tombstone_target(#[trigger] sorted[i].payload)
                                    == Some(x) {
                                let i = choose|i: int|
                                    0 <= i < k + 1 && tombstone_target(#[trigger] sorted[i].payload)
                                        == Some(x);
                                assert(i < k);
                            }
                        }
                    }
                },
            }
            k = k + 1;
        }
        let ghost tset = tombstones(sorted);
        proof {
            assert forall|t: Seq<char>| has_text(tombs@, t) <==> tset.contains(t) by {}
        }
        let mut entries: Vec<MemoryTierEntry> = Vec::new();
        let mut versions: Vec<AggregateVersion> = Vec::new();
        let mut k: usize = 0;
        proof {
            assert(sorted.take(0) =~= Seq::<StoredEvent>::empty());
        }
        while k < order.len()
            invariant
                k <= order@.len(),
                order@.len() == events@.len(),
                forall|i: int| 0 <= i < order@.len() ==> #[trigger] order@[i] < events@.len(),
                sorted == order@.map_values(|i: usize| events@[i as int]),
                tset == tombstones(sorted),
                forall|t: Seq<char>| has_text(tombs@, t) <==> tset.contains(t),
                entries@ == sorted.take(k as int).map_values(
                    |e: StoredEvent| tier_entry(e, *policy, now, tset),
                ),
                lists_versions(versions@, versions_of(sorted.take(k as int))),
            decreases order@.len() - k,
        {
            let e = &events[order[k]];
            proof {
                assert(sorted[k as int] == *e);
                assert(sorted.take(k + 1).drop_last() =~= sorted.take(k as int));
            }
            record_version(&mut versions, &e.run_id, e.stream_seq, Ghost(versions_of(sorted.take(k as int))));
            let refs = event_object_refs(e);
            let mut tombstoned = false;
            let mut j: usize = 0;
            while j < refs.len()
                invariant
                    j <= refs@.len(),
                    refs@.map_values(|s: String| s@) == object_refs(*e),
                    forall|t: Seq<char>| has_text(tombs@, t) <==> tset.contains(t),
                    tombstoned == exists|x: int| 0 <= x < j && tset.contains(#[trigger] object_refs(*e)[x]),
                decreases refs@.len() - j,
            {
                if check_has_text(&tombs, &refs[j]) {
                    tombstoned = true;
                }
                proof {
                    assert(refs@.map_values(|s: String| s@)[j as int] == refs@[j as int]@);
                }
                j = j + 1;
            }
            let mut content_ref = event_content_ref(e);
            let secret = match &content_ref {
                Some(c) => secret_ref_like(c.0.as_str()),
                None => false,
            };
            let untrusted = match e.provenance.trust_tier {
                TrustTier::Untrusted => true,
                _ => false,
            };
            let redacted = intrinsically_sensitive(e.kind) || secret || (
            policy.redact_untrusted_content && untrusted && content_ref.is_some());
            let expired = elapsed_at_least(e.ts_unix_ms, policy.retention_window, now);
            let retention = if tombstoned {
                MemoryRetentionState::Tombstoned
            } else if expired {
                MemoryRetentionState::Expired
            } else if redacted {
                MemoryRetentionState::Redacted
            } else {
                MemoryRetentionState::Active
            };
            let kept = match retention {
                MemoryRetentionState::Active => true,
                _ => false,
            };
            if !kept {
                content_ref = None;
            }
            let temperature = if elapsed_at_least(e.ts_unix_ms, policy.hot_window, now) {
                MemoryTemperature::Cold
            } else {
                MemoryTemperature::Hot
            };
            let entry = MemoryTierEntry {
                schema_version: SchemaVersion(1),
                event_id: e.event_id.duplicate(),
                aggregate: e.run_id.duplicate(),
                stream_seq: e.stream_seq,
                scope: event_scope(e),
                temperature,
                retention,
                content_ref,
                occurred_at: e.ts_unix_ms,
            };
            proof {
                assert(entry == tier_entry(*e, *policy, now, tset));
            }
            entries.push(entry);
            proof {
                assert(entries@ =~= sorted.take(k + 1).map_values(
                    |e: StoredEvent| tier_entry(e, *policy, now, tset),
                ));
            }
            k = k + 1;
        }
        proof {
            assert(sorted.take(k as int) =~= sorted);
        }
        Ok(
            HotColdMemorySnapshot {
                schema_version: SchemaVersion(1),
                aggregate_versions: versions,
                entries,
                built_at: now,
            },
        )
    }

    /// The active entries in the asked scope, hot ones only unless cold ones
    /// are asked for, in snapshot order and at most as many as the limit.
    pub fn recall(&self, snapshot: &HotColdMemorySnapshot, query: &SelectiveRecall) -> (r: Result<
        Vec<MemoryTierEntry>,
        Error,
    >)
        ensures
            r is Err <==> !query.valid() || !snapshot_complete(*snapshot),
            r matches Ok(v) ==> v@ == at_most(
                recalled_entries(snapshot.entries@, *query),
                query.limit as int,
            ),
    {
        if let Err(err) = query.validate() {
            return Err(err);
        }
        if snapshot.schema_version.0 == 0 || snapshot.aggregate_versions.len() == 0 {
            return Err(Error("hot/cold snapshot is incomplete".to_string()));
        }
        let mut i: usize = 0;
        while i < snapshot.entries.len()
            invariant
                i <= snapshot.entries@.len(),
                forall|j: int|
                    0 <= j < i ==> (#[trigger] snapshot.entries@[j]).schema_version.0 != 0
                        && snapshot.entries@[j].stream_seq != 0
                        && snapshot.entries@[j].occurred_at > 0,
            decreases snapshot.entries@.len() - i,
        {
            let entry = &snapshot.entries[i];
            if entry.schema_version.0 == 0 || entry.stream_seq == 0 || entry.occurred_at <= 0 {
                return Err(Error("hot/cold snapshot is incomplete".to_string()));
            }
            i = i + 1;
        }
        let mut out: Vec<MemoryTierEntry> = Vec::new();
        let mut i: usize = 0;
        proof {
            assert(snapshot.entries@.take(0) =~= Seq::<MemoryTierEntry>::empty());
        }
        while i < snapshot.entries.len()
            invariant
                i <= snapshot.entries@.len(),
                out@ == at_most(
                    recalled_entries(snapshot.entries@.take(i as int), *query),
                    query.limit as int,
                ),
            decreases snapshot.entries@.len() - i,
        {
            let entry = &snapshot.entries[i];
            let ghost c = recalled_entries(snapshot.entries@.take(i as int), *query);
            proof {
                let t = snapshot.entries@.take(i + 1);
                assert(t.drop_last() =~= snapshot.entries@.take(i as int));
                assert(t.last() == *entry);
            }
            if recall_matches(entry, query) {
                if out.len() < query.limit {
                    out.push(entry.duplicate());
                    proof {
                        assert(c.len() < query.limit);
                        assert(out@ =~= c.push(*entry));
                    }
                } else {
                    proof {
                        assert(c.push(*entry).take(query.limit as int) =~= c.take(
                            query.limit as int,
                        ));
                    }
                }
            }
            i = i + 1;
        }
        proof {
            assert(snapshot.entries@.take(i as int) =~= snapshot.entries@);
        }
        Ok(out)
    }
}

} // verus!
