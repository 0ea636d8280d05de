//! Rebuilding read models from stored events: store order, and the
//! sorted, duplicate-free collections that projections hand out.
use vstd::multiset::Multiset;
use vstd::prelude::*;

use crate::event::EventKind;
use crate::m2_c::{AggregateVersion, CapabilityUpdateProposal, GoalCheckpoint, LongTermGoal};
use crate::m3_a::{StrategyActivation, StrategyCandidate, StrategyRollback};
use crate::primitives::{
    CandidateId, CandidateTargetRef, ContentRef, EventId, EvidenceRef, EvolutionSnapshotRef,
    ExecutionRouteRef, GoalFrameRef, GrantRef, IntentionId, IntentionOutcome, NodeId, ObjectRef,
    PluginManifestRef, Provenance, RunId, SchemaVersion, Scope, StabilityTier, Timestamp,
    WorkspaceRef,
};
use crate::text::{
    Duplicate, has_text, lemma_text_lt_asymmetric, lemma_text_lt_irreflexive, lemma_text_lt_transitive, lemma_text_trichotomy,
    same_text, text_less, text_lt, Textual,
};

verus! {

/// A stored event's place in the store: its aggregate, its sequence number
/// in that aggregate, and its own identity.
pub trait Sequenced {
    spec fn aggregate_text(&self) -> Seq<char>;

    spec fn sequence(&self) -> u64;

    spec fn identity_text(&self) -> Seq<char>;

    fn aggregate(&self) -> (r: &String)
        ensures
            r@ == self.aggregate_text(),
    ;

    fn sequence_number(&self) -> (r: u64)
        ensures
            r == self.sequence(),
    ;

    fn identity(&self) -> (r: &String)
        ensures
            r@ == self.identity_text(),
    ;
}

/// What the memory projections read of a stored event's payload: the
/// payloads they look into, each with the fields they read, and every other
/// payload as `Other`.
#[derive(Debug, Clone, PartialEq, Eq)]
pub enum MemoryPayload {
    SessionBound { workspace: WorkspaceRef },
    ApprovalRequested { scope: Scope },
    ActionPlanned { scope: Scope },
    ActionStarted { scope: Scope },
    ActionOutputDelta { scope: Scope, content_ref: Option<ContentRef> },
    FailureEvidenceRecorded { scope: Scope },
    ObservationRecorded { scope: Scope },
    CommunicationEventReceived { scope: Scope, content_ref: Option<ContentRef> },
    MemoryNodeAppended { node_id: NodeId, content_ref: ContentRef, scope: Scope },
    UserAttributeCandidateCreated { scope: Scope },
    CandidateCreated {
        candidate_id: CandidateId,
        target: CandidateTargetRef,
        evidence_refs: Vec<EvidenceRef>,
        provenance: Provenance,
        target_tier: StabilityTier,
        capability_update: Option<CapabilityUpdateProposal>,
        strategy_candidate: Option<StrategyCandidate>,
    },
    CandidateConflictDetected { candidate_id: CandidateId, conflict_with: CandidateId },
    CandidatePromoted { candidate_id: CandidateId },
    CandidateRejected { candidate_id: CandidateId },
    CandidateDowngraded { candidate_id: CandidateId },
    CandidateDecayed { candidate_id: CandidateId },
    RetractionEvent { target_object: ObjectRef },
    RevocationEvent { target_object: ObjectRef },
    ReevaluationTaskCreated { derived_refs: Vec<ObjectRef> },
    GoalFramed { goal_frame: GoalFrameRef, long_term: Option<LongTermGoal> },
    ProspectiveIntentionCreated { intention_id: IntentionId, goal_frame: Option<GoalFrameRef> },
    ProspectiveIntentionResolved { intention_id: IntentionId, outcome: IntentionOutcome },
    OrchestrationRouteCreated {
        route: ExecutionRouteRef,
        goal_frame: Option<GoalFrameRef>,
        checkpoint: Option<GoalCheckpoint>,
    },
    ExternalCommunicationGranted { grant_ref: GrantRef },
    PluginContributionRegistered { manifest: PluginManifestRef },
    StrategyActivated { activation: StrategyActivation, active_snapshot: EvolutionSnapshotRef },
    StrategyRolledBack { rollback: StrategyRollback, active_snapshot: EvolutionSnapshotRef },
    Other,
}

/// A stored event as the memory projections see it.
#[derive(Debug, Clone, PartialEq, Eq)]
pub struct StoredEvent {
    pub event_id: EventId,
    pub run_id: RunId,
    pub stream_seq: u64,
    pub kind: EventKind,
    pub ts_unix_ms: Timestamp,
    pub provenance: Provenance,
    pub payload: MemoryPayload,
}

impl Sequenced for StoredEvent {
    open spec fn aggregate_text(&self) -> Seq<char> {
        self.run_id.0@
    }

    open spec fn sequence(&self) -> u64 {
        self.stream_seq
    }

    open spec fn identity_text(&self) -> Seq<char> {
        self.event_id.0@
    }

    fn aggregate(&self) -> (r: &String) {
        &self.run_id.0
    }

    fn sequence_number(&self) -> (r: u64) {
        self.stream_seq
    }

    fn identity(&self) -> (r: &String) {
        &self.event_id.0
    }
}

/// `a` is stored before `b`: by aggregate, then by sequence number, then by
/// identity.
pub open spec fn stored_before<T: Sequenced>(a: T, b: T) -> bool {
    ||| text_lt(a.aggregate_text(), b.aggregate_text())
    ||| (a.aggregate_text() == b.aggregate_text() && a.sequence() < b.sequence())
    ||| (a.aggregate_text() == b.aggregate_text() && a.sequence() == b.sequence() && text_lt(
        a.identity_text(),
        b.identity_text(),
    ))
}

/// `e` put into the store-ordered `s` after every entry that is not stored
/// after it.
pub open spec fn placed<T: Sequenced>(s: Seq<T>, e: T) -> Seq<T>
    decreases s.len(),
{
    if s.len() == 0 {
        seq![e]
    } else if stored_before(e, s.last()) {
        placed(s.drop_last(), e).push(s.last())
    } else {
        s.push(e)
    }
}

/// The events in store order; events with the same place keep the order in
/// which they were given.
pub open spec fn store_ordered<T: Sequenced>(s: Seq<T>) -> Seq<T>
    decreases s.len(),
{
    if s.len() == 0 {
        s
    } else {
        placed(store_ordered(s.drop_last()), s.last())
    }
}

/// Each event is stored no later than the next one.
pub open spec fn in_store_order<T: Sequenced>(s: Seq<T>) -> bool {
    forall|i: int| 0 <= i < s.len() - 1 ==> !stored_before(#[trigger] s[i + 1], s[i])
}

pub fn is_stored_before<T: Sequenced>(a: &T, b: &T) -> (r: bool)
    ensures
        r == stored_before(*a, *b),
{
    if text_less(a.aggregate(), b.aggregate()) {
        return true;
    }
    if !same_text(a.aggregate(), b.aggregate()) {
        return false;
    }
    let x = a.sequence_number();
    let y = b.sequence_number();
    if x != y {
        return x < y;
    }
    text_less(a.identity(), b.identity())
}

/// Stored-before is transitive.
pub proof fn lemma_stored_before_transitive<T: Sequenced>(a: T, b: T, c: T)
    requires
        stored_before(a, b),
        stored_before(b, c),
    ensures
        stored_before(a, c),
{
    lemma_text_trichotomy(a.aggregate_text(), b.aggregate_text());
    lemma_text_trichotomy(b.aggregate_text(), c.aggregate_text());
    lemma_text_lt_irreflexive(a.aggregate_text());
    lemma_text_lt_irreflexive(b.aggregate_text());
    if text_lt(a.aggregate_text(), b.aggregate_text()) && text_lt(
        b.aggregate_text(),
        c.aggregate_text(),
    ) {
        lemma_text_lt_transitive(a.aggregate_text(), b.aggregate_text(), c.aggregate_text());
    }
    if text_lt(a.identity_text(), b.identity_text()) && text_lt(
        b.identity_text(),
        c.identity_text(),
    ) {
        lemma_text_lt_transitive(a.identity_text(), b.identity_text(), c.identity_text());
    }
}

/// Of two events, one is stored before the other or they share one place.
pub proof fn lemma_stored_before_total<T: Sequenced>(a: T, b: T)
    ensures
        stored_before(a, b) || stored_before(b, a) || (a.aggregate_text() == b.aggregate_text()
            && a.sequence() == b.sequence() && a.identity_text() == b.identity_text()),
{
    lemma_text_trichotomy(a.aggregate_text(), b.aggregate_text());
    lemma_text_trichotomy(a.identity_text(), b.identity_text());
}

proof fn lemma_placed_in_order<T: Sequenced>(s: Seq<T>, e: T)
    requires
        in_store_order(s),
    ensures
        in_store_order(placed(s, e)),
        placed(s, e).len() == s.len() + 1,
        placed(s, e).to_multiset() == s.to_multiset().insert(e),
        forall|i: int|
            0 <= i < placed(s, e).len() ==> (#[trigger] placed(s, e)[i] == e || s.contains(
                placed(s, e)[i],
            )),
    decreases s.len(),
{
    broadcast use vstd::seq_lib::group_to_multiset_ensures;

    if s.len() == 0 {
        assert(placed(s, e) =~= seq![e]);
        assert(s =~= Seq::<T>::empty());
    } else if stored_before(e, s.last()) {
        let t = s.drop_last();
        assert(in_store_order(t)) by {
            assert forall|i: int| 0 <= i < t.len() - 1 implies !stored_before(
                #[trigger] t[i + 1],
                t[i],
            ) by {
                assert(t[i] == s[i] && t[i + 1] == s[i + 1]);
            }
        }
        lemma_placed_in_order(t, e);
        let p = placed(t, e);
        assert(s =~= t.push(s.last()));
        assert(placed(s, e) == p.push(s.last()));
        assert forall|i: int| 0 <= i < p.push(s.last()).len() - 1 implies !stored_before(
            #[trigger] p.push(s.last())[i + 1],
            p.push(s.last())[i],
        ) by {
            if i + 1 < p.len() {
                assert(p.push(s.last())[i + 1] == p[i + 1]);
                assert(p.push(s.last())[i] == p[i]);
            } else {
                let q = p[i];
                assert(p.push(s.last())[i] == q);
                if q == e {
                    lemma_not_both_before(e, s.last());
                } else {
                    assert(t.contains(q));
                    let k = choose|k: int| 0 <= k < t.len() && t[k] == q;
                    lemma_order_reaches_last(s, k);
                    if stored_before(s.last(), q) {
                        lemma_not_both_before(s.last(), q);
                    }
                }
            }
        }
        assert forall|i: int| 0 <= i < placed(s, e).len() implies (#[trigger] placed(s, e)[i]
            == e || s.contains(placed(s, e)[i])) by {
            if i < p.len() {
                assert(placed(s, e)[i] == p[i]);
                if p[i] != e {
                    let k = choose|k: int| 0 <= k < t.len() && t[k] == p[i];
                    assert(s[k] == t[k]);
                }
            } else {
                assert(s[s.len() - 1] == s.last());
            }
        }
    } else {
        assert(placed(s, e) == s.push(e));
        assert forall|i: int| 0 <= i < s.push(e).len() - 1 implies !stored_before(
            #[trigger] s.push(e)[i + 1],
            s.push(e)[i],
        ) by {
            if i + 1 < s.len() {
                assert(s.push(e)[i + 1] == s[i + 1]);
                assert(s.push(e)[i] == s[i]);
            } else {
                assert(s.push(e)[i] == s.last());
            }
        }
        assert forall|i: int| 0 <= i < placed(s, e).len() implies (#[trigger] placed(s, e)[i]
            == e || s.contains(placed(s, e)[i])) by {
            if i < s.len() {
                assert(s.push(e)[i] == s[i]);
            }
        }
    }
}

proof fn lemma_not_both_before<T: Sequenced>(a: T, b: T)
    requires
        stored_before(a, b),
    ensures
        !stored_before(b, a),
{
    if stored_before(b, a) {
        lemma_stored_before_transitive(a, b, a);
        lemma_text_lt_irreflexive(a.aggregate_text());
        lemma_text_lt_irreflexive(a.identity_text());
    }
}

/// In a store-ordered sequence no entry is stored after the last one.
proof fn lemma_order_reaches_last<T: Sequenced>(s: Seq<T>, k: int)
    requires
        in_store_order(s),
        0 <= k < s.len(),
    ensures
        !stored_before(s.last(), s[k]),
    decreases s.len() - k,
{
    if k < s.len() - 1 {
        lemma_order_reaches_last(s, k + 1);
        assert(!stored_before(s[k + 1], s[k]));
        if stored_before(s.last(), s[k]) {
            lemma_stored_before_total(s.last(), s[k + 1]);
            if stored_before(s[k + 1], s.last()) {
                lemma_stored_before_transitive(s[k + 1], s.last(), s[k]);
            } else {
                assert(stored_before(s[k + 1], s[k])) by {
                    lemma_text_trichotomy(s.last().aggregate_text(), s[k].aggregate_text());
                }
            }
        }
    } else {
        lemma_text_lt_irreflexive(s[k].aggregate_text());
        lemma_text_lt_irreflexive(s[k].identity_text());
    }
}

/// Store order sorts: the result is in store order and holds the same
/// events as were given, each as often.
pub proof fn lemma_store_ordered_sorts<T: Sequenced>(s: Seq<T>)
    ensures
        in_store_order(store_ordered(s)),
        store_ordered(s).to_multiset() == s.to_multiset(),
    decreases s.len(),
{
    broadcast use vstd::seq_lib::group_to_multiset_ensures;

    if s.len() > 0 {
        lemma_store_ordered_sorts(s.drop_last());
        lemma_placed_in_order(store_ordered(s.drop_last()), s.last());
        assert(s =~= s.drop_last().push(s.last()));
    }
}

/// Two events share a place in the store.
pub open spec fn same_place<T: Sequenced>(a: T, b: T) -> bool {
    a.aggregate_text() == b.aggregate_text() && a.sequence() == b.sequence()
        && a.identity_text() == b.identity_text()
}

/// Each event occurs once and has a place of its own.
pub open spec fn own_places<T: Sequenced>(m: Multiset<T>) -> bool {
    &&& forall|u: T| #[trigger] m.count(u) <= 1
    &&& forall|u: T, v: T|
        #[trigger] m.contains(u) && #[trigger] m.contains(v) && same_place(u, v) ==> u == v
}

proof fn lemma_sorted_unique<T: Sequenced>(x: Seq<T>, y: Seq<T>)
    requires
        in_store_order(x),
        in_store_order(y),
        x.to_multiset() == y.to_multiset(),
        own_places(x.to_multiset()),
    ensures
        x == y,
    decreases x.len(),
{
    broadcast use vstd::seq_lib::group_to_multiset_ensures;
    broadcast use vstd::multiset::group_multiset_axioms;

    assert(x.len() == x.to_multiset().len());
    assert(y.len() == y.to_multiset().len());
    if x.len() == 0 {
        assert(y.len() == 0);
        assert(x =~= y);
    } else {
        let m = x.to_multiset();
        let xl = x.last();
        let yl = y.last();
        assert(x[x.len() - 1] == xl);
        assert(y[y.len() - 1] == yl);
        assert(x.contains(xl));
        assert(y.contains(yl));
        assert(m.count(xl) > 0);
        assert(m.count(yl) > 0);
        assert(y.contains(xl));
        assert(x.contains(yl));
        let k = choose|k: int| 0 <= k < y.len() && y[k] == xl;
        let q = choose|q: int| 0 <= q < x.len() && x[q] == yl;
        lemma_order_reaches_last(y, k);
        lemma_order_reaches_last(x, q);
        lemma_stored_before_total(xl, yl);
        assert(m.contains(xl) && m.contains(yl));
        assert(xl == yl);
        let xd = x.drop_last();
        let yd = y.drop_last();
        assert(x =~= xd.push(xl));
        assert(y =~= yd.push(yl));
        assert(xd.to_multiset() =~= m.remove(xl));
        assert(yd.to_multiset() =~= m.remove(xl));
        assert(in_store_order(xd)) by {
            assert forall|i: int| 0 <= i < xd.len() - 1 implies !stored_before(
                #[trigger] xd[i + 1],
                xd[i],
            ) by {
                assert(xd[i] == x[i] && xd[i + 1] == x[i + 1]);
            }
        }
        assert(in_store_order(yd)) by {
            assert forall|i: int| 0 <= i < yd.len() - 1 implies !stored_before(
                #[trigger] yd[i + 1],
                yd[i],
            ) by {
                assert(yd[i] == y[i] && yd[i + 1] == y[i + 1]);
            }
        }
        assert(own_places(xd.to_multiset())) by {
            assert forall|u: T| #[trigger] xd.to_multiset().count(u) <= 1 by {
                assert(m.count(u) <= 1);
            }
            assert forall|u: T, v: T|
                #[trigger] xd.to_multiset().contains(u) && #[trigger] xd.to_multiset().contains(v)
                    && same_place(u, v) implies u == v by {
                assert(m.contains(u) && m.contains(v));
            }
        }
        lemma_sorted_unique(xd, yd);
    }
}

/// Store order does not depend on the order in which events arrive: the
/// same events, each with a place of its own, are put in the same order.
pub proof fn lemma_store_order_ignores_arrival<T: Sequenced>(a: Seq<T>, b: Seq<T>)
    requires
        a.to_multiset() == b.to_multiset(),
        own_places(a.to_multiset()),
    ensures
        store_ordered(a) == store_ordered(b),
{
    lemma_store_ordered_sorts(a);
    lemma_store_ordered_sorts(b);
    lemma_sorted_unique(store_ordered(a), store_ordered(b));
}

/// Two lists of the same events hold an event the store has not sequenced
/// alike.
pub proof fn lemma_unsequenced_alike(a: Seq<StoredEvent>, b: Seq<StoredEvent>)
    requires
        a.to_multiset() == b.to_multiset(),
    ensures
        (exists|i: int| 0 <= i < a.len() && #[trigger] a[i].stream_seq == 0) <==> (exists|i: int|
            0 <= i < b.len() && #[trigger] b[i].stream_seq == 0),
        a.len() == b.len(),
{
    broadcast use vstd::seq_lib::group_to_multiset_ensures;

    assert(a.len() == a.to_multiset().len());
    assert(b.len() == b.to_multiset().len());
    if exists|i: int| 0 <= i < a.len() && #[trigger] a[i].stream_seq == 0 {
        let i = choose|i: int| 0 <= i < a.len() && #[trigger] a[i].stream_seq == 0;
        assert(a.contains(a[i]));
        assert(b.to_multiset().count(a[i]) > 0);
        let j = choose|j: int| 0 <= j < b.len() && b[j] == a[i];
        assert(b[j].stream_seq == 0);
    }
    if exists|i: int| 0 <= i < b.len() && #[trigger] b[i].stream_seq == 0 {
        let i = choose|i: int| 0 <= i < b.len() && #[trigger] b[i].stream_seq == 0;
        assert(b.contains(b[i]));
        assert(a.to_multiset().count(b[i]) > 0);
        let j = choose|j: int| 0 <= j < a.len() && a[j] == b[i];
        assert(a[j].stream_seq == 0);
    }
}

/// The positions of `events` in store order.
pub fn store_order<T: Sequenced>(events: &[T]) -> (order: Vec<usize>)
    ensures
        order@.len() == events@.len(),
        forall|i: int| 0 <= i < order@.len() ==> #[trigger] order@[i] < events@.len(),
        order@.map_values(|i: usize| events@[i as int]) == store_ordered(events@),
{
    let mut order: Vec<usize> = Vec::new();
    let mut k: usize = 0;
    while k < events.len()
        invariant
            k <= events@.len(),
            order@.len() == k,
            forall|i: int| 0 <= i < order@.len() ==> #[trigger] order@[i] < events@.len(),
            order@.map_values(|i: usize| events@[i as int]) == store_ordered(
                events@.take(k as int),
            ),
        decreases events@.len() - k,
    {
        let ghost b = order@.map_values(|i: usize| events@[i as int]);
        let ghost e = events@[k as int];
        order.push(k);
        let mut j: usize = k;
        proof {
            assert(order@.map_values(|i: usize| events@[i as int]) =~= b.take(j as int) + seq![e]
                + b.skip(j as int));
            assert(b.take(j as int) =~= b);
            assert(b.skip(j as int) =~= Seq::<T>::empty());
            assert(placed(b, e) =~= placed(b.take(j as int), e) + b.skip(j as int));
        }
        while j > 0 && is_stored_before(&events[k], &events[order[j - 1]])
            invariant
                k < events@.len(),
                e == events@[k as int],
                b.len() == k,
                j <= k,
                order@.len() == k + 1,
                order@[j as int] == k,
                forall|i: int| 0 <= i < order@.len() ==> #[trigger] order@[i] < events@.len(),
                order@.map_values(|i: usize| events@[i as int]) == b.take(j as int) + seq![e]
                    + b.skip(j as int),
                placed(b, e) == placed(b.take(j as int), e) + b.skip(j as int),
            decreases j,
        {
            let prev = order[j - 1];
            proof {
                let m = order@.map_values(|i: usize| events@[i as int]);
                assert(m[j - 1] == b[j - 1]);
                let bt = b.take(j as int);
                assert(bt.drop_last() =~= b.take(j - 1));
                assert(bt.last() == b[j - 1]);
                assert(placed(bt, e) == placed(b.take(j - 1), e).push(b[j - 1]));
                assert(placed(b.take(j - 1), e).push(b[j - 1]) + b.skip(j as int) =~= placed(
                    b.take(j - 1),
                    e,
                ) + b.skip(j - 1));
            }
            let ghost old_m = order@.map_values(|i: usize| events@[i as int]);
            order.set(j, prev);
            order.set(j - 1, k);
            j = j - 1;
            proof {
                let m2 = order@.map_values(|i: usize| events@[i as int]);
                let target = b.take(j as int) + seq![e] + b.skip(j as int);
                assert(m2.len() == target.len());
                assert forall|i: int| 0 <= i < m2.len() implies m2[i] == target[i] by {
                    if i < j {
                        assert(m2[i] == old_m[i]);
                    } else if i == j {
                        assert(m2[i] == e);
                    } else if i == j + 1 {
                        assert(m2[i] == events@[prev as int]);
                        assert(old_m[i - 1] == b[i - 1]);
                    } else {
                        assert(m2[i] == old_m[i]);
                    }
                }
                assert(m2 =~= target);
            }
        }
        proof {
            if j > 0 {
                let m = order@.map_values(|i: usize| events@[i as int]);
                assert(m[j - 1] == b[j - 1]);
                let bt = b.take(j as int);
                assert(bt.last() == b[j - 1]);
                assert(placed(bt, e) == bt.push(e));
            } else {
                assert(b.take(0) =~= Seq::<T>::empty());
                assert(placed(b.take(0), e) == seq![e]);
            }
            assert(placed(b.take(j as int), e) + b.skip(j as int) =~= b.take(j as int) + seq![e]
                + b.skip(j as int));
            let t = events@.take(k + 1);
            assert(t.drop_last() =~= events@.take(k as int));
            assert(t.last() == e);
        }
        k = k + 1;
    }
    proof {
        assert(events@.take(k as int) =~= events@);
    }
    order
}

/// Each entry's text is below the text of every later entry: the list is
/// sorted and no text occurs twice.
pub open spec fn ascending<T: Textual>(v: Seq<T>) -> bool {
    forall|i: int, j: int|
        0 <= i < j < v.len() ==> text_lt(#[trigger] v[i].text(), #[trigger] v[j].text())
}

/// Two lists in text order with the same texts hold them at the same places.
pub proof fn lemma_ascending_same_texts<T: Textual>(v: Seq<T>, w: Seq<T>)
    requires
        ascending(v),
        ascending(w),
        forall|t: Seq<char>| #[trigger] has_text(v, t) <==> has_text(w, t),
    ensures
        v.len() == w.len(),
        forall|i: int| 0 <= i < v.len() ==> (#[trigger] v[i]).text() == w[i].text(),
    decreases v.len() + w.len(),
{
    if v.len() == 0 && w.len() > 0 {
        assert(has_text(w, w[0].text()));
        assert(!has_text(v, w[0].text()));
    } else if w.len() == 0 && v.len() > 0 {
        assert(has_text(v, v[0].text()));
        assert(!has_text(w, v[0].text()));
    } else if v.len() > 0 {
        let a = v[0].text();
        let b = w[0].text();
        assert(has_text(v, a));
        assert(has_text(w, b));
        assert(has_text(w, a));
        assert(has_text(v, b));
        let k = choose|k: int| 0 <= k < w.len() && #[trigger] w[k].text() == a;
        let j = choose|j: int| 0 <= j < v.len() && #[trigger] v[j].text() == b;
        lemma_text_lt_irreflexive(a);
        if k > 0 {
            assert(text_lt(w[0].text(), w[k].text()));
        }
        if j > 0 {
            assert(text_lt(v[0].text(), v[j].text()));
        }
        if k > 0 && j > 0 {
            lemma_text_lt_asymmetric(a, b);
        }
        assert(a == b);
        let v1 = v.drop_first();
        let w1 = w.drop_first();
        assert(ascending(v1)) by {
            assert forall|x: int, y: int| 0 <= x < y < v1.len() implies text_lt(
                #[trigger] v1[x].text(),
                #[trigger] v1[y].text(),
            ) by {
                assert(v1[x] == v[x + 1] && v1[y] == v[y + 1]);
            }
        }
        assert(ascending(w1)) by {
            assert forall|x: int, y: int| 0 <= x < y < w1.len() implies text_lt(
                #[trigger] w1[x].text(),
                #[trigger] w1[y].text(),
            ) by {
                assert(w1[x] == w[x + 1] && w1[y] == w[y + 1]);
            }
        }
        assert forall|t: Seq<char>| #[trigger] has_text(v1, t) <==> has_text(w1, t) by {
            if has_text(v1, t) {
                let x = choose|x: int| 0 <= x < v1.len() && #[trigger] v1[x].text() == t;
                assert(v[x + 1].text() == t);
                assert(text_lt(a, t));
                assert(has_text(v, t));
                assert(has_text(w, t));
                let y = choose|y: int| 0 <= y < w.len() && #[trigger] w[y].text() == t;
                if y == 0 {
                    assert(t == a);
                }
                assert(w1[y - 1].text() == t);
            }
            if has_text(w1, t) {
                let x = choose|x: int| 0 <= x < w1.len() && #[trigger] w1[x].text() == t;
                assert(w[x + 1].text() == t);
                assert(text_lt(b, t));
                assert(has_text(w, t));
                assert(has_text(v, t));
                let y = choose|y: int| 0 <= y < v.len() && #[trigger] v[y].text() == t;
                if y == 0 {
                    assert(t == b);
                }
                assert(v1[y - 1].text() == t);
            }
        }
        lemma_ascending_same_texts(v1, w1);
        assert forall|i: int| 0 <= i < v.len() implies (#[trigger] v[i]).text() == w[i].text() by {
            if i > 0 {
                assert(v[i] == v1[i - 1] && w[i] == w1[i - 1]);
            }
        }
    }
}

/// `v` lists the texts of `s`, each once, in text order.
pub open spec fn lists<T: Textual>(v: Seq<T>, s: Set<Seq<char>>) -> bool {
    &&& ascending(v)
    &&& forall|i: int| 0 <= i < v.len() ==> s.contains(#[trigger] v[i].text())
    &&& forall|t: Seq<char>| s.contains(t) ==> has_text(v, t)
}

/// The first position whose entry is not below `t`.
fn first_not_below<T: Textual>(v: &Vec<T>, t: &String) -> (p: usize)
    ensures
        p <= v@.len(),
        forall|i: int| 0 <= i < p ==> text_lt(#[trigger] v@[i].text(), t@),
        p < v@.len() ==> !text_lt(v@[p as int].text(), t@),
{
    let mut p: usize = 0;
    while p < v.len() && text_less(v[p].as_text(), t)
        invariant
            p <= v@.len(),
            forall|i: int| 0 <= i < p ==> text_lt(#[trigger] v@[i].text(), t@),
        decreases v@.len() - p,
    {
        p = p + 1;
    }
    p
}

/// The position of the entry whose text is `t`, if there is one.
pub fn find_text<T: Textual>(v: &Vec<T>, t: &String) -> (r: Option<usize>)
    ensures
        r matches Some(i) ==> i < v@.len() && v@[i as int].text() == t@,
        r is None ==> !has_text(v@, t@),
{
    let mut i: usize = 0;
    while i < v.len()
        invariant
            i <= v@.len(),
            forall|j: int| 0 <= j < i ==> (#[trigger] v@[j]).text() != t@,
        decreases v@.len() - i,
    {
        if same_text(v[i].as_text(), t) {
            return Some(i);
        }
        i = i + 1;
    }
    None
}

/// `after` is the ascending `before` with `x` put in: `x` is there, every
/// other entry comes from `before` and has another text, and every entry of
/// `before` with another text is kept.
pub open spec fn put_result<T: Textual>(before: Seq<T>, after: Seq<T>, x: T) -> bool {
    &&& ascending(after)
    &&& after.contains(x)
    &&& forall|i: int|
        0 <= i < after.len() ==> #[trigger] after[i] == x || (before.contains(after[i])
            && after[i].text() != x.text())
    &&& forall|i: int|
        0 <= i < before.len() && (#[trigger] before[i]).text() != x.text() ==> after.contains(
            before[i],
        )
    &&& after.len() == if has_text(before, x.text()) {
        before.len()
    } else {
        before.len() + 1
    }
}

/// Puts `x` into the ascending `v`: in place of the entry with the same text
/// if there is one, else at its place in text order.
pub fn put_in_order<T: Textual>(v: &mut Vec<T>, x: T)
    requires
        ascending(old(v)@),
    ensures
        put_result(old(v)@, final(v)@, x),
{
    let ghost xt = x.text();
    let p = first_not_below(v, x.as_text());
    let ghost before = v@;
    if p < v.len() && same_text(v[p].as_text(), x.as_text()) {
        v.set(p, x);
        proof {
            assert forall|i: int, j: int| 0 <= i < j < v@.len() implies text_lt(
                #[trigger] v@[i].text(),
                #[trigger] v@[j].text(),
            ) by {
                assert(before[i].text() == v@[i].text() || i == p);
                assert(before[j].text() == v@[j].text() || j == p);
            }
            assert(v@[p as int] == x);
            assert forall|i: int| 0 <= i < v@.len() implies #[trigger] v@[i] == x || (
            before.contains(v@[i]) && v@[i].text() != xt) by {
                if i != p {
                    assert(v@[i] == before[i]);
                    assert(text_lt(before[i].text(), before[p as int].text()) || text_lt(
                        before[p as int].text(),
                        before[i].text(),
                    ));
                    lemma_text_lt_irreflexive(xt);
                }
            }
            assert forall|i: int| 0 <= i < before.len() && (#[trigger] before[i]).text()
                != xt implies v@.contains(before[i]) by {
                assert(i != p);
                assert(v@[i] == before[i]);
            }
            assert(has_text(before, xt)) by {
                assert(before[p as int].text() == xt);
            }
        }
    } else {
        proof {
            if p < before.len() {
                lemma_text_trichotomy(before[p as int].text(), xt);
            }
        }
        v.insert(p, x);
        proof {
            assert forall|i: int, j: int| 0 <= i < j < v@.len() implies text_lt(
                #[trigger] v@[i].text(),
                #[trigger] v@[j].text(),
            ) by {
                if j < p {
                    assert(v@[i] == before[i] && v@[j] == before[j]);
                } else if j == p {
                    assert(v@[i] == before[i]);
                } else if i == p {
                    assert(v@[j] == before[j - 1]);
                    if j - 1 > p {
                        lemma_text_lt_transitive(xt, before[p as int].text(), before[j - 1].text());
                    }
                } else if i < p {
                    assert(v@[i] == before[i] && v@[j] == before[j - 1]);
                } else {
                    assert(v@[i] == before[i - 1] && v@[j] == before[j - 1]);
                }
            }
            assert(v@[p as int] == x);
            assert forall|i: int| 0 <= i < v@.len() implies #[trigger] v@[i] == x || (
            before.contains(v@[i]) && v@[i].text() != xt) by {
                if i < p {
                    assert(v@[i] == before[i]);
                    lemma_text_lt_irreflexive(xt);
                } else if i > p {
                    assert(v@[i] == before[i - 1]);
                    lemma_text_lt_irreflexive(xt);
                    if i - 1 > p {
                        lemma_text_lt_transitive(xt, before[p as int].text(), before[i - 1].text());
                    }
                }
            }
            assert forall|i: int| 0 <= i < before.len() && (#[trigger] before[i]).text()
                != xt implies v@.contains(before[i]) by {
                if i < p {
                    assert(v@[i] == before[i]);
                } else {
                    assert(v@[i + 1] == before[i]);
                }
            }
            assert(!has_text(before, xt)) by {
                if has_text(before, xt) {
                    let i = choose|i: int| 0 <= i < before.len() && #[trigger] before[i].text() == xt;
                    lemma_text_lt_irreflexive(xt);
                    if i < p {
                    } else if i == p {
                    } else {
                        lemma_text_lt_transitive(xt, before[p as int].text(), before[i].text());
                    }
                }
            }
        }
    }
}

/// The highest sequence number of each aggregate, after seeing `seq` in `run`.
pub open spec fn raise_version(m: Map<Seq<char>, u64>, run: Seq<char>, seq: u64) -> Map<
    Seq<char>,
    u64,
> {
    if m.contains_key(run) && m[run] >= seq {
        m
    } else {
        m.insert(run, seq)
    }
}

/// `v` holds the highest sequence number of each aggregate in `m`, one entry
/// per aggregate, in the order of the aggregates.
pub open spec fn lists_versions(v: Seq<AggregateVersion>, m: Map<Seq<char>, u64>) -> bool {
    &&& ascending(v)
    &&& forall|i: int|
        0 <= i < v.len() ==> (#[trigger] v[i]).schema_version == SchemaVersion(1)
            && m.contains_key(v[i].text()) && m[v[i].text()] == v[i].value
    &&& forall|t: Seq<char>| m.contains_key(t) ==> has_text(v, t)
}

proof fn lemma_versions_after_put(
    before: Seq<AggregateVersion>,
    after: Seq<AggregateVersion>,
    x: AggregateVersion,
    m: Map<Seq<char>, u64>,
)
    requires
        lists_versions(before, m),
        put_result(before, after, x),
        x.schema_version == SchemaVersion(1),
    ensures
        lists_versions(after, m.insert(x.text(), x.value)),
{
    let m2 = m.insert(x.text(), x.value);
    assert forall|t: Seq<char>| m2.contains_key(t) implies has_text(after, t) by {
        if t == x.text() {
            let i = choose|i: int| 0 <= i < after.len() && after[i] == x;
        } else {
            assert(m.contains_key(t));
            assert(has_text(before, t));
            let i = choose|i: int| 0 <= i < before.len() && #[trigger] before[i].text() == t;
            assert(after.contains(before[i]));
            let j = choose|j: int| 0 <= j < after.len() && after[j] == before[i];
        }
    }
    assert forall|i: int| 0 <= i < after.len() implies (#[trigger] after[i]).schema_version
        == SchemaVersion(1) && m2.contains_key(after[i].text()) && m2[after[i].text()]
        == after[i].value by {
        if after[i] != x {
            let j = choose|j: int| 0 <= j < before.len() && before[j] == after[i];
        }
    }
}


/// Notes that `run` has reached sequence number `seq`.
pub fn record_version(
    versions: &mut Vec<AggregateVersion>,
    run: &RunId,
    seq: u64,
    Ghost(m): Ghost<Map<Seq<char>, u64>>,
)
    requires
        lists_versions(old(versions)@, m),
    ensures
        lists_versions(final(versions)@, raise_version(m, run.0@, seq)),
{
    let raise = match find_text(versions, &run.0) {
        Some(i) => versions[i].value < seq,
        None => true,
    };
    if raise {
        let v = AggregateVersion { schema_version: SchemaVersion(1), aggregate: run.duplicate(), value: seq };
        let ghost before = versions@;
        let ghost gv = v;
        put_in_order(versions, v);
        proof {
            lemma_versions_after_put(before, versions@, gv, m);
        }
    }
}

} // verus!
