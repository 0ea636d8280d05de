//! The strategy-memory projection: strategy candidates with their conflicts,
//! states and evidence lineage, and the maintenance they call for.
use vstd::prelude::*;

use crate::m3_a::StrategyDomain;
use crate::m3_c::StrategyMemorySpec;
use crate::memory::{provenance_view, same_provenance};
use crate::primitives::{
    Actor, CandidateId, Error, EvidenceRef, Provenance, SchemaVersion, Scope, StrategyVersionRef,
    Timestamp, TrustTier,
};
use crate::projection::{find_text, lists, put_in_order, put_result, MemoryPayload, StoredEvent};
use crate::text::{
    blank, check_has_text, duplicate_all, has_text, lemma_text_lt_irreflexive, lemma_text_lt_transitive,
    lemma_text_trichotomy, same_text, text_less, text_lt, texts_of, Duplicate, Textual,
};

verus! {

#[derive(Debug, Clone, Copy, PartialEq, Eq, Structural)]
pub enum StrategyMemoryCandidateState {
    Candidate,
    Stable,
    Rejected,
    Downgraded,
    Decayed,
}

#[derive(Debug, Clone, PartialEq, Eq)]
pub struct StrategyMemoryCandidateProjection {
    pub schema_version: SchemaVersion,
    pub candidate: CandidateId,
    pub domain: StrategyDomain,
    pub scope: Scope,
    pub version: StrategyVersionRef,
    pub baseline: StrategyVersionRef,
    pub evidence: Vec<EvidenceRef>,
    pub conflicts: Vec<CandidateId>,
    pub state: StrategyMemoryCandidateState,
    pub active: bool,
    pub trusted_lineage: bool,
    pub created_at: Timestamp,
    pub last_changed_at: Timestamp,
}

/// A candidate projection is known by its candidate.
impl Textual for StrategyMemoryCandidateProjection {
    open spec fn text(&self) -> Seq<char> {
        self.candidate.0@
    }

    fn as_text(&self) -> (r: &String) {
        &self.candidate.0
    }
}

/// Evidence that a trusted candidate was derived from.
#[derive(Debug, Clone, PartialEq, Eq, PartialOrd, Ord)]
pub struct StrategyMemoryLineageEdge {
    pub evidence: EvidenceRef,
    pub candidate: CandidateId,
}

#[derive(Debug, Clone, PartialEq, Eq)]
pub enum StrategyMemoryRecommendation {
    Reevaluate { candidate: CandidateId, triggers: Vec<EvidenceRef> },
    Downgrade { candidate: CandidateId, reason: crate::primitives::ReasonRef },
    Rollback {
        domain: StrategyDomain,
        scope: Scope,
        failed: StrategyVersionRef,
        restored: StrategyVersionRef,
        triggers: Vec<EvidenceRef>,
    },
}

#[derive(Debug, Clone, PartialEq, Eq)]
pub struct StrategyMemorySnapshot {
    pub schema_version: SchemaVersion,
    pub candidates: Vec<StrategyMemoryCandidateProjection>,
    pub lineage: Vec<StrategyMemoryLineageEdge>,
    pub retracted_evidence: Vec<EvidenceRef>,
    pub recommendations: Vec<StrategyMemoryRecommendation>,
}

/// A candidate as the projection tracks it.
pub struct CandidateView {
    pub schema_version: SchemaVersion,
    pub candidate: Seq<char>,
    pub domain: StrategyDomain,
    pub scope: Seq<char>,
    pub version: Seq<char>,
    pub baseline: Seq<char>,
    pub evidence: Seq<Seq<char>>,
    pub conflicts: Set<Seq<char>>,
    pub state: StrategyMemoryCandidateState,
    pub trusted_lineage: bool,
    pub created_at: Timestamp,
    pub last_changed_at: Timestamp,
}

/// The projection `c` is the tracked candidate `view`.
pub open spec fn tracks(c: StrategyMemoryCandidateProjection, view: CandidateView) -> bool {
    &&& c.schema_version == view.schema_version
    &&& c.candidate.0@ == view.candidate
    &&& c.domain == view.domain
    &&& c.scope.0@ == view.scope
    &&& c.version.0@ == view.version
    &&& c.baseline.0@ == view.baseline
    &&& texts_of(c.evidence@) == view.evidence
    &&& lists(c.conflicts@, view.conflicts)
    &&& c.state == view.state
    &&& c.trusted_lineage == view.trusted_lineage
    &&& c.created_at == view.created_at
    &&& c.last_changed_at == view.last_changed_at
}

/// What the projection has gathered so far.
pub struct StrategyState {
    pub candidates: Map<Seq<char>, CandidateView>,
    /// Pairs of evidence and the trusted candidate derived from it.
    pub lineage: Set<(Seq<char>, Seq<char>)>,
    pub retracted: Set<Seq<char>>,
    pub reevaluated: Set<Seq<char>>,
    /// The strategy-memory version last activated or restored in the scope.
    pub active: Option<Seq<char>>,
    pub failed: bool,
}

pub open spec fn strategy_start() -> StrategyState {
    StrategyState {
        candidates: Map::empty(),
        lineage: Set::empty(),
        retracted: Set::empty(),
        reevaluated: Set::empty(),
        active: None,
        failed: false,
    }
}

/// Only the owner's own input and verified system processes change
/// strategy memory.
pub open spec fn authoritative(p: Provenance) -> bool {
    ||| (p.actor == Actor::Owner && p.trust_tier == TrustTier::OwnerInput)
    ||| (p.actor == Actor::System && p.trust_tier == TrustTier::VerifiedProcess)
}

pub fn is_authoritative(p: &Provenance) -> (r: bool)
    ensures
        r == authoritative(*p),
{
    match (&p.actor, &p.trust_tier) {
        (Actor::Owner, TrustTier::OwnerInput) => true,
        (Actor::System, TrustTier::VerifiedProcess) => true,
        _ => false,
    }
}

/// Recording a conflict of `a` with `b` would pass the bound on derived edges.
pub open spec fn conflict_exceeds(
    m: Map<Seq<char>, CandidateView>,
    a: Seq<char>,
    b: Seq<char>,
    max: u16,
) -> bool {
    m.contains_key(a) && !m[a].conflicts.contains(b) && m[a].conflicts.len() >= max
}

/// `a` known to conflict with `b`.
pub open spec fn conflict_added(m: Map<Seq<char>, CandidateView>, a: Seq<char>, b: Seq<char>) -> Map<
    Seq<char>,
    CandidateView,
> {
    if m.contains_key(a) && !m[a].conflicts.contains(b) {
        m.insert(a, CandidateView { conflicts: m[a].conflicts.insert(b), ..m[a] })
    } else {
        m
    }
}

pub open spec fn with_conflict(st: StrategyState, a: Seq<char>, b: Seq<char>, max: u16) -> StrategyState {
    if conflict_exceeds(st.candidates, a, b, max) {
        StrategyState { failed: true, ..st }
    } else {
        StrategyState { candidates: conflict_added(st.candidates, a, b), ..st }
    }
}

/// Candidate `a`, if known, moved to `state` at `at`.
pub open spec fn moved_to(
    m: Map<Seq<char>, CandidateView>,
    a: Seq<char>,
    state: StrategyMemoryCandidateState,
    at: Timestamp,
) -> Map<Seq<char>, CandidateView> {
    if m.contains_key(a) {
        m.insert(a, CandidateView { state, last_changed_at: at, ..m[a] })
    } else {
        m
    }
}

/// The lineage pairs of a candidate derived from `evidence`.
pub open spec fn evidence_edges(evidence: Seq<Seq<char>>, id: Seq<char>) -> Set<(Seq<char>, Seq<char>)> {
    Set::new(|p: (Seq<char>, Seq<char>)| p.1 == id && evidence.contains(p.0))
}

/// A new candidate as the event that creates it describes it.
pub open spec fn new_candidate(c: crate::m3_a::StrategyCandidate, e: StoredEvent) -> CandidateView {
    CandidateView {
        schema_version: c.schema_version,
        candidate: c.candidate.0@,
        domain: c.domain,
        scope: c.scope.0@,
        version: c.proposed_version.0@,
        baseline: c.baseline.0@,
        evidence: texts_of(c.evidence@),
        conflicts: Set::empty(),
        state: StrategyMemoryCandidateState::Candidate,
        trusted_lineage: authoritative(e.provenance),
        created_at: e.ts_unix_ms,
        last_changed_at: e.ts_unix_ms,
    }
}

/// What one event adds to strategy memory under `spec`.
pub open spec fn strategy_step(st: StrategyState, e: StoredEvent, spec: StrategyMemorySpec) -> StrategyState {
    let auth = authoritative(e.provenance);
    let scope = spec.envelope.scope.0@;
    match e.payload {
        MemoryPayload::CandidateCreated {
            candidate_id,
            evidence_refs,
            provenance,
            target_tier,
            strategy_candidate,
            ..
        } => match strategy_candidate {
            None => st,
            Some(c) => {
                if !c.valid() || candidate_id.0@ != c.candidate.0@ || texts_of(evidence_refs@)
                    != texts_of(c.evidence@) || target_tier != c.target_tier || provenance_view(
                    provenance,
                ) != provenance_view(c.provenance) {
                    StrategyState { failed: true, ..st }
                } else if c.domain != StrategyDomain::StrategyMemory || c.scope.0@ != scope {
                    st
                } else if c.schema_version != spec.envelope.schema_version || c.evidence@.len()
                    > spec.maximum_derived_edges {
                    StrategyState { failed: true, ..st }
                } else {
                    let v = new_candidate(c, e);
                    if st.candidates.contains_key(v.candidate) {
                        if st.candidates[v.candidate] == v {
                            st
                        } else {
                            StrategyState { failed: true, ..st }
                        }
                    } else {
                        StrategyState {
                            candidates: st.candidates.insert(v.candidate, v),
                            lineage: if v.trusted_lineage {
                                st.lineage.union(evidence_edges(v.evidence, v.candidate))
                            } else {
                                st.lineage
                            },
                            ..st
                        }
                    }
                }
            },
        },
        MemoryPayload::CandidateConflictDetected { candidate_id, conflict_with } => {
            if auth {
                with_conflict(
                    with_conflict(
                        st,
                        candidate_id.0@,
                        conflict_with.0@,
                        spec.maximum_derived_edges,
                    ),
                    conflict_with.0@,
                    candidate_id.0@,
                    spec.maximum_derived_edges,
                )
            } else {
                st
            }
        },
        MemoryPayload::CandidatePromoted { candidate_id } => {
            if auth {
                StrategyState {
                    candidates: moved_to(
                        st.candidates,
                        candidate_id.0@,
                        StrategyMemoryCandidateState::Stable,
                        e.ts_unix_ms,
                    ),
                    ..st
                }
            } else {
                st
            }
        },
        MemoryPayload::CandidateRejected { candidate_id } => {
            if auth {
                StrategyState {
                    candidates: moved_to(
                        st.candidates,
                        candidate_id.0@,
                        StrategyMemoryCandidateState::Rejected,
                        e.ts_unix_ms,
                    ),
                    ..st
                }
            } else {
                st
            }
        },
        MemoryPayload::CandidateDowngraded { candidate_id } => {
            if auth {
                StrategyState {
                    candidates: moved_to(
                        st.candidates,
                        candidate_id.0@,
                        StrategyMemoryCandidateState::Downgraded,
                        e.ts_unix_ms,
                    ),
                    ..st
                }
            } else {
                st
            }
        },
        MemoryPayload::CandidateDecayed { candidate_id } => {
            if auth {
                StrategyState {
                    candidates: moved_to(
                        st.candidates,
                        candidate_id.0@,
                        StrategyMemoryCandidateState::Decayed,
                        e.ts_unix_ms,
                    ),
                    ..st
                }
            } else {
                st
            }
        },
        MemoryPayload::RetractionEvent { target_object } => {
            if auth {
                StrategyState { retracted: st.retracted.insert(target_object.0@), ..st }
            } else {
                st
            }
        },
        MemoryPayload::ReevaluationTaskCreated { derived_refs } => {
            if auth {
                StrategyState {
                    reevaluated: st.reevaluated.union(texts_of(derived_refs@).to_set()),
                    ..st
                }
            } else {
                st
            }
        },
        MemoryPayload::StrategyActivated { activation, active_snapshot } => {
            if !auth {
                st
            } else if !activation.valid() || crate::text::is_blank(active_snapshot.0@) {
                StrategyState { failed: true, ..st }
            } else if activation.domain == StrategyDomain::StrategyMemory && activation.scope.0@
                == scope {
                StrategyState { active: Some(activation.to.0@), ..st }
            } else {
                st
            }
        },
        MemoryPayload::StrategyRolledBack { rollback, active_snapshot } => {
            if !auth {
                st
            } else if !rollback.valid() || crate::text::is_blank(active_snapshot.0@) {
                StrategyState { failed: true, ..st }
            } else if rollback.domain == StrategyDomain::StrategyMemory && rollback.scope.0@
                == scope {
                StrategyState { active: Some(rollback.restored.0@), ..st }
            } else {
                st
            }
        },
        _ => st,
    }
}

/// Strategy memory gathered from events in the order given.
pub open spec fn strategy_fold(s: Seq<StoredEvent>, spec: StrategyMemorySpec) -> StrategyState
    decreases s.len(),
{
    if s.len() == 0 {
        strategy_start()
    } else {
        strategy_step(strategy_fold(s.drop_last(), spec), s.last(), spec)
    }
}

/// `v` holds the candidates of `m`, one per identity, in the order of
/// their identities, none of them marked active yet.
pub open spec fn lists_candidates(
    v: Seq<StrategyMemoryCandidateProjection>,
    m: Map<Seq<char>, CandidateView>,
) -> bool {
    &&& crate::projection::ascending(v)
    &&& forall|i: int|
        0 <= i < v.len() ==> m.contains_key(#[trigger] v[i].text()) && tracks(v[i], m[v[i].text()])
    &&& forall|t: Seq<char>| m.contains_key(t) ==> has_text(v, t)
}

/// The pair of a lineage edge.
pub open spec fn edge_pair(e: StrategyMemoryLineageEdge) -> (Seq<char>, Seq<char>) {
    (e.evidence.0@, e.candidate.0@)
}

/// Pairs ordered by evidence, then by candidate.
pub open spec fn pair_lt(a: (Seq<char>, Seq<char>), b: (Seq<char>, Seq<char>)) -> bool {
    text_lt(a.0, b.0) || (a.0 == b.0 && text_lt(a.1, b.1))
}

/// `v` lists the pairs of `s`, each once, in pair order.
pub open spec fn lists_edges(v: Seq<StrategyMemoryLineageEdge>, s: Set<(Seq<char>, Seq<char>)>) -> bool {
    &&& forall|i: int, j: int|
        0 <= i < j < v.len() ==> pair_lt(edge_pair(#[trigger] v[i]), edge_pair(#[trigger] v[j]))
    &&& forall|i: int| 0 <= i < v.len() ==> s.contains(edge_pair(#[trigger] v[i]))
    &&& forall|p: (Seq<char>, Seq<char>)|
        s.contains(p) ==> exists|i: int| 0 <= i < v.len() && edge_pair(#[trigger] v[i]) == p
}

proof fn lemma_pair_lt_transitive(a: (Seq<char>, Seq<char>), b: (Seq<char>, Seq<char>), c: (Seq<char>, Seq<char>))
    requires
        pair_lt(a, b),
        pair_lt(b, c),
    ensures
        pair_lt(a, c),
{
    if text_lt(a.0, b.0) && text_lt(b.0, c.0) {
        lemma_text_lt_transitive(a.0, b.0, c.0);
    }
    if a.0 == b.0 && b.0 == c.0 && text_lt(a.1, b.1) && text_lt(b.1, c.1) {
        lemma_text_lt_transitive(a.1, b.1, c.1);
    }
}

proof fn lemma_pair_trichotomy(a: (Seq<char>, Seq<char>), b: (Seq<char>, Seq<char>))
    ensures
        pair_lt(a, b) || pair_lt(b, a) || a == b,
{
    lemma_text_trichotomy(a.0, b.0);
    lemma_text_trichotomy(a.1, b.1);
}

fn edge_less(a: &StrategyMemoryLineageEdge, b: &StrategyMemoryLineageEdge) -> (r: bool)
    ensures
        r == pair_lt(edge_pair(*a), edge_pair(*b)),
{
    text_less(&a.evidence.0, &b.evidence.0) || (same_text(&a.evidence.0, &b.evidence.0)
        && text_less(&a.candidate.0, &b.candidate.0))
}

/// Puts the edge `x` into the lineage `v` unless it is there already.
fn put_edge(v: &mut Vec<StrategyMemoryLineageEdge>, x: StrategyMemoryLineageEdge, Ghost(s): Ghost<Set<(Seq<char>, Seq<char>)>>)
    requires
        lists_edges(old(v)@, s),
    ensures
        lists_edges(final(v)@, s.insert(edge_pair(x))),
{
    let ghost xp = edge_pair(x);
    let mut p: usize = 0;
    while p < v.len() && edge_less(&v[p], &x)
        invariant
            p <= v@.len(),
            xp == edge_pair(x),
            forall|i: int| 0 <= i < p ==> pair_lt(edge_pair(#[trigger] v@[i]), xp),
        decreases v@.len() - p,
    {
        p = p + 1;
    }
    if p < v.len() && !edge_less(&x, &v[p]) {
        proof {
            lemma_pair_trichotomy(edge_pair(v@[p as int]), xp);
            assert(edge_pair(v@[p as int]) == xp);
            assert(s.insert(xp) =~= s);
        }
        return;
    }
    let ghost before = v@;
    v.insert(p, x);
    proof {
        assert forall|i: int, j: int| 0 <= i < j < v@.len() implies pair_lt(
            edge_pair(#[trigger] v@[i]),
            edge_pair(#[trigger] v@[j]),
        ) by {
            if j < p {
                assert(v@[i] == before[i] && v@[j] == before[j]);
            } else if j == p {
                assert(v@[i] == before[i]);
            } else if i == p {
                assert(v@[j] == before[j - 1]);
                if j - 1 > p {
                    lemma_pair_lt_transitive(xp, edge_pair(before[p as int]), edge_pair(before[j - 1]));
                }
            } else if i < p {
                assert(v@[i] == before[i] && v@[j] == before[j - 1]);
            } else {
                assert(v@[i] == before[i - 1] && v@[j] == before[j - 1]);
            }
        }
        assert forall|i: int| 0 <= i < v@.len() implies s.insert(xp).contains(
            edge_pair(#[trigger] v@[i]),
        ) by {
            if i < p {
                assert(v@[i] == before[i]);
            } else if i > p {
                assert(v@[i] == before[i - 1]);
            }
        }
        assert forall|q: (Seq<char>, Seq<char>)| s.insert(xp).contains(q) implies exists|i: int|
            0 <= i < v@.len() && edge_pair(#[trigger] v@[i]) == q by {
            if q == xp {
                assert(edge_pair(v@[p as int]) == q);
            } else {
                let i = choose|i: int| 0 <= i < before.len() && edge_pair(#[trigger] before[i]) == q;
                if i < p {
                    assert(v@[i] == before[i]);
                } else {
                    assert(v@[i + 1] == before[i]);
                }
            }
        }
    }
}

/// A list that lists a set has as many entries as the set has members.
proof fn lemma_lists_len<T: Textual>(v: Seq<T>, s: Set<Seq<char>>)
    requires
        lists(v, s),
    ensures
        s.finite(),
        s.len() == v.len(),
{
    let t = texts_of(v);
    assert(t.no_duplicates()) by {
        assert forall|i: int, j: int| 0 <= i < t.len() && 0 <= j < t.len() && i != j implies t[i]
            != t[j] by {
            if i < j {
                assert(text_lt(v[i].text(), v[j].text()));
                lemma_text_lt_irreflexive(v[i].text());
            } else {
                assert(text_lt(v[j].text(), v[i].text()));
                lemma_text_lt_irreflexive(v[j].text());
            }
        }
    }
    assert(t.to_set() =~= s) by {
        assert forall|x: Seq<char>| s.contains(x) implies t.to_set().contains(x) by {
            let i = choose|i: int| 0 <= i < v.len() && #[trigger] v[i].text() == x;
            assert(t[i] == x);
        }
        assert forall|x: Seq<char>| t.to_set().contains(x) implies s.contains(x) by {
            let i = choose|i: int| 0 <= i < t.len() && t[i] == x;
            assert(v[i].text() == x);
        }
    }
    t.unique_seq_to_set();
    vstd::seq_lib::seq_to_set_is_finite(t);
}

proof fn lemma_lists_after_put<T: Textual>(before: Seq<T>, after: Seq<T>, x: T, s: Set<Seq<char>>)
    requires
        lists(before, s),
        put_result(before, after, x),
    ensures
        lists(after, s.insert(x.text())),
{
    assert forall|t: Seq<char>| s.insert(x.text()).contains(t) implies has_text(after, t) by {
        if t == x.text() {
            let i = choose|i: int| 0 <= i < after.len() && after[i] == x;
        } else {
            let i = choose|i: int| 0 <= i < before.len() && #[trigger] before[i].text() == t;
            assert(after.contains(before[i]));
            let j = choose|j: int| 0 <= j < after.len() && after[j] == before[i];
        }
    }
    assert forall|i: int| 0 <= i < after.len() implies s.insert(x.text()).contains(
        #[trigger] after[i].text(),
    ) by {
        if after[i] != x {
            let j = choose|j: int| 0 <= j < before.len() && before[j] == after[i];
        }
    }
}

/// The same evidence, entry by entry.
fn same_evidence(a: &Vec<EvidenceRef>, b: &Vec<EvidenceRef>) -> (r: bool)
    ensures
        r == (texts_of(a@) == texts_of(b@)),
{
    if a.len() != b.len() {
        proof {
            assert(texts_of(a@).len() != texts_of(b@).len());
        }
        return false;
    }
    let mut i: usize = 0;
    while i < a.len()
        invariant
            a@.len() == b@.len(),
            i <= a@.len(),
            forall|j: int| 0 <= j < i ==> (#[trigger] a@[j]).0@ == b@[j].0@,
        decreases a@.len() - i,
    {
        if !same_text(&a[i].0, &b[i].0) {
            proof {
                assert(texts_of(a@)[i as int] != texts_of(b@)[i as int]);
            }
            return false;
        }
        i = i + 1;
    }
    proof {
        assert(texts_of(a@) =~= texts_of(b@));
    }
    true
}

/// Records that candidate `a` conflicts with `b`; false when that would pass
/// the bound on derived edges.
fn add_conflict(
    cands: &mut Vec<StrategyMemoryCandidateProjection>,
    a: &CandidateId,
    b: &CandidateId,
    max: u16,
    Ghost(m): Ghost<Map<Seq<char>, CandidateView>>,
) -> (ok: bool)
    requires
        lists_candidates(old(cands)@, m),
        forall|i: int| 0 <= i < old(cands)@.len() ==> !(#[trigger] old(cands)@[i]).active,
    ensures
        ok == !conflict_exceeds(m, a.0@, b.0@, max),
        ok ==> lists_candidates(final(cands)@, conflict_added(m, a.0@, b.0@)),
        forall|i: int| 0 <= i < final(cands)@.len() ==> !(#[trigger] final(cands)@[i]).active,
{
    match find_text(cands, &a.0) {
        None => {
            proof {
                assert(!m.contains_key(a.0@));
                assert(conflict_added(m, a.0@, b.0@) == m);
            }
            true
        },
        Some(i) => {
            let ghost before = cands@;
            let ghost view = m[a.0@];
            proof {
                assert(before[i as int].text() == a.0@);
                assert(tracks(before[i as int], view));
                lemma_lists_len(before[i as int].conflicts@, view.conflicts);
            }
            if find_text(&cands[i].conflicts, &b.0).is_some() {
                proof {
                    assert(view.conflicts.contains(b.0@));
                    assert(conflict_added(m, a.0@, b.0@) == m);
                }
                return true;
            }
            if cands[i].conflicts.len() >= max as usize {
                return false;
            }
            let mut c = cands.remove(i);
            let ghost old_conflicts = c.conflicts@;
            put_in_order(&mut c.conflicts, b.duplicate());
            proof {
                lemma_lists_after_put(old_conflicts, c.conflicts@, *b, view.conflicts);
            }
            cands.insert(i, c);
            proof {
                let m2 = conflict_added(m, a.0@, b.0@);
                let nv = CandidateView { conflicts: view.conflicts.insert(b.0@), ..view };
                assert(m2 == m.insert(a.0@, nv));
                assert(tracks(c, nv));
                assert forall|j: int| 0 <= j < cands@.len() && j != i implies cands@[j] == before[j] by {}
                assert(cands@[i as int] == c);
                assert forall|x: int, y: int| 0 <= x < y < cands@.len() implies text_lt(
                    #[trigger] cands@[x].text(),
                    #[trigger] cands@[y].text(),
                ) by {
                    assert(cands@[x].text() == before[x].text());
                    assert(cands@[y].text() == before[y].text());
                }
                assert forall|j: int| 0 <= j < cands@.len() implies m2.contains_key(
                    #[trigger] cands@[j].text(),
                ) && tracks(cands@[j], m2[cands@[j].text()]) by {
                    if j != i {
                        assert(cands@[j] == before[j]);
                        assert(before[j].text() != a.0@) by {
                            if j < i {
                                assert(text_lt(before[j].text(), before[i as int].text()));
                            } else {
                                assert(text_lt(before[i as int].text(), before[j].text()));
                            }
                            lemma_text_lt_irreflexive(a.0@);
                        }
                    }
                }
                assert forall|t: Seq<char>| m2.contains_key(t) implies has_text(cands@, t) by {
                    assert(m.contains_key(t));
                    assert(has_text(before, t));
                    let j = choose|j: int| 0 <= j < before.len() && #[trigger] before[j].text() == t;
                    if j == i {
                        assert(cands@[j].text() == a.0@);
                    } else {
                        assert(cands@[j] == before[j]);
                    }
                    assert(cands@[j].text() == t);
                }
            }
            true
        },
    }
}

/// Moves candidate `a`, if known, to `state` at `at`.
fn move_candidate(
    cands: &mut Vec<StrategyMemoryCandidateProjection>,
    a: &CandidateId,
    state: StrategyMemoryCandidateState,
    at: Timestamp,
    Ghost(m): Ghost<Map<Seq<char>, CandidateView>>,
)
    requires
        lists_candidates(old(cands)@, m),
        forall|i: int| 0 <= i < old(cands)@.len() ==> !(#[trigger] old(cands)@[i]).active,
    ensures
        lists_candidates(final(cands)@, moved_to(m, a.0@, state, at)),
        forall|i: int| 0 <= i < final(cands)@.len() ==> !(#[trigger] final(cands)@[i]).active,
{
    match find_text(cands, &a.0) {
        None => {
            proof {
                assert(!m.contains_key(a.0@));
            }
        },
        Some(i) => {
            let ghost before = cands@;
            let ghost view = m[a.0@];
            proof {
                assert(before[i as int].text() == a.0@);
            }
            let mut c = cands.remove(i);
            c.state = state;
            c.last_changed_at = at;
            cands.insert(i, c);
            proof {
                let m2 = moved_to(m, a.0@, state, at);
                let nv = CandidateView { state, last_changed_at: at, ..view };
                assert(m2 == m.insert(a.0@, nv));
                assert(tracks(c, nv));
                assert forall|j: int| 0 <= j < cands@.len() && j != i implies cands@[j] == before[j] by {}
                assert(cands@[i as int] == c);
                assert forall|x: int, y: int| 0 <= x < y < cands@.len() implies text_lt(
                    #[trigger] cands@[x].text(),
                    #[trigger] cands@[y].text(),
                ) by {
                    assert(cands@[x].text() == before[x].text());
                    assert(cands@[y].text() == before[y].text());
                }
                assert forall|j: int| 0 <= j < cands@.len() implies m2.contains_key(
                    #[trigger] cands@[j].text(),
                ) && tracks(cands@[j], m2[cands@[j].text()]) by {
                    if j != i {
                        assert(cands@[j] == before[j]);
                        assert(before[j].text() != a.0@) by {
                            if j < i {
                                assert(text_lt(before[j].text(), before[i as int].text()));
                            } else {
                                assert(text_lt(before[i as int].text(), before[j].text()));
                            }
                            lemma_text_lt_irreflexive(a.0@);
                        }
                    }
                }
                assert forall|t: Seq<char>| m2.contains_key(t) implies has_text(cands@, t) by {
                    assert(m.contains_key(t));
                    assert(has_text(before, t));
                    let j = choose|j: int| 0 <= j < before.len() && #[trigger] before[j].text() == t;
                    if j == i {
                        assert(cands@[j].text() == a.0@);
                    } else {
                        assert(cands@[j] == before[j]);
                    }
                    assert(cands@[j].text() == t);
                }
            }
        },
    }
}

/// The candidates of `v` are marked active exactly when their version is the
/// active one.
pub open spec fn marks_active(v: Seq<StrategyMemoryCandidateProjection>, active: Option<Seq<char>>) -> bool {
    forall|i: int|
        0 <= i < v.len() ==> (#[trigger] v[i]).active == (active == Some(v[i].version.0@))
}

/// A recommendation as the projection states it.
pub enum RecommendationView {
    Reevaluate { candidate: Seq<char>, triggers: Set<Seq<char>> },
    Downgrade { candidate: Seq<char>, reason: Seq<char> },
    Rollback {
        domain: StrategyDomain,
        scope: Seq<char>,
        failed: Seq<char>,
        restored: Seq<char>,
        triggers: Set<Seq<char>>,
    },
}

/// The recommendation `r` is the stated one `v`.
pub open spec fn advises(r: StrategyMemoryRecommendation, v: RecommendationView) -> bool {
    match (r, v) {
        (
            StrategyMemoryRecommendation::Reevaluate { candidate, triggers },
            RecommendationView::Reevaluate { candidate: c, triggers: t },
        ) => candidate.0@ == c && lists(triggers@, t),
        (
            StrategyMemoryRecommendation::Downgrade { candidate, reason },
            RecommendationView::Downgrade { candidate: c, reason: why },
        ) => candidate.0@ == c && reason.0@ == why,
        (
            StrategyMemoryRecommendation::Rollback { domain, scope, failed, restored, triggers },
            RecommendationView::Rollback {
                domain: d,
                scope: sc,
                failed: f,
                restored: rs,
                triggers: t,
            },
        ) => domain == d && scope.0@ == sc && failed.0@ == f && restored.0@ == rs && lists(
            triggers@,
            t,
        ),
        _ => false,
    }
}

/// Some of the candidate's evidence was retracted.
pub open spec fn evidence_retracted(c: StrategyMemoryCandidateProjection, retracted: Set<Seq<char>>) -> bool {
    exists|i: int| 0 <= i < c.evidence@.len() && retracted.contains(#[trigger] c.evidence@[i].0@)
}

/// The candidate was last changed at least the decay window ago.
pub open spec fn is_stale(c: StrategyMemoryCandidateProjection, spec: StrategyMemorySpec, now: Timestamp) -> bool {
    crate::memory::window_elapsed(c.last_changed_at, spec.envelope.evidence_policy.decay_after, now)
}

pub open spec fn freshness_trigger(id: Seq<char>) -> Seq<char> {
    "freshness-expired:"@ + id
}

pub open spec fn conflict_trigger(id: Seq<char>) -> Seq<char> {
    "conflict:"@ + id
}

/// Why the candidate needs maintenance: its retracted evidence, its
/// staleness, and each candidate it conflicts with.
pub open spec fn triggers_of(
    c: StrategyMemoryCandidateProjection,
    retracted: Set<Seq<char>>,
    spec: StrategyMemorySpec,
    now: Timestamp,
) -> Set<Seq<char>> {
    Set::new(
        |t: Seq<char>|
            (exists|i: int| 0 <= i < c.evidence@.len() && #[trigger] c.evidence@[i].0@ == t && retracted.contains(t))
            || (is_stale(c, spec, now) && t == freshness_trigger(c.candidate.0@))
            || (exists|i: int| 0 <= i < c.conflicts@.len() && t == conflict_trigger(#[trigger] c.conflicts@[i].0@)),
    )
}

/// The candidate is trusted, still standing, and has lost evidence, gone
/// stale or met a conflict.
pub open spec fn needs_maintenance(
    c: StrategyMemoryCandidateProjection,
    retracted: Set<Seq<char>>,
    spec: StrategyMemorySpec,
    now: Timestamp,
) -> bool {
    &&& c.trusted_lineage
    &&& c.state != StrategyMemoryCandidateState::Rejected
    &&& c.state != StrategyMemoryCandidateState::Downgraded
    &&& c.state != StrategyMemoryCandidateState::Decayed
    &&& (evidence_retracted(c, retracted) || is_stale(c, spec, now) || c.conflicts@.len() > 0)
}

/// The recommendations for one candidate: re-evaluate it unless a
/// re-evaluation is already under way, downgrade it when it is stable or
/// active, and roll back an active one.
pub open spec fn recommendations_for(
    c: StrategyMemoryCandidateProjection,
    st: StrategyState,
    spec: StrategyMemorySpec,
    now: Timestamp,
) -> Seq<RecommendationView> {
    if !needs_maintenance(c, st.retracted, spec, now) {
        Seq::empty()
    } else {
        let t = triggers_of(c, st.retracted, spec, now);
        let first = if !st.reevaluated.contains(c.candidate.0@) {
            seq![RecommendationView::Reevaluate { candidate: c.candidate.0@, triggers: t }]
        } else {
            Seq::empty()
        };
        let second = if c.state == StrategyMemoryCandidateState::Stable || c.active {
            seq![
                RecommendationView::Downgrade {
                    candidate: c.candidate.0@,
                    reason: if evidence_retracted(c, st.retracted) {
                        "strategy evidence was retracted"@
                    } else if c.conflicts@.len() > 0 {
                        "strategy candidate conflicts with retained evidence"@
                    } else {
                        "strategy evidence is stale"@
                    },
                },
            ]
        } else {
            Seq::empty()
        };
        let third = if c.active && spec.rollback_on_active_evidence_loss {
            seq![
                RecommendationView::Rollback {
                    domain: c.domain,
                    scope: c.scope.0@,
                    failed: c.version.0@,
                    restored: spec.envelope.rollback_policy.known_good.0@,
                    triggers: t,
                },
            ]
        } else {
            Seq::empty()
        };
        first + second + third
    }
}

/// The recommendations for the candidates, in their order.
pub open spec fn recommendations_of(
    v: Seq<StrategyMemoryCandidateProjection>,
    st: StrategyState,
    spec: StrategyMemorySpec,
    now: Timestamp,
) -> Seq<RecommendationView>
    decreases v.len(),
{
    if v.len() == 0 {
        Seq::empty()
    } else {
        recommendations_of(v.drop_last(), st, spec, now) + recommendations_for(
            v.last(),
            st,
            spec,
            now,
        )
    }
}

/// `out` states the recommendations `views`, one for one.
pub open spec fn states(out: Seq<StrategyMemoryRecommendation>, views: Seq<RecommendationView>) -> bool {
    out.len() == views.len() && forall|i: int| 0 <= i < out.len() ==> advises(#[trigger] out[i], views[i])
}

/// When a rebuild is refused: an invalid spec or clock, an event the store
/// has not sequenced, or an event that breaks the projection's rules.
pub open spec fn strategy_refused(events: Seq<StoredEvent>, spec: StrategyMemorySpec, now: Timestamp) -> bool {
    ||| !spec.valid()
    ||| now <= 0
    ||| exists|i: int| 0 <= i < events.len() && #[trigger] events[i].stream_seq == 0
    ||| strategy_fold(events, spec).failed
}

/// The snapshot is the strategy memory gathered from `events`.
pub open spec fn strategy_snapshot(
    snap: StrategyMemorySnapshot,
    events: Seq<StoredEvent>,
    spec: StrategyMemorySpec,
    now: Timestamp,
) -> bool {
    let st = strategy_fold(events, spec);
    &&& snap.schema_version == SchemaVersion(1)
    &&& lists_candidates(snap.candidates@, st.candidates)
    &&& marks_active(snap.candidates@, st.active)
    &&& lists_edges(snap.lineage@, st.lineage)
    &&& lists(snap.retracted_evidence@, st.retracted)
    &&& states(snap.recommendations@, recommendations_of(snap.candidates@, st, spec, now))
}

/// Every lineage pair names a tracked candidate that was created by an
/// authoritative event.
pub open spec fn lineage_trusted(st: StrategyState) -> bool {
    forall|p: (Seq<char>, Seq<char>)|
        #[trigger] st.lineage.contains(p) ==> st.candidates.contains_key(p.1)
            && st.candidates[p.1].trusted_lineage
}

proof fn lemma_step_keeps_lineage_trusted(st: StrategyState, e: StoredEvent, spec: StrategyMemorySpec)
    requires
        lineage_trusted(st),
    ensures
        lineage_trusted(strategy_step(st, e, spec)),
{
    let st2 = strategy_step(st, e, spec);
    assert forall|p: (Seq<char>, Seq<char>)| #[trigger] st2.lineage.contains(p) implies st2.candidates.contains_key(p.1)
        && st2.candidates[p.1].trusted_lineage by {
        match e.payload {
            MemoryPayload::CandidateCreated { strategy_candidate, .. } => {
                if strategy_candidate is Some && st.lineage.contains(p) {
                    let v = new_candidate(strategy_candidate->0, e);
                    assert(st.candidates.contains_key(p.1));
                    if !st.candidates.contains_key(v.candidate) {
                        assert(p.1 != v.candidate);
                    }
                }
            },
            MemoryPayload::CandidateConflictDetected { candidate_id, conflict_with } => {
                let a = candidate_id.0@;
                let b = conflict_with.0@;
                let m1 = conflict_added(st.candidates, a, b);
                assert(m1.contains_key(p.1) && m1[p.1].trusted_lineage);
                assert(conflict_added(m1, b, a).contains_key(p.1) && conflict_added(m1, b, a)[p.1].trusted_lineage);
            },
            _ => {},
        }
    }
}

/// Untrusted content never adds lineage: every evidence-to-candidate pair in
/// strategy memory belongs to a candidate created by the owner or a verified
/// system process.
pub proof fn lemma_lineage_only_from_trusted(events: Seq<StoredEvent>, spec: StrategyMemorySpec)
    ensures
        lineage_trusted(strategy_fold(events, spec)),
    decreases events.len(),
{
    if events.len() == 0 {
        assert(lineage_trusted(strategy_start()));
    } else {
        lemma_lineage_only_from_trusted(events.drop_last(), spec);
        lemma_step_keeps_lineage_trusted(strategy_fold(events.drop_last(), spec), events.last(), spec);
    }
}

/// Untrusted candidates are never recommended for maintenance.
pub proof fn lemma_untrusted_gets_no_recommendation(
    c: StrategyMemoryCandidateProjection,
    st: StrategyState,
    spec: StrategyMemorySpec,
    now: Timestamp,
)
    requires
        !c.trusted_lineage,
    ensures
        recommendations_for(c, st, spec, now).len() == 0,
{
}

proof fn lemma_failed_stays(s: Seq<StoredEvent>, spec: StrategyMemorySpec, k: int, j: int)
    requires
        0 <= k <= j <= s.len(),
        strategy_fold(s.take(k), spec).failed,
    ensures
        strategy_fold(s.take(j), spec).failed,
    decreases j - k,
{
    if j > k {
        lemma_failed_stays(s, spec, k, j - 1);
        assert(s.take(j).drop_last() =~= s.take(j - 1));
    }
}

proof fn lemma_candidates_after_put(
    before: Seq<StrategyMemoryCandidateProjection>,
    after: Seq<StrategyMemoryCandidateProjection>,
    x: StrategyMemoryCandidateProjection,
    view: CandidateView,
    m: Map<Seq<char>, CandidateView>,
)
    requires
        lists_candidates(before, m),
        put_result(before, after, x),
        tracks(x, view),
    ensures
        lists_candidates(after, m.insert(view.candidate, view)),
{
    let m2 = m.insert(view.candidate, view);
    assert forall|t: Seq<char>| m2.contains_key(t) implies has_text(after, t) by {
        if t == x.text() {
            let i = choose|i: int| 0 <= i < after.len() && after[i] == x;
        } else {
            assert(m.contains_key(t));
            assert(has_text(before, t));
            let i = choose|i: int| 0 <= i < before.len() && #[trigger] before[i].text() == t;
            assert(after.contains(before[i]));
            let j = choose|j: int| 0 <= j < after.len() && after[j] == before[i];
        }
    }
    assert forall|i: int| 0 <= i < after.len() implies m2.contains_key(
        #[trigger] after[i].text(),
    ) && tracks(after[i], m2[after[i].text()]) by {
        if after[i] != x {
            let j = choose|j: int| 0 <= j < before.len() && before[j] == after[i];
        }
    }
}

/// The projection of a newly created candidate.
fn projection_of(c: &crate::m3_a::StrategyCandidate, e: &StoredEvent, trusted: bool) -> (r: StrategyMemoryCandidateProjection)
    requires
        trusted == authoritative(e.provenance),
    ensures
        tracks(r, new_candidate(*c, *e)),
        !r.active,
{
    let evidence = duplicate_all(&c.evidence);
    let r = StrategyMemoryCandidateProjection {
        schema_version: c.schema_version,
        candidate: c.candidate.duplicate(),
        domain: c.domain,
        scope: c.scope.duplicate(),
        version: c.proposed_version.duplicate(),
        baseline: c.baseline.duplicate(),
        evidence,
        conflicts: Vec::new(),
        state: StrategyMemoryCandidateState::Candidate,
        active: false,
        trusted_lineage: trusted,
        created_at: e.ts_unix_ms,
        last_changed_at: e.ts_unix_ms,
    };
    proof {
        assert(texts_of(r.evidence@) =~= texts_of(c.evidence@));
        assert(lists(r.conflicts@, Set::<Seq<char>>::empty()));
    }
    r
}

/// Whether the tracked candidate is the one the event describes.
fn same_as_new(
    existing: &StrategyMemoryCandidateProjection,
    c: &crate::m3_a::StrategyCandidate,
    e: &StoredEvent,
    trusted: bool,
    Ghost(view): Ghost<CandidateView>,
) -> (r: bool)
    requires
        tracks(*existing, view),
        trusted == authoritative(e.provenance),
    ensures
        r == (view == new_candidate(*c, *e)),
{
    proof {
        lemma_lists_len(existing.conflicts@, view.conflicts);
    }
    let r = existing.schema_version.0 == c.schema_version.0 && same_text(
        &existing.candidate.0,
        &c.candidate.0,
    ) && existing.domain == c.domain && same_text(&existing.scope.0, &c.scope.0) && same_text(
        &existing.version.0,
        &c.proposed_version.0,
    ) && same_text(&existing.baseline.0, &c.baseline.0) && same_evidence(
        &existing.evidence,
        &c.evidence,
    ) && existing.conflicts.len() == 0 && match existing.state {
        StrategyMemoryCandidateState::Candidate => true,
        _ => false,
    } && existing.trusted_lineage == trusted && existing.created_at == e.ts_unix_ms
        && existing.last_changed_at == e.ts_unix_ms;
    proof {
        let n = new_candidate(*c, *e);
        if r {
            assert(view.conflicts =~= Set::<Seq<char>>::empty()) by {
                if exists|x: Seq<char>| view.conflicts.contains(x) {
                    let x = choose|x: Seq<char>| view.conflicts.contains(x);
                    assert(view.conflicts.remove(x).len() < view.conflicts.len());
                }
            }
            assert(view =~= n);
        }
        if view == n {
            assert(view.conflicts.len() == 0);
        }
    }
    r
}

/// `"<prefix><id>"` as a string.
fn prefixed(prefix: &str, id: &String) -> (r: String)
    ensures
        r@ == prefix@ + id@,
{
    let mut chars: Vec<char> = Vec::new();
    crate::memory::push_str_chars(&mut chars, prefix);
    crate::memory::push_str_chars(&mut chars, id.as_str());
    proof {
        assert(chars@ =~= prefix@ + id@);
    }
    crate::digest::string_of_chars(&chars)
}

/// Appends the recommendations for candidate `c` to `out`.
fn recommend(
    c: &StrategyMemoryCandidateProjection,
    retracted: &Vec<EvidenceRef>,
    reevaluated: &Vec<CandidateId>,
    spec: &StrategyMemorySpec,
    now: Timestamp,
    out: &mut Vec<StrategyMemoryRecommendation>,
    Ghost(st): Ghost<StrategyState>,
)
    requires
        lists(retracted@, st.retracted),
        lists(reevaluated@, st.reevaluated),
    ensures
        final(out)@.len() == old(out)@.len() + recommendations_for(*c, st, *spec, now).len(),
        forall|i: int| 0 <= i < old(out)@.len() ==> #[trigger] final(out)@[i] == old(out)@[i],
        forall|j: int|
            0 <= j < recommendations_for(*c, st, *spec, now).len() ==> advises(
                #[trigger] final(out)@[old(out)@.len() + j],
                recommendations_for(*c, st, *spec, now)[j],
            ),
{
    let ghost views = recommendations_for(*c, st, *spec, now);
    let excluded = match c.state {
        StrategyMemoryCandidateState::Rejected => true,
        StrategyMemoryCandidateState::Downgraded => true,
        StrategyMemoryCandidateState::Decayed => true,
        _ => false,
    };
    if !c.trusted_lineage || excluded {
        proof {
            assert(views =~= Seq::<RecommendationView>::empty());
        }
        return;
    }
    let ghost t = triggers_of(*c, st.retracted, *spec, now);
    // Retracted evidence.
    let mut triggers: Vec<EvidenceRef> = Vec::new();
    let mut retracted_any = false;
    let mut i: usize = 0;
    proof {
        assert(lists(triggers@, Set::<Seq<char>>::empty()));
    }
    while i < c.evidence.len()
        invariant
            i <= c.evidence@.len(),
            lists(retracted@, st.retracted),
            lists(
                triggers@,
                Set::new(
                    |x: Seq<char>|
                        exists|j: int| 0 <= j < i && #[trigger] c.evidence@[j].0@ == x && st.retracted.contains(x),
                ),
            ),
            retracted_any == exists|j: int| 0 <= j < i && st.retracted.contains(#[trigger] c.evidence@[j].0@),
        decreases c.evidence@.len() - i,
    {
        let ghost s_before = Set::new(
            |x: Seq<char>|
                exists|j: int| 0 <= j < i && #[trigger] c.evidence@[j].0@ == x && st.retracted.contains(x),
        );
        if check_has_text(retracted, &c.evidence[i].0) {
            retracted_any = true;
            let ghost before = triggers@;
            put_in_order(&mut triggers, c.evidence[i].duplicate());
            proof {
                lemma_lists_after_put(before, triggers@, c.evidence@[i as int], s_before);
                assert(s_before.insert(c.evidence@[i as int].0@) =~= Set::new(
                    |x: Seq<char>|
                        exists|j: int| 0 <= j < i + 1 && #[trigger] c.evidence@[j].0@ == x && st.retracted.contains(x),
                ));
            }
        } else {
            proof {
                assert(s_before =~= Set::new(
                    |x: Seq<char>|
                        exists|j: int| 0 <= j < i + 1 && #[trigger] c.evidence@[j].0@ == x && st.retracted.contains(x),
                ));
            }
        }
        i = i + 1;
    }
    let stale = crate::memory::elapsed_at_least(
        c.last_changed_at,
        spec.envelope.evidence_policy.decay_after,
        now,
    );
    let conflicted = c.conflicts.len() > 0;
    if !retracted_any && !stale && !conflicted {
        proof {
            assert(!evidence_retracted(*c, st.retracted));
            assert(views =~= Seq::<RecommendationView>::empty());
        }
        return;
    }
    let ghost base = Set::new(
        |x: Seq<char>|
            exists|j: int| 0 <= j < c.evidence@.len() && #[trigger] c.evidence@[j].0@ == x && st.retracted.contains(x),
    );
    let ghost with_fresh = if stale { base.insert(freshness_trigger(c.candidate.0@)) } else { base };
    if stale {
        let ghost before = triggers@;
        let fresh = EvidenceRef(prefixed("freshness-expired:", &c.candidate.0));
        let ghost gf = fresh;
        put_in_order(&mut triggers, fresh);
        proof {
            lemma_lists_after_put(before, triggers@, gf, base);
        }
    }
    let mut k: usize = 0;
    if conflicted {
        while k < c.conflicts.len()
            invariant
                k <= c.conflicts@.len(),
                lists(
                    triggers@,
                    with_fresh.union(Set::new(
                        |x: Seq<char>| exists|j: int| 0 <= j < k && x == conflict_trigger(#[trigger] c.conflicts@[j].0@),
                    )),
                ),
            decreases c.conflicts@.len() - k,
        {
            let ghost s_before = with_fresh.union(Set::new(
                |x: Seq<char>| exists|j: int| 0 <= j < k && x == conflict_trigger(#[trigger] c.conflicts@[j].0@),
            ));
            let ghost before = triggers@;
            let item = EvidenceRef(prefixed("conflict:", &c.conflicts[k].0));
            let ghost gi = item;
            put_in_order(&mut triggers, item);
            proof {
                lemma_lists_after_put(before, triggers@, gi, s_before);
                assert(s_before.insert(gi.0@) =~= with_fresh.union(Set::new(
                    |x: Seq<char>| exists|j: int| 0 <= j < k + 1 && x == conflict_trigger(#[trigger] c.conflicts@[j].0@),
                )));
            }
            k = k + 1;
        }
    }
    proof {
        if conflicted {
            assert(with_fresh.union(Set::new(
                |x: Seq<char>| exists|j: int| 0 <= j < k && x == conflict_trigger(#[trigger] c.conflicts@[j].0@),
            )) =~= t);
        } else {
            assert(with_fresh =~= t);
        }
        assert(retracted_any == evidence_retracted(*c, st.retracted));
    }
    let ghost start = out@;
    let ghost first = if !st.reevaluated.contains(c.candidate.0@) {
        seq![RecommendationView::Reevaluate { candidate: c.candidate.0@, triggers: t }]
    } else {
        Seq::empty()
    };
    if !check_has_text(reevaluated, &c.candidate.0) {
        out.push(
            StrategyMemoryRecommendation::Reevaluate {
                candidate: c.candidate.duplicate(),
                triggers: duplicate_all(&triggers),
            },
        );
    }
    let ghost after_first = out@;
    let stable = match c.state {
        StrategyMemoryCandidateState::Stable => true,
        _ => false,
    };
    if stable || c.active {
        let reason = if retracted_any {
            "strategy evidence was retracted".to_string()
        } else if conflicted {
            "strategy candidate conflicts with retained evidence".to_string()
        } else {
            "strategy evidence is stale".to_string()
        };
        proof {
            broadcast use vstd::string::group_string_axioms;
        }
        out.push(
            StrategyMemoryRecommendation::Downgrade {
                candidate: c.candidate.duplicate(),
                reason: crate::primitives::ReasonRef(reason),
            },
        );
    }
    let ghost after_second = out@;
    if c.active && spec.rollback_on_active_evidence_loss {
        out.push(
            StrategyMemoryRecommendation::Rollback {
                domain: c.domain,
                scope: c.scope.duplicate(),
                failed: c.version.duplicate(),
                restored: spec.envelope.rollback_policy.known_good.duplicate(),
                triggers,
            },
        );
    }
    proof {
        assert(views == recommendations_for(*c, st, *spec, now));
        assert(out@.len() == start.len() + views.len());
        assert forall|j: int| 0 <= j < views.len() implies advises(
            #[trigger] out@[start.len() + j],
            views[j],
        ) by {
            assert(out@[start.len() + j] == out@[start.len() + j]);
        }
    }
}

/// Rebuilds strategy memory from stored events.
#[derive(Debug, Clone, Copy, Default)]
pub struct StrategyMemoryProjector;

impl StrategyMemoryProjector {
    /// Strategy candidates in identity order with their conflicts, states and
    /// activity, the lineage of trusted candidates, the retracted evidence,
    /// and the maintenance recommended for each candidate in turn.
    pub fn rebuild(&self, events: &[StoredEvent], spec: &StrategyMemorySpec, now: Timestamp) -> (r:
        Result<StrategyMemorySnapshot, Error>)
        ensures
            r is Err <==> strategy_refused(events@, *spec, now),
            r matches Ok(snap) ==> strategy_snapshot(snap, events@, *spec, now),
    {
        if let Err(err) = spec.validate() {
            return Err(err);
        }
        let mut z: usize = 0;
        while z < events.len()
            invariant
                z <= events@.len(),
                forall|i: int| 0 <= i < z ==> #[trigger] events@[i].stream_seq != 0,
            decreases events@.len() - z,
        {
            if events[z].stream_seq == 0 {
                return Err(
                    Error(
                        "strategy memory projection requires sequenced events and a valid clock".to_string(),
                    ),
                );
            }
            z = z + 1;
        }
        if now <= 0 {
            return Err(
                Error(
                    "strategy memory projection requires sequenced events and a valid clock".to_string(),
                ),
            );
        }
        let max = spec.maximum_derived_edges;
        let mut cands: Vec<StrategyMemoryCandidateProjection> = Vec::new();
        let mut edges: Vec<StrategyMemoryLineageEdge> = Vec::new();
        let mut retracted: Vec<EvidenceRef> = Vec::new();
        let mut reevaluated: Vec<CandidateId> = Vec::new();
        let mut active: Option<StrategyVersionRef> = None;
        let mut k: usize = 0;
        proof {
            assert(events@.take(0) =~= Seq::<StoredEvent>::empty());
            assert(lists(retracted@, Set::<Seq<char>>::empty()));
            assert(lists(reevaluated@, Set::<Seq<char>>::empty()));
        }
        while k < events.len()
            invariant
                k <= events@.len(),
                max == spec.maximum_derived_edges,
                !strategy_fold(events@.take(k as int), *spec).failed,
                lists_candidates(cands@, strategy_fold(events@.take(k as int), *spec).candidates),
                forall|i: int| 0 <= i < cands@.len() ==> !(#[trigger] cands@[i]).active,
                lists_edges(edges@, strategy_fold(events@.take(k as int), *spec).lineage),
                lists(retracted@, strategy_fold(events@.take(k as int), *spec).retracted),
                lists(reevaluated@, strategy_fold(events@.take(k as int), *spec).reevaluated),
                (match active {
                    Some(v) => strategy_fold(events@.take(k as int), *spec).active == Some(v.0@),
                    None => strategy_fold(events@.take(k as int), *spec).active is None,
                }),
            decreases events@.len() - k,
        {
            let e = &events[k];
            let ghost st = strategy_fold(events@.take(k as int), *spec);
            let ghost st2 = strategy_step(st, *e, *spec);
            proof {
                assert(events@.take(k + 1).drop_last() =~= events@.take(k as int));
                assert(events@.take(k + 1).last() == *e);
                assert(strategy_fold(events@.take(k + 1), *spec) == st2);
            }
            let auth = is_authoritative(&e.provenance);
            match &e.payload {
                MemoryPayload::CandidateCreated {
                    candidate_id,
                    evidence_refs,
                    provenance,
                    target_tier,
                    strategy_candidate,
                    ..
                } => {
                    match strategy_candidate {
                        None => {},
                        Some(c) => {
                            let checked = c.validate();
                            if checked.is_err() || !same_text(&candidate_id.0, &c.candidate.0)
                                || !same_evidence(evidence_refs, &c.evidence) || *target_tier
                                != c.target_tier || !same_provenance(provenance, &c.provenance) {
                                proof {
                                    lemma_failed_stays(events@, *spec, k + 1, events@.len() as int);
                                    assert(events@.take(events@.len() as int) =~= events@);
                                }
                                return match checked {
                                    Err(err) => Err(err),
                                    Ok(()) => Err(
                                        Error(
                                            "strategy memory candidate envelope does not match its event payload".to_string(),
                                        ),
                                    ),
                                };
                            }
                            if c.domain == StrategyDomain::StrategyMemory && same_text(
                                &c.scope.0,
                                &spec.envelope.scope.0,
                            ) {
                                if c.schema_version.0 != spec.envelope.schema_version.0 {
                                    proof {
                                        lemma_failed_stays(events@, *spec, k + 1, events@.len() as int);
                                        assert(events@.take(events@.len() as int) =~= events@);
                                    }
                                    return Err(
                                        Error(
                                            "strategy memory candidate requires an explicit additive schema reader".to_string(),
                                        ),
                                    );
                                }
                                if c.evidence.len() > max as usize {
                                    proof {
                                        lemma_failed_stays(events@, *spec, k + 1, events@.len() as int);
                                        assert(events@.take(events@.len() as int) =~= events@);
                                    }
                                    return Err(
                                        Error(
                                            "strategy memory candidate exceeds its bounded evidence lineage".to_string(),
                                        ),
                                    );
                                }
                                let ghost v = new_candidate(*c, *e);
                                match find_text(&cands, &c.candidate.0) {
                                    Some(i) => {
                                        proof {
                                            assert(st.candidates.contains_key(v.candidate));
                                        }
                                        if !same_as_new(
                                            &cands[i],
                                            c,
                                            e,
                                            auth,
                                            Ghost(st.candidates[v.candidate]),
                                        ) {
                                            proof {
                                                lemma_failed_stays(events@, *spec, k + 1, events@.len() as int);
                                                assert(events@.take(events@.len() as int) =~= events@);
                                            }
                                            return Err(
                                                Error(
                                                    "strategy memory candidate id maps to different content".to_string(),
                                                ),
                                            );
                                        }
                                    },
                                    None => {
                                        proof {
                                            assert(!st.candidates.contains_key(v.candidate));
                                        }
                                        if auth {
                                            let mut j: usize = 0;
                                            proof {
                                                assert(st.lineage.union(evidence_edges(v.evidence.take(0), v.candidate)) =~= st.lineage);
                                            }
                                            while j < c.evidence.len()
                                                invariant
                                                    j <= c.evidence@.len(),
                                                    v == new_candidate(*c, *e),
                                                    lists_edges(
                                                        edges@,
                                                        st.lineage.union(
                                                            evidence_edges(v.evidence.take(j as int), v.candidate),
                                                        ),
                                                    ),
                                                decreases c.evidence@.len() - j,
                                            {
                                                let ghost s_before = st.lineage.union(
                                                    evidence_edges(v.evidence.take(j as int), v.candidate),
                                                );
                                                let edge = StrategyMemoryLineageEdge {
                                                    evidence: c.evidence[j].duplicate(),
                                                    candidate: c.candidate.duplicate(),
                                                };
                                                let ghost ge = edge;
                                                put_edge(&mut edges, edge, Ghost(s_before));
                                                proof {
                                                    assert(v.evidence[j as int] == c.evidence@[j as int].0@);
                                                    assert(s_before.insert(edge_pair(ge)) =~= st.lineage.union(
                                                        evidence_edges(v.evidence.take(j + 1), v.candidate),
                                                    )) by {
                                                        assert forall|p: (Seq<char>, Seq<char>)| #[trigger] evidence_edges(v.evidence.take(j + 1), v.candidate).contains(p)
                                                            implies s_before.insert(edge_pair(ge)).contains(p) by {
                                                            let w = choose|w: int| 0 <= w < j + 1 && #[trigger] v.evidence.take(j + 1)[w] == p.0;
                                                            if w < j {
                                                                assert(v.evidence.take(j as int)[w] == p.0);
                                                                assert(evidence_edges(v.evidence.take(j as int), v.candidate).contains(p));
                                                            }
                                                        }
                                                        assert forall|p: (Seq<char>, Seq<char>)| #[trigger] evidence_edges(v.evidence.take(j as int), v.candidate).contains(p)
                                                            implies evidence_edges(v.evidence.take(j + 1), v.candidate).contains(p) by {
                                                            let w = choose|w: int| 0 <= w < j && #[trigger] v.evidence.take(j as int)[w] == p.0;
                                                            assert(v.evidence.take(j + 1)[w] == p.0);
                                                        }
                                                        assert(v.evidence.take(j + 1)[j as int] == v.evidence[j as int]);
                                                    }
                                                }
                                                j = j + 1;
                                            }
                                            proof {
                                                assert(v.evidence.take(c.evidence@.len() as int) =~= v.evidence);
                                            }
                                        } else {
                                            proof {
                                                assert(!v.trusted_lineage);
                                            }
                                        }
                                        let projected = projection_of(c, e, auth);
                                        let ghost gp = projected;
                                        let ghost before = cands@;
                                        put_in_order(&mut cands, projected);
                                        proof {
                                            lemma_candidates_after_put(before, cands@, gp, v, st.candidates);
                                            assert forall|i: int| 0 <= i < cands@.len() implies !(#[trigger] cands@[i]).active by {
                                                if cands@[i] != gp {
                                                    let w = choose|w: int| 0 <= w < before.len() && before[w] == cands@[i];
                                                }
                                            }
                                        }
                                    },
                                }
                            }
                        },
                    }
                },
                MemoryPayload::CandidateConflictDetected { candidate_id, conflict_with } => {
                    if auth {
                        let ghost m0 = st.candidates;
                        let ghost before = cands@;
                        let first = add_conflict(&mut cands, candidate_id, conflict_with, max, Ghost(m0));
                        if !first {
                            proof {
                                lemma_failed_stays(events@, *spec, k + 1, events@.len() as int);
                                assert(events@.take(events@.len() as int) =~= events@);
                            }
                            return Err(
                                Error(
                                    "strategy memory conflict graph exceeds its bounded edge limit".to_string(),
                                ),
                            );
                        }
                        let ghost m1 = conflict_added(m0, candidate_id.0@, conflict_with.0@);
                        let second = add_conflict(&mut cands, conflict_with, candidate_id, max, Ghost(m1));
                        if !second {
                            proof {
                                lemma_failed_stays(events@, *spec, k + 1, events@.len() as int);
                                assert(events@.take(events@.len() as int) =~= events@);
                            }
                            return Err(
                                Error(
                                    "strategy memory conflict graph exceeds its bounded edge limit".to_string(),
                                ),
                            );
                        }
                    }
                },
                MemoryPayload::CandidatePromoted { candidate_id } => {
                    if auth {
                        move_candidate(&mut cands, candidate_id, StrategyMemoryCandidateState::Stable, e.ts_unix_ms, Ghost(st.candidates));
                    }
                },
                MemoryPayload::CandidateRejected { candidate_id } => {
                    if auth {
                        move_candidate(&mut cands, candidate_id, StrategyMemoryCandidateState::Rejected, e.ts_unix_ms, Ghost(st.candidates));
                    }
                },
                MemoryPayload::CandidateDowngraded { candidate_id } => {
                    if auth {
                        move_candidate(&mut cands, candidate_id, StrategyMemoryCandidateState::Downgraded, e.ts_unix_ms, Ghost(st.candidates));
                    }
                },
                MemoryPayload::CandidateDecayed { candidate_id } => {
                    if auth {
                        move_candidate(&mut cands, candidate_id, StrategyMemoryCandidateState::Decayed, e.ts_unix_ms, Ghost(st.candidates));
                    }
                },
                MemoryPayload::RetractionEvent { target_object } => {
                    if auth {
                        let ghost before = retracted@;
                        let item = EvidenceRef(target_object.0.clone());
                        let ghost gi = item;
                        put_in_order(&mut retracted, item);
                        proof {
                            lemma_lists_after_put(before, retracted@, gi, st.retracted);
                        }
                    }
                },
                MemoryPayload::ReevaluationTaskCreated { derived_refs } => {
                    if auth {
                        let mut j: usize = 0;
                        proof {
                            assert(st.reevaluated.union(texts_of(derived_refs@.take(0)).to_set()) =~= st.reevaluated);
                        }
                        while j < derived_refs.len()
                            invariant
                                j <= derived_refs@.len(),
                                lists(reevaluated@, st.reevaluated.union(texts_of(derived_refs@.take(j as int)).to_set())),
                            decreases derived_refs@.len() - j,
                        {
                            let ghost s_before = st.reevaluated.union(texts_of(derived_refs@.take(j as int)).to_set());
                            let ghost before = reevaluated@;
                            let item = CandidateId(derived_refs[j].0.clone());
                            let ghost gi = item;
                            put_in_order(&mut reevaluated, item);
                            proof {
                                lemma_lists_after_put(before, reevaluated@, gi, s_before);
                                assert(texts_of(derived_refs@.take(j + 1)) =~= texts_of(derived_refs@.take(j as int)).push(derived_refs@[j as int].0@));
                                let t0 = texts_of(derived_refs@.take(j as int));
                                let t1 = texts_of(derived_refs@.take(j + 1));
                                assert(t1 =~= t0.push(gi.0@));
                                assert forall|y: Seq<char>| t1.to_set().contains(y) <==> (t0.to_set().contains(y) || y == gi.0@) by {
                                    if t1.contains(y) {
                                        let w = choose|w: int| 0 <= w < t1.len() && t1[w] == y;
                                        if w < t0.len() {
                                            assert(t0[w] == y);
                                        }
                                    }
                                    if t0.contains(y) {
                                        let w = choose|w: int| 0 <= w < t0.len() && t0[w] == y;
                                        assert(t1[w] == y);
                                    }
                                    if y == gi.0@ {
                                        assert(t1[t0.len() as int] == y);
                                    }
                                }
                                assert(s_before.insert(gi.0@) =~= st.reevaluated.union(t1.to_set()));
                            }
                            j = j + 1;
                        }
                        proof {
                            assert(derived_refs@.take(derived_refs@.len() as int) =~= derived_refs@);
                        }
                    }
                },
                MemoryPayload::StrategyActivated { activation, active_snapshot } => {
                    if auth {
                        let checked = activation.validate();
                        if checked.is_err() || blank(active_snapshot.0.as_str()) {
                            proof {
                                lemma_failed_stays(events@, *spec, k + 1, events@.len() as int);
                                assert(events@.take(events@.len() as int) =~= events@);
                            }
                            return match checked {
                                Err(err) => Err(err),
                                Ok(()) => Err(Error("strategy memory activation has no active snapshot".to_string())),
                            };
                        }
                        if activation.domain == StrategyDomain::StrategyMemory && same_text(
                            &activation.scope.0,
                            &spec.envelope.scope.0,
                        ) {
                            active = Some(activation.to.duplicate());
                        }
                    }
                },
                MemoryPayload::StrategyRolledBack { rollback, active_snapshot } => {
                    if auth {
                        let checked = rollback.validate();
                        if checked.is_err() || blank(active_snapshot.0.as_str()) {
                            proof {
                                lemma_failed_stays(events@, *spec, k + 1, events@.len() as int);
                                assert(events@.take(events@.len() as int) =~= events@);
                            }
                            return match checked {
                                Err(err) => Err(err),
                                Ok(()) => Err(Error("strategy memory rollback has no active snapshot".to_string())),
                            };
                        }
                        if rollback.domain == StrategyDomain::StrategyMemory && same_text(
                            &rollback.scope.0,
                            &spec.envelope.scope.0,
                        ) {
                            active = Some(rollback.restored.duplicate());
                        }
                    }
                },
                _ => {},
            }
            k = k + 1;
        }
        proof {
            assert(events@.take(k as int) =~= events@);
        }
        let ghost st = strategy_fold(events@, *spec);
        // Mark the active candidates.
        let ghost unmarked = cands@;
        let mut i: usize = 0;
        while i < cands.len()
            invariant
                i <= cands@.len(),
                cands@.len() == unmarked.len(),
                st == strategy_fold(events@, *spec),
                (match active {
                    Some(v) => st.active == Some(v.0@),
                    None => st.active is None,
                }),
                forall|j: int| 0 <= j < i ==> #[trigger] cands@[j] == (StrategyMemoryCandidateProjection {
                    active: st.active == Some(unmarked[j].version.0@),
                    ..unmarked[j]
                }),
                forall|j: int| i <= j < cands@.len() ==> #[trigger] cands@[j] == unmarked[j],
            decreases cands@.len() - i,
        {
            let mut c = cands.remove(i);
            c.active = match &active {
                Some(v) => same_text(&v.0, &c.version.0),
                None => false,
            };
            cands.insert(i, c);
            proof {
                assert forall|j: int| 0 <= j < i + 1 implies #[trigger] cands@[j] == (StrategyMemoryCandidateProjection {
                    active: st.active == Some(unmarked[j].version.0@),
                    ..unmarked[j]
                }) by {
                    if j < i {
                    }
                }
            }
            i = i + 1;
        }
        proof {
            assert forall|j: int| 0 <= j < cands@.len() implies cands@[j].text() == unmarked[j].text() by {}
            lemma_marked_lists(unmarked, cands@, st.candidates, st.active);
        }
        // Recommend maintenance, candidate by candidate.
        let mut recommendations: Vec<StrategyMemoryRecommendation> = Vec::new();
        let mut i: usize = 0;
        proof {
            assert(cands@.take(0) =~= Seq::<StrategyMemoryCandidateProjection>::empty());
        }
        while i < cands.len()
            invariant
                i <= cands@.len(),
                st == strategy_fold(events@, *spec),
                lists(retracted@, st.retracted),
                lists(reevaluated@, st.reevaluated),
                states(recommendations@, recommendations_of(cands@.take(i as int), st, *spec, now)),
            decreases cands@.len() - i,
        {
            let ghost before = recommendations@;
            let ghost prior = recommendations_of(cands@.take(i as int), st, *spec, now);
            recommend(&cands[i], &retracted, &reevaluated, spec, now, &mut recommendations, Ghost(st));
            proof {
                let t = cands@.take(i + 1);
                assert(t.drop_last() =~= cands@.take(i as int));
                assert(t.last() == cands@[i as int]);
                let added = recommendations_for(cands@[i as int], st, *spec, now);
                assert(recommendations_of(t, st, *spec, now) == prior + added);
                assert forall|x: int| 0 <= x < recommendations@.len() implies advises(
                    #[trigger] recommendations@[x],
                    (prior + added)[x],
                ) by {
                    if x < before.len() {
                        assert(recommendations@[x] == before[x]);
                    } else {
                        assert(recommendations@[before.len() + (x - before.len())] == recommendations@[x]);
                    }
                }
            }
            i = i + 1;
        }
        proof {
            assert(cands@.take(i as int) =~= cands@);
        }
        Ok(
            StrategyMemorySnapshot {
                schema_version: SchemaVersion(1),
                candidates: cands,
                lineage: edges,
                retracted_evidence: retracted,
                recommendations,
            },
        )
    }
}

proof fn lemma_marked_lists(
    unmarked: Seq<StrategyMemoryCandidateProjection>,
    marked: Seq<StrategyMemoryCandidateProjection>,
    m: Map<Seq<char>, CandidateView>,
    active: Option<Seq<char>>,
)
    requires
        lists_candidates(unmarked, m),
        marked.len() == unmarked.len(),
        forall|j: int| 0 <= j < marked.len() ==> #[trigger] marked[j] == (StrategyMemoryCandidateProjection {
            active: active == Some(unmarked[j].version.0@),
            ..unmarked[j]
        }),
    ensures
        lists_candidates(marked, m),
        marks_active(marked, active),
{
    assert forall|x: int, y: int| 0 <= x < y < marked.len() implies text_lt(
        #[trigger] marked[x].text(),
        #[trigger] marked[y].text(),
    ) by {
        assert(marked[x].text() == unmarked[x].text());
        assert(marked[y].text() == unmarked[y].text());
    }
    assert forall|i: int| 0 <= i < marked.len() implies m.contains_key(#[trigger] marked[i].text())
        && tracks(marked[i], m[marked[i].text()]) by {
        assert(marked[i].text() == unmarked[i].text());
    }
    assert forall|t: Seq<char>| m.contains_key(t) implies has_text(marked, t) by {
        assert(has_text(unmarked, t));
        let j = choose|j: int| 0 <= j < unmarked.len() && #[trigger] unmarked[j].text() == t;
        assert(marked[j].text() == t);
    }
}

proof fn lemma_recommendations_of_include(
    v: Seq<StrategyMemoryCandidateProjection>,
    st: StrategyState,
    spec: StrategyMemorySpec,
    now: Timestamp,
    k: int,
    m: int,
)
    requires
        0 <= k < v.len(),
        0 <= m < recommendations_for(v[k], st, spec, now).len(),
    ensures
        exists|i: int|
            0 <= i < recommendations_of(v, st, spec, now).len() && #[trigger] recommendations_of(
                v,
                st,
                spec,
                now,
            )[i] == recommendations_for(v[k], st, spec, now)[m],
    decreases v.len(),
{
    let prev = recommendations_of(v.drop_last(), st, spec, now);
    let all = recommendations_of(v, st, spec, now);
    if k == v.len() - 1 {
        assert(all[prev.len() + m] == recommendations_for(v[k], st, spec, now)[m]);
    } else {
        assert(v.drop_last()[k] == v[k]);
        lemma_recommendations_of_include(v.drop_last(), st, spec, now, k, m);
        let i = choose|i: int| 0 <= i < prev.len() && #[trigger] prev[i] == recommendations_for(v[k], st, spec, now)[m];
        assert(all[i] == prev[i]);
    }
}

/// A trusted candidate that is stable or active, still standing, and has
/// lost evidence, gone stale or met a conflict is recommended for a
/// downgrade, whether or not it is the active version; when its evidence
/// was retracted, that is the reason given.
pub proof fn lemma_stable_or_active_candidate_in_trouble_is_downgraded(
    events: Seq<StoredEvent>,
    spec: StrategyMemorySpec,
    now: Timestamp,
    snap: StrategyMemorySnapshot,
    k: int,
)
    requires
        strategy_snapshot(snap, events, spec, now),
        0 <= k < snap.candidates@.len(),
        snap.candidates@[k].state == StrategyMemoryCandidateState::Stable || snap.candidates@[k].active,
        needs_maintenance(snap.candidates@[k], strategy_fold(events, spec).retracted, spec, now),
    ensures
        exists|i: int|
            0 <= i < snap.recommendations@.len() && (#[trigger] snap.recommendations@[i] matches StrategyMemoryRecommendation::Downgrade {
                candidate,
                reason,
            } && candidate.0@ == snap.candidates@[k].candidate.0@ && (evidence_retracted(
                snap.candidates@[k],
                strategy_fold(events, spec).retracted,
            ) ==> reason.0@ == "strategy evidence was retracted"@)),
{
    let st = strategy_fold(events, spec);
    let c = snap.candidates@[k];
    let recs = recommendations_for(c, st, spec, now);
    let t = triggers_of(c, st.retracted, spec, now);
    let first = if !st.reevaluated.contains(c.candidate.0@) {
        seq![RecommendationView::Reevaluate { candidate: c.candidate.0@, triggers: t }]
    } else {
        Seq::<RecommendationView>::empty()
    };
    let m = first.len() as int;
    assert(recs[m] matches RecommendationView::Downgrade { candidate, .. } && candidate == c.candidate.0@);
    lemma_recommendations_of_include(snap.candidates@, st, spec, now, k, m);
    let views = recommendations_of(snap.candidates@, st, spec, now);
    let i = choose|i: int| 0 <= i < views.len() && #[trigger] views[i] == recs[m];
    assert(advises(snap.recommendations@[i], views[i]));
}

} // verus!
