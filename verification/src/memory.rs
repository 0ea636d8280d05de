//! Memory state rules: time slices, node and edge kinds with their stored
//! labels, scope containment between memory scopes, the candidate and
//! intention lifecycles, and the decision whether a long-term goal continues.
use vstd::prelude::*;

use crate::m2_c::{GoalIntentionResolution, GoalLineageSnapshot};
use crate::canon::Named;
use crate::digest::string_of_chars;
use crate::models::decimal_text;
use crate::event::EventKind;
use crate::m2_c::CapabilityUpdateProposal;
use crate::primitives::{
    ActionType, Actor, DecisionActor, ApprovalRule, CandidateId, CandidateTargetRef, Confidence, ContentRef,
    DurationMs, EdgeId, Error, EventId, EvidenceRef, FeedbackRef, HistoricalSourceRef, IntentionId, IntentionSource,
    IntentionTriggerRef, InterventionLevel, MemoryDeltasRef, NodeId, Provenance, ReasonRef, RestingActivation, Risk,
    SchemaDigest, SchemaVersion, Scope, SeedRef, StabilityTier, Timestamp, TrustTier,
    UserAttributeRef, UserAttributeValueRef, Weight, WorkspaceRef,
};
use crate::text::{
    ascii_lower, blank, contains_text, is_blank, lowered_contains, same_text, str_equal, Duplicate,
};

verus! {

#[derive(Debug, Clone, Copy, PartialEq, Eq, Hash, Structural)]
pub enum TimeSlice {
    Session,
    Daily,
    LongTerm,
}

/// The label of a time slice.
pub open spec fn time_slice_label(x: TimeSlice) -> Seq<char> {
    match x {
        TimeSlice::Session => "session"@,
        TimeSlice::Daily => "daily"@,
        TimeSlice::LongTerm => "long-term"@,
    }
}

/// What a stored label reads back as.
pub open spec fn time_slice_from_label(value: Seq<char>) -> Option<TimeSlice> {
    if value == "session"@ {
        Some(TimeSlice::Session)
    } else if value == "daily"@ {
        Some(TimeSlice::Daily)
    } else if value == "long-term"@ {
        Some(TimeSlice::LongTerm)
    } else {
        None
    }
}

impl TimeSlice {
    pub fn as_str(self) -> (r: &'static str)
        ensures
            r@ == time_slice_label(self),
    {
        match self {
            TimeSlice::Session => "session",
            TimeSlice::Daily => "daily",
            TimeSlice::LongTerm => "long-term",
        }
    }

    pub fn parse(value: &str) -> (r: Option<TimeSlice>)
        ensures
            r == time_slice_from_label(value@),
    {
        if str_equal(value, "session") {
            Some(TimeSlice::Session)
        } else if str_equal(value, "daily") {
            Some(TimeSlice::Daily)
        } else if str_equal(value, "long-term") {
            Some(TimeSlice::LongTerm)
        } else {
            None
        }
    }
}

/// Every label reads back as what it labels.
pub proof fn lemma_time_slice_label_round_trip(x: TimeSlice)
    ensures
        time_slice_from_label(time_slice_label(x)) == Some(x),
{
    reveal_strlit("session");
    reveal_strlit("daily");
    reveal_strlit("long-term");
    assert("daily"@.len() != "session"@.len());
    assert("daily"@.len() != "long-term"@.len());
    assert("long-term"@.len() != "session"@.len());
}

#[derive(Debug, Clone, Copy, PartialEq, Eq, Hash, Structural)]
pub enum NodeKind {
    Event,
    Episodic,
    Reflection,
    Fact,
    Attribute,
    Goal,
    CognitiveObjectRef,
}

/// The label of a node kind; unknown labels read as facts.
pub open spec fn node_kind_label(x: NodeKind) -> Seq<char> {
    match x {
        NodeKind::Event => "event"@,
        NodeKind::Episodic => "episodic"@,
        NodeKind::Reflection => "reflection"@,
        NodeKind::Fact => "fact"@,
        NodeKind::Attribute => "attribute"@,
        NodeKind::Goal => "goal"@,
        NodeKind::CognitiveObjectRef => "cognitive-object-ref"@,
    }
}

/// What a stored label reads back as.
pub open spec fn node_kind_from_label(value: Seq<char>) -> NodeKind {
    if value == "event"@ {
        NodeKind::Event
    } else if value == "episodic"@ {
        NodeKind::Episodic
    } else if value == "reflection"@ {
        NodeKind::Reflection
    } else if value == "attribute"@ {
        NodeKind::Attribute
    } else if value == "goal"@ {
        NodeKind::Goal
    } else if value == "cognitive-object-ref"@ {
        NodeKind::CognitiveObjectRef
    } else {
        NodeKind::Fact
    }
}

impl NodeKind {
    pub fn as_str(self) -> (r: &'static str)
        ensures
            r@ == node_kind_label(self),
    {
        match self {
            NodeKind::Event => "event",
            NodeKind::Episodic => "episodic",
            NodeKind::Reflection => "reflection",
            NodeKind::Fact => "fact",
            NodeKind::Attribute => "attribute",
            NodeKind::Goal => "goal",
            NodeKind::CognitiveObjectRef => "cognitive-object-ref",
        }
    }

    pub fn parse(value: &str) -> (r: NodeKind)
        ensures
            r == node_kind_from_label(value@),
    {
        if str_equal(value, "event") {
            NodeKind::Event
        } else if str_equal(value, "episodic") {
            NodeKind::Episodic
        } else if str_equal(value, "reflection") {
            NodeKind::Reflection
        } else if str_equal(value, "attribute") {
            NodeKind::Attribute
        } else if str_equal(value, "goal") {
            NodeKind::Goal
        } else if str_equal(value, "cognitive-object-ref") {
            NodeKind::CognitiveObjectRef
        } else {
            NodeKind::Fact
        }
    }
}

/// Every label reads back as what it labels.
pub proof fn lemma_node_kind_label_round_trip(x: NodeKind)
    ensures
        node_kind_from_label(node_kind_label(x)) == x,
{
    reveal_strlit("event");
    reveal_strlit("episodic");
    reveal_strlit("reflection");
    reveal_strlit("fact");
    reveal_strlit("attribute");
    reveal_strlit("goal");
    reveal_strlit("cognitive-object-ref");
    assert("event"@.len() != "reflection"@.len());
    assert("event"@.len() != "fact"@.len());
    assert("event"@.len() != "goal"@.len());
    assert("episodic"@.len() != "event"@.len());
    assert("episodic"@.len() != "reflection"@.len());
    assert("episodic"@.len() != "fact"@.len());
    assert("episodic"@.len() != "goal"@.len());
    assert("fact"@.len() != "reflection"@.len());
    assert("fact"@[0] != "goal"@[0]);
    assert("attribute"@.len() != "event"@.len());
    assert("attribute"@.len() != "episodic"@.len());
    assert("attribute"@.len() != "reflection"@.len());
    assert("attribute"@.len() != "fact"@.len());
    assert("attribute"@.len() != "goal"@.len());
    assert("attribute"@.len() != "cognitive-object-ref"@.len());
    assert("goal"@.len() != "reflection"@.len());
    assert("cognitive-object-ref"@.len() != "event"@.len());
    assert("cognitive-object-ref"@.len() != "episodic"@.len());
    assert("cognitive-object-ref"@.len() != "reflection"@.len());
    assert("cognitive-object-ref"@.len() != "fact"@.len());
    assert("cognitive-object-ref"@.len() != "goal"@.len());
}

#[derive(Debug, Clone, Copy, PartialEq, Eq, Hash, Structural)]
pub enum EdgeKind {
    Temporal,
    Causal,
    Association,
    Contradicts,
    PartOf,
    Refines,
}

/// The label of an edge kind; unknown labels read as associations.
pub open spec fn edge_kind_label(x: EdgeKind) -> Seq<char> {
    match x {
        EdgeKind::Temporal => "temporal"@,
        EdgeKind::Causal => "causal"@,
        EdgeKind::Association => "association"@,
        EdgeKind::Contradicts => "contradicts"@,
        EdgeKind::PartOf => "part-of"@,
        EdgeKind::Refines => "refines"@,
    }
}

/// What a stored label reads back as.
pub open spec fn edge_kind_from_label(value: Seq<char>) -> EdgeKind {
    if value == "temporal"@ {
        EdgeKind::Temporal
    } else if value == "causal"@ {
        EdgeKind::Causal
    } else if value == "contradicts"@ {
        EdgeKind::Contradicts
    } else if value == "part-of"@ {
        EdgeKind::PartOf
    } else if value == "refines"@ {
        EdgeKind::Refines
    } else {
        EdgeKind::Association
    }
}

impl EdgeKind {
    pub fn as_str(self) -> (r: &'static str)
        ensures
            r@ == edge_kind_label(self),
    {
        match self {
            EdgeKind::Temporal => "temporal",
            EdgeKind::Causal => "causal",
            EdgeKind::Association => "association",
            EdgeKind::Contradicts => "contradicts",
            EdgeKind::PartOf => "part-of",
            EdgeKind::Refines => "refines",
        }
    }

    pub fn parse(value: &str) -> (r: EdgeKind)
        ensures
            r == edge_kind_from_label(value@),
    {
        if str_equal(value, "temporal") {
            EdgeKind::Temporal
        } else if str_equal(value, "causal") {
            EdgeKind::Causal
        } else if str_equal(value, "contradicts") {
            EdgeKind::Contradicts
        } else if str_equal(value, "part-of") {
            EdgeKind::PartOf
        } else if str_equal(value, "refines") {
            EdgeKind::Refines
        } else {
            EdgeKind::Association
        }
    }
}

/// Every label reads back as what it labels.
pub proof fn lemma_edge_kind_label_round_trip(x: EdgeKind)
    ensures
        edge_kind_from_label(edge_kind_label(x)) == x,
{
    reveal_strlit("temporal");
    reveal_strlit("causal");
    reveal_strlit("association");
    reveal_strlit("contradicts");
    reveal_strlit("part-of");
    reveal_strlit("refines");
    assert("causal"@.len() != "temporal"@.len());
    assert("causal"@.len() != "contradicts"@.len());
    assert("causal"@.len() != "part-of"@.len());
    assert("causal"@.len() != "refines"@.len());
    assert("association"@.len() != "temporal"@.len());
    assert("association"@.len() != "causal"@.len());
    assert("association"@[0] != "contradicts"@[0]);
    assert("association"@.len() != "part-of"@.len());
    assert("association"@.len() != "refines"@.len());
    assert("contradicts"@.len() != "temporal"@.len());
    assert("contradicts"@.len() != "part-of"@.len());
    assert("contradicts"@.len() != "refines"@.len());
    assert("part-of"@.len() != "temporal"@.len());
    assert("part-of"@[0] != "refines"@[0]);
    assert("refines"@.len() != "temporal"@.len());
}

/// A memory scope: a time slice, an optional workspace and a scope label.
#[derive(Debug, Clone, PartialEq, Eq)]
pub struct MemoryScope {
    pub schema_version: SchemaVersion,
    pub slice: TimeSlice,
    pub workspace: Option<WorkspaceRef>,
    pub scope: Scope,
}

/// How wide a time slice reaches: session, then daily, then long-term.
pub open spec fn slice_rank(slice: TimeSlice) -> nat {
    match slice {
        TimeSlice::Session => 1,
        TimeSlice::Daily => 2,
        TimeSlice::LongTerm => 3,
    }
}

fn slice_rank_of(slice: TimeSlice) -> (r: u8)
    ensures
        r == slice_rank(slice),
{
    match slice {
        TimeSlice::Session => 1,
        TimeSlice::Daily => 2,
        TimeSlice::LongTerm => 3,
    }
}

/// The same workspace, or none on both sides.
pub open spec fn same_workspace(a: Option<WorkspaceRef>, b: Option<WorkspaceRef>) -> bool {
    match (a, b) {
        (Some(x), Some(y)) => x.0@ == y.0@,
        (None, None) => true,
        _ => false,
    }
}

/// `requester` may read `target`: the same workspace, a slice at least as
/// wide, and the same scope label or one it is a `:`/`/`-separated prefix of.
pub open spec fn memory_scope_covers(requester: MemoryScope, target: MemoryScope) -> bool {
    let r = requester.scope.0@;
    let t = target.scope.0@;
    &&& same_workspace(requester.workspace, target.workspace)
    &&& slice_rank(requester.slice) >= slice_rank(target.slice)
    &&& (r == t || (r.len() < t.len() && t.subrange(0, r.len() as int) == r && (t[r.len() as int]
        == ':' || t[r.len() as int] == '/')))
}

pub fn memory_scope_contains(requester: &MemoryScope, target: &MemoryScope) -> (r: bool)
    ensures
        r == memory_scope_covers(*requester, *target),
{
    let same = match (&requester.workspace, &target.workspace) {
        (Some(x), Some(y)) => same_text(&x.0, &y.0),
        (None, None) => true,
        _ => false,
    };
    if !same || slice_rank_of(requester.slice) < slice_rank_of(target.slice) {
        return false;
    }
    if same_text(&requester.scope.0, &target.scope.0) {
        return true;
    }
    let g = requester.scope.0.as_str();
    let q = target.scope.0.as_str();
    let n = g.unicode_len();
    let m = q.unicode_len();
    if n >= m {
        return false;
    }
    let mut i: usize = 0;
    while i < n
        invariant
            n == g@.len(),
            m == q@.len(),
            n < m,
            i <= n,
            g@ == requester.scope.0@,
            q@ == target.scope.0@,
            g@ != q@,
            same_workspace(requester.workspace, target.workspace),
            slice_rank(requester.slice) >= slice_rank(target.slice),
            forall|j: int| 0 <= j < i ==> q@[j] == g@[j],
        decreases n - i,
    {
        if q.get_char(i) != g.get_char(i) {
            proof {
                assert(q@.subrange(0, n as int)[i as int] == q@[i as int]);
                assert(q@.subrange(0, n as int) != g@);
            }
            return false;
        }
        i = i + 1;
    }
    assert(q@.subrange(0, n as int) =~= g@);
    let c = q.get_char(n);
    c == ':' || c == '/'
}

#[derive(Debug, Clone, Copy, PartialEq, Eq, Hash, Structural)]
pub enum ActivationShape {
    Association,
    Change,
    Pressure,
    Gap,
    Tension,
}

#[derive(Debug, Clone, Copy, PartialEq, Eq, Hash, Structural)]
pub enum CandidateState {
    Candidate,
    Promoted,
    Rejected,
    Downgraded,
    Decayed,
}

/// The moves a memory candidate may make: from candidate to any decision,
/// from promoted down, and from downgraded back up or to decay.
pub open spec fn candidate_step(from: CandidateState, to: CandidateState) -> bool {
    match (from, to) {
        (CandidateState::Candidate, CandidateState::Promoted) => true,
        (CandidateState::Candidate, CandidateState::Rejected) => true,
        (CandidateState::Candidate, CandidateState::Downgraded) => true,
        (CandidateState::Candidate, CandidateState::Decayed) => true,
        (CandidateState::Promoted, CandidateState::Downgraded) => true,
        (CandidateState::Downgraded, CandidateState::Promoted) => true,
        (CandidateState::Downgraded, CandidateState::Decayed) => true,
        _ => false,
    }
}

pub fn valid_candidate_transition(from: CandidateState, to: CandidateState) -> (r: bool)
    ensures
        r == candidate_step(from, to),
{
    match (from, to) {
        (CandidateState::Candidate, CandidateState::Promoted) => true,
        (CandidateState::Candidate, CandidateState::Rejected) => true,
        (CandidateState::Candidate, CandidateState::Downgraded) => true,
        (CandidateState::Candidate, CandidateState::Decayed) => true,
        (CandidateState::Promoted, CandidateState::Downgraded) => true,
        (CandidateState::Downgraded, CandidateState::Promoted) => true,
        (CandidateState::Downgraded, CandidateState::Decayed) => true,
        _ => false,
    }
}

/// Rejected and decayed candidates are final, no move stays in place, and
/// nothing returns to being a bare candidate.
pub proof fn lemma_candidate_final_states(from: CandidateState, to: CandidateState)
    ensures
        from == CandidateState::Rejected ==> !candidate_step(from, to),
        from == CandidateState::Decayed ==> !candidate_step(from, to),
        candidate_step(from, to) ==> from != to,
        to == CandidateState::Candidate ==> !candidate_step(from, to),
{
}

#[derive(Debug, Clone, Copy, PartialEq, Eq, Hash, Structural)]
pub enum IntentionState {
    Pending,
    Fired,
    Done,
    Expired,
    Cancelled,
}

#[derive(Debug, Clone, Copy, PartialEq, Eq, Hash, Structural)]
pub enum IntentionOutcome {
    Fired,
    Done,
    Expired,
    Cancelled,
}

/// The state an intention is left in by an outcome.
pub open spec fn outcome_state(outcome: IntentionOutcome) -> IntentionState {
    match outcome {
        IntentionOutcome::Fired => IntentionState::Fired,
        IntentionOutcome::Done => IntentionState::Done,
        IntentionOutcome::Expired => IntentionState::Expired,
        IntentionOutcome::Cancelled => IntentionState::Cancelled,
    }
}

pub fn intention_state(outcome: IntentionOutcome) -> (r: IntentionState)
    ensures
        r == outcome_state(outcome),
{
    match outcome {
        IntentionOutcome::Fired => IntentionState::Fired,
        IntentionOutcome::Done => IntentionState::Done,
        IntentionOutcome::Expired => IntentionState::Expired,
        IntentionOutcome::Cancelled => IntentionState::Cancelled,
    }
}

/// The moves an intention may make: a pending one fires, expires or is
/// cancelled; a fired one may fire again or end as done, expired or cancelled.
pub open spec fn intention_step(from: IntentionState, to: IntentionState) -> bool {
    match (from, to) {
        (IntentionState::Pending, IntentionState::Fired) => true,
        (IntentionState::Pending, IntentionState::Expired) => true,
        (IntentionState::Pending, IntentionState::Cancelled) => true,
        (IntentionState::Fired, IntentionState::Fired) => true,
        (IntentionState::Fired, IntentionState::Done) => true,
        (IntentionState::Fired, IntentionState::Expired) => true,
        (IntentionState::Fired, IntentionState::Cancelled) => true,
        _ => false,
    }
}

pub fn valid_intention_transition(from: IntentionState, to: IntentionState) -> (r: bool)
    ensures
        r == intention_step(from, to),
{
    match (from, to) {
        (IntentionState::Pending, IntentionState::Fired) => true,
        (IntentionState::Pending, IntentionState::Expired) => true,
        (IntentionState::Pending, IntentionState::Cancelled) => true,
        (IntentionState::Fired, IntentionState::Fired) => true,
        (IntentionState::Fired, IntentionState::Done) => true,
        (IntentionState::Fired, IntentionState::Expired) => true,
        (IntentionState::Fired, IntentionState::Cancelled) => true,
        _ => false,
    }
}

/// Done, expired and cancelled intentions are final; nothing returns to
/// pending; and an intention only completes after it fired.
pub proof fn lemma_intention_final_states(from: IntentionState, to: IntentionState)
    ensures
        from == IntentionState::Done ==> !intention_step(from, to),
        from == IntentionState::Expired ==> !intention_step(from, to),
        from == IntentionState::Cancelled ==> !intention_step(from, to),
        to == IntentionState::Pending ==> !intention_step(from, to),
        (to == IntentionState::Done && intention_step(from, to)) ==> from == IntentionState::Fired,
{
}

#[derive(Debug, Clone, Copy, PartialEq, Eq, Hash, Structural)]
pub enum EvidencePriority {
    Process,
    Imported,
}

#[derive(Debug, Clone, Copy, PartialEq, Eq, Hash, Structural)]
pub enum TimeScale {
    Session,
    Recent,
    Repeated,
    LongTerm,
}

/// Maps the time scale of evidence to the stability tier it may reach.
#[derive(Debug, Clone, Copy, PartialEq, Eq, Default)]
pub struct TimeScaleTierMap;

pub open spec fn scale_tier(scale: TimeScale) -> StabilityTier {
    match scale {
        TimeScale::Session => StabilityTier::Session,
        TimeScale::Recent => StabilityTier::Working,
        TimeScale::Repeated => StabilityTier::Stable,
        TimeScale::LongTerm => StabilityTier::Stable,
    }
}

impl TimeScaleTierMap {
    pub fn tier(self, scale: TimeScale) -> (r: StabilityTier)
        ensures
            r == scale_tier(scale),
    {
        match scale {
            TimeScale::Session => StabilityTier::Session,
            TimeScale::Recent => StabilityTier::Working,
            TimeScale::Repeated => StabilityTier::Stable,
            TimeScale::LongTerm => StabilityTier::Stable,
        }
    }
}

#[derive(Debug, Clone, Copy, PartialEq, Eq, Hash, Structural)]
pub enum LongTermContinuationDecision {
    YieldToForeground,
    Continue,
    Replan,
    Stop,
}

#[derive(Debug, Clone, PartialEq, Eq)]
pub struct LongTermContinuation {
    pub schema_version: SchemaVersion,
    pub decision: LongTermContinuationDecision,
    pub intention: Option<IntentionId>,
    pub reason: ReasonRef,
}

/// Decides whether a long-term goal continues in the background.
#[derive(Debug, Clone, Copy, Default)]
pub struct LongTermContinuationGuard;

/// An outcome after which an intention is over.
pub open spec fn terminal_outcome(outcome: crate::primitives::IntentionOutcome) -> bool {
    outcome == crate::primitives::IntentionOutcome::Done || outcome
        == crate::primitives::IntentionOutcome::Expired || outcome
        == crate::primitives::IntentionOutcome::Cancelled
}

/// Some resolution ends the intention `id`.
pub open spec fn intention_resolved(resolutions: Seq<GoalIntentionResolution>, id: Seq<char>) -> bool {
    exists|j: int|
        0 <= j < resolutions.len() && #[trigger] resolutions[j].intention.0@ == id
            && terminal_outcome(resolutions[j].outcome)
}

/// The `k`-th intention of the snapshot is still open.
pub open spec fn open_intention_at(snapshot: GoalLineageSnapshot, k: int) -> bool {
    !intention_resolved(snapshot.resolutions@, snapshot.intentions@[k].0@)
}

/// The situation the goal last planned for: that of its latest checkpoint,
/// or the goal's own when there is none.
pub open spec fn planned_situation(snapshot: GoalLineageSnapshot) -> Seq<char> {
    if snapshot.checkpoints@.len() > 0 {
        snapshot.checkpoints@.last().situation_digest.0@
    } else {
        snapshot.goal.situation_digest.0@
    }
}

fn check_intention_resolved(resolutions: &Vec<GoalIntentionResolution>, id: &IntentionId) -> (r: bool)
    ensures
        r == intention_resolved(resolutions@, id.0@),
{
    let mut j: usize = 0;
    while j < resolutions.len()
        invariant
            j <= resolutions.len(),
            forall|m: int|
                0 <= m < j ==> !(#[trigger] resolutions@[m].intention.0@ == id.0@ && terminal_outcome(
                    resolutions@[m].outcome,
                )),
        decreases resolutions.len() - j,
    {
        let r = &resolutions[j];
        let terminal = match r.outcome {
            crate::primitives::IntentionOutcome::Done => true,
            crate::primitives::IntentionOutcome::Expired => true,
            crate::primitives::IntentionOutcome::Cancelled => true,
            crate::primitives::IntentionOutcome::Fired => false,
        };
        if terminal && same_text(&r.intention.0, &id.0) {
            return true;
        }
        j = j + 1;
    }
    false
}

/// The first intention of the snapshot that no resolution has ended.
fn first_open_intention(snapshot: &GoalLineageSnapshot) -> (r: Option<usize>)
    ensures
        r matches Some(k) ==> k < snapshot.intentions@.len() && open_intention_at(*snapshot, k as int)
            && forall|m: int| 0 <= m < k ==> !open_intention_at(*snapshot, m),
        r is None ==> forall|m: int|
            0 <= m < snapshot.intentions@.len() ==> !open_intention_at(*snapshot, m),
{
    let mut k: usize = 0;
    while k < snapshot.intentions.len()
        invariant
            k <= snapshot.intentions@.len(),
            forall|m: int| 0 <= m < k ==> !open_intention_at(*snapshot, m),
        decreases snapshot.intentions.len() - k,
    {
        if !check_intention_resolved(&snapshot.resolutions, &snapshot.intentions[k]) {
            return Some(k);
        }
        k = k + 1;
    }
    None
}

fn continuation(
    decision: LongTermContinuationDecision,
    intention: Option<IntentionId>,
    reason: &str,
) -> (r: LongTermContinuation)
    ensures
        r.schema_version == SchemaVersion(1),
        r.decision == decision,
        r.intention == intention,
        r.reason.0@ == reason@,
{
    let text = reason.to_string();
    proof {
        broadcast use vstd::string::group_string_axioms;

    }
    LongTermContinuation { schema_version: SchemaVersion(1), decision, intention, reason: ReasonRef(text) }
}

impl LongTermContinuationGuard {
    /// Yields to a foreground run; stops a cancelled, revoked, expired or
    /// exhausted goal; replans when the situation moved on from the one last
    /// planned for; continues with the first intention still open; and
    /// stops when every intention has ended.
    pub fn decide(
        &self,
        snapshot: &GoalLineageSnapshot,
        current_situation: &SchemaDigest,
        now: Timestamp,
        foreground_active: bool,
        remaining_budget: u64,
    ) -> (r: Result<LongTermContinuation, Error>)
        ensures
            r is Ok <==> snapshot.goal.valid() && !is_blank(current_situation.0@) && now > 0,
            r matches Ok(c) ==> {
                &&& c.schema_version == SchemaVersion(1)
                &&& (foreground_active ==> c.decision == LongTermContinuationDecision::YieldToForeground
                    && c.intention is None)
                &&& (!foreground_active && (snapshot.cancelled || snapshot.revoked)) ==> c.decision
                    == LongTermContinuationDecision::Stop && c.intention is None
                &&& (!foreground_active && !snapshot.cancelled && !snapshot.revoked && (now
                    >= snapshot.goal.expires_at || remaining_budget == 0)) ==> c.decision
                    == LongTermContinuationDecision::Stop && c.intention is None
                &&& (!foreground_active && !snapshot.cancelled && !snapshot.revoked && now
                    < snapshot.goal.expires_at && remaining_budget != 0 && planned_situation(*snapshot)
                    != current_situation.0@) ==> c.decision == LongTermContinuationDecision::Replan
                    && c.intention is None
                &&& (!foreground_active && !snapshot.cancelled && !snapshot.revoked && now
                    < snapshot.goal.expires_at && remaining_budget != 0 && planned_situation(*snapshot)
                    == current_situation.0@) ==> (match c.intention {
                    Some(i) => c.decision == LongTermContinuationDecision::Continue && exists|k: int|
                        0 <= k < snapshot.intentions@.len() && open_intention_at(*snapshot, k)
                            && (forall|m: int| 0 <= m < k ==> !open_intention_at(*snapshot, m))
                            && #[trigger] snapshot.intentions@[k] == i,
                    None => c.decision == LongTermContinuationDecision::Stop && forall|m: int|
                        0 <= m < snapshot.intentions@.len() ==> !open_intention_at(*snapshot, m),
                })
                &&& (!foreground_active && !snapshot.cancelled && !snapshot.revoked && now
                    < snapshot.goal.expires_at && remaining_budget != 0 && snapshot.checkpoints@.len()
                    > 0) ==> (c.decision == LongTermContinuationDecision::Replan <==> snapshot.checkpoints@[snapshot.checkpoints@.len()
                    - 1].situation_digest.0@ != current_situation.0@)
                &&& (!foreground_active && !snapshot.cancelled && !snapshot.revoked && now
                    < snapshot.goal.expires_at && remaining_budget != 0 && snapshot.checkpoints@.len()
                    == 0) ==> (c.decision == LongTermContinuationDecision::Replan <==> snapshot.goal.situation_digest.0@
                    != current_situation.0@)
            },
    {
        snapshot.goal.validate()?;
        if blank(current_situation.0.as_str()) || now <= 0 {
            return Err(Error("long-term continuation context is incomplete".to_string()));
        }
        if foreground_active {
            return Ok(continuation(LongTermContinuationDecision::YieldToForeground, None, "foreground run has priority"));
        }
        if snapshot.cancelled || snapshot.revoked {
            return Ok(continuation(LongTermContinuationDecision::Stop, None, "goal or intention was cancelled or revoked"));
        }
        if now >= snapshot.goal.expires_at || remaining_budget == 0 {
            return Ok(continuation(LongTermContinuationDecision::Stop, None, "goal timebox or budget is exhausted"));
        }
        let expected_situation = if snapshot.checkpoints.len() > 0 {
            &snapshot.checkpoints[snapshot.checkpoints.len() - 1].situation_digest
        } else {
            &snapshot.goal.situation_digest
        };
        if !same_text(&expected_situation.0, &current_situation.0) {
            return Ok(continuation(LongTermContinuationDecision::Replan, None, "situation digest changed; the previous route is stale"));
        }
        match first_open_intention(snapshot) {
            Some(k) => {
                let intention = snapshot.intentions[k].duplicate();
                Ok(continuation(LongTermContinuationDecision::Continue, Some(intention), "continuation remains a governed scheduled run"))
            },
            None => Ok(continuation(LongTermContinuationDecision::Stop, None, "all goal intentions are terminal")),
        }
    }
}


/// The situation a goal last planned for is that of its most recent
/// checkpoint, whichever checkpoints came before it; with no checkpoint it is
/// the goal's own.
pub proof fn lemma_latest_checkpoint_sets_the_plan(snapshot: GoalLineageSnapshot)
    ensures
        snapshot.checkpoints@.len() > 0 ==> planned_situation(snapshot)
            == snapshot.checkpoints@[snapshot.checkpoints@.len() - 1].situation_digest.0@,
        snapshot.checkpoints@.len() == 0 ==> planned_situation(snapshot)
            == snapshot.goal.situation_digest.0@,
{
}

/// A provenance that may create long-term or capability governance facts:
/// neither untrusted nor an external actor.
pub open spec fn trusted_process(p: Provenance) -> bool {
    p.trust_tier != TrustTier::Untrusted && !(p.actor is External)
}

pub fn require_trusted_process(provenance: &Provenance) -> (r: Result<(), Error>)
    ensures
        r is Ok <==> trusted_process(*provenance),
{
    let external = match &provenance.actor {
        Actor::External(_) => true,
        _ => false,
    };
    if provenance.trust_tier == TrustTier::Untrusted || external {
        return Err(
            Error(
                "untrusted content cannot create long-term or capability governance facts".to_string(),
            ),
        );
    }
    Ok(())
}

/// The order of intervention levels, from observing to high impact.
pub open spec fn intervention_rank(level: InterventionLevel) -> nat {
    match level {
        InterventionLevel::L0Observe => 0,
        InterventionLevel::L1Suggest => 1,
        InterventionLevel::L2Prepare => 2,
        InterventionLevel::L3ActWithApproval => 3,
        InterventionLevel::L4ActAutonomously => 4,
        InterventionLevel::L5HighImpact => 5,
    }
}

fn intervention_order(level: InterventionLevel) -> (r: u8)
    ensures
        r == intervention_rank(level),
{
    match level {
        InterventionLevel::L0Observe => 0,
        InterventionLevel::L1Suggest => 1,
        InterventionLevel::L2Prepare => 2,
        InterventionLevel::L3ActWithApproval => 3,
        InterventionLevel::L4ActAutonomously => 4,
        InterventionLevel::L5HighImpact => 5,
    }
}

/// An action that only observes, analyzes or prepares.
pub open spec fn low_effect_action(a: ActionType) -> bool {
    a == ActionType::Observe || a == ActionType::Analyze || a == ActionType::Prepare
}

/// A capability update asks for a narrow, evidence-bounded envelope: the
/// gap's scope and capability alone, at most one permission, one or two
/// action types, low risk, a real timebox of at most eight turns, and an
/// approval rule the gap's ceiling allows (acting without approval needs
/// an autonomous ceiling, low-effect actions and a required rollback;
/// acting with approval needs at least an approval ceiling).
pub open spec fn narrow_update(proposal: CapabilityUpdateProposal) -> bool {
    let e = proposal.requested_envelope;
    let g = proposal.gap;
    let low = forall|i: int| 0 <= i < e.action_type@.len() ==> low_effect_action(
        #[trigger] e.action_type@[i],
    );
    &&& e.scope.0@ == g.scope.0@
    &&& e.capability.capabilities@.len() == 1
    &&& e.capability.capabilities@[0].0@ == g.capability.0@
    &&& e.capability.permissions@.len() <= 1
    &&& 1 <= e.action_type@.len() <= 2
    &&& e.risk_limit == Risk::Low
    &&& e.timebox.starts_at < e.timebox.expires_at
    &&& 1 <= e.timebox.max_turns <= 8
    &&& e.approval_rule != ApprovalRule::Deny
    &&& e.approval_rule == ApprovalRule::Allow ==> (intervention_rank(g.ceiling) >= 4 && low
        && e.rollback.required)
    &&& e.approval_rule == ApprovalRule::Ask ==> intervention_rank(g.ceiling) >= 3
}

fn all_low_effect(v: &Vec<ActionType>) -> (r: bool)
    ensures
        r == forall|i: int| 0 <= i < v@.len() ==> low_effect_action(#[trigger] v@[i]),
{
    let mut i: usize = 0;
    while i < v.len()
        invariant
            i <= v.len(),
            forall|j: int| 0 <= j < i ==> low_effect_action(#[trigger] v@[j]),
        decreases v.len() - i,
    {
        let a = v[i];
        if !(a == ActionType::Observe || a == ActionType::Analyze || a == ActionType::Prepare) {
            return false;
        }
        i = i + 1;
    }
    true
}

pub fn validate_narrow_update(proposal: &CapabilityUpdateProposal) -> (r: Result<(), Error>)
    ensures
        r is Ok <==> narrow_update(*proposal),
{
    let envelope = &proposal.requested_envelope;
    let gap = &proposal.gap;
    let low_effect = all_low_effect(&envelope.action_type);
    let ceiling = intervention_order(gap.ceiling);
    if !same_text(&envelope.scope.0, &gap.scope.0) || envelope.capability.capabilities.len() != 1
        || !same_text(&envelope.capability.capabilities[0].0, &gap.capability.0)
        || envelope.capability.permissions.len() > 1 || envelope.action_type.len() == 0
        || envelope.action_type.len() > 2 || envelope.risk_limit != Risk::Low
        || envelope.timebox.starts_at >= envelope.timebox.expires_at
        || envelope.timebox.max_turns == 0 || envelope.timebox.max_turns > 8
        || envelope.approval_rule == ApprovalRule::Deny || (envelope.approval_rule
        == ApprovalRule::Allow && (ceiling < 4 || !low_effect || !envelope.rollback.required)) || (
    envelope.approval_rule == ApprovalRule::Ask && ceiling < 3) {
        return Err(
            Error(
                "capability update proposal is not a narrow evidence-bounded envelope".to_string(),
            ),
        );
    }
    Ok(())
}

/// How a hot/cold projection keeps memory: what counts as hot, how long
/// anything is retained, and whether untrusted content is redacted.
#[derive(Debug, Clone, PartialEq, Eq)]
pub struct HotColdProjectionPolicy {
    pub schema_version: SchemaVersion,
    pub hot_window: DurationMs,
    pub retention_window: DurationMs,
    pub redact_untrusted_content: bool,
}

impl HotColdProjectionPolicy {
    /// A bounded policy: a hot window, and a retention window beyond it that
    /// fits a timestamp.
    pub open spec fn valid(&self) -> bool {
        &&& self.schema_version.0 != 0
        &&& self.hot_window.0 != 0
        &&& self.retention_window.0 > self.hot_window.0
        &&& self.retention_window.0 <= i64::MAX
    }

    pub fn validate(&self) -> (r: Result<(), Error>)
        ensures
            r is Ok <==> self.valid(),
    {
        if self.schema_version.0 == 0 || self.hot_window.0 == 0 || self.retention_window.0
            <= self.hot_window.0 || self.retention_window.0 > 9223372036854775807u64 {
            return Err(Error("hot/cold projection policy is incomplete or unbounded".to_string()));
        }
        Ok(())
    }
}

/// A request to recall memory within one scope.
#[derive(Debug, Clone, PartialEq, Eq)]
pub struct SelectiveRecall {
    pub schema_version: SchemaVersion,
    pub scope: Scope,
    pub include_cold: bool,
    pub limit: usize,
}

impl SelectiveRecall {
    pub open spec fn valid(&self) -> bool {
        self.schema_version.0 != 0 && !is_blank(self.scope.0@) && self.limit != 0
    }

    pub fn validate(&self) -> (r: Result<(), Error>)
        ensures
            r is Ok <==> self.valid(),
    {
        if self.schema_version.0 == 0 || blank(self.scope.0.as_str()) || self.limit == 0 {
            return Err(Error("selective recall boundary is incomplete".to_string()));
        }
        Ok(())
    }
}

/// At least `window` has passed from `occurred_at` to `now`: the elapsed
/// time is not negative, fits an `i64`, and reaches the window.
pub open spec fn window_elapsed(occurred_at: Timestamp, window: DurationMs, now: Timestamp) -> bool {
    let d = now - occurred_at;
    0 <= d <= i64::MAX && d >= window.0
}

pub fn elapsed_at_least(occurred_at: Timestamp, window: DurationMs, now: Timestamp) -> (r: bool)
    ensures
        r == window_elapsed(occurred_at, window, now),
{
    match now.checked_sub(occurred_at) {
        Some(elapsed) => elapsed >= 0 && (elapsed as u64) >= window.0,
        None => false,
    }
}

/// Event kinds whose payload is sensitive in itself: accepted run inputs,
/// model output deltas, proposed tool calls and action output deltas.
pub open spec fn sensitive_kind(kind: EventKind) -> bool {
    kind == EventKind::RunAccepted || kind == EventKind::ModelCallDelta || kind
        == EventKind::ToolCallProposed || kind == EventKind::ActionOutputDelta
}

pub fn intrinsically_sensitive(kind: EventKind) -> (r: bool)
    ensures
        r == sensitive_kind(kind),
{
    kind == EventKind::RunAccepted || kind == EventKind::ModelCallDelta || kind
        == EventKind::ToolCallProposed || kind == EventKind::ActionOutputDelta
}

/// A text that looks like a secret reference: folded to ASCII lower case
/// it contains `secret:`, `secretref`, `credential:`, `credential_ref`,
/// `authorization`, `api_key`, `api-key` or `bearer `.
pub open spec fn secret_like(v: Seq<char>) -> bool {
    let l = ascii_lower(v);
    ||| contains_text(l, "secret:"@)
    ||| contains_text(l, "secretref"@)
    ||| contains_text(l, "credential:"@)
    ||| contains_text(l, "credential_ref"@)
    ||| contains_text(l, "authorization"@)
    ||| contains_text(l, "api_key"@)
    ||| contains_text(l, "api-key"@)
    ||| contains_text(l, "bearer "@)
}

pub fn secret_ref_like(value: &str) -> (r: bool)
    ensures
        r == secret_like(value@),
{
    lowered_contains(value, "secret:") || lowered_contains(value, "secretref") || lowered_contains(
        value,
        "credential:",
    ) || lowered_contains(value, "credential_ref") || lowered_contains(value, "authorization")
        || lowered_contains(value, "api_key") || lowered_contains(value, "api-key")
        || lowered_contains(value, "bearer ")
}


/// A character of a stored component: `%` as `%25` and `|` as `%7C`.
pub open spec fn component_char(c: char) -> Seq<char> {
    if c == '%' {
        seq!['%', '2', '5']
    } else if c == '|' {
        seq!['%', '7', 'C']
    } else {
        seq![c]
    }
}

/// A text escaped to stand between `|` separators.
pub open spec fn escaped_component(s: Seq<char>) -> Seq<char>
    decreases s.len(),
{
    if s.len() == 0 {
        Seq::empty()
    } else {
        component_char(s[0]) + escaped_component(s.drop_first())
    }
}

/// Every occurrence of `from`, read from the left without overlap, put as `to`.
pub open spec fn replaced(s: Seq<char>, from: Seq<char>, to: Seq<char>) -> Seq<char>
    recommends
        from.len() > 0,
    decreases s.len(),
{
    if s.len() == 0 || from.len() == 0 {
        s
    } else if s.len() >= from.len() && s.subrange(0, from.len() as int) == from {
        to + replaced(s.subrange(from.len() as int, s.len() as int), from, to)
    } else {
        seq![s[0]] + replaced(s.drop_first(), from, to)
    }
}

/// A stored component read back: `%7C` as `|`, then `%25` as `%`.
pub open spec fn unescaped_component(s: Seq<char>) -> Seq<char> {
    replaced(replaced(s, seq!['%', '7', 'C'], seq!['|']), seq!['%', '2', '5'], seq!['%'])
}

/// The text with only `%` escaped, as it stands between the two readings.
pub open spec fn percent_escaped(s: Seq<char>) -> Seq<char>
    decreases s.len(),
{
    if s.len() == 0 {
        Seq::empty()
    } else {
        (if s[0] == '%' {
            seq!['%', '2', '5']
        } else {
            seq![s[0]]
        }) + percent_escaped(s.drop_first())
    }
}

proof fn lemma_escaped_concat(a: Seq<char>, b: Seq<char>)
    ensures
        escaped_component(a + b) == escaped_component(a) + escaped_component(b),
    decreases a.len(),
{
    if a.len() == 0 {
        assert(a + b =~= b);
    } else {
        assert((a + b).drop_first() =~= a.drop_first() + b);
        lemma_escaped_concat(a.drop_first(), b);
        assert(component_char(a[0]) + (escaped_component(a.drop_first()) + escaped_component(b))
            =~= (component_char(a[0]) + escaped_component(a.drop_first())) + escaped_component(b));
    }
}

proof fn lemma_replace_pipes(s: Seq<char>)
    ensures
        replaced(escaped_component(s), seq!['%', '7', 'C'], seq!['|']) == percent_escaped(s),
    decreases s.len(),
{
    let from = seq!['%', '7', 'C'];
    let to = seq!['|'];
    if s.len() > 0 {
        let rest = s.drop_first();
        let e = escaped_component(rest);
        lemma_replace_pipes(rest);
        let whole = escaped_component(s);
        assert(whole == component_char(s[0]) + e);
        if s[0] == '|' {
            assert(whole.subrange(0, 3) =~= from);
            assert(whole.subrange(3, whole.len() as int) =~= e);
        } else if s[0] == '%' {
            assert(whole.subrange(0, 3) != from) by {
                assert(whole.subrange(0, 3)[1] == '2');
            }
            let w1 = whole.drop_first();
            assert(w1 =~= seq!['2', '5'] + e);
            if w1.len() >= 3 {
                assert(w1.subrange(0, 3) != from) by {
                    assert(w1.subrange(0, 3)[0] == '2');
                }
            }
            let w2 = w1.drop_first();
            assert(w2 =~= seq!['5'] + e);
            if w2.len() >= 3 {
                assert(w2.subrange(0, 3) != from) by {
                    assert(w2.subrange(0, 3)[0] == '5');
                }
            }
            assert(w2.drop_first() =~= e);
            assert(replaced(w2, from, to) == seq!['5'] + replaced(e, from, to));
            assert(replaced(w1, from, to) == seq!['2'] + replaced(w2, from, to));
            assert(replaced(whole, from, to) == seq!['%'] + replaced(w1, from, to));
            assert(replaced(whole, from, to) =~= seq!['%', '2', '5'] + replaced(e, from, to));
        } else {
            if whole.len() >= 3 {
                assert(whole.subrange(0, 3) != from) by {
                    assert(whole.subrange(0, 3)[0] == s[0]);
                }
            }
            assert(whole.drop_first() =~= e);
        }
    }
}

proof fn lemma_replace_percents(s: Seq<char>)
    ensures
        replaced(percent_escaped(s), seq!['%', '2', '5'], seq!['%']) == s,
    decreases s.len(),
{
    let from = seq!['%', '2', '5'];
    let to = seq!['%'];
    if s.len() > 0 {
        let rest = s.drop_first();
        let e = percent_escaped(rest);
        lemma_replace_percents(rest);
        let whole = percent_escaped(s);
        if s[0] == '%' {
            assert(whole =~= from + e);
            assert(whole.subrange(0, 3) =~= from);
            assert(whole.subrange(3, whole.len() as int) =~= e);
            assert(to + rest =~= s);
        } else {
            assert(whole =~= seq![s[0]] + e);
            if whole.len() >= 3 {
                assert(whole.subrange(0, 3) != from) by {
                    assert(whole.subrange(0, 3)[0] == s[0]);
                }
            }
            assert(whole.drop_first() =~= e);
            assert(seq![s[0]] + rest =~= s);
        }
    }
}

/// A stored component reads back as the text it was written from.
pub proof fn lemma_component_round_trip(s: Seq<char>)
    ensures
        unescaped_component(escaped_component(s)) == s,
{
    lemma_replace_pipes(s);
    lemma_replace_percents(s);
}

proof fn lemma_escaped_has_no_bar(s: Seq<char>)
    ensures
        forall|i: int| 0 <= i < escaped_component(s).len() ==> #[trigger] escaped_component(s)[i] != '|',
    decreases s.len(),
{
    if s.len() > 0 {
        lemma_escaped_has_no_bar(s.drop_first());
        let c = component_char(s[0]);
        let e = escaped_component(s.drop_first());
        assert forall|i: int| 0 <= i < (c + e).len() implies #[trigger] (c + e)[i] != '|' by {
            if i >= c.len() {
                assert((c + e)[i] == e[i - c.len()]);
            }
        }
    }
}

pub fn escape_component(value: &str) -> (r: String)
    ensures
        r@ == escaped_component(value@),
{
    let n = value.unicode_len();
    let mut out: Vec<char> = Vec::new();
    let mut i: usize = 0;
    while i < n
        invariant
            n == value@.len(),
            i <= n,
            out@ == escaped_component(value@.subrange(0, i as int)),
        decreases n - i,
    {
        let c = value.get_char(i);
        if c == '%' {
            out.push('%');
            out.push('2');
            out.push('5');
        } else if c == '|' {
            out.push('%');
            out.push('7');
            out.push('C');
        } else {
            out.push(c);
        }
        proof {
            let a = value@.subrange(0, i as int);
            lemma_escaped_concat(a, seq![c]);
            assert(value@.subrange(0, i as int + 1) =~= a + seq![c]);
            assert(seq![c].drop_first() =~= Seq::<char>::empty());
            assert(escaped_component(seq![c].drop_first()) == Seq::<char>::empty());
            assert(escaped_component(seq![c]) =~= component_char(c));
        }
        i = i + 1;
    }
    assert(value@.subrange(0, n as int) =~= value@);
    string_of_chars(&out)
}

fn replace_all(s: &Vec<char>, from: &Vec<char>, to: &Vec<char>) -> (r: Vec<char>)
    requires
        from@.len() > 0,
    ensures
        r@ == replaced(s@, from@, to@),
{
    let n = s.len();
    let m = from.len();
    let mut out: Vec<char> = Vec::new();
    let mut i: usize = 0;
    assert(s@.subrange(0, n as int) =~= s@);
    while i < n
        invariant
            n == s@.len(),
            m == from@.len(),
            m > 0,
            i <= n,
            out@ + replaced(s@.subrange(i as int, n as int), from@, to@) == replaced(s@, from@, to@),
        decreases n - i,
    {
        let ghost rest = s@.subrange(i as int, n as int);
        let mut matches = n - i >= m;
        let mut k: usize = 0;
        while matches && k < m
            invariant
                n == s@.len(),
                m == from@.len(),
                i < n,
                k <= m,
                matches ==> n - i >= m,
                matches ==> forall|j: int| 0 <= j < k ==> s@[i + j] == from@[j],
                !matches ==> n - i < m || exists|j: int| 0 <= j < k && s@[i + j] != from@[j],
            decreases m - k,
        {
            if s[i + k] != from[k] {
                matches = false;
            }
            k = k + 1;
        }
        proof {
            if matches {
                assert(rest.subrange(0, m as int) =~= from@);
            } else if rest.len() >= m {
                assert(rest.subrange(0, m as int) != from@) by {
                    let j = choose|j: int| 0 <= j < k && s@[i + j] != from@[j];
                    assert(rest.subrange(0, m as int)[j] == s@[i + j]);
                }
            }
        }
        if matches {
            let mut t: usize = 0;
            let ghost before = out@;
            while t < to.len()
                invariant
                    t <= to@.len(),
                    out@ == before + to@.subrange(0, t as int),
                decreases to.len() - t,
            {
                out.push(to[t]);
                t = t + 1;
                assert(out@ =~= before + to@.subrange(0, t as int));
            }
            proof {
                assert(to@.subrange(0, t as int) =~= to@);
                assert(rest.subrange(m as int, rest.len() as int) =~= s@.subrange(
                    i as int + m as int,
                    n as int,
                ));
                assert(before + (to@ + replaced(rest.subrange(m as int, rest.len() as int), from@, to@))
                    =~= out@ + replaced(s@.subrange(i as int + m as int, n as int), from@, to@));
            }
            i = i + m;
        } else {
            let ghost before = out@;
            out.push(s[i]);
            proof {
                assert(rest.drop_first() =~= s@.subrange(i as int + 1, n as int));
                assert(before + (seq![rest[0]] + replaced(rest.drop_first(), from@, to@)) =~= out@
                    + replaced(s@.subrange(i as int + 1, n as int), from@, to@));
            }
            i = i + 1;
        }
    }
    proof {
        assert(s@.subrange(n as int, n as int) =~= Seq::<char>::empty());
        assert(out@ + Seq::<char>::empty() =~= out@);
    }
    out
}

fn chars_of(s: &str) -> (r: Vec<char>)
    ensures
        r@ == s@,
{
    let n = s.unicode_len();
    let mut out: Vec<char> = Vec::new();
    let mut i: usize = 0;
    while i < n
        invariant
            n == s@.len(),
            i <= n,
            out@ == s@.subrange(0, i as int),
        decreases n - i,
    {
        out.push(s.get_char(i));
        i = i + 1;
        assert(out@ =~= s@.subrange(0, i as int));
    }
    assert(s@.subrange(0, n as int) =~= s@);
    out
}

pub fn unescape_component(value: &str) -> (r: String)
    ensures
        r@ == unescaped_component(value@),
{
    let s = chars_of(value);
    let mut pipe_code: Vec<char> = Vec::new();
    pipe_code.push('%');
    pipe_code.push('7');
    pipe_code.push('C');
    let mut pipe: Vec<char> = Vec::new();
    pipe.push('|');
    let mut percent_code: Vec<char> = Vec::new();
    percent_code.push('%');
    percent_code.push('2');
    percent_code.push('5');
    let mut percent: Vec<char> = Vec::new();
    percent.push('%');
    assert(pipe_code@ =~= seq!['%', '7', 'C']);
    assert(pipe@ =~= seq!['|']);
    assert(percent_code@ =~= seq!['%', '2', '5']);
    assert(percent@ =~= seq!['%']);
    let first = replace_all(&s, &pipe_code, &pipe);
    let second = replace_all(&first, &percent_code, &percent);
    string_of_chars(&second)
}

/// The text of a memory scope in an event's scope field:
/// `memory|<slice>|<workspace>|<scope>`, the last two escaped.
pub open spec fn memory_event_scope(m: MemoryScope) -> Seq<char> {
    let ws = match m.workspace {
        Some(w) => w.0@,
        None => Seq::empty(),
    };
    seq!['m', 'e', 'm', 'o', 'r', 'y', '|'] + time_slice_label(m.slice) + seq!['|']
        + escaped_component(ws) + seq!['|'] + escaped_component(m.scope.0@)
}

/// The text before the first `|` and the text after it.
pub open spec fn split_bar(s: Seq<char>) -> Option<(Seq<char>, Seq<char>)>
    decreases s.len(),
{
    if s.len() == 0 {
        None
    } else if s[0] == '|' {
        Some((Seq::empty(), s.drop_first()))
    } else {
        match split_bar(s.drop_first()) {
            Some(p) => Some((seq![s[0]] + p.0, p.1)),
            None => None,
        }
    }
}

/// What a memory scope reads back as from an event's scope: its slice,
/// workspace text (empty for none) and scope text when the text is a memory
/// scope; none otherwise, and then the whole text is a daily scope label.
pub open spec fn memory_scope_parts(s: Seq<char>) -> Option<(TimeSlice, Seq<char>, Seq<char>)> {
    match split_bar(s) {
        Some(p0) => if p0.0 == seq!['m', 'e', 'm', 'o', 'r', 'y'] {
            match split_bar(p0.1) {
                Some(p1) => match split_bar(p1.1) {
                    Some(p2) => match time_slice_from_label(p1.0) {
                        Some(slice) => Some(
                            (slice, unescaped_component(p2.0), unescaped_component(p2.1)),
                        ),
                        None => None,
                    },
                    None => None,
                },
                None => None,
            }
        } else {
            None
        },
        None => None,
    }
}

fn split_at_bar(s: &Vec<char>, from: usize) -> (r: Option<usize>)
    requires
        from <= s@.len(),
    ensures
        match r {
            Some(k) => from <= k < s@.len() && split_bar(s@.subrange(from as int, s@.len() as int))
                == Some(
                (s@.subrange(from as int, k as int), s@.subrange(k + 1, s@.len() as int)),
            ),
            None => split_bar(s@.subrange(from as int, s@.len() as int)) is None,
        },
    decreases s@.len() - from,
{
    let ghost t = s@.subrange(from as int, s@.len() as int);
    if from == s.len() {
        return None;
    }
    if s[from] == '|' {
        proof {
            assert(t.drop_first() =~= s@.subrange(from + 1, s@.len() as int));
            assert(s@.subrange(from as int, from as int) =~= Seq::<char>::empty());
        }
        return Some(from);
    }
    let r = split_at_bar(s, from + 1);
    proof {
        assert(t.drop_first() =~= s@.subrange(from + 1, s@.len() as int));
        match r {
            Some(k) => {
                assert(seq![t[0]] + s@.subrange(from + 1, k as int) =~= s@.subrange(
                    from as int,
                    k as int,
                ));
            },
            None => {},
        }
    }
    r
}

fn string_of_range(s: &Vec<char>, a: usize, b: usize) -> (r: String)
    requires
        a <= b <= s@.len(),
    ensures
        r@ == s@.subrange(a as int, b as int),
{
    let mut out: Vec<char> = Vec::new();
    let mut i: usize = a;
    while i < b
        invariant
            a <= i <= b,
            b <= s@.len(),
            out@ == s@.subrange(a as int, i as int),
        decreases b - i,
    {
        out.push(s[i]);
        i = i + 1;
        assert(out@ =~= s@.subrange(a as int, i as int));
    }
    string_of_chars(&out)
}

impl MemoryScope {
    /// The memory scope's text for an event's scope field.
    pub fn event_scope(&self) -> (r: Scope)
        ensures
            r.0@ == memory_event_scope(*self),
    {
        let ws = match &self.workspace {
            Some(w) => escape_component(w.0.as_str()),
            None => escape_component(""),
        };
        let label = escape_component(self.scope.0.as_str());
        let mut text = String::from_str("memory|");
        text.append(self.slice.as_str());
        text.append("|");
        text.append(ws.as_str());
        text.append("|");
        text.append(label.as_str());
        proof {
            reveal_strlit("memory|");
            reveal_strlit("|");
            reveal_strlit("");
            assert(text@ =~= memory_event_scope(*self));
        }
        Scope(text)
    }

    /// The memory scope an event's scope field names: the parts of a memory
    /// scope's text, a workspace only when its text is not empty; a daily
    /// scope with the whole text as its label otherwise.
    pub fn from_event_scope(scope: &Scope) -> (r: MemoryScope)
        ensures
            r.schema_version == SchemaVersion(1),
            match memory_scope_parts(scope.0@) {
                Some(p) => r.slice == p.0 && r.scope.0@ == p.2 && match r.workspace {
                    Some(w) => p.1.len() > 0 && w.0@ == p.1,
                    None => p.1.len() == 0,
                },
                None => r.slice == TimeSlice::Daily && r.workspace is None && r.scope.0@
                    == scope.0@,
            },
    {
        let s = chars_of(scope.0.as_str());
        let fallback = MemoryScope {
            schema_version: SchemaVersion(1),
            slice: TimeSlice::Daily,
            workspace: None,
            scope: Scope(scope.0.clone()),
        };
        let n = s.len();
        proof {
            assert(s@.subrange(0, n as int) =~= s@);
        }
        let k0 = match split_at_bar(&s, 0) {
            Some(k) => k,
            None => return fallback,
        };
        let head = string_of_range(&s, 0, k0);
        if !crate::text::str_equal(head.as_str(), "memory") {
            proof {
                reveal_strlit("memory");
                assert("memory"@ =~= seq!['m', 'e', 'm', 'o', 'r', 'y']);
            }
            return fallback;
        }
        proof {
            reveal_strlit("memory");
            assert("memory"@ =~= seq!['m', 'e', 'm', 'o', 'r', 'y']);
        }
        let k1 = match split_at_bar(&s, k0 + 1) {
            Some(k) => k,
            None => return fallback,
        };
        let k2 = match split_at_bar(&s, k1 + 1) {
            Some(k) => k,
            None => return fallback,
        };
        let slice_text = string_of_range(&s, k0 + 1, k1);
        let slice = match TimeSlice::parse(slice_text.as_str()) {
            Some(x) => x,
            None => return fallback,
        };
        let ws_text = string_of_range(&s, k1 + 1, k2);
        let label_text = string_of_range(&s, k2 + 1, n);
        let ws = unescape_component(ws_text.as_str());
        let label = unescape_component(label_text.as_str());
        let workspace = if ws.as_str().is_empty() {
            None
        } else {
            Some(WorkspaceRef(ws))
        };
        MemoryScope { schema_version: SchemaVersion(1), slice, workspace, scope: Scope(label) }
    }
}

proof fn lemma_split_bar_at(a: Seq<char>, b: Seq<char>)
    requires
        forall|i: int| 0 <= i < a.len() ==> #[trigger] a[i] != '|',
    ensures
        split_bar(a + seq!['|'] + b) == Some((a, b)),
    decreases a.len(),
{
    if a.len() == 0 {
        assert(a + seq!['|'] + b =~= seq!['|'] + b);
        assert((seq!['|'] + b).drop_first() =~= b);
    } else {
        let t = a + seq!['|'] + b;
        assert(t.drop_first() =~= a.drop_first() + seq!['|'] + b);
        lemma_split_bar_at(a.drop_first(), b);
        assert(seq![a[0]] + a.drop_first() =~= a);
    }
}

/// A memory scope written to an event's scope reads back as itself, when its
/// schema version is the current one and a workspace it names is not empty.
pub proof fn lemma_memory_scope_round_trip(m: MemoryScope)
    requires
        m.schema_version == SchemaVersion(1),
        m.workspace matches Some(w) ==> w.0@.len() > 0,
    ensures
        memory_scope_parts(memory_event_scope(m)) == Some(
            (
                m.slice,
                match m.workspace {
                    Some(w) => w.0@,
                    None => Seq::empty(),
                },
                m.scope.0@,
            ),
        ),
{
    let ws = match m.workspace {
        Some(w) => w.0@,
        None => Seq::<char>::empty(),
    };
    let label = time_slice_label(m.slice);
    let e_ws = escaped_component(ws);
    let e_sc = escaped_component(m.scope.0@);
    let memory = seq!['m', 'e', 'm', 'o', 'r', 'y'];
    lemma_escaped_has_no_bar(ws);
    lemma_escaped_has_no_bar(m.scope.0@);
    lemma_component_round_trip(ws);
    lemma_component_round_trip(m.scope.0@);
    lemma_time_slice_label_round_trip(m.slice);
    assert(label == "session"@ || label == "daily"@ || label == "long-term"@);
    reveal_strlit("session");
    reveal_strlit("daily");
    reveal_strlit("long-term");
    assert(forall|i: int| 0 <= i < label.len() ==> #[trigger] label[i] != '|');
    assert(forall|i: int| 0 <= i < memory.len() ==> #[trigger] memory[i] != '|');
    let rest2 = e_ws + seq!['|'] + e_sc;
    let rest1 = label + seq!['|'] + rest2;
    let whole = memory + seq!['|'] + rest1;
    assert(whole =~= memory_event_scope(m));
    lemma_split_bar_at(memory, rest1);
    lemma_split_bar_at(label, rest2);
    lemma_split_bar_at(e_ws, e_sc);
}


/// The bit pattern of an `f32` that is neither infinite nor NaN: its
/// exponent bits are not all set.
pub open spec fn finite_bits(bits: u32) -> bool {
    bits & 0x7f80_0000u32 != 0x7f80_0000u32
}

fn is_finite_bits(bits: u32) -> (r: bool)
    ensures
        r == finite_bits(bits),
{
    bits & 0x7f80_0000u32 != 0x7f80_0000u32
}

/// The tiers that only trusted evidence may reach.
pub open spec fn stable_tier(t: StabilityTier) -> bool {
    t == StabilityTier::Fixed || t == StabilityTier::Constitutional || t == StabilityTier::Stable
}

fn is_stable_tier(t: StabilityTier) -> (r: bool)
    ensures
        r == stable_tier(t),
{
    t == StabilityTier::Fixed || t == StabilityTier::Constitutional || t == StabilityTier::Stable
}

/// A node of the memory graph.
#[derive(Debug, Clone, PartialEq, Eq)]
pub struct MemoryNode {
    pub schema_version: SchemaVersion,
    pub id: NodeId,
    pub kind: NodeKind,
    pub content_ref: ContentRef,
    pub tier: StabilityTier,
    pub confidence: Confidence,
    pub scope: MemoryScope,
    pub resting_activation: RestingActivation,
    pub recency: Timestamp,
    pub provenance: Provenance,
}

/// An edge of the memory graph.
#[derive(Debug, Clone, PartialEq, Eq)]
pub struct MemoryEdge {
    pub schema_version: SchemaVersion,
    pub id: EdgeId,
    pub from: NodeId,
    pub to: NodeId,
    pub kind: EdgeKind,
    pub weight: Weight,
    pub provenance: Provenance,
}

/// A node that may enter the graph: complete, with finite confidence and
/// activation, and untrusted content kept out of the stable tiers.
pub open spec fn node_ok(node: MemoryNode) -> bool {
    &&& node.schema_version.0 != 0
    &&& node.scope.schema_version.0 != 0
    &&& !is_blank(node.id.0@)
    &&& !is_blank(node.content_ref.0@)
    &&& !is_blank(node.scope.scope.0@)
    &&& finite_bits(node.confidence.0)
    &&& finite_bits(node.resting_activation.0)
    &&& !(node.provenance.trust_tier == TrustTier::Untrusted && stable_tier(node.tier))
}

pub fn validate_node(node: &MemoryNode) -> (r: Result<(), Error>)
    ensures
        r is Ok <==> node_ok(*node),
{
    if node.schema_version.0 == 0 || node.scope.schema_version.0 == 0 || blank(node.id.0.as_str())
        || blank(node.content_ref.0.as_str()) || blank(node.scope.scope.0.as_str())
        || !is_finite_bits(node.confidence.0) || !is_finite_bits(node.resting_activation.0) {
        return Err(Error("memory node is incomplete or non-finite".to_string()));
    }
    if node.provenance.trust_tier == TrustTier::Untrusted && is_stable_tier(node.tier) {
        return Err(Error("untrusted content cannot enter a stable memory tier".to_string()));
    }
    Ok(())
}

/// An edge that may enter the graph: complete, between two different nodes,
/// with a finite weight, and not from untrusted content.
pub open spec fn edge_ok(edge: MemoryEdge) -> bool {
    &&& edge.schema_version.0 != 0
    &&& !is_blank(edge.id.0@)
    &&& !is_blank(edge.from.0@)
    &&& !is_blank(edge.to.0@)
    &&& edge.from.0@ != edge.to.0@
    &&& finite_bits(edge.weight.0)
    &&& edge.provenance.trust_tier != TrustTier::Untrusted
}

pub fn validate_edge(edge: &MemoryEdge) -> (r: Result<(), Error>)
    ensures
        r is Ok <==> edge_ok(*edge),
{
    if edge.schema_version.0 == 0 || blank(edge.id.0.as_str()) || blank(edge.from.0.as_str())
        || blank(edge.to.0.as_str()) || same_text(&edge.from.0, &edge.to.0) || !is_finite_bits(
        edge.weight.0,
    ) {
        return Err(Error("memory edge is incomplete or non-finite".to_string()));
    }
    if edge.provenance.trust_tier == TrustTier::Untrusted {
        return Err(Error("untrusted content cannot modify memory graph structure".to_string()));
    }
    Ok(())
}

/// A proposed change to memory, before review.
#[derive(Debug, Clone, PartialEq, Eq)]
pub struct CandidateSpec {
    pub schema_version: SchemaVersion,
    pub id: CandidateId,
    pub target: CandidateTargetRef,
    pub evidence_refs: Vec<EvidenceRef>,
    pub confidence: Confidence,
    pub provenance: Provenance,
    pub target_tier: StabilityTier,
}

/// A candidate that may be recorded: complete, with finite confidence, and
/// an untrusted one not aimed at a stable tier.
pub open spec fn candidate_spec_ok(spec: CandidateSpec) -> bool {
    &&& spec.schema_version.0 != 0
    &&& !is_blank(spec.id.0@)
    &&& !is_blank(spec.target.0@)
    &&& finite_bits(spec.confidence.0)
    &&& !(spec.provenance.trust_tier == TrustTier::Untrusted && stable_tier(spec.target_tier))
}

pub fn validate_candidate_spec(spec: &CandidateSpec) -> (r: Result<(), Error>)
    ensures
        r is Ok <==> candidate_spec_ok(*spec),
{
    if spec.schema_version.0 == 0 || blank(spec.id.0.as_str()) || blank(spec.target.0.as_str())
        || !is_finite_bits(spec.confidence.0) {
        return Err(Error("candidate is incomplete or non-finite".to_string()));
    }
    if spec.provenance.trust_tier == TrustTier::Untrusted && is_stable_tier(spec.target_tier) {
        return Err(Error("untrusted candidate cannot target a stable tier".to_string()));
    }
    Ok(())
}

/// A candidate value of an attribute of the owner, with its evidence.
#[derive(Debug, Clone, PartialEq, Eq)]
pub struct UserAttributeCandidate {
    pub schema_version: SchemaVersion,
    pub candidate_id: CandidateId,
    pub attribute: UserAttributeRef,
    pub value: UserAttributeValueRef,
    pub evidence: Vec<EvidenceRef>,
    pub confidence: Confidence,
    pub first_observed_at: Timestamp,
    pub last_updated_at: Timestamp,
    pub stability: StabilityTier,
    pub scope: Scope,
    pub conflicts: Vec<CandidateId>,
    pub feedback: Vec<FeedbackRef>,
    pub provenance: Provenance,
    pub evidence_priority: EvidencePriority,
}

/// A user attribute candidate that may be recorded: complete, with evidence,
/// observed before it was last updated, with finite confidence; neither
/// imported nor untrusted evidence aims at a stable tier.
pub open spec fn user_candidate_ok(c: UserAttributeCandidate) -> bool {
    &&& c.schema_version.0 != 0
    &&& !is_blank(c.candidate_id.0@)
    &&& !is_blank(c.attribute.0@)
    &&& !is_blank(c.value.0@)
    &&& !is_blank(c.scope.0@)
    &&& c.evidence@.len() > 0
    &&& c.first_observed_at <= c.last_updated_at
    &&& finite_bits(c.confidence.0)
    &&& !(c.evidence_priority == EvidencePriority::Imported && stable_tier(c.stability))
    &&& !(c.provenance.trust_tier == TrustTier::Untrusted && stable_tier(c.stability))
}

pub fn validate_user_candidate(candidate: &UserAttributeCandidate) -> (r: Result<(), Error>)
    ensures
        r is Ok <==> user_candidate_ok(*candidate),
{
    if candidate.schema_version.0 == 0 || blank(candidate.candidate_id.0.as_str()) || blank(
        candidate.attribute.0.as_str(),
    ) || blank(candidate.value.0.as_str()) || blank(candidate.scope.0.as_str())
        || candidate.evidence.len() == 0 || candidate.first_observed_at
        > candidate.last_updated_at || !is_finite_bits(candidate.confidence.0) {
        return Err(Error("user attribute candidate is incomplete".to_string()));
    }
    if candidate.evidence_priority == EvidencePriority::Imported && is_stable_tier(
        candidate.stability,
    ) {
        return Err(Error("imported evidence cannot target a stable user attribute".to_string()));
    }
    if candidate.provenance.trust_tier == TrustTier::Untrusted && is_stable_tier(
        candidate.stability,
    ) {
        return Err(Error("untrusted evidence cannot target a stable user attribute".to_string()));
    }
    Ok(())
}

/// What fires a prospective intention: a time, an event kind, or a condition.
#[derive(Debug, Clone, PartialEq, Eq)]
pub enum IntentionTrigger {
    At(Timestamp),
    OnEvent(EventKind),
    OnCondition(IntentionTriggerRef),
}

/// An intention memory keeps until its trigger fires.
#[derive(Debug, Clone, PartialEq, Eq)]
pub struct ProspectiveIntention {
    pub schema_version: SchemaVersion,
    pub id: IntentionId,
    pub source: IntentionSource,
    pub trigger: IntentionTrigger,
    pub state: IntentionState,
    pub seed: SeedRef,
    pub provenance: Provenance,
    pub expires_at: Option<Timestamp>,
}

/// An intention that may be created: complete, pending, and not expiring
/// before a time trigger is due.
pub open spec fn intention_ok(i: ProspectiveIntention) -> bool {
    &&& i.schema_version.0 != 0
    &&& !is_blank(i.id.0@)
    &&& !is_blank(i.seed.0@)
    &&& i.state == IntentionState::Pending
    &&& match (i.trigger, i.expires_at) {
        (IntentionTrigger::At(at), Some(expires_at)) => expires_at > at,
        _ => true,
    }
}

pub fn validate_intention(intention: &ProspectiveIntention) -> (r: Result<(), Error>)
    ensures
        r is Ok <==> intention_ok(*intention),
{
    if intention.schema_version.0 == 0 || blank(intention.id.0.as_str()) || blank(
        intention.seed.0.as_str(),
    ) || intention.state != IntentionState::Pending {
        return Err(Error("prospective intention is incomplete".to_string()));
    }
    match (&intention.trigger, intention.expires_at) {
        (IntentionTrigger::At(at), Some(expires_at)) => {
            if expires_at <= *at {
                return Err(Error("intention expires before it is due".to_string()));
            }
        },
        _ => {},
    }
    Ok(())
}


/// The decimal text of a whole number, with `-` before a negative one.
pub open spec fn int_text(x: int) -> Seq<char> {
    if x < 0 {
        seq!['-'] + decimal_text((-x) as nat)
    } else {
        decimal_text(x as nat)
    }
}

/// The value of a run of decimal digits.
pub open spec fn digits_value(d: Seq<char>) -> int
    decreases d.len(),
{
    if d.len() == 0 {
        0
    } else {
        digits_value(d.drop_last()) * 10 + (d.last() as int - 48)
    }
}

pub open spec fn all_digits(d: Seq<char>) -> bool {
    d.len() > 0 && forall|i: int| 0 <= i < d.len() ==> '0' <= #[trigger] d[i] <= '9'
}

/// A text read as an `i64` the way `str::parse` reads one: an optional `+`
/// or `-`, then one or more decimal digits, within range.
pub open spec fn parsed_i64(s: Seq<char>) -> Option<i64> {
    let neg = s.len() > 0 && s[0] == '-';
    let signed = s.len() > 0 && (s[0] == '-' || s[0] == '+');
    let d = if signed {
        s.drop_first()
    } else {
        s
    };
    let v = if neg {
        -digits_value(d)
    } else {
        digits_value(d)
    };
    if all_digits(d) && i64::MIN <= v <= i64::MAX {
        Some(v as i64)
    } else {
        None
    }
}

proof fn lemma_digits_value_grows(d: Seq<char>, i: int)
    requires
        0 <= i <= d.len(),
        forall|j: int| 0 <= j < d.len() ==> '0' <= #[trigger] d[j] <= '9',
    ensures
        digits_value(d) >= digits_value(d.subrange(0, i)) >= 0,
    decreases d.len() - i,
{
    if i < d.len() {
        let p = d.subrange(0, i + 1);
        assert(p.drop_last() =~= d.subrange(0, i));
        lemma_digits_value_grows(d, i + 1);
        lemma_digits_nonneg(d.subrange(0, i));
    } else {
        assert(d.subrange(0, i) =~= d);
        lemma_digits_nonneg(d);
    }
}

proof fn lemma_digits_nonneg(d: Seq<char>)
    requires
        forall|j: int| 0 <= j < d.len() ==> '0' <= #[trigger] d[j] <= '9',
    ensures
        digits_value(d) >= 0,
    decreases d.len(),
{
    if d.len() > 0 {
        lemma_digits_nonneg(d.drop_last());
    }
}

pub fn parse_i64(s: &str) -> (r: Option<i64>)
    ensures
        r == parsed_i64(s@),
{
    let n = s.unicode_len();
    if n == 0 {
        return None;
    }
    let first = s.get_char(0);
    let neg = first == '-';
    let start: usize = if first == '-' || first == '+' {
        1
    } else {
        0
    };
    let ghost d = if start == 1 {
        s@.drop_first()
    } else {
        s@
    };
    proof {
        assert(d =~= s@.subrange(start as int, n as int));
        assert(first == s@[0]);
        assert((start == 1) == (s@.len() > 0 && (s@[0] == '-' || s@[0] == '+')));
        assert(neg == (s@.len() > 0 && s@[0] == '-'));
    }
    if start == n {
        return None;
    }
    let limit: i128 = 9223372036854775808;
    let mut acc: i128 = 0;
    let mut i: usize = start;
    while i < n
        invariant
            n == s@.len(),
            start <= i <= n,
            start < n,
            start <= 1,
            d == s@.subrange(start as int, n as int),
            (start == 1) == (s@.len() > 0 && (s@[0] == '-' || s@[0] == '+')),
            neg == (s@.len() > 0 && s@[0] == '-'),
            d == (if s@.len() > 0 && (s@[0] == '-' || s@[0] == '+') {
                s@.drop_first()
            } else {
                s@
            }),
            forall|j: int| start <= j < i ==> '0' <= #[trigger] s@[j] <= '9',
            acc == digits_value(s@.subrange(start as int, i as int)),
            0 <= acc <= limit,
            limit == 9223372036854775808,
        decreases n - i,
    {
        let c = s.get_char(i);
        if !('0' <= c && c <= '9') {
            proof {
                assert(!all_digits(d)) by {
                    assert(d[i - start] == c);
                }
            }
            return None;
        }
        proof {
            let p = s@.subrange(start as int, i as int + 1);
            assert(p.drop_last() =~= s@.subrange(start as int, i as int));
            assert(p.last() == c);
            assert(digits_value(p) == digits_value(p.drop_last()) * 10 + (c as int - 48));
        }
        acc = acc * 10 + ((c as u32) - 48) as i128;
        i = i + 1;
        if acc > limit {
            proof {
                assert forall|j: int| 0 <= j < i - start implies '0' <= #[trigger] d.subrange(
                    0,
                    i - start,
                )[j] <= '9' by {
                    assert(d.subrange(0, i - start)[j] == s@[start + j]);
                }
                assert(d.subrange(0, i - start) =~= s@.subrange(start as int, i as int));
                if all_digits(d) {
                    lemma_digits_value_grows(d, i - start);
                }
            }
            return None;
        }
    }
    proof {
        assert(s@.subrange(start as int, n as int) =~= d);
        assert(all_digits(d)) by {
            assert forall|j: int| 0 <= j < d.len() implies '0' <= #[trigger] d[j] <= '9' by {
                assert(d[j] == s@[start + j]);
            }
        }
    }
    if neg {
        Some((0 - acc) as i64)
    } else if acc > 9223372036854775807 {
        None
    } else {
        Some(acc as i64)
    }
}

pub(crate) fn push_str_chars(out: &mut Vec<char>, s: &str)
    ensures
        final(out)@ == old(out)@ + s@,
{
    let n = s.unicode_len();
    let ghost start = out@;
    let mut i: usize = 0;
    while i < n
        invariant
            n == s@.len(),
            i <= n,
            out@ == start + s@.subrange(0, i as int),
        decreases n - i,
    {
        out.push(s.get_char(i));
        i = i + 1;
        assert(out@ =~= start + s@.subrange(0, i as int));
    }
    assert(s@.subrange(0, n as int) =~= s@);
}

fn push_decimal(out: &mut Vec<char>, n: u64)
    ensures
        final(out)@ == old(out)@ + decimal_text(n as nat),
    decreases n,
{
    if n < 10 {
        out.push(((48 + n) as u8) as char);
        assert(final(out)@ =~= old(out)@ + decimal_text(n as nat));
    } else {
        push_decimal(out, n / 10);
        out.push(((48 + n % 10) as u8) as char);
        assert(final(out)@ =~= old(out)@ + decimal_text(n as nat));
    }
}

fn push_i64(out: &mut Vec<char>, x: i64)
    ensures
        final(out)@ == old(out)@ + int_text(x as int),
{
    if x < 0 {
        out.push('-');
        let magnitude: u64 = if x == i64::MIN {
            9223372036854775808
        } else {
            (-x) as u64
        };
        push_decimal(out, magnitude);
        assert(final(out)@ =~= old(out)@ + int_text(x as int));
    } else {
        push_decimal(out, x as u64);
    }
}

impl IntentionTrigger {
    /// How a trigger is written down: `at:<time>`, `event:<kind>` or
    /// `condition:<reference>`.
    pub open spec fn text(&self) -> Seq<char> {
        match self {
            IntentionTrigger::At(at) => seq!['a', 't', ':'] + int_text(*at as int),
            IntentionTrigger::OnEvent(kind) => seq!['e', 'v', 'e', 'n', 't', ':'] + kind.wire_name(),
            IntentionTrigger::OnCondition(r) => seq!['c', 'o', 'n', 'd', 'i', 't', 'i', 'o', 'n', ':']
                + r.0@,
        }
    }

    pub fn as_ref(&self) -> (r: IntentionTriggerRef)
        ensures
            r.0@ == self.text(),
    {
        let mut out: Vec<char> = Vec::new();
        match self {
            IntentionTrigger::At(at) => {
                push_str_chars(&mut out, "at:");
                push_i64(&mut out, *at);
            },
            IntentionTrigger::OnEvent(kind) => {
                push_str_chars(&mut out, "event:");
                push_str_chars(&mut out, kind.wire_str());
            },
            IntentionTrigger::OnCondition(r) => {
                push_str_chars(&mut out, "condition:");
                push_str_chars(&mut out, r.0.as_str());
            },
        }
        proof {
            reveal_strlit("at:");
            reveal_strlit("event:");
            reveal_strlit("condition:");
        }
        IntentionTriggerRef(string_of_chars(&out))
    }
}

/// `t` with `p` cut from its front, when it starts with `p`.
pub open spec fn after_prefix(t: Seq<char>, p: Seq<char>) -> Option<Seq<char>> {
    if p.len() <= t.len() && t.subrange(0, p.len() as int) == p {
        Some(t.subrange(p.len() as int, t.len() as int))
    } else {
        None
    }
}

/// What a written trigger reads as.
pub enum TriggerReading {
    At(i64),
    Event(Seq<char>),
    Condition(Seq<char>),
}

pub open spec fn names_a_kind(name: Seq<char>) -> bool {
    exists|k: EventKind| #[trigger] k.wire_name() == name
}

/// What a written trigger reads back as: a time after `at:` that parses,
/// the event kind named after `event:` when one has that name, else a
/// condition: the text after `condition:`, or the whole text.
pub open spec fn trigger_reading(t: Seq<char>) -> TriggerReading {
    let at = after_prefix(t, seq!['a', 't', ':']);
    let event = after_prefix(t, seq!['e', 'v', 'e', 'n', 't', ':']);
    let condition = after_prefix(t, seq!['c', 'o', 'n', 'd', 'i', 't', 'i', 'o', 'n', ':']);
    if at is Some && parsed_i64(at.unwrap()) is Some {
        TriggerReading::At(parsed_i64(at.unwrap()).unwrap())
    } else if event is Some && names_a_kind(event.unwrap()) {
        TriggerReading::Event(event.unwrap())
    } else {
        TriggerReading::Condition(
            match condition {
                Some(c) => c,
                None => t,
            },
        )
    }
}

fn strip_prefix_chars(t: &str, p: &str) -> (r: Option<String>)
    ensures
        match r {
            Some(x) => after_prefix(t@, p@) == Some(x@),
            None => after_prefix(t@, p@) is None,
        },
{
    let n = t.unicode_len();
    let m = p.unicode_len();
    if m > n {
        return None;
    }
    let mut i: usize = 0;
    while i < m
        invariant
            n == t@.len(),
            m == p@.len(),
            m <= n,
            i <= m,
            forall|j: int| 0 <= j < i ==> t@[j] == p@[j],
        decreases m - i,
    {
        if t.get_char(i) != p.get_char(i) {
            assert(t@.subrange(0, m as int)[i as int] != p@[i as int]);
            return None;
        }
        i = i + 1;
    }
    assert(t@.subrange(0, m as int) =~= p@);
    let mut out: Vec<char> = Vec::new();
    let mut k: usize = m;
    while k < n
        invariant
            n == t@.len(),
            m <= k <= n,
            out@ == t@.subrange(m as int, k as int),
        decreases n - k,
    {
        out.push(t.get_char(k));
        k = k + 1;
        assert(out@ =~= t@.subrange(m as int, k as int));
    }
    Some(string_of_chars(&out))
}

impl IntentionTrigger {
    /// A written trigger read back, as `trigger_reading` says.
    pub fn from_ref(value: &IntentionTriggerRef) -> (r: IntentionTrigger)
        ensures
            match trigger_reading(value.0@) {
                TriggerReading::At(x) => r == IntentionTrigger::At(x),
                TriggerReading::Event(name) => r matches IntentionTrigger::OnEvent(k)
                    && k.wire_name() == name,
                TriggerReading::Condition(c) => r matches IntentionTrigger::OnCondition(x) && x.0@
                    == c,
            },
    {
        let t = value.0.as_str();
        proof {
            reveal_strlit("at:");
            reveal_strlit("event:");
            reveal_strlit("condition:");
            assert("at:"@ =~= seq!['a', 't', ':']);
            assert("event:"@ =~= seq!['e', 'v', 'e', 'n', 't', ':']);
            assert("condition:"@ =~= seq!['c', 'o', 'n', 'd', 'i', 't', 'i', 'o', 'n', ':']);
        }
        if let Some(rest) = strip_prefix_chars(t, "at:") {
            if let Some(at) = parse_i64(rest.as_str()) {
                return IntentionTrigger::At(at);
            }
        }
        if let Some(rest) = strip_prefix_chars(t, "event:") {
            if let Some(kind) = EventKind::parse(rest.as_str()) {
                assert(names_a_kind(rest@));
                return IntentionTrigger::OnEvent(kind);
            }
        }
        let condition = match strip_prefix_chars(t, "condition:") {
            Some(c) => c,
            None => value.0.clone(),
        };
        IntentionTrigger::OnCondition(IntentionTriggerRef(condition))
    }
}


/// A stored intention's reference: its trigger, its escaped seed and its
/// expiry, as `<trigger>|seed=<seed>|expires=<time or nothing>`.
pub open spec fn storage_text(i: ProspectiveIntention) -> Seq<char> {
    i.trigger.text() + seq!['|', 's', 'e', 'e', 'd', '='] + escaped_component(i.seed.0@) + seq![
        '|',
        'e',
        'x',
        'p',
        'i',
        'r',
        'e',
        's',
        '=',
    ] + match i.expires_at {
        Some(e) => int_text(e as int),
        None => Seq::empty(),
    }
}

pub fn intention_storage_ref(intention: &ProspectiveIntention) -> (r: IntentionTriggerRef)
    ensures
        r.0@ == storage_text(*intention),
{
    let trigger = intention.trigger.as_ref();
    let seed = escape_component(intention.seed.0.as_str());
    let mut out: Vec<char> = Vec::new();
    push_str_chars(&mut out, trigger.0.as_str());
    push_str_chars(&mut out, "|seed=");
    push_str_chars(&mut out, seed.as_str());
    push_str_chars(&mut out, "|expires=");
    match intention.expires_at {
        Some(e) => push_i64(&mut out, e),
        None => {},
    }
    proof {
        reveal_strlit("|seed=");
        reveal_strlit("|expires=");
        assert(out@ =~= storage_text(*intention));
    }
    IntentionTriggerRef(string_of_chars(&out))
}

/// The pieces of a text between `|` separators.
pub open spec fn bar_fields(s: Seq<char>) -> Seq<Seq<char>>
    decreases s.len(),
{
    if s.len() == 0 {
        seq![Seq::empty()]
    } else {
        let p = bar_fields(s.drop_last());
        if s.last() == '|' {
            p.push(Seq::empty())
        } else {
            p.update(p.len() - 1, p.last().push(s.last()))
        }
    }
}

proof fn lemma_bar_fields_nonempty(s: Seq<char>)
    ensures
        bar_fields(s).len() >= 1,
    decreases s.len(),
{
    if s.len() > 0 {
        lemma_bar_fields_nonempty(s.drop_last());
    }
}

/// What follows `p` in the first field that starts with it.
pub open spec fn first_field_after(fields: Seq<Seq<char>>, p: Seq<char>) -> Option<Seq<char>>
    decreases fields.len(),
{
    if fields.len() == 0 {
        None
    } else {
        match after_prefix(fields[0], p) {
            Some(rest) => Some(rest),
            None => first_field_after(fields.drop_first(), p),
        }
    }
}

fn fields_of(s: &str) -> (r: Vec<Vec<char>>)
    ensures
        r@.map_values(|v: Vec<char>| v@) == bar_fields(s@),
{
    let n = s.unicode_len();
    let mut done: Vec<Vec<char>> = Vec::new();
    let mut cur: Vec<char> = Vec::new();
    let mut i: usize = 0;
    while i < n
        invariant
            n == s@.len(),
            i <= n,
            done@.map_values(|v: Vec<char>| v@).push(cur@) == bar_fields(s@.subrange(0, i as int)),
        decreases n - i,
    {
        let c = s.get_char(i);
        let ghost sub = s@.subrange(0, i as int + 1);
        proof {
            assert(sub.drop_last() =~= s@.subrange(0, i as int));
            assert(sub.last() == c);
        }
        let ghost before = done@.map_values(|v: Vec<char>| v@);
        let ghost prev = cur@;
        if c == '|' {
            let piece = cur;
            cur = Vec::new();
            done.push(piece);
            proof {
                assert(done@.map_values(|v: Vec<char>| v@) =~= before.push(prev));
                assert(bar_fields(sub) =~= before.push(prev).push(Seq::empty()));
                assert(done@.map_values(|v: Vec<char>| v@).push(cur@) =~= bar_fields(sub));
            }
        } else {
            cur.push(c);
            proof {
                let p = before.push(prev);
                assert(bar_fields(sub) == p.update(p.len() - 1, p.last().push(c)));
                assert(p.update(p.len() - 1, p.last().push(c)) =~= before.push(cur@));
            }
        }
        i = i + 1;
    }
    assert(s@.subrange(0, n as int) =~= s@);
    let ghost before = done@.map_values(|v: Vec<char>| v@);
    done.push(cur);
    assert(done@.map_values(|v: Vec<char>| v@) =~= before.push(cur@));
    done
}

fn after_prefix_chars(t: &Vec<char>, p: &str) -> (r: Option<Vec<char>>)
    ensures
        match r {
            Some(x) => after_prefix(t@, p@) == Some(x@),
            None => after_prefix(t@, p@) is None,
        },
{
    let n = t.len();
    let m = p.unicode_len();
    if m > n {
        return None;
    }
    let mut i: usize = 0;
    while i < m
        invariant
            n == t@.len(),
            m == p@.len(),
            m <= n,
            i <= m,
            forall|j: int| 0 <= j < i ==> t@[j] == p@[j],
        decreases m - i,
    {
        if t[i] != p.get_char(i) {
            assert(t@.subrange(0, m as int)[i as int] != p@[i as int]);
            return None;
        }
        i = i + 1;
    }
    assert(t@.subrange(0, m as int) =~= p@);
    let mut out: Vec<char> = Vec::new();
    let mut k: usize = m;
    while k < n
        invariant
            n == t@.len(),
            m <= k <= n,
            out@ == t@.subrange(m as int, k as int),
        decreases n - k,
    {
        out.push(t[k]);
        k = k + 1;
        assert(out@ =~= t@.subrange(m as int, k as int));
    }
    Some(out)
}

fn find_field_after(fields: &Vec<Vec<char>>, p: &str) -> (r: Option<Vec<char>>)
    ensures
        match r {
            Some(x) => first_field_after(fields@.map_values(|v: Vec<char>| v@), p@) == Some(x@),
            None => first_field_after(fields@.map_values(|v: Vec<char>| v@), p@) is None,
        },
{
    let ghost all = fields@.map_values(|v: Vec<char>| v@);
    let mut i: usize = 0;
    assert(all.subrange(0, all.len() as int) =~= all);
    while i < fields.len()
        invariant
            i <= fields@.len(),
            all == fields@.map_values(|v: Vec<char>| v@),
            first_field_after(all, p@) == first_field_after(
                all.subrange(i as int, all.len() as int),
                p@,
            ),
        decreases fields.len() - i,
    {
        let ghost rest = all.subrange(i as int, all.len() as int);
        assert(rest[0] == fields@[i as int]@);
        if let Some(x) = after_prefix_chars(&fields[i], p) {
            return Some(x);
        }
        assert(rest.drop_first() =~= all.subrange(i as int + 1, all.len() as int));
        i = i + 1;
    }
    None
}

/// The trigger of a stored intention: what its first field reads back as.
pub fn intention_trigger_from_storage(value: &IntentionTriggerRef) -> (r: IntentionTrigger)
    ensures
        match trigger_reading(bar_fields(value.0@)[0]) {
            TriggerReading::At(x) => r == IntentionTrigger::At(x),
            TriggerReading::Event(name) => r matches IntentionTrigger::OnEvent(k) && k.wire_name()
                == name,
            TriggerReading::Condition(c) => r matches IntentionTrigger::OnCondition(x) && x.0@ == c,
        },
{
    let fields = fields_of(value.0.as_str());
    proof {
        lemma_bar_fields_nonempty(value.0@);
    }
    let first = string_of_chars(&fields[0]);
    IntentionTrigger::from_ref(&IntentionTriggerRef(first))
}

/// The seed of a stored intention: the unescaped text of its first `seed=`
/// field; a marker of recovery from a legacy event when it has none.
pub open spec fn stored_seed(s: Seq<char>) -> Seq<char> {
    match first_field_after(bar_fields(s), seq!['s', 'e', 'e', 'd', '=']) {
        Some(x) => unescaped_component(x),
        None => "recovered-from-legacy-event"@,
    }
}

pub fn intention_seed_from_storage(value: &IntentionTriggerRef) -> (r: SeedRef)
    ensures
        r.0@ == stored_seed(value.0@),
{
    let fields = fields_of(value.0.as_str());
    proof {
        reveal_strlit("seed=");
        assert("seed="@ =~= seq!['s', 'e', 'e', 'd', '=']);
    }
    match find_field_after(&fields, "seed=") {
        Some(x) => {
            let text = string_of_chars(&x);
            SeedRef(unescape_component(text.as_str()))
        },
        None => SeedRef("recovered-from-legacy-event".to_owned()),
    }
}

/// The expiry of a stored intention: the time in its first `expires=`
/// field, when that is not empty and parses.
pub open spec fn stored_expiry(s: Seq<char>) -> Option<i64> {
    match first_field_after(
        bar_fields(s),
        seq!['e', 'x', 'p', 'i', 'r', 'e', 's', '='],
    ) {
        Some(x) => if x.len() == 0 {
            None
        } else {
            parsed_i64(x)
        },
        None => None,
    }
}

pub fn intention_expiry_from_storage(value: &IntentionTriggerRef) -> (r: Option<Timestamp>)
    ensures
        r == stored_expiry(value.0@),
{
    let fields = fields_of(value.0.as_str());
    proof {
        reveal_strlit("expires=");
        assert("expires="@ =~= seq!['e', 'x', 'p', 'i', 'r', 'e', 's', '=']);
    }
    match find_field_after(&fields, "expires=") {
        Some(x) => {
            if x.len() == 0 {
                return None;
            }
            let text = string_of_chars(&x);
            parse_i64(text.as_str())
        },
        None => None,
    }
}


proof fn lemma_decimal_digits(n: nat)
    ensures
        all_digits(decimal_text(n)),
        digits_value(decimal_text(n)) == n,
    decreases n,
{
    if n < 10 {
        let c = (48 + n) as char;
        assert(c as int == 48 + n);
        assert(decimal_text(n) == seq![c]);
        assert(seq![c].drop_last() =~= Seq::<char>::empty());
        assert(digits_value(seq![c]) == digits_value(Seq::<char>::empty()) * 10 + (c as int - 48));
    }
    if n >= 10 {
        lemma_decimal_digits(n / 10);
        let d = decimal_text(n / 10);
        let c = (48 + n % 10) as char;
        assert(c as int == 48 + n % 10);
        assert(decimal_text(n) == d.push(c));
        assert(d.push(c).drop_last() =~= d);
        assert(d.push(c).last() == c);
        assert(n == (n / 10) * 10 + n % 10) by (nonlinear_arith);
        assert(digits_value(d.push(c)) == digits_value(d) * 10 + (c as int - 48));
        assert forall|i: int| 0 <= i < d.push(c).len() implies '0' <= #[trigger] d.push(c)[i] <= '9' by {
            if i < d.len() {
                assert(d.push(c)[i] == d[i]);
            }
        }
    }
}

/// A time written as text reads back as itself.
pub proof fn lemma_int_text_round_trip(x: i64)
    ensures
        parsed_i64(int_text(x as int)) == Some(x),
{
    if x < 0 {
        let m = (-x) as nat;
        lemma_decimal_digits(m);
        let t = seq!['-'] + decimal_text(m);
        assert(t.drop_first() =~= decimal_text(m));
    } else {
        lemma_decimal_digits(x as nat);
        let t = decimal_text(x as nat);
        assert('0' <= t[0] <= '9');
    }
}

proof fn lemma_no_bar_fields(a: Seq<char>)
    requires
        forall|i: int| 0 <= i < a.len() ==> #[trigger] a[i] != '|',
    ensures
        bar_fields(a) == seq![a],
    decreases a.len(),
{
    if a.len() > 0 {
        lemma_no_bar_fields(a.drop_last());
        assert(a.drop_last().push(a.last()) =~= a);
        assert(seq![a.drop_last()].update(0, a.drop_last().push(a.last())) =~= seq![a]);
    } else {
        assert(a =~= Seq::<char>::empty());
    }
}

proof fn lemma_bar_fields_split(a: Seq<char>, b: Seq<char>)
    requires
        forall|i: int| 0 <= i < a.len() ==> #[trigger] a[i] != '|',
    ensures
        bar_fields(a + seq!['|'] + b) == seq![a] + bar_fields(b),
    decreases b.len(),
{
    lemma_bar_fields_nonempty(b);
    if b.len() == 0 {
        lemma_no_bar_fields(a);
        let t = a + seq!['|'] + b;
        assert(t.drop_last() =~= a);
        assert(t.last() == '|');
        assert(seq![a].push(Seq::<char>::empty()) =~= seq![a] + bar_fields(b));
    } else {
        let b0 = b.drop_last();
        lemma_bar_fields_split(a, b0);
        lemma_bar_fields_nonempty(b0);
        let t = a + seq!['|'] + b;
        assert(t.drop_last() =~= a + seq!['|'] + b0);
        assert(t.last() == b.last());
        let q = bar_fields(b0);
        let p = seq![a] + q;
        if b.last() == '|' {
            assert(p.push(Seq::empty()) =~= seq![a] + q.push(Seq::empty()));
        } else {
            assert(p.update(p.len() - 1, p.last().push(b.last())) =~= seq![a] + q.update(
                q.len() - 1,
                q.last().push(b.last()),
            ));
        }
    }
}

/// The trigger text holds no `|`: always for a time or an event kind, and
/// for a condition when its reference holds none.
pub open spec fn storable_trigger(t: IntentionTrigger) -> bool {
    match t {
        IntentionTrigger::OnCondition(r) => forall|i: int|
            0 <= i < r.0@.len() ==> #[trigger] r.0@[i] != '|',
        _ => true,
    }
}

proof fn lemma_trigger_text_no_bar(t: IntentionTrigger)
    requires
        storable_trigger(t),
    ensures
        forall|i: int| 0 <= i < t.text().len() ==> #[trigger] t.text()[i] != '|',
        t.text().len() > 0,
        t.text()[0] == 'a' || t.text()[0] == 'e' || t.text()[0] == 'c',
        t.text()[0] == 'e' ==> t.text().len() > 1 && t.text()[1] == 'v',
{
    match t {
        IntentionTrigger::At(at) => {
            let d = int_text(at as int);
            assert forall|i: int| 0 <= i < d.len() implies #[trigger] d[i] != '|' by {
                if at < 0 {
                    lemma_decimal_digits((-at) as nat);
                    if i > 0 {
                        assert(d[i] == decimal_text((-at) as nat)[i - 1]);
                    }
                } else {
                    lemma_decimal_digits(at as nat);
                }
            }
            let p = seq!['a', 't', ':'];
            assert forall|i: int| 0 <= i < t.text().len() implies #[trigger] t.text()[i] != '|' by {
                if i >= 3 {
                    assert(t.text()[i] == d[i - 3]);
                }
            }
        },
        IntentionTrigger::OnEvent(k) => {
            let n = k.wire_name();
            assert(forall|i: int| 0 <= i < n.len() ==> #[trigger] n[i] != '|') by {
                crate::event::lemma_wire_names_have_no_bar(k);
            }
            assert forall|i: int| 0 <= i < t.text().len() implies #[trigger] t.text()[i] != '|' by {
                if i >= 6 {
                    assert(t.text()[i] == n[i - 6]);
                }
            }
        },
        IntentionTrigger::OnCondition(r) => {
            assert forall|i: int| 0 <= i < t.text().len() implies #[trigger] t.text()[i] != '|' by {
                if i >= 10 {
                    assert(t.text()[i] == r.0@[i - 10]);
                }
            }
        },
    }
}

/// A stored intention reads back its trigger text, its seed and its expiry,
/// when its trigger text holds no `|`.
pub proof fn lemma_intention_storage_round_trip(i: ProspectiveIntention)
    requires
        storable_trigger(i.trigger),
    ensures
        bar_fields(storage_text(i))[0] == i.trigger.text(),
        stored_seed(storage_text(i)) == i.seed.0@,
        stored_expiry(storage_text(i)) == i.expires_at,
{
    let t = i.trigger.text();
    let e = escaped_component(i.seed.0@);
    let x = match i.expires_at {
        Some(v) => int_text(v as int),
        None => Seq::<char>::empty(),
    };
    let seed_field = seq!['s', 'e', 'e', 'd', '='] + e;
    let expires_field = seq!['e', 'x', 'p', 'i', 'r', 'e', 's', '='] + x;
    lemma_trigger_text_no_bar(i.trigger);
    lemma_escaped_has_no_bar(i.seed.0@);
    assert forall|k: int| 0 <= k < x.len() implies #[trigger] x[k] != '|' by {
        match i.expires_at {
            Some(v) => {
                if v < 0 {
                    lemma_decimal_digits((-v) as nat);
                    if k > 0 {
                        assert(x[k] == decimal_text((-v) as nat)[k - 1]);
                    }
                } else {
                    lemma_decimal_digits(v as nat);
                }
            },
            None => {},
        }
    }
    assert forall|k: int| 0 <= k < seed_field.len() implies #[trigger] seed_field[k] != '|' by {
        if k >= 5 {
            assert(seed_field[k] == e[k - 5]);
        }
    }
    assert forall|k: int| 0 <= k < expires_field.len() implies #[trigger] expires_field[k] != '|' by {
        if k >= 8 {
            assert(expires_field[k] == x[k - 8]);
        }
    }
    let whole = t + seq!['|'] + (seed_field + seq!['|'] + expires_field);
    assert(whole =~= storage_text(i));
    lemma_bar_fields_split(t, seed_field + seq!['|'] + expires_field);
    lemma_bar_fields_split(seed_field, expires_field);
    lemma_no_bar_fields(expires_field);
    let fields = seq![t] + (seq![seed_field] + seq![expires_field]);
    assert(bar_fields(whole) =~= fields);
    let sp = seq!['s', 'e', 'e', 'd', '='];
    let xp = seq!['e', 'x', 'p', 'i', 'r', 'e', 's', '='];
    assert(after_prefix(t, sp) is None) by {
        if sp.len() <= t.len() {
            assert(t.subrange(0, 5)[0] != sp[0]);
        }
    }
    assert(fields.drop_first() =~= seq![seed_field, expires_field]);
    assert(seed_field.subrange(0, 5) =~= sp);
    assert(seed_field.subrange(5, seed_field.len() as int) =~= e);
    lemma_component_round_trip(i.seed.0@);
    assert(first_field_after(fields.drop_first(), sp) == Some(e));
    assert(first_field_after(fields, sp) == Some(e));
    assert(after_prefix(t, xp) is None) by {
        if xp.len() <= t.len() {
            if t[0] == 'e' {
                assert(t.subrange(0, 8)[1] != xp[1]);
            } else {
                assert(t.subrange(0, 8)[0] != xp[0]);
            }
        }
    }
    assert(after_prefix(seed_field, xp) is None) by {
        if xp.len() <= seed_field.len() {
            assert(seed_field.subrange(0, 8)[0] != xp[0]);
        }
    }
    assert(seq![seed_field, expires_field].drop_first() =~= seq![expires_field]);
    assert(expires_field.subrange(0, 8) =~= xp);
    assert(expires_field.subrange(8, expires_field.len() as int) =~= x);
    assert(first_field_after(seq![expires_field], xp) == Some(x));
    assert(first_field_after(seq![seed_field, expires_field], xp) == Some(x));
    assert(first_field_after(fields, xp) == Some(x));
    match i.expires_at {
        Some(v) => {
            lemma_int_text_round_trip(v);
            if v < 0 {
            } else {
                lemma_decimal_digits(v as nat);
            }
        },
        None => {},
    }
}


/// A trigger written down reads back as itself; an event trigger reads back
/// as the kind of the same name.
pub proof fn lemma_trigger_round_trip(t: IntentionTrigger)
    ensures
        trigger_reading(t.text()) == match t {
            IntentionTrigger::At(x) => TriggerReading::At(x),
            IntentionTrigger::OnEvent(k) => TriggerReading::Event(k.wire_name()),
            IntentionTrigger::OnCondition(r) => TriggerReading::Condition(r.0@),
        },
{
    let text = t.text();
    let ap = seq!['a', 't', ':'];
    let ep = seq!['e', 'v', 'e', 'n', 't', ':'];
    let cp = seq!['c', 'o', 'n', 'd', 'i', 't', 'i', 'o', 'n', ':'];
    match t {
        IntentionTrigger::At(x) => {
            assert(text.subrange(0, 3) =~= ap);
            assert(text.subrange(3, text.len() as int) =~= int_text(x as int));
            lemma_int_text_round_trip(x);
        },
        IntentionTrigger::OnEvent(k) => {
            if ap.len() <= text.len() {
                assert(text.subrange(0, 3)[0] != ap[0]);
            }
            assert(text.subrange(0, 6) =~= ep);
            assert(text.subrange(6, text.len() as int) =~= k.wire_name());
            assert(names_a_kind(k.wire_name()));
        },
        IntentionTrigger::OnCondition(r) => {
            if ap.len() <= text.len() {
                assert(text.subrange(0, 3)[0] != ap[0]);
            }
            if ep.len() <= text.len() {
                assert(text.subrange(0, 6)[0] != ep[0]);
            }
            assert(text.subrange(0, 10) =~= cp);
            assert(text.subrange(10, text.len() as int) =~= r.0@);
        },
    }
}

/// The text before the first `sep` and the text after it.
pub open spec fn split_once_at(s: Seq<char>, sep: char) -> Option<(Seq<char>, Seq<char>)>
    decreases s.len(),
{
    if s.len() == 0 {
        None
    } else if s[0] == sep {
        Some((Seq::empty(), s.drop_first()))
    } else {
        match split_once_at(s.drop_first(), sep) {
            Some(p) => Some((seq![s[0]] + p.0, p.1)),
            None => None,
        }
    }
}

fn split_once_chars(s: &Vec<char>, from: usize, sep: char) -> (r: Option<usize>)
    requires
        from <= s@.len(),
    ensures
        match r {
            Some(k) => from <= k < s@.len() && split_once_at(
                s@.subrange(from as int, s@.len() as int),
                sep,
            ) == Some((s@.subrange(from as int, k as int), s@.subrange(k + 1, s@.len() as int))),
            None => split_once_at(s@.subrange(from as int, s@.len() as int), sep) is None,
        },
    decreases s@.len() - from,
{
    let ghost t = s@.subrange(from as int, s@.len() as int);
    if from == s.len() {
        return None;
    }
    if s[from] == sep {
        proof {
            assert(t.drop_first() =~= s@.subrange(from + 1, s@.len() as int));
            assert(s@.subrange(from as int, from as int) =~= Seq::<char>::empty());
        }
        return Some(from);
    }
    let r = split_once_chars(s, from + 1, sep);
    proof {
        assert(t.drop_first() =~= s@.subrange(from + 1, s@.len() as int));
        match r {
            Some(k) => {
                assert(seq![t[0]] + s@.subrange(from + 1, k as int) =~= s@.subrange(
                    from as int,
                    k as int,
                ));
            },
            None => {},
        }
    }
    r
}

/// A lease marker read back: `intention-lease|<generation>|<lease>|<id>`
/// with exactly those three fields and the identifier escaped, or the
/// older `intention-lease:<lease>:<id>`; the intention and the time its
/// lease runs until.
pub open spec fn lease_reading(s: Seq<char>) -> Option<(Seq<char>, i64)> {
    let new_prefix = "intention-lease|"@;
    let old_prefix = "intention-lease:"@;
    match after_prefix(s, new_prefix) {
        Some(value) => {
            let f = bar_fields(value);
            if f.len() == 3 && parsed_i64(f[1]) is Some {
                Some((unescaped_component(f[2]), parsed_i64(f[1]).unwrap()))
            } else {
                None
            }
        },
        None => match after_prefix(s, old_prefix) {
            Some(value) => match split_once_at(value, ':') {
                Some(p) => match parsed_i64(p.0) {
                    Some(lease) => Some((p.1, lease)),
                    None => None,
                },
                None => None,
            },
            None => None,
        },
    }
}

/// What a claim pass does with one intention.
#[derive(Debug, Clone, Copy, PartialEq, Eq, Structural)]
pub enum ClaimStep {
    /// Leave it: filtered out, ended, or not due.
    Skip,
    /// Resolve it as expired.
    Expire,
    /// Lease it until the given time and fire it.
    Claim(Timestamp),
}

/// `x` held to the range of a timestamp.
pub open spec fn saturated(x: int) -> Timestamp {
    if x > i64::MAX {
        i64::MAX
    } else if x < i64::MIN {
        i64::MIN
    } else {
        x as i64
    }
}

/// No lease holds the intention at `now`.
pub open spec fn lease_free(lease_until: Option<Timestamp>, now: Timestamp) -> bool {
    match lease_until {
        Some(l) => l <= now,
        None => true,
    }
}

/// The claim decision: intentions the schedule filter leaves out and ended
/// ones are skipped, an expired one is resolved as expired, and a due one,
/// a pending timed intention whose time has come or a fired one, is leased
/// for `lease_ms` when no lease holds it.
pub open spec fn claim_step_for(
    intention: ProspectiveIntention,
    lease_until: Option<Timestamp>,
    scheduled: bool,
    schedule_filter: Option<bool>,
    now: Timestamp,
    lease_ms: i64,
) -> ClaimStep {
    if schedule_filter matches Some(f) && f != scheduled {
        ClaimStep::Skip
    } else if intention.state == IntentionState::Done || intention.state == IntentionState::Expired
        || intention.state == IntentionState::Cancelled {
        ClaimStep::Skip
    } else if intention.expires_at matches Some(e) && e <= now {
        ClaimStep::Expire
    } else if (intention.state == IntentionState::Pending && (intention.trigger matches IntentionTrigger::At(
        at,
    ) && at <= now) && lease_free(lease_until, now)) || (intention.state == IntentionState::Fired
        && lease_free(lease_until, now)) {
        ClaimStep::Claim(saturated(now + lease_ms))
    } else {
        ClaimStep::Skip
    }
}

pub fn claim_step(
    intention: &ProspectiveIntention,
    lease_until: Option<Timestamp>,
    scheduled: bool,
    schedule_filter: Option<bool>,
    now: Timestamp,
    lease_ms: i64,
) -> (r: ClaimStep)
    ensures
        r == claim_step_for(*intention, lease_until, scheduled, schedule_filter, now, lease_ms),
{
    if let Some(f) = schedule_filter {
        if f != scheduled {
            return ClaimStep::Skip;
        }
    }
    match intention.state {
        IntentionState::Done | IntentionState::Expired | IntentionState::Cancelled => {
            return ClaimStep::Skip;
        },
        _ => {},
    }
    if let Some(e) = intention.expires_at {
        if e <= now {
            return ClaimStep::Expire;
        }
    }
    let free = match lease_until {
        Some(l) => l <= now,
        None => true,
    };
    let due = match intention.state {
        IntentionState::Pending => match intention.trigger {
            IntentionTrigger::At(at) => at <= now && free,
            _ => false,
        },
        IntentionState::Fired => free,
        _ => false,
    };
    if !due {
        return ClaimStep::Skip;
    }
    let until = match now.checked_add(lease_ms) {
        Some(v) => v,
        None => if lease_ms > 0 {
            i64::MAX
        } else {
            i64::MIN
        },
    };
    ClaimStep::Claim(until)
}

/// A candidate transition to make: the event kind that records it, who
/// decided it, and why.
#[derive(Debug, Clone, PartialEq, Eq)]
pub struct CandidateDecision {
    pub kind: EventKind,
    pub by: DecisionActor,
    pub reason: ReasonRef,
}

/// The name a candidate state is written with.
pub open spec fn candidate_state_name(s: CandidateState) -> Seq<char> {
    match s {
        CandidateState::Candidate => "Candidate"@,
        CandidateState::Promoted => "Promoted"@,
        CandidateState::Rejected => "Rejected"@,
        CandidateState::Downgraded => "Downgraded"@,
        CandidateState::Decayed => "Decayed"@,
    }
}

fn candidate_state_str(s: CandidateState) -> (r: &'static str)
    ensures
        r@ == candidate_state_name(s),
{
    match s {
        CandidateState::Candidate => "Candidate",
        CandidateState::Promoted => "Promoted",
        CandidateState::Rejected => "Rejected",
        CandidateState::Downgraded => "Downgraded",
        CandidateState::Decayed => "Decayed",
    }
}

/// The event kind that records a move to `to`.
pub open spec fn transition_kind(to: CandidateState) -> EventKind {
    match to {
        CandidateState::Promoted => EventKind::CandidatePromoted,
        CandidateState::Rejected => EventKind::CandidateRejected,
        CandidateState::Downgraded => EventKind::CandidateDowngraded,
        _ => EventKind::CandidateDecayed,
    }
}

/// When moving a candidate from `current` (if it is registered) to `to` by
/// `by` is refused: an unregistered candidate, a move the lifecycle does not
/// allow, or a promotion not decided by the owner.
pub open spec fn transition_refused(current: Option<CandidateState>, to: CandidateState, by: Actor) -> bool {
    match current {
        None => true,
        Some(c) => c != to && (!candidate_step(c, to) || (to == CandidateState::Promoted && by
            != Actor::Owner)),
    }
}

/// Decides a candidate transition: nothing to do when the candidate is
/// already there, else the event to record it with, decided by the user when
/// the owner moves it and automatically otherwise.
pub fn plan_candidate_transition(current: Option<CandidateState>, to: CandidateState, by: &Actor) -> (r:
    Result<Option<CandidateDecision>, Error>)
    ensures
        r is Err <==> transition_refused(current, to, *by),
        r matches Ok(None) ==> current == Some(to),
        r matches Ok(Some(d)) ==> {
            &&& current matches Some(c) && c != to
            &&& d.kind == transition_kind(to)
            &&& d.by == (if *by == Actor::Owner { DecisionActor::User } else { DecisionActor::Auto })
            &&& d.reason.0@ == "candidate transition "@ + candidate_state_name(current->0) + " -> "@
                + candidate_state_name(to)
        },
{
    let current = match current {
        Some(c) => c,
        None => return Err(Error("candidate is not registered".to_string())),
    };
    if current == to {
        return Ok(None);
    }
    if !valid_candidate_transition(current, to) {
        return Err(Error("candidate transition is not allowed".to_string()));
    }
    let owner = match by {
        Actor::Owner => true,
        _ => false,
    };
    if to == CandidateState::Promoted && !owner {
        return Err(Error("M0 stable promotion requires an authenticated owner decision".to_string()));
    }
    let decided_by = if owner {
        DecisionActor::User
    } else {
        DecisionActor::Auto
    };
    let mut reason: Vec<char> = Vec::new();
    push_str_chars(&mut reason, "candidate transition ");
    push_str_chars(&mut reason, candidate_state_str(current));
    push_str_chars(&mut reason, " -> ");
    push_str_chars(&mut reason, candidate_state_str(to));
    let kind = match to {
        CandidateState::Promoted => EventKind::CandidatePromoted,
        CandidateState::Rejected => EventKind::CandidateRejected,
        CandidateState::Downgraded => EventKind::CandidateDowngraded,
        _ => EventKind::CandidateDecayed,
    };
    proof {
        lemma_candidate_final_states(current, to);
        assert(reason@ =~= "candidate transition "@ + candidate_state_name(current) + " -> "@
            + candidate_state_name(to));
    }
    Ok(
        Some(
            CandidateDecision { kind, by: decided_by, reason: ReasonRef(string_of_chars(&reason)) },
        ),
    )
}

/// The lease record of a claim: `intention-lease|<generation>|<lease>|<id>`,
/// with the claim generation and the intention escaped.
pub open spec fn lease_text(generation: Seq<char>, lease_until: i64, id: Seq<char>) -> Seq<char> {
    "intention-lease|"@ + (escaped_component(generation) + seq!['|'] + (int_text(
        lease_until as int,
    ) + seq!['|'] + escaped_component(id)))
}

pub fn intention_lease_ref(generation: &EventId, lease_until: i64, id: &IntentionId) -> (r:
    MemoryDeltasRef)
    ensures
        r.0@ == lease_text(generation.0@, lease_until, id.0@),
{
    let g = escape_component(generation.0.as_str());
    let i = escape_component(id.0.as_str());
    let mut out: Vec<char> = Vec::new();
    push_str_chars(&mut out, "intention-lease|");
    push_str_chars(&mut out, g.as_str());
    out.push('|');
    push_i64(&mut out, lease_until);
    out.push('|');
    push_str_chars(&mut out, i.as_str());
    proof {
        assert(out@ =~= lease_text(generation.0@, lease_until, id.0@));
    }
    MemoryDeltasRef(string_of_chars(&out))
}

proof fn lemma_int_text_has_no_bar(x: i64)
    ensures
        forall|k: int| 0 <= k < int_text(x as int).len() ==> #[trigger] int_text(x as int)[k] != '|',
{
    let d = int_text(x as int);
    assert forall|k: int| 0 <= k < d.len() implies #[trigger] d[k] != '|' by {
        if x < 0 {
            lemma_decimal_digits((-x) as nat);
            if k > 0 {
                assert(d[k] == decimal_text((-x) as nat)[k - 1]);
            }
        } else {
            lemma_decimal_digits(x as nat);
        }
    }
}

/// A lease record reads back as the intention it claims and the time the
/// lease runs until.
pub proof fn lemma_lease_round_trip(generation: Seq<char>, lease_until: i64, id: Seq<char>)
    ensures
        lease_reading(lease_text(generation, lease_until, id)) == Some((id, lease_until)),
{
    let p = "intention-lease|"@;
    let g = escaped_component(generation);
    let n = int_text(lease_until as int);
    let e = escaped_component(id);
    let rest = g + seq!['|'] + (n + seq!['|'] + e);
    let t = p + rest;
    assert(t == lease_text(generation, lease_until, id));
    assert(t.subrange(0, p.len() as int) =~= p);
    assert(t.subrange(p.len() as int, t.len() as int) =~= rest);
    assert(after_prefix(t, p) == Some(rest));
    lemma_escaped_has_no_bar(generation);
    lemma_escaped_has_no_bar(id);
    lemma_int_text_has_no_bar(lease_until);
    lemma_bar_fields_split(g, n + seq!['|'] + e);
    lemma_bar_fields_split(n, e);
    lemma_no_bar_fields(e);
    let f = seq![g] + (seq![n] + seq![e]);
    assert(bar_fields(rest) =~= f);
    assert(f[1] == n);
    assert(f[2] == e);
    lemma_int_text_round_trip(lease_until);
    lemma_component_round_trip(id);
}

pub fn parse_intention_lease(reference: &MemoryDeltasRef) -> (r: Option<(IntentionId, i64)>)
    ensures
        match r {
            Some(p) => lease_reading(reference.0@) == Some((p.0.0@, p.1)),
            None => lease_reading(reference.0@) is None,
        },
{
    let text = reference.0.as_str();
    if let Some(value) = strip_prefix_chars(text, "intention-lease|") {
        let fields = fields_of(value.as_str());
        if fields.len() != 3 {
            return None;
        }
        proof {
            assert(fields@.map_values(|v: Vec<char>| v@)[1] == fields@[1]@);
            assert(fields@.map_values(|v: Vec<char>| v@)[2] == fields@[2]@);
        }
        let lease_text = string_of_chars(&fields[1]);
        let lease = match parse_i64(lease_text.as_str()) {
            Some(l) => l,
            None => return None,
        };
        let id_text = string_of_chars(&fields[2]);
        let id = unescape_component(id_text.as_str());
        return Some((IntentionId(id), lease));
    }
    let value = match strip_prefix_chars(text, "intention-lease:") {
        Some(v) => v,
        None => return None,
    };
    let chars = chars_of(value.as_str());
    proof {
        assert(chars@.subrange(0, chars@.len() as int) =~= chars@);
    }
    let k = match split_once_chars(&chars, 0, ':') {
        Some(k) => k,
        None => return None,
    };
    let lease_text = string_of_range(&chars, 0, k);
    let id_text = string_of_range(&chars, k + 1, chars.len());
    match parse_i64(lease_text.as_str()) {
        Some(lease) => Some((IntentionId(id_text), lease)),
        None => None,
    }
}

impl Duplicate for Actor {
    fn duplicate(&self) -> (r: Self) {
        match self {
            Actor::Owner => Actor::Owner,
            Actor::Agent => Actor::Agent,
            Actor::Subagent(run) => Actor::Subagent(run.duplicate()),
            Actor::External(p) => Actor::External(p.duplicate()),
            Actor::System => Actor::System,
        }
    }
}

impl Duplicate for Provenance {
    fn duplicate(&self) -> (r: Self) {
        Provenance {
            source: self.source,
            actor: self.actor.duplicate(),
            trust_tier: self.trust_tier,
            caused_by: match &self.caused_by {
                Some(e) => Some(e.duplicate()),
                None => None,
            },
        }
    }
}

/// Memory's trigger for a protocol trigger.
pub open spec fn trigger_of(t: crate::control::IntentionTrigger) -> IntentionTrigger {
    match t {
        crate::control::IntentionTrigger::At(at) => IntentionTrigger::At(at),
        crate::control::IntentionTrigger::OnEvent(k) => IntentionTrigger::OnEvent(k),
        crate::control::IntentionTrigger::OnCondition(r) => IntentionTrigger::OnCondition(r),
    }
}

/// The protocol's trigger for a memory trigger.
pub open spec fn protocol_trigger_of(t: IntentionTrigger) -> crate::control::IntentionTrigger {
    match t {
        IntentionTrigger::At(at) => crate::control::IntentionTrigger::At(at),
        IntentionTrigger::OnEvent(k) => crate::control::IntentionTrigger::OnEvent(k),
        IntentionTrigger::OnCondition(r) => crate::control::IntentionTrigger::OnCondition(r),
    }
}

pub open spec fn state_of(s: crate::control::IntentionState) -> IntentionState {
    match s {
        crate::control::IntentionState::Pending => IntentionState::Pending,
        crate::control::IntentionState::Fired => IntentionState::Fired,
        crate::control::IntentionState::Done => IntentionState::Done,
        crate::control::IntentionState::Expired => IntentionState::Expired,
        crate::control::IntentionState::Cancelled => IntentionState::Cancelled,
    }
}

pub open spec fn protocol_state_of(s: IntentionState) -> crate::control::IntentionState {
    match s {
        IntentionState::Pending => crate::control::IntentionState::Pending,
        IntentionState::Fired => crate::control::IntentionState::Fired,
        IntentionState::Done => crate::control::IntentionState::Done,
        IntentionState::Expired => crate::control::IntentionState::Expired,
        IntentionState::Cancelled => crate::control::IntentionState::Cancelled,
    }
}

/// Memory's intention for a protocol intention, field for field.
pub open spec fn intention_of(i: crate::control::ProspectiveIntention) -> ProspectiveIntention {
    ProspectiveIntention {
        schema_version: i.schema_version,
        id: i.id,
        source: i.source,
        trigger: trigger_of(i.trigger),
        state: state_of(i.state),
        seed: i.seed,
        provenance: i.provenance,
        expires_at: i.expires_at,
    }
}

/// The protocol's intention for a memory intention, field for field.
pub open spec fn protocol_intention_of(i: ProspectiveIntention) -> crate::control::ProspectiveIntention {
    crate::control::ProspectiveIntention {
        schema_version: i.schema_version,
        id: i.id,
        source: i.source,
        trigger: protocol_trigger_of(i.trigger),
        state: protocol_state_of(i.state),
        seed: i.seed,
        provenance: i.provenance,
        expires_at: i.expires_at,
    }
}

pub fn intention_from_protocol(intention: &crate::control::ProspectiveIntention) -> (r:
    ProspectiveIntention)
    ensures
        r == intention_of(*intention),
{
    ProspectiveIntention {
        schema_version: intention.schema_version,
        id: intention.id.duplicate(),
        source: intention.source,
        trigger: match &intention.trigger {
            crate::control::IntentionTrigger::At(at) => IntentionTrigger::At(*at),
            crate::control::IntentionTrigger::OnEvent(kind) => IntentionTrigger::OnEvent(*kind),
            crate::control::IntentionTrigger::OnCondition(reference) => IntentionTrigger::OnCondition(
                reference.duplicate(),
            ),
        },
        state: match intention.state {
            crate::control::IntentionState::Pending => IntentionState::Pending,
            crate::control::IntentionState::Fired => IntentionState::Fired,
            crate::control::IntentionState::Done => IntentionState::Done,
            crate::control::IntentionState::Expired => IntentionState::Expired,
            crate::control::IntentionState::Cancelled => IntentionState::Cancelled,
        },
        seed: intention.seed.duplicate(),
        provenance: intention.provenance.duplicate(),
        expires_at: intention.expires_at,
    }
}

pub fn protocol_intention(intention: &ProspectiveIntention) -> (r: crate::control::ProspectiveIntention)
    ensures
        r == protocol_intention_of(*intention),
{
    crate::control::ProspectiveIntention {
        schema_version: intention.schema_version,
        id: intention.id.duplicate(),
        source: intention.source,
        trigger: match &intention.trigger {
            IntentionTrigger::At(at) => crate::control::IntentionTrigger::At(*at),
            IntentionTrigger::OnEvent(kind) => crate::control::IntentionTrigger::OnEvent(*kind),
            IntentionTrigger::OnCondition(reference) => crate::control::IntentionTrigger::OnCondition(
                reference.duplicate(),
            ),
        },
        state: match intention.state {
            IntentionState::Pending => crate::control::IntentionState::Pending,
            IntentionState::Fired => crate::control::IntentionState::Fired,
            IntentionState::Done => crate::control::IntentionState::Done,
            IntentionState::Expired => crate::control::IntentionState::Expired,
            IntentionState::Cancelled => crate::control::IntentionState::Cancelled,
        },
        seed: intention.seed.duplicate(),
        provenance: intention.provenance.duplicate(),
        expires_at: intention.expires_at,
    }
}

/// An intention taken from the protocol into memory and back is unchanged.
pub proof fn lemma_intention_conversion_round_trip(i: crate::control::ProspectiveIntention)
    ensures
        protocol_intention_of(intention_of(i)) == i,
{
    assert(protocol_trigger_of(trigger_of(i.trigger)) == i.trigger);
    assert(protocol_state_of(state_of(i.state)) == i.state);
}

/// Two intentions define the same thing: they agree on everything but their
/// state.
pub open spec fn same_definition(a: ProspectiveIntention, b: ProspectiveIntention) -> bool {
    &&& a.schema_version == b.schema_version
    &&& a.id.0@ == b.id.0@
    &&& a.source == b.source
    &&& same_trigger_spec(a.trigger, b.trigger)
    &&& a.seed.0@ == b.seed.0@
    &&& provenance_view(a.provenance) == provenance_view(b.provenance)
    &&& a.expires_at == b.expires_at
}

/// Two triggers are the same: the same time, the same event kind, or
/// conditions with the same text.
pub open spec fn same_trigger_spec(a: IntentionTrigger, b: IntentionTrigger) -> bool {
    match (a, b) {
        (IntentionTrigger::At(x), IntentionTrigger::At(y)) => x == y,
        (IntentionTrigger::OnEvent(x), IntentionTrigger::OnEvent(y)) => x == y,
        (IntentionTrigger::OnCondition(x), IntentionTrigger::OnCondition(y)) => x.0@ == y.0@,
        _ => false,
    }
}

/// A provenance with its actor's and cause's identifiers as text.
pub open spec fn provenance_view(p: Provenance) -> (
    crate::primitives::Source,
    (nat, Seq<char>),
    TrustTier,
    Option<Seq<char>>,
) {
    (
        p.source,
        match p.actor {
            Actor::Owner => (0, Seq::empty()),
            Actor::Agent => (1, Seq::empty()),
            Actor::Subagent(r) => (2, r.0@),
            Actor::External(x) => (3, x.0@),
            Actor::System => (4, Seq::empty()),
        },
        p.trust_tier,
        match p.caused_by {
            Some(e) => Some(e.0@),
            None => None,
        },
    )
}

fn same_actor(a: &Actor, b: &Actor) -> (r: bool)
    ensures
        r == ((match *a {
            Actor::Owner => (0nat, Seq::<char>::empty()),
            Actor::Agent => (1nat, Seq::<char>::empty()),
            Actor::Subagent(r) => (2nat, r.0@),
            Actor::External(x) => (3nat, x.0@),
            Actor::System => (4nat, Seq::<char>::empty()),
        }) == (match *b {
            Actor::Owner => (0nat, Seq::<char>::empty()),
            Actor::Agent => (1nat, Seq::<char>::empty()),
            Actor::Subagent(r) => (2nat, r.0@),
            Actor::External(x) => (3nat, x.0@),
            Actor::System => (4nat, Seq::<char>::empty()),
        })),
{
    match (a, b) {
        (Actor::Owner, Actor::Owner) => true,
        (Actor::Agent, Actor::Agent) => true,
        (Actor::Subagent(x), Actor::Subagent(y)) => same_text(&x.0, &y.0),
        (Actor::External(x), Actor::External(y)) => same_text(&x.0, &y.0),
        (Actor::System, Actor::System) => true,
        _ => false,
    }
}

/// Two provenances are the same: source, actor, trust tier and cause.
pub fn same_provenance(a: &Provenance, b: &Provenance) -> (r: bool)
    ensures
        r == (provenance_view(*a) == provenance_view(*b)),
{
    let cause = match (&a.caused_by, &b.caused_by) {
        (Some(x), Some(y)) => same_text(&x.0, &y.0),
        (None, None) => true,
        _ => false,
    };
    a.source == b.source && same_actor(&a.actor, &b.actor) && a.trust_tier == b.trust_tier
        && cause
}

fn same_trigger(a: &IntentionTrigger, b: &IntentionTrigger) -> (r: bool)
    ensures
        r == same_trigger_spec(*a, *b),
{
    match (a, b) {
        (IntentionTrigger::At(x), IntentionTrigger::At(y)) => *x == *y,
        (IntentionTrigger::OnEvent(x), IntentionTrigger::OnEvent(y)) => *x == *y,
        (IntentionTrigger::OnCondition(x), IntentionTrigger::OnCondition(y)) => same_text(&x.0, &y.0),
        _ => false,
    }
}

pub fn same_intention_definition(left: &ProspectiveIntention, right: &ProspectiveIntention) -> (r:
    bool)
    ensures
        r == same_definition(*left, *right),
{
    let cause = match (&left.provenance.caused_by, &right.provenance.caused_by) {
        (Some(x), Some(y)) => same_text(&x.0, &y.0),
        (None, None) => true,
        _ => false,
    };
    left.schema_version == right.schema_version && same_text(&left.id.0, &right.id.0)
        && left.source == right.source && same_trigger(&left.trigger, &right.trigger) && same_text(
        &left.seed.0,
        &right.seed.0,
    ) && left.provenance.source == right.provenance.source && same_actor(
        &left.provenance.actor,
        &right.provenance.actor,
    ) && left.provenance.trust_tier == right.provenance.trust_tier && cause && left.expires_at
        == right.expires_at
}


/// A query of the memory graph: within a scope, of a node kind, with
/// content holding a text; each part left open matches anything.
#[derive(Debug, Clone, PartialEq, Eq)]
pub struct GraphQuery {
    pub schema_version: SchemaVersion,
    pub scope: Option<MemoryScope>,
    pub kind: Option<NodeKind>,
    pub content_contains: Option<String>,
}

impl Default for GraphQuery {
    fn default() -> (r: Self)
        ensures
            r.schema_version == SchemaVersion(1),
            r.scope is None,
            r.kind is None,
            r.content_contains is None,
    {
        GraphQuery { schema_version: SchemaVersion(1), scope: None, kind: None, content_contains: None }
    }
}

/// How far activation may spread through the graph.
#[derive(Debug, Clone, PartialEq, Eq)]
pub struct ActivationBudget {
    pub schema_version: SchemaVersion,
    pub max_hops: u8,
    pub top_k_frontier: u16,
    pub per_tick: u32,
}

/// A node reached by spreading activation, with its level.
#[derive(Debug, Clone, PartialEq, Eq)]
pub struct Activated {
    pub schema_version: SchemaVersion,
    pub node: NodeId,
    pub level: Confidence,
}

/// A summary of a memory scope built from its events.
#[derive(Debug, Clone, PartialEq, Eq)]
pub struct MemorySummary {
    pub schema_version: SchemaVersion,
    pub scope: Scope,
    pub text: String,
    pub source_refs: Vec<EventId>,
    pub raw_event_count: u64,
    pub is_raw_dump: bool,
    pub provenance: Provenance,
}

/// A cue to recall memory of a scope by a query text.
#[derive(Debug, Clone, PartialEq, Eq)]
pub struct RecallCue {
    pub schema_version: SchemaVersion,
    pub scope: MemoryScope,
    pub query: String,
}

/// A query of one memory scope on behalf of another.
#[derive(Debug, Clone, PartialEq, Eq)]
pub struct ScopedMemoryQuery {
    pub schema_version: SchemaVersion,
    pub requester: MemoryScope,
    pub target: MemoryScope,
    pub query: String,
    pub limit: usize,
}

/// A span of time, both ends included.
#[derive(Debug, Clone, PartialEq, Eq)]
pub struct TimeWindow {
    pub schema_version: SchemaVersion,
    pub starts_at: Timestamp,
    pub ends_at: Timestamp,
}

/// Which candidates to list: of a state, for targets with a prefix.
#[derive(Debug, Clone, PartialEq, Eq)]
pub struct CandidateFilter {
    pub schema_version: SchemaVersion,
    pub state: Option<CandidateState>,
    pub target_prefix: Option<String>,
}

impl Default for CandidateFilter {
    fn default() -> (r: Self)
        ensures
            r.schema_version == SchemaVersion(1),
            r.state is None,
            r.target_prefix is None,
    {
        CandidateFilter { schema_version: SchemaVersion(1), state: None, target_prefix: None }
    }
}

/// An attribute of the owner that memory holds as stable.
#[derive(Debug, Clone, PartialEq, Eq)]
pub struct UserModelAttribute {
    pub schema_version: SchemaVersion,
    pub attribute: UserAttributeRef,
    pub value: UserAttributeValueRef,
    pub evidence: Vec<EvidenceRef>,
    pub confidence: Confidence,
    pub stability: StabilityTier,
    pub scope: Scope,
    pub first_observed_at: Timestamp,
    pub last_updated_at: Timestamp,
    pub conflicts: Vec<CandidateId>,
    pub feedback: Vec<FeedbackRef>,
    pub provenance: Provenance,
}

/// Evidence imported from an earlier history, weighted low and used only to
/// bootstrap.
#[derive(Debug, Clone, PartialEq, Eq)]
pub struct ImportedHistoricalEvidence {
    pub schema_version: SchemaVersion,
    pub source: HistoricalSourceRef,
    pub low_weight: bool,
    pub bootstrap_only: bool,
    pub provenance: Provenance,
}

} // verus!
