//! The goal-lineage projection: the state of one long-term goal, rebuilt from
//! the stored events that speak of it.
use vstd::prelude::*;

use crate::m2_c::{
    AggregateVersion, GoalCheckpoint, GoalIntentionResolution, GoalLineageSnapshot, LongTermGoal,
};
use crate::primitives::{
    Error, ExecutionRouteRef, GoalFrameRef, IntentionId, IntentionOutcome, SchemaVersion,
};
use crate::projection::{
    ascending, find_text, lemma_store_order_ignores_arrival, lemma_unsequenced_alike, own_places, lists, lists_versions, put_in_order, put_result, raise_version,
    record_version, store_order, store_ordered, MemoryPayload, StoredEvent,
};
use crate::text::{blank, has_text, is_blank, same_text, Duplicate, Textual};

verus! {

/// What the projection has gathered so far.
pub struct LineageState {
    pub goal: Option<LongTermGoal>,
    /// The intentions created under the goal.
    pub intentions: Set<Seq<char>>,
    /// Resolutions of those intentions, in store order.
    pub resolutions: Seq<GoalIntentionResolution>,
    pub routes: Set<Seq<char>>,
    /// The latest checkpoint under each reference.
    pub checkpoints: Map<Seq<char>, GoalCheckpoint>,
    /// The highest sequence number seen in each aggregate.
    pub versions: Map<Seq<char>, u64>,
    pub cancelled: bool,
    pub revoked: bool,
    /// An event contradicted the goal or carried an invalid definition.
    pub broken: bool,
}

pub open spec fn lineage_start() -> LineageState {
    LineageState {
        goal: None,
        intentions: Set::empty(),
        resolutions: Seq::empty(),
        routes: Set::empty(),
        checkpoints: Map::empty(),
        versions: Map::empty(),
        cancelled: false,
        revoked: false,
        broken: false,
    }
}

/// Two goal definitions are the same, field by field.
pub open spec fn same_goal(a: LongTermGoal, b: LongTermGoal) -> bool {
    &&& a.schema_version == b.schema_version
    &&& a.goal_frame.0@ == b.goal_frame.0@
    &&& a.scope.0@ == b.scope.0@
    &&& a.situation_digest.0@ == b.situation_digest.0@
    &&& a.budget.0@ == b.budget.0@
    &&& a.expires_at == b.expires_at
}

pub fn goals_equal(a: &LongTermGoal, b: &LongTermGoal) -> (r: bool)
    ensures
        r == same_goal(*a, *b),
{
    a.schema_version.0 == b.schema_version.0 && same_text(&a.goal_frame.0, &b.goal_frame.0)
        && same_text(&a.scope.0, &b.scope.0) && same_text(
        &a.situation_digest.0,
        &b.situation_digest.0,
    ) && same_text(&a.budget.0, &b.budget.0) && a.expires_at == b.expires_at
}

/// The optional goal frame is the goal `g`.
pub open spec fn names_goal(f: Option<GoalFrameRef>, g: Seq<char>) -> bool {
    f matches Some(x) && x.0@ == g
}

/// What one event in store order adds to the lineage of goal `g`.
pub open spec fn lineage_step(st: LineageState, e: StoredEvent, g: Seq<char>) -> LineageState {
    let st = LineageState { versions: raise_version(st.versions, e.run_id.0@, e.stream_seq), ..st };
    match e.payload {
        MemoryPayload::GoalFramed { goal_frame, long_term } => {
            if goal_frame.0@ == g && long_term is Some {
                let c = long_term->0;
                if !c.valid() || c.goal_frame.0@ != g || (st.goal matches Some(x) && !same_goal(
                    x,
                    c,
                )) {
                    LineageState { broken: true, ..st }
                } else {
                    LineageState { goal: Some(c), ..st }
                }
            } else {
                st
            }
        },
        MemoryPayload::ProspectiveIntentionCreated { intention_id, goal_frame } => {
            if names_goal(goal_frame, g) {
                LineageState { intentions: st.intentions.insert(intention_id.0@), ..st }
            } else {
                st
            }
        },
        MemoryPayload::ProspectiveIntentionResolved { intention_id, outcome } => {
            if st.intentions.contains(intention_id.0@) {
                LineageState {
                    cancelled: st.cancelled || outcome == IntentionOutcome::Cancelled,
                    resolutions: st.resolutions.push(
                        GoalIntentionResolution {
                            schema_version: SchemaVersion(1),
                            intention: intention_id,
                            outcome,
                            event_ref: e.event_id,
                        },
                    ),
                    ..st
                }
            } else {
                st
            }
        },
        MemoryPayload::OrchestrationRouteCreated { route, goal_frame, checkpoint } => {
            if names_goal(goal_frame, g) {
                let st = LineageState { routes: st.routes.insert(route.0@), ..st };
                match checkpoint {
                    Some(c) => {
                        if !c.valid() || c.goal_frame.0@ != g || c.route.0@ != route.0@ {
                            LineageState { broken: true, ..st }
                        } else {
                            LineageState { checkpoints: st.checkpoints.insert(c.reference.0@, c), ..st }
                        }
                    },
                    None => st,
                }
            } else {
                st
            }
        },
        MemoryPayload::RevocationEvent { target_object } => {
            if target_object.0@ == g {
                LineageState { revoked: true, ..st }
            } else {
                st
            }
        },
        _ => st,
    }
}

/// The lineage of goal `g` gathered from events taken in the given order.
pub open spec fn lineage_fold(s: Seq<StoredEvent>, g: Seq<char>) -> LineageState
    decreases s.len(),
{
    if s.len() == 0 {
        lineage_start()
    } else {
        lineage_step(lineage_fold(s.drop_last(), g), s.last(), g)
    }
}

/// The lineage of goal `g` in the given events, taken in store order.
pub open spec fn goal_lineage(events: Seq<StoredEvent>, g: Seq<char>) -> LineageState {
    lineage_fold(store_ordered(events), g)
}

/// When a rebuild is refused: no goal or no events, an event the store has not
/// sequenced, an event that contradicts the goal, or no definition of it.
pub open spec fn lineage_refused(events: Seq<StoredEvent>, g: Seq<char>) -> bool {
    ||| is_blank(g)
    ||| events.len() == 0
    ||| exists|i: int| 0 <= i < events.len() && #[trigger] events[i].stream_seq == 0
    ||| goal_lineage(events, g).broken
    ||| goal_lineage(events, g).goal is None
}

/// The snapshot is the gathered lineage.
pub open spec fn describes(snap: GoalLineageSnapshot, st: LineageState) -> bool {
    &&& snap.schema_version == SchemaVersion(1)
    &&& st.goal == Some(snap.goal)
    &&& lists(snap.intentions@, st.intentions)
    &&& snap.resolutions@ == st.resolutions
    &&& lists(snap.routes@, st.routes)
    &&& lists_checkpoints(snap.checkpoints@, st.checkpoints)
    &&& lists_versions(snap.aggregate_versions@, st.versions)
    &&& snap.cancelled == st.cancelled
    &&& snap.revoked == st.revoked
}

proof fn lemma_broken_stays(s: Seq<StoredEvent>, g: Seq<char>, k: int, j: int)
    requires
        0 <= k <= j <= s.len(),
        lineage_fold(s.take(k), g).broken,
    ensures
        lineage_fold(s.take(j), g).broken,
    decreases j - k,
{
    if j > k {
        lemma_broken_stays(s, g, k, j - 1);
        assert(s.take(j).drop_last() =~= s.take(j - 1));
    }
}

proof fn lemma_lists_after_put<T: Textual>(before: Seq<T>, after: Seq<T>, x: T, s: Set<Seq<char>>)
    requires
        lists(before, s),
        put_result(before, after, x),
    ensures
        lists(after, s.insert(x.text())),
{
    assert forall|t: Seq<char>| s.insert(x.text()).contains(t) implies has_text(after, t) by {
        if t == x.text() {
            let i = choose|i: int| 0 <= i < after.len() && after[i] == x;
        } else {
            let i = choose|i: int| 0 <= i < before.len() && #[trigger] before[i].text() == t;
            assert(after.contains(before[i]));
            let j = choose|j: int| 0 <= j < after.len() && after[j] == before[i];
        }
    }
    assert forall|i: int| 0 <= i < after.len() implies s.insert(x.text()).contains(
        #[trigger] after[i].text(),
    ) by {
        if after[i] != x {
            let j = choose|j: int| 0 <= j < before.len() && before[j] == after[i];
        }
    }
}

/// A lineage rebuild does not depend on the order in which the events
/// arrive: the same events, each with a place of its own, are refused alike
/// and give the same lineage.
pub proof fn lemma_lineage_rebuild_ignores_arrival(
    a: Seq<StoredEvent>,
    b: Seq<StoredEvent>,
    g: Seq<char>,
)
    requires
        a.to_multiset() == b.to_multiset(),
        own_places(a.to_multiset()),
    ensures
        lineage_refused(a, g) == lineage_refused(b, g),
        goal_lineage(a, g) == goal_lineage(b, g),
{
    lemma_store_order_ignores_arrival(a, b);
    lemma_unsequenced_alike(a, b);
}

/// `v` lists the checkpoints of `m`, one per reference, in the order of
/// their references.
pub open spec fn lists_checkpoints(v: Seq<GoalCheckpoint>, m: Map<Seq<char>, GoalCheckpoint>) -> bool {
    &&& ascending(v)
    &&& forall|i: int|
        0 <= i < v.len() ==> m.contains_key(#[trigger] v[i].text()) && v[i].same_as(
            m[v[i].text()],
        )
    &&& forall|t: Seq<char>| m.contains_key(t) ==> has_text(v, t)
}

proof fn lemma_checkpoints_after_put(
    before: Seq<GoalCheckpoint>,
    after: Seq<GoalCheckpoint>,
    x: GoalCheckpoint,
    c: GoalCheckpoint,
    m: Map<Seq<char>, GoalCheckpoint>,
)
    requires
        lists_checkpoints(before, m),
        put_result(before, after, x),
        x.same_as(c),
    ensures
        lists_checkpoints(after, m.insert(c.text(), c)),
{
    let m2 = m.insert(c.text(), c);
    assert forall|t: Seq<char>| m2.contains_key(t) implies has_text(after, t) by {
        if t == x.text() {
            let i = choose|i: int| 0 <= i < after.len() && after[i] == x;
        } else {
            assert(m.contains_key(t));
            assert(has_text(before, t));
            let i = choose|i: int| 0 <= i < before.len() && #[trigger] before[i].text() == t;
            assert(after.contains(before[i]));
            let j = choose|j: int| 0 <= j < after.len() && after[j] == before[i];
        }
    }
    assert forall|i: int| 0 <= i < after.len() implies m2.contains_key(
        #[trigger] after[i].text(),
    ) && after[i].same_as(m2[after[i].text()]) by {
        if after[i] != x {
            let j = choose|j: int| 0 <= j < before.len() && before[j] == after[i];
        }
    }
}

/// Rebuilds the lineage of one long-term goal from stored events.
#[derive(Debug, Clone, Copy, Default)]
pub struct GoalLineageProjector;

impl GoalLineageProjector {
    /// The goal's definition, its intentions and their resolutions, its routes
    /// and checkpoints and the version of each aggregate read, gathered from
    /// the events in store order.
    pub fn rebuild(&self, events: &[StoredEvent], goal_frame: &GoalFrameRef) -> (r: Result<
        GoalLineageSnapshot,
        Error,
    >)
        ensures
            r is Err <==> lineage_refused(events@, goal_frame.0@),
            r matches Ok(snap) ==> describes(snap, goal_lineage(events@, goal_frame.0@)),
    {
        let ghost g = goal_frame.0@;
        if blank(goal_frame.0.as_str()) || events.len() == 0 {
            return Err(Error("goal lineage rebuild boundary is incomplete".to_string()));
        }
        let mut z: usize = 0;
        while z < events.len()
            invariant
                z <= events@.len(),
                forall|i: int| 0 <= i < z ==> #[trigger] events@[i].stream_seq != 0,
            decreases events@.len() - z,
        {
            if events[z].stream_seq == 0 {
                return Err(Error("goal lineage only accepts store-sequenced events".to_string()));
            }
            z = z + 1;
        }
        let order = store_order(events);
        let ghost sorted = order@.map_values(|i: usize| events@[i as int]);
        let mut goal: Option<LongTermGoal> = None;
        let mut intentions: Vec<IntentionId> = Vec::new();
        let mut resolutions: Vec<GoalIntentionResolution> = Vec::new();
        let mut routes: Vec<ExecutionRouteRef> = Vec::new();
        let mut checkpoints: Vec<GoalCheckpoint> = Vec::new();
        let mut versions: Vec<AggregateVersion> = Vec::new();
        let mut cancelled = false;
        let mut revoked = false;
        let mut k: usize = 0;
        proof {
            assert(sorted.take(0) =~= Seq::<StoredEvent>::empty());
        }
        while k < order.len()
            invariant
                k <= order@.len(),
                order@.len() == events@.len(),
                forall|i: int| 0 <= i < order@.len() ==> #[trigger] order@[i] < events@.len(),
                sorted == order@.map_values(|i: usize| events@[i as int]),
                sorted == store_ordered(events@),
                g == goal_frame.0@,
                !lineage_fold(sorted.take(k as int), g).broken,
                goal == lineage_fold(sorted.take(k as int), g).goal,
                lists(intentions@, lineage_fold(sorted.take(k as int), g).intentions),
                resolutions@ == lineage_fold(sorted.take(k as int), g).resolutions,
                lists(routes@, lineage_fold(sorted.take(k as int), g).routes),
                lists_checkpoints(checkpoints@, lineage_fold(sorted.take(k as int), g).checkpoints),
                lists_versions(versions@, lineage_fold(sorted.take(k as int), g).versions),
                cancelled == lineage_fold(sorted.take(k as int), g).cancelled,
                revoked == lineage_fold(sorted.take(k as int), g).revoked,
            decreases order@.len() - k,
        {
            let e = &events[order[k]];
            let ghost st = lineage_fold(sorted.take(k as int), g);
            let ghost st2 = lineage_step(st, *e, g);
            proof {
                assert(sorted[k as int] == *e);
                assert(sorted.take(k + 1).drop_last() =~= sorted.take(k as int));
                assert(lineage_fold(sorted.take(k + 1), g) == st2);
            }
            record_version(&mut versions, &e.run_id, e.stream_seq, Ghost(st.versions));
            match &e.payload {
                MemoryPayload::GoalFramed { goal_frame: framed, long_term } => {
                    if same_text(&framed.0, &goal_frame.0) {
                        match long_term {
                            Some(candidate) => {
                                let checked = candidate.validate();
                                if checked.is_err() || !same_text(
                                    &candidate.goal_frame.0,
                                    &goal_frame.0,
                                ) {
                                    proof {
                                        lemma_broken_stays(sorted, g, k + 1, sorted.len() as int);
                                        assert(sorted.take(sorted.len() as int) =~= sorted);
                                    }
                                    return match checked {
                                        Err(err) => Err(err),
                                        Ok(()) => Err(
                                            Error(
                                                "long-term goal does not match its GoalFramed event".to_string(),
                                            ),
                                        ),
                                    };
                                }
                                let changed = match &goal {
                                    Some(existing) => !goals_equal(existing, candidate),
                                    None => false,
                                };
                                if changed {
                                    proof {
                                        lemma_broken_stays(sorted, g, k + 1, sorted.len() as int);
                                        assert(sorted.take(sorted.len() as int) =~= sorted);
                                    }
                                    return Err(
                                        Error(
                                            "long-term goal definition changed without a new identity".to_string(),
                                        ),
                                    );
                                }
                                goal = Some(candidate.duplicate());
                            },
                            None => {},
                        }
                    }
                },
                MemoryPayload::ProspectiveIntentionCreated { intention_id, goal_frame: under } => {
                    let named = match under {
                        Some(f) => same_text(&f.0, &goal_frame.0),
                        None => false,
                    };
                    if named {
                        let ghost before = intentions@;
                        put_in_order(&mut intentions, intention_id.duplicate());
                        proof {
                            lemma_lists_after_put(
                                before,
                                intentions@,
                                *intention_id,
                                st.intentions,
                            );
                        }
                    }
                },
                MemoryPayload::ProspectiveIntentionResolved { intention_id, outcome } => {
                    if find_text(&intentions, &intention_id.0).is_some() {
                        cancelled = cancelled || match outcome {
                            IntentionOutcome::Cancelled => true,
                            _ => false,
                        };
                        resolutions.push(
                            GoalIntentionResolution {
                                schema_version: SchemaVersion(1),
                                intention: intention_id.duplicate(),
                                outcome: *outcome,
                                event_ref: e.event_id.duplicate(),
                            },
                        );
                    }
                },
                MemoryPayload::OrchestrationRouteCreated { route, goal_frame: under, checkpoint } => {
                    let named = match under {
                        Some(f) => same_text(&f.0, &goal_frame.0),
                        None => false,
                    };
                    if named {
                        let ghost before = routes@;
                        put_in_order(&mut routes, route.duplicate());
                        proof {
                            lemma_lists_after_put(before, routes@, *route, st.routes);
                        }
                        match checkpoint {
                            Some(c) => {
                                let checked = c.validate();
                                if checked.is_err() || !same_text(&c.goal_frame.0, &goal_frame.0)
                                    || !same_text(&c.route.0, &route.0) {
                                    proof {
                                        lemma_broken_stays(sorted, g, k + 1, sorted.len() as int);
                                        assert(sorted.take(sorted.len() as int) =~= sorted);
                                    }
                                    return match checked {
                                        Err(err) => Err(err),
                                        Ok(()) => Err(
                                            Error(
                                                "goal checkpoint does not match its route event".to_string(),
                                            ),
                                        ),
                                    };
                                }
                                let ghost before_c = checkpoints@;
                                let copied = c.copy();
                                let ghost gx = copied;
                                put_in_order(&mut checkpoints, copied);
                                proof {
                                    lemma_checkpoints_after_put(
                                        before_c,
                                        checkpoints@,
                                        gx,
                                        *c,
                                        st.checkpoints,
                                    );
                                }
                            },
                            None => {},
                        }
                    }
                },
                MemoryPayload::RevocationEvent { target_object } => {
                    if same_text(&target_object.0, &goal_frame.0) {
                        revoked = true;
                    }
                },
                _ => {},
            }
            k = k + 1;
        }
        proof {
            assert(sorted.take(k as int) =~= sorted);
        }
        match goal {
            Some(goal) => Ok(
                GoalLineageSnapshot {
                    schema_version: SchemaVersion(1),
                    goal,
                    intentions,
                    resolutions,
                    routes,
                    checkpoints,
                    aggregate_versions: versions,
                    cancelled,
                    revoked,
                },
            ),
            None => Err(Error("long-term goal event is missing".to_string())),
        }
    }
}

/// Some resolution ends an intention as cancelled.
pub open spec fn has_cancelled_resolution(resolutions: Seq<GoalIntentionResolution>) -> bool {
    exists|j: int| 0 <= j < resolutions.len() && (#[trigger] resolutions[j]).outcome == IntentionOutcome::Cancelled
}

proof fn lemma_fold_cancelled_iff(s: Seq<StoredEvent>, g: Seq<char>)
    ensures
        lineage_fold(s, g).cancelled <==> has_cancelled_resolution(lineage_fold(s, g).resolutions),
    decreases s.len(),
{
    if s.len() > 0 {
        lemma_fold_cancelled_iff(s.drop_last(), g);
        let before = lineage_fold(s.drop_last(), g);
        let after = lineage_fold(s, g);
        match s.last().payload {
            MemoryPayload::ProspectiveIntentionResolved { intention_id, outcome } => {
                if before.intentions.contains(intention_id.0@) {
                    let n = before.resolutions.len() as int;
                    assert(after.resolutions == before.resolutions.push(after.resolutions[n]));
                    assert(after.resolutions[n].outcome == outcome);
                    if has_cancelled_resolution(before.resolutions) {
                        let j = choose|j: int| 0 <= j < before.resolutions.len() && (#[trigger] before.resolutions[j]).outcome
                            == IntentionOutcome::Cancelled;
                        assert(after.resolutions[j] == before.resolutions[j]);
                    }
                    if outcome == IntentionOutcome::Cancelled {
                        assert(after.resolutions[n].outcome == IntentionOutcome::Cancelled);
                    }
                    if has_cancelled_resolution(after.resolutions) {
                        let j = choose|j: int| 0 <= j < after.resolutions.len() && (#[trigger] after.resolutions[j]).outcome
                            == IntentionOutcome::Cancelled;
                        if j < n {
                            assert(before.resolutions[j] == after.resolutions[j]);
                        }
                    }
                }
            },
            _ => {},
        }
    }
}

/// A rebuilt lineage is cancelled exactly when one of the goal's
/// intentions was resolved as cancelled; an intention that is done, fired
/// or expired never cancels the goal.
pub proof fn lemma_cancelled_only_by_a_cancellation(
    events: Seq<StoredEvent>,
    g: Seq<char>,
    snap: GoalLineageSnapshot,
)
    requires
        describes(snap, goal_lineage(events, g)),
    ensures
        snap.cancelled <==> exists|j: int|
            0 <= j < snap.resolutions@.len() && (#[trigger] snap.resolutions@[j]).outcome
                == IntentionOutcome::Cancelled,
{
    lemma_fold_cancelled_iff(store_ordered(events), g);
}

} // verus!
