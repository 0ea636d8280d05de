use forme::event::EventKind;
use forme::memory::{
    claim_step, intention_lease_ref, parse_intention_lease, plan_candidate_transition,
    CandidateState, ClaimStep, IntentionState, IntentionTrigger, ProspectiveIntention,
};
use forme::primitives::{
    Actor, DecisionActor, EventId, IntentionId, IntentionSource, IntentionTriggerRef, Provenance,
    SchemaVersion, SeedRef, Source, TrustTier,
};

fn intention(trigger: IntentionTrigger, state: IntentionState, expires_at: Option<i64>) -> ProspectiveIntention {
    ProspectiveIntention {
        schema_version: SchemaVersion(1),
        id: IntentionId("intention:due".into()),
        source: IntentionSource::Commitment,
        trigger,
        state,
        seed: SeedRef("seed".into()),
        provenance: Provenance {
            source: Source::Schedule,
            actor: Actor::System,
            trust_tier: TrustTier::VerifiedProcess,
            caused_by: None,
        },
        expires_at,
    }
}

#[test]
fn lease_records_read_back_the_claimed_intention_and_lease() {
    let id = IntentionId("intention:a|b%c".into());
    let reference = intention_lease_ref(&EventId("event:gen|1".into()), 1_250, &id);
    assert_eq!(reference.0, "intention-lease|event:gen%7C1|1250|intention:a%7Cb%25c");
    assert_eq!(parse_intention_lease(&reference), Some((id, 1_250)));
    let negative = intention_lease_ref(&EventId("g".into()), -5, &IntentionId("i".into()));
    assert_eq!(parse_intention_lease(&negative), Some((IntentionId("i".into()), -5)));
}

#[test]
fn claims_go_to_due_unleased_intentions_only() {
    let at = IntentionTrigger::At(100);
    let pending = intention(at.clone(), IntentionState::Pending, None);
    assert_eq!(claim_step(&pending, None, false, None, 100, 50), ClaimStep::Claim(150));
    assert_eq!(claim_step(&pending, None, false, None, 99, 50), ClaimStep::Skip);
    assert_eq!(claim_step(&pending, Some(120), false, None, 110, 50), ClaimStep::Skip);
    assert_eq!(claim_step(&pending, Some(110), false, None, 110, 50), ClaimStep::Claim(160));
    assert_eq!(claim_step(&pending, None, false, Some(true), 100, 50), ClaimStep::Skip);
    assert_eq!(claim_step(&pending, None, true, Some(true), 100, 50), ClaimStep::Claim(150));
    assert_eq!(claim_step(&pending, None, false, None, i64::MAX - 1, 50), ClaimStep::Claim(i64::MAX));
    let on_event = intention(
        IntentionTrigger::OnEvent(EventKind::RunComplete),
        IntentionState::Pending,
        None,
    );
    assert_eq!(claim_step(&on_event, None, false, None, 1_000, 50), ClaimStep::Skip);
    let fired = intention(
        IntentionTrigger::OnCondition(IntentionTriggerRef("condition:x".into())),
        IntentionState::Fired,
        None,
    );
    assert_eq!(claim_step(&fired, None, false, None, 10, 5), ClaimStep::Claim(15));
    let expired = intention(at.clone(), IntentionState::Pending, Some(90));
    assert_eq!(claim_step(&expired, None, false, None, 100, 50), ClaimStep::Expire);
    let done = intention(at, IntentionState::Done, Some(90));
    assert_eq!(claim_step(&done, None, false, None, 100, 50), ClaimStep::Skip);
}

#[test]
fn candidate_transitions_follow_the_lifecycle_and_owner_rules() {
    assert!(plan_candidate_transition(None, CandidateState::Promoted, &Actor::Owner).is_err());
    assert_eq!(
        plan_candidate_transition(Some(CandidateState::Rejected), CandidateState::Rejected, &Actor::Agent)
            .unwrap(),
        None
    );
    assert!(plan_candidate_transition(Some(CandidateState::Rejected), CandidateState::Promoted, &Actor::Owner)
        .is_err());
    assert!(plan_candidate_transition(Some(CandidateState::Candidate), CandidateState::Promoted, &Actor::Agent)
        .is_err());
    let promoted =
        plan_candidate_transition(Some(CandidateState::Candidate), CandidateState::Promoted, &Actor::Owner)
            .unwrap()
            .unwrap();
    assert_eq!(promoted.kind, EventKind::CandidatePromoted);
    assert_eq!(promoted.by, DecisionActor::User);
    assert_eq!(promoted.reason.0, "candidate transition Candidate -> Promoted");
    let decayed =
        plan_candidate_transition(Some(CandidateState::Downgraded), CandidateState::Decayed, &Actor::System)
            .unwrap()
            .unwrap();
    assert_eq!(decayed.kind, EventKind::CandidateDecayed);
    assert_eq!(decayed.by, DecisionActor::Auto);
    assert_eq!(decayed.reason.0, "candidate transition Downgraded -> Decayed");
}
