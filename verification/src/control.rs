//! Owner control surfaces: profiles, cursors, approvals, schedules, candidate
//! review and manual evaluation.
use vstd::prelude::*;

use crate::event::{Event, EventKind};
use crate::lifecycle::{RunRequest, RunResult};
use crate::primitives::{
    Actor, ApprovalChoice, ApprovalId, ApprovalOutcome, AutonomyEnvelope, Budget, CandidateId,
    CapabilityRef, DoneContractRef, DurationMs, Error, EvalCaseRef, EvalRef, EventId,
    EvidenceRef, FailureEvidenceRef, IntentionId, IntentionSource, IntentionTriggerRef, LineageRef,
    ModelProfileRef, Nonce, ObjectRef, PermissionRef, PlanDigest, PolicyProfileRef, Provenance,
    ReasonRef, ReplaySnapshotRef, ResourceRef, Risk, RollbackBoundary, RubricRef, RunId,
    RunStatus, SchemaVersion, Scope, SeedRef, SessionId, Source, SurfaceRef, Timestamp,
    ToolsetRef, TrustTier, VerificationOutcome, VerifiedPrincipal, Version, WorkspaceRef,
};
use crate::text::{all_filled, blank, check_all_filled, is_blank, same_text, Duplicate};

verus! {

#[derive(Debug, Clone, Copy, PartialEq, Eq, Hash, Structural)]
pub enum SurfaceKind {
    Cli,
    LocalWeb,
    LocalNotification,
}

#[derive(Debug, Clone, PartialEq, Eq)]
pub struct SurfaceProfile {
    pub schema_version: SchemaVersion,
    pub surface: SurfaceRef,
    pub kind: SurfaceKind,
    pub trust: TrustTier,
    pub scope: Scope,
}

impl SurfaceProfile {
    pub open spec fn valid(&self) -> bool {
        &&& self.schema_version.0 != 0
        &&& !is_blank(self.surface.0@)
        &&& !is_blank(self.scope.0@)
    }

    pub fn validate(&self) -> (r: Result<(), Error>)
        ensures
            r is Ok <==> self.valid(),
    {
        if self.schema_version.0 == 0 || blank(self.surface.0.as_str()) || blank(
            self.scope.0.as_str(),
        ) {
            return Err(Error("surface profile is incomplete".to_string()));
        }
        Ok(())
    }
}

#[derive(Debug, Clone, PartialEq, Eq)]
pub struct GatewayProfile {
    pub schema_version: SchemaVersion,
    pub surface: SurfaceRef,
    pub policy: PolicyProfileRef,
    pub model: ModelProfileRef,
    pub toolset: ToolsetRef,
    pub workspace: WorkspaceRef,
}

impl GatewayProfile {
    pub open spec fn valid(&self) -> bool {
        &&& self.schema_version.0 != 0
        &&& !is_blank(self.surface.0@)
        &&& !is_blank(self.policy.0@)
        &&& !is_blank(self.model.0@)
        &&& !is_blank(self.toolset.0@)
        &&& !is_blank(self.workspace.0@)
    }

    pub fn validate(&self) -> (r: Result<(), Error>)
        ensures
            r is Ok <==> self.valid(),
    {
        if self.schema_version.0 == 0 || blank(self.surface.0.as_str()) || blank(
            self.policy.0.as_str(),
        ) || blank(self.model.0.as_str()) || blank(self.toolset.0.as_str()) || blank(
            self.workspace.0.as_str(),
        ) {
            return Err(Error("gateway profile is incomplete".to_string()));
        }
        Ok(())
    }
}

#[derive(Debug, Clone, PartialEq, Eq)]
pub struct ControlProfile {
    pub schema_version: SchemaVersion,
    pub owner: VerifiedPrincipal,
    pub gateway: GatewayProfile,
}

impl ControlProfile {
    pub open spec fn valid(&self) -> bool {
        &&& self.schema_version.0 != 0
        &&& !is_blank(self.owner.0@)
        &&& self.gateway.valid()
    }

    pub fn validate(&self) -> (r: Result<(), Error>)
        ensures
            r is Ok <==> self.valid(),
    {
        if self.schema_version.0 == 0 || blank(self.owner.0.as_str()) {
            return Err(Error("control profile is incomplete".to_string()));
        }
        self.gateway.validate()
    }
}

#[derive(Debug, Clone, PartialEq, Eq)]
pub struct EventCursor {
    pub schema_version: SchemaVersion,
    pub run: RunId,
    pub after_stream_seq: u64,
}

impl EventCursor {
    pub open spec fn valid(&self) -> bool {
        &&& self.schema_version.0 != 0
        &&& !is_blank(self.run.0@)
        &&& self.after_stream_seq != u64::MAX
    }

    pub fn validate(&self) -> (r: Result<(), Error>)
        ensures
            r is Ok <==> self.valid(),
    {
        if self.schema_version.0 == 0 || blank(self.run.0.as_str()) || self.after_stream_seq
            == u64::MAX {
            return Err(Error("event cursor is incomplete".to_string()));
        }
        Ok(())
    }
}

#[derive(Debug, Clone, PartialEq, Eq)]
pub struct EventPage {
    pub schema_version: SchemaVersion,
    pub run: RunId,
    pub after_stream_seq: u64,
    pub snapshot_upper_bound: u64,
    pub events: Vec<Event>,
}

impl EventPage {
    /// The page is the contiguous slice of the run's stream that starts right
    /// after the cursor and ends exactly at the snapshot bound.
    pub open spec fn valid(&self) -> bool {
        &&& self.schema_version.0 != 0
        &&& !is_blank(self.run.0@)
        &&& self.snapshot_upper_bound >= self.after_stream_seq
        &&& self.after_stream_seq + self.events@.len() < u64::MAX
        &&& forall|i: int|
            0 <= i < self.events@.len() ==> {
                &&& (#[trigger] self.events@[i]).run_id.0@ == self.run.0@
                &&& self.events@[i].stream_seq == self.after_stream_seq + 1 + i
            }
        &&& self.snapshot_upper_bound == self.after_stream_seq + self.events@.len()
    }

    pub fn validate(&self) -> (r: Result<(), Error>)
        ensures
            r is Ok <==> self.valid(),
    {
        if self.schema_version.0 == 0 || blank(self.run.0.as_str()) || self.snapshot_upper_bound
            < self.after_stream_seq {
            return Err(Error("event page boundary is invalid".to_string()));
        }
        if self.after_stream_seq == u64::MAX {
            return Err(Error("event page cursor is exhausted".to_string()));
        }
        let mut expected: u64 = self.after_stream_seq + 1;
        let mut i: usize = 0;
        while i < self.events.len()
            invariant
                i <= self.events@.len(),
                expected == self.after_stream_seq + 1 + i,
                self.snapshot_upper_bound >= self.after_stream_seq,
                forall|j: int|
                    0 <= j < i ==> {
                        &&& (#[trigger] self.events@[j]).run_id.0@ == self.run.0@
                        &&& self.events@[j].stream_seq == self.after_stream_seq + 1 + j
                        &&& self.events@[j].stream_seq <= self.snapshot_upper_bound
                    },
            decreases self.events@.len() - i,
        {
            let event = &self.events[i];
            if !same_text(&event.run_id.0, &self.run.0) || event.stream_seq != expected
                || event.stream_seq > self.snapshot_upper_bound {
                return Err(Error("event page is not a contiguous run cursor slice".to_string()));
            }
            if expected == u64::MAX {
                return Err(Error("event page sequence is exhausted".to_string()));
            }
            expected = expected + 1;
            i = i + 1;
        }
        let returned_upper_bound = if self.events.len() == 0 {
            self.after_stream_seq
        } else {
            self.events[self.events.len() - 1].stream_seq
        };
        if returned_upper_bound != self.snapshot_upper_bound {
            return Err(Error("event page does not reach its snapshot bound".to_string()));
        }
        Ok(())
    }
}

#[derive(Debug, Clone, PartialEq, Eq)]
pub struct RunSummary {
    pub schema_version: SchemaVersion,
    pub run: RunId,
    pub source: Source,
    pub session: SessionId,
    pub workspace: Option<WorkspaceRef>,
    pub status: RunStatus,
    pub last_stream_seq: u64,
    pub result: Option<RunResult>,
}

#[derive(Debug, Clone, PartialEq, Eq)]
pub struct PendingApproval {
    pub schema_version: SchemaVersion,
    pub run: RunId,
    pub session: SessionId,
    pub approval_id: ApprovalId,
    pub action_summary: String,
    pub risk_level: Risk,
    pub scope: Scope,
    pub requested_permissions: Vec<PermissionRef>,
    pub affected_resources: Vec<ResourceRef>,
    pub rollback_boundary: RollbackBoundary,
    pub expires_at: Timestamp,
    pub choices: Vec<ApprovalChoice>,
    pub plan_digest: PlanDigest,
    pub policy_version: Version,
    pub tool_schema_version: Version,
}

impl PendingApproval {
    pub open spec fn valid(&self) -> bool {
        &&& self.schema_version.0 != 0
        &&& !is_blank(self.run.0@)
        &&& !is_blank(self.session.0@)
        &&& !is_blank(self.approval_id.0@)
        &&& !is_blank(self.action_summary@)
        &&& !is_blank(self.scope.0@)
        &&& self.choices@.len() > 0
        &&& !is_blank(self.plan_digest.0@)
        &&& self.policy_version.0 != 0
        &&& self.tool_schema_version.0 != 0
    }

    pub fn validate(&self) -> (r: Result<(), Error>)
        ensures
            r is Ok <==> self.valid(),
    {
        if self.schema_version.0 == 0 || blank(self.run.0.as_str()) || blank(
            self.session.0.as_str(),
        ) || blank(self.approval_id.0.as_str()) || blank(self.action_summary.as_str()) || blank(
            self.scope.0.as_str(),
        ) || self.choices.len() == 0 || blank(self.plan_digest.0.as_str())
            || self.policy_version.0 == 0 || self.tool_schema_version.0 == 0 {
            return Err(Error("pending approval is incomplete".to_string()));
        }
        Ok(())
    }
}

#[derive(Debug, Clone, PartialEq, Eq)]
pub struct TraceView {
    pub schema_version: SchemaVersion,
    pub run: RunId,
    pub snapshot_upper_bound: u64,
    pub events: Vec<Event>,
    pub failure_refs: Vec<FailureEvidenceRef>,
    pub verification_outcomes: Vec<VerificationOutcome>,
}

#[derive(Debug, Clone, PartialEq, Eq)]
pub struct ApprovalDecision {
    pub schema_version: SchemaVersion,
    pub approval_id: ApprovalId,
    pub outcome: ApprovalOutcome,
    pub approver: VerifiedPrincipal,
    pub bound_plan_digest: PlanDigest,
    pub policy_version: Version,
    pub tool_schema_version: Version,
    pub nonce: Nonce,
    pub use_by: Timestamp,
}

impl ApprovalDecision {
    pub open spec fn valid(&self) -> bool {
        &&& self.schema_version.0 != 0
        &&& !is_blank(self.approval_id.0@)
        &&& !is_blank(self.approver.0@)
        &&& !is_blank(self.bound_plan_digest.0@)
        &&& !is_blank(self.nonce.0@)
        &&& self.policy_version.0 != 0
        &&& self.tool_schema_version.0 != 0
        &&& self.use_by > 0
    }

    pub fn validate(&self) -> (r: Result<(), Error>)
        ensures
            r is Ok <==> self.valid(),
    {
        if self.schema_version.0 == 0 || blank(self.approval_id.0.as_str()) || blank(
            self.approver.0.as_str(),
        ) || blank(self.bound_plan_digest.0.as_str()) || blank(self.nonce.0.as_str())
            || self.policy_version.0 == 0 || self.tool_schema_version.0 == 0 || self.use_by
            <= 0 {
            return Err(Error("approval decision is incomplete".to_string()));
        }
        Ok(())
    }
}

#[derive(Debug, Clone, PartialEq, Eq)]
pub struct CancelRequest {
    pub schema_version: SchemaVersion,
    pub reason: ReasonRef,
}

impl CancelRequest {
    pub open spec fn valid(&self) -> bool {
        self.schema_version.0 != 0 && !is_blank(self.reason.0@)
    }

    pub fn validate(&self) -> (r: Result<(), Error>)
        ensures
            r is Ok <==> self.valid(),
    {
        if self.schema_version.0 == 0 || blank(self.reason.0.as_str()) {
            return Err(Error("cancel request is incomplete".to_string()));
        }
        Ok(())
    }
}

#[derive(Debug, Clone, PartialEq, Eq)]
pub enum RunControl {
    ResolveApproval(ApprovalDecision),
    Cancel(CancelRequest),
}

#[derive(Debug, Clone, PartialEq, Eq)]
pub enum IntentionTrigger {
    At(Timestamp),
    OnEvent(EventKind),
    OnCondition(IntentionTriggerRef),
}

#[derive(Debug, Clone, Copy, PartialEq, Eq, Structural)]
pub enum IntentionState {
    Pending,
    Fired,
    Done,
    Expired,
    Cancelled,
}

#[derive(Debug, Clone, PartialEq, Eq)]
pub struct ProspectiveIntention {
    pub schema_version: SchemaVersion,
    pub id: IntentionId,
    pub source: IntentionSource,
    pub trigger: IntentionTrigger,
    pub state: IntentionState,
    pub seed: SeedRef,
    pub provenance: Provenance,
    pub expires_at: Option<Timestamp>,
}

impl ProspectiveIntention {
    pub open spec fn valid(&self) -> bool {
        &&& self.schema_version.0 != 0
        &&& !is_blank(self.id.0@)
        &&& !is_blank(self.seed.0@)
        &&& self.state == IntentionState::Pending
        &&& !(self.expires_at matches Some(e) && e <= 0)
        &&& !(self.trigger matches IntentionTrigger::OnCondition(reference) && is_blank(
            reference.0@,
        ))
    }

    pub fn validate(&self) -> (r: Result<(), Error>)
        ensures
            r is Ok <==> self.valid(),
    {
        let expired = match self.expires_at {
            Some(e) => e <= 0,
            None => false,
        };
        let blank_condition = match &self.trigger {
            IntentionTrigger::OnCondition(reference) => blank(reference.0.as_str()),
            _ => false,
        };
        if self.schema_version.0 == 0 || blank(self.id.0.as_str()) || blank(self.seed.0.as_str())
            || self.state != IntentionState::Pending || expired || blank_condition {
            return Err(Error("prospective intention is incomplete".to_string()));
        }
        Ok(())
    }
}

#[derive(Debug, Clone, PartialEq, Eq)]
pub struct ScheduleBinding {
    pub schema_version: SchemaVersion,
    pub session: SessionId,
    pub envelope: AutonomyEnvelope,
    pub budget: Budget,
}

impl ScheduleBinding {
    pub open spec fn valid(&self) -> bool {
        &&& self.schema_version.0 != 0
        &&& !is_blank(self.session.0@)
        &&& self.envelope.schema_version.0 != 0
        &&& !is_blank(self.envelope.scope.0@)
        &&& self.envelope.capability.schema_version.0 != 0
        &&& self.envelope.timebox.schema_version.0 != 0
        &&& self.envelope.rollback.schema_version.0 != 0
        &&& self.envelope.timebox.max_turns != 0
        &&& self.envelope.timebox.starts_at <= self.envelope.timebox.expires_at
        &&& !is_blank(self.budget.0@)
    }

    pub fn validate(&self) -> (r: Result<(), Error>)
        ensures
            r is Ok <==> self.valid(),
    {
        if self.schema_version.0 == 0 || blank(self.session.0.as_str())
            || self.envelope.schema_version.0 == 0 || blank(self.envelope.scope.0.as_str())
            || self.envelope.capability.schema_version.0 == 0
            || self.envelope.timebox.schema_version.0 == 0
            || self.envelope.rollback.schema_version.0 == 0
            || self.envelope.timebox.max_turns == 0 || self.envelope.timebox.starts_at
            > self.envelope.timebox.expires_at || blank(self.budget.0.as_str()) {
            return Err(Error("schedule binding is incomplete".to_string()));
        }
        Ok(())
    }
}

#[derive(Debug, Clone, PartialEq, Eq)]
pub struct ScheduleCommand {
    pub schema_version: SchemaVersion,
    pub intention: ProspectiveIntention,
    pub session: SessionId,
    pub envelope: AutonomyEnvelope,
    pub budget: Budget,
}

impl ScheduleCommand {
    pub open spec fn binding_view(&self) -> ScheduleBinding {
        ScheduleBinding {
            schema_version: self.schema_version,
            session: self.session,
            envelope: self.envelope,
            budget: self.budget,
        }
    }

    /// The schedule binding that this command carries.
    pub fn binding(&self) -> (r: ScheduleBinding)
        ensures
            r.schema_version == self.schema_version,
            r.session == self.session,
            r.envelope.matches(&self.envelope),
            r.budget == self.budget,
    {
        ScheduleBinding {
            schema_version: self.schema_version,
            session: self.session.duplicate(),
            envelope: self.envelope.duplicate(),
            budget: self.budget.duplicate(),
        }
    }

    pub open spec fn valid(&self) -> bool {
        &&& self.schema_version.0 != 0
        &&& self.intention.valid()
        &&& self.binding_view().valid()
        &&& !(self.intention.expires_at matches Some(e) && e > self.envelope.timebox.expires_at)
    }

    pub fn validate(&self) -> (r: Result<(), Error>)
        ensures
            r is Ok <==> self.valid(),
    {
        if self.schema_version.0 == 0 {
            return Err(Error("schedule command is not versioned".to_string()));
        }
        self.intention.validate()?;
        let binding = self.binding();
        binding.validate()?;
        match self.intention.expires_at {
            Some(e) => {
                if e > self.envelope.timebox.expires_at {
                    return Err(Error("intention expiry exceeds its autonomy timebox".to_string()));
                }
            },
            None => {},
        }
        Ok(())
    }
}

#[derive(Debug, Clone, PartialEq, Eq)]
pub struct SchedulerConfig {
    pub schema_version: SchemaVersion,
    pub tick: DurationMs,
    pub lease: DurationMs,
    pub max_claims_per_tick: u32,
}

impl SchedulerConfig {
    pub open spec fn valid(&self) -> bool {
        &&& self.schema_version.0 != 0
        &&& self.tick.0 != 0
        &&& self.lease.0 != 0
        &&& self.max_claims_per_tick != 0
    }

    pub fn validate(&self) -> (r: Result<(), Error>)
        ensures
            r is Ok <==> self.valid(),
    {
        if self.schema_version.0 == 0 || self.tick.0 == 0 || self.lease.0 == 0
            || self.max_claims_per_tick == 0 {
            return Err(Error("scheduler configuration is incomplete".to_string()));
        }
        Ok(())
    }
}

#[derive(Debug, Clone, PartialEq, Eq)]
pub struct ScheduleClaim {
    pub schema_version: SchemaVersion,
    pub command: ScheduleCommand,
    pub lease_until: Timestamp,
    pub claim_event: EventId,
}

#[derive(Debug, Clone, PartialEq, Eq)]
pub struct ScheduledJob {
    pub schema_version: SchemaVersion,
    pub intention: ProspectiveIntention,
    pub binding: ScheduleBinding,
    pub lease_until: Option<Timestamp>,
    pub run: Option<RunId>,
    pub run_status: Option<RunStatus>,
    pub manual_review: bool,
}

#[derive(Debug, Clone, PartialEq, Eq)]
pub struct SchedulerTickReport {
    pub schema_version: SchemaVersion,
    pub at: Timestamp,
    pub claimed: Vec<IntentionId>,
    pub started_runs: Vec<RunId>,
    pub deferred: Vec<IntentionId>,
    pub resolved: Vec<IntentionId>,
    pub manual_review: Vec<RunId>,
    pub follow_up_runs: Vec<RunId>,
}

#[derive(Debug, Clone, PartialEq, Eq)]
pub struct RecoveryReport {
    pub schema_version: SchemaVersion,
    pub at: Timestamp,
    pub reclaimable: Vec<IntentionId>,
    pub coalesced: Vec<IntentionId>,
    pub manual_review: Vec<RunId>,
}

#[derive(Debug, Clone, Copy, PartialEq, Eq, Structural)]
pub enum CandidateReviewState {
    Candidate,
    Promoted,
    Rejected,
    Downgraded,
    Decayed,
    Retracted,
}

#[derive(Debug, Clone, Copy, PartialEq, Eq, Structural)]
pub enum CandidateReviewDecision {
    Promote,
    Reject,
    Downgrade,
    Retract,
}

#[derive(Debug, Clone, PartialEq, Eq)]
pub struct CandidateRetraction {
    pub schema_version: SchemaVersion,
    pub target: ObjectRef,
    pub lineage: LineageRef,
    pub derived_refs: Vec<ObjectRef>,
}

impl CandidateRetraction {
    pub open spec fn valid(&self) -> bool {
        &&& self.schema_version.0 != 0
        &&& !is_blank(self.target.0@)
        &&& !is_blank(self.lineage.0@)
        &&& all_filled(self.derived_refs@)
    }

    pub fn validate(&self) -> (r: Result<(), Error>)
        ensures
            r is Ok <==> self.valid(),
    {
        if self.schema_version.0 == 0 || blank(self.target.0.as_str()) || blank(
            self.lineage.0.as_str(),
        ) || !check_all_filled(&self.derived_refs) {
            return Err(Error("candidate retraction is incomplete".to_string()));
        }
        Ok(())
    }
}

#[derive(Debug, Clone, PartialEq, Eq)]
pub struct CandidateReviewCommand {
    pub schema_version: SchemaVersion,
    pub run: RunId,
    pub candidate: CandidateId,
    pub expected_state: CandidateReviewState,
    pub decision: CandidateReviewDecision,
    pub actor: Actor,
    pub evidence: Vec<EvidenceRef>,
    pub retraction: Option<CandidateRetraction>,
}

impl CandidateReviewCommand {
    /// An owner-bound review with evidence; exactly a retraction carries lineage,
    /// and that lineage is complete.
    pub open spec fn valid(&self) -> bool {
        &&& self.schema_version.0 != 0
        &&& !is_blank(self.run.0@)
        &&& !is_blank(self.candidate.0@)
        &&& self.actor is Owner
        &&& all_filled(self.evidence@)
        &&& match self.retraction {
            Some(retraction) => self.decision == CandidateReviewDecision::Retract
                && retraction.valid(),
            None => self.decision != CandidateReviewDecision::Retract,
        }
    }

    pub fn validate(&self) -> (r: Result<(), Error>)
        ensures
            r is Ok <==> self.valid(),
    {
        let owner = match self.actor {
            Actor::Owner => true,
            _ => false,
        };
        if self.schema_version.0 == 0 || blank(self.run.0.as_str()) || blank(
            self.candidate.0.as_str(),
        ) || !owner || !check_all_filled(&self.evidence) {
            return Err(Error("candidate review command is not owner-bound".to_string()));
        }
        match &self.retraction {
            Some(retraction) => {
                if self.decision == CandidateReviewDecision::Retract {
                    retraction.validate()?;
                } else {
                    return Err(Error("only retract review may carry lineage".to_string()));
                }
            },
            None => {
                if self.decision == CandidateReviewDecision::Retract {
                    return Err(Error("retract review is missing lineage".to_string()));
                }
            },
        }
        Ok(())
    }
}

#[derive(Debug, Clone, Copy, PartialEq, Eq, Hash, Structural)]
pub enum GoldenTaskKind {
    FinalOnly,
    ToolApproval,
    LongContext,
    BackgroundProactive,
}

#[derive(Debug, Clone, PartialEq, Eq)]
pub struct ManualEvalCase {
    pub schema_version: SchemaVersion,
    pub case_ref: EvalCaseRef,
    pub kind: GoldenTaskKind,
    pub request: RunRequest,
    pub workspace: WorkspaceRef,
    pub done_contract: DoneContractRef,
    pub allowed_capabilities: Vec<CapabilityRef>,
    pub policy: PolicyProfileRef,
    pub rubric: RubricRef,
    pub required_events: Vec<EventKind>,
    pub forbidden_events: Vec<EventKind>,
}

/// Some entry of `kinds` is `kind`.
pub open spec fn lists_kind(kinds: Seq<EventKind>, kind: EventKind) -> bool {
    exists|i: int| 0 <= i < kinds.len() && kinds[i] == kind
}

pub fn contains_kind(kinds: &Vec<EventKind>, kind: EventKind) -> (r: bool)
    ensures
        r == lists_kind(kinds@, kind),
{
    let mut i: usize = 0;
    while i < kinds.len()
        invariant
            i <= kinds@.len(),
            forall|j: int| 0 <= j < i ==> kinds@[j] != kind,
        decreases kinds@.len() - i,
    {
        if kinds[i] == kind {
            return true;
        }
        i = i + 1;
    }
    false
}

impl ManualEvalCase {
    /// The source that each golden task kind is started from.
    pub open spec fn source_matches(&self) -> bool {
        match self.kind {
            GoldenTaskKind::BackgroundProactive => self.request.source == Source::Schedule
                || self.request.source == Source::ProactiveJob,
            _ => self.request.source == Source::UserTurn,
        }
    }

    pub open spec fn valid(&self) -> bool {
        &&& self.schema_version.0 != 0
        &&& !is_blank(self.case_ref.0@)
        &&& self.request.schema_version.0 != 0
        &&& !is_blank(self.request.session.0@)
        &&& !is_blank(self.request.agent_profile.0@)
        &&& !is_blank(self.request.input.0@)
        &&& (self.request.idempotency_key matches Some(key) && !is_blank(key.0@))
        &&& !is_blank(self.workspace.0@)
        &&& !is_blank(self.done_contract.0@)
        &&& !is_blank(self.policy.0@)
        &&& !is_blank(self.rubric.0@)
        &&& self.required_events@.len() > 0
        &&& forall|i: int|
            0 <= i < self.required_events@.len() ==> !lists_kind(
                self.forbidden_events@,
                #[trigger] self.required_events@[i],
            )
        &&& self.source_matches()
    }

    pub fn validate(&self) -> (r: Result<(), Error>)
        ensures
            r is Ok <==> self.valid(),
    {
        let key_missing = match &self.request.idempotency_key {
            Some(key) => blank(key.0.as_str()),
            None => true,
        };
        if self.schema_version.0 == 0 || blank(self.case_ref.0.as_str())
            || self.request.schema_version.0 == 0 || blank(self.request.session.0.as_str())
            || blank(self.request.agent_profile.0.as_str()) || blank(
            self.request.input.0.as_str(),
        ) || key_missing || blank(self.workspace.0.as_str()) || blank(
            self.done_contract.0.as_str(),
        ) || blank(self.policy.0.as_str()) || blank(self.rubric.0.as_str())
            || self.required_events.len() == 0 {
            return Err(Error("manual eval case is incomplete".to_string()));
        }
        let mut i: usize = 0;
        while i < self.required_events.len()
            invariant
                i <= self.required_events@.len(),
                forall|j: int|
                    0 <= j < i ==> !lists_kind(
                        self.forbidden_events@,
                        #[trigger] self.required_events@[j],
                    ),
            decreases self.required_events@.len() - i,
        {
            if contains_kind(&self.forbidden_events, self.required_events[i]) {
                return Err(Error("manual eval case is incomplete".to_string()));
            }
            i = i + 1;
        }
        let source_matches = match self.kind {
            GoldenTaskKind::BackgroundProactive => self.request.source == Source::Schedule
                || self.request.source == Source::ProactiveJob,
            _ => self.request.source == Source::UserTurn,
        };
        if !source_matches {
            return Err(Error("manual eval case source does not match its kind".to_string()));
        }
        Ok(())
    }
}

#[derive(Debug, Clone, PartialEq, Eq)]
pub struct EvalProfile {
    pub schema_version: SchemaVersion,
    pub eval_ref: EvalRef,
    pub model: ModelProfileRef,
    pub policy: PolicyProfileRef,
    pub toolset: ToolsetRef,
    pub workspace: WorkspaceRef,
    pub event_schema: SchemaVersion,
    pub replay_snapshot: ReplaySnapshotRef,
}

impl EvalProfile {
    pub open spec fn valid(&self) -> bool {
        &&& self.schema_version.0 != 0
        &&& !is_blank(self.eval_ref.0@)
        &&& !is_blank(self.model.0@)
        &&& !is_blank(self.policy.0@)
        &&& !is_blank(self.toolset.0@)
        &&& !is_blank(self.workspace.0@)
        &&& self.event_schema.0 != 0
        &&& !is_blank(self.replay_snapshot.0@)
    }

    pub fn validate(&self) -> (r: Result<(), Error>)
        ensures
            r is Ok <==> self.valid(),
    {
        if self.schema_version.0 == 0 || blank(self.eval_ref.0.as_str()) || blank(
            self.model.0.as_str(),
        ) || blank(self.policy.0.as_str()) || blank(self.toolset.0.as_str()) || blank(
            self.workspace.0.as_str(),
        ) || self.event_schema.0 == 0 || blank(self.replay_snapshot.0.as_str()) {
            return Err(Error("manual eval profile is incomplete".to_string()));
        }
        Ok(())
    }
}

#[derive(Debug, Clone, PartialEq, Eq)]
pub struct ManualEvalRequest {
    pub schema_version: SchemaVersion,
    pub case: ManualEvalCase,
    pub profile: EvalProfile,
}

impl ManualEvalRequest {
    pub open spec fn valid(&self) -> bool {
        &&& self.schema_version.0 != 0
        &&& self.case.valid()
        &&& self.profile.valid()
        &&& self.case.policy.0@ == self.profile.policy.0@
        &&& self.case.workspace.0@ == self.profile.workspace.0@
    }

    pub fn validate(&self) -> (r: Result<(), Error>)
        ensures
            r is Ok <==> self.valid(),
    {
        if self.schema_version.0 == 0 {
            return Err(Error("manual eval request is not versioned".to_string()));
        }
        self.case.validate()?;
        self.profile.validate()?;
        if !same_text(&self.case.policy.0, &self.profile.policy.0) || !same_text(
            &self.case.workspace.0,
            &self.profile.workspace.0,
        ) {
            return Err(Error("manual eval request case does not match its profile".to_string()));
        }
        Ok(())
    }
}

#[derive(Debug, Clone, PartialEq, Eq)]
pub struct ManualEvalReport {
    pub schema_version: SchemaVersion,
    pub eval_ref: EvalRef,
    pub case_ref: EvalCaseRef,
    pub run: RunId,
    pub trace_refs: Vec<EventId>,
    pub outcome: VerificationOutcome,
    pub rubric: RubricRef,
    pub snapshot: ReplaySnapshotRef,
    pub profile: EvalProfile,
}

impl ManualEvalReport {
    pub open spec fn valid(&self) -> bool {
        &&& self.schema_version.0 != 0
        &&& !is_blank(self.eval_ref.0@)
        &&& !is_blank(self.case_ref.0@)
        &&& !is_blank(self.run.0@)
        &&& all_filled(self.trace_refs@)
        &&& !is_blank(self.rubric.0@)
        &&& !is_blank(self.snapshot.0@)
        &&& self.profile.valid()
        &&& self.eval_ref.0@ == self.profile.eval_ref.0@
        &&& self.snapshot.0@ == self.profile.replay_snapshot.0@
    }

    pub fn validate(&self) -> (r: Result<(), Error>)
        ensures
            r is Ok <==> self.valid(),
    {
        if self.schema_version.0 == 0 || blank(self.eval_ref.0.as_str()) || blank(
            self.case_ref.0.as_str(),
        ) || blank(self.run.0.as_str()) || !check_all_filled(&self.trace_refs) || blank(
            self.rubric.0.as_str(),
        ) || blank(self.snapshot.0.as_str()) {
            return Err(Error("manual eval report is incomplete".to_string()));
        }
        self.profile.validate()?;
        if !same_text(&self.eval_ref.0, &self.profile.eval_ref.0) || !same_text(
            &self.snapshot.0,
            &self.profile.replay_snapshot.0,
        ) {
            return Err(
                Error("manual eval report snapshot does not match its profile".to_string()),
            );
        }
        Ok(())
    }
}

} // verus!
