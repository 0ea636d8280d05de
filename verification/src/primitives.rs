//! Identifiers, small value types and the enumerations shared by every
//! protocol object.
use vstd::prelude::*;

use crate::canon::{
    json_opt_text, json_string, put_key, put_mark, put_opt_text, put_str, with_key, Named,
};
use crate::text::{duplicate_all, Duplicate, Textual};

verus! {

#[derive(Debug, Clone, PartialEq, Eq, Hash, PartialOrd, Ord)]
pub struct EventId(pub String);

impl Textual for EventId {
    open spec fn text(&self) -> Seq<char> {
        self.0@
    }

    fn as_text(&self) -> (r: &String) {
        &self.0
    }
}

impl Duplicate for EventId {
    fn duplicate(&self) -> (r: Self) {
        EventId(self.0.clone())
    }
}

#[derive(Debug, Clone, PartialEq, Eq, Hash, PartialOrd, Ord)]
pub struct RunId(pub String);

impl Textual for RunId {
    open spec fn text(&self) -> Seq<char> {
        self.0@
    }

    fn as_text(&self) -> (r: &String) {
        &self.0
    }
}

impl Duplicate for RunId {
    fn duplicate(&self) -> (r: Self) {
        RunId(self.0.clone())
    }
}

#[derive(Debug, Clone, PartialEq, Eq, Hash, PartialOrd, Ord)]
pub struct SessionId(pub String);

impl Textual for SessionId {
    open spec fn text(&self) -> Seq<char> {
        self.0@
    }

    fn as_text(&self) -> (r: &String) {
        &self.0
    }
}

impl Duplicate for SessionId {
    fn duplicate(&self) -> (r: Self) {
        SessionId(self.0.clone())
    }
}

#[derive(Debug, Clone, PartialEq, Eq, Hash, PartialOrd, Ord)]
pub struct TurnId(pub String);

impl Textual for TurnId {
    open spec fn text(&self) -> Seq<char> {
        self.0@
    }

    fn as_text(&self) -> (r: &String) {
        &self.0
    }
}

impl Duplicate for TurnId {
    fn duplicate(&self) -> (r: Self) {
        TurnId(self.0.clone())
    }
}

#[derive(Debug, Clone, PartialEq, Eq, Hash, PartialOrd, Ord)]
pub struct ActionId(pub String);

impl Textual for ActionId {
    open spec fn text(&self) -> Seq<char> {
        self.0@
    }

    fn as_text(&self) -> (r: &String) {
        &self.0
    }
}

impl Duplicate for ActionId {
    fn duplicate(&self) -> (r: Self) {
        ActionId(self.0.clone())
    }
}

#[derive(Debug, Clone, PartialEq, Eq, Hash, PartialOrd, Ord)]
pub struct ApprovalId(pub String);

impl Textual for ApprovalId {
    open spec fn text(&self) -> Seq<char> {
        self.0@
    }

    fn as_text(&self) -> (r: &String) {
        &self.0
    }
}

impl Duplicate for ApprovalId {
    fn duplicate(&self) -> (r: Self) {
        ApprovalId(self.0.clone())
    }
}

#[derive(Debug, Clone, PartialEq, Eq, Hash, PartialOrd, Ord)]
pub struct CandidateId(pub String);

impl Textual for CandidateId {
    open spec fn text(&self) -> Seq<char> {
        self.0@
    }

    fn as_text(&self) -> (r: &String) {
        &self.0
    }
}

impl Duplicate for CandidateId {
    fn duplicate(&self) -> (r: Self) {
        CandidateId(self.0.clone())
    }
}

#[derive(Debug, Clone, PartialEq, Eq, Hash, PartialOrd, Ord)]
pub struct IntentionId(pub String);

impl Textual for IntentionId {
    open spec fn text(&self) -> Seq<char> {
        self.0@
    }

    fn as_text(&self) -> (r: &String) {
        &self.0
    }
}

impl Duplicate for IntentionId {
    fn duplicate(&self) -> (r: Self) {
        IntentionId(self.0.clone())
    }
}

#[derive(Debug, Clone, PartialEq, Eq, Hash, PartialOrd, Ord)]
pub struct NodeId(pub String);

impl Textual for NodeId {
    open spec fn text(&self) -> Seq<char> {
        self.0@
    }

    fn as_text(&self) -> (r: &String) {
        &self.0
    }
}

impl Duplicate for NodeId {
    fn duplicate(&self) -> (r: Self) {
        NodeId(self.0.clone())
    }
}

#[derive(Debug, Clone, PartialEq, Eq, Hash, PartialOrd, Ord)]
pub struct EdgeId(pub String);

impl Textual for EdgeId {
    open spec fn text(&self) -> Seq<char> {
        self.0@
    }

    fn as_text(&self) -> (r: &String) {
        &self.0
    }
}

impl Duplicate for EdgeId {
    fn duplicate(&self) -> (r: Self) {
        EdgeId(self.0.clone())
    }
}

#[derive(Debug, Clone, PartialEq, Eq, Hash, PartialOrd, Ord)]
pub struct ProviderId(pub String);

impl Textual for ProviderId {
    open spec fn text(&self) -> Seq<char> {
        self.0@
    }

    fn as_text(&self) -> (r: &String) {
        &self.0
    }
}

impl Duplicate for ProviderId {
    fn duplicate(&self) -> (r: Self) {
        ProviderId(self.0.clone())
    }
}

#[derive(Debug, Clone, PartialEq, Eq, Hash, PartialOrd, Ord)]
pub struct ParticipantId(pub String);

impl Textual for ParticipantId {
    open spec fn text(&self) -> Seq<char> {
        self.0@
    }

    fn as_text(&self) -> (r: &String) {
        &self.0
    }
}

impl Duplicate for ParticipantId {
    fn duplicate(&self) -> (r: Self) {
        ParticipantId(self.0.clone())
    }
}

#[derive(Debug, Clone, PartialEq, Eq, Hash, PartialOrd, Ord)]
pub struct WorkspaceId(pub String);

impl Textual for WorkspaceId {
    open spec fn text(&self) -> Seq<char> {
        self.0@
    }

    fn as_text(&self) -> (r: &String) {
        &self.0
    }
}

impl Duplicate for WorkspaceId {
    fn duplicate(&self) -> (r: Self) {
        WorkspaceId(self.0.clone())
    }
}

#[derive(Debug, Clone, PartialEq, Eq, Hash, PartialOrd, Ord)]
pub struct ModelCallId(pub String);

impl Textual for ModelCallId {
    open spec fn text(&self) -> Seq<char> {
        self.0@
    }

    fn as_text(&self) -> (r: &String) {
        &self.0
    }
}

impl Duplicate for ModelCallId {
    fn duplicate(&self) -> (r: Self) {
        ModelCallId(self.0.clone())
    }
}

#[derive(Debug, Clone, PartialEq, Eq, Hash, PartialOrd, Ord)]
pub struct ToolCallId(pub String);

impl Textual for ToolCallId {
    open spec fn text(&self) -> Seq<char> {
        self.0@
    }

    fn as_text(&self) -> (r: &String) {
        &self.0
    }
}

impl Duplicate for ToolCallId {
    fn duplicate(&self) -> (r: Self) {
        ToolCallId(self.0.clone())
    }
}

#[derive(Debug, Clone, PartialEq, Eq, Hash, PartialOrd, Ord)]
pub struct InputRef(pub String);

impl Textual for InputRef {
    open spec fn text(&self) -> Seq<char> {
        self.0@
    }

    fn as_text(&self) -> (r: &String) {
        &self.0
    }
}

impl Duplicate for InputRef {
    fn duplicate(&self) -> (r: Self) {
        InputRef(self.0.clone())
    }
}

#[derive(Debug, Clone, PartialEq, Eq, Hash, PartialOrd, Ord)]
pub struct IdempotencyKey(pub String);

impl Textual for IdempotencyKey {
    open spec fn text(&self) -> Seq<char> {
        self.0@
    }

    fn as_text(&self) -> (r: &String) {
        &self.0
    }
}

impl Duplicate for IdempotencyKey {
    fn duplicate(&self) -> (r: Self) {
        IdempotencyKey(self.0.clone())
    }
}

#[derive(Debug, Clone, PartialEq, Eq, Hash, PartialOrd, Ord)]
pub struct PolicyProfileRef(pub String);

impl Textual for PolicyProfileRef {
    open spec fn text(&self) -> Seq<char> {
        self.0@
    }

    fn as_text(&self) -> (r: &String) {
        &self.0
    }
}

impl Duplicate for PolicyProfileRef {
    fn duplicate(&self) -> (r: Self) {
        PolicyProfileRef(self.0.clone())
    }
}

#[derive(Debug, Clone, PartialEq, Eq, Hash, PartialOrd, Ord)]
pub struct ModelProfileRef(pub String);

impl Textual for ModelProfileRef {
    open spec fn text(&self) -> Seq<char> {
        self.0@
    }

    fn as_text(&self) -> (r: &String) {
        &self.0
    }
}

impl Duplicate for ModelProfileRef {
    fn duplicate(&self) -> (r: Self) {
        ModelProfileRef(self.0.clone())
    }
}

#[derive(Debug, Clone, PartialEq, Eq, Hash, PartialOrd, Ord)]
pub struct ToolsetRef(pub String);

impl Textual for ToolsetRef {
    open spec fn text(&self) -> Seq<char> {
        self.0@
    }

    fn as_text(&self) -> (r: &String) {
        &self.0
    }
}

impl Duplicate for ToolsetRef {
    fn duplicate(&self) -> (r: Self) {
        ToolsetRef(self.0.clone())
    }
}

#[derive(Debug, Clone, PartialEq, Eq, Hash, PartialOrd, Ord)]
pub struct WorkspaceRef(pub String);

impl Textual for WorkspaceRef {
    open spec fn text(&self) -> Seq<char> {
        self.0@
    }

    fn as_text(&self) -> (r: &String) {
        &self.0
    }
}

impl Duplicate for WorkspaceRef {
    fn duplicate(&self) -> (r: Self) {
        WorkspaceRef(self.0.clone())
    }
}

#[derive(Debug, Clone, PartialEq, Eq, Hash, PartialOrd, Ord)]
pub struct AgentProfileRef(pub String);

impl Textual for AgentProfileRef {
    open spec fn text(&self) -> Seq<char> {
        self.0@
    }

    fn as_text(&self) -> (r: &String) {
        &self.0
    }
}

impl Duplicate for AgentProfileRef {
    fn duplicate(&self) -> (r: Self) {
        AgentProfileRef(self.0.clone())
    }
}

#[derive(Debug, Clone, PartialEq, Eq, Hash, PartialOrd, Ord)]
pub struct SessionRef(pub String);

impl Textual for SessionRef {
    open spec fn text(&self) -> Seq<char> {
        self.0@
    }

    fn as_text(&self) -> (r: &String) {
        &self.0
    }
}

impl Duplicate for SessionRef {
    fn duplicate(&self) -> (r: Self) {
        SessionRef(self.0.clone())
    }
}

#[derive(Debug, Clone, PartialEq, Eq, Hash, PartialOrd, Ord)]
pub struct OutputRef(pub String);

impl Textual for OutputRef {
    open spec fn text(&self) -> Seq<char> {
        self.0@
    }

    fn as_text(&self) -> (r: &String) {
        &self.0
    }
}

impl Duplicate for OutputRef {
    fn duplicate(&self) -> (r: Self) {
        OutputRef(self.0.clone())
    }
}

#[derive(Debug, Clone, PartialEq, Eq, Hash, PartialOrd, Ord)]
pub struct ContextSliceRef(pub String);

impl Textual for ContextSliceRef {
    open spec fn text(&self) -> Seq<char> {
        self.0@
    }

    fn as_text(&self) -> (r: &String) {
        &self.0
    }
}

impl Duplicate for ContextSliceRef {
    fn duplicate(&self) -> (r: Self) {
        ContextSliceRef(self.0.clone())
    }
}

#[derive(Debug, Clone, PartialEq, Eq, Hash, PartialOrd, Ord)]
pub struct LineageRef(pub String);

impl Textual for LineageRef {
    open spec fn text(&self) -> Seq<char> {
        self.0@
    }

    fn as_text(&self) -> (r: &String) {
        &self.0
    }
}

impl Duplicate for LineageRef {
    fn duplicate(&self) -> (r: Self) {
        LineageRef(self.0.clone())
    }
}

#[derive(Debug, Clone, PartialEq, Eq, Hash, PartialOrd, Ord)]
pub struct PreservedRef(pub String);

impl Textual for PreservedRef {
    open spec fn text(&self) -> Seq<char> {
        self.0@
    }

    fn as_text(&self) -> (r: &String) {
        &self.0
    }
}

impl Duplicate for PreservedRef {
    fn duplicate(&self) -> (r: Self) {
        PreservedRef(self.0.clone())
    }
}

#[derive(Debug, Clone, PartialEq, Eq, Hash, PartialOrd, Ord)]
pub struct WaitReason(pub String);

impl Textual for WaitReason {
    open spec fn text(&self) -> Seq<char> {
        self.0@
    }

    fn as_text(&self) -> (r: &String) {
        &self.0
    }
}

impl Duplicate for WaitReason {
    fn duplicate(&self) -> (r: Self) {
        WaitReason(self.0.clone())
    }
}

#[derive(Debug, Clone, PartialEq, Eq, Hash, PartialOrd, Ord)]
pub struct ResumeRef(pub String);

impl Textual for ResumeRef {
    open spec fn text(&self) -> Seq<char> {
        self.0@
    }

    fn as_text(&self) -> (r: &String) {
        &self.0
    }
}

impl Duplicate for ResumeRef {
    fn duplicate(&self) -> (r: Self) {
        ResumeRef(self.0.clone())
    }
}

#[derive(Debug, Clone, PartialEq, Eq, Hash, PartialOrd, Ord)]
pub struct FinishReason(pub String);

impl Textual for FinishReason {
    open spec fn text(&self) -> Seq<char> {
        self.0@
    }

    fn as_text(&self) -> (r: &String) {
        &self.0
    }
}

impl Duplicate for FinishReason {
    fn duplicate(&self) -> (r: Self) {
        FinishReason(self.0.clone())
    }
}

#[derive(Debug, Clone, PartialEq, Eq, Hash, PartialOrd, Ord)]
pub struct RuleSourceRef(pub String);

impl Textual for RuleSourceRef {
    open spec fn text(&self) -> Seq<char> {
        self.0@
    }

    fn as_text(&self) -> (r: &String) {
        &self.0
    }
}

impl Duplicate for RuleSourceRef {
    fn duplicate(&self) -> (r: Self) {
        RuleSourceRef(self.0.clone())
    }
}

#[derive(Debug, Clone, PartialEq, Eq, Hash, PartialOrd, Ord)]
pub struct ReasonRef(pub String);

impl Textual for ReasonRef {
    open spec fn text(&self) -> Seq<char> {
        self.0@
    }

    fn as_text(&self) -> (r: &String) {
        &self.0
    }
}

impl Duplicate for ReasonRef {
    fn duplicate(&self) -> (r: Self) {
        ReasonRef(self.0.clone())
    }
}

#[derive(Debug, Clone, PartialEq, Eq, Hash, PartialOrd, Ord)]
pub struct ActionSummary(pub String);

impl Textual for ActionSummary {
    open spec fn text(&self) -> Seq<char> {
        self.0@
    }

    fn as_text(&self) -> (r: &String) {
        &self.0
    }
}

impl Duplicate for ActionSummary {
    fn duplicate(&self) -> (r: Self) {
        ActionSummary(self.0.clone())
    }
}

#[derive(Debug, Clone, PartialEq, Eq, Hash, PartialOrd, Ord)]
pub struct RollbackBoundary(pub String);

impl Textual for RollbackBoundary {
    open spec fn text(&self) -> Seq<char> {
        self.0@
    }

    fn as_text(&self) -> (r: &String) {
        &self.0
    }
}

impl Duplicate for RollbackBoundary {
    fn duplicate(&self) -> (r: Self) {
        RollbackBoundary(self.0.clone())
    }
}

#[derive(Debug, Clone, PartialEq, Eq, Hash, PartialOrd, Ord)]
pub struct ApprovalChoice(pub String);

impl Textual for ApprovalChoice {
    open spec fn text(&self) -> Seq<char> {
        self.0@
    }

    fn as_text(&self) -> (r: &String) {
        &self.0
    }
}

impl Duplicate for ApprovalChoice {
    fn duplicate(&self) -> (r: Self) {
        ApprovalChoice(self.0.clone())
    }
}

#[derive(Debug, Clone, PartialEq, Eq, Hash, PartialOrd, Ord)]
pub struct ApprovalGrantRef(pub String);

impl Textual for ApprovalGrantRef {
    open spec fn text(&self) -> Seq<char> {
        self.0@
    }

    fn as_text(&self) -> (r: &String) {
        &self.0
    }
}

impl Duplicate for ApprovalGrantRef {
    fn duplicate(&self) -> (r: Self) {
        ApprovalGrantRef(self.0.clone())
    }
}

#[derive(Debug, Clone, PartialEq, Eq, Hash, PartialOrd, Ord)]
pub struct PermissionRef(pub String);

impl Textual for PermissionRef {
    open spec fn text(&self) -> Seq<char> {
        self.0@
    }

    fn as_text(&self) -> (r: &String) {
        &self.0
    }
}

impl Duplicate for PermissionRef {
    fn duplicate(&self) -> (r: Self) {
        PermissionRef(self.0.clone())
    }
}

#[derive(Debug, Clone, PartialEq, Eq, Hash, PartialOrd, Ord)]
pub struct HandoffTargetRef(pub String);

impl Textual for HandoffTargetRef {
    open spec fn text(&self) -> Seq<char> {
        self.0@
    }

    fn as_text(&self) -> (r: &String) {
        &self.0
    }
}

impl Duplicate for HandoffTargetRef {
    fn duplicate(&self) -> (r: Self) {
        HandoffTargetRef(self.0.clone())
    }
}

#[derive(Debug, Clone, PartialEq, Eq, Hash, PartialOrd, Ord)]
pub struct ActionResultRef(pub String);

impl Textual for ActionResultRef {
    open spec fn text(&self) -> Seq<char> {
        self.0@
    }

    fn as_text(&self) -> (r: &String) {
        &self.0
    }
}

impl Duplicate for ActionResultRef {
    fn duplicate(&self) -> (r: Self) {
        ActionResultRef(self.0.clone())
    }
}

#[derive(Debug, Clone, PartialEq, Eq, Hash, PartialOrd, Ord)]
pub struct FailureEvidenceRef(pub String);

impl Textual for FailureEvidenceRef {
    open spec fn text(&self) -> Seq<char> {
        self.0@
    }

    fn as_text(&self) -> (r: &String) {
        &self.0
    }
}

impl Duplicate for FailureEvidenceRef {
    fn duplicate(&self) -> (r: Self) {
        FailureEvidenceRef(self.0.clone())
    }
}

#[derive(Debug, Clone, PartialEq, Eq, Hash, PartialOrd, Ord)]
pub struct ProbeHintRef(pub String);

impl Textual for ProbeHintRef {
    open spec fn text(&self) -> Seq<char> {
        self.0@
    }

    fn as_text(&self) -> (r: &String) {
        &self.0
    }
}

impl Duplicate for ProbeHintRef {
    fn duplicate(&self) -> (r: Self) {
        ProbeHintRef(self.0.clone())
    }
}

#[derive(Debug, Clone, PartialEq, Eq, Hash, PartialOrd, Ord)]
pub struct VerifierKind(pub String);

impl Textual for VerifierKind {
    open spec fn text(&self) -> Seq<char> {
        self.0@
    }

    fn as_text(&self) -> (r: &String) {
        &self.0
    }
}

impl Duplicate for VerifierKind {
    fn duplicate(&self) -> (r: Self) {
        VerifierKind(self.0.clone())
    }
}

#[derive(Debug, Clone, PartialEq, Eq, Hash, PartialOrd, Ord)]
pub struct DoneContractRef(pub String);

impl Textual for DoneContractRef {
    open spec fn text(&self) -> Seq<char> {
        self.0@
    }

    fn as_text(&self) -> (r: &String) {
        &self.0
    }
}

impl Duplicate for DoneContractRef {
    fn duplicate(&self) -> (r: Self) {
        DoneContractRef(self.0.clone())
    }
}

#[derive(Debug, Clone, PartialEq, Eq, Hash, PartialOrd, Ord)]
pub struct FailureDigestRef(pub String);

impl Textual for FailureDigestRef {
    open spec fn text(&self) -> Seq<char> {
        self.0@
    }

    fn as_text(&self) -> (r: &String) {
        &self.0
    }
}

impl Duplicate for FailureDigestRef {
    fn duplicate(&self) -> (r: Self) {
        FailureDigestRef(self.0.clone())
    }
}

#[derive(Debug, Clone, PartialEq, Eq, Hash, PartialOrd, Ord)]
pub struct DigestSummaryRef(pub String);

impl Textual for DigestSummaryRef {
    open spec fn text(&self) -> Seq<char> {
        self.0@
    }

    fn as_text(&self) -> (r: &String) {
        &self.0
    }
}

impl Duplicate for DigestSummaryRef {
    fn duplicate(&self) -> (r: Self) {
        DigestSummaryRef(self.0.clone())
    }
}

#[derive(Debug, Clone, PartialEq, Eq, Hash, PartialOrd, Ord)]
pub struct EvidenceRef(pub String);

impl Textual for EvidenceRef {
    open spec fn text(&self) -> Seq<char> {
        self.0@
    }

    fn as_text(&self) -> (r: &String) {
        &self.0
    }
}

impl Duplicate for EvidenceRef {
    fn duplicate(&self) -> (r: Self) {
        EvidenceRef(self.0.clone())
    }
}

#[derive(Debug, Clone, PartialEq, Eq, Hash, PartialOrd, Ord)]
pub struct CandidateTargetRef(pub String);

impl Textual for CandidateTargetRef {
    open spec fn text(&self) -> Seq<char> {
        self.0@
    }

    fn as_text(&self) -> (r: &String) {
        &self.0
    }
}

impl Duplicate for CandidateTargetRef {
    fn duplicate(&self) -> (r: Self) {
        CandidateTargetRef(self.0.clone())
    }
}

#[derive(Debug, Clone, PartialEq, Eq, Hash, PartialOrd, Ord)]
pub struct ConflictKind(pub String);

impl Textual for ConflictKind {
    open spec fn text(&self) -> Seq<char> {
        self.0@
    }

    fn as_text(&self) -> (r: &String) {
        &self.0
    }
}

impl Duplicate for ConflictKind {
    fn duplicate(&self) -> (r: Self) {
        ConflictKind(self.0.clone())
    }
}

#[derive(Debug, Clone, PartialEq, Eq, Hash, PartialOrd, Ord)]
pub struct ObjectRef(pub String);

impl Textual for ObjectRef {
    open spec fn text(&self) -> Seq<char> {
        self.0@
    }

    fn as_text(&self) -> (r: &String) {
        &self.0
    }
}

impl Duplicate for ObjectRef {
    fn duplicate(&self) -> (r: Self) {
        ObjectRef(self.0.clone())
    }
}

#[derive(Debug, Clone, PartialEq, Eq, Hash, PartialOrd, Ord)]
pub struct ReevaluationTriggerRef(pub String);

impl Textual for ReevaluationTriggerRef {
    open spec fn text(&self) -> Seq<char> {
        self.0@
    }

    fn as_text(&self) -> (r: &String) {
        &self.0
    }
}

impl Duplicate for ReevaluationTriggerRef {
    fn duplicate(&self) -> (r: Self) {
        ReevaluationTriggerRef(self.0.clone())
    }
}

#[derive(Debug, Clone, PartialEq, Eq, Hash, PartialOrd, Ord)]
pub struct GrantRef(pub String);

impl Textual for GrantRef {
    open spec fn text(&self) -> Seq<char> {
        self.0@
    }

    fn as_text(&self) -> (r: &String) {
        &self.0
    }
}

impl Duplicate for GrantRef {
    fn duplicate(&self) -> (r: Self) {
        GrantRef(self.0.clone())
    }
}

#[derive(Debug, Clone, PartialEq, Eq, Hash, PartialOrd, Ord)]
pub struct SeedRef(pub String);

impl Textual for SeedRef {
    open spec fn text(&self) -> Seq<char> {
        self.0@
    }

    fn as_text(&self) -> (r: &String) {
        &self.0
    }
}

impl Duplicate for SeedRef {
    fn duplicate(&self) -> (r: Self) {
        SeedRef(self.0.clone())
    }
}

#[derive(Debug, Clone, PartialEq, Eq, Hash, PartialOrd, Ord)]
pub struct GateDecision(pub String);

impl Textual for GateDecision {
    open spec fn text(&self) -> Seq<char> {
        self.0@
    }

    fn as_text(&self) -> (r: &String) {
        &self.0
    }
}

impl Duplicate for GateDecision {
    fn duplicate(&self) -> (r: Self) {
        GateDecision(self.0.clone())
    }
}

#[derive(Debug, Clone, PartialEq, Eq, Hash, PartialOrd, Ord)]
pub struct ProposalKind(pub String);

impl Textual for ProposalKind {
    open spec fn text(&self) -> Seq<char> {
        self.0@
    }

    fn as_text(&self) -> (r: &String) {
        &self.0
    }
}

impl Duplicate for ProposalKind {
    fn duplicate(&self) -> (r: Self) {
        ProposalKind(self.0.clone())
    }
}

#[derive(Debug, Clone, PartialEq, Eq, Hash, PartialOrd, Ord)]
pub struct ProposalRef(pub String);

impl Textual for ProposalRef {
    open spec fn text(&self) -> Seq<char> {
        self.0@
    }

    fn as_text(&self) -> (r: &String) {
        &self.0
    }
}

impl Duplicate for ProposalRef {
    fn duplicate(&self) -> (r: Self) {
        ProposalRef(self.0.clone())
    }
}

#[derive(Debug, Clone, PartialEq, Eq, Hash, PartialOrd, Ord)]
pub struct FeedbackRef(pub String);

impl Textual for FeedbackRef {
    open spec fn text(&self) -> Seq<char> {
        self.0@
    }

    fn as_text(&self) -> (r: &String) {
        &self.0
    }
}

impl Duplicate for FeedbackRef {
    fn duplicate(&self) -> (r: Self) {
        FeedbackRef(self.0.clone())
    }
}

#[derive(Debug, Clone, PartialEq, Eq, Hash, PartialOrd, Ord)]
pub struct IntentionTriggerRef(pub String);

impl Textual for IntentionTriggerRef {
    open spec fn text(&self) -> Seq<char> {
        self.0@
    }

    fn as_text(&self) -> (r: &String) {
        &self.0
    }
}

impl Duplicate for IntentionTriggerRef {
    fn duplicate(&self) -> (r: Self) {
        IntentionTriggerRef(self.0.clone())
    }
}

#[derive(Debug, Clone, PartialEq, Eq, Hash, PartialOrd, Ord)]
pub struct GoalFrameRef(pub String);

impl Textual for GoalFrameRef {
    open spec fn text(&self) -> Seq<char> {
        self.0@
    }

    fn as_text(&self) -> (r: &String) {
        &self.0
    }
}

impl Duplicate for GoalFrameRef {
    fn duplicate(&self) -> (r: Self) {
        GoalFrameRef(self.0.clone())
    }
}

#[derive(Debug, Clone, PartialEq, Eq, Hash, PartialOrd, Ord)]
pub struct ResourcePlanRef(pub String);

impl Textual for ResourcePlanRef {
    open spec fn text(&self) -> Seq<char> {
        self.0@
    }

    fn as_text(&self) -> (r: &String) {
        &self.0
    }
}

impl Duplicate for ResourcePlanRef {
    fn duplicate(&self) -> (r: Self) {
        ResourcePlanRef(self.0.clone())
    }
}

#[derive(Debug, Clone, PartialEq, Eq, Hash, PartialOrd, Ord)]
pub struct AutonomyEnvelopeRef(pub String);

impl Textual for AutonomyEnvelopeRef {
    open spec fn text(&self) -> Seq<char> {
        self.0@
    }

    fn as_text(&self) -> (r: &String) {
        &self.0
    }
}

impl Duplicate for AutonomyEnvelopeRef {
    fn duplicate(&self) -> (r: Self) {
        AutonomyEnvelopeRef(self.0.clone())
    }
}

#[derive(Debug, Clone, PartialEq, Eq, Hash, PartialOrd, Ord)]
pub struct MapConfidenceRef(pub String);

impl Textual for MapConfidenceRef {
    open spec fn text(&self) -> Seq<char> {
        self.0@
    }

    fn as_text(&self) -> (r: &String) {
        &self.0
    }
}

impl Duplicate for MapConfidenceRef {
    fn duplicate(&self) -> (r: Self) {
        MapConfidenceRef(self.0.clone())
    }
}

#[derive(Debug, Clone, PartialEq, Eq, Hash, PartialOrd, Ord)]
pub struct AgentSelfModelRef(pub String);

impl Textual for AgentSelfModelRef {
    open spec fn text(&self) -> Seq<char> {
        self.0@
    }

    fn as_text(&self) -> (r: &String) {
        &self.0
    }
}

impl Duplicate for AgentSelfModelRef {
    fn duplicate(&self) -> (r: Self) {
        AgentSelfModelRef(self.0.clone())
    }
}

#[derive(Debug, Clone, PartialEq, Eq, Hash, PartialOrd, Ord)]
pub struct TrustProfileRef(pub String);

impl Textual for TrustProfileRef {
    open spec fn text(&self) -> Seq<char> {
        self.0@
    }

    fn as_text(&self) -> (r: &String) {
        &self.0
    }
}

impl Duplicate for TrustProfileRef {
    fn duplicate(&self) -> (r: Self) {
        TrustProfileRef(self.0.clone())
    }
}

#[derive(Debug, Clone, PartialEq, Eq, Hash, PartialOrd, Ord)]
pub struct Rationale(pub String);

impl Textual for Rationale {
    open spec fn text(&self) -> Seq<char> {
        self.0@
    }

    fn as_text(&self) -> (r: &String) {
        &self.0
    }
}

impl Duplicate for Rationale {
    fn duplicate(&self) -> (r: Self) {
        Rationale(self.0.clone())
    }
}

#[derive(Debug, Clone, PartialEq, Eq, Hash, PartialOrd, Ord)]
pub struct AgentWorkspaceSnapshotRef(pub String);

impl Textual for AgentWorkspaceSnapshotRef {
    open spec fn text(&self) -> Seq<char> {
        self.0@
    }

    fn as_text(&self) -> (r: &String) {
        &self.0
    }
}

impl Duplicate for AgentWorkspaceSnapshotRef {
    fn duplicate(&self) -> (r: Self) {
        AgentWorkspaceSnapshotRef(self.0.clone())
    }
}

#[derive(Debug, Clone, PartialEq, Eq, Hash, PartialOrd, Ord)]
pub struct DecisionTraceRef(pub String);

impl Textual for DecisionTraceRef {
    open spec fn text(&self) -> Seq<char> {
        self.0@
    }

    fn as_text(&self) -> (r: &String) {
        &self.0
    }
}

impl Duplicate for DecisionTraceRef {
    fn duplicate(&self) -> (r: Self) {
        DecisionTraceRef(self.0.clone())
    }
}

#[derive(Debug, Clone, PartialEq, Eq, Hash, PartialOrd, Ord)]
pub struct OrchestrationPatternRef(pub String);

impl Textual for OrchestrationPatternRef {
    open spec fn text(&self) -> Seq<char> {
        self.0@
    }

    fn as_text(&self) -> (r: &String) {
        &self.0
    }
}

impl Duplicate for OrchestrationPatternRef {
    fn duplicate(&self) -> (r: Self) {
        OrchestrationPatternRef(self.0.clone())
    }
}

#[derive(Debug, Clone, PartialEq, Eq, Hash, PartialOrd, Ord)]
pub struct ExecutionRouteRef(pub String);

impl Textual for ExecutionRouteRef {
    open spec fn text(&self) -> Seq<char> {
        self.0@
    }

    fn as_text(&self) -> (r: &String) {
        &self.0
    }
}

impl Duplicate for ExecutionRouteRef {
    fn duplicate(&self) -> (r: Self) {
        ExecutionRouteRef(self.0.clone())
    }
}

#[derive(Debug, Clone, PartialEq, Eq, Hash, PartialOrd, Ord)]
pub struct PermissionProfileRef(pub String);

impl Textual for PermissionProfileRef {
    open spec fn text(&self) -> Seq<char> {
        self.0@
    }

    fn as_text(&self) -> (r: &String) {
        &self.0
    }
}

impl Duplicate for PermissionProfileRef {
    fn duplicate(&self) -> (r: Self) {
        PermissionProfileRef(self.0.clone())
    }
}

#[derive(Debug, Clone, PartialEq, Eq, Hash, PartialOrd, Ord)]
pub struct RoleRef(pub String);

impl Textual for RoleRef {
    open spec fn text(&self) -> Seq<char> {
        self.0@
    }

    fn as_text(&self) -> (r: &String) {
        &self.0
    }
}

impl Duplicate for RoleRef {
    fn duplicate(&self) -> (r: Self) {
        RoleRef(self.0.clone())
    }
}

#[derive(Debug, Clone, PartialEq, Eq, Hash, PartialOrd, Ord)]
pub struct SummaryRef(pub String);

impl Textual for SummaryRef {
    open spec fn text(&self) -> Seq<char> {
        self.0@
    }

    fn as_text(&self) -> (r: &String) {
        &self.0
    }
}

impl Duplicate for SummaryRef {
    fn duplicate(&self) -> (r: Self) {
        SummaryRef(self.0.clone())
    }
}

#[derive(Debug, Clone, PartialEq, Eq, Hash, PartialOrd, Ord)]
pub struct ResultRef(pub String);

impl Textual for ResultRef {
    open spec fn text(&self) -> Seq<char> {
        self.0@
    }

    fn as_text(&self) -> (r: &String) {
        &self.0
    }
}

impl Duplicate for ResultRef {
    fn duplicate(&self) -> (r: Self) {
        ResultRef(self.0.clone())
    }
}

#[derive(Debug, Clone, PartialEq, Eq, Hash, PartialOrd, Ord)]
pub struct CapabilitySourceRef(pub String);

impl Textual for CapabilitySourceRef {
    open spec fn text(&self) -> Seq<char> {
        self.0@
    }

    fn as_text(&self) -> (r: &String) {
        &self.0
    }
}

impl Duplicate for CapabilitySourceRef {
    fn duplicate(&self) -> (r: Self) {
        CapabilitySourceRef(self.0.clone())
    }
}

#[derive(Debug, Clone, PartialEq, Eq, Hash, PartialOrd, Ord)]
pub struct McpServerRef(pub String);

impl Textual for McpServerRef {
    open spec fn text(&self) -> Seq<char> {
        self.0@
    }

    fn as_text(&self) -> (r: &String) {
        &self.0
    }
}

impl Duplicate for McpServerRef {
    fn duplicate(&self) -> (r: Self) {
        McpServerRef(self.0.clone())
    }
}

#[derive(Debug, Clone, PartialEq, Eq, Hash, PartialOrd, Ord)]
pub struct McpToolRef(pub String);

impl Textual for McpToolRef {
    open spec fn text(&self) -> Seq<char> {
        self.0@
    }

    fn as_text(&self) -> (r: &String) {
        &self.0
    }
}

impl Duplicate for McpToolRef {
    fn duplicate(&self) -> (r: Self) {
        McpToolRef(self.0.clone())
    }
}

#[derive(Debug, Clone, PartialEq, Eq, Hash, PartialOrd, Ord)]
pub struct ToolRef(pub String);

impl Textual for ToolRef {
    open spec fn text(&self) -> Seq<char> {
        self.0@
    }

    fn as_text(&self) -> (r: &String) {
        &self.0
    }
}

impl Duplicate for ToolRef {
    fn duplicate(&self) -> (r: Self) {
        ToolRef(self.0.clone())
    }
}

#[derive(Debug, Clone, PartialEq, Eq, Hash, PartialOrd, Ord)]
pub struct ResourceRef(pub String);

impl Textual for ResourceRef {
    open spec fn text(&self) -> Seq<char> {
        self.0@
    }

    fn as_text(&self) -> (r: &String) {
        &self.0
    }
}

impl Duplicate for ResourceRef {
    fn duplicate(&self) -> (r: Self) {
        ResourceRef(self.0.clone())
    }
}

#[derive(Debug, Clone, PartialEq, Eq, Hash, PartialOrd, Ord)]
pub struct McpErrorClass(pub String);

impl Textual for McpErrorClass {
    open spec fn text(&self) -> Seq<char> {
        self.0@
    }

    fn as_text(&self) -> (r: &String) {
        &self.0
    }
}

impl Duplicate for McpErrorClass {
    fn duplicate(&self) -> (r: Self) {
        McpErrorClass(self.0.clone())
    }
}

#[derive(Debug, Clone, PartialEq, Eq, Hash, PartialOrd, Ord)]
pub struct SkillRef(pub String);

impl Textual for SkillRef {
    open spec fn text(&self) -> Seq<char> {
        self.0@
    }

    fn as_text(&self) -> (r: &String) {
        &self.0
    }
}

impl Duplicate for SkillRef {
    fn duplicate(&self) -> (r: Self) {
        SkillRef(self.0.clone())
    }
}

#[derive(Debug, Clone, PartialEq, Eq, Hash, PartialOrd, Ord)]
pub struct SkillDescriptorRef(pub String);

impl Textual for SkillDescriptorRef {
    open spec fn text(&self) -> Seq<char> {
        self.0@
    }

    fn as_text(&self) -> (r: &String) {
        &self.0
    }
}

impl Duplicate for SkillDescriptorRef {
    fn duplicate(&self) -> (r: Self) {
        SkillDescriptorRef(self.0.clone())
    }
}

#[derive(Debug, Clone, PartialEq, Eq, Hash, PartialOrd, Ord)]
pub struct SkillTriggerRef(pub String);

impl Textual for SkillTriggerRef {
    open spec fn text(&self) -> Seq<char> {
        self.0@
    }

    fn as_text(&self) -> (r: &String) {
        &self.0
    }
}

impl Duplicate for SkillTriggerRef {
    fn duplicate(&self) -> (r: Self) {
        SkillTriggerRef(self.0.clone())
    }
}

#[derive(Debug, Clone, PartialEq, Eq, Hash, PartialOrd, Ord)]
pub struct PluginManifestRef(pub String);

impl Textual for PluginManifestRef {
    open spec fn text(&self) -> Seq<char> {
        self.0@
    }

    fn as_text(&self) -> (r: &String) {
        &self.0
    }
}

impl Duplicate for PluginManifestRef {
    fn duplicate(&self) -> (r: Self) {
        PluginManifestRef(self.0.clone())
    }
}

#[derive(Debug, Clone, PartialEq, Eq, Hash, PartialOrd, Ord)]
pub struct PluginRef(pub String);

impl Textual for PluginRef {
    open spec fn text(&self) -> Seq<char> {
        self.0@
    }

    fn as_text(&self) -> (r: &String) {
        &self.0
    }
}

impl Duplicate for PluginRef {
    fn duplicate(&self) -> (r: Self) {
        PluginRef(self.0.clone())
    }
}

#[derive(Debug, Clone, PartialEq, Eq, Hash, PartialOrd, Ord)]
pub struct PluginContributionRef(pub String);

impl Textual for PluginContributionRef {
    open spec fn text(&self) -> Seq<char> {
        self.0@
    }

    fn as_text(&self) -> (r: &String) {
        &self.0
    }
}

impl Duplicate for PluginContributionRef {
    fn duplicate(&self) -> (r: Self) {
        PluginContributionRef(self.0.clone())
    }
}

#[derive(Debug, Clone, PartialEq, Eq, Hash, PartialOrd, Ord)]
pub struct CapabilityRef(pub String);

impl Textual for CapabilityRef {
    open spec fn text(&self) -> Seq<char> {
        self.0@
    }

    fn as_text(&self) -> (r: &String) {
        &self.0
    }
}

impl Duplicate for CapabilityRef {
    fn duplicate(&self) -> (r: Self) {
        CapabilityRef(self.0.clone())
    }
}

#[derive(Debug, Clone, PartialEq, Eq, Hash, PartialOrd, Ord)]
pub struct HookRef(pub String);

impl Textual for HookRef {
    open spec fn text(&self) -> Seq<char> {
        self.0@
    }

    fn as_text(&self) -> (r: &String) {
        &self.0
    }
}

impl Duplicate for HookRef {
    fn duplicate(&self) -> (r: Self) {
        HookRef(self.0.clone())
    }
}

#[derive(Debug, Clone, PartialEq, Eq, Hash, PartialOrd, Ord)]
pub struct CapabilityEvidenceRef(pub String);

impl Textual for CapabilityEvidenceRef {
    open spec fn text(&self) -> Seq<char> {
        self.0@
    }

    fn as_text(&self) -> (r: &String) {
        &self.0
    }
}

impl Duplicate for CapabilityEvidenceRef {
    fn duplicate(&self) -> (r: Self) {
        CapabilityEvidenceRef(self.0.clone())
    }
}

#[derive(Debug, Clone, PartialEq, Eq, Hash, PartialOrd, Ord)]
pub struct CapabilityOutcome(pub String);

impl Textual for CapabilityOutcome {
    open spec fn text(&self) -> Seq<char> {
        self.0@
    }

    fn as_text(&self) -> (r: &String) {
        &self.0
    }
}

impl Duplicate for CapabilityOutcome {
    fn duplicate(&self) -> (r: Self) {
        CapabilityOutcome(self.0.clone())
    }
}

#[derive(Debug, Clone, PartialEq, Eq, Hash, PartialOrd, Ord)]
pub struct Reliability(pub String);

impl Textual for Reliability {
    open spec fn text(&self) -> Seq<char> {
        self.0@
    }

    fn as_text(&self) -> (r: &String) {
        &self.0
    }
}

impl Duplicate for Reliability {
    fn duplicate(&self) -> (r: Self) {
        Reliability(self.0.clone())
    }
}

#[derive(Debug, Clone, PartialEq, Eq, Hash, PartialOrd, Ord)]
pub struct CarrierRef(pub String);

impl Textual for CarrierRef {
    open spec fn text(&self) -> Seq<char> {
        self.0@
    }

    fn as_text(&self) -> (r: &String) {
        &self.0
    }
}

impl Duplicate for CarrierRef {
    fn duplicate(&self) -> (r: Self) {
        CarrierRef(self.0.clone())
    }
}

#[derive(Debug, Clone, PartialEq, Eq, Hash, PartialOrd, Ord)]
pub struct ChannelAdapterRef(pub String);

impl Textual for ChannelAdapterRef {
    open spec fn text(&self) -> Seq<char> {
        self.0@
    }

    fn as_text(&self) -> (r: &String) {
        &self.0
    }
}

impl Duplicate for ChannelAdapterRef {
    fn duplicate(&self) -> (r: Self) {
        ChannelAdapterRef(self.0.clone())
    }
}

#[derive(Debug, Clone, PartialEq, Eq, Hash, PartialOrd, Ord)]
pub struct PurposeRef(pub String);

impl Textual for PurposeRef {
    open spec fn text(&self) -> Seq<char> {
        self.0@
    }

    fn as_text(&self) -> (r: &String) {
        &self.0
    }
}

impl Duplicate for PurposeRef {
    fn duplicate(&self) -> (r: Self) {
        PurposeRef(self.0.clone())
    }
}

#[derive(Debug, Clone, PartialEq, Eq, Hash, PartialOrd, Ord)]
pub struct TerminationReason(pub String);

impl Textual for TerminationReason {
    open spec fn text(&self) -> Seq<char> {
        self.0@
    }

    fn as_text(&self) -> (r: &String) {
        &self.0
    }
}

impl Duplicate for TerminationReason {
    fn duplicate(&self) -> (r: Self) {
        TerminationReason(self.0.clone())
    }
}

#[derive(Debug, Clone, PartialEq, Eq, Hash, PartialOrd, Ord)]
pub struct DisclosurePolicyRef(pub String);

impl Textual for DisclosurePolicyRef {
    open spec fn text(&self) -> Seq<char> {
        self.0@
    }

    fn as_text(&self) -> (r: &String) {
        &self.0
    }
}

impl Duplicate for DisclosurePolicyRef {
    fn duplicate(&self) -> (r: Self) {
        DisclosurePolicyRef(self.0.clone())
    }
}

#[derive(Debug, Clone, PartialEq, Eq, Hash, PartialOrd, Ord)]
pub struct TranscriptPolicyRef(pub String);

impl Textual for TranscriptPolicyRef {
    open spec fn text(&self) -> Seq<char> {
        self.0@
    }

    fn as_text(&self) -> (r: &String) {
        &self.0
    }
}

impl Duplicate for TranscriptPolicyRef {
    fn duplicate(&self) -> (r: Self) {
        TranscriptPolicyRef(self.0.clone())
    }
}

#[derive(Debug, Clone, PartialEq, Eq, Hash, PartialOrd, Ord)]
pub struct DisclosureRequestRef(pub String);

impl Textual for DisclosureRequestRef {
    open spec fn text(&self) -> Seq<char> {
        self.0@
    }

    fn as_text(&self) -> (r: &String) {
        &self.0
    }
}

impl Duplicate for DisclosureRequestRef {
    fn duplicate(&self) -> (r: Self) {
        DisclosureRequestRef(self.0.clone())
    }
}

#[derive(Debug, Clone, PartialEq, Eq, Hash, PartialOrd, Ord)]
pub struct CommunicationProposalRef(pub String);

impl Textual for CommunicationProposalRef {
    open spec fn text(&self) -> Seq<char> {
        self.0@
    }

    fn as_text(&self) -> (r: &String) {
        &self.0
    }
}

impl Duplicate for CommunicationProposalRef {
    fn duplicate(&self) -> (r: Self) {
        CommunicationProposalRef(self.0.clone())
    }
}

#[derive(Debug, Clone, PartialEq, Eq, Hash, PartialOrd, Ord)]
pub struct CommunicationSessionId(pub String);

impl Textual for CommunicationSessionId {
    open spec fn text(&self) -> Seq<char> {
        self.0@
    }

    fn as_text(&self) -> (r: &String) {
        &self.0
    }
}

impl Duplicate for CommunicationSessionId {
    fn duplicate(&self) -> (r: Self) {
        CommunicationSessionId(self.0.clone())
    }
}

#[derive(Debug, Clone, PartialEq, Eq, Hash, PartialOrd, Ord)]
pub struct ContentRef(pub String);

impl Textual for ContentRef {
    open spec fn text(&self) -> Seq<char> {
        self.0@
    }

    fn as_text(&self) -> (r: &String) {
        &self.0
    }
}

impl Duplicate for ContentRef {
    fn duplicate(&self) -> (r: Self) {
        ContentRef(self.0.clone())
    }
}

#[derive(Debug, Clone, PartialEq, Eq, Hash, PartialOrd, Ord)]
pub struct MemoryNodeRef(pub String);

impl Textual for MemoryNodeRef {
    open spec fn text(&self) -> Seq<char> {
        self.0@
    }

    fn as_text(&self) -> (r: &String) {
        &self.0
    }
}

impl Duplicate for MemoryNodeRef {
    fn duplicate(&self) -> (r: Self) {
        MemoryNodeRef(self.0.clone())
    }
}

#[derive(Debug, Clone, PartialEq, Eq, Hash, PartialOrd, Ord)]
pub struct MemoryEdgeRef(pub String);

impl Textual for MemoryEdgeRef {
    open spec fn text(&self) -> Seq<char> {
        self.0@
    }

    fn as_text(&self) -> (r: &String) {
        &self.0
    }
}

impl Duplicate for MemoryEdgeRef {
    fn duplicate(&self) -> (r: Self) {
        MemoryEdgeRef(self.0.clone())
    }
}

#[derive(Debug, Clone, PartialEq, Eq, Hash, PartialOrd, Ord)]
pub struct MemoryNodeType(pub String);

impl Textual for MemoryNodeType {
    open spec fn text(&self) -> Seq<char> {
        self.0@
    }

    fn as_text(&self) -> (r: &String) {
        &self.0
    }
}

impl Duplicate for MemoryNodeType {
    fn duplicate(&self) -> (r: Self) {
        MemoryNodeType(self.0.clone())
    }
}

#[derive(Debug, Clone, PartialEq, Eq, Hash, PartialOrd, Ord)]
pub struct MemoryEdgeType(pub String);

impl Textual for MemoryEdgeType {
    open spec fn text(&self) -> Seq<char> {
        self.0@
    }

    fn as_text(&self) -> (r: &String) {
        &self.0
    }
}

impl Duplicate for MemoryEdgeType {
    fn duplicate(&self) -> (r: Self) {
        MemoryEdgeType(self.0.clone())
    }
}

#[derive(Debug, Clone, PartialEq, Eq, Hash, PartialOrd, Ord)]
pub struct MemoryDeltasRef(pub String);

impl Textual for MemoryDeltasRef {
    open spec fn text(&self) -> Seq<char> {
        self.0@
    }

    fn as_text(&self) -> (r: &String) {
        &self.0
    }
}

impl Duplicate for MemoryDeltasRef {
    fn duplicate(&self) -> (r: Self) {
        MemoryDeltasRef(self.0.clone())
    }
}

#[derive(Debug, Clone, PartialEq, Eq, Hash, PartialOrd, Ord)]
pub struct UserAttributeRef(pub String);

impl Textual for UserAttributeRef {
    open spec fn text(&self) -> Seq<char> {
        self.0@
    }

    fn as_text(&self) -> (r: &String) {
        &self.0
    }
}

impl Duplicate for UserAttributeRef {
    fn duplicate(&self) -> (r: Self) {
        UserAttributeRef(self.0.clone())
    }
}

#[derive(Debug, Clone, PartialEq, Eq, Hash, PartialOrd, Ord)]
pub struct UserAttributeValueRef(pub String);

impl Textual for UserAttributeValueRef {
    open spec fn text(&self) -> Seq<char> {
        self.0@
    }

    fn as_text(&self) -> (r: &String) {
        &self.0
    }
}

impl Duplicate for UserAttributeValueRef {
    fn duplicate(&self) -> (r: Self) {
        UserAttributeValueRef(self.0.clone())
    }
}

#[derive(Debug, Clone, PartialEq, Eq, Hash, PartialOrd, Ord)]
pub struct HistoricalSourceRef(pub String);

impl Textual for HistoricalSourceRef {
    open spec fn text(&self) -> Seq<char> {
        self.0@
    }

    fn as_text(&self) -> (r: &String) {
        &self.0
    }
}

impl Duplicate for HistoricalSourceRef {
    fn duplicate(&self) -> (r: Self) {
        HistoricalSourceRef(self.0.clone())
    }
}

#[derive(Debug, Clone, PartialEq, Eq, Hash, PartialOrd, Ord)]
pub struct JudgmentFrameRef(pub String);

impl Textual for JudgmentFrameRef {
    open spec fn text(&self) -> Seq<char> {
        self.0@
    }

    fn as_text(&self) -> (r: &String) {
        &self.0
    }
}

impl Duplicate for JudgmentFrameRef {
    fn duplicate(&self) -> (r: Self) {
        JudgmentFrameRef(self.0.clone())
    }
}

#[derive(Debug, Clone, PartialEq, Eq, Hash, PartialOrd, Ord)]
pub struct QualityModelRef(pub String);

impl Textual for QualityModelRef {
    open spec fn text(&self) -> Seq<char> {
        self.0@
    }

    fn as_text(&self) -> (r: &String) {
        &self.0
    }
}

impl Duplicate for QualityModelRef {
    fn duplicate(&self) -> (r: Self) {
        QualityModelRef(self.0.clone())
    }
}

#[derive(Debug, Clone, PartialEq, Eq, Hash, PartialOrd, Ord)]
pub struct BlindSpotModelRef(pub String);

impl Textual for BlindSpotModelRef {
    open spec fn text(&self) -> Seq<char> {
        self.0@
    }

    fn as_text(&self) -> (r: &String) {
        &self.0
    }
}

impl Duplicate for BlindSpotModelRef {
    fn duplicate(&self) -> (r: Self) {
        BlindSpotModelRef(self.0.clone())
    }
}

#[derive(Debug, Clone, PartialEq, Eq, Hash, PartialOrd, Ord)]
pub struct MapUpdateKind(pub String);

impl Textual for MapUpdateKind {
    open spec fn text(&self) -> Seq<char> {
        self.0@
    }

    fn as_text(&self) -> (r: &String) {
        &self.0
    }
}

impl Duplicate for MapUpdateKind {
    fn duplicate(&self) -> (r: Self) {
        MapUpdateKind(self.0.clone())
    }
}

#[derive(Debug, Clone, PartialEq, Eq, Hash, PartialOrd, Ord)]
pub struct ConfigFindingRef(pub String);

impl Textual for ConfigFindingRef {
    open spec fn text(&self) -> Seq<char> {
        self.0@
    }

    fn as_text(&self) -> (r: &String) {
        &self.0
    }
}

impl Duplicate for ConfigFindingRef {
    fn duplicate(&self) -> (r: Self) {
        ConfigFindingRef(self.0.clone())
    }
}

#[derive(Debug, Clone, PartialEq, Eq, Hash, PartialOrd, Ord)]
pub struct ComplianceFindingRef(pub String);

impl Textual for ComplianceFindingRef {
    open spec fn text(&self) -> Seq<char> {
        self.0@
    }

    fn as_text(&self) -> (r: &String) {
        &self.0
    }
}

impl Duplicate for ComplianceFindingRef {
    fn duplicate(&self) -> (r: Self) {
        ComplianceFindingRef(self.0.clone())
    }
}

#[derive(Debug, Clone, PartialEq, Eq, Hash, PartialOrd, Ord)]
pub struct SuggestedFixRef(pub String);

impl Textual for SuggestedFixRef {
    open spec fn text(&self) -> Seq<char> {
        self.0@
    }

    fn as_text(&self) -> (r: &String) {
        &self.0
    }
}

impl Duplicate for SuggestedFixRef {
    fn duplicate(&self) -> (r: Self) {
        SuggestedFixRef(self.0.clone())
    }
}

#[derive(Debug, Clone, PartialEq, Eq, Hash, PartialOrd, Ord)]
pub struct StopReason(pub String);

impl Textual for StopReason {
    open spec fn text(&self) -> Seq<char> {
        self.0@
    }

    fn as_text(&self) -> (r: &String) {
        &self.0
    }
}

impl Duplicate for StopReason {
    fn duplicate(&self) -> (r: Self) {
        StopReason(self.0.clone())
    }
}

#[derive(Debug, Clone, PartialEq, Eq, Hash, PartialOrd, Ord)]
pub struct Budget(pub String);

impl Textual for Budget {
    open spec fn text(&self) -> Seq<char> {
        self.0@
    }

    fn as_text(&self) -> (r: &String) {
        &self.0
    }
}

impl Duplicate for Budget {
    fn duplicate(&self) -> (r: Self) {
        Budget(self.0.clone())
    }
}

#[derive(Debug, Clone, PartialEq, Eq, Hash, PartialOrd, Ord)]
pub struct MemoryScope(pub String);

impl Textual for MemoryScope {
    open spec fn text(&self) -> Seq<char> {
        self.0@
    }

    fn as_text(&self) -> (r: &String) {
        &self.0
    }
}

impl Duplicate for MemoryScope {
    fn duplicate(&self) -> (r: Self) {
        MemoryScope(self.0.clone())
    }
}

#[derive(Debug, Clone, PartialEq, Eq, Hash, PartialOrd, Ord)]
pub struct RunInput(pub String);

impl Textual for RunInput {
    open spec fn text(&self) -> Seq<char> {
        self.0@
    }

    fn as_text(&self) -> (r: &String) {
        &self.0
    }
}

impl Duplicate for RunInput {
    fn duplicate(&self) -> (r: Self) {
        RunInput(self.0.clone())
    }
}

#[derive(Debug, Clone, PartialEq, Eq, Hash, PartialOrd, Ord)]
pub struct Constraint(pub String);

impl Textual for Constraint {
    open spec fn text(&self) -> Seq<char> {
        self.0@
    }

    fn as_text(&self) -> (r: &String) {
        &self.0
    }
}

impl Duplicate for Constraint {
    fn duplicate(&self) -> (r: Self) {
        Constraint(self.0.clone())
    }
}

#[derive(Debug, Clone, PartialEq, Eq, Hash, PartialOrd, Ord)]
pub struct PlanDigest(pub String);

impl Textual for PlanDigest {
    open spec fn text(&self) -> Seq<char> {
        self.0@
    }

    fn as_text(&self) -> (r: &String) {
        &self.0
    }
}

impl Duplicate for PlanDigest {
    fn duplicate(&self) -> (r: Self) {
        PlanDigest(self.0.clone())
    }
}

#[derive(Debug, Clone, PartialEq, Eq, Hash, PartialOrd, Ord)]
pub struct SchemaDigest(pub String);

impl Textual for SchemaDigest {
    open spec fn text(&self) -> Seq<char> {
        self.0@
    }

    fn as_text(&self) -> (r: &String) {
        &self.0
    }
}

impl Duplicate for SchemaDigest {
    fn duplicate(&self) -> (r: Self) {
        SchemaDigest(self.0.clone())
    }
}

#[derive(Debug, Clone, PartialEq, Eq, Hash, PartialOrd, Ord)]
pub struct Nonce(pub String);

impl Textual for Nonce {
    open spec fn text(&self) -> Seq<char> {
        self.0@
    }

    fn as_text(&self) -> (r: &String) {
        &self.0
    }
}

impl Duplicate for Nonce {
    fn duplicate(&self) -> (r: Self) {
        Nonce(self.0.clone())
    }
}

#[derive(Debug, Clone, PartialEq, Eq, Hash, PartialOrd, Ord)]
pub struct VerifiedPrincipal(pub String);

impl Textual for VerifiedPrincipal {
    open spec fn text(&self) -> Seq<char> {
        self.0@
    }

    fn as_text(&self) -> (r: &String) {
        &self.0
    }
}

impl Duplicate for VerifiedPrincipal {
    fn duplicate(&self) -> (r: Self) {
        VerifiedPrincipal(self.0.clone())
    }
}

#[derive(Debug, Clone, PartialEq, Eq, Hash, PartialOrd, Ord)]
pub struct Scope(pub String);

impl Textual for Scope {
    open spec fn text(&self) -> Seq<char> {
        self.0@
    }

    fn as_text(&self) -> (r: &String) {
        &self.0
    }
}

impl Duplicate for Scope {
    fn duplicate(&self) -> (r: Self) {
        Scope(self.0.clone())
    }
}

#[derive(Debug, Clone, PartialEq, Eq, Hash, PartialOrd, Ord)]
pub struct GoalRef(pub String);

impl Textual for GoalRef {
    open spec fn text(&self) -> Seq<char> {
        self.0@
    }

    fn as_text(&self) -> (r: &String) {
        &self.0
    }
}

impl Duplicate for GoalRef {
    fn duplicate(&self) -> (r: Self) {
        GoalRef(self.0.clone())
    }
}

#[derive(Debug, Clone, PartialEq, Eq, Hash, PartialOrd, Ord)]
pub struct CredentialRef(pub String);

impl Textual for CredentialRef {
    open spec fn text(&self) -> Seq<char> {
        self.0@
    }

    fn as_text(&self) -> (r: &String) {
        &self.0
    }
}

impl Duplicate for CredentialRef {
    fn duplicate(&self) -> (r: Self) {
        CredentialRef(self.0.clone())
    }
}

#[derive(Debug, Clone, PartialEq, Eq, Hash, PartialOrd, Ord)]
pub struct VerifyRef(pub String);

impl Textual for VerifyRef {
    open spec fn text(&self) -> Seq<char> {
        self.0@
    }

    fn as_text(&self) -> (r: &String) {
        &self.0
    }
}

impl Duplicate for VerifyRef {
    fn duplicate(&self) -> (r: Self) {
        VerifyRef(self.0.clone())
    }
}

#[derive(Debug, Clone, PartialEq, Eq, Hash, PartialOrd, Ord)]
pub struct SurfaceRef(pub String);

impl Textual for SurfaceRef {
    open spec fn text(&self) -> Seq<char> {
        self.0@
    }

    fn as_text(&self) -> (r: &String) {
        &self.0
    }
}

impl Duplicate for SurfaceRef {
    fn duplicate(&self) -> (r: Self) {
        SurfaceRef(self.0.clone())
    }
}

#[derive(Debug, Clone, PartialEq, Eq, Hash, PartialOrd, Ord)]
pub struct EvalRef(pub String);

impl Textual for EvalRef {
    open spec fn text(&self) -> Seq<char> {
        self.0@
    }

    fn as_text(&self) -> (r: &String) {
        &self.0
    }
}

impl Duplicate for EvalRef {
    fn duplicate(&self) -> (r: Self) {
        EvalRef(self.0.clone())
    }
}

#[derive(Debug, Clone, PartialEq, Eq, Hash, PartialOrd, Ord)]
pub struct EvalCaseRef(pub String);

impl Textual for EvalCaseRef {
    open spec fn text(&self) -> Seq<char> {
        self.0@
    }

    fn as_text(&self) -> (r: &String) {
        &self.0
    }
}

impl Duplicate for EvalCaseRef {
    fn duplicate(&self) -> (r: Self) {
        EvalCaseRef(self.0.clone())
    }
}

#[derive(Debug, Clone, PartialEq, Eq, Hash, PartialOrd, Ord)]
pub struct RubricRef(pub String);

impl Textual for RubricRef {
    open spec fn text(&self) -> Seq<char> {
        self.0@
    }

    fn as_text(&self) -> (r: &String) {
        &self.0
    }
}

impl Duplicate for RubricRef {
    fn duplicate(&self) -> (r: Self) {
        RubricRef(self.0.clone())
    }
}

#[derive(Debug, Clone, PartialEq, Eq, Hash, PartialOrd, Ord)]
pub struct ReplaySnapshotRef(pub String);

impl Textual for ReplaySnapshotRef {
    open spec fn text(&self) -> Seq<char> {
        self.0@
    }

    fn as_text(&self) -> (r: &String) {
        &self.0
    }
}

impl Duplicate for ReplaySnapshotRef {
    fn duplicate(&self) -> (r: Self) {
        ReplaySnapshotRef(self.0.clone())
    }
}

#[derive(Debug, Clone, PartialEq, Eq, Hash, PartialOrd, Ord)]
pub struct ReplayBundleRef(pub String);

impl Textual for ReplayBundleRef {
    open spec fn text(&self) -> Seq<char> {
        self.0@
    }

    fn as_text(&self) -> (r: &String) {
        &self.0
    }
}

impl Duplicate for ReplayBundleRef {
    fn duplicate(&self) -> (r: Self) {
        ReplayBundleRef(self.0.clone())
    }
}

#[derive(Debug, Clone, PartialEq, Eq, Hash, PartialOrd, Ord)]
pub struct ExactReplayReportRef(pub String);

impl Textual for ExactReplayReportRef {
    open spec fn text(&self) -> Seq<char> {
        self.0@
    }

    fn as_text(&self) -> (r: &String) {
        &self.0
    }
}

impl Duplicate for ExactReplayReportRef {
    fn duplicate(&self) -> (r: Self) {
        ExactReplayReportRef(self.0.clone())
    }
}

#[derive(Debug, Clone, PartialEq, Eq, Hash, PartialOrd, Ord)]
pub struct EvaluationCaseRef(pub String);

impl Textual for EvaluationCaseRef {
    open spec fn text(&self) -> Seq<char> {
        self.0@
    }

    fn as_text(&self) -> (r: &String) {
        &self.0
    }
}

impl Duplicate for EvaluationCaseRef {
    fn duplicate(&self) -> (r: Self) {
        EvaluationCaseRef(self.0.clone())
    }
}

#[derive(Debug, Clone, PartialEq, Eq, Hash, PartialOrd, Ord)]
pub struct EvaluationProfileRef(pub String);

impl Textual for EvaluationProfileRef {
    open spec fn text(&self) -> Seq<char> {
        self.0@
    }

    fn as_text(&self) -> (r: &String) {
        &self.0
    }
}

impl Duplicate for EvaluationProfileRef {
    fn duplicate(&self) -> (r: Self) {
        EvaluationProfileRef(self.0.clone())
    }
}

#[derive(Debug, Clone, PartialEq, Eq, Hash, PartialOrd, Ord)]
pub struct EvolutionEvaluationRef(pub String);

impl Textual for EvolutionEvaluationRef {
    open spec fn text(&self) -> Seq<char> {
        self.0@
    }

    fn as_text(&self) -> (r: &String) {
        &self.0
    }
}

impl Duplicate for EvolutionEvaluationRef {
    fn duplicate(&self) -> (r: Self) {
        EvolutionEvaluationRef(self.0.clone())
    }
}

#[derive(Debug, Clone, PartialEq, Eq, Hash, PartialOrd, Ord)]
pub struct EvolutionSnapshotRef(pub String);

impl Textual for EvolutionSnapshotRef {
    open spec fn text(&self) -> Seq<char> {
        self.0@
    }

    fn as_text(&self) -> (r: &String) {
        &self.0
    }
}

impl Duplicate for EvolutionSnapshotRef {
    fn duplicate(&self) -> (r: Self) {
        EvolutionSnapshotRef(self.0.clone())
    }
}

#[derive(Debug, Clone, PartialEq, Eq, Hash, PartialOrd, Ord)]
pub struct EvolutionAggregateRef(pub String);

impl Textual for EvolutionAggregateRef {
    open spec fn text(&self) -> Seq<char> {
        self.0@
    }

    fn as_text(&self) -> (r: &String) {
        &self.0
    }
}

impl Duplicate for EvolutionAggregateRef {
    fn duplicate(&self) -> (r: Self) {
        EvolutionAggregateRef(self.0.clone())
    }
}

#[derive(Debug, Clone, PartialEq, Eq, Hash, PartialOrd, Ord)]
pub struct StrategyVersionRef(pub String);

impl Textual for StrategyVersionRef {
    open spec fn text(&self) -> Seq<char> {
        self.0@
    }

    fn as_text(&self) -> (r: &String) {
        &self.0
    }
}

impl Duplicate for StrategyVersionRef {
    fn duplicate(&self) -> (r: Self) {
        StrategyVersionRef(self.0.clone())
    }
}

#[derive(Debug, Clone, PartialEq, Eq, Hash, PartialOrd, Ord)]
pub struct LoopSpecRef(pub String);

impl Textual for LoopSpecRef {
    open spec fn text(&self) -> Seq<char> {
        self.0@
    }

    fn as_text(&self) -> (r: &String) {
        &self.0
    }
}

impl Duplicate for LoopSpecRef {
    fn duplicate(&self) -> (r: Self) {
        LoopSpecRef(self.0.clone())
    }
}

#[derive(Debug, Clone, PartialEq, Eq, Hash, PartialOrd, Ord)]
pub struct DriverProfileRef(pub String);

impl Textual for DriverProfileRef {
    open spec fn text(&self) -> Seq<char> {
        self.0@
    }

    fn as_text(&self) -> (r: &String) {
        &self.0
    }
}

impl Duplicate for DriverProfileRef {
    fn duplicate(&self) -> (r: Self) {
        DriverProfileRef(self.0.clone())
    }
}

#[derive(Debug, Clone, PartialEq, Eq, Hash, PartialOrd, Ord)]
pub struct OwnerControlRef(pub String);

impl Textual for OwnerControlRef {
    open spec fn text(&self) -> Seq<char> {
        self.0@
    }

    fn as_text(&self) -> (r: &String) {
        &self.0
    }
}

impl Duplicate for OwnerControlRef {
    fn duplicate(&self) -> (r: Self) {
        OwnerControlRef(self.0.clone())
    }
}

#[derive(Debug, Clone, PartialEq, Eq, Hash, PartialOrd, Ord)]
pub struct InvariantResultRef(pub String);

impl Textual for InvariantResultRef {
    open spec fn text(&self) -> Seq<char> {
        self.0@
    }

    fn as_text(&self) -> (r: &String) {
        &self.0
    }
}

impl Duplicate for InvariantResultRef {
    fn duplicate(&self) -> (r: Self) {
        InvariantResultRef(self.0.clone())
    }
}

#[derive(Debug, Clone, PartialEq, Eq, Hash, PartialOrd, Ord)]
pub struct ActiveStrategyId(pub String);

impl Textual for ActiveStrategyId {
    open spec fn text(&self) -> Seq<char> {
        self.0@
    }

    fn as_text(&self) -> (r: &String) {
        &self.0
    }
}

impl Duplicate for ActiveStrategyId {
    fn duplicate(&self) -> (r: Self) {
        ActiveStrategyId(self.0.clone())
    }
}

#[derive(Debug, Clone, PartialEq, Eq, Hash, PartialOrd, Ord)]
pub struct ResourceGraphSnapshotRef(pub String);

impl Textual for ResourceGraphSnapshotRef {
    open spec fn text(&self) -> Seq<char> {
        self.0@
    }

    fn as_text(&self) -> (r: &String) {
        &self.0
    }
}

impl Duplicate for ResourceGraphSnapshotRef {
    fn duplicate(&self) -> (r: Self) {
        ResourceGraphSnapshotRef(self.0.clone())
    }
}

#[derive(Debug, Clone, PartialEq, Eq, Hash, PartialOrd, Ord)]
pub struct CapabilityGapRef(pub String);

impl Textual for CapabilityGapRef {
    open spec fn text(&self) -> Seq<char> {
        self.0@
    }

    fn as_text(&self) -> (r: &String) {
        &self.0
    }
}

impl Duplicate for CapabilityGapRef {
    fn duplicate(&self) -> (r: Self) {
        CapabilityGapRef(self.0.clone())
    }
}

#[derive(Debug, Clone, PartialEq, Eq, Hash, PartialOrd, Ord)]
pub struct CapabilityUpdateProposalRef(pub String);

impl Textual for CapabilityUpdateProposalRef {
    open spec fn text(&self) -> Seq<char> {
        self.0@
    }

    fn as_text(&self) -> (r: &String) {
        &self.0
    }
}

impl Duplicate for CapabilityUpdateProposalRef {
    fn duplicate(&self) -> (r: Self) {
        CapabilityUpdateProposalRef(self.0.clone())
    }
}

#[derive(Debug, Clone, PartialEq, Eq, Hash, PartialOrd, Ord)]
pub struct GoalCheckpointRef(pub String);

impl Textual for GoalCheckpointRef {
    open spec fn text(&self) -> Seq<char> {
        self.0@
    }

    fn as_text(&self) -> (r: &String) {
        &self.0
    }
}

impl Duplicate for GoalCheckpointRef {
    fn duplicate(&self) -> (r: Self) {
        GoalCheckpointRef(self.0.clone())
    }
}

#[derive(Debug, Clone, PartialEq, Eq, Hash, PartialOrd, Ord)]
pub struct ManagedPluginPolicyRef(pub String);

impl Textual for ManagedPluginPolicyRef {
    open spec fn text(&self) -> Seq<char> {
        self.0@
    }

    fn as_text(&self) -> (r: &String) {
        &self.0
    }
}

impl Duplicate for ManagedPluginPolicyRef {
    fn duplicate(&self) -> (r: Self) {
        ManagedPluginPolicyRef(self.0.clone())
    }
}

#[derive(Debug, Clone, PartialEq, Eq, Hash, PartialOrd, Ord)]
pub struct ManagedPluginSourceRef(pub String);

impl Textual for ManagedPluginSourceRef {
    open spec fn text(&self) -> Seq<char> {
        self.0@
    }

    fn as_text(&self) -> (r: &String) {
        &self.0
    }
}

impl Duplicate for ManagedPluginSourceRef {
    fn duplicate(&self) -> (r: Self) {
        ManagedPluginSourceRef(self.0.clone())
    }
}

#[derive(Debug, Clone, PartialEq, Eq, Hash, PartialOrd, Ord)]
pub struct PluginSignatureRef(pub String);

impl Textual for PluginSignatureRef {
    open spec fn text(&self) -> Seq<char> {
        self.0@
    }

    fn as_text(&self) -> (r: &String) {
        &self.0
    }
}

impl Duplicate for PluginSignatureRef {
    fn duplicate(&self) -> (r: Self) {
        PluginSignatureRef(self.0.clone())
    }
}

#[derive(Debug, Clone, PartialEq, Eq, Hash, PartialOrd, Ord)]
pub struct ManagedPluginSnapshotRef(pub String);

impl Textual for ManagedPluginSnapshotRef {
    open spec fn text(&self) -> Seq<char> {
        self.0@
    }

    fn as_text(&self) -> (r: &String) {
        &self.0
    }
}

impl Duplicate for ManagedPluginSnapshotRef {
    fn duplicate(&self) -> (r: Self) {
        ManagedPluginSnapshotRef(self.0.clone())
    }
}

#[derive(Debug, Clone, PartialEq, Eq, Hash, PartialOrd, Ord)]
pub struct SyncPeerRef(pub String);

impl Textual for SyncPeerRef {
    open spec fn text(&self) -> Seq<char> {
        self.0@
    }

    fn as_text(&self) -> (r: &String) {
        &self.0
    }
}

impl Duplicate for SyncPeerRef {
    fn duplicate(&self) -> (r: Self) {
        SyncPeerRef(self.0.clone())
    }
}

#[derive(Debug, Clone, PartialEq, Eq, Hash, PartialOrd, Ord)]
pub struct SyncBatchId(pub String);

impl Textual for SyncBatchId {
    open spec fn text(&self) -> Seq<char> {
        self.0@
    }

    fn as_text(&self) -> (r: &String) {
        &self.0
    }
}

impl Duplicate for SyncBatchId {
    fn duplicate(&self) -> (r: Self) {
        SyncBatchId(self.0.clone())
    }
}

#[derive(Debug, Clone, PartialEq, Eq, Hash, PartialOrd, Ord)]
pub struct RedactionPolicyRef(pub String);

impl Textual for RedactionPolicyRef {
    open spec fn text(&self) -> Seq<char> {
        self.0@
    }

    fn as_text(&self) -> (r: &String) {
        &self.0
    }
}

impl Duplicate for RedactionPolicyRef {
    fn duplicate(&self) -> (r: Self) {
        RedactionPolicyRef(self.0.clone())
    }
}

#[derive(Debug, Clone, PartialEq, Eq, Hash, PartialOrd, Ord)]
pub struct FederationAggregateRef(pub String);

impl Textual for FederationAggregateRef {
    open spec fn text(&self) -> Seq<char> {
        self.0@
    }

    fn as_text(&self) -> (r: &String) {
        &self.0
    }
}

impl Duplicate for FederationAggregateRef {
    fn duplicate(&self) -> (r: Self) {
        FederationAggregateRef(self.0.clone())
    }
}

#[derive(Debug, Clone, PartialEq, Eq, Hash, PartialOrd, Ord)]
pub struct FederatedPeerRef(pub String);

impl Textual for FederatedPeerRef {
    open spec fn text(&self) -> Seq<char> {
        self.0@
    }

    fn as_text(&self) -> (r: &String) {
        &self.0
    }
}

impl Duplicate for FederatedPeerRef {
    fn duplicate(&self) -> (r: Self) {
        FederatedPeerRef(self.0.clone())
    }
}

#[derive(Debug, Clone, PartialEq, Eq, Hash, PartialOrd, Ord)]
pub struct TransportIdentityDigest(pub String);

impl Textual for TransportIdentityDigest {
    open spec fn text(&self) -> Seq<char> {
        self.0@
    }

    fn as_text(&self) -> (r: &String) {
        &self.0
    }
}

impl Duplicate for TransportIdentityDigest {
    fn duplicate(&self) -> (r: Self) {
        TransportIdentityDigest(self.0.clone())
    }
}

#[derive(Debug, Clone, PartialEq, Eq, Hash, PartialOrd, Ord)]
pub struct FederatedPeerGrantRef(pub String);

impl Textual for FederatedPeerGrantRef {
    open spec fn text(&self) -> Seq<char> {
        self.0@
    }

    fn as_text(&self) -> (r: &String) {
        &self.0
    }
}

impl Duplicate for FederatedPeerGrantRef {
    fn duplicate(&self) -> (r: Self) {
        FederatedPeerGrantRef(self.0.clone())
    }
}

#[derive(Debug, Clone, PartialEq, Eq, Hash, PartialOrd, Ord)]
pub struct FederationSnapshotRef(pub String);

impl Textual for FederationSnapshotRef {
    open spec fn text(&self) -> Seq<char> {
        self.0@
    }

    fn as_text(&self) -> (r: &String) {
        &self.0
    }
}

impl Duplicate for FederationSnapshotRef {
    fn duplicate(&self) -> (r: Self) {
        FederationSnapshotRef(self.0.clone())
    }
}

#[derive(Debug, Clone, PartialEq, Eq, Hash, PartialOrd, Ord)]
pub struct AuthorityRef(pub String);

impl Textual for AuthorityRef {
    open spec fn text(&self) -> Seq<char> {
        self.0@
    }

    fn as_text(&self) -> (r: &String) {
        &self.0
    }
}

impl Duplicate for AuthorityRef {
    fn duplicate(&self) -> (r: Self) {
        AuthorityRef(self.0.clone())
    }
}

#[derive(Debug, Clone, PartialEq, Eq, Hash, PartialOrd, Ord)]
pub struct ExecutorCredentialSlotRef(pub String);

impl Textual for ExecutorCredentialSlotRef {
    open spec fn text(&self) -> Seq<char> {
        self.0@
    }

    fn as_text(&self) -> (r: &String) {
        &self.0
    }
}

impl Duplicate for ExecutorCredentialSlotRef {
    fn duplicate(&self) -> (r: Self) {
        ExecutorCredentialSlotRef(self.0.clone())
    }
}

#[derive(Debug, Clone, PartialEq, Eq, Hash, PartialOrd, Ord)]
pub struct ExecutorProfileRef(pub String);

impl Textual for ExecutorProfileRef {
    open spec fn text(&self) -> Seq<char> {
        self.0@
    }

    fn as_text(&self) -> (r: &String) {
        &self.0
    }
}

impl Duplicate for ExecutorProfileRef {
    fn duplicate(&self) -> (r: Self) {
        ExecutorProfileRef(self.0.clone())
    }
}

#[derive(Debug, Clone, PartialEq, Eq, Hash, PartialOrd, Ord)]
pub struct RemotePlacementPlanRef(pub String);

impl Textual for RemotePlacementPlanRef {
    open spec fn text(&self) -> Seq<char> {
        self.0@
    }

    fn as_text(&self) -> (r: &String) {
        &self.0
    }
}

impl Duplicate for RemotePlacementPlanRef {
    fn duplicate(&self) -> (r: Self) {
        RemotePlacementPlanRef(self.0.clone())
    }
}

#[derive(Debug, Clone, PartialEq, Eq, Hash, PartialOrd, Ord)]
pub struct RemoteExecutionLeaseRef(pub String);

impl Textual for RemoteExecutionLeaseRef {
    open spec fn text(&self) -> Seq<char> {
        self.0@
    }

    fn as_text(&self) -> (r: &String) {
        &self.0
    }
}

impl Duplicate for RemoteExecutionLeaseRef {
    fn duplicate(&self) -> (r: Self) {
        RemoteExecutionLeaseRef(self.0.clone())
    }
}

#[derive(Debug, Clone, PartialEq, Eq, Hash, PartialOrd, Ord)]
pub struct RemoteDispatchId(pub String);

impl Textual for RemoteDispatchId {
    open spec fn text(&self) -> Seq<char> {
        self.0@
    }

    fn as_text(&self) -> (r: &String) {
        &self.0
    }
}

impl Duplicate for RemoteDispatchId {
    fn duplicate(&self) -> (r: Self) {
        RemoteDispatchId(self.0.clone())
    }
}

#[derive(Debug, Clone, PartialEq, Eq, Hash, PartialOrd, Ord)]
pub struct RemoteDriverReceiptRef(pub String);

impl Textual for RemoteDriverReceiptRef {
    open spec fn text(&self) -> Seq<char> {
        self.0@
    }

    fn as_text(&self) -> (r: &String) {
        &self.0
    }
}

impl Duplicate for RemoteDriverReceiptRef {
    fn duplicate(&self) -> (r: Self) {
        RemoteDriverReceiptRef(self.0.clone())
    }
}

#[derive(Debug, Clone, PartialEq, Eq, Hash, PartialOrd, Ord)]
pub struct RemoteExecutionReceiptRef(pub String);

impl Textual for RemoteExecutionReceiptRef {
    open spec fn text(&self) -> Seq<char> {
        self.0@
    }

    fn as_text(&self) -> (r: &String) {
        &self.0
    }
}

impl Duplicate for RemoteExecutionReceiptRef {
    fn duplicate(&self) -> (r: Self) {
        RemoteExecutionReceiptRef(self.0.clone())
    }
}

#[derive(Debug, Clone, PartialEq, Eq, Hash, PartialOrd, Ord)]
pub struct RemoteWireRequestRef(pub String);

impl Textual for RemoteWireRequestRef {
    open spec fn text(&self) -> Seq<char> {
        self.0@
    }

    fn as_text(&self) -> (r: &String) {
        &self.0
    }
}

impl Duplicate for RemoteWireRequestRef {
    fn duplicate(&self) -> (r: Self) {
        RemoteWireRequestRef(self.0.clone())
    }
}

#[derive(Debug, Clone, PartialEq, Eq, Hash, PartialOrd, Ord)]
pub struct ReplicationBatchRef(pub String);

impl Textual for ReplicationBatchRef {
    open spec fn text(&self) -> Seq<char> {
        self.0@
    }

    fn as_text(&self) -> (r: &String) {
        &self.0
    }
}

impl Duplicate for ReplicationBatchRef {
    fn duplicate(&self) -> (r: Self) {
        ReplicationBatchRef(self.0.clone())
    }
}

#[derive(Debug, Clone, PartialEq, Eq, Hash, PartialOrd, Ord)]
pub struct FederatedSessionRef(pub String);

impl Textual for FederatedSessionRef {
    open spec fn text(&self) -> Seq<char> {
        self.0@
    }

    fn as_text(&self) -> (r: &String) {
        &self.0
    }
}

impl Duplicate for FederatedSessionRef {
    fn duplicate(&self) -> (r: Self) {
        FederatedSessionRef(self.0.clone())
    }
}

#[derive(Debug, Clone, PartialEq, Eq, Hash, PartialOrd, Ord)]
pub struct ReplicaProjectionDigestRef(pub String);

impl Textual for ReplicaProjectionDigestRef {
    open spec fn text(&self) -> Seq<char> {
        self.0@
    }

    fn as_text(&self) -> (r: &String) {
        &self.0
    }
}

impl Duplicate for ReplicaProjectionDigestRef {
    fn duplicate(&self) -> (r: Self) {
        ReplicaProjectionDigestRef(self.0.clone())
    }
}

#[derive(Debug, Clone, PartialEq, Eq, Hash, PartialOrd, Ord)]
pub struct RetentionRequestRef(pub String);

impl Textual for RetentionRequestRef {
    open spec fn text(&self) -> Seq<char> {
        self.0@
    }

    fn as_text(&self) -> (r: &String) {
        &self.0
    }
}

impl Duplicate for RetentionRequestRef {
    fn duplicate(&self) -> (r: Self) {
        RetentionRequestRef(self.0.clone())
    }
}

#[derive(Debug, Clone, PartialEq, Eq, Hash, PartialOrd, Ord)]
pub struct RetentionReceiptRef(pub String);

impl Textual for RetentionReceiptRef {
    open spec fn text(&self) -> Seq<char> {
        self.0@
    }

    fn as_text(&self) -> (r: &String) {
        &self.0
    }
}

impl Duplicate for RetentionReceiptRef {
    fn duplicate(&self) -> (r: Self) {
        RetentionReceiptRef(self.0.clone())
    }
}

#[derive(Debug, Clone, PartialEq, Eq, Hash, PartialOrd, Ord)]
pub struct PlacementDecisionRef(pub String);

impl Textual for PlacementDecisionRef {
    open spec fn text(&self) -> Seq<char> {
        self.0@
    }

    fn as_text(&self) -> (r: &String) {
        &self.0
    }
}

impl Duplicate for PlacementDecisionRef {
    fn duplicate(&self) -> (r: Self) {
        PlacementDecisionRef(self.0.clone())
    }
}

#[derive(Debug, Clone, PartialEq, Eq, Hash, PartialOrd, Ord)]
pub struct FederatedCheckpointArtifactRef(pub String);

impl Textual for FederatedCheckpointArtifactRef {
    open spec fn text(&self) -> Seq<char> {
        self.0@
    }

    fn as_text(&self) -> (r: &String) {
        &self.0
    }
}

impl Duplicate for FederatedCheckpointArtifactRef {
    fn duplicate(&self) -> (r: Self) {
        FederatedCheckpointArtifactRef(self.0.clone())
    }
}

#[derive(Debug, Clone, PartialEq, Eq, Hash, PartialOrd, Ord)]
pub struct FederatedDeviceSignalRef(pub String);

impl Textual for FederatedDeviceSignalRef {
    open spec fn text(&self) -> Seq<char> {
        self.0@
    }

    fn as_text(&self) -> (r: &String) {
        &self.0
    }
}

impl Duplicate for FederatedDeviceSignalRef {
    fn duplicate(&self) -> (r: Self) {
        FederatedDeviceSignalRef(self.0.clone())
    }
}

#[derive(Debug, Clone, PartialEq, Eq, Hash, PartialOrd, Ord)]
pub struct CapabilityPackageRef(pub String);

impl Textual for CapabilityPackageRef {
    open spec fn text(&self) -> Seq<char> {
        self.0@
    }

    fn as_text(&self) -> (r: &String) {
        &self.0
    }
}

impl Duplicate for CapabilityPackageRef {
    fn duplicate(&self) -> (r: Self) {
        CapabilityPackageRef(self.0.clone())
    }
}

#[derive(Debug, Clone, PartialEq, Eq, Hash, PartialOrd, Ord)]
pub struct CapabilityReleaseRef(pub String);

impl Textual for CapabilityReleaseRef {
    open spec fn text(&self) -> Seq<char> {
        self.0@
    }

    fn as_text(&self) -> (r: &String) {
        &self.0
    }
}

impl Duplicate for CapabilityReleaseRef {
    fn duplicate(&self) -> (r: Self) {
        CapabilityReleaseRef(self.0.clone())
    }
}

#[derive(Debug, Clone, PartialEq, Eq, Hash, PartialOrd, Ord)]
pub struct CapabilityPublisherRef(pub String);

impl Textual for CapabilityPublisherRef {
    open spec fn text(&self) -> Seq<char> {
        self.0@
    }

    fn as_text(&self) -> (r: &String) {
        &self.0
    }
}

impl Duplicate for CapabilityPublisherRef {
    fn duplicate(&self) -> (r: Self) {
        CapabilityPublisherRef(self.0.clone())
    }
}

#[derive(Debug, Clone, PartialEq, Eq, Hash, PartialOrd, Ord)]
pub struct CapabilityPublisherGrantRef(pub String);

impl Textual for CapabilityPublisherGrantRef {
    open spec fn text(&self) -> Seq<char> {
        self.0@
    }

    fn as_text(&self) -> (r: &String) {
        &self.0
    }
}

impl Duplicate for CapabilityPublisherGrantRef {
    fn duplicate(&self) -> (r: Self) {
        CapabilityPublisherGrantRef(self.0.clone())
    }
}

#[derive(Debug, Clone, PartialEq, Eq, Hash, PartialOrd, Ord)]
pub struct CapabilityAdmissionRef(pub String);

impl Textual for CapabilityAdmissionRef {
    open spec fn text(&self) -> Seq<char> {
        self.0@
    }

    fn as_text(&self) -> (r: &String) {
        &self.0
    }
}

impl Duplicate for CapabilityAdmissionRef {
    fn duplicate(&self) -> (r: Self) {
        CapabilityAdmissionRef(self.0.clone())
    }
}

#[derive(Debug, Clone, PartialEq, Eq, Hash, PartialOrd, Ord)]
pub struct CapabilityPolicyRef(pub String);

impl Textual for CapabilityPolicyRef {
    open spec fn text(&self) -> Seq<char> {
        self.0@
    }

    fn as_text(&self) -> (r: &String) {
        &self.0
    }
}

impl Duplicate for CapabilityPolicyRef {
    fn duplicate(&self) -> (r: Self) {
        CapabilityPolicyRef(self.0.clone())
    }
}

#[derive(Debug, Clone, PartialEq, Eq, Hash, PartialOrd, Ord)]
pub struct CapabilityInstallPlanRef(pub String);

impl Textual for CapabilityInstallPlanRef {
    open spec fn text(&self) -> Seq<char> {
        self.0@
    }

    fn as_text(&self) -> (r: &String) {
        &self.0
    }
}

impl Duplicate for CapabilityInstallPlanRef {
    fn duplicate(&self) -> (r: Self) {
        CapabilityInstallPlanRef(self.0.clone())
    }
}

#[derive(Debug, Clone, PartialEq, Eq, Hash, PartialOrd, Ord)]
pub struct CapabilityDistributionReceiptRef(pub String);

impl Textual for CapabilityDistributionReceiptRef {
    open spec fn text(&self) -> Seq<char> {
        self.0@
    }

    fn as_text(&self) -> (r: &String) {
        &self.0
    }
}

impl Duplicate for CapabilityDistributionReceiptRef {
    fn duplicate(&self) -> (r: Self) {
        CapabilityDistributionReceiptRef(self.0.clone())
    }
}

#[derive(Debug, Clone, PartialEq, Eq, Hash, PartialOrd, Ord)]
pub struct EcosystemAggregateRef(pub String);

impl Textual for EcosystemAggregateRef {
    open spec fn text(&self) -> Seq<char> {
        self.0@
    }

    fn as_text(&self) -> (r: &String) {
        &self.0
    }
}

impl Duplicate for EcosystemAggregateRef {
    fn duplicate(&self) -> (r: Self) {
        EcosystemAggregateRef(self.0.clone())
    }
}

/// The name under which credential references travel since the second milestone.
pub type SecretRef = CredentialRef;

#[derive(Debug, Clone, Copy, PartialEq, Eq, Hash, PartialOrd, Ord, Structural)]
pub struct SchemaVersion(pub u32);

#[derive(Debug, Clone, Copy, PartialEq, Eq, Hash, PartialOrd, Ord, Structural)]
pub struct Version(pub u32);

/// Monotonic fencing generation owned by the authority. It is deliberately
/// not a timestamp, process id, or network term.
#[derive(Debug, Clone, Copy, PartialEq, Eq, Hash, PartialOrd, Ord, Structural)]
pub struct AuthorityEpoch(pub u64);

#[derive(Debug, Clone, Copy, PartialEq, Eq, Hash, PartialOrd, Ord, Structural)]
pub struct PeerGrantVersion(pub u64);

#[derive(Debug, Clone, Copy, PartialEq, Eq, Hash, PartialOrd, Ord, Structural)]
pub struct FenceToken(pub u64);

impl AuthorityEpoch {
    pub fn initial() -> (r: Self)
        ensures
            r.0 == 0,
    {
        AuthorityEpoch(0)
    }

    /// The following epoch; the last representable epoch has none.
    pub fn next(self) -> (r: Result<Self, Error>)
        ensures
            r is Ok <==> self.0 < u64::MAX,
            r matches Ok(e) ==> e.0 == self.0 + 1,
    {
        if self.0 < u64::MAX {
            Ok(AuthorityEpoch(self.0 + 1))
        } else {
            Err(Error("authority epoch is exhausted".to_string()))
        }
    }
}

impl PeerGrantVersion {
    pub fn validate(self) -> (r: Result<(), Error>)
        ensures
            r is Ok <==> self.0 != 0,
    {
        if self.0 == 0 {
            return Err(Error("peer grant version must be non-zero".to_string()));
        }
        Ok(())
    }
}

impl FenceToken {
    pub fn validate(self) -> (r: Result<(), Error>)
        ensures
            r is Ok <==> self.0 != 0,
    {
        if self.0 == 0 {
            return Err(Error("fence token must be non-zero".to_string()));
        }
        Ok(())
    }
}

#[derive(Debug, Clone, Copy, PartialEq, Eq, Hash, PartialOrd, Ord, Structural)]
pub struct DurationMs(pub u64);

/// A finite confidence, carried as the bit pattern of its `f32` value.
#[derive(Debug, Clone, Copy, PartialEq, Eq, Structural)]
pub struct Confidence(pub u32);

/// A finite weight, carried as the bit pattern of its `f32` value.
#[derive(Debug, Clone, Copy, PartialEq, Eq, Structural)]
pub struct Weight(pub u32);

/// A finite resting activation, carried as the bit pattern of its `f32` value.
#[derive(Debug, Clone, Copy, PartialEq, Eq, Structural)]
pub struct RestingActivation(pub u32);

#[derive(Debug, Clone, Copy, PartialEq, Eq, Hash, PartialOrd, Ord, Structural)]
pub struct Recency(pub i64);

/// A flag that only ever holds `true` on the wire.
#[derive(Debug, Clone, Copy, PartialEq, Eq, Hash, PartialOrd, Ord, Structural)]
pub struct RequiredTrue;

#[derive(Debug, Clone, Copy, PartialEq, Eq, Hash, PartialOrd, Ord, Structural)]
pub struct Reach(pub u32);

pub type Timestamp = i64;

#[derive(Debug, Clone, Copy, PartialEq, Eq, Hash, Structural)]
pub enum Source {
    UserTurn,
    ProactiveJob,
    Schedule,
    Subagent,
    Communication,
    Internal,
    Replay,
    Simulation,
    OwnerControl,
}

#[derive(Debug, Clone, PartialEq, Eq, Hash)]
pub enum Actor {
    Owner,
    Agent,
    Subagent(RunId),
    External(ParticipantId),
    System,
}

#[derive(Debug, Clone, Copy, PartialEq, Eq, Hash, PartialOrd, Ord, Structural)]
pub enum TrustTier {
    Untrusted,
    ApprovedSource,
    VerifiedProcess,
    OwnerInput,
}

#[derive(Debug, Clone, PartialEq, Eq)]
pub struct Provenance {
    pub source: Source,
    pub actor: Actor,
    pub trust_tier: TrustTier,
    pub caused_by: Option<EventId>,
}

#[derive(Debug, Clone, Copy, PartialEq, Eq, Hash, Structural)]
pub enum RunStatus {
    Accepted,
    Running,
    Waiting,
    Complete,
    Aborted,
    Failed,
    Limited,
}

#[derive(Debug, Clone, Copy, PartialEq, Eq, Hash, Structural)]
pub enum ContextSource {
    Rules,
    History,
    MemorySummary,
    SkillsMetadata,
    ToolSchema,
}

#[derive(Debug, Clone, Copy, PartialEq, Eq, Hash, Structural)]
pub struct ModelUsage {
    pub input_tokens: u64,
    pub output_tokens: u64,
}

#[derive(Debug, Clone, Copy, PartialEq, Eq, Hash, Structural)]
pub enum OutputKind {
    Final,
    Tool,
    Handoff,
}

#[derive(Debug, Clone, Copy, PartialEq, Eq, Hash, Structural)]
pub enum PolicyDecision {
    Allow,
    Ask,
    Deny,
}

#[derive(Debug, Clone, Copy, PartialEq, Eq, Hash, PartialOrd, Ord, Structural)]
pub enum Risk {
    Low,
    Medium,
    High,
}

#[derive(Debug, Clone, Copy, PartialEq, Eq, Hash, Structural)]
pub enum ApprovalOutcome {
    Granted,
    Denied,
    Expired,
}

#[derive(Debug, Clone, Copy, PartialEq, Eq, Hash, PartialOrd, Ord, Structural)]
pub enum BackendKind {
    Shell,
    File,
    Mcp,
    Notification,
    Browser,
    Computer,
    Pty,
    AppApi,
    Remote,
}

#[derive(Debug, Clone, Copy, PartialEq, Eq, Hash, Structural)]
pub enum ActionType {
    Observe,
    Analyze,
    Prepare,
    Write,
    Execute,
    Deliver,
    ExternalCommit,
}

#[derive(Debug, Clone, Copy, PartialEq, Eq, Hash, Structural)]
pub enum ApprovalRule {
    Allow,
    Ask,
    Deny,
}

#[derive(Debug, Clone, Copy, PartialEq, Eq, Hash, Structural)]
pub enum FileOperation {
    Read,
    Write,
    Delete,
}

#[derive(Debug, Clone, Copy, PartialEq, Eq, Hash, Structural)]
pub enum McpTransport {
    Stdio,
}

#[derive(Debug, Clone, PartialEq, Eq)]
pub struct McpStdioSpec {
    pub schema_version: SchemaVersion,
    pub command: String,
    pub args: Vec<String>,
    pub env: Vec<(String, String)>,
}

#[derive(Debug, Clone, Copy, PartialEq, Eq, Hash, Structural)]
pub enum ExpectedEffect {
    Internal,
    Outward,
}

#[derive(Debug, Clone, PartialEq, Eq, Hash)]
pub enum VerificationOutcome {
    Pass,
    Fail,
    Unverifiable(ReasonRef),
}

#[derive(Debug, Clone, Copy, PartialEq, Eq, Hash, Structural)]
pub enum FailureClass {
    GoalFramingFailure,
    ContextFailure,
    CognitiveMapFailure,
    ResourceSelectionFailure,
    ExecutionFailure,
    VerificationFailure,
    TrustFailure,
    ProactivityFailure,
    LearningFailure,
    HandoffFailure,
    SelfEvalTrap,
    SafetyPolicyFailure,
    MemoryMisevolution,
}

#[derive(Debug, Clone, Copy, PartialEq, Eq, Hash, Structural)]
pub enum Impact {
    Low,
    Medium,
    High,
}

#[derive(Debug, Clone, Copy, PartialEq, Eq, Hash, Structural)]
pub enum StabilityTier {
    Fixed,
    Constitutional,
    Stable,
    Working,
    Session,
    Ephemeral,
}

#[derive(Debug, Clone, Copy, PartialEq, Eq, Hash, Structural)]
pub enum DecisionActor {
    Auto,
    User,
}

#[derive(Debug, Clone, Copy, PartialEq, Eq, Hash, Structural)]
pub enum ActivationShape {
    Association,
    Change,
    Pressure,
    Gap,
    Tension,
}

#[derive(Debug, Clone, Copy, PartialEq, Eq, Hash, PartialOrd, Ord, Structural)]
pub enum InterventionLevel {
    L0Observe,
    L1Suggest,
    L2Prepare,
    L3ActWithApproval,
    L4ActAutonomously,
    L5HighImpact,
}

#[derive(Debug, Clone, Copy, PartialEq, Eq, Hash, Structural)]
pub enum ImpulseSource {
    Gap,
    Change,
    Tension,
    Association,
    Pressure,
    Commitment,
}

#[derive(Debug, Clone, Copy, PartialEq, Eq, Hash, Structural)]
pub struct EmissionGuard {
    pub value_gate_passed: bool,
    pub competence_gate_passed: bool,
    pub policy_and_envelope_passed: bool,
}

#[derive(Debug, Clone, Copy, PartialEq, Eq, Hash, Structural)]
pub enum ProposalOutcome {
    Adopt,
    Reject,
    Defer,
}

#[derive(Debug, Clone, Copy, PartialEq, Eq, Hash, Structural)]
pub enum DeliveryMode {
    Hitchhike,
    Interrupt,
    Digest,
    Internal,
}

#[derive(Debug, Clone, Copy, PartialEq, Eq, Hash, Structural)]
pub enum IntentionSource {
    Commitment,
    DeferredProposal,
    SelfGenerated,
}

#[derive(Debug, Clone, Copy, PartialEq, Eq, Hash, Structural)]
pub enum IntentionOutcome {
    Fired,
    Done,
    Expired,
    Cancelled,
}

#[derive(Debug, Clone, PartialEq, Eq)]
pub struct CompetenceInputs {
    pub map_confidence: Option<MapConfidenceRef>,
    pub agent_self_model: Option<AgentSelfModelRef>,
    pub capability_evidence: Vec<CapabilityEvidenceRef>,
    pub trust_profile: Option<TrustProfileRef>,
    pub failure_evidence: Vec<FailureEvidenceRef>,
    pub verification_evidence: Vec<EvidenceRef>,
}

#[derive(Debug, Clone, PartialEq, Eq)]
pub struct DecisionRefs {
    pub map: Option<JudgmentFrameRef>,
    pub user: Option<UserAttributeRef>,
    pub agent_self: Option<AgentSelfModelRef>,
    pub trust: Option<TrustProfileRef>,
    pub failure: Vec<FailureEvidenceRef>,
}

#[derive(Debug, Clone, Copy, PartialEq, Eq, Hash, Structural)]
pub enum Modality {
    Text,
    Voice,
    Image,
    Video,
}

#[derive(Debug, Clone, Copy, PartialEq, Eq, Hash, Structural)]
pub enum DisclosureOutcome {
    Answer,
    Blur,
    Approve,
    Refuse,
}

#[derive(Debug, Clone, Copy, PartialEq, Eq, Hash, Structural)]
pub enum Representation {
    Agent,
    AgentRepresentingOwner,
}

#[derive(Debug, Clone, PartialEq, Eq)]
pub struct DisclosureBinding {
    pub schema_version: SchemaVersion,
    pub session: CommunicationSessionId,
    pub participant: ParticipantId,
    pub purpose: PurposeRef,
    pub content_ref: ContentRef,
    pub category: String,
    pub sensitive: bool,
    pub confirmed: bool,
    pub high_impact: bool,
}

#[derive(Debug, Clone, Copy, PartialEq, Eq, Hash, Structural)]
pub enum ConfigCheck {
    Provider,
    Credential,
    Capability,
    Context,
    Mcp,
    Plugin,
    FileSystem,
    Shell,
    Scheduler,
    Notification,
    Browser,
    Computer,
    Pty,
    Connector,
    Sync,
    Evolution,
    ReleaseAudit,
    Federation,
    Ecosystem,
}

#[derive(Debug, Clone, Copy, PartialEq, Eq, Hash, Structural)]
pub enum ComplianceScope {
    Upstream,
    License,
    Copy,
    Dependency,
    Notice,
    ReleaseTree,
    Secret,
}

#[derive(Debug, Clone, Copy, PartialEq, Eq, Hash, Structural)]
pub enum ComplianceOutcome {
    Pass,
    Fail,
}

/// A protocol error: the reason an object was refused.
#[derive(Debug, Clone, PartialEq, Eq)]
pub struct Error(pub String);

impl Error {
    /// The error's message, as its display form gives it.
    pub fn message(&self) -> (r: String)
        ensures
            r@ == self.0@,
    {
        self.0.clone()
    }
}

#[derive(Debug, Clone, Copy, PartialEq, Eq, Structural)]
pub struct CoordinateBounds {
    pub schema_version: SchemaVersion,
    pub min_x: i32,
    pub min_y: i32,
    pub max_x_exclusive: i32,
    pub max_y_exclusive: i32,
}

impl CoordinateBounds {
    pub open spec fn holds(self, x: i32, y: i32) -> bool {
        self.min_x <= x < self.max_x_exclusive && self.min_y <= y < self.max_y_exclusive
    }

    pub open spec fn valid(self) -> bool {
        self.schema_version.0 != 0 && self.min_x < self.max_x_exclusive && self.min_y
            < self.max_y_exclusive
    }

    pub fn contains(self, x: i32, y: i32) -> (r: bool)
        ensures
            r == self.holds(x, y),
    {
        x >= self.min_x && x < self.max_x_exclusive && y >= self.min_y && y < self.max_y_exclusive
    }

    pub fn validate(self) -> (r: Result<(), Error>)
        ensures
            r is Ok <==> self.valid(),
    {
        if self.schema_version.0 == 0 || self.min_x >= self.max_x_exclusive || self.min_y
            >= self.max_y_exclusive {
            return Err(Error("computer coordinate bounds are invalid".to_string()));
        }
        Ok(())
    }
}

#[derive(Debug, Clone, Copy, PartialEq, Eq, Structural)]
pub enum PointerButton {
    Primary,
    Secondary,
    Middle,
}

#[derive(Debug, Clone, Copy, PartialEq, Eq, Structural)]
pub enum KeyCode {
    Enter,
    Escape,
    Tab,
    Backspace,
    Delete,
    ArrowUp,
    ArrowDown,
    ArrowLeft,
    ArrowRight,
}

#[derive(Debug, Clone, Copy, PartialEq, Eq, Hash, Structural)]
pub enum AppApiMutationMethod {
    Post,
    Put,
    Patch,
    Delete,
}

#[derive(Debug, Clone, Copy, PartialEq, Eq, Structural)]
pub enum EffectStatus {
    Observed,
    Committed,
    Unknown,
}

#[derive(Debug, Clone, PartialEq, Eq)]
pub struct ExternalActionReceipt {
    pub schema_version: SchemaVersion,
    pub action: ActionId,
    pub content_ref: Option<ContentRef>,
    pub content_digest: Option<SchemaDigest>,
    pub trust: TrustTier,
    pub effect: EffectStatus,
    pub probe_hint: Option<ProbeHintRef>,
}

#[derive(Debug, Clone, PartialEq, Eq)]
pub struct CandidateUpdate {
    pub schema_version: SchemaVersion,
}

#[derive(Debug, Clone, PartialEq, Eq)]
pub struct CapabilitySet {
    pub schema_version: SchemaVersion,
    pub capabilities: Vec<CapabilityRef>,
    pub permissions: Vec<PermissionRef>,
}

#[derive(Debug, Clone, PartialEq, Eq)]
pub struct Timebox {
    pub schema_version: SchemaVersion,
    pub starts_at: Timestamp,
    pub expires_at: Timestamp,
    pub max_turns: u32,
}

#[derive(Debug, Clone, PartialEq, Eq)]
pub struct RollbackReq {
    pub schema_version: SchemaVersion,
    pub required: bool,
    pub boundary: Option<RollbackBoundary>,
}

#[derive(Debug, Clone, PartialEq, Eq)]
pub struct CapabilityEvidence {
    pub schema_version: SchemaVersion,
    pub capability: CapabilityRef,
    pub outcome: CapabilityOutcome,
    pub reliability: Reliability,
}

#[derive(Debug, Clone, PartialEq, Eq)]
pub struct AutonomyEnvelope {
    pub schema_version: SchemaVersion,
    pub scope: Scope,
    pub capability: CapabilitySet,
    pub action_type: Vec<ActionType>,
    pub risk_limit: Risk,
    pub approval_rule: ApprovalRule,
    pub budget: Budget,
    pub timebox: Timebox,
    pub rollback: RollbackReq,
}

impl CapabilitySet {
    pub open spec fn matches(&self, other: &CapabilitySet) -> bool {
        &&& self.schema_version == other.schema_version
        &&& self.capabilities@ == other.capabilities@
        &&& self.permissions@ == other.permissions@
    }

    pub fn duplicate(&self) -> (r: Self)
        ensures
            r.matches(self),
    {
        CapabilitySet {
            schema_version: self.schema_version,
            capabilities: duplicate_all(&self.capabilities),
            permissions: duplicate_all(&self.permissions),
        }
    }
}

impl Duplicate for Timebox {
    fn duplicate(&self) -> (r: Self) {
        Timebox {
            schema_version: self.schema_version,
            starts_at: self.starts_at,
            expires_at: self.expires_at,
            max_turns: self.max_turns,
        }
    }
}

impl Duplicate for RollbackReq {
    fn duplicate(&self) -> (r: Self) {
        RollbackReq {
            schema_version: self.schema_version,
            required: self.required,
            boundary: match &self.boundary {
                Some(b) => Some(b.duplicate()),
                None => None,
            },
        }
    }
}

impl Duplicate for ActionType {
    fn duplicate(&self) -> (r: Self) {
        *self
    }
}

impl AutonomyEnvelope {
    /// Field-by-field equality, the lists compared by their contents.
    pub open spec fn matches(&self, other: &AutonomyEnvelope) -> bool {
        &&& self.schema_version == other.schema_version
        &&& self.scope == other.scope
        &&& self.capability.matches(&other.capability)
        &&& self.action_type@ == other.action_type@
        &&& self.risk_limit == other.risk_limit
        &&& self.approval_rule == other.approval_rule
        &&& self.budget == other.budget
        &&& self.timebox == other.timebox
        &&& self.rollback == other.rollback
    }

    pub fn duplicate(&self) -> (r: Self)
        ensures
            r.matches(self),
    {
        AutonomyEnvelope {
            schema_version: self.schema_version,
            scope: self.scope.duplicate(),
            capability: self.capability.duplicate(),
            action_type: duplicate_all(&self.action_type),
            risk_limit: self.risk_limit,
            approval_rule: self.approval_rule,
            budget: self.budget.duplicate(),
            timebox: self.timebox.duplicate(),
            rollback: self.rollback.duplicate(),
        }
    }
}

impl Named for Source {
    open spec fn wire_name(&self) -> Seq<char> {
        match self {
            Source::UserTurn => "UserTurn"@,
            Source::ProactiveJob => "ProactiveJob"@,
            Source::Schedule => "Schedule"@,
            Source::Subagent => "Subagent"@,
            Source::Communication => "Communication"@,
            Source::Internal => "Internal"@,
            Source::Replay => "Replay"@,
            Source::Simulation => "Simulation"@,
            Source::OwnerControl => "OwnerControl"@,
        }
    }

    fn wire_str(&self) -> (r: &'static str) {
        match self {
            Source::UserTurn => "UserTurn",
            Source::ProactiveJob => "ProactiveJob",
            Source::Schedule => "Schedule",
            Source::Subagent => "Subagent",
            Source::Communication => "Communication",
            Source::Internal => "Internal",
            Source::Replay => "Replay",
            Source::Simulation => "Simulation",
            Source::OwnerControl => "OwnerControl",
        }
    }
}

impl Named for TrustTier {
    open spec fn wire_name(&self) -> Seq<char> {
        match self {
            TrustTier::Untrusted => "Untrusted"@,
            TrustTier::ApprovedSource => "ApprovedSource"@,
            TrustTier::VerifiedProcess => "VerifiedProcess"@,
            TrustTier::OwnerInput => "OwnerInput"@,
        }
    }

    fn wire_str(&self) -> (r: &'static str) {
        match self {
            TrustTier::Untrusted => "Untrusted",
            TrustTier::ApprovedSource => "ApprovedSource",
            TrustTier::VerifiedProcess => "VerifiedProcess",
            TrustTier::OwnerInput => "OwnerInput",
        }
    }
}

impl Named for Risk {
    open spec fn wire_name(&self) -> Seq<char> {
        match self {
            Risk::Low => "Low"@,
            Risk::Medium => "Medium"@,
            Risk::High => "High"@,
        }
    }

    fn wire_str(&self) -> (r: &'static str) {
        match self {
            Risk::Low => "Low",
            Risk::Medium => "Medium",
            Risk::High => "High",
        }
    }
}

impl Named for McpTransport {
    open spec fn wire_name(&self) -> Seq<char> {
        match self {
            McpTransport::Stdio => "Stdio"@,
        }
    }

    fn wire_str(&self) -> (r: &'static str) {
        match self {
            McpTransport::Stdio => "Stdio",
        }
    }
}

impl Named for FileOperation {
    open spec fn wire_name(&self) -> Seq<char> {
        match self {
            FileOperation::Read => "Read"@,
            FileOperation::Write => "Write"@,
            FileOperation::Delete => "Delete"@,
        }
    }

    fn wire_str(&self) -> (r: &'static str) {
        match self {
            FileOperation::Read => "Read",
            FileOperation::Write => "Write",
            FileOperation::Delete => "Delete",
        }
    }
}

impl Named for ExpectedEffect {
    open spec fn wire_name(&self) -> Seq<char> {
        match self {
            ExpectedEffect::Internal => "Internal"@,
            ExpectedEffect::Outward => "Outward"@,
        }
    }

    fn wire_str(&self) -> (r: &'static str) {
        match self {
            ExpectedEffect::Internal => "Internal",
            ExpectedEffect::Outward => "Outward",
        }
    }
}

impl Named for Representation {
    open spec fn wire_name(&self) -> Seq<char> {
        match self {
            Representation::Agent => "Agent"@,
            Representation::AgentRepresentingOwner => "AgentRepresentingOwner"@,
        }
    }

    fn wire_str(&self) -> (r: &'static str) {
        match self {
            Representation::Agent => "Agent",
            Representation::AgentRepresentingOwner => "AgentRepresentingOwner",
        }
    }
}

impl Named for PointerButton {
    open spec fn wire_name(&self) -> Seq<char> {
        match self {
            PointerButton::Primary => "Primary"@,
            PointerButton::Secondary => "Secondary"@,
            PointerButton::Middle => "Middle"@,
        }
    }

    fn wire_str(&self) -> (r: &'static str) {
        match self {
            PointerButton::Primary => "Primary",
            PointerButton::Secondary => "Secondary",
            PointerButton::Middle => "Middle",
        }
    }
}

impl Named for KeyCode {
    open spec fn wire_name(&self) -> Seq<char> {
        match self {
            KeyCode::Enter => "Enter"@,
            KeyCode::Escape => "Escape"@,
            KeyCode::Tab => "Tab"@,
            KeyCode::Backspace => "Backspace"@,
            KeyCode::Delete => "Delete"@,
            KeyCode::ArrowUp => "ArrowUp"@,
            KeyCode::ArrowDown => "ArrowDown"@,
            KeyCode::ArrowLeft => "ArrowLeft"@,
            KeyCode::ArrowRight => "ArrowRight"@,
        }
    }

    fn wire_str(&self) -> (r: &'static str) {
        match self {
            KeyCode::Enter => "Enter",
            KeyCode::Escape => "Escape",
            KeyCode::Tab => "Tab",
            KeyCode::Backspace => "Backspace",
            KeyCode::Delete => "Delete",
            KeyCode::ArrowUp => "ArrowUp",
            KeyCode::ArrowDown => "ArrowDown",
            KeyCode::ArrowLeft => "ArrowLeft",
            KeyCode::ArrowRight => "ArrowRight",
        }
    }
}

impl Named for AppApiMutationMethod {
    open spec fn wire_name(&self) -> Seq<char> {
        match self {
            AppApiMutationMethod::Post => "Post"@,
            AppApiMutationMethod::Put => "Put"@,
            AppApiMutationMethod::Patch => "Patch"@,
            AppApiMutationMethod::Delete => "Delete"@,
        }
    }

    fn wire_str(&self) -> (r: &'static str) {
        match self {
            AppApiMutationMethod::Post => "Post",
            AppApiMutationMethod::Put => "Put",
            AppApiMutationMethod::Patch => "Patch",
            AppApiMutationMethod::Delete => "Delete",
        }
    }
}

impl Named for BackendKind {
    open spec fn wire_name(&self) -> Seq<char> {
        match self {
            BackendKind::Shell => "Shell"@,
            BackendKind::File => "File"@,
            BackendKind::Mcp => "Mcp"@,
            BackendKind::Notification => "Notification"@,
            BackendKind::Browser => "Browser"@,
            BackendKind::Computer => "Computer"@,
            BackendKind::Pty => "Pty"@,
            BackendKind::AppApi => "AppApi"@,
            BackendKind::Remote => "Remote"@,
        }
    }

    fn wire_str(&self) -> (r: &'static str) {
        match self {
            BackendKind::Shell => "Shell",
            BackendKind::File => "File",
            BackendKind::Mcp => "Mcp",
            BackendKind::Notification => "Notification",
            BackendKind::Browser => "Browser",
            BackendKind::Computer => "Computer",
            BackendKind::Pty => "Pty",
            BackendKind::AppApi => "AppApi",
            BackendKind::Remote => "Remote",
        }
    }
}

impl Named for ActionType {
    open spec fn wire_name(&self) -> Seq<char> {
        match self {
            ActionType::Observe => "Observe"@,
            ActionType::Analyze => "Analyze"@,
            ActionType::Prepare => "Prepare"@,
            ActionType::Write => "Write"@,
            ActionType::Execute => "Execute"@,
            ActionType::Deliver => "Deliver"@,
            ActionType::ExternalCommit => "ExternalCommit"@,
        }
    }

    fn wire_str(&self) -> (r: &'static str) {
        match self {
            ActionType::Observe => "Observe",
            ActionType::Analyze => "Analyze",
            ActionType::Prepare => "Prepare",
            ActionType::Write => "Write",
            ActionType::Execute => "Execute",
            ActionType::Deliver => "Deliver",
            ActionType::ExternalCommit => "ExternalCommit",
        }
    }
}

impl Named for PolicyDecision {
    open spec fn wire_name(&self) -> Seq<char> {
        match self {
            PolicyDecision::Allow => "Allow"@,
            PolicyDecision::Ask => "Ask"@,
            PolicyDecision::Deny => "Deny"@,
        }
    }

    fn wire_str(&self) -> (r: &'static str) {
        match self {
            PolicyDecision::Allow => "Allow",
            PolicyDecision::Ask => "Ask",
            PolicyDecision::Deny => "Deny",
        }
    }
}

impl Actor {
    /// `"Owner"`, `"Agent"`, `"System"`, or `{"Subagent":...}` / `{"External":...}`.
    pub open spec fn put_canonical(&self, acc: Seq<u8>) -> Seq<u8> {
        match self {
            Actor::Owner => acc + json_string("Owner"@),
            Actor::Agent => acc + json_string("Agent"@),
            Actor::System => acc + json_string("System"@),
            Actor::Subagent(run) => with_key(acc + seq![0x7bu8], "Subagent"@) + json_string(
                run.0@,
            ) + seq![0x7du8],
            Actor::External(p) => with_key(acc + seq![0x7bu8], "External"@) + json_string(p.0@)
                + seq![0x7du8],
        }
    }

    pub fn write_canonical(&self, buf: &mut Vec<u8>)
        ensures
            final(buf)@ == self.put_canonical(old(buf)@),
    {
        match self {
            Actor::Owner => put_str(buf, "Owner"),
            Actor::Agent => put_str(buf, "Agent"),
            Actor::System => put_str(buf, "System"),
            Actor::Subagent(run) => {
                put_mark(buf, 0x7b);
                put_key(buf, "Subagent");
                put_str(buf, run.0.as_str());
                put_mark(buf, 0x7d);
            },
            Actor::External(p) => {
                put_mark(buf, 0x7b);
                put_key(buf, "External");
                put_str(buf, p.0.as_str());
                put_mark(buf, 0x7d);
            },
        }
    }
}

impl Provenance {
    pub open spec fn put_canonical(&self, acc: Seq<u8>) -> Seq<u8> {
        let a = with_key(acc + seq![0x7bu8], "source"@) + json_string(self.source.wire_name());
        let a = self.actor.put_canonical(with_key(a + seq![0x2cu8], "actor"@));
        let a = with_key(a + seq![0x2cu8], "trust_tier"@) + json_string(
            self.trust_tier.wire_name(),
        );
        let a = with_key(a + seq![0x2cu8], "caused_by"@) + json_opt_text(
            match self.caused_by {
                Some(e) => Some(e.0@),
                None => None,
            },
        );
        a + seq![0x7du8]
    }

    pub fn write_canonical(&self, buf: &mut Vec<u8>)
        ensures
            final(buf)@ == self.put_canonical(old(buf)@),
    {
        put_mark(buf, 0x7b);
        put_key(buf, "source");
        put_str(buf, self.source.wire_str());
        put_mark(buf, 0x2c);
        put_key(buf, "actor");
        self.actor.write_canonical(buf);
        put_mark(buf, 0x2c);
        put_key(buf, "trust_tier");
        put_str(buf, self.trust_tier.wire_str());
        put_mark(buf, 0x2c);
        put_key(buf, "caused_by");
        put_opt_text(
            buf,
            match &self.caused_by {
                Some(e) => Some(&e.0),
                None => None,
            },
        );
        put_mark(buf, 0x7d);
    }
}

impl VerificationOutcome {
    /// `"Pass"`, `"Fail"` or `{"Unverifiable":...}`.
    pub open spec fn put_canonical(&self, acc: Seq<u8>) -> Seq<u8> {
        match self {
            VerificationOutcome::Pass => acc + json_string("Pass"@),
            VerificationOutcome::Fail => acc + json_string("Fail"@),
            VerificationOutcome::Unverifiable(reason) => with_key(
                acc + seq![0x7bu8],
                "Unverifiable"@,
            ) + json_string(reason.0@) + seq![0x7du8],
        }
    }

    pub fn write_canonical(&self, buf: &mut Vec<u8>)
        ensures
            final(buf)@ == self.put_canonical(old(buf)@),
    {
        match self {
            VerificationOutcome::Pass => put_str(buf, "Pass"),
            VerificationOutcome::Fail => put_str(buf, "Fail"),
            VerificationOutcome::Unverifiable(reason) => {
                put_mark(buf, 0x7b);
                put_key(buf, "Unverifiable");
                put_str(buf, reason.0.as_str());
                put_mark(buf, 0x7d);
            },
        }
    }
}


} // verus!
