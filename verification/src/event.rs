//! The frozen event taxonomy and the event envelope.
use vstd::prelude::*;

use crate::text::str_equal;
use crate::canon::{json_string, put_key, put_mark, put_str, with_key, Named};
use crate::primitives::{
    Error, EventId, PolicyDecision, Provenance, ReasonRef, RuleSourceRef, RunId, SchemaVersion, TurnId,
};

verus! {

#[derive(Debug, Clone, Copy, PartialEq, Eq, Hash, Structural)]
pub enum EventKind {
    RunAccepted,
    SessionBound,
    RunComplete,
    RunAborted,
    RunFailed,
    RunLimited,
    RunWaiting,
    RunResumed,
    TurnStarted,
    TurnComplete,
    ContextBuildStarted,
    ContextBuildFinished,
    CompactionStarted,
    CompactionFinished,
    ModelCallStarted,
    ModelCallDelta,
    ModelCallFinished,
    OutputClassified,
    ToolCallProposed,
    ToolPolicyEvaluated,
    ApprovalRequested,
    ApprovalResolved,
    HandoffRequested,
    HandoffResolved,
    ActionPlanned,
    ActionStarted,
    ActionOutputDelta,
    ActionCompleted,
    ActionFailed,
    ActionDenied,
    ActionCancelled,
    ActionOutcomeUnknown,
    VerificationStarted,
    VerificationFinished,
    FailureEvidenceRecorded,
    FailureDigestUpdated,
    CandidateCreated,
    CandidateConflictDetected,
    CandidatePromoted,
    CandidateRejected,
    CandidateDowngraded,
    CandidateDecayed,
    RetractionEvent,
    RevocationEvent,
    ReevaluationTaskCreated,
    ObservationRecorded,
    OpportunityDetected,
    ValueGateEvaluated,
    CompetenceGateEvaluated,
    ImpulseRaised,
    ReflectionProduced,
    ProactiveProposalEmitted,
    ProactiveProposalResolved,
    ProspectiveIntentionCreated,
    ProspectiveIntentionResolved,
    GoalFramed,
    ResourcePlanned,
    DoneContractSet,
    AutonomyEnvelopeSet,
    DecisionTraceRecorded,
    OrchestrationRouteCreated,
    SubagentSpawned,
    SubagentResultReturned,
    CapabilityIndexed,
    ToolsetResolved,
    McpDiscovered,
    McpCallEvent,
    SkillMetadataExposed,
    SkillBodyLoaded,
    PluginContributionRegistered,
    PluginToggled,
    CapabilityEvidenceRecorded,
    CommunicationEventReceived,
    CommunicationSessionOpened,
    CommunicationSessionTerminated,
    ExternalCommunicationGranted,
    DisclosurePolicyApplied,
    CommunicationProposalEmitted,
    MemoryNodeAppended,
    MemoryEdgeAppended,
    MemoryMaintenanceApplied,
    UserAttributeCandidateCreated,
    ImportedHistoricalEvidenceRecorded,
    CognitiveMapUpdateProposed,
    ConfigDoctorReport,
    ComplianceCheckResult,
    EvolutionEvaluationRecorded,
    StrategyActivated,
    StrategyRolledBack,
    FederatedPeerRegistered,
    FederatedPeerRevoked,
    RemoteExecutionLeaseChanged,
    ReplicationCheckpointAdvanced,
    CapabilityPublisherChanged,
    CapabilityPackageAdmitted,
    CapabilityPackageStateChanged,
    CapabilityPackageDistributionRecorded,
    WorkspaceCharterChanged,
    DataLifecycleApplied,
}

impl Named for EventKind {
    open spec fn wire_name(&self) -> Seq<char> {
        match self {
            EventKind::RunAccepted => "RunAccepted"@,
            EventKind::SessionBound => "SessionBound"@,
            EventKind::RunComplete => "RunComplete"@,
            EventKind::RunAborted => "RunAborted"@,
            EventKind::RunFailed => "RunFailed"@,
            EventKind::RunLimited => "RunLimited"@,
            EventKind::RunWaiting => "RunWaiting"@,
            EventKind::RunResumed => "RunResumed"@,
            EventKind::TurnStarted => "TurnStarted"@,
            EventKind::TurnComplete => "TurnComplete"@,
            EventKind::ContextBuildStarted => "ContextBuildStarted"@,
            EventKind::ContextBuildFinished => "ContextBuildFinished"@,
            EventKind::CompactionStarted => "CompactionStarted"@,
            EventKind::CompactionFinished => "CompactionFinished"@,
            EventKind::ModelCallStarted => "ModelCallStarted"@,
            EventKind::ModelCallDelta => "ModelCallDelta"@,
            EventKind::ModelCallFinished => "ModelCallFinished"@,
            EventKind::OutputClassified => "OutputClassified"@,
            EventKind::ToolCallProposed => "ToolCallProposed"@,
            EventKind::ToolPolicyEvaluated => "ToolPolicyEvaluated"@,
            EventKind::ApprovalRequested => "ApprovalRequested"@,
            EventKind::ApprovalResolved => "ApprovalResolved"@,
            EventKind::HandoffRequested => "HandoffRequested"@,
            EventKind::HandoffResolved => "HandoffResolved"@,
            EventKind::ActionPlanned => "ActionPlanned"@,
            EventKind::ActionStarted => "ActionStarted"@,
            EventKind::ActionOutputDelta => "ActionOutputDelta"@,
            EventKind::ActionCompleted => "ActionCompleted"@,
            EventKind::ActionFailed => "ActionFailed"@,
            EventKind::ActionDenied => "ActionDenied"@,
            EventKind::ActionCancelled => "ActionCancelled"@,
            EventKind::ActionOutcomeUnknown => "ActionOutcomeUnknown"@,
            EventKind::VerificationStarted => "VerificationStarted"@,
            EventKind::VerificationFinished => "VerificationFinished"@,
            EventKind::FailureEvidenceRecorded => "FailureEvidenceRecorded"@,
            EventKind::FailureDigestUpdated => "FailureDigestUpdated"@,
            EventKind::CandidateCreated => "CandidateCreated"@,
            EventKind::CandidateConflictDetected => "CandidateConflictDetected"@,
            EventKind::CandidatePromoted => "CandidatePromoted"@,
            EventKind::CandidateRejected => "CandidateRejected"@,
            EventKind::CandidateDowngraded => "CandidateDowngraded"@,
            EventKind::CandidateDecayed => "CandidateDecayed"@,
            EventKind::RetractionEvent => "RetractionEvent"@,
            EventKind::RevocationEvent => "RevocationEvent"@,
            EventKind::ReevaluationTaskCreated => "ReevaluationTaskCreated"@,
            EventKind::ObservationRecorded => "ObservationRecorded"@,
            EventKind::OpportunityDetected => "OpportunityDetected"@,
            EventKind::ValueGateEvaluated => "ValueGateEvaluated"@,
            EventKind::CompetenceGateEvaluated => "CompetenceGateEvaluated"@,
            EventKind::ImpulseRaised => "ImpulseRaised"@,
            EventKind::ReflectionProduced => "ReflectionProduced"@,
            EventKind::ProactiveProposalEmitted => "ProactiveProposalEmitted"@,
            EventKind::ProactiveProposalResolved => "ProactiveProposalResolved"@,
            EventKind::ProspectiveIntentionCreated => "ProspectiveIntentionCreated"@,
            EventKind::ProspectiveIntentionResolved => "ProspectiveIntentionResolved"@,
            EventKind::GoalFramed => "GoalFramed"@,
            EventKind::ResourcePlanned => "ResourcePlanned"@,
            EventKind::DoneContractSet => "DoneContractSet"@,
            EventKind::AutonomyEnvelopeSet => "AutonomyEnvelopeSet"@,
            EventKind::DecisionTraceRecorded => "DecisionTraceRecorded"@,
            EventKind::OrchestrationRouteCreated => "OrchestrationRouteCreated"@,
            EventKind::SubagentSpawned => "SubagentSpawned"@,
            EventKind::SubagentResultReturned => "SubagentResultReturned"@,
            EventKind::CapabilityIndexed => "CapabilityIndexed"@,
            EventKind::ToolsetResolved => "ToolsetResolved"@,
            EventKind::McpDiscovered => "McpDiscovered"@,
            EventKind::McpCallEvent => "McpCallEvent"@,
            EventKind::SkillMetadataExposed => "SkillMetadataExposed"@,
            EventKind::SkillBodyLoaded => "SkillBodyLoaded"@,
            EventKind::PluginContributionRegistered => "PluginContributionRegistered"@,
            EventKind::PluginToggled => "PluginToggled"@,
            EventKind::CapabilityEvidenceRecorded => "CapabilityEvidenceRecorded"@,
            EventKind::CommunicationEventReceived => "CommunicationEventReceived"@,
            EventKind::CommunicationSessionOpened => "CommunicationSessionOpened"@,
            EventKind::CommunicationSessionTerminated => "CommunicationSessionTerminated"@,
            EventKind::ExternalCommunicationGranted => "ExternalCommunicationGranted"@,
            EventKind::DisclosurePolicyApplied => "DisclosurePolicyApplied"@,
            EventKind::CommunicationProposalEmitted => "CommunicationProposalEmitted"@,
            EventKind::MemoryNodeAppended => "MemoryNodeAppended"@,
            EventKind::MemoryEdgeAppended => "MemoryEdgeAppended"@,
            EventKind::MemoryMaintenanceApplied => "MemoryMaintenanceApplied"@,
            EventKind::UserAttributeCandidateCreated => "UserAttributeCandidateCreated"@,
            EventKind::ImportedHistoricalEvidenceRecorded => "ImportedHistoricalEvidenceRecorded"@,
            EventKind::CognitiveMapUpdateProposed => "CognitiveMapUpdateProposed"@,
            EventKind::ConfigDoctorReport => "ConfigDoctorReport"@,
            EventKind::ComplianceCheckResult => "ComplianceCheckResult"@,
            EventKind::EvolutionEvaluationRecorded => "EvolutionEvaluationRecorded"@,
            EventKind::StrategyActivated => "StrategyActivated"@,
            EventKind::StrategyRolledBack => "StrategyRolledBack"@,
            EventKind::FederatedPeerRegistered => "FederatedPeerRegistered"@,
            EventKind::FederatedPeerRevoked => "FederatedPeerRevoked"@,
            EventKind::RemoteExecutionLeaseChanged => "RemoteExecutionLeaseChanged"@,
            EventKind::ReplicationCheckpointAdvanced => "ReplicationCheckpointAdvanced"@,
            EventKind::CapabilityPublisherChanged => "CapabilityPublisherChanged"@,
            EventKind::CapabilityPackageAdmitted => "CapabilityPackageAdmitted"@,
            EventKind::CapabilityPackageStateChanged => "CapabilityPackageStateChanged"@,
            EventKind::CapabilityPackageDistributionRecorded => "CapabilityPackageDistributionRecorded"@,
            EventKind::WorkspaceCharterChanged => "WorkspaceCharterChanged"@,
            EventKind::DataLifecycleApplied => "DataLifecycleApplied"@,
        }
    }

    fn wire_str(&self) -> (r: &'static str) {
        match self {
            EventKind::RunAccepted => "RunAccepted",
            EventKind::SessionBound => "SessionBound",
            EventKind::RunComplete => "RunComplete",
            EventKind::RunAborted => "RunAborted",
            EventKind::RunFailed => "RunFailed",
            EventKind::RunLimited => "RunLimited",
            EventKind::RunWaiting => "RunWaiting",
            EventKind::RunResumed => "RunResumed",
            EventKind::TurnStarted => "TurnStarted",
            EventKind::TurnComplete => "TurnComplete",
            EventKind::ContextBuildStarted => "ContextBuildStarted",
            EventKind::ContextBuildFinished => "ContextBuildFinished",
            EventKind::CompactionStarted => "CompactionStarted",
            EventKind::CompactionFinished => "CompactionFinished",
            EventKind::ModelCallStarted => "ModelCallStarted",
            EventKind::ModelCallDelta => "ModelCallDelta",
            EventKind::ModelCallFinished => "ModelCallFinished",
            EventKind::OutputClassified => "OutputClassified",
            EventKind::ToolCallProposed => "ToolCallProposed",
            EventKind::ToolPolicyEvaluated => "ToolPolicyEvaluated",
            EventKind::ApprovalRequested => "ApprovalRequested",
            EventKind::ApprovalResolved => "ApprovalResolved",
            EventKind::HandoffRequested => "HandoffRequested",
            EventKind::HandoffResolved => "HandoffResolved",
            EventKind::ActionPlanned => "ActionPlanned",
            EventKind::ActionStarted => "ActionStarted",
            EventKind::ActionOutputDelta => "ActionOutputDelta",
            EventKind::ActionCompleted => "ActionCompleted",
            EventKind::ActionFailed => "ActionFailed",
            EventKind::ActionDenied => "ActionDenied",
            EventKind::ActionCancelled => "ActionCancelled",
            EventKind::ActionOutcomeUnknown => "ActionOutcomeUnknown",
            EventKind::VerificationStarted => "VerificationStarted",
            EventKind::VerificationFinished => "VerificationFinished",
            EventKind::FailureEvidenceRecorded => "FailureEvidenceRecorded",
            EventKind::FailureDigestUpdated => "FailureDigestUpdated",
            EventKind::CandidateCreated => "CandidateCreated",
            EventKind::CandidateConflictDetected => "CandidateConflictDetected",
            EventKind::CandidatePromoted => "CandidatePromoted",
            EventKind::CandidateRejected => "CandidateRejected",
            EventKind::CandidateDowngraded => "CandidateDowngraded",
            EventKind::CandidateDecayed => "CandidateDecayed",
            EventKind::RetractionEvent => "RetractionEvent",
            EventKind::RevocationEvent => "RevocationEvent",
            EventKind::ReevaluationTaskCreated => "ReevaluationTaskCreated",
            EventKind::ObservationRecorded => "ObservationRecorded",
            EventKind::OpportunityDetected => "OpportunityDetected",
            EventKind::ValueGateEvaluated => "ValueGateEvaluated",
            EventKind::CompetenceGateEvaluated => "CompetenceGateEvaluated",
            EventKind::ImpulseRaised => "ImpulseRaised",
            EventKind::ReflectionProduced => "ReflectionProduced",
            EventKind::ProactiveProposalEmitted => "ProactiveProposalEmitted",
            EventKind::ProactiveProposalResolved => "ProactiveProposalResolved",
            EventKind::ProspectiveIntentionCreated => "ProspectiveIntentionCreated",
            EventKind::ProspectiveIntentionResolved => "ProspectiveIntentionResolved",
            EventKind::GoalFramed => "GoalFramed",
            EventKind::ResourcePlanned => "ResourcePlanned",
            EventKind::DoneContractSet => "DoneContractSet",
            EventKind::AutonomyEnvelopeSet => "AutonomyEnvelopeSet",
            EventKind::DecisionTraceRecorded => "DecisionTraceRecorded",
            EventKind::OrchestrationRouteCreated => "OrchestrationRouteCreated",
            EventKind::SubagentSpawned => "SubagentSpawned",
            EventKind::SubagentResultReturned => "SubagentResultReturned",
            EventKind::CapabilityIndexed => "CapabilityIndexed",
            EventKind::ToolsetResolved => "ToolsetResolved",
            EventKind::McpDiscovered => "McpDiscovered",
            EventKind::McpCallEvent => "McpCallEvent",
            EventKind::SkillMetadataExposed => "SkillMetadataExposed",
            EventKind::SkillBodyLoaded => "SkillBodyLoaded",
            EventKind::PluginContributionRegistered => "PluginContributionRegistered",
            EventKind::PluginToggled => "PluginToggled",
            EventKind::CapabilityEvidenceRecorded => "CapabilityEvidenceRecorded",
            EventKind::CommunicationEventReceived => "CommunicationEventReceived",
            EventKind::CommunicationSessionOpened => "CommunicationSessionOpened",
            EventKind::CommunicationSessionTerminated => "CommunicationSessionTerminated",
            EventKind::ExternalCommunicationGranted => "ExternalCommunicationGranted",
            EventKind::DisclosurePolicyApplied => "DisclosurePolicyApplied",
            EventKind::CommunicationProposalEmitted => "CommunicationProposalEmitted",
            EventKind::MemoryNodeAppended => "MemoryNodeAppended",
            EventKind::MemoryEdgeAppended => "MemoryEdgeAppended",
            EventKind::MemoryMaintenanceApplied => "MemoryMaintenanceApplied",
            EventKind::UserAttributeCandidateCreated => "UserAttributeCandidateCreated",
            EventKind::ImportedHistoricalEvidenceRecorded => "ImportedHistoricalEvidenceRecorded",
            EventKind::CognitiveMapUpdateProposed => "CognitiveMapUpdateProposed",
            EventKind::ConfigDoctorReport => "ConfigDoctorReport",
            EventKind::ComplianceCheckResult => "ComplianceCheckResult",
            EventKind::EvolutionEvaluationRecorded => "EvolutionEvaluationRecorded",
            EventKind::StrategyActivated => "StrategyActivated",
            EventKind::StrategyRolledBack => "StrategyRolledBack",
            EventKind::FederatedPeerRegistered => "FederatedPeerRegistered",
            EventKind::FederatedPeerRevoked => "FederatedPeerRevoked",
            EventKind::RemoteExecutionLeaseChanged => "RemoteExecutionLeaseChanged",
            EventKind::ReplicationCheckpointAdvanced => "ReplicationCheckpointAdvanced",
            EventKind::CapabilityPublisherChanged => "CapabilityPublisherChanged",
            EventKind::CapabilityPackageAdmitted => "CapabilityPackageAdmitted",
            EventKind::CapabilityPackageStateChanged => "CapabilityPackageStateChanged",
            EventKind::CapabilityPackageDistributionRecorded => "CapabilityPackageDistributionRecorded",
            EventKind::WorkspaceCharterChanged => "WorkspaceCharterChanged",
            EventKind::DataLifecycleApplied => "DataLifecycleApplied",
        }
    }
}

impl EventKind {
    /// The kind's wire name, which is the variant's own name.
    pub fn as_str(self) -> (r: &'static str)
        ensures
            r@ == self.wire_name(),
    {
        self.wire_str()
    }
}

/// An event's payload: the kind it belongs to and the canonical JSON body of
/// the kind's payload object.
#[derive(Debug, Clone, PartialEq, Eq)]
pub struct EventPayload {
    pub kind: EventKind,
    pub body: Vec<u8>,
}

impl EventPayload {
    pub fn kind(&self) -> (r: EventKind)
        ensures
            r == self.kind,
    {
        self.kind
    }

    /// The tagged form `{"<Kind>":<body>}`.
    pub open spec fn put_canonical(&self, acc: Seq<u8>) -> Seq<u8> {
        with_key(acc + seq![0x7bu8], self.kind.wire_name()) + self.body@ + seq![0x7du8]
    }

    pub fn write_canonical(&self, buf: &mut Vec<u8>)
        ensures
            final(buf)@ == self.put_canonical(old(buf)@),
    {
        put_mark(buf, 0x7b);
        put_key(buf, self.kind.wire_str());
        let ghost before = buf@;
        let mut i: usize = 0;
        while i < self.body.len()
            invariant
                i <= self.body@.len(),
                buf@ == before + self.body@.subrange(0, i as int),
            decreases self.body@.len() - i,
        {
            buf.push(self.body[i]);
            assert(buf@ =~= before + self.body@.subrange(0, i + 1));
            i = i + 1;
        }
        assert(self.body@.subrange(0, i as int) =~= self.body@);
        put_mark(buf, 0x7d);
    }
}

#[derive(Debug, Clone, PartialEq, Eq)]
pub struct Event {
    pub event_id: EventId,
    pub run_id: RunId,
    pub stream_seq: u64,
    pub turn_id: Option<TurnId>,
    pub kind: EventKind,
    pub payload: EventPayload,
    pub schema_version: SchemaVersion,
    pub ts_unix_ms: i64,
    pub provenance: Provenance,
}

impl Event {
    /// A new event whose kind is its payload's kind; the store assigns the
    /// stream sequence, so it starts at zero.
    pub fn new(
        event_id: EventId,
        run_id: RunId,
        turn_id: Option<TurnId>,
        payload: EventPayload,
        schema_version: SchemaVersion,
        ts_unix_ms: i64,
        provenance: Provenance,
    ) -> (r: Self)
        ensures
            r.event_id == event_id,
            r.run_id == run_id,
            r.stream_seq == 0,
            r.turn_id == turn_id,
            r.kind == payload.kind,
            r.payload == payload,
            r.schema_version == schema_version,
            r.ts_unix_ms == ts_unix_ms,
            r.provenance == provenance,
    {
        let kind = payload.kind();
        Event {
            event_id,
            run_id,
            stream_seq: 0,
            turn_id,
            kind,
            payload,
            schema_version,
            ts_unix_ms,
            provenance,
        }
    }

    pub open spec fn kind_matches(&self) -> bool {
        self.kind == self.payload.kind
    }

    pub fn validate_payload_kind(&self) -> (r: Result<(), Error>)
        ensures
            r is Ok <==> self.kind_matches(),
    {
        let payload_kind = self.payload.kind();
        if self.kind == payload_kind {
            Ok(())
        } else {
            Err(Error("event kind does not match payload kind".to_string()))
        }
    }
}


/// The payload of a `ToolPolicyEvaluated` event: the decision, the rule
/// source that made it, and why.
#[derive(Debug, Clone, PartialEq, Eq)]
pub struct ToolPolicyEvaluatedPayload {
    pub decision: PolicyDecision,
    pub rule_source: RuleSourceRef,
    pub reason: ReasonRef,
}

impl ToolPolicyEvaluatedPayload {
    /// `{"decision":...,"rule_source":...,"reason":...}`.
    pub open spec fn put_canonical(&self, acc: Seq<u8>) -> Seq<u8> {
        let a = with_key(acc + seq![0x7bu8], "decision"@) + json_string(self.decision.wire_name());
        let a = with_key(a + seq![0x2cu8], "rule_source"@) + json_string(self.rule_source.0@);
        let a = with_key(a + seq![0x2cu8], "reason"@) + json_string(self.reason.0@);
        a + seq![0x7du8]
    }

    pub fn write_canonical(&self, buf: &mut Vec<u8>)
        ensures
            final(buf)@ == self.put_canonical(old(buf)@),
    {
        put_mark(buf, 0x7b);
        put_key(buf, "decision");
        put_str(buf, self.decision.wire_str());
        put_mark(buf, 0x2c);
        put_key(buf, "rule_source");
        put_str(buf, self.rule_source.0.as_str());
        put_mark(buf, 0x2c);
        put_key(buf, "reason");
        put_str(buf, self.reason.0.as_str());
        put_mark(buf, 0x7d);
    }

    /// The payload as an event payload of its kind.
    pub fn to_event_payload(&self) -> (r: EventPayload)
        ensures
            r.kind == EventKind::ToolPolicyEvaluated,
            r.body@ == self.put_canonical(Seq::empty()),
    {
        let mut body: Vec<u8> = Vec::new();
        self.write_canonical(&mut body);
        EventPayload { kind: EventKind::ToolPolicyEvaluated, body }
    }
}


impl EventKind {
    /// The kind with wire name `value`, when there is one.
    pub fn parse(value: &str) -> (r: Option<EventKind>)
        ensures
            r matches Some(k) ==> k.wire_name() == value@,
            r is None ==> forall|k: EventKind| #[trigger] k.wire_name() != value@,
    {
        if str_equal(value, "RunAccepted") {
            return Some(EventKind::RunAccepted);
        }
        if str_equal(value, "SessionBound") {
            return Some(EventKind::SessionBound);
        }
        if str_equal(value, "RunComplete") {
            return Some(EventKind::RunComplete);
        }
        if str_equal(value, "RunAborted") {
            return Some(EventKind::RunAborted);
        }
        if str_equal(value, "RunFailed") {
            return Some(EventKind::RunFailed);
        }
        if str_equal(value, "RunLimited") {
            return Some(EventKind::RunLimited);
        }
        if str_equal(value, "RunWaiting") {
            return Some(EventKind::RunWaiting);
        }
        if str_equal(value, "RunResumed") {
            return Some(EventKind::RunResumed);
        }
        if str_equal(value, "TurnStarted") {
            return Some(EventKind::TurnStarted);
        }
        if str_equal(value, "TurnComplete") {
            return Some(EventKind::TurnComplete);
        }
        if str_equal(value, "ContextBuildStarted") {
            return Some(EventKind::ContextBuildStarted);
        }
        if str_equal(value, "ContextBuildFinished") {
            return Some(EventKind::ContextBuildFinished);
        }
        if str_equal(value, "CompactionStarted") {
            return Some(EventKind::CompactionStarted);
        }
        if str_equal(value, "CompactionFinished") {
            return Some(EventKind::CompactionFinished);
        }
        if str_equal(value, "ModelCallStarted") {
            return Some(EventKind::ModelCallStarted);
        }
        if str_equal(value, "ModelCallDelta") {
            return Some(EventKind::ModelCallDelta);
        }
        if str_equal(value, "ModelCallFinished") {
            return Some(EventKind::ModelCallFinished);
        }
        if str_equal(value, "OutputClassified") {
            return Some(EventKind::OutputClassified);
        }
        if str_equal(value, "ToolCallProposed") {
            return Some(EventKind::ToolCallProposed);
        }
        if str_equal(value, "ToolPolicyEvaluated") {
            return Some(EventKind::ToolPolicyEvaluated);
        }
        if str_equal(value, "ApprovalRequested") {
            return Some(EventKind::ApprovalRequested);
        }
        if str_equal(value, "ApprovalResolved") {
            return Some(EventKind::ApprovalResolved);
        }
        if str_equal(value, "HandoffRequested") {
            return Some(EventKind::HandoffRequested);
        }
        if str_equal(value, "HandoffResolved") {
            return Some(EventKind::HandoffResolved);
        }
        if str_equal(value, "ActionPlanned") {
            return Some(EventKind::ActionPlanned);
        }
        if str_equal(value, "ActionStarted") {
            return Some(EventKind::ActionStarted);
        }
        if str_equal(value, "ActionOutputDelta") {
            return Some(EventKind::ActionOutputDelta);
        }
        if str_equal(value, "ActionCompleted") {
            return Some(EventKind::ActionCompleted);
        }
        if str_equal(value, "ActionFailed") {
            return Some(EventKind::ActionFailed);
        }
        if str_equal(value, "ActionDenied") {
            return Some(EventKind::ActionDenied);
        }
        if str_equal(value, "ActionCancelled") {
            return Some(EventKind::ActionCancelled);
        }
        if str_equal(value, "ActionOutcomeUnknown") {
            return Some(EventKind::ActionOutcomeUnknown);
        }
        if str_equal(value, "VerificationStarted") {
            return Some(EventKind::VerificationStarted);
        }
        if str_equal(value, "VerificationFinished") {
            return Some(EventKind::VerificationFinished);
        }
        if str_equal(value, "FailureEvidenceRecorded") {
            return Some(EventKind::FailureEvidenceRecorded);
        }
        if str_equal(value, "FailureDigestUpdated") {
            return Some(EventKind::FailureDigestUpdated);
        }
        if str_equal(value, "CandidateCreated") {
            return Some(EventKind::CandidateCreated);
        }
        if str_equal(value, "CandidateConflictDetected") {
            return Some(EventKind::CandidateConflictDetected);
        }
        if str_equal(value, "CandidatePromoted") {
            return Some(EventKind::CandidatePromoted);
        }
        if str_equal(value, "CandidateRejected") {
            return Some(EventKind::CandidateRejected);
        }
        if str_equal(value, "CandidateDowngraded") {
            return Some(EventKind::CandidateDowngraded);
        }
        if str_equal(value, "CandidateDecayed") {
            return Some(EventKind::CandidateDecayed);
        }
        if str_equal(value, "RetractionEvent") {
            return Some(EventKind::RetractionEvent);
        }
        if str_equal(value, "RevocationEvent") {
            return Some(EventKind::RevocationEvent);
        }
        if str_equal(value, "ReevaluationTaskCreated") {
            return Some(EventKind::ReevaluationTaskCreated);
        }
        if str_equal(value, "ObservationRecorded") {
            return Some(EventKind::ObservationRecorded);
        }
        if str_equal(value, "OpportunityDetected") {
            return Some(EventKind::OpportunityDetected);
        }
        if str_equal(value, "ValueGateEvaluated") {
            return Some(EventKind::ValueGateEvaluated);
        }
        if str_equal(value, "CompetenceGateEvaluated") {
            return Some(EventKind::CompetenceGateEvaluated);
        }
        if str_equal(value, "ImpulseRaised") {
            return Some(EventKind::ImpulseRaised);
        }
        if str_equal(value, "ReflectionProduced") {
            return Some(EventKind::ReflectionProduced);
        }
        if str_equal(value, "ProactiveProposalEmitted") {
            return Some(EventKind::ProactiveProposalEmitted);
        }
        if str_equal(value, "ProactiveProposalResolved") {
            return Some(EventKind::ProactiveProposalResolved);
        }
        if str_equal(value, "ProspectiveIntentionCreated") {
            return Some(EventKind::ProspectiveIntentionCreated);
        }
        if str_equal(value, "ProspectiveIntentionResolved") {
            return Some(EventKind::ProspectiveIntentionResolved);
        }
        if str_equal(value, "GoalFramed") {
            return Some(EventKind::GoalFramed);
        }
        if str_equal(value, "ResourcePlanned") {
            return Some(EventKind::ResourcePlanned);
        }
        if str_equal(value, "DoneContractSet") {
            return Some(EventKind::DoneContractSet);
        }
        if str_equal(value, "AutonomyEnvelopeSet") {
            return Some(EventKind::AutonomyEnvelopeSet);
        }
        if str_equal(value, "DecisionTraceRecorded") {
            return Some(EventKind::DecisionTraceRecorded);
        }
        if str_equal(value, "OrchestrationRouteCreated") {
            return Some(EventKind::OrchestrationRouteCreated);
        }
        if str_equal(value, "SubagentSpawned") {
            return Some(EventKind::SubagentSpawned);
        }
        if str_equal(value, "SubagentResultReturned") {
            return Some(EventKind::SubagentResultReturned);
        }
        if str_equal(value, "CapabilityIndexed") {
            return Some(EventKind::CapabilityIndexed);
        }
        if str_equal(value, "ToolsetResolved") {
            return Some(EventKind::ToolsetResolved);
        }
        if str_equal(value, "McpDiscovered") {
            return Some(EventKind::McpDiscovered);
        }
        if str_equal(value, "McpCallEvent") {
            return Some(EventKind::McpCallEvent);
        }
        if str_equal(value, "SkillMetadataExposed") {
            return Some(EventKind::SkillMetadataExposed);
        }
        if str_equal(value, "SkillBodyLoaded") {
            return Some(EventKind::SkillBodyLoaded);
        }
        if str_equal(value, "PluginContributionRegistered") {
            return Some(EventKind::PluginContributionRegistered);
        }
        if str_equal(value, "PluginToggled") {
            return Some(EventKind::PluginToggled);
        }
        if str_equal(value, "CapabilityEvidenceRecorded") {
            return Some(EventKind::CapabilityEvidenceRecorded);
        }
        if str_equal(value, "CommunicationEventReceived") {
            return Some(EventKind::CommunicationEventReceived);
        }
        if str_equal(value, "CommunicationSessionOpened") {
            return Some(EventKind::CommunicationSessionOpened);
        }
        if str_equal(value, "CommunicationSessionTerminated") {
            return Some(EventKind::CommunicationSessionTerminated);
        }
        if str_equal(value, "ExternalCommunicationGranted") {
            return Some(EventKind::ExternalCommunicationGranted);
        }
        if str_equal(value, "DisclosurePolicyApplied") {
            return Some(EventKind::DisclosurePolicyApplied);
        }
        if str_equal(value, "CommunicationProposalEmitted") {
            return Some(EventKind::CommunicationProposalEmitted);
        }
        if str_equal(value, "MemoryNodeAppended") {
            return Some(EventKind::MemoryNodeAppended);
        }
        if str_equal(value, "MemoryEdgeAppended") {
            return Some(EventKind::MemoryEdgeAppended);
        }
        if str_equal(value, "MemoryMaintenanceApplied") {
            return Some(EventKind::MemoryMaintenanceApplied);
        }
        if str_equal(value, "UserAttributeCandidateCreated") {
            return Some(EventKind::UserAttributeCandidateCreated);
        }
        if str_equal(value, "ImportedHistoricalEvidenceRecorded") {
            return Some(EventKind::ImportedHistoricalEvidenceRecorded);
        }
        if str_equal(value, "CognitiveMapUpdateProposed") {
            return Some(EventKind::CognitiveMapUpdateProposed);
        }
        if str_equal(value, "ConfigDoctorReport") {
            return Some(EventKind::ConfigDoctorReport);
        }
        if str_equal(value, "ComplianceCheckResult") {
            return Some(EventKind::ComplianceCheckResult);
        }
        if str_equal(value, "EvolutionEvaluationRecorded") {
            return Some(EventKind::EvolutionEvaluationRecorded);
        }
        if str_equal(value, "StrategyActivated") {
            return Some(EventKind::StrategyActivated);
        }
        if str_equal(value, "StrategyRolledBack") {
            return Some(EventKind::StrategyRolledBack);
        }
        if str_equal(value, "FederatedPeerRegistered") {
            return Some(EventKind::FederatedPeerRegistered);
        }
        if str_equal(value, "FederatedPeerRevoked") {
            return Some(EventKind::FederatedPeerRevoked);
        }
        if str_equal(value, "RemoteExecutionLeaseChanged") {
            return Some(EventKind::RemoteExecutionLeaseChanged);
        }
        if str_equal(value, "ReplicationCheckpointAdvanced") {
            return Some(EventKind::ReplicationCheckpointAdvanced);
        }
        if str_equal(value, "CapabilityPublisherChanged") {
            return Some(EventKind::CapabilityPublisherChanged);
        }
        if str_equal(value, "CapabilityPackageAdmitted") {
            return Some(EventKind::CapabilityPackageAdmitted);
        }
        if str_equal(value, "CapabilityPackageStateChanged") {
            return Some(EventKind::CapabilityPackageStateChanged);
        }
        if str_equal(value, "CapabilityPackageDistributionRecorded") {
            return Some(EventKind::CapabilityPackageDistributionRecorded);
        }
        if str_equal(value, "WorkspaceCharterChanged") {
            return Some(EventKind::WorkspaceCharterChanged);
        }
        if str_equal(value, "DataLifecycleApplied") {
            return Some(EventKind::DataLifecycleApplied);
        }
        proof {
            assert forall|k: EventKind| #[trigger] k.wire_name() != value@ by {
                match k {
                    EventKind::RunAccepted => {},
                    EventKind::SessionBound => {},
                    EventKind::RunComplete => {},
                    EventKind::RunAborted => {},
                    EventKind::RunFailed => {},
                    EventKind::RunLimited => {},
                    EventKind::RunWaiting => {},
                    EventKind::RunResumed => {},
                    EventKind::TurnStarted => {},
                    EventKind::TurnComplete => {},
                    EventKind::ContextBuildStarted => {},
                    EventKind::ContextBuildFinished => {},
                    EventKind::CompactionStarted => {},
                    EventKind::CompactionFinished => {},
                    EventKind::ModelCallStarted => {},
                    EventKind::ModelCallDelta => {},
                    EventKind::ModelCallFinished => {},
                    EventKind::OutputClassified => {},
                    EventKind::ToolCallProposed => {},
                    EventKind::ToolPolicyEvaluated => {},
                    EventKind::ApprovalRequested => {},
                    EventKind::ApprovalResolved => {},
                    EventKind::HandoffRequested => {},
                    EventKind::HandoffResolved => {},
                    EventKind::ActionPlanned => {},
                    EventKind::ActionStarted => {},
                    EventKind::ActionOutputDelta => {},
                    EventKind::ActionCompleted => {},
                    EventKind::ActionFailed => {},
                    EventKind::ActionDenied => {},
                    EventKind::ActionCancelled => {},
                    EventKind::ActionOutcomeUnknown => {},
                    EventKind::VerificationStarted => {},
                    EventKind::VerificationFinished => {},
                    EventKind::FailureEvidenceRecorded => {},
                    EventKind::FailureDigestUpdated => {},
                    EventKind::CandidateCreated => {},
                    EventKind::CandidateConflictDetected => {},
                    EventKind::CandidatePromoted => {},
                    EventKind::CandidateRejected => {},
                    EventKind::CandidateDowngraded => {},
                    EventKind::CandidateDecayed => {},
                    EventKind::RetractionEvent => {},
                    EventKind::RevocationEvent => {},
                    EventKind::ReevaluationTaskCreated => {},
                    EventKind::ObservationRecorded => {},
                    EventKind::OpportunityDetected => {},
                    EventKind::ValueGateEvaluated => {},
                    EventKind::CompetenceGateEvaluated => {},
                    EventKind::ImpulseRaised => {},
                    EventKind::ReflectionProduced => {},
                    EventKind::ProactiveProposalEmitted => {},
                    EventKind::ProactiveProposalResolved => {},
                    EventKind::ProspectiveIntentionCreated => {},
                    EventKind::ProspectiveIntentionResolved => {},
                    EventKind::GoalFramed => {},
                    EventKind::ResourcePlanned => {},
                    EventKind::DoneContractSet => {},
                    EventKind::AutonomyEnvelopeSet => {},
                    EventKind::DecisionTraceRecorded => {},
                    EventKind::OrchestrationRouteCreated => {},
                    EventKind::SubagentSpawned => {},
                    EventKind::SubagentResultReturned => {},
                    EventKind::CapabilityIndexed => {},
                    EventKind::ToolsetResolved => {},
                    EventKind::McpDiscovered => {},
                    EventKind::McpCallEvent => {},
                    EventKind::SkillMetadataExposed => {},
                    EventKind::SkillBodyLoaded => {},
                    EventKind::PluginContributionRegistered => {},
                    EventKind::PluginToggled => {},
                    EventKind::CapabilityEvidenceRecorded => {},
                    EventKind::CommunicationEventReceived => {},
                    EventKind::CommunicationSessionOpened => {},
                    EventKind::CommunicationSessionTerminated => {},
                    EventKind::ExternalCommunicationGranted => {},
                    EventKind::DisclosurePolicyApplied => {},
                    EventKind::CommunicationProposalEmitted => {},
                    EventKind::MemoryNodeAppended => {},
                    EventKind::MemoryEdgeAppended => {},
                    EventKind::MemoryMaintenanceApplied => {},
                    EventKind::UserAttributeCandidateCreated => {},
                    EventKind::ImportedHistoricalEvidenceRecorded => {},
                    EventKind::CognitiveMapUpdateProposed => {},
                    EventKind::ConfigDoctorReport => {},
                    EventKind::ComplianceCheckResult => {},
                    EventKind::EvolutionEvaluationRecorded => {},
                    EventKind::StrategyActivated => {},
                    EventKind::StrategyRolledBack => {},
                    EventKind::FederatedPeerRegistered => {},
                    EventKind::FederatedPeerRevoked => {},
                    EventKind::RemoteExecutionLeaseChanged => {},
                    EventKind::ReplicationCheckpointAdvanced => {},
                    EventKind::CapabilityPublisherChanged => {},
                    EventKind::CapabilityPackageAdmitted => {},
                    EventKind::CapabilityPackageStateChanged => {},
                    EventKind::CapabilityPackageDistributionRecorded => {},
                    EventKind::WorkspaceCharterChanged => {},
                    EventKind::DataLifecycleApplied => {},
                }
            }
        }
        None
    }
}


/// No event kind's name holds a `|`.
pub proof fn lemma_wire_names_have_no_bar(k: EventKind)
    ensures
        forall|i: int| 0 <= i < k.wire_name().len() ==> #[trigger] k.wire_name()[i] != '|',
{
    match k {
        EventKind::RunAccepted => {
            reveal_strlit("RunAccepted");
        },
        EventKind::SessionBound => {
            reveal_strlit("SessionBound");
        },
        EventKind::RunComplete => {
            reveal_strlit("RunComplete");
        },
        EventKind::RunAborted => {
            reveal_strlit("RunAborted");
        },
        EventKind::RunFailed => {
            reveal_strlit("RunFailed");
        },
        EventKind::RunLimited => {
            reveal_strlit("RunLimited");
        },
        EventKind::RunWaiting => {
            reveal_strlit("RunWaiting");
        },
        EventKind::RunResumed => {
            reveal_strlit("RunResumed");
        },
        EventKind::TurnStarted => {
            reveal_strlit("TurnStarted");
        },
        EventKind::TurnComplete => {
            reveal_strlit("TurnComplete");
        },
        EventKind::ContextBuildStarted => {
            reveal_strlit("ContextBuildStarted");
        },
        EventKind::ContextBuildFinished => {
            reveal_strlit("ContextBuildFinished");
        },
        EventKind::CompactionStarted => {
            reveal_strlit("CompactionStarted");
        },
        EventKind::CompactionFinished => {
            reveal_strlit("CompactionFinished");
        },
        EventKind::ModelCallStarted => {
            reveal_strlit("ModelCallStarted");
        },
        EventKind::ModelCallDelta => {
            reveal_strlit("ModelCallDelta");
        },
        EventKind::ModelCallFinished => {
            reveal_strlit("ModelCallFinished");
        },
        EventKind::OutputClassified => {
            reveal_strlit("OutputClassified");
        },
        EventKind::ToolCallProposed => {
            reveal_strlit("ToolCallProposed");
        },
        EventKind::ToolPolicyEvaluated => {
            reveal_strlit("ToolPolicyEvaluated");
        },
        EventKind::ApprovalRequested => {
            reveal_strlit("ApprovalRequested");
        },
        EventKind::ApprovalResolved => {
            reveal_strlit("ApprovalResolved");
        },
        EventKind::HandoffRequested => {
            reveal_strlit("HandoffRequested");
        },
        EventKind::HandoffResolved => {
            reveal_strlit("HandoffResolved");
        },
        EventKind::ActionPlanned => {
            reveal_strlit("ActionPlanned");
        },
        EventKind::ActionStarted => {
            reveal_strlit("ActionStarted");
        },
        EventKind::ActionOutputDelta => {
            reveal_strlit("ActionOutputDelta");
        },
        EventKind::ActionCompleted => {
            reveal_strlit("ActionCompleted");
        },
        EventKind::ActionFailed => {
            reveal_strlit("ActionFailed");
        },
        EventKind::ActionDenied => {
            reveal_strlit("ActionDenied");
        },
        EventKind::ActionCancelled => {
            reveal_strlit("ActionCancelled");
        },
        EventKind::ActionOutcomeUnknown => {
            reveal_strlit("ActionOutcomeUnknown");
        },
        EventKind::VerificationStarted => {
            reveal_strlit("VerificationStarted");
        },
        EventKind::VerificationFinished => {
            reveal_strlit("VerificationFinished");
        },
        EventKind::FailureEvidenceRecorded => {
            reveal_strlit("FailureEvidenceRecorded");
        },
        EventKind::FailureDigestUpdated => {
            reveal_strlit("FailureDigestUpdated");
        },
        EventKind::CandidateCreated => {
            reveal_strlit("CandidateCreated");
        },
        EventKind::CandidateConflictDetected => {
            reveal_strlit("CandidateConflictDetected");
        },
        EventKind::CandidatePromoted => {
            reveal_strlit("CandidatePromoted");
        },
        EventKind::CandidateRejected => {
            reveal_strlit("CandidateRejected");
        },
        EventKind::CandidateDowngraded => {
            reveal_strlit("CandidateDowngraded");
        },
        EventKind::CandidateDecayed => {
            reveal_strlit("CandidateDecayed");
        },
        EventKind::RetractionEvent => {
            reveal_strlit("RetractionEvent");
        },
        EventKind::RevocationEvent => {
            reveal_strlit("RevocationEvent");
        },
        EventKind::ReevaluationTaskCreated => {
            reveal_strlit("ReevaluationTaskCreated");
        },
        EventKind::ObservationRecorded => {
            reveal_strlit("ObservationRecorded");
        },
        EventKind::OpportunityDetected => {
            reveal_strlit("OpportunityDetected");
        },
        EventKind::ValueGateEvaluated => {
            reveal_strlit("ValueGateEvaluated");
        },
        EventKind::CompetenceGateEvaluated => {
            reveal_strlit("CompetenceGateEvaluated");
        },
        EventKind::ImpulseRaised => {
            reveal_strlit("ImpulseRaised");
        },
        EventKind::ReflectionProduced => {
            reveal_strlit("ReflectionProduced");
        },
        EventKind::ProactiveProposalEmitted => {
            reveal_strlit("ProactiveProposalEmitted");
        },
        EventKind::ProactiveProposalResolved => {
            reveal_strlit("ProactiveProposalResolved");
        },
        EventKind::ProspectiveIntentionCreated => {
            reveal_strlit("ProspectiveIntentionCreated");
        },
        EventKind::ProspectiveIntentionResolved => {
            reveal_strlit("ProspectiveIntentionResolved");
        },
        EventKind::GoalFramed => {
            reveal_strlit("GoalFramed");
        },
        EventKind::ResourcePlanned => {
            reveal_strlit("ResourcePlanned");
        },
        EventKind::DoneContractSet => {
            reveal_strlit("DoneContractSet");
        },
        EventKind::AutonomyEnvelopeSet => {
            reveal_strlit("AutonomyEnvelopeSet");
        },
        EventKind::DecisionTraceRecorded => {
            reveal_strlit("DecisionTraceRecorded");
        },
        EventKind::OrchestrationRouteCreated => {
            reveal_strlit("OrchestrationRouteCreated");
        },
        EventKind::SubagentSpawned => {
            reveal_strlit("SubagentSpawned");
        },
        EventKind::SubagentResultReturned => {
            reveal_strlit("SubagentResultReturned");
        },
        EventKind::CapabilityIndexed => {
            reveal_strlit("CapabilityIndexed");
        },
        EventKind::ToolsetResolved => {
            reveal_strlit("ToolsetResolved");
        },
        EventKind::McpDiscovered => {
            reveal_strlit("McpDiscovered");
        },
        EventKind::McpCallEvent => {
            reveal_strlit("McpCallEvent");
        },
        EventKind::SkillMetadataExposed => {
            reveal_strlit("SkillMetadataExposed");
        },
        EventKind::SkillBodyLoaded => {
            reveal_strlit("SkillBodyLoaded");
        },
        EventKind::PluginContributionRegistered => {
            reveal_strlit("PluginContributionRegistered");
        },
        EventKind::PluginToggled => {
            reveal_strlit("PluginToggled");
        },
        EventKind::CapabilityEvidenceRecorded => {
            reveal_strlit("CapabilityEvidenceRecorded");
        },
        EventKind::CommunicationEventReceived => {
            reveal_strlit("CommunicationEventReceived");
        },
        EventKind::CommunicationSessionOpened => {
            reveal_strlit("CommunicationSessionOpened");
        },
        EventKind::CommunicationSessionTerminated => {
            reveal_strlit("CommunicationSessionTerminated");
        },
        EventKind::ExternalCommunicationGranted => {
            reveal_strlit("ExternalCommunicationGranted");
        },
        EventKind::DisclosurePolicyApplied => {
            reveal_strlit("DisclosurePolicyApplied");
        },
        EventKind::CommunicationProposalEmitted => {
            reveal_strlit("CommunicationProposalEmitted");
        },
        EventKind::MemoryNodeAppended => {
            reveal_strlit("MemoryNodeAppended");
        },
        EventKind::MemoryEdgeAppended => {
            reveal_strlit("MemoryEdgeAppended");
        },
        EventKind::MemoryMaintenanceApplied => {
            reveal_strlit("MemoryMaintenanceApplied");
        },
        EventKind::UserAttributeCandidateCreated => {
            reveal_strlit("UserAttributeCandidateCreated");
        },
        EventKind::ImportedHistoricalEvidenceRecorded => {
            reveal_strlit("ImportedHistoricalEvidenceRecorded");
        },
        EventKind::CognitiveMapUpdateProposed => {
            reveal_strlit("CognitiveMapUpdateProposed");
        },
        EventKind::ConfigDoctorReport => {
            reveal_strlit("ConfigDoctorReport");
        },
        EventKind::ComplianceCheckResult => {
            reveal_strlit("ComplianceCheckResult");
        },
        EventKind::EvolutionEvaluationRecorded => {
            reveal_strlit("EvolutionEvaluationRecorded");
        },
        EventKind::StrategyActivated => {
            reveal_strlit("StrategyActivated");
        },
        EventKind::StrategyRolledBack => {
            reveal_strlit("StrategyRolledBack");
        },
        EventKind::FederatedPeerRegistered => {
            reveal_strlit("FederatedPeerRegistered");
        },
        EventKind::FederatedPeerRevoked => {
            reveal_strlit("FederatedPeerRevoked");
        },
        EventKind::RemoteExecutionLeaseChanged => {
            reveal_strlit("RemoteExecutionLeaseChanged");
        },
        EventKind::ReplicationCheckpointAdvanced => {
            reveal_strlit("ReplicationCheckpointAdvanced");
        },
        EventKind::CapabilityPublisherChanged => {
            reveal_strlit("CapabilityPublisherChanged");
        },
        EventKind::CapabilityPackageAdmitted => {
            reveal_strlit("CapabilityPackageAdmitted");
        },
        EventKind::CapabilityPackageStateChanged => {
            reveal_strlit("CapabilityPackageStateChanged");
        },
        EventKind::CapabilityPackageDistributionRecorded => {
            reveal_strlit("CapabilityPackageDistributionRecorded");
        },
        EventKind::WorkspaceCharterChanged => {
            reveal_strlit("WorkspaceCharterChanged");
        },
        EventKind::DataLifecycleApplied => {
            reveal_strlit("DataLifecycleApplied");
        },
    }
}

} // verus!
