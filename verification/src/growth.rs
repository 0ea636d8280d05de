//! Capability growth: how far the recorded results of a capability, and the
//! confidence it reports in itself, let it act without being asked.
//!
//! A confidence is carried as the bit pattern of an `f32`. For patterns with
//! the sign bit clear, the unsigned order of the bits is the numeric order of
//! the values, and every pattern above that of `1.0` is a larger number,
//! infinity or NaN; of the patterns with the sign bit set only `-0.0` is not
//! below zero or NaN. The comparisons below rest on that.
use vstd::prelude::*;

use crate::m2_c::{CapabilityGap, CapabilityResultEvidence, ResourceEvidenceOutcome};
use crate::memory::intervention_rank;
use crate::primitives::{
    CapabilityGapRef, CapabilityRef, Confidence, Error, InterventionLevel, SchemaVersion, Scope,
};
use crate::text::{blank, check_distinct_texts, distinct_texts, is_blank, Textual};

verus! {

/// The bit pattern of `1.0f32`.
pub const ONE_BITS: u32 = 0x3F80_0000;

/// The bit pattern of `-0.0f32`.
pub const NEGATIVE_ZERO_BITS: u32 = 0x8000_0000;

/// The bit pattern of `0.4f32`.
pub const LOW_CONFIDENCE_BITS: u32 = 0x3ECC_CCCD;

/// The bit pattern of `0.7f32`.
pub const HIGH_CONFIDENCE_BITS: u32 = 0x3F33_3333;

/// The confidence lies in `0.0..=1.0`.
pub open spec fn confidence_in_unit(c: Confidence) -> bool {
    c.0 <= ONE_BITS || c.0 == NEGATIVE_ZERO_BITS
}

/// A confidence in `0.0..=1.0` lies below the positive value whose bits are `bound`.
pub open spec fn confidence_below(c: Confidence, bound: u32) -> bool {
    c.0 == NEGATIVE_ZERO_BITS || c.0 < bound
}

/// An evidence record is known by its reference.
impl Textual for CapabilityResultEvidence {
    open spec fn text(&self) -> Seq<char> {
        self.evidence_ref.0@
    }

    fn as_text(&self) -> (r: &String) {
        &self.evidence_ref.0
    }
}

/// A result record that can be counted: versioned, referenced and observed at a real time.
pub open spec fn evidence_complete(e: CapabilityResultEvidence) -> bool {
    &&& e.schema_version.0 != 0
    &&& !is_blank(e.evidence_ref.0@)
    &&& e.observed_at > 0
}

/// Everything an assessment needs is there: the names, at least one complete
/// result record, and a self-confidence, if any, in `0.0..=1.0`.
pub open spec fn growth_inputs_complete(
    reference: CapabilityGapRef,
    capability: CapabilityRef,
    scope: Scope,
    evidence: Seq<CapabilityResultEvidence>,
    self_confidence: Option<Confidence>,
) -> bool {
    &&& !is_blank(reference.0@)
    &&& !is_blank(capability.0@)
    &&& !is_blank(scope.0@)
    &&& evidence.len() > 0
    &&& forall|i: int| 0 <= i < evidence.len() ==> evidence_complete(#[trigger] evidence[i])
    &&& (self_confidence matches Some(c) ==> confidence_in_unit(c))
}

/// What a result record is counted as.
#[derive(Debug, Clone, Copy, PartialEq, Eq, Structural)]
pub enum ResultTally {
    Passed,
    Failed,
    Unverifiable,
}

/// The record counts under `kind`: a failure is a failed outcome or an owner's rejection.
pub open spec fn counts_as(kind: ResultTally, e: CapabilityResultEvidence) -> bool {
    match kind {
        ResultTally::Passed => e.outcome == ResourceEvidenceOutcome::Pass,
        ResultTally::Failed => e.outcome == ResourceEvidenceOutcome::Fail || e.owner_feedback
            == Some(false),
        ResultTally::Unverifiable => e.outcome == ResourceEvidenceOutcome::Unverifiable,
    }
}

/// How many records count under `kind`.
pub open spec fn tally(s: Seq<CapabilityResultEvidence>, kind: ResultTally) -> nat
    decreases s.len(),
{
    if s.len() == 0 {
        0
    } else {
        tally(s.drop_last(), kind) + if counts_as(kind, s.last()) {
            1nat
        } else {
            0nat
        }
    }
}

/// Some record carries the owner's confirmation.
pub open spec fn owner_confirmed(s: Seq<CapabilityResultEvidence>) -> bool {
    exists|i: int| 0 <= i < s.len() && #[trigger] s[i].owner_feedback == Some(true)
}

/// The level that the results alone allow.
pub open spec fn result_ceiling(
    passed: nat,
    failed: nat,
    unverifiable: nat,
    confirmed: bool,
) -> InterventionLevel {
    if passed >= 3 && failed == 0 && unverifiable == 0 && confirmed {
        InterventionLevel::L4ActAutonomously
    } else if passed >= 2 && failed == 0 {
        InterventionLevel::L3ActWithApproval
    } else if passed >= 1 && failed == 0 {
        InterventionLevel::L2Prepare
    } else {
        InterventionLevel::L1Suggest
    }
}

/// The level that the capability's own confidence allows.
pub open spec fn self_ceiling(self_confidence: Option<Confidence>) -> InterventionLevel {
    match self_confidence {
        Some(c) => if confidence_below(c, LOW_CONFIDENCE_BITS) {
            InterventionLevel::L2Prepare
        } else if confidence_below(c, HIGH_CONFIDENCE_BITS) {
            InterventionLevel::L3ActWithApproval
        } else {
            InterventionLevel::L5HighImpact
        },
        None => InterventionLevel::L5HighImpact,
    }
}

/// The lower of two levels.
pub open spec fn lower_level(a: InterventionLevel, b: InterventionLevel) -> InterventionLevel {
    if intervention_rank(a) <= intervention_rank(b) {
        a
    } else {
        b
    }
}

/// The ceiling of a capability: the lower of what its results and its own confidence allow.
pub open spec fn growth_ceiling(
    s: Seq<CapabilityResultEvidence>,
    self_confidence: Option<Confidence>,
) -> InterventionLevel {
    lower_level(
        result_ceiling(
            tally(s, ResultTally::Passed),
            tally(s, ResultTally::Failed),
            tally(s, ResultTally::Unverifiable),
            owner_confirmed(s),
        ),
        self_ceiling(self_confidence),
    )
}

/// Growth is led by results: the ceiling never rises above what the results
/// allow nor above what the self-confidence allows, never reaches high impact,
/// and a capability with no pass, or with any failure or owner rejection, may
/// only suggest.
pub proof fn lemma_growth_is_result_led(
    s: Seq<CapabilityResultEvidence>,
    self_confidence: Option<Confidence>,
)
    ensures
        intervention_rank(growth_ceiling(s, self_confidence)) <= intervention_rank(
            result_ceiling(
                tally(s, ResultTally::Passed),
                tally(s, ResultTally::Failed),
                tally(s, ResultTally::Unverifiable),
                owner_confirmed(s),
            ),
        ),
        intervention_rank(growth_ceiling(s, self_confidence)) <= intervention_rank(
            self_ceiling(self_confidence),
        ),
        intervention_rank(growth_ceiling(s, self_confidence)) <= 4,
        tally(s, ResultTally::Passed) == 0 || tally(s, ResultTally::Failed) > 0 ==> growth_ceiling(
            s,
            self_confidence,
        ) == InterventionLevel::L1Suggest,
{
}

fn level_rank(level: InterventionLevel) -> (r: u8)
    ensures
        r == intervention_rank(level),
{
    match level {
        InterventionLevel::L0Observe => 0,
        InterventionLevel::L1Suggest => 1,
        InterventionLevel::L2Prepare => 2,
        InterventionLevel::L3ActWithApproval => 3,
        InterventionLevel::L4ActAutonomously => 4,
        InterventionLevel::L5HighImpact => 5,
    }
}

fn count_results(v: &Vec<CapabilityResultEvidence>, kind: ResultTally) -> (r: usize)
    ensures
        r == tally(v@, kind),
{
    let mut n: usize = 0;
    let mut i: usize = 0;
    while i < v.len()
        invariant
            i <= v.len(),
            n == tally(v@.take(i as int), kind),
            n <= i,
        decreases v.len() - i,
    {
        assert(v@.take(i as int + 1).drop_last() =~= v@.take(i as int));
        let e = &v[i];
        let hit = match kind {
            ResultTally::Passed => e.outcome == ResourceEvidenceOutcome::Pass,
            ResultTally::Failed => e.outcome == ResourceEvidenceOutcome::Fail || e.owner_feedback
                == Some(false),
            ResultTally::Unverifiable => e.outcome == ResourceEvidenceOutcome::Unverifiable,
        };
        if hit {
            n = n + 1;
        }
        i = i + 1;
    }
    assert(v@.take(v.len() as int) =~= v@);
    n
}

fn any_owner_confirmation(v: &Vec<CapabilityResultEvidence>) -> (r: bool)
    ensures
        r == owner_confirmed(v@),
{
    let mut i: usize = 0;
    while i < v.len()
        invariant
            i <= v.len(),
            forall|j: int| 0 <= j < i ==> #[trigger] v@[j].owner_feedback != Some(true),
        decreases v.len() - i,
    {
        if v[i].owner_feedback == Some(true) {
            return true;
        }
        i = i + 1;
    }
    false
}

fn all_evidence_complete(v: &Vec<CapabilityResultEvidence>) -> (r: bool)
    ensures
        r == (forall|i: int| 0 <= i < v@.len() ==> evidence_complete(#[trigger] v@[i])),
{
    let mut i: usize = 0;
    while i < v.len()
        invariant
            i <= v.len(),
            forall|j: int| 0 <= j < i ==> evidence_complete(#[trigger] v@[j]),
        decreases v.len() - i,
    {
        let e = &v[i];
        if e.schema_version.0 == 0 || blank(e.evidence_ref.0.as_str()) || e.observed_at <= 0 {
            assert(!evidence_complete(v@[i as int]));
            return false;
        }
        i = i + 1;
    }
    true
}

/// Turns the recorded results of a capability into its gap: the ceiling up to
/// which it may intervene.
#[derive(Debug, Clone, Copy, Default)]
pub struct CapabilityGrowthEngine;

impl CapabilityGrowthEngine {
    /// Assesses a capability from its results and its self-confidence.
    ///
    /// Refuses incomplete inputs and results listed twice under one reference.
    /// Otherwise the gap keeps the inputs and carries the lower of two levels:
    /// what the results allow (three passes with the owner's confirmation and
    /// nothing failed or unverifiable act autonomously; two clean passes act
    /// with approval; one prepares; anything else suggests), and what the
    /// self-confidence allows (below 0.4 prepare, below 0.7 act with approval,
    /// otherwise no limit).
    pub fn assess(
        &self,
        reference: CapabilityGapRef,
        capability: CapabilityRef,
        scope: Scope,
        result_evidence: Vec<CapabilityResultEvidence>,
        self_confidence: Option<Confidence>,
    ) -> (r: Result<CapabilityGap, Error>)
        ensures
            r is Ok <==> growth_inputs_complete(
                reference,
                capability,
                scope,
                result_evidence@,
                self_confidence,
            ) && distinct_texts(result_evidence@),
            r matches Ok(g) ==> {
                &&& g.schema_version == SchemaVersion(1)
                &&& g.reference == reference
                &&& g.capability == capability
                &&& g.scope == scope
                &&& g.result_evidence@ == result_evidence@
                &&& g.self_confidence == self_confidence
                &&& g.ceiling == growth_ceiling(result_evidence@, self_confidence)
            },
    {
        let confidence_ok = match self_confidence {
            Some(c) => c.0 <= ONE_BITS || c.0 == NEGATIVE_ZERO_BITS,
            None => true,
        };
        if blank(reference.0.as_str()) || blank(capability.0.as_str()) || blank(scope.0.as_str())
            || result_evidence.len() == 0 || !all_evidence_complete(&result_evidence)
            || !confidence_ok {
            return Err(Error("capability growth evidence is incomplete".to_string()));
        }
        if !check_distinct_texts(&result_evidence) {
            return Err(Error("capability growth evidence is duplicated".to_string()));
        }
        let passed = count_results(&result_evidence, ResultTally::Passed);
        let failed = count_results(&result_evidence, ResultTally::Failed);
        let unverifiable = count_results(&result_evidence, ResultTally::Unverifiable);
        let confirmed = any_owner_confirmation(&result_evidence);
        let result_level = if passed >= 3 && failed == 0 && unverifiable == 0 && confirmed {
            InterventionLevel::L4ActAutonomously
        } else if passed >= 2 && failed == 0 {
            InterventionLevel::L3ActWithApproval
        } else if passed >= 1 && failed == 0 {
            InterventionLevel::L2Prepare
        } else {
            InterventionLevel::L1Suggest
        };
        let self_level = match self_confidence {
            Some(c) => if c.0 == NEGATIVE_ZERO_BITS || c.0 < LOW_CONFIDENCE_BITS {
                InterventionLevel::L2Prepare
            } else if c.0 == NEGATIVE_ZERO_BITS || c.0 < HIGH_CONFIDENCE_BITS {
                InterventionLevel::L3ActWithApproval
            } else {
                InterventionLevel::L5HighImpact
            },
            None => InterventionLevel::L5HighImpact,
        };
        let ceiling = if level_rank(result_level) <= level_rank(self_level) {
            result_level
        } else {
            self_level
        };
        Ok(
            CapabilityGap {
                schema_version: SchemaVersion(1),
                reference,
                capability,
                scope,
                result_evidence,
                self_confidence,
                ceiling,
            },
        )
    }
}

} // verus!
