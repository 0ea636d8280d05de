//! External providers: what a provider declares, the lifecycle it moves
//! through, and the rules by which a granted autonomy envelope stays within
//! the envelope a session allows.
use vstd::prelude::*;

use crate::m5::{lemma_scope_covers_transitive, scope_contains, scope_covers};
use crate::primitives::{
    ActionType, Actor, ApprovalRule, AutonomyEnvelope, CapabilityRef, CapabilitySet, Error,
    ProviderId, RollbackReq, Risk, SchemaVersion, SessionId, ToolsetRef, TrustTier,
};
use crate::text::{blank, check_covers, covers, has_text, is_blank, same_text, texts_of, Textual};

verus! {

#[derive(Debug, Clone, Copy, PartialEq, Eq, Hash, Structural)]
pub enum ProviderKind {
    Model,
    Channel,
    Mcp,
    Plugin,
    AppApi,
}

/// A provider of models, channels, tools or applications that the kernel
/// can discover, configure, enable, trust and grant autonomy to.
pub trait ExternalProvider {
    /// The kind the provider reports.
    spec fn provider_kind(&self) -> ProviderKind;

    /// The id the provider reports.
    spec fn provider_id(&self) -> Seq<char>;

    /// The capabilities the provider declares, as texts.
    spec fn capability_texts(&self) -> Seq<Seq<char>>;

    /// The permissions the provider declares, as texts.
    spec fn permission_texts(&self) -> Seq<Seq<char>>;

    /// The trust the provider starts with.
    spec fn default_trust(&self) -> TrustTier;

    fn kind(&self) -> (r: ProviderKind)
        ensures
            r == self.provider_kind(),
    ;

    fn id(&self) -> (r: ProviderId)
        ensures
            r.0@ == self.provider_id(),
    ;

    fn declared_capabilities(&self) -> (r: CapabilitySet)
        ensures
            texts_of(r.capabilities@) == self.capability_texts(),
            texts_of(r.permissions@) == self.permission_texts(),
    ;

    fn trust_default(&self) -> (r: TrustTier)
        ensures
            r == self.default_trust(),
    ;
}

pub trait ModelProvider: ExternalProvider {

}

pub trait ChannelAdapter: ExternalProvider {

}

pub trait McpServer: ExternalProvider {

}

pub trait Plugin: ExternalProvider {

}

pub trait AppApiConnector: ExternalProvider {

}

#[derive(Debug, Clone, Copy, PartialEq, Eq, Structural)]
pub enum ProviderLifecycle {
    Discovered,
    Configured,
    Enabled,
    Trusted(TrustTier),
    Disabled,
}

#[derive(Debug, Clone, PartialEq, Eq)]
pub struct ResolveContext {
    pub schema_version: SchemaVersion,
    pub session: SessionId,
    pub toolset: ToolsetRef,
    pub envelope: AutonomyEnvelope,
    pub policy_allowed_providers: Vec<ProviderId>,
    pub policy_allowed_capabilities: Vec<CapabilityRef>,
}

#[derive(Debug, Clone, PartialEq, Eq)]
pub struct ActiveProvider<P: ExternalProvider> {
    pub schema_version: SchemaVersion,
    pub provider: P,
    pub trust: TrustTier,
    pub grant: AutonomyEnvelope,
}

#[derive(Debug, Clone, PartialEq, Eq)]
pub struct ActiveSet<P: ExternalProvider> {
    pub schema_version: SchemaVersion,
    pub providers: Vec<ActiveProvider<P>>,
}

#[derive(Debug, Clone, PartialEq, Eq)]
pub struct ProviderTransition {
    pub schema_version: SchemaVersion,
    pub provider_id: ProviderId,
    pub kind: ProviderKind,
    pub from: Option<ProviderLifecycle>,
    pub to: ProviderLifecycle,
    pub by: Option<Actor>,
}

/// A discovered provider is named and starts out untrusted.
pub open spec fn provider_default_ok(id: ProviderId, trust_default: TrustTier) -> bool {
    !is_blank(id.0@) && trust_default == TrustTier::Untrusted
}

/// Checks what a provider reports about itself on discovery: a non-blank
/// id and an untrusted default.
pub fn validate_provider_default(id: &ProviderId, trust_default: TrustTier) -> (r: Result<(), Error>)
    ensures
        r is Ok <==> provider_default_ok(*id, trust_default),
{
    if blank(id.0.as_str()) {
        return Err(Error("provider id cannot be empty".to_string()));
    }
    if trust_default != TrustTier::Untrusted {
        return Err(Error("external providers must default to untrusted".to_string()));
    }
    Ok(())
}

/// Asks the provider for its id and default trust and checks them with
/// `validate_provider_default`.
pub fn validate_external_default<P: ExternalProvider>(provider: &P) -> (r: Result<(), Error>)
    ensures
        r is Ok <==> !is_blank(provider.provider_id()) && provider.default_trust()
            == TrustTier::Untrusted,
{
    let id = provider.id();
    let trust = provider.trust_default();
    validate_provider_default(&id, trust)
}

/// A complete envelope: a scope, some capability, some action type, a
/// budget, at least one turn, and a timebox that does not end before it starts.
pub open spec fn envelope_complete(e: AutonomyEnvelope) -> bool {
    &&& !is_blank(e.scope.0@)
    &&& e.capability.capabilities@.len() > 0
    &&& e.action_type@.len() > 0
    &&& !is_blank(e.budget.0@)
    &&& e.timebox.max_turns != 0
    &&& e.timebox.expires_at >= e.timebox.starts_at
}

pub fn validate_envelope(envelope: &AutonomyEnvelope) -> (r: Result<(), Error>)
    ensures
        r is Ok <==> envelope_complete(*envelope),
{
    if blank(envelope.scope.0.as_str()) || envelope.capability.capabilities.len() == 0
        || envelope.action_type.len() == 0 || blank(envelope.budget.0.as_str())
        || envelope.timebox.max_turns == 0 || envelope.timebox.expires_at
        < envelope.timebox.starts_at {
        return Err(Error("provider envelope is incomplete".to_string()));
    }
    Ok(())
}

/// Every capability and permission of `candidate` is also in `ceiling`.
pub open spec fn capabilities_within(candidate: CapabilitySet, ceiling: CapabilitySet) -> bool {
    covers(candidate.capabilities@, ceiling.capabilities@) && covers(
        candidate.permissions@,
        ceiling.permissions@,
    )
}

pub fn capability_set_within(candidate: &CapabilitySet, ceiling: &CapabilitySet) -> (r: bool)
    ensures
        r == capabilities_within(*candidate, *ceiling),
{
    check_covers(&candidate.capabilities, &ceiling.capabilities) && check_covers(
        &candidate.permissions,
        &ceiling.permissions,
    )
}

/// The strictness of an approval rule: allow, ask, deny.
pub open spec fn approval_strictness(rule: ApprovalRule) -> nat {
    match rule {
        ApprovalRule::Allow => 0,
        ApprovalRule::Ask => 1,
        ApprovalRule::Deny => 2,
    }
}

pub fn approval_rank(rule: ApprovalRule) -> (r: u8)
    ensures
        r == approval_strictness(rule),
{
    match rule {
        ApprovalRule::Allow => 0,
        ApprovalRule::Ask => 1,
        ApprovalRule::Deny => 2,
    }
}

/// The order of risk levels: low, medium, high.
pub open spec fn risk_level(risk: Risk) -> nat {
    match risk {
        Risk::Low => 0,
        Risk::Medium => 1,
        Risk::High => 2,
    }
}

fn risk_rank(risk: Risk) -> (r: u8)
    ensures
        r == risk_level(risk),
{
    match risk {
        Risk::Low => 0,
        Risk::Medium => 1,
        Risk::High => 2,
    }
}

/// A rollback requirement at least as strict as `ceiling`: required when it
/// is, and bound to its boundary when it names one.
pub open spec fn rollback_covered(grant: RollbackReq, ceiling: RollbackReq) -> bool {
    &&& ceiling.required ==> grant.required
    &&& ceiling.boundary matches Some(b) ==> (grant.boundary matches Some(g) && g.0@ == b.0@)
}

pub fn rollback_within(grant: &RollbackReq, ceiling: &RollbackReq) -> (r: bool)
    ensures
        r == rollback_covered(*grant, *ceiling),
{
    if ceiling.required && !grant.required {
        return false;
    }
    match &ceiling.boundary {
        Some(boundary) => match &grant.boundary {
            Some(g) => same_text(&g.0, &boundary.0),
            None => false,
        },
        None => true,
    }
}

/// Every action type of `a` also occurs in `b`.
pub open spec fn actions_within(a: Seq<ActionType>, b: Seq<ActionType>) -> bool {
    forall|i: int| 0 <= i < a.len() ==> b.contains(#[trigger] a[i])
}

fn check_actions_within(a: &Vec<ActionType>, b: &Vec<ActionType>) -> (r: bool)
    ensures
        r == actions_within(a@, b@),
{
    let mut i: usize = 0;
    while i < a.len()
        invariant
            i <= a.len(),
            forall|k: int| 0 <= k < i ==> b@.contains(#[trigger] a@[k]),
        decreases a.len() - i,
    {
        let mut found = false;
        let mut j: usize = 0;
        while j < b.len()
            invariant
                i < a.len(),
                j <= b.len(),
                found ==> b@.contains(a@[i as int]),
                !found ==> forall|m: int| 0 <= m < j ==> b@[m] != a@[i as int],
            decreases b.len() - j,
        {
            if b[j] == a[i] {
                found = true;
            }
            j = j + 1;
        }
        if !found {
            proof {
                if b@.contains(a@[i as int]) {
                    let m = choose|m: int| 0 <= m < b@.len() && b@[m] == a@[i as int];
                    assert(b@[m] != a@[i as int]);
                }
            }
            return false;
        }
        i = i + 1;
    }
    true
}

/// `grant` asks for no more than `ceiling` allows: a scope it covers, a
/// subset of its capabilities and action types, no higher risk, no looser
/// approval, the same budget, a timebox inside it with no more turns, and a
/// rollback requirement at least as strict.
pub open spec fn within_envelope(grant: AutonomyEnvelope, ceiling: AutonomyEnvelope) -> bool {
    &&& scope_covers(ceiling.scope.0@, grant.scope.0@)
    &&& capabilities_within(grant.capability, ceiling.capability)
    &&& actions_within(grant.action_type@, ceiling.action_type@)
    &&& risk_level(grant.risk_limit) <= risk_level(ceiling.risk_limit)
    &&& approval_strictness(grant.approval_rule) >= approval_strictness(ceiling.approval_rule)
    &&& grant.budget.0@ == ceiling.budget.0@
    &&& grant.timebox.starts_at >= ceiling.timebox.starts_at
    &&& grant.timebox.expires_at <= ceiling.timebox.expires_at
    &&& grant.timebox.max_turns <= ceiling.timebox.max_turns
    &&& rollback_covered(grant.rollback, ceiling.rollback)
}

pub fn envelope_within(grant: &AutonomyEnvelope, ceiling: &AutonomyEnvelope) -> (r: bool)
    ensures
        r == within_envelope(*grant, *ceiling),
{
    scope_contains(&ceiling.scope, &grant.scope) && capability_set_within(
        &grant.capability,
        &ceiling.capability,
    ) && check_actions_within(&grant.action_type, &ceiling.action_type) && risk_rank(
        grant.risk_limit,
    ) <= risk_rank(ceiling.risk_limit) && approval_rank(grant.approval_rule) >= approval_rank(
        ceiling.approval_rule,
    ) && same_text(&grant.budget.0, &ceiling.budget.0) && grant.timebox.starts_at
        >= ceiling.timebox.starts_at && grant.timebox.expires_at <= ceiling.timebox.expires_at
        && grant.timebox.max_turns <= ceiling.timebox.max_turns && rollback_within(
        &grant.rollback,
        &ceiling.rollback,
    )
}

/// Every envelope lies within itself.
pub proof fn lemma_envelope_within_reflexive(e: AutonomyEnvelope)
    ensures
        within_envelope(e, e),
{
    assert forall|i: int| 0 <= i < e.capability.capabilities@.len() implies has_text(
        e.capability.capabilities@,
        #[trigger] e.capability.capabilities@[i].text(),
    ) by {
        assert(e.capability.capabilities@[i].text() == e.capability.capabilities@[i].text());
    }
    assert forall|i: int| 0 <= i < e.capability.permissions@.len() implies has_text(
        e.capability.permissions@,
        #[trigger] e.capability.permissions@[i].text(),
    ) by {
        assert(e.capability.permissions@[i].text() == e.capability.permissions@[i].text());
    }
    assert forall|i: int| 0 <= i < e.action_type@.len() implies e.action_type@.contains(
        #[trigger] e.action_type@[i],
    ) by {
        assert(e.action_type@[i] == e.action_type@[i]);
    }
}

proof fn lemma_covers_transitive<T: Textual>(a: Seq<T>, b: Seq<T>, c: Seq<T>)
    requires
        covers(a, b),
        covers(b, c),
    ensures
        covers(a, c),
{
    assert forall|i: int| 0 <= i < a.len() implies has_text(c, #[trigger] a[i].text()) by {
        assert(has_text(b, a[i].text()));
        let j = choose|j: int| 0 <= j < b.len() && #[trigger] b[j].text() == a[i].text();
        assert(has_text(c, b[j].text()));
    }
}

/// An envelope within one that lies within a third lies within the third:
/// granting on down a chain never widens what was allowed.
pub proof fn lemma_envelope_within_transitive(a: AutonomyEnvelope, b: AutonomyEnvelope, c: AutonomyEnvelope)
    requires
        within_envelope(a, b),
        within_envelope(b, c),
    ensures
        within_envelope(a, c),
{
    lemma_scope_covers_transitive(c.scope.0@, b.scope.0@, a.scope.0@);
    lemma_covers_transitive(a.capability.capabilities@, b.capability.capabilities@, c.capability.capabilities@);
    lemma_covers_transitive(a.capability.permissions@, b.capability.permissions@, c.capability.permissions@);
    assert forall|i: int| 0 <= i < a.action_type@.len() implies c.action_type@.contains(
        #[trigger] a.action_type@[i],
    ) by {
        assert(b.action_type@.contains(a.action_type@[i]));
        let j = choose|j: int| 0 <= j < b.action_type@.len() && b.action_type@[j] == a.action_type@[i];
        assert(c.action_type@.contains(b.action_type@[j]));
    }
}

} // verus!
