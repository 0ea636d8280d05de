//! The provider registry: discovered providers are configured, enabled and
//! bound to a trust tier before they may be granted autonomy, every move is
//! recorded, and only trusted, granted, policy-allowed providers within the
//! session's envelope are resolved.
use vstd::prelude::*;

use crate::json::JsonValue;
use crate::primitives::{
    Actor, AutonomyEnvelope, CredentialRef, Error, ProviderId, SchemaVersion, TrustTier,
};
use crate::projection::{ascending, find_text, put_in_order};
use crate::provider::{
    capabilities_within, capability_set_within, envelope_complete, envelope_within,
    validate_envelope, validate_external_default, within_envelope, ExternalProvider,
    ProviderKind, ProviderLifecycle, ProviderTransition, ResolveContext,
};
use crate::text::{
    blank, check_has_text, covers, has_text, is_blank, lemma_text_lt_irreflexive, texts_of,
    Duplicate, Textual,
};

verus! {

/// How a provider is configured: a credential, an endpoint, a manifest.
#[derive(Debug)]
pub struct ProviderConfig {
    pub schema_version: SchemaVersion,
    pub credential_ref: Option<CredentialRef>,
    pub endpoint: Option<String>,
    pub manifest: Option<JsonValue>,
}

impl ProviderConfig {
    /// The configuration gives the provider something to work with: a
    /// credential, a non-blank endpoint or a manifest.
    pub open spec fn configured(&self) -> bool {
        ||| self.credential_ref is Some
        ||| (self.endpoint matches Some(e) && !is_blank(e@))
        ||| self.manifest is Some
    }

    pub fn is_configured(&self) -> (r: bool)
        ensures
            r == self.configured(),
    {
        self.credential_ref.is_some() || match &self.endpoint {
            Some(e) => !blank(e.as_str()),
            None => false,
        } || self.manifest.is_some()
    }
}

impl Default for ProviderConfig {
    fn default() -> (r: Self)
        ensures
            r.schema_version == SchemaVersion(1),
            r.credential_ref is None,
            r.endpoint is None,
            r.manifest is None,
    {
        ProviderConfig {
            schema_version: SchemaVersion(1),
            credential_ref: None,
            endpoint: None,
            manifest: None,
        }
    }
}

/// A provider as the registry keeps it.
#[derive(Debug)]
pub struct ProviderRecord<P: ExternalProvider> {
    pub schema_version: SchemaVersion,
    pub provider: P,
    pub state: ProviderLifecycle,
    pub config: ProviderConfig,
    pub grant: Option<AutonomyEnvelope>,
    pub trust_bound_by: Option<Actor>,
}

/// A record under the id of its provider.
struct RegistryEntry<P: ExternalProvider> {
    id: ProviderId,
    record: ProviderRecord<P>,
}

impl<P: ExternalProvider> Textual for RegistryEntry<P> {
    closed spec fn text(&self) -> Seq<char> {
        self.id.0@
    }

    fn as_text(&self) -> (r: &String) {
        &self.id.0
    }
}

/// The id of the provider a record keeps.
pub open spec fn id_of<P: ExternalProvider>(r: ProviderRecord<P>) -> Seq<char> {
    r.provider.provider_id()
}

/// Some record keeps the provider with id `id`.
pub open spec fn registered<P: ExternalProvider>(listed: Seq<ProviderRecord<P>>, id: Seq<char>) -> bool {
    exists|i: int| 0 <= i < listed.len() && id_of(#[trigger] listed[i]) == id
}

/// The transition `t` records `id` of kind `kind` moving from `from` to `to`
/// by `by`.
pub open spec fn records_move(
    t: ProviderTransition,
    id: Seq<char>,
    kind: ProviderKind,
    from: Option<ProviderLifecycle>,
    to: ProviderLifecycle,
    by: Option<Actor>,
) -> bool {
    &&& t.schema_version == SchemaVersion(1)
    &&& t.provider_id.0@ == id
    &&& t.kind == kind
    &&& t.from == from
    &&& t.to == to
    &&& t.by == by
}

/// `after` is `before` with the record of `id` replaced by `changed`.
pub open spec fn replaced<P: ExternalProvider>(
    before: Seq<ProviderRecord<P>>,
    after: Seq<ProviderRecord<P>>,
    id: Seq<char>,
    changed: ProviderRecord<P>,
) -> bool {
    &&& after.len() == before.len()
    &&& forall|i: int| 0 <= i < before.len() && id_of(#[trigger] before[i]) != id ==> after[i] == before[i]
    &&& forall|i: int| 0 <= i < before.len() && id_of(#[trigger] before[i]) == id ==> after[i] == changed
}

/// The state `set_enabled` moves a provider to from `state`, when it may move.
pub open spec fn enabled_state(state: ProviderLifecycle, on: bool) -> Option<ProviderLifecycle> {
    if on {
        match state {
            ProviderLifecycle::Configured | ProviderLifecycle::Disabled => Some(ProviderLifecycle::Enabled),
            _ => None,
        }
    } else {
        match state {
            ProviderLifecycle::Configured | ProviderLifecycle::Enabled | ProviderLifecycle::Trusted(
                _,
            ) => Some(ProviderLifecycle::Disabled),
            _ => None,
        }
    }
}

/// Every capability and permission the provider declares is in `ceiling`.
pub open spec fn declared_within<P: ExternalProvider>(p: P, ceiling: crate::primitives::CapabilitySet) -> bool {
    &&& forall|i: int|
        0 <= i < p.capability_texts().len() ==> has_text(
            ceiling.capabilities@,
            #[trigger] p.capability_texts()[i],
        )
    &&& forall|i: int|
        0 <= i < p.permission_texts().len() ==> has_text(
            ceiling.permissions@,
            #[trigger] p.permission_texts()[i],
        )
}

/// A record the registry resolves for `context`: trusted above untrusted,
/// allowed by policy, granted an envelope within the session's, and
/// declaring nothing beyond the grant or the session.
pub open spec fn resolvable<P: ExternalProvider>(r: ProviderRecord<P>, context: ResolveContext) -> bool {
    &&& r.state matches ProviderLifecycle::Trusted(t) && t != TrustTier::Untrusted
    &&& has_text(context.policy_allowed_providers@, id_of(r))
    &&& r.grant matches Some(g) && within_envelope(g, context.envelope) && declared_within(
        r.provider,
        g.capability,
    ) && declared_within(r.provider, context.envelope.capability)
}

/// The records resolved for `context`, in order.
pub open spec fn resolved<P: ExternalProvider>(s: Seq<ProviderRecord<P>>, context: ResolveContext) -> Seq<ProviderRecord<P>>
    decreases s.len(),
{
    if s.len() == 0 {
        Seq::empty()
    } else if resolvable(s.last(), context) {
        resolved(s.drop_last(), context).push(s.last())
    } else {
        resolved(s.drop_last(), context)
    }
}

proof fn lemma_declared_within<P: ExternalProvider>(p: P, d: crate::primitives::CapabilitySet, ceiling: crate::primitives::CapabilitySet)
    requires
        texts_of(d.capabilities@) == p.capability_texts(),
        texts_of(d.permissions@) == p.permission_texts(),
    ensures
        capabilities_within(d, ceiling) == declared_within(p, ceiling),
{
    assert forall|i: int| 0 <= i < d.capabilities@.len() implies d.capabilities@[i].text() == p.capability_texts()[i] by {
        assert(texts_of(d.capabilities@)[i] == d.capabilities@[i].text());
    }
    assert forall|i: int| 0 <= i < d.permissions@.len() implies d.permissions@[i].text() == p.permission_texts()[i] by {
        assert(texts_of(d.permissions@)[i] == d.permissions@[i].text());
    }
    assert(texts_of(d.capabilities@).len() == d.capabilities@.len());
    assert(texts_of(d.permissions@).len() == d.permissions@.len());
    let ct = p.capability_texts();
    let pt = p.permission_texts();
    if covers(d.capabilities@, ceiling.capabilities@) {
        assert forall|i: int| 0 <= i < ct.len() implies has_text(ceiling.capabilities@, #[trigger] ct[i]) by {
            assert(d.capabilities@[i].text() == ct[i]);
        }
    }
    if forall|i: int| 0 <= i < ct.len() ==> has_text(ceiling.capabilities@, #[trigger] ct[i]) {
        assert forall|i: int| 0 <= i < d.capabilities@.len() implies has_text(ceiling.capabilities@, #[trigger] d.capabilities@[i].text()) by {
            assert(d.capabilities@[i].text() == ct[i]);
        }
    }
    if covers(d.permissions@, ceiling.permissions@) {
        assert forall|i: int| 0 <= i < pt.len() implies has_text(ceiling.permissions@, #[trigger] pt[i]) by {
            assert(d.permissions@[i].text() == pt[i]);
        }
    }
    if forall|i: int| 0 <= i < pt.len() ==> has_text(ceiling.permissions@, #[trigger] pt[i]) {
        assert forall|i: int| 0 <= i < d.permissions@.len() implies has_text(ceiling.permissions@, #[trigger] d.permissions@[i].text()) by {
            assert(d.permissions@[i].text() == pt[i]);
        }
    }
}

/// The record that keeps the provider with id `id`.
pub open spec fn record_for<P: ExternalProvider>(listed: Seq<ProviderRecord<P>>, id: Seq<char>) -> ProviderRecord<P> {
    listed[choose|i: int| 0 <= i < listed.len() && id_of(#[trigger] listed[i]) == id]
}

/// The records are in the order of their ids, each id once.
pub open spec fn ids_ascending<P: ExternalProvider>(listed: Seq<ProviderRecord<P>>) -> bool {
    forall|i: int, j: int|
        0 <= i < j < listed.len() ==> crate::text::text_lt(
            id_of(#[trigger] listed[i]),
            id_of(#[trigger] listed[j]),
        )
}

/// A provider as discovery reports it: named, and untrusted until bound.
pub open spec fn reports_default<P: ExternalProvider>(p: P) -> bool {
    !is_blank(p.provider_id()) && p.default_trust() == TrustTier::Untrusted
}

/// A discovered provider's first record.
pub open spec fn discovered<P: ExternalProvider>(p: P) -> ProviderRecord<P> {
    ProviderRecord {
        schema_version: SchemaVersion(1),
        provider: p,
        state: ProviderLifecycle::Discovered,
        config: ProviderConfig {
            schema_version: SchemaVersion(1),
            credential_ref: None,
            endpoint: None,
            manifest: None,
        },
        grant: None,
        trust_bound_by: None,
    }
}

/// Discovery is refused when a provider does not report the default, or two
/// report the same id.
pub open spec fn discovery_refused<P: ExternalProvider>(ps: Seq<P>) -> bool {
    ||| exists|i: int| 0 <= i < ps.len() && !reports_default(#[trigger] ps[i])
    ||| exists|i: int, j: int|
        0 <= i < j < ps.len() && (#[trigger] ps[i]).provider_id() == (#[trigger] ps[j]).provider_id()
}

/// Registration is refused for a provider that does not report the default,
/// a configuration with nothing to work with, a provider not discovered, one
/// configured already, or one whose kind changed since discovery.
pub open spec fn registration_refused<P: ExternalProvider>(
    listed: Seq<ProviderRecord<P>>,
    provider: P,
    config: ProviderConfig,
) -> bool {
    ||| !reports_default(provider)
    ||| !config.configured()
    ||| !registered(listed, provider.provider_id())
    ||| record_for(listed, provider.provider_id()).state != ProviderLifecycle::Discovered
    ||| record_for(listed, provider.provider_id()).provider.provider_kind() != provider.provider_kind()
}

/// A provider may only be granted autonomy once it is bound to a trust tier
/// above untrusted.
pub open spec fn trust_bound(state: ProviderLifecycle) -> bool {
    state matches ProviderLifecycle::Trusted(t) && t != TrustTier::Untrusted
}

/// Only a provider bound to a trust tier above untrusted holds a grant, and
/// every trust binding names who made it.
pub open spec fn governed<P: ExternalProvider>(listed: Seq<ProviderRecord<P>>) -> bool {
    forall|i: int|
        0 <= i < listed.len() ==> ((#[trigger] listed[i]).grant is Some ==> trust_bound(
            listed[i].state,
        )) && (listed[i].state matches ProviderLifecycle::Trusted(_) ==> listed[i].trust_bound_by is Some)
}

/// Replacing one record by a governed one keeps a governed registry governed.
proof fn lemma_governed_kept<P: ExternalProvider>(
    before: Seq<ProviderRecord<P>>,
    after: Seq<ProviderRecord<P>>,
    id: Seq<char>,
    changed: ProviderRecord<P>,
)
    requires
        governed(before),
        replaced(before, after, id, changed),
        changed.grant is Some ==> trust_bound(changed.state),
        changed.state matches ProviderLifecycle::Trusted(_) ==> changed.trust_bound_by is Some,
    ensures
        governed(after),
{
    assert forall|i: int| 0 <= i < after.len() implies ((#[trigger] after[i]).grant is Some ==> trust_bound(
        after[i].state,
    )) && (after[i].state matches ProviderLifecycle::Trusted(_) ==> after[i].trust_bound_by is Some) by {
        if id_of(before[i]) == id {
            assert(after[i] == changed);
        } else {
            assert(after[i] == before[i]);
        }
    }
}

spec fn entries_wf<P: ExternalProvider>(s: Seq<RegistryEntry<P>>) -> bool {
    &&& ascending(s)
    &&& forall|i: int| 0 <= i < s.len() ==> (#[trigger] s[i]).id.0@ == id_of(s[i].record)
}

spec fn entries_listed<P: ExternalProvider>(s: Seq<RegistryEntry<P>>) -> Seq<ProviderRecord<P>> {
    s.map_values(|e: RegistryEntry<P>| e.record)
}

proof fn lemma_entry_replaced<P: ExternalProvider>(
    before: Seq<RegistryEntry<P>>,
    after: Seq<RegistryEntry<P>>,
    i: int,
    changed: ProviderRecord<P>,
)
    requires
        entries_wf(before),
        0 <= i < before.len(),
        after == before.update(i, RegistryEntry { id: before[i].id, record: changed }),
        id_of(changed) == before[i].id.0@,
    ensures
        entries_wf(after),
        replaced(entries_listed(before), entries_listed(after), before[i].id.0@, changed),
{
    assert forall|x: int, y: int| 0 <= x < y < after.len() implies crate::text::text_lt(
        #[trigger] after[x].text(),
        #[trigger] after[y].text(),
    ) by {
        assert(after[x].text() == before[x].text());
        assert(after[y].text() == before[y].text());
    }
    assert forall|k: int| 0 <= k < before.len() && id_of(#[trigger] entries_listed(before)[k]) != before[i].id.0@ implies entries_listed(after)[k] == entries_listed(before)[k] by {
        assert(k != i);
    }
    assert forall|k: int| 0 <= k < before.len() && id_of(#[trigger] entries_listed(before)[k]) == before[i].id.0@ implies entries_listed(after)[k] == changed by {
        if k != i {
            assert(before[k].text() == before[i].text());
            if k < i {
                assert(crate::text::text_lt(before[k].text(), before[i].text()));
            } else {
                assert(crate::text::text_lt(before[i].text(), before[k].text()));
            }
            lemma_text_lt_irreflexive(before[i].text());
        }
    }
}

/// Providers in the order of their ids, with every move they made.
pub struct InMemoryProviderRegistry<P: ExternalProvider> {
    entries: Vec<RegistryEntry<P>>,
    transitions: Vec<ProviderTransition>,
}

impl<P: ExternalProvider> InMemoryProviderRegistry<P> {
    /// Entries are in id order and each is filed under its provider's id.
    pub closed spec fn wf(&self) -> bool {
        entries_wf(self.entries@)
    }

    /// The records, in the order of their providers' ids.
    pub closed spec fn listed(&self) -> Seq<ProviderRecord<P>> {
        entries_listed(self.entries@)
    }

    /// The moves recorded since they were last taken.
    pub closed spec fn moves(&self) -> Seq<ProviderTransition> {
        self.transitions@
    }

    /// An empty registry.
    pub fn new() -> (r: Self)
        ensures
            r.wf(),
            r.listed() == Seq::<ProviderRecord<P>>::empty(),
            r.moves() == Seq::<ProviderTransition>::empty(),
            governed(r.listed()),
    {
        let r = InMemoryProviderRegistry { entries: Vec::new(), transitions: Vec::new() };
        proof {
            assert(r.listed() =~= Seq::<ProviderRecord<P>>::empty());
        }
        r
    }

    proof fn lemma_listed_ids(&self)
        requires
            self.wf(),
        ensures
            forall|i: int| 0 <= i < self.listed().len() ==> id_of(#[trigger] self.listed()[i]) == self.entries@[i].id.0@,
            self.listed().len() == self.entries@.len(),
            forall|i: int, j: int| 0 <= i < j < self.listed().len() ==> id_of(#[trigger] self.listed()[i]) != id_of(#[trigger] self.listed()[j]),
    {
        assert forall|i: int, j: int| 0 <= i < j < self.listed().len() implies id_of(#[trigger] self.listed()[i]) != id_of(#[trigger] self.listed()[j]) by {
            assert(crate::text::text_lt(self.entries@[i].text(), self.entries@[j].text()));
            lemma_text_lt_irreflexive(self.entries@[i].id.0@);
        }
    }

    /// Finds the entry of `id`.
    fn position(&self, id: &ProviderId) -> (r: Option<usize>)
        requires
            self.wf(),
        ensures
            match r {
                Some(i) => i < self.listed().len() && id_of(self.listed()[i as int]) == id.0@,
                None => !registered(self.listed(), id.0@),
            },
    {
        proof {
            self.lemma_listed_ids();
        }
        let r = find_text(&self.entries, &id.0);
        proof {
            if r is None {
                if registered(self.listed(), id.0@) {
                    let i = choose|i: int| 0 <= i < self.listed().len() && id_of(#[trigger] self.listed()[i]) == id.0@;
                    assert(self.entries@[i].text() == id.0@);
                }
            }
        }
        r
    }

    /// The record of `id`.
    pub fn record(&self, id: &ProviderId) -> (r: Result<&ProviderRecord<P>, Error>)
        requires
            self.wf(),
        ensures
            r is Err <==> !registered(self.listed(), id.0@),
            r matches Ok(rec) ==> id_of(*rec) == id.0@ && self.listed().contains(*rec),
    {
        match self.position(id) {
            Some(i) => {
                proof {
                    assert(self.listed()[i as int] == self.entries@[i as int].record);
                }
                Ok(&self.entries[i].record)
            },
            None => Err(Error("provider is not registered".to_string())),
        }
    }

    /// Hands out the recorded moves and forgets them.
    pub fn take_transitions(&mut self) -> (r: Vec<ProviderTransition>)
        requires
            old(self).wf(),
        ensures
            final(self).wf(),
            r@ == old(self).moves(),
            final(self).moves() == Seq::<ProviderTransition>::empty(),
            final(self).listed() == old(self).listed(),
    {
        let mut taken: Vec<ProviderTransition> = Vec::new();
        std::mem::swap(&mut taken, &mut self.transitions);
        taken
    }



    /// A registry of the providers discovery reported, each recorded as
    /// discovered, with one move noted for each in the order reported.
    pub fn with_discovered(providers: Vec<P>) -> (r: Result<Self, Error>)
        ensures
            r is Err <==> discovery_refused(providers@),
            r matches Ok(reg) ==> {
                &&& reg.wf()
                &&& governed(reg.listed())
                &&& reg.listed().len() == providers@.len()
                &&& forall|i: int| 0 <= i < providers@.len() ==> reg.listed().contains(
                    discovered(#[trigger] providers@[i]),
                )
                &&& forall|j: int|
                    0 <= j < reg.listed().len() ==> exists|i: int|
                        0 <= i < providers@.len() && #[trigger] reg.listed()[j] == discovered(
                            #[trigger] providers@[i],
                        )
                &&& reg.moves().len() == providers@.len()
                &&& forall|i: int|
                    0 <= i < providers@.len() ==> records_move(
                        #[trigger] reg.moves()[i],
                        providers@[i].provider_id(),
                        providers@[i].provider_kind(),
                        None,
                        ProviderLifecycle::Discovered,
                        None,
                    )
            },
    {
        let ghost all = providers@;
        let n = providers.len();
        let mut registry = Self::new();
        let mut rest = providers;
        let mut k: usize = 0;
        while rest.len() > 0
            invariant
                registry.wf(),
                all == providers@,
                all.len() == n,
                k <= all.len(),
                rest@ == all.skip(k as int),
                forall|i: int| 0 <= i < k ==> reports_default(#[trigger] all[i]),
                forall|i: int, j: int|
                    0 <= i < j < k ==> (#[trigger] all[i]).provider_id() != (#[trigger] all[j]).provider_id(),
                registry.listed().len() == k,
                forall|i: int| 0 <= i < k ==> registry.listed().contains(discovered(#[trigger] all[i])),
                forall|j: int|
                    0 <= j < registry.listed().len() ==> exists|i: int|
                        0 <= i < k && #[trigger] registry.listed()[j] == discovered(#[trigger] all[i]),
                registry.moves().len() == k,
                forall|i: int|
                    0 <= i < k ==> records_move(
                        #[trigger] registry.moves()[i],
                        all[i].provider_id(),
                        all[i].provider_kind(),
                        None,
                        ProviderLifecycle::Discovered,
                        None,
                    ),
            decreases rest@.len(),
        {
            proof {
                assert(all.skip(k as int).len() > 0);
            }
            let provider = rest.remove(0);
            proof {
                assert(provider == all[k as int]);
                assert(rest@ =~= all.skip(k + 1));
            }
            if let Err(err) = validate_external_default(&provider) {
                proof {
                    assert(!reports_default(all[k as int]));
                }
                return Err(err);
            }
            let id = provider.id();
            match registry.position(&id) {
                Some(j) => {
                    proof {
                        let i = choose|i: int| 0 <= i < k && #[trigger] registry.listed()[j as int] == discovered(#[trigger] all[i]);
                        assert(all[i].provider_id() == all[k as int].provider_id());
                    }
                    return Err(Error("provider discovery returned a duplicate id".to_string()));
                },
                None => {},
            }
            let kind = provider.kind();
            let ghost old_listed = registry.listed();
            let ghost old_entries = registry.entries@;
            let ghost old_moves = registry.transitions@;
            registry.transitions.push(
                ProviderTransition {
                    schema_version: SchemaVersion(1),
                    provider_id: id.duplicate(),
                    kind,
                    from: None,
                    to: ProviderLifecycle::Discovered,
                    by: None,
                },
            );
            let record = ProviderRecord {
                schema_version: SchemaVersion(1),
                provider,
                state: ProviderLifecycle::Discovered,
                config: ProviderConfig::default(),
                grant: None,
                trust_bound_by: None,
            };
            let entry = RegistryEntry { id, record };
            let ghost ge = entry;
            put_in_order(&mut registry.entries, entry);
            proof {
                let after = registry.entries@;
                assert(ge.record == discovered(all[k as int]));
                assert(!has_text(old_entries, ge.text())) by {
                    if has_text(old_entries, ge.text()) {
                        let j = choose|j: int| 0 <= j < old_entries.len() && #[trigger] old_entries[j].text() == ge.text();
                        assert(old_listed[j] == old_entries[j].record);
                        assert(registered(old_listed, id_of(ge.record)));
                    }
                }
                assert(entries_wf(after)) by {
                    assert forall|i: int| 0 <= i < after.len() implies (#[trigger] after[i]).id.0@ == id_of(after[i].record) by {
                        if after[i] != ge {
                            let j = choose|j: int| 0 <= j < old_entries.len() && old_entries[j] == after[i];
                        }
                    }
                }
                let listed = entries_listed(after);
                assert(listed.len() == k + 1);
                assert forall|i: int| 0 <= i < k + 1 implies listed.contains(discovered(#[trigger] all[i])) by {
                    if i == k {
                        let w = choose|w: int| 0 <= w < after.len() && after[w] == ge;
                        assert(listed[w] == ge.record);
                    } else {
                        assert(old_listed.contains(discovered(all[i])));
                        let w = choose|w: int| 0 <= w < old_listed.len() && old_listed[w] == discovered(all[i]);
                        assert(old_entries[w].text() != ge.text()) by {
                            assert(old_entries[w].record == discovered(all[i]));
                            assert(all[i].provider_id() != all[k as int].provider_id());
                        }
                        assert(after.contains(old_entries[w]));
                        let v = choose|v: int| 0 <= v < after.len() && after[v] == old_entries[w];
                        assert(listed[v] == discovered(all[i]));
                    }
                }
                assert forall|j: int| 0 <= j < listed.len() implies exists|i: int|
                    0 <= i < k + 1 && #[trigger] listed[j] == discovered(#[trigger] all[i]) by {
                    if after[j] == ge {
                        assert(listed[j] == discovered(all[k as int]));
                    } else {
                        let w = choose|w: int| 0 <= w < old_entries.len() && old_entries[w] == after[j];
                        assert(old_listed[w] == listed[j]);
                        let i = choose|i: int| 0 <= i < k && #[trigger] old_listed[w] == discovered(#[trigger] all[i]);
                        assert(listed[j] == discovered(all[i]));
                    }
                }
                assert forall|i: int| 0 <= i < k + 1 implies records_move(
                    #[trigger] registry.transitions@[i],
                    all[i].provider_id(),
                    all[i].provider_kind(),
                    None,
                    ProviderLifecycle::Discovered,
                    None,
                ) by {
                    if i < k {
                        assert(registry.transitions@[i] == old_moves[i]);
                    }
                }
                assert forall|i: int, j: int|
                    0 <= i < j < k + 1 implies (#[trigger] all[i]).provider_id() != (#[trigger] all[j]).provider_id() by {
                    if j == k {
                        assert(old_listed.contains(discovered(all[i])));
                        let w = choose|w: int| 0 <= w < old_listed.len() && old_listed[w] == discovered(all[i]);
                        assert(id_of(old_listed[w]) == all[i].provider_id());
                    }
                }
            }
            k = k + 1;
        }
        proof {
            assert(all.skip(k as int).len() == 0);
            assert(k == all.len());
            assert forall|j: int| 0 <= j < registry.listed().len() implies ((#[trigger] registry.listed()[j]).grant is Some ==> trust_bound(
                registry.listed()[j].state,
            )) && (registry.listed()[j].state matches ProviderLifecycle::Trusted(_) ==> registry.listed()[j].trust_bound_by is Some) by {
                let i = choose|i: int| 0 <= i < k && #[trigger] registry.listed()[j] == discovered(#[trigger] all[i]);
            }
            assert(registry.wf());
            assert(registry.listed().len() == providers@.len());
            assert(forall|i: int| 0 <= i < providers@.len() ==> registry.listed().contains(
                    discovered(#[trigger] providers@[i]),
                ));
            assert forall|j: int|
                    0 <= j < registry.listed().len() implies exists|i: int|
                        0 <= i < providers@.len() && #[trigger] registry.listed()[j] == discovered(
                            #[trigger] providers@[i],
                        ) by {
                let i = choose|i: int| 0 <= i < k && #[trigger] registry.listed()[j] == discovered(#[trigger] all[i]);
                assert(providers@[i] == all[i]);
            }
            assert(registry.moves().len() == providers@.len());
            if discovery_refused(all) {
                if exists|i: int| 0 <= i < all.len() && !reports_default(#[trigger] all[i]) {
                    let i = choose|i: int| 0 <= i < all.len() && !reports_default(#[trigger] all[i]);
                    assert(reports_default(all[i]));
                }
            }
        }
        Ok(registry)
    }

    /// Records are kept in the order of their providers' ids, each id once.
    pub proof fn lemma_ids_ascending(&self)
        requires
            self.wf(),
        ensures
            ids_ascending(self.listed()),
    {
        self.lemma_listed_ids();
        assert forall|i: int, j: int| 0 <= i < j < self.listed().len() implies crate::text::text_lt(
            id_of(#[trigger] self.listed()[i]),
            id_of(#[trigger] self.listed()[j]),
        ) by {
            assert(crate::text::text_lt(self.entries@[i].text(), self.entries@[j].text()));
        }
    }

    proof fn lemma_record_for(&self, i: int)
        requires
            self.wf(),
            0 <= i < self.listed().len(),
        ensures
            registered(self.listed(), id_of(self.listed()[i])),
            record_for(self.listed(), id_of(self.listed()[i])) == self.listed()[i],
            self.listed()[i] == self.entries@[i].record,
            self.entries@[i].id.0@ == id_of(self.listed()[i]),
    {
        self.lemma_listed_ids();
        let id = id_of(self.listed()[i]);
        assert(registered(self.listed(), id));
        let j = choose|j: int| 0 <= j < self.listed().len() && id_of(#[trigger] self.listed()[j]) == id;
        if j != i {
            if j < i {
                assert(id_of(self.listed()[j]) != id_of(self.listed()[i]));
            } else {
                assert(id_of(self.listed()[i]) != id_of(self.listed()[j]));
            }
        }
    }

    /// Configures a discovered provider: the provider reported now and its
    /// configuration take the place of the discovered ones.
    pub fn register(&mut self, provider: P, config: ProviderConfig) -> (r: Result<ProviderId, Error>)
        requires
            old(self).wf(),
        ensures
            governed(old(self).listed()) ==> governed(final(self).listed()),
            final(self).wf(),
            r is Err <==> registration_refused(old(self).listed(), provider, config),
            r is Err ==> final(self).listed() == old(self).listed() && final(self).moves() == old(self).moves(),
            r matches Ok(id) ==> {
                let before = record_for(old(self).listed(), provider.provider_id());
                &&& id.0@ == provider.provider_id()
                &&& replaced(
                    old(self).listed(),
                    final(self).listed(),
                    provider.provider_id(),
                    (ProviderRecord {
                        provider,
                        config,
                        state: ProviderLifecycle::Configured,
                        ..before
                    }),
                )
                &&& final(self).moves().len() == old(self).moves().len() + 1
                &&& final(self).moves().drop_last() == old(self).moves()
                &&& records_move(
                    final(self).moves().last(),
                    provider.provider_id(),
                    provider.provider_kind(),
                    Some(ProviderLifecycle::Discovered),
                    ProviderLifecycle::Configured,
                    None,
                )
            },
    {
        validate_external_default(&provider)?;
        if !config.is_configured() {
            return Err(Error("provider configuration has no usable source".to_string()));
        }
        let id = provider.id();
        let i = match self.position(&id) {
            Some(i) => i,
            None => return Err(Error("provider must be discovered before registration".to_string())),
        };
        proof {
            self.lemma_record_for(i as int);
        }
        let discovered_now = match self.entries[i].record.state {
            ProviderLifecycle::Discovered => true,
            _ => false,
        };
        if !discovered_now {
            return Err(Error("provider can only be configured once".to_string()));
        }
        let kind = provider.kind();
        if self.entries[i].record.provider.kind() != kind {
            return Err(Error("provider kind changed after discovery".to_string()));
        }
        let ghost old_entries = self.entries@;
        let ghost old_moves = self.transitions@;
        let entry = self.entries.remove(i);
        let RegistryEntry { id: key, record } = entry;
        let ghost before = record;
        let changed = ProviderRecord {
            schema_version: record.schema_version,
            provider,
            state: ProviderLifecycle::Configured,
            config,
            grant: record.grant,
            trust_bound_by: record.trust_bound_by,
        };
        let ghost gc = changed;
        self.entries.insert(i, RegistryEntry { id: key, record: changed });
        proof {
            assert(old_entries[i as int].record == before);
            assert(self.entries@ =~= old_entries.update(
                i as int,
                RegistryEntry { id: old_entries[i as int].id, record: gc },
            ));
            lemma_entry_replaced(old_entries, self.entries@, i as int, gc);
            if governed(entries_listed(old_entries)) {
                assert(old_entries[i as int].record == entries_listed(old_entries)[i as int]);
                lemma_governed_kept(entries_listed(old_entries), entries_listed(self.entries@), old_entries[i as int].id.0@, gc);
            }
        }
        let t = ProviderTransition {
            schema_version: SchemaVersion(1),
            provider_id: id.duplicate(),
            kind,
            from: Some(ProviderLifecycle::Discovered),
            to: ProviderLifecycle::Configured,
            by: None,
        };
        self.transitions.push(t);
        proof {
            assert(self.transitions@.drop_last() =~= old_moves);
        }
        Ok(id)
    }


    /// Moves the entry at `i` to the state `set_enabled` gives it; turning a
    /// provider off also drops its grant and its trust binding.
    pub fn set_enabled(&mut self, id: ProviderId, on: bool) -> (r: Result<(), Error>)
        requires
            old(self).wf(),
        ensures
            governed(old(self).listed()) ==> governed(final(self).listed()),
            final(self).wf(),
            r is Err <==> !registered(old(self).listed(), id.0@) || enabled_state(
                record_for(old(self).listed(), id.0@).state,
                on,
            ) is None,
            r is Err ==> final(self).listed() == old(self).listed() && final(self).moves() == old(self).moves(),
            r is Ok ==> {
                let before = record_for(old(self).listed(), id.0@);
                let to = enabled_state(before.state, on)->0;
                &&& replaced(
                    old(self).listed(),
                    final(self).listed(),
                    id.0@,
                    (ProviderRecord {
                        state: to,
                        grant: if on { before.grant } else { None },
                        trust_bound_by: if on { before.trust_bound_by } else { None },
                        ..before
                    }),
                )
                &&& final(self).moves().drop_last() == old(self).moves()
                &&& final(self).moves().len() == old(self).moves().len() + 1
                &&& records_move(
                    final(self).moves().last(),
                    id.0@,
                    before.provider.provider_kind(),
                    Some(before.state),
                    to,
                    None,
                )
            },
    {
        let i = match self.position(&id) {
            Some(i) => i,
            None => return Err(Error("provider is not registered".to_string())),
        };
        proof {
            self.lemma_record_for(i as int);
        }
        let to = if on {
            match self.entries[i].record.state {
                ProviderLifecycle::Configured | ProviderLifecycle::Disabled => ProviderLifecycle::Enabled,
                _ => return Err(Error("provider is not ready to be enabled".to_string())),
            }
        } else {
            match self.entries[i].record.state {
                ProviderLifecycle::Configured | ProviderLifecycle::Enabled | ProviderLifecycle::Trusted(
                    _,
                ) => ProviderLifecycle::Disabled,
                _ => return Err(Error("provider is not active or configured".to_string())),
            }
        };
        let kind = self.entries[i].record.provider.kind();
        let ghost old_entries = self.entries@;
        let ghost old_moves = self.transitions@;
        let entry = self.entries.remove(i);
        let RegistryEntry { id: key, record } = entry;
        let ghost before = record;
        let from = record.state;
        let (grant, trust_bound_by) = if on {
            (record.grant, record.trust_bound_by)
        } else {
            (None, None)
        };
        let changed = ProviderRecord {
            schema_version: record.schema_version,
            provider: record.provider,
            state: to,
            config: record.config,
            grant,
            trust_bound_by,
        };
        let ghost gc = changed;
        self.entries.insert(i, RegistryEntry { id: key, record: changed });
        proof {
            assert(old_entries[i as int].record == before);
            assert(self.entries@ =~= old_entries.update(
                i as int,
                RegistryEntry { id: old_entries[i as int].id, record: gc },
            ));
            lemma_entry_replaced(old_entries, self.entries@, i as int, gc);
            if governed(entries_listed(old_entries)) {
                assert(old_entries[i as int].record == entries_listed(old_entries)[i as int]);
                lemma_governed_kept(entries_listed(old_entries), entries_listed(self.entries@), old_entries[i as int].id.0@, gc);
            }
        }
        self.transitions.push(
            ProviderTransition {
                schema_version: SchemaVersion(1),
                provider_id: id,
                kind,
                from: Some(from),
                to,
                by: None,
            },
        );
        proof {
            assert(self.transitions@.drop_last() =~= old_moves);
        }
        Ok(())
    }

    /// Binds an enabled provider to a trust tier above untrusted, on the
    /// word of `by`.
    pub fn bind_trust(&mut self, id: ProviderId, tier: TrustTier, by: Actor) -> (r: Result<(), Error>)
        requires
            old(self).wf(),
        ensures
            governed(old(self).listed()) ==> governed(final(self).listed()),
            final(self).wf(),
            r is Err <==> tier == TrustTier::Untrusted || !registered(old(self).listed(), id.0@)
                || record_for(old(self).listed(), id.0@).state != ProviderLifecycle::Enabled,
            r is Err ==> final(self).listed() == old(self).listed() && final(self).moves() == old(self).moves(),
            r is Ok ==> {
                let before = record_for(old(self).listed(), id.0@);
                &&& replaced(
                    old(self).listed(),
                    final(self).listed(),
                    id.0@,
                    (ProviderRecord {
                        state: ProviderLifecycle::Trusted(tier),
                        trust_bound_by: Some(by),
                        ..before
                    }),
                )
                &&& final(self).moves().drop_last() == old(self).moves()
                &&& final(self).moves().len() == old(self).moves().len() + 1
                &&& records_move(
                    final(self).moves().last(),
                    id.0@,
                    before.provider.provider_kind(),
                    Some(ProviderLifecycle::Enabled),
                    ProviderLifecycle::Trusted(tier),
                    Some(by),
                )
            },
    {
        if tier == TrustTier::Untrusted {
            return Err(Error("trust binding must raise the provider above untrusted".to_string()));
        }
        let i = match self.position(&id) {
            Some(i) => i,
            None => return Err(Error("provider is not registered".to_string())),
        };
        proof {
            self.lemma_record_for(i as int);
        }
        let enabled = match self.entries[i].record.state {
            ProviderLifecycle::Enabled => true,
            _ => false,
        };
        if !enabled {
            return Err(Error("provider must be enabled before trust is bound".to_string()));
        }
        let kind = self.entries[i].record.provider.kind();
        let ghost old_entries = self.entries@;
        let ghost old_moves = self.transitions@;
        let entry = self.entries.remove(i);
        let RegistryEntry { id: key, record } = entry;
        let ghost before = record;
        let changed = ProviderRecord {
            schema_version: record.schema_version,
            provider: record.provider,
            state: ProviderLifecycle::Trusted(tier),
            config: record.config,
            grant: record.grant,
            trust_bound_by: Some(by.duplicate()),
        };
        let ghost gc = changed;
        self.entries.insert(i, RegistryEntry { id: key, record: changed });
        proof {
            assert(old_entries[i as int].record == before);
            assert(self.entries@ =~= old_entries.update(
                i as int,
                RegistryEntry { id: old_entries[i as int].id, record: gc },
            ));
            lemma_entry_replaced(old_entries, self.entries@, i as int, gc);
            if governed(entries_listed(old_entries)) {
                assert(old_entries[i as int].record == entries_listed(old_entries)[i as int]);
                lemma_governed_kept(entries_listed(old_entries), entries_listed(self.entries@), old_entries[i as int].id.0@, gc);
            }
        }
        self.transitions.push(
            ProviderTransition {
                schema_version: SchemaVersion(1),
                provider_id: id,
                kind,
                from: Some(ProviderLifecycle::Enabled),
                to: ProviderLifecycle::Trusted(tier),
                by: Some(by),
            },
        );
        proof {
            assert(self.transitions@.drop_last() =~= old_moves);
        }
        Ok(())
    }

    /// Grants a trust-bound provider an envelope that covers everything it
    /// declares.
    pub fn grant(&mut self, id: ProviderId, envelope: AutonomyEnvelope) -> (r: Result<(), Error>)
        requires
            old(self).wf(),
        ensures
            governed(old(self).listed()) ==> governed(final(self).listed()),
            final(self).wf(),
            final(self).moves() == old(self).moves(),
            r is Err <==> !envelope_complete(envelope) || !registered(old(self).listed(), id.0@)
                || !trust_bound(record_for(old(self).listed(), id.0@).state) || !declared_within(
                record_for(old(self).listed(), id.0@).provider,
                envelope.capability,
            ),
            r is Err ==> final(self).listed() == old(self).listed(),
            r is Ok ==> replaced(
                old(self).listed(),
                final(self).listed(),
                id.0@,
                (ProviderRecord { grant: Some(envelope), ..record_for(old(self).listed(), id.0@) }),
            ),
    {
        validate_envelope(&envelope)?;
        let i = match self.position(&id) {
            Some(i) => i,
            None => return Err(Error("provider is not registered".to_string())),
        };
        proof {
            self.lemma_record_for(i as int);
        }
        let bound = match self.entries[i].record.state {
            ProviderLifecycle::Trusted(t) => t != TrustTier::Untrusted,
            _ => false,
        };
        if !bound {
            return Err(Error("provider must have an explicit trust binding".to_string()));
        }
        let declared = self.entries[i].record.provider.declared_capabilities();
        proof {
            lemma_declared_within(self.entries@[i as int].record.provider, declared, envelope.capability);
        }
        if !capability_set_within(&declared, &envelope.capability) {
            return Err(Error("provider grant omits a declared capability".to_string()));
        }
        let ghost old_entries = self.entries@;
        let entry = self.entries.remove(i);
        let RegistryEntry { id: key, record } = entry;
        let ghost before = record;
        let changed = ProviderRecord {
            schema_version: record.schema_version,
            provider: record.provider,
            state: record.state,
            config: record.config,
            grant: Some(envelope),
            trust_bound_by: record.trust_bound_by,
        };
        let ghost gc = changed;
        self.entries.insert(i, RegistryEntry { id: key, record: changed });
        proof {
            assert(old_entries[i as int].record == before);
            assert(self.entries@ =~= old_entries.update(
                i as int,
                RegistryEntry { id: old_entries[i as int].id, record: gc },
            ));
            lemma_entry_replaced(old_entries, self.entries@, i as int, gc);
            if governed(entries_listed(old_entries)) {
                assert(old_entries[i as int].record == entries_listed(old_entries)[i as int]);
                lemma_governed_kept(entries_listed(old_entries), entries_listed(self.entries@), old_entries[i as int].id.0@, gc);
            }
        }
        Ok(())
    }

    /// The providers to use for `context`, in the order of their ids.
    pub fn resolve(&self, context: &ResolveContext) -> (r: Vec<&ProviderRecord<P>>)
        requires
            self.wf(),
        ensures
            r@.len() == resolved(self.listed(), *context).len(),
            forall|i: int| 0 <= i < r@.len() ==> *r@[i] == resolved(self.listed(), *context)[i],
    {
        let mut out: Vec<&ProviderRecord<P>> = Vec::new();
        let mut i: usize = 0;
        proof {
            assert(self.listed().take(0) =~= Seq::<ProviderRecord<P>>::empty());
        }
        while i < self.entries.len()
            invariant
                i <= self.entries@.len(),
                self.listed().len() == self.entries@.len(),
                out@.len() == resolved(self.listed().take(i as int), *context).len(),
                forall|j: int| 0 <= j < out@.len() ==> *out@[j] == resolved(self.listed().take(i as int), *context)[j],
            decreases self.entries@.len() - i,
        {
            let record = &self.entries[i].record;
            proof {
                let t = self.listed().take(i + 1);
                assert(t.drop_last() =~= self.listed().take(i as int));
                assert(t.last() == *record);
            }
            let take = match record.state {
                ProviderLifecycle::Trusted(t) => t != TrustTier::Untrusted && check_has_text(
                    &context.policy_allowed_providers,
                    &record.provider.id().0,
                ) && match &record.grant {
                    Some(g) => {
                        let declared = record.provider.declared_capabilities();
                        proof {
                            lemma_declared_within(record.provider, declared, g.capability);
                            lemma_declared_within(record.provider, declared, context.envelope.capability);
                        }
                        envelope_within(g, &context.envelope) && capability_set_within(
                            &declared,
                            &g.capability,
                        ) && capability_set_within(&declared, &context.envelope.capability)
                    },
                    None => false,
                },
                _ => false,
            };
            let ghost before = out@;
            if take {
                out.push(record);
            }
            proof {
                assert(take == resolvable(*record, *context));
                let t = self.listed().take(i + 1);
                if take {
                    assert forall|j: int| 0 <= j < out@.len() implies *out@[j] == resolved(t, *context)[j] by {
                        if j < before.len() {
                            assert(out@[j] == before[j]);
                        }
                    }
                }
            }
            i = i + 1;
        }
        proof {
            assert(self.listed().take(i as int) =~= self.listed());
        }
        out
    }

    /// The providers, in the order of their ids.
    pub fn discover(&self) -> (r: Vec<&P>)
        requires
            self.wf(),
        ensures
            r@.len() == self.listed().len(),
            forall|i: int| 0 <= i < r@.len() ==> *r@[i] == (#[trigger] self.listed()[i]).provider,
    {
        let mut out: Vec<&P> = Vec::new();
        let mut i: usize = 0;
        while i < self.entries.len()
            invariant
                i <= self.entries@.len(),
                out@.len() == i,
                forall|j: int| 0 <= j < i ==> *out@[j] == (#[trigger] self.entries@[j]).record.provider,
            decreases self.entries@.len() - i,
        {
            out.push(&self.entries[i].record.provider);
            i = i + 1;
        }
        out
    }
}

impl<P: ExternalProvider> Default for InMemoryProviderRegistry<P> {
    fn default() -> (r: Self)
        ensures
            r.wf(),
            r.listed() == Seq::<ProviderRecord<P>>::empty(),
            r.moves() == Seq::<ProviderTransition>::empty(),
    {
        Self::new()
    }
}

} // verus!
