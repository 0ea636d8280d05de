//! Workspace charters and data-lifecycle receipts: a versioned charter of
//! goals, constraints and prohibitions, and a redacted record of what a
//! retention, deletion or crypto-shred did.
use vstd::prelude::*;

use crate::canon::{
    canonical_digest, canonical_digest_text, json_int, json_null, json_opt_text, json_string,
    put_key, put_mark, put_null, put_opt_text, put_str, put_texts, put_u64, with_key, with_texts,
    Named,
};
use crate::digest::is_canonical_digest;
use crate::m5::canonical_sha256;
use crate::primitives::{
    Actor, Constraint, DoneContractRef, DurationMs, Error, EvidenceRef, GoalRef, RunId,
    SchemaDigest, SchemaVersion, Scope, WorkspaceRef,
};
use crate::text::{
    ascii_lower, blank, check_none_blank, contains_text, has_char, is_blank, lowered_contains,
    lowered_occurs_at, none_blank, occurs_at, same_text, Duplicate, Textual,
};

verus! {

pub open spec fn v1_closure_schema_version() -> SchemaVersion {
    SchemaVersion(1)
}

/// The schema version of charters and lifecycle receipts.
pub fn v1_closure_schema() -> (r: SchemaVersion)
    ensures
        r == v1_closure_schema_version(),
{
    SchemaVersion(1)
}

/// A reference that can be shown and stored freely: not blank, with no
/// secret, credential, key or endpoint marker in any letter case, no `file:`
/// or `://` address, and no absolute or Windows path.
pub open spec fn safe_reference(v: Seq<char>) -> bool {
    let l = ascii_lower(v);
    &&& !is_blank(v)
    &&& !contains_text(l, "secret"@)
    &&& !contains_text(l, "credential"@)
    &&& !contains_text(l, "password"@)
    &&& !contains_text(l, "api_key"@)
    &&& !contains_text(l, "apikey"@)
    &&& !contains_text(l, "key_id"@)
    &&& !contains_text(l, "keyid"@)
    &&& !contains_text(l, "private_key"@)
    &&& !contains_text(l, "endpoint"@)
    &&& !occurs_at(l, "file:"@, 0)
    &&& !contains_text(l, "://"@)
    &&& !(v.len() > 0 && v[0] == '/')
    &&& !(exists|i: int| 0 <= i < v.len() && #[trigger] v[i] == '\\')
}

/// Checks that `value` is a safe reference; see `safe_reference`.
pub fn validate_safe_reference(value: &str) -> (r: Result<(), Error>)
    ensures
        r is Ok <==> safe_reference(value@),
{
    if blank(value) {
        return Err(Error("reference is incomplete".to_string()));
    }
    let marked = lowered_contains(value, "secret") || lowered_contains(value, "credential")
        || lowered_contains(value, "password") || lowered_contains(value, "api_key")
        || lowered_contains(value, "apikey") || lowered_contains(value, "key_id")
        || lowered_contains(value, "keyid") || lowered_contains(value, "private_key")
        || lowered_contains(value, "endpoint") || lowered_occurs_at(value, "file:", 0)
        || lowered_contains(value, "://");
    let rooted = value.unicode_len() > 0 && value.get_char(0) == '/';
    if marked || rooted || has_char(value, '\\') {
        return Err(Error("reference contains a secret, endpoint, or private-path marker".to_string()));
    }
    Ok(())
}

#[derive(Debug, Clone, PartialEq, Eq, Hash)]
pub struct OwnerPrincipalRef(pub String);

impl OwnerPrincipalRef {
    pub open spec fn valid(&self) -> bool {
        !is_blank(self.0@)
    }

    pub fn validate(&self) -> (r: Result<(), Error>)
        ensures
            r is Ok <==> self.valid(),
    {
        if blank(self.0.as_str()) {
            return Err(Error("owner principal is incomplete".to_string()));
        }
        Ok(())
    }
}

#[derive(Debug, Clone, PartialEq, Eq, Hash)]
pub struct ProjectionRef(pub String);

impl ProjectionRef {
    pub open spec fn valid(&self) -> bool {
        safe_reference(self.0@)
    }

    pub fn validate(&self) -> (r: Result<(), Error>)
        ensures
            r is Ok <==> self.valid(),
    {
        validate_safe_reference(self.0.as_str())
    }
}

impl Textual for ProjectionRef {
    open spec fn text(&self) -> Seq<char> {
        self.0@
    }

    fn as_text(&self) -> (r: &String) {
        &self.0
    }
}

#[derive(Debug, Clone, PartialEq, Eq)]
pub struct WorkspaceCharterRecord {
    pub schema_version: SchemaVersion,
    pub workspace: WorkspaceRef,
    pub version: u64,
    pub goals: Vec<GoalRef>,
    pub constraints: Vec<Constraint>,
    pub prohibitions: Vec<Constraint>,
    pub done_contract: Option<DoneContractRef>,
    pub review_cadence: Option<DurationMs>,
    pub actor: Actor,
    pub digest: SchemaDigest,
}

impl WorkspaceCharterRecord {
    /// The canonical form with the digest cleared.
    pub open spec fn material(&self) -> Seq<u8> {
        let a = with_key(seq![0x7bu8], "schema_version"@) + json_int(self.schema_version.0 as int);
        let a = with_key(a + seq![0x2cu8], "workspace"@) + json_string(self.workspace.0@);
        let a = with_key(a + seq![0x2cu8], "version"@) + json_int(self.version as int);
        let a = with_texts(with_key(a + seq![0x2cu8], "goals"@), self.goals@);
        let a = with_texts(with_key(a + seq![0x2cu8], "constraints"@), self.constraints@);
        let a = with_texts(with_key(a + seq![0x2cu8], "prohibitions"@), self.prohibitions@);
        let a = with_key(a + seq![0x2cu8], "done_contract"@) + json_opt_text(
            match self.done_contract {
                Some(d) => Some(d.0@),
                None => None,
            },
        );
        let a = with_key(a + seq![0x2cu8], "review_cadence"@) + match self.review_cadence {
            Some(c) => json_int(c.0 as int),
            None => json_null(),
        };
        let a = self.actor.put_canonical(with_key(a + seq![0x2cu8], "actor"@));
        let a = with_key(a + seq![0x2cu8], "digest"@) + json_string(""@);
        a + seq![0x7du8]
    }

    pub fn encode_material(&self) -> (r: Vec<u8>)
        ensures
            r@ == self.material(),
    {
        let mut buf: Vec<u8> = Vec::new();
        put_mark(&mut buf, 0x7b);
        put_key(&mut buf, "schema_version");
        put_u64(&mut buf, self.schema_version.0 as u64);
        put_mark(&mut buf, 0x2c);
        put_key(&mut buf, "workspace");
        put_str(&mut buf, self.workspace.0.as_str());
        put_mark(&mut buf, 0x2c);
        put_key(&mut buf, "version");
        put_u64(&mut buf, self.version);
        put_mark(&mut buf, 0x2c);
        put_key(&mut buf, "goals");
        put_texts(&mut buf, &self.goals);
        put_mark(&mut buf, 0x2c);
        put_key(&mut buf, "constraints");
        put_texts(&mut buf, &self.constraints);
        put_mark(&mut buf, 0x2c);
        put_key(&mut buf, "prohibitions");
        put_texts(&mut buf, &self.prohibitions);
        put_mark(&mut buf, 0x2c);
        put_key(&mut buf, "done_contract");
        put_opt_text(
            &mut buf,
            match &self.done_contract {
                Some(d) => Some(&d.0),
                None => None,
            },
        );
        put_mark(&mut buf, 0x2c);
        put_key(&mut buf, "review_cadence");
        match self.review_cadence {
            Some(c) => put_u64(&mut buf, c.0),
            None => put_null(&mut buf),
        }
        put_mark(&mut buf, 0x2c);
        put_key(&mut buf, "actor");
        self.actor.write_canonical(&mut buf);
        put_mark(&mut buf, 0x2c);
        put_key(&mut buf, "digest");
        put_str(&mut buf, "");
        put_mark(&mut buf, 0x7d);
        assert(buf@ =~= self.material());
        buf
    }

    /// A charter the owner wrote: versioned, naming its workspace, with
    /// filled goals, constraints and prohibitions, a filled done contract if
    /// any, and a non-zero review cadence if any.
    pub open spec fn fields_valid(&self) -> bool {
        &&& self.schema_version.0 != 0
        &&& self.version != 0
        &&& !is_blank(self.workspace.0@)
        &&& none_blank(self.goals@)
        &&& none_blank(self.constraints@)
        &&& none_blank(self.prohibitions@)
        &&& self.done_contract matches Some(d) ==> !is_blank(d.0@)
        &&& self.review_cadence matches Some(c) ==> c.0 != 0
        &&& self.actor is Owner
    }

    pub open spec fn valid(&self) -> bool {
        &&& self.fields_valid()
        &&& is_canonical_digest(self.digest.0@)
        &&& self.digest.0@ == canonical_digest_text(self.material())
    }

    pub fn validate(&self) -> (r: Result<(), Error>)
        ensures
            r is Ok <==> self.valid(),
    {
        if self.schema_version.0 == 0 || self.version == 0 {
            return Err(Error("workspace charter schema or version is invalid".to_string()));
        }
        if blank(self.workspace.0.as_str()) {
            return Err(Error("workspace charter workspace is incomplete".to_string()));
        }
        if !check_none_blank(&self.goals) || !check_none_blank(&self.constraints)
            || !check_none_blank(&self.prohibitions) {
            return Err(Error("workspace charter entry is incomplete".to_string()));
        }
        if let Some(done_contract) = &self.done_contract {
            if blank(done_contract.0.as_str()) {
                return Err(Error("workspace charter done contract is incomplete".to_string()));
            }
        }
        if let Some(cadence) = self.review_cadence {
            if cadence.0 == 0 {
                return Err(Error("workspace charter review cadence must be non-zero".to_string()));
            }
        }
        match self.actor {
            Actor::Owner => {},
            _ => {
                return Err(Error("workspace charter actor must be the owner".to_string()));
            },
        }
        if !canonical_sha256(&self.digest) {
            return Err(Error("workspace charter digest is not a canonical sha256 digest".to_string()));
        }
        let expected = self.expected_digest()?;
        if !same_text(&self.digest.0, &expected.0) {
            return Err(Error("workspace charter digest does not match its contents".to_string()));
        }
        Ok(())
    }

    /// The digest of the charter's contents, its own digest left out.
    pub fn expected_digest(&self) -> (r: Result<SchemaDigest, Error>)
        ensures
            r is Ok,
            r matches Ok(d) ==> d.0@ == canonical_digest_text(self.material()) && is_canonical_digest(d.0@),
    {
        let material = self.encode_material();
        Ok(canonical_digest(&material))
    }

    /// Sets the digest to that of the charter's contents, which are unchanged.
    pub fn refresh_digest(&mut self) -> (r: Result<(), Error>)
        ensures
            r is Ok,
            final(self).material() == old(self).material(),
            final(self).fields_valid() == old(self).fields_valid(),
            final(self).digest.0@ == canonical_digest_text(old(self).material()),
            final(self).valid() == old(self).fields_valid(),
    {
        self.digest = self.expected_digest()?;
        Ok(())
    }
}

#[derive(Debug, Clone, Copy, PartialEq, Eq, Hash, Structural)]
pub enum DataLifecycleOperation {
    Retain,
    Delete,
    CryptoShred,
}

#[derive(Debug, Clone, Copy, PartialEq, Eq, Hash, Structural)]
pub enum RemoteDeletionDisposition {
    NotApplicable,
    Requested,
    Verified,
    Unknown,
}

#[derive(Debug, Clone, PartialEq, Eq)]
pub struct DataLifecycleReceipt {
    pub schema_version: SchemaVersion,
    pub aggregate: RunId,
    pub operation: DataLifecycleOperation,
    pub scope: Scope,
    pub subject_digest: SchemaDigest,
    pub cleaned_projections: Vec<ProjectionRef>,
    pub destroyed_key_digests: Vec<SchemaDigest>,
    pub remote_disposition: RemoteDeletionDisposition,
    pub evidence: Vec<EvidenceRef>,
}

impl DataLifecycleReceipt {
    /// A receipt with safe aggregate, scope and projections, canonical
    /// digests, filled evidence, and, for a crypto-shred, at least one
    /// destroyed key digest.
    pub open spec fn valid(&self) -> bool {
        &&& self.schema_version.0 != 0
        &&& safe_reference(self.aggregate.0@)
        &&& safe_reference(self.scope.0@)
        &&& is_canonical_digest(self.subject_digest.0@)
        &&& forall|i: int| 0 <= i < self.cleaned_projections@.len() ==> (#[trigger] self.cleaned_projections@[i]).valid()
        &&& forall|i: int|
            0 <= i < self.destroyed_key_digests@.len() ==> is_canonical_digest(
                #[trigger] self.destroyed_key_digests@[i].0@,
            )
        &&& none_blank(self.evidence@)
        &&& self.operation == DataLifecycleOperation::CryptoShred ==> self.destroyed_key_digests@.len() > 0
    }

    pub fn validate(&self) -> (r: Result<(), Error>)
        ensures
            r is Ok <==> self.valid(),
    {
        if self.schema_version.0 == 0 {
            return Err(Error("data lifecycle receipt schema is invalid".to_string()));
        }
        validate_safe_reference(self.aggregate.0.as_str())?;
        validate_safe_reference(self.scope.0.as_str())?;
        if !canonical_sha256(&self.subject_digest) {
            return Err(Error("data lifecycle subject digest is not a canonical sha256 digest".to_string()));
        }
        let mut i: usize = 0;
        while i < self.cleaned_projections.len()
            invariant
                i <= self.cleaned_projections@.len(),
                forall|j: int| 0 <= j < i ==> (#[trigger] self.cleaned_projections@[j]).valid(),
            decreases self.cleaned_projections.len() - i,
        {
            self.cleaned_projections[i].validate()?;
            i = i + 1;
        }
        let mut k: usize = 0;
        while k < self.destroyed_key_digests.len()
            invariant
                k <= self.destroyed_key_digests@.len(),
                forall|j: int|
                    0 <= j < k ==> is_canonical_digest(#[trigger] self.destroyed_key_digests@[j].0@),
            decreases self.destroyed_key_digests.len() - k,
        {
            if !canonical_sha256(&self.destroyed_key_digests[k]) {
                return Err(Error("data lifecycle destroyed key digest is not a canonical sha256 digest".to_string()));
            }
            k = k + 1;
        }
        if !check_none_blank(&self.evidence) {
            return Err(Error("data lifecycle evidence is incomplete".to_string()));
        }
        if self.operation == DataLifecycleOperation::CryptoShred && self.destroyed_key_digests.len() == 0 {
            return Err(Error("crypto-shred receipt must name destroyed key digests".to_string()));
        }
        Ok(())
    }
}

/// `committed` is exactly one past `expected`.
pub open spec fn version_step(expected: u64, committed: u64) -> bool {
    committed == expected + 1
}

/// Checks that a commit moved a version exactly one step on; the last
/// representable version has no step.
pub fn validate_version_step(expected: u64, committed: u64) -> (r: Result<(), Error>)
    ensures
        r is Ok <==> version_step(expected, committed),
{
    let next = match expected.checked_add(1) {
        Some(n) => n,
        None => {
            return Err(Error("expected version is exhausted".to_string()));
        },
    };
    if committed != next {
        return Err(Error("committed version must be exactly expected version plus one".to_string()));
    }
    Ok(())
}

#[derive(Debug, Clone, PartialEq, Eq)]
pub struct WorkspaceCharterChangedPayload {
    pub charter: WorkspaceCharterRecord,
    pub expected_version: u64,
    pub committed_version: u64,
}

impl WorkspaceCharterChangedPayload {
    /// A valid charter committed one version after the expected one, at the
    /// version the charter itself carries.
    pub open spec fn valid(&self) -> bool {
        &&& self.charter.valid()
        &&& version_step(self.expected_version, self.committed_version)
        &&& self.charter.version == self.committed_version
    }

    pub fn validate(&self) -> (r: Result<(), Error>)
        ensures
            r is Ok <==> self.valid(),
    {
        self.charter.validate()?;
        validate_version_step(self.expected_version, self.committed_version)?;
        if self.charter.version != self.committed_version {
            return Err(Error("workspace charter committed version disagrees with record".to_string()));
        }
        Ok(())
    }
}

#[derive(Debug, Clone, PartialEq, Eq)]
pub struct DataLifecycleAppliedPayload {
    pub receipt: DataLifecycleReceipt,
    pub expected_version: u64,
    pub committed_version: u64,
}

impl DataLifecycleAppliedPayload {
    pub open spec fn valid(&self) -> bool {
        &&& self.receipt.valid()
        &&& version_step(self.expected_version, self.committed_version)
    }

    pub fn validate(&self) -> (r: Result<(), Error>)
        ensures
            r is Ok <==> self.valid(),
    {
        self.receipt.validate()?;
        validate_version_step(self.expected_version, self.committed_version)
    }
}

} // verus!
