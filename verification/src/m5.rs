//! Governed capability ecosystem: publisher grants, signed capability
//! packages, admission, install plans, lifecycle changes, distribution to
//! executors, and the ecosystem snapshot.
use vstd::prelude::*;

use crate::canon::{
    canonical_digest, canonical_digest_text, json_bool, json_int, json_string, put_bool, put_i64, put_key, put_mark, put_names, put_str,
    put_texts, put_u64, with_key, with_names, with_texts, Named,
};
use crate::digest::{content_digest_text, is_canonical_digest, is_hex_char};
use crate::primitives::{
    ApprovalId, AuthorityEpoch, CapabilityAdmissionRef, CapabilityDistributionReceiptRef,
    CapabilityInstallPlanRef, CapabilityPackageRef, CapabilityPolicyRef,
    CapabilityPublisherGrantRef, CapabilityPublisherRef, CapabilityRef, CapabilityReleaseRef, Error,
    EvidenceRef, FederatedPeerGrantRef, FederatedPeerRef, Nonce, PermissionRef, PlanDigest,
    ReasonRef, RemoteExecutionLeaseRef, RequiredTrue, Risk, RollbackBoundary, SchemaDigest,
    SchemaVersion, Scope, Timestamp, VerifiedPrincipal, Version,
};
use crate::tags::{check_tags_increasing, tags_increasing, Tagged};
use crate::text::{
    ascii_lower, blank, check_covers, check_distinct_texts, check_strictly_sorted,
    covers, distinct_texts, is_blank, lemma_bytes_lt_transitive, lemma_text_lt_asymmetric, lemma_text_lt_irreflexive, lemma_text_trichotomy,
    same_ascii_lower, same_text, strictly_sorted, text_less, text_lt, utf8_of, Duplicate, Textual,
};

pub use crate::digest::{sha256_content_digest, sha256_digest_bytes};

verus! {

pub open spec fn m5_schema_version() -> SchemaVersion {
    SchemaVersion(1)
}

/// The schema version of the capability ecosystem's objects.
pub fn m5_schema() -> (r: SchemaVersion)
    ensures
        r == m5_schema_version(),
{
    SchemaVersion(1)
}

/// A digest the ecosystem accepts: `sha256:` and 64 hexadecimal digits.
pub fn canonical_sha256(digest: &SchemaDigest) -> (r: bool)
    ensures
        r == is_canonical_digest(digest.0@),
{
    sha256_digest_bytes(digest).is_ok()
}

/// `granted` covers `requested`: it is the wildcard `*`, the same scope, or
/// a prefix of it that ends where `requested` goes on with `:` or `/`.
pub open spec fn scope_covers(granted: Seq<char>, requested: Seq<char>) -> bool {
    ||| granted == "*"@
    ||| granted == requested
    ||| {
        &&& granted.len() < requested.len()
        &&& requested.subrange(0, granted.len() as int) == granted
        &&& (requested[granted.len() as int] == ':' || requested[granted.len() as int] == '/')
    }
}

fn is_wildcard(s: &str) -> (r: bool)
    ensures
        r == (s@ == "*"@),
{
    proof {
        reveal_strlit("*");
    }
    if s.unicode_len() != 1 {
        return false;
    }
    let c = s.get_char(0);
    proof {
        if c == '*' {
            assert(s@ =~= "*"@);
        }
    }
    c == '*'
}

/// Whether a grant for scope `granted` reaches scope `requested`.
pub fn scope_contains(granted: &Scope, requested: &Scope) -> (r: bool)
    ensures
        r == scope_covers(granted.0@, requested.0@),
{
    if is_wildcard(granted.0.as_str()) || same_text(&granted.0, &requested.0) {
        return true;
    }
    let g = granted.0.as_str();
    let q = requested.0.as_str();
    let n = g.unicode_len();
    let m = q.unicode_len();
    if n >= m {
        return false;
    }
    let mut i: usize = 0;
    while i < n
        invariant
            n == g@.len(),
            m == q@.len(),
            n < m,
            i <= n,
            g@ == granted.0@,
            q@ == requested.0@,
            granted.0@ != "*"@,
            granted.0@ != requested.0@,
            forall|j: int| 0 <= j < i ==> q@[j] == g@[j],
        decreases n - i,
    {
        if q.get_char(i) != g.get_char(i) {
            proof {
                assert(q@.subrange(0, n as int)[i as int] == q@[i as int]);
                assert(q@.subrange(0, n as int) != g@);
            }
            return false;
        }
        i = i + 1;
    }
    assert(q@.subrange(0, n as int) =~= g@);
    let c = q.get_char(n);
    c == ':' || c == '/'
}

/// Scope coverage is transitive: a grant that covers a scope covers every
/// scope that one covers.
pub proof fn lemma_scope_covers_transitive(a: Seq<char>, b: Seq<char>, c: Seq<char>)
    requires
        scope_covers(a, b),
        scope_covers(b, c),
    ensures
        scope_covers(a, c),
{
    reveal_strlit("*");
    if a == "*"@ || a == b || b == c {
    } else if b == "*"@ {
        assert(b.subrange(0, a.len() as int) == a);
        assert(a.len() == 0);
        assert(b[0] == '*');
    } else {
        assert(c.subrange(0, b.len() as int) == b);
        assert(c.subrange(0, a.len() as int) =~= b.subrange(0, a.len() as int));
        assert(c[a.len() as int] == c.subrange(0, b.len() as int)[a.len() as int]);
    }
}

/// Every scope covers itself, and the wildcard covers every scope.
pub proof fn lemma_scope_covers_reflexive(a: Seq<char>, b: Seq<char>)
    ensures
        scope_covers(a, a),
        scope_covers("*"@, b),
{
}

/// Position `s` starts a `/`-separated segment of `p`.
pub open spec fn segment_start(p: Seq<char>, s: int) -> bool {
    s == 0 || (0 < s <= p.len() && p[s - 1] == '/')
}

/// The segment starting at `s` is empty, `.` or `..`.
pub open spec fn bad_segment_at(p: Seq<char>, s: int) -> bool {
    ||| s == p.len()
    ||| p[s] == '/'
    ||| (p[s] == '.' && (s + 1 == p.len() || p[s + 1] == '/'))
    ||| (s + 1 < p.len() && p[s] == '.' && p[s + 1] == '.' && (s + 2 == p.len() || p[s + 2]
        == '/'))
}

/// A relative, normalized package path: not blank, no backslash or colon,
/// not rooted, and every `/`-separated segment is a real name (not empty,
/// `.` or `..`).
pub open spec fn normalized_resource_path(p: Seq<char>) -> bool {
    &&& !is_blank(p)
    &&& forall|i: int| 0 <= i < p.len() ==> #[trigger] p[i] != '\\' && p[i] != ':'
    &&& p[0] != '/'
    &&& forall|s: int| 0 <= s <= p.len() && #[trigger] segment_start(p, s) ==> !bad_segment_at(p, s)
}

fn check_bad_segment_at(p: &str, s: usize) -> (r: bool)
    requires
        s <= p@.len(),
    ensures
        r == bad_segment_at(p@, s as int),
{
    let n = p.unicode_len();
    if s == n {
        return true;
    }
    let c = p.get_char(s);
    if c == '/' {
        return true;
    }
    if c == '.' {
        if s + 1 == n || p.get_char(s + 1) == '/' {
            return true;
        }
        if s + 1 < n && p.get_char(s + 1) == '.' && (s + 2 == n || p.get_char(s + 2) == '/') {
            return true;
        }
    }
    false
}

/// The canonical form of a package resource path, which is the path itself
/// when it is relative and normalized.
pub fn normalize_resource_path(path: &str) -> (r: Result<String, Error>)
    ensures
        r is Ok <==> normalized_resource_path(path@),
        r matches Ok(p) ==> p@ == path@,
{
    if blank(path) {
        return Err(Error("package resource path is incomplete".to_string()));
    }
    let n = path.unicode_len();
    let mut i: usize = 0;
    while i < n
        invariant
            n == path@.len(),
            i <= n,
            forall|j: int| 0 <= j < i ==> #[trigger] path@[j] != '\\' && path@[j] != ':',
        decreases n - i,
    {
        let c = path.get_char(i);
        if c == '\\' || c == ':' {
            return Err(Error("package resource path is not relative".to_string()));
        }
        i = i + 1;
    }
    if path.get_char(0) == '/' {
        return Err(Error("package resource path is not relative".to_string()));
    }
    let mut s: usize = 0;
    while s < n
        invariant
            n == path@.len(),
            n > 0,
            s <= n,
            forall|t: int|
                0 <= t < s && #[trigger] segment_start(path@, t) ==> !bad_segment_at(path@, t),
        decreases n - s,
    {
        let starts = s == 0 || path.get_char(s - 1) == '/';
        if starts && check_bad_segment_at(path, s) {
            proof {
                assert(segment_start(path@, s as int));
            }
            return Err(Error("package resource path escapes or is not normalized".to_string()));
        }
        s = s + 1;
    }
    if path.get_char(n - 1) == '/' {
        proof {
            assert(segment_start(path@, n as int));
            assert(bad_segment_at(path@, n as int));
        }
        return Err(Error("package resource path escapes or is not normalized".to_string()));
    }
    proof {
        assert forall|t: int| 0 <= t <= path@.len() && #[trigger] segment_start(path@, t) implies !bad_segment_at(path@, t) by {
            if t == n {
                assert(path@[t - 1] != '/');
            }
        }
    }
    let r = path.to_string();
    proof {
        broadcast use vstd::string::group_string_axioms;

    }
    Ok(r)
}

#[derive(Debug, Clone, PartialEq, Eq, Hash, PartialOrd, Ord)]
pub struct PackageSignature(pub String);

pub open spec fn ed25519_prefix() -> Seq<char> {
    seq!['e', 'd', '2', '5', '5', '1', '9', ':']
}

/// `ed25519:` followed by 128 hexadecimal digits.
pub open spec fn is_package_signature(t: Seq<char>) -> bool {
    &&& t.len() == 136
    &&& t.subrange(0, 8) == ed25519_prefix()
    &&& forall|i: int| 8 <= i < 136 ==> is_hex_char(#[trigger] t[i])
}

fn hex_char(c: char) -> (r: bool)
    ensures
        r == is_hex_char(c),
{
    ('0' <= c && c <= '9') || ('a' <= c && c <= 'f') || ('A' <= c && c <= 'F')
}

impl PackageSignature {
    pub open spec fn valid(&self) -> bool {
        is_package_signature(self.0@)
    }

    pub fn validate(&self) -> (r: Result<(), Error>)
        ensures
            r is Ok <==> self.valid(),
    {
        let t = self.0.as_str();
        let n = t.unicode_len();
        if n < 8 || t.get_char(0) != 'e' || t.get_char(1) != 'd' || t.get_char(2) != '2'
            || t.get_char(3) != '5' || t.get_char(4) != '5' || t.get_char(5) != '1' || t.get_char(
            6,
        ) != '9' || t.get_char(7) != ':' {
            proof {
                if n >= 8 && t@.subrange(0, 8) == ed25519_prefix() {
                    assert(t@[0] == t@.subrange(0, 8)[0]);
                    assert(t@[1] == t@.subrange(0, 8)[1]);
                    assert(t@[2] == t@.subrange(0, 8)[2]);
                    assert(t@[3] == t@.subrange(0, 8)[3]);
                    assert(t@[4] == t@.subrange(0, 8)[4]);
                    assert(t@[5] == t@.subrange(0, 8)[5]);
                    assert(t@[6] == t@.subrange(0, 8)[6]);
                    assert(t@[7] == t@.subrange(0, 8)[7]);
                }
            }
            return Err(Error("package signature is not ed25519-prefixed".to_string()));
        }
        proof {
            assert(t@.subrange(0, 8) =~= ed25519_prefix());
        }
        if n != 136 {
            return Err(Error("package signature is malformed".to_string()));
        }
        let mut i: usize = 8;
        while i < 136
            invariant
                n == 136,
                n == t@.len(),
                t@ == self.0@,
                8 <= i <= 136,
                forall|j: int| 8 <= j < i ==> is_hex_char(#[trigger] t@[j]),
            decreases 136 - i,
        {
            if !hex_char(t.get_char(i)) {
                return Err(Error("package signature is malformed".to_string()));
            }
            i = i + 1;
        }
        Ok(())
    }
}

impl Textual for PackageSignature {
    open spec fn text(&self) -> Seq<char> {
        self.0@
    }

    fn as_text(&self) -> (r: &String) {
        &self.0
    }
}

impl Duplicate for PackageSignature {
    fn duplicate(&self) -> (r: Self) {
        PackageSignature(self.0.clone())
    }
}

#[derive(Debug, Clone, Copy, PartialEq, Eq, Hash, PartialOrd, Ord, Structural)]
pub enum CapabilityPackageKind {
    Connector,
    Plugin,
    Skill,
    McpServer,
    AgentProfile,
}

impl Named for CapabilityPackageKind {
    open spec fn wire_name(&self) -> Seq<char> {
        match self {
            CapabilityPackageKind::Connector => "Connector"@,
            CapabilityPackageKind::Plugin => "Plugin"@,
            CapabilityPackageKind::Skill => "Skill"@,
            CapabilityPackageKind::McpServer => "McpServer"@,
            CapabilityPackageKind::AgentProfile => "AgentProfile"@,
        }
    }

    fn wire_str(&self) -> (r: &'static str) {
        match self {
            CapabilityPackageKind::Connector => "Connector",
            CapabilityPackageKind::Plugin => "Plugin",
            CapabilityPackageKind::Skill => "Skill",
            CapabilityPackageKind::McpServer => "McpServer",
            CapabilityPackageKind::AgentProfile => "AgentProfile",
        }
    }
}

impl Tagged for CapabilityPackageKind {
    open spec fn tag(&self) -> nat {
        match self {
            CapabilityPackageKind::Connector => 0,
            CapabilityPackageKind::Plugin => 1,
            CapabilityPackageKind::Skill => 2,
            CapabilityPackageKind::McpServer => 3,
            CapabilityPackageKind::AgentProfile => 4,
        }
    }

    fn tag_of(&self) -> (r: u8) {
        match self {
            CapabilityPackageKind::Connector => 0,
            CapabilityPackageKind::Plugin => 1,
            CapabilityPackageKind::Skill => 2,
            CapabilityPackageKind::McpServer => 3,
            CapabilityPackageKind::AgentProfile => 4,
        }
    }
}

#[derive(Debug, Clone, Copy, PartialEq, Eq, Hash, PartialOrd, Ord, Structural)]
pub enum CapabilityPublisherStatus {
    Active,
    Revoked,
}

impl Named for CapabilityPublisherStatus {
    open spec fn wire_name(&self) -> Seq<char> {
        match self {
            CapabilityPublisherStatus::Active => "Active"@,
            CapabilityPublisherStatus::Revoked => "Revoked"@,
        }
    }

    fn wire_str(&self) -> (r: &'static str) {
        match self {
            CapabilityPublisherStatus::Active => "Active",
            CapabilityPublisherStatus::Revoked => "Revoked",
        }
    }
}

#[derive(Debug, Clone, Copy, PartialEq, Eq, Hash, PartialOrd, Ord, Structural)]
pub enum CapabilityLifecycleState {
    Quarantined,
    Admitted,
    Installed,
    Enabled,
    Disabled,
    Revoked,
}

impl Named for CapabilityLifecycleState {
    open spec fn wire_name(&self) -> Seq<char> {
        match self {
            CapabilityLifecycleState::Quarantined => "Quarantined"@,
            CapabilityLifecycleState::Admitted => "Admitted"@,
            CapabilityLifecycleState::Installed => "Installed"@,
            CapabilityLifecycleState::Enabled => "Enabled"@,
            CapabilityLifecycleState::Disabled => "Disabled"@,
            CapabilityLifecycleState::Revoked => "Revoked"@,
        }
    }

    fn wire_str(&self) -> (r: &'static str) {
        match self {
            CapabilityLifecycleState::Quarantined => "Quarantined",
            CapabilityLifecycleState::Admitted => "Admitted",
            CapabilityLifecycleState::Installed => "Installed",
            CapabilityLifecycleState::Enabled => "Enabled",
            CapabilityLifecycleState::Disabled => "Disabled",
            CapabilityLifecycleState::Revoked => "Revoked",
        }
    }
}

#[derive(Debug, Clone, Copy, PartialEq, Eq, Hash, PartialOrd, Ord, Structural)]
pub enum CapabilityPackageOperation {
    Install,
    Enable,
    Disable,
    Update,
    Rollback,
    Revoke,
    Distribute,
}

impl Named for CapabilityPackageOperation {
    open spec fn wire_name(&self) -> Seq<char> {
        match self {
            CapabilityPackageOperation::Install => "Install"@,
            CapabilityPackageOperation::Enable => "Enable"@,
            CapabilityPackageOperation::Disable => "Disable"@,
            CapabilityPackageOperation::Update => "Update"@,
            CapabilityPackageOperation::Rollback => "Rollback"@,
            CapabilityPackageOperation::Revoke => "Revoke"@,
            CapabilityPackageOperation::Distribute => "Distribute"@,
        }
    }

    fn wire_str(&self) -> (r: &'static str) {
        match self {
            CapabilityPackageOperation::Install => "Install",
            CapabilityPackageOperation::Enable => "Enable",
            CapabilityPackageOperation::Disable => "Disable",
            CapabilityPackageOperation::Update => "Update",
            CapabilityPackageOperation::Rollback => "Rollback",
            CapabilityPackageOperation::Revoke => "Revoke",
            CapabilityPackageOperation::Distribute => "Distribute",
        }
    }
}

#[derive(Debug, Clone, Copy, PartialEq, Eq, Hash, PartialOrd, Ord, Structural)]
pub enum CapabilityAdmissionVerdict {
    Pass,
    Fail,
    Unverifiable,
}

impl Named for CapabilityAdmissionVerdict {
    open spec fn wire_name(&self) -> Seq<char> {
        match self {
            CapabilityAdmissionVerdict::Pass => "Pass"@,
            CapabilityAdmissionVerdict::Fail => "Fail"@,
            CapabilityAdmissionVerdict::Unverifiable => "Unverifiable"@,
        }
    }

    fn wire_str(&self) -> (r: &'static str) {
        match self {
            CapabilityAdmissionVerdict::Pass => "Pass",
            CapabilityAdmissionVerdict::Fail => "Fail",
            CapabilityAdmissionVerdict::Unverifiable => "Unverifiable",
        }
    }
}

#[derive(Debug, Clone, Copy, PartialEq, Eq, Hash, PartialOrd, Ord, Structural)]
pub enum CapabilityAdmissionCheckKind {
    Schema,
    Size,
    ClosedSet,
    Path,
    Digest,
    Publisher,
    Signature,
    Dependency,
    Sbom,
    License,
    Secret,
    Risk,
    Policy,
}

impl Named for CapabilityAdmissionCheckKind {
    open spec fn wire_name(&self) -> Seq<char> {
        match self {
            CapabilityAdmissionCheckKind::Schema => "Schema"@,
            CapabilityAdmissionCheckKind::Size => "Size"@,
            CapabilityAdmissionCheckKind::ClosedSet => "ClosedSet"@,
            CapabilityAdmissionCheckKind::Path => "Path"@,
            CapabilityAdmissionCheckKind::Digest => "Digest"@,
            CapabilityAdmissionCheckKind::Publisher => "Publisher"@,
            CapabilityAdmissionCheckKind::Signature => "Signature"@,
            CapabilityAdmissionCheckKind::Dependency => "Dependency"@,
            CapabilityAdmissionCheckKind::Sbom => "Sbom"@,
            CapabilityAdmissionCheckKind::License => "License"@,
            CapabilityAdmissionCheckKind::Secret => "Secret"@,
            CapabilityAdmissionCheckKind::Risk => "Risk"@,
            CapabilityAdmissionCheckKind::Policy => "Policy"@,
        }
    }

    fn wire_str(&self) -> (r: &'static str) {
        match self {
            CapabilityAdmissionCheckKind::Schema => "Schema",
            CapabilityAdmissionCheckKind::Size => "Size",
            CapabilityAdmissionCheckKind::ClosedSet => "ClosedSet",
            CapabilityAdmissionCheckKind::Path => "Path",
            CapabilityAdmissionCheckKind::Digest => "Digest",
            CapabilityAdmissionCheckKind::Publisher => "Publisher",
            CapabilityAdmissionCheckKind::Signature => "Signature",
            CapabilityAdmissionCheckKind::Dependency => "Dependency",
            CapabilityAdmissionCheckKind::Sbom => "Sbom",
            CapabilityAdmissionCheckKind::License => "License",
            CapabilityAdmissionCheckKind::Secret => "Secret",
            CapabilityAdmissionCheckKind::Risk => "Risk",
            CapabilityAdmissionCheckKind::Policy => "Policy",
        }
    }
}

impl Tagged for CapabilityAdmissionCheckKind {
    open spec fn tag(&self) -> nat {
        match self {
            CapabilityAdmissionCheckKind::Schema => 0,
            CapabilityAdmissionCheckKind::Size => 1,
            CapabilityAdmissionCheckKind::ClosedSet => 2,
            CapabilityAdmissionCheckKind::Path => 3,
            CapabilityAdmissionCheckKind::Digest => 4,
            CapabilityAdmissionCheckKind::Publisher => 5,
            CapabilityAdmissionCheckKind::Signature => 6,
            CapabilityAdmissionCheckKind::Dependency => 7,
            CapabilityAdmissionCheckKind::Sbom => 8,
            CapabilityAdmissionCheckKind::License => 9,
            CapabilityAdmissionCheckKind::Secret => 10,
            CapabilityAdmissionCheckKind::Risk => 11,
            CapabilityAdmissionCheckKind::Policy => 12,
        }
    }

    fn tag_of(&self) -> (r: u8) {
        match self {
            CapabilityAdmissionCheckKind::Schema => 0,
            CapabilityAdmissionCheckKind::Size => 1,
            CapabilityAdmissionCheckKind::ClosedSet => 2,
            CapabilityAdmissionCheckKind::Path => 3,
            CapabilityAdmissionCheckKind::Digest => 4,
            CapabilityAdmissionCheckKind::Publisher => 5,
            CapabilityAdmissionCheckKind::Signature => 6,
            CapabilityAdmissionCheckKind::Dependency => 7,
            CapabilityAdmissionCheckKind::Sbom => 8,
            CapabilityAdmissionCheckKind::License => 9,
            CapabilityAdmissionCheckKind::Secret => 10,
            CapabilityAdmissionCheckKind::Risk => 11,
            CapabilityAdmissionCheckKind::Policy => 12,
        }
    }
}

/// The number of hard admission checks; the `i`-th one an admission lists
/// is the kind with tag `i`.
pub open spec fn hard_check_count() -> nat {
    13
}
#[derive(Debug, Clone, PartialEq, Eq)]
pub struct EcosystemAggregateVersion {
    pub schema_version: SchemaVersion,
    pub value: u64,
}

impl EcosystemAggregateVersion {
    /// The version of an ecosystem before its first change.
    pub fn zero() -> (r: Self)
        ensures
            r.schema_version == m5_schema_version(),
            r.value == 0,
    {
        EcosystemAggregateVersion { schema_version: m5_schema(), value: 0 }
    }

    pub open spec fn valid(&self) -> bool {
        self.schema_version.0 != 0
    }

    pub fn validate(&self) -> (r: Result<(), Error>)
        ensures
            r is Ok <==> self.valid(),
    {
        if self.schema_version.0 == 0 {
            return Err(Error("ecosystem aggregate version schema is invalid".to_string()));
        }
        Ok(())
    }

    /// The following version, for a valid version that is not the last.
    pub fn next(&self) -> (r: Result<Self, Error>)
        ensures
            r is Ok <==> self.valid() && self.value < u64::MAX,
            r matches Ok(n) ==> n.schema_version == self.schema_version && n.value == self.value + 1,
    {
        self.validate()?;
        match self.value.checked_add(1) {
            Some(value) => Ok(EcosystemAggregateVersion { schema_version: self.schema_version, value }),
            None => Err(Error("ecosystem aggregate version is exhausted".to_string())),
        }
    }

    pub open spec fn put_canonical(&self, acc: Seq<u8>) -> Seq<u8> {
        let a = with_key(acc + seq![0x7bu8], "schema_version"@) + json_int(self.schema_version.0 as int);
        let a = with_key(a + seq![0x2cu8], "value"@) + json_int(self.value as int);
        a + seq![0x7du8]
    }

    pub fn write_canonical(&self, buf: &mut Vec<u8>)
        ensures
            final(buf)@ == self.put_canonical(old(buf)@),
    {
        put_mark(buf, 0x7b);
        put_key(buf, "schema_version");
        put_u64(buf, self.schema_version.0 as u64);
        put_mark(buf, 0x2c);
        put_key(buf, "value");
        put_u64(buf, self.value as u64);
        put_mark(buf, 0x7d);
    }
}
#[derive(Debug, Clone, PartialEq, Eq)]
pub struct CapabilityPublisherGrant {
    pub schema_version: SchemaVersion,
    pub reference: CapabilityPublisherGrantRef,
    pub publisher: CapabilityPublisherRef,
    pub public_key_digest: SchemaDigest,
    pub allowed_kinds: Vec<CapabilityPackageKind>,
    pub scope: Scope,
    pub expires_at: Timestamp,
    pub version: Version,
    pub status: CapabilityPublisherStatus,
}

impl CapabilityPublisherGrant {
    /// A complete grant with a canonical key digest, a non-zero version and
    /// its allowed kinds sorted without repeats.
    pub open spec fn valid(&self) -> bool {
        &&& self.schema_version.0 != 0
        &&& self.expires_at > 0
        &&& self.allowed_kinds@.len() > 0
        &&& !is_blank(self.reference.0@)
        &&& !is_blank(self.publisher.0@)
        &&& !is_blank(self.scope.0@)
        &&& is_canonical_digest(self.public_key_digest.0@)
        &&& self.version.0 != 0
        &&& tags_increasing(self.allowed_kinds@)
    }

    pub fn validate(&self) -> (r: Result<(), Error>)
        ensures
            r is Ok <==> self.valid(),
    {
        if self.schema_version.0 == 0 || self.expires_at <= 0 || self.allowed_kinds.len() == 0 {
            return Err(Error("capability publisher grant is incomplete".to_string()));
        }
        if blank(self.reference.0.as_str()) || blank(self.publisher.0.as_str()) || blank(
            self.scope.0.as_str(),
        ) {
            return Err(Error("capability publisher grant is incomplete".to_string()));
        }
        if !canonical_sha256(&self.public_key_digest) {
            return Err(Error("publisher public key digest is not a canonical sha256 digest".to_string()));
        }
        if self.version.0 == 0 {
            return Err(Error("publisher grant version must be non-zero".to_string()));
        }
        if !check_tags_increasing(&self.allowed_kinds) {
            return Err(Error("publisher allowed kinds must be sorted and unique".to_string()));
        }
        Ok(())
    }

    pub open spec fn put_canonical(&self, acc: Seq<u8>) -> Seq<u8> {
        let a = with_key(acc + seq![0x7bu8], "schema_version"@) + json_int(self.schema_version.0 as int);
        let a = with_key(a + seq![0x2cu8], "reference"@) + json_string(self.reference.0@);
        let a = with_key(a + seq![0x2cu8], "publisher"@) + json_string(self.publisher.0@);
        let a = with_key(a + seq![0x2cu8], "public_key_digest"@) + json_string(self.public_key_digest.0@);
        let a = with_names(with_key(a + seq![0x2cu8], "allowed_kinds"@), self.allowed_kinds@);
        let a = with_key(a + seq![0x2cu8], "scope"@) + json_string(self.scope.0@);
        let a = with_key(a + seq![0x2cu8], "expires_at"@) + json_int(self.expires_at as int);
        let a = with_key(a + seq![0x2cu8], "version"@) + json_int(self.version.0 as int);
        let a = with_key(a + seq![0x2cu8], "status"@) + json_string(self.status.wire_name());
        a + seq![0x7du8]
    }

    pub fn write_canonical(&self, buf: &mut Vec<u8>)
        ensures
            final(buf)@ == self.put_canonical(old(buf)@),
    {
        put_mark(buf, 0x7b);
        put_key(buf, "schema_version");
        put_u64(buf, self.schema_version.0 as u64);
        put_mark(buf, 0x2c);
        put_key(buf, "reference");
        put_str(buf, self.reference.0.as_str());
        put_mark(buf, 0x2c);
        put_key(buf, "publisher");
        put_str(buf, self.publisher.0.as_str());
        put_mark(buf, 0x2c);
        put_key(buf, "public_key_digest");
        put_str(buf, self.public_key_digest.0.as_str());
        put_mark(buf, 0x2c);
        put_key(buf, "allowed_kinds");
        put_names(buf, &self.allowed_kinds);
        put_mark(buf, 0x2c);
        put_key(buf, "scope");
        put_str(buf, self.scope.0.as_str());
        put_mark(buf, 0x2c);
        put_key(buf, "expires_at");
        put_i64(buf, self.expires_at);
        put_mark(buf, 0x2c);
        put_key(buf, "version");
        put_u64(buf, self.version.0 as u64);
        put_mark(buf, 0x2c);
        put_key(buf, "status");
        put_str(buf, self.status.wire_str());
        put_mark(buf, 0x7d);
    }
}

#[derive(Debug, Clone, PartialEq, Eq)]
pub struct CapabilityPackageDependency {
    pub schema_version: SchemaVersion,
    pub package: CapabilityPackageRef,
    pub release: CapabilityReleaseRef,
    pub version: Version,
    pub digest: SchemaDigest,
}

/// The order of dependencies: by schema version, package, release, version
/// and digest, in that order of precedence.
pub open spec fn dependency_lt(a: CapabilityPackageDependency, b: CapabilityPackageDependency) -> bool {
    if a.schema_version.0 != b.schema_version.0 {
        a.schema_version.0 < b.schema_version.0
    } else if a.package.0@ != b.package.0@ {
        text_lt(a.package.0@, b.package.0@)
    } else if a.release.0@ != b.release.0@ {
        text_lt(a.release.0@, b.release.0@)
    } else if a.version.0 != b.version.0 {
        a.version.0 < b.version.0
    } else {
        text_lt(a.digest.0@, b.digest.0@)
    }
}

/// Each dependency is strictly below the next one.
pub open spec fn dependencies_sorted(v: Seq<CapabilityPackageDependency>) -> bool {
    forall|i: int| 0 <= i < v.len() - 1 ==> dependency_lt(#[trigger] v[i], v[i + 1])
}

pub fn dependency_less(a: &CapabilityPackageDependency, b: &CapabilityPackageDependency) -> (r: bool)
    ensures
        r == dependency_lt(*a, *b),
{
    if a.schema_version.0 != b.schema_version.0 {
        a.schema_version.0 < b.schema_version.0
    } else if !same_text(&a.package.0, &b.package.0) {
        text_less(&a.package.0, &b.package.0)
    } else if !same_text(&a.release.0, &b.release.0) {
        text_less(&a.release.0, &b.release.0)
    } else if a.version.0 != b.version.0 {
        a.version.0 < b.version.0
    } else {
        text_less(&a.digest.0, &b.digest.0)
    }
}

pub fn check_dependencies_sorted(v: &Vec<CapabilityPackageDependency>) -> (r: bool)
    ensures
        r == dependencies_sorted(v@),
{
    if v.len() < 2 {
        return true;
    }
    let mut i: usize = 0;
    while i + 1 < v.len()
        invariant
            v.len() >= 2,
            i + 1 <= v.len(),
            forall|j: int| 0 <= j < i ==> dependency_lt(#[trigger] v@[j], v@[j + 1]),
        decreases v.len() - i,
    {
        if !dependency_less(&v[i], &v[i + 1]) {
            return false;
        }
        i = i + 1;
    }
    true
}

impl CapabilityPackageDependency {
    pub open spec fn valid(&self) -> bool {
        &&& self.schema_version.0 != 0
        &&& !is_blank(self.package.0@)
        &&& !is_blank(self.release.0@)
        &&& self.version.0 != 0
        &&& is_canonical_digest(self.digest.0@)
    }

    pub fn validate(&self) -> (r: Result<(), Error>)
        ensures
            r is Ok <==> self.valid(),
    {
        if self.schema_version.0 == 0 {
            return Err(Error("package dependency schema is invalid".to_string()));
        }
        if blank(self.package.0.as_str()) || blank(self.release.0.as_str()) {
            return Err(Error("package dependency is incomplete".to_string()));
        }
        if self.version.0 == 0 {
            return Err(Error("dependency version must be non-zero".to_string()));
        }
        if !canonical_sha256(&self.digest) {
            return Err(Error("dependency digest is not a canonical sha256 digest".to_string()));
        }
        Ok(())
    }

    pub open spec fn put_canonical(&self, acc: Seq<u8>) -> Seq<u8> {
        let a = with_key(acc + seq![0x7bu8], "schema_version"@) + json_int(self.schema_version.0 as int);
        let a = with_key(a + seq![0x2cu8], "package"@) + json_string(self.package.0@);
        let a = with_key(a + seq![0x2cu8], "release"@) + json_string(self.release.0@);
        let a = with_key(a + seq![0x2cu8], "version"@) + json_int(self.version.0 as int);
        let a = with_key(a + seq![0x2cu8], "digest"@) + json_string(self.digest.0@);
        a + seq![0x7du8]
    }

    pub fn write_canonical(&self, buf: &mut Vec<u8>)
        ensures
            final(buf)@ == self.put_canonical(old(buf)@),
    {
        put_mark(buf, 0x7b);
        put_key(buf, "schema_version");
        put_u64(buf, self.schema_version.0 as u64);
        put_mark(buf, 0x2c);
        put_key(buf, "package");
        put_str(buf, self.package.0.as_str());
        put_mark(buf, 0x2c);
        put_key(buf, "release");
        put_str(buf, self.release.0.as_str());
        put_mark(buf, 0x2c);
        put_key(buf, "version");
        put_u64(buf, self.version.0 as u64);
        put_mark(buf, 0x2c);
        put_key(buf, "digest");
        put_str(buf, self.digest.0.as_str());
        put_mark(buf, 0x7d);
    }
}

/// A JSON array of package dependencies, written after `acc`.
pub open spec fn with_dependencies(acc: Seq<u8>, v: Seq<CapabilityPackageDependency>) -> Seq<u8> {
    joined_dependencies(acc + seq![0x5bu8], v) + seq![0x5du8]
}

pub open spec fn joined_dependencies(acc: Seq<u8>, v: Seq<CapabilityPackageDependency>) -> Seq<u8>
    decreases v.len(),
{
    if v.len() == 0 {
        acc
    } else if v.len() == 1 {
        v[0].put_canonical(acc)
    } else {
        v.last().put_canonical(joined_dependencies(acc, v.drop_last()) + seq![0x2cu8])
    }
}

pub fn put_dependencies(buf: &mut Vec<u8>, v: &Vec<CapabilityPackageDependency>)
    ensures
        final(buf)@ == with_dependencies(old(buf)@, v@),
{
    let ghost start = buf@;
    buf.push(0x5b);
    let ghost open_acc = start + seq![0x5bu8];
    assert(buf@ =~= open_acc);
    let mut i: usize = 0;
    while i < v.len()
        invariant
            i <= v.len(),
            buf@ == joined_dependencies(open_acc, v@.subrange(0, i as int)),
        decreases v.len() - i,
    {
        let ghost prefix = v@.subrange(0, i as int);
        let ghost next = v@.subrange(0, i + 1);
        proof {
            assert(next.drop_last() =~= prefix);
            assert(next.last() == v@[i as int]);
        }
        if i > 0 {
            put_mark(buf, 0x2c);
            v[i].write_canonical(buf);
            proof {
                assert(next.len() > 1);
                assert(joined_dependencies(open_acc, next) == next.last().put_canonical(
                    joined_dependencies(open_acc, next.drop_last()) + seq![0x2cu8],
                ));
            }
        } else {
            v[i].write_canonical(buf);
            proof {
                assert(next.len() == 1);
                assert(next[0] == v@[0]);
                assert(joined_dependencies(open_acc, next) == next[0].put_canonical(open_acc));
            }
        }
        i = i + 1;
    }
    put_mark(buf, 0x5d);
    assert(v@.subrange(0, i as int) =~= v@);
}

#[derive(Debug, Clone, PartialEq, Eq)]
pub struct CapabilityContributionDescriptor {
    pub schema_version: SchemaVersion,
    pub kind: CapabilityPackageKind,
    pub capability: CapabilityRef,
    pub payload_digest: SchemaDigest,
    pub required_permissions: Vec<PermissionRef>,
    pub risk: Risk,
    pub network: bool,
    pub hook: bool,
}

impl CapabilityContributionDescriptor {
    pub open spec fn valid(&self) -> bool {
        &&& self.schema_version.0 != 0
        &&& !is_blank(self.capability.0@)
        &&& is_canonical_digest(self.payload_digest.0@)
        &&& strictly_sorted(self.required_permissions@)
    }

    pub fn validate(&self) -> (r: Result<(), Error>)
        ensures
            r is Ok <==> self.valid(),
    {
        if self.schema_version.0 == 0 {
            return Err(Error("package contribution schema is invalid".to_string()));
        }
        if blank(self.capability.0.as_str()) {
            return Err(Error("package contribution capability is incomplete".to_string()));
        }
        if !canonical_sha256(&self.payload_digest) {
            return Err(Error("package contribution payload digest is not a canonical sha256 digest".to_string()));
        }
        if !check_strictly_sorted(&self.required_permissions) {
            return Err(Error("package contribution permissions must be sorted and unique".to_string()));
        }
        Ok(())
    }

    pub open spec fn put_canonical(&self, acc: Seq<u8>) -> Seq<u8> {
        let a = with_key(acc + seq![0x7bu8], "schema_version"@) + json_int(self.schema_version.0 as int);
        let a = with_key(a + seq![0x2cu8], "kind"@) + json_string(self.kind.wire_name());
        let a = with_key(a + seq![0x2cu8], "capability"@) + json_string(self.capability.0@);
        let a = with_key(a + seq![0x2cu8], "payload_digest"@) + json_string(self.payload_digest.0@);
        let a = with_texts(with_key(a + seq![0x2cu8], "required_permissions"@), self.required_permissions@);
        let a = with_key(a + seq![0x2cu8], "risk"@) + json_string(self.risk.wire_name());
        let a = with_key(a + seq![0x2cu8], "network"@) + json_bool(self.network);
        let a = with_key(a + seq![0x2cu8], "hook"@) + json_bool(self.hook);
        a + seq![0x7du8]
    }

    pub fn write_canonical(&self, buf: &mut Vec<u8>)
        ensures
            final(buf)@ == self.put_canonical(old(buf)@),
    {
        put_mark(buf, 0x7b);
        put_key(buf, "schema_version");
        put_u64(buf, self.schema_version.0 as u64);
        put_mark(buf, 0x2c);
        put_key(buf, "kind");
        put_str(buf, self.kind.wire_str());
        put_mark(buf, 0x2c);
        put_key(buf, "capability");
        put_str(buf, self.capability.0.as_str());
        put_mark(buf, 0x2c);
        put_key(buf, "payload_digest");
        put_str(buf, self.payload_digest.0.as_str());
        put_mark(buf, 0x2c);
        put_key(buf, "required_permissions");
        put_texts(buf, &self.required_permissions);
        put_mark(buf, 0x2c);
        put_key(buf, "risk");
        put_str(buf, self.risk.wire_str());
        put_mark(buf, 0x2c);
        put_key(buf, "network");
        put_bool(buf, self.network);
        put_mark(buf, 0x2c);
        put_key(buf, "hook");
        put_bool(buf, self.hook);
        put_mark(buf, 0x7d);
    }
}

/// A JSON array of contribution descriptors, written after `acc`.
pub open spec fn with_contributions(acc: Seq<u8>, v: Seq<CapabilityContributionDescriptor>) -> Seq<u8> {
    joined_contributions(acc + seq![0x5bu8], v) + seq![0x5du8]
}

pub open spec fn joined_contributions(acc: Seq<u8>, v: Seq<CapabilityContributionDescriptor>) -> Seq<u8>
    decreases v.len(),
{
    if v.len() == 0 {
        acc
    } else if v.len() == 1 {
        v[0].put_canonical(acc)
    } else {
        v.last().put_canonical(joined_contributions(acc, v.drop_last()) + seq![0x2cu8])
    }
}

pub fn put_contributions(buf: &mut Vec<u8>, v: &Vec<CapabilityContributionDescriptor>)
    ensures
        final(buf)@ == with_contributions(old(buf)@, v@),
{
    let ghost start = buf@;
    buf.push(0x5b);
    let ghost open_acc = start + seq![0x5bu8];
    assert(buf@ =~= open_acc);
    let mut i: usize = 0;
    while i < v.len()
        invariant
            i <= v.len(),
            buf@ == joined_contributions(open_acc, v@.subrange(0, i as int)),
        decreases v.len() - i,
    {
        let ghost prefix = v@.subrange(0, i as int);
        let ghost next = v@.subrange(0, i + 1);
        proof {
            assert(next.drop_last() =~= prefix);
            assert(next.last() == v@[i as int]);
        }
        if i > 0 {
            put_mark(buf, 0x2c);
            v[i].write_canonical(buf);
            proof {
                assert(next.len() > 1);
                assert(joined_contributions(open_acc, next) == next.last().put_canonical(
                    joined_contributions(open_acc, next.drop_last()) + seq![0x2cu8],
                ));
            }
        } else {
            v[i].write_canonical(buf);
            proof {
                assert(next.len() == 1);
                assert(next[0] == v@[0]);
                assert(joined_contributions(open_acc, next) == next[0].put_canonical(open_acc));
            }
        }
        i = i + 1;
    }
    put_mark(buf, 0x5d);
    assert(v@.subrange(0, i as int) =~= v@);
}
#[derive(Debug, Clone, PartialEq, Eq)]
pub struct CapabilityPackageManifest {
    pub schema_version: SchemaVersion,
    pub package: CapabilityPackageRef,
    pub release: CapabilityReleaseRef,
    pub version: Version,
    pub kind: CapabilityPackageKind,
    pub publisher: CapabilityPublisherRef,
    pub scope: Scope,
    pub contributions: Vec<CapabilityContributionDescriptor>,
    pub dependencies: Vec<CapabilityPackageDependency>,
    pub sbom_digest: SchemaDigest,
    pub license_expression: String,
    pub body_digest: SchemaDigest,
    pub max_unpacked_bytes: u64,
    pub contains_executable: bool,
}

/// The capabilities the contributions provide, in order.
pub open spec fn contributed_capabilities(v: Seq<CapabilityContributionDescriptor>) -> Seq<CapabilityRef> {
    v.map_values(|c: CapabilityContributionDescriptor| c.capability)
}

fn collect_contributed_capabilities(v: &Vec<CapabilityContributionDescriptor>) -> (r: Vec<CapabilityRef>)
    ensures
        r@ == contributed_capabilities(v@),
{
    let mut r: Vec<CapabilityRef> = Vec::new();
    let mut i: usize = 0;
    while i < v.len()
        invariant
            i <= v.len(),
            r@ == contributed_capabilities(v@.subrange(0, i as int)),
        decreases v.len() - i,
    {
        r.push(v[i].capability.duplicate());
        i = i + 1;
        assert(r@ =~= contributed_capabilities(v@.subrange(0, i as int)));
    }
    assert(v@.subrange(0, i as int) =~= v@);
    r
}

impl CapabilityPackageManifest {
    /// Every contribution is valid and of the manifest's kind.
    pub open spec fn contributions_valid(&self) -> bool {
        forall|i: int| 0 <= i < self.contributions@.len() ==> {
            &&& (#[trigger] self.contributions@[i]).valid()
            &&& self.contributions@[i].kind == self.kind
        }
    }

    /// Every dependency is valid and names another release than this one.
    pub open spec fn dependencies_valid(&self) -> bool {
        forall|i: int| 0 <= i < self.dependencies@.len() ==> {
            &&& (#[trigger] self.dependencies@[i]).valid()
            &&& !(self.dependencies@[i].package.0@ == self.package.0@
                && self.dependencies@[i].release.0@ == self.release.0@)
        }
    }

    /// A complete, non-executable manifest whose contributions are valid,
    /// of its own kind and sorted by capability, and whose dependencies are
    /// valid, sorted and never the package itself.
    pub open spec fn valid(&self) -> bool {
        &&& self.schema_version.0 != 0
        &&& self.contributions@.len() > 0
        &&& self.max_unpacked_bytes != 0
        &&& !self.contains_executable
        &&& !is_blank(self.package.0@)
        &&& !is_blank(self.release.0@)
        &&& !is_blank(self.publisher.0@)
        &&& !is_blank(self.scope.0@)
        &&& !is_blank(self.license_expression@)
        &&& self.version.0 != 0
        &&& is_canonical_digest(self.sbom_digest.0@)
        &&& is_canonical_digest(self.body_digest.0@)
        &&& self.contributions_valid()
        &&& strictly_sorted(contributed_capabilities(self.contributions@))
        &&& self.dependencies_valid()
        &&& dependencies_sorted(self.dependencies@)
    }

    fn check_contributions(&self) -> (r: Result<(), Error>)
        ensures
            r is Ok <==> self.contributions_valid(),
    {
        let mut i: usize = 0;
        while i < self.contributions.len()
            invariant
                i <= self.contributions@.len(),
                forall|j: int| 0 <= j < i ==> {
                    &&& (#[trigger] self.contributions@[j]).valid()
                    &&& self.contributions@[j].kind == self.kind
                },
            decreases self.contributions.len() - i,
        {
            self.contributions[i].validate()?;
            if self.contributions[i].kind != self.kind {
                return Err(Error("package contribution kind does not match manifest".to_string()));
            }
            i = i + 1;
        }
        Ok(())
    }

    fn check_dependencies(&self) -> (r: Result<(), Error>)
        ensures
            r is Ok <==> self.dependencies_valid(),
    {
        let mut i: usize = 0;
        while i < self.dependencies.len()
            invariant
                i <= self.dependencies@.len(),
                forall|j: int| 0 <= j < i ==> {
                    &&& (#[trigger] self.dependencies@[j]).valid()
                    &&& !(self.dependencies@[j].package.0@ == self.package.0@
                        && self.dependencies@[j].release.0@ == self.release.0@)
                },
            decreases self.dependencies.len() - i,
        {
            self.dependencies[i].validate()?;
            if same_text(&self.dependencies[i].package.0, &self.package.0) && same_text(
                &self.dependencies[i].release.0,
                &self.release.0,
            ) {
                return Err(Error("package cannot depend on itself".to_string()));
            }
            i = i + 1;
        }
        Ok(())
    }

    pub fn validate(&self) -> (r: Result<(), Error>)
        ensures
            r is Ok <==> self.valid(),
    {
        if self.schema_version.0 == 0 || self.contributions.len() == 0 || self.max_unpacked_bytes
            == 0 || self.contains_executable {
            return Err(Error("capability package manifest is incomplete or executable".to_string()));
        }
        if blank(self.package.0.as_str()) || blank(self.release.0.as_str()) || blank(
            self.publisher.0.as_str(),
        ) || blank(self.scope.0.as_str()) || blank(self.license_expression.as_str()) {
            return Err(Error("capability package manifest is incomplete".to_string()));
        }
        if self.version.0 == 0 {
            return Err(Error("package version must be non-zero".to_string()));
        }
        if !canonical_sha256(&self.sbom_digest) || !canonical_sha256(&self.body_digest) {
            return Err(Error("package digest is not a canonical sha256 digest".to_string()));
        }
        self.check_contributions()?;
        let capabilities = collect_contributed_capabilities(&self.contributions);
        if !check_strictly_sorted(&capabilities) {
            return Err(Error("package contributions must be sorted and unique".to_string()));
        }
        self.check_dependencies()?;
        if !check_dependencies_sorted(&self.dependencies) {
            return Err(Error("package dependencies must be sorted and unique".to_string()));
        }
        Ok(())
    }

    #[verifier::opaque]
    pub open spec fn put_canonical(&self, acc: Seq<u8>) -> Seq<u8> {
        let a = with_key(acc + seq![0x7bu8], "schema_version"@) + json_int(self.schema_version.0 as int);
        let a = with_key(a + seq![0x2cu8], "package"@) + json_string(self.package.0@);
        let a = with_key(a + seq![0x2cu8], "release"@) + json_string(self.release.0@);
        let a = with_key(a + seq![0x2cu8], "version"@) + json_int(self.version.0 as int);
        let a = with_key(a + seq![0x2cu8], "kind"@) + json_string(self.kind.wire_name());
        let a = with_key(a + seq![0x2cu8], "publisher"@) + json_string(self.publisher.0@);
        let a = with_key(a + seq![0x2cu8], "scope"@) + json_string(self.scope.0@);
        let a = with_contributions(with_key(a + seq![0x2cu8], "contributions"@), self.contributions@);
        let a = with_dependencies(with_key(a + seq![0x2cu8], "dependencies"@), self.dependencies@);
        let a = with_key(a + seq![0x2cu8], "sbom_digest"@) + json_string(self.sbom_digest.0@);
        let a = with_key(a + seq![0x2cu8], "license_expression"@) + json_string(self.license_expression@);
        let a = with_key(a + seq![0x2cu8], "body_digest"@) + json_string(self.body_digest.0@);
        let a = with_key(a + seq![0x2cu8], "max_unpacked_bytes"@) + json_int(self.max_unpacked_bytes as int);
        let a = with_key(a + seq![0x2cu8], "contains_executable"@) + json_bool(self.contains_executable);
        a + seq![0x7du8]
    }

    pub fn write_canonical(&self, buf: &mut Vec<u8>)
        ensures
            final(buf)@ == self.put_canonical(old(buf)@),
    {
        put_mark(buf, 0x7b);
        put_key(buf, "schema_version");
        put_u64(buf, self.schema_version.0 as u64);
        put_mark(buf, 0x2c);
        put_key(buf, "package");
        put_str(buf, self.package.0.as_str());
        put_mark(buf, 0x2c);
        put_key(buf, "release");
        put_str(buf, self.release.0.as_str());
        put_mark(buf, 0x2c);
        put_key(buf, "version");
        put_u64(buf, self.version.0 as u64);
        put_mark(buf, 0x2c);
        put_key(buf, "kind");
        put_str(buf, self.kind.wire_str());
        put_mark(buf, 0x2c);
        put_key(buf, "publisher");
        put_str(buf, self.publisher.0.as_str());
        put_mark(buf, 0x2c);
        put_key(buf, "scope");
        put_str(buf, self.scope.0.as_str());
        put_mark(buf, 0x2c);
        put_key(buf, "contributions");
        put_contributions(buf, &self.contributions);
        put_mark(buf, 0x2c);
        put_key(buf, "dependencies");
        put_dependencies(buf, &self.dependencies);
        put_mark(buf, 0x2c);
        put_key(buf, "sbom_digest");
        put_str(buf, self.sbom_digest.0.as_str());
        put_mark(buf, 0x2c);
        put_key(buf, "license_expression");
        put_str(buf, self.license_expression.as_str());
        put_mark(buf, 0x2c);
        put_key(buf, "body_digest");
        put_str(buf, self.body_digest.0.as_str());
        put_mark(buf, 0x2c);
        put_key(buf, "max_unpacked_bytes");
        put_u64(buf, self.max_unpacked_bytes as u64);
        put_mark(buf, 0x2c);
        put_key(buf, "contains_executable");
        put_bool(buf, self.contains_executable);
        put_mark(buf, 0x7d);
        proof {
            reveal(CapabilityPackageManifest::put_canonical);
        }
    }
}
#[derive(Debug, Clone, PartialEq, Eq)]
pub struct CapabilityPackageResource {
    pub schema_version: SchemaVersion,
    pub relative_path: String,
    pub content: String,
    pub digest: SchemaDigest,
}

/// The UTF-8 bytes of a text, which is what the content digest is taken over.
pub open spec fn bytes_of(t: Seq<char>) -> Seq<u8> {
    vstd::utf8::encode_utf8(t)
}

impl CapabilityPackageResource {
    /// A normalized relative path and the digest of the content's bytes.
    pub open spec fn valid(&self) -> bool {
        &&& self.schema_version.0 != 0
        &&& normalized_resource_path(self.relative_path@)
        &&& is_canonical_digest(self.digest.0@)
        &&& self.digest.0@ == content_digest_text(bytes_of(self.content@))
    }

    pub fn validate(&self) -> (r: Result<(), Error>)
        ensures
            r is Ok <==> self.valid(),
    {
        if self.schema_version.0 == 0 {
            return Err(Error("package resource schema is invalid".to_string()));
        }
        let normalized = normalize_resource_path(self.relative_path.as_str())?;
        if !same_text(&normalized, &self.relative_path) {
            return Err(Error("package resource path is not canonical".to_string()));
        }
        if !canonical_sha256(&self.digest) {
            return Err(Error("package resource digest is not a canonical sha256 digest".to_string()));
        }
        let expected = sha256_content_digest(self.content.as_str().as_bytes());
        if !same_text(&self.digest.0, &expected.0) {
            return Err(Error("package resource digest does not match content".to_string()));
        }
        Ok(())
    }

    pub open spec fn put_canonical(&self, acc: Seq<u8>) -> Seq<u8> {
        let a = with_key(acc + seq![0x7bu8], "schema_version"@) + json_int(self.schema_version.0 as int);
        let a = with_key(a + seq![0x2cu8], "relative_path"@) + json_string(self.relative_path@);
        let a = with_key(a + seq![0x2cu8], "content"@) + json_string(self.content@);
        let a = with_key(a + seq![0x2cu8], "digest"@) + json_string(self.digest.0@);
        a + seq![0x7du8]
    }

    pub fn write_canonical(&self, buf: &mut Vec<u8>)
        ensures
            final(buf)@ == self.put_canonical(old(buf)@),
    {
        put_mark(buf, 0x7b);
        put_key(buf, "schema_version");
        put_u64(buf, self.schema_version.0 as u64);
        put_mark(buf, 0x2c);
        put_key(buf, "relative_path");
        put_str(buf, self.relative_path.as_str());
        put_mark(buf, 0x2c);
        put_key(buf, "content");
        put_str(buf, self.content.as_str());
        put_mark(buf, 0x2c);
        put_key(buf, "digest");
        put_str(buf, self.digest.0.as_str());
        put_mark(buf, 0x7d);
    }

    /// The pair `[path, digest]` that stands for the resource in package digests.
    pub open spec fn put_ref(&self, acc: Seq<u8>) -> Seq<u8> {
        acc + seq![0x5bu8] + json_string(self.relative_path@) + seq![0x2cu8] + json_string(
            self.digest.0@,
        ) + seq![0x5du8]
    }

    pub fn write_ref(&self, buf: &mut Vec<u8>)
        ensures
            final(buf)@ == self.put_ref(old(buf)@),
    {
        put_mark(buf, 0x5b);
        put_str(buf, self.relative_path.as_str());
        put_mark(buf, 0x2c);
        put_str(buf, self.digest.0.as_str());
        put_mark(buf, 0x5d);
        assert(buf@ =~= self.put_ref(old(buf)@));
    }
}

/// A JSON array of package resources, written after `acc`.
pub open spec fn with_resources(acc: Seq<u8>, v: Seq<CapabilityPackageResource>) -> Seq<u8> {
    joined_resources(acc + seq![0x5bu8], v) + seq![0x5du8]
}

pub open spec fn joined_resources(acc: Seq<u8>, v: Seq<CapabilityPackageResource>) -> Seq<u8>
    decreases v.len(),
{
    if v.len() == 0 {
        acc
    } else if v.len() == 1 {
        v[0].put_canonical(acc)
    } else {
        v.last().put_canonical(joined_resources(acc, v.drop_last()) + seq![0x2cu8])
    }
}

pub fn put_resources(buf: &mut Vec<u8>, v: &Vec<CapabilityPackageResource>)
    ensures
        final(buf)@ == with_resources(old(buf)@, v@),
{
    let ghost start = buf@;
    buf.push(0x5b);
    let ghost open_acc = start + seq![0x5bu8];
    assert(buf@ =~= open_acc);
    let mut i: usize = 0;
    while i < v.len()
        invariant
            i <= v.len(),
            buf@ == joined_resources(open_acc, v@.subrange(0, i as int)),
        decreases v.len() - i,
    {
        let ghost prefix = v@.subrange(0, i as int);
        let ghost next = v@.subrange(0, i + 1);
        proof {
            assert(next.drop_last() =~= prefix);
            assert(next.last() == v@[i as int]);
        }
        if i > 0 {
            put_mark(buf, 0x2c);
            v[i].write_canonical(buf);
            proof {
                assert(next.len() > 1);
                assert(joined_resources(open_acc, next) == next.last().put_canonical(
                    joined_resources(open_acc, next.drop_last()) + seq![0x2cu8],
                ));
            }
        } else {
            v[i].write_canonical(buf);
            proof {
                assert(next.len() == 1);
                assert(next[0] == v@[0]);
                assert(joined_resources(open_acc, next) == next[0].put_canonical(open_acc));
            }
        }
        i = i + 1;
    }
    put_mark(buf, 0x5d);
    assert(v@.subrange(0, i as int) =~= v@);
}

/// The `[path, digest]` pairs of the resources as a JSON array, written after `acc`.
pub open spec fn with_resource_refs(acc: Seq<u8>, v: Seq<CapabilityPackageResource>) -> Seq<u8> {
    joined_resource_refs(acc + seq![0x5bu8], v) + seq![0x5du8]
}

pub open spec fn joined_resource_refs(acc: Seq<u8>, v: Seq<CapabilityPackageResource>) -> Seq<u8>
    decreases v.len(),
{
    if v.len() == 0 {
        acc
    } else if v.len() == 1 {
        v[0].put_ref(acc)
    } else {
        v.last().put_ref(joined_resource_refs(acc, v.drop_last()) + seq![0x2cu8])
    }
}

pub fn put_resource_refs(buf: &mut Vec<u8>, v: &Vec<CapabilityPackageResource>)
    ensures
        final(buf)@ == with_resource_refs(old(buf)@, v@),
{
    let ghost start = buf@;
    buf.push(0x5b);
    let ghost open_acc = start + seq![0x5bu8];
    assert(buf@ =~= open_acc);
    let mut i: usize = 0;
    while i < v.len()
        invariant
            i <= v.len(),
            buf@ == joined_resource_refs(open_acc, v@.subrange(0, i as int)),
        decreases v.len() - i,
    {
        let ghost prefix = v@.subrange(0, i as int);
        let ghost next = v@.subrange(0, i + 1);
        proof {
            assert(next.drop_last() =~= prefix);
            assert(next.last() == v@[i as int]);
        }
        if i > 0 {
            put_mark(buf, 0x2c);
            v[i].write_ref(buf);
            proof {
                assert(next.len() > 1);
                assert(joined_resource_refs(open_acc, next) == next.last().put_ref(
                    joined_resource_refs(open_acc, next.drop_last()) + seq![0x2cu8],
                ));
            }
        } else {
            v[i].write_ref(buf);
            proof {
                assert(next.len() == 1);
                assert(next[0] == v@[0]);
                assert(joined_resource_refs(open_acc, next) == next[0].put_ref(open_acc));
            }
        }
        i = i + 1;
    }
    put_mark(buf, 0x5d);
    assert(v@.subrange(0, i as int) =~= v@);
}

/// What a package's body digest is taken over: its resources' `[path, digest]` pairs.
pub open spec fn body_material(resources: Seq<CapabilityPackageResource>) -> Seq<u8> {
    with_resource_refs(Seq::empty(), resources)
}

/// What a package digest is taken over: `[manifest, pairs]`.
pub open spec fn package_material(
    manifest: CapabilityPackageManifest,
    resources: Seq<CapabilityPackageResource>,
) -> Seq<u8> {
    with_resource_refs(manifest.put_canonical(seq![0x5bu8]) + seq![0x2cu8], resources) + seq![0x5du8]
}

fn encode_body_material(resources: &Vec<CapabilityPackageResource>) -> (r: Vec<u8>)
    ensures
        r@ == body_material(resources@),
{
    let mut buf: Vec<u8> = Vec::new();
    put_resource_refs(&mut buf, resources);
    buf
}

fn encode_package_material(
    manifest: &CapabilityPackageManifest,
    resources: &Vec<CapabilityPackageResource>,
) -> (r: Vec<u8>)
    ensures
        r@ == package_material(*manifest, resources@),
{
    let mut buf: Vec<u8> = Vec::new();
    put_mark(&mut buf, 0x5b);
    manifest.write_canonical(&mut buf);
    put_mark(&mut buf, 0x2c);
    put_resource_refs(&mut buf, resources);
    put_mark(&mut buf, 0x5d);
    buf
}

/// What identifies a resource apart from its digest.
pub open spec fn resource_key(r: CapabilityPackageResource) -> (SchemaVersion, Seq<char>, Seq<char>) {
    (r.schema_version, r.relative_path@, r.content@)
}

pub open spec fn resource_keys(v: Seq<CapabilityPackageResource>) -> Seq<(SchemaVersion, Seq<char>, Seq<char>)> {
    v.map_values(|r: CapabilityPackageResource| resource_key(r))
}

pub open spec fn resource_paths(v: Seq<CapabilityPackageResource>) -> Seq<String> {
    v.map_values(|r: CapabilityPackageResource| r.relative_path)
}

pub open spec fn resource_digests(v: Seq<CapabilityPackageResource>) -> Seq<SchemaDigest> {
    v.map_values(|r: CapabilityPackageResource| r.digest)
}

pub open spec fn payload_digests(v: Seq<CapabilityContributionDescriptor>) -> Seq<SchemaDigest> {
    v.map_values(|c: CapabilityContributionDescriptor| c.payload_digest)
}

/// Paths never go down: each resource's path is at most the next ones'.
pub open spec fn paths_ordered(v: Seq<CapabilityPackageResource>) -> bool {
    forall|i: int, j: int|
        0 <= i < j < v.len() ==> !text_lt(#[trigger] v[j].relative_path@, #[trigger] v[i].relative_path@)
}

/// No two resource paths are equal once ASCII letters are folded to lower case.
pub open spec fn casefold_distinct(v: Seq<CapabilityPackageResource>) -> bool {
    forall|i: int, j: int|
        0 <= i < v.len() && 0 <= j < v.len() && i != j ==> ascii_lower(#[trigger] v[i].relative_path@)
            != ascii_lower(#[trigger] v[j].relative_path@)
}

/// The bytes of all resource contents together.
pub open spec fn total_content_bytes(v: Seq<CapabilityPackageResource>) -> int
    decreases v.len(),
{
    if v.len() == 0 {
        0
    } else {
        total_content_bytes(v.drop_last()) + bytes_of(v.last().content@).len()
    }
}

proof fn lemma_total_content_bytes_prefix(v: Seq<CapabilityPackageResource>, i: int)
    requires
        0 <= i <= v.len(),
    ensures
        total_content_bytes(v.subrange(0, i)) <= total_content_bytes(v),
    decreases v.len() - i,
{
    if i < v.len() {
        lemma_total_content_bytes_prefix(v, i + 1);
        assert(v.subrange(0, i + 1).drop_last() =~= v.subrange(0, i));
    } else {
        assert(v.subrange(0, i) =~= v);
    }
}

fn collect_resource_paths(v: &Vec<CapabilityPackageResource>) -> (r: Vec<String>)
    ensures
        r@ == resource_paths(v@),
{
    let mut r: Vec<String> = Vec::new();
    let mut i: usize = 0;
    while i < v.len()
        invariant
            i <= v.len(),
            r@ == resource_paths(v@.subrange(0, i as int)),
        decreases v.len() - i,
    {
        r.push(v[i].relative_path.clone());
        i = i + 1;
        assert(r@ =~= resource_paths(v@.subrange(0, i as int)));
    }
    assert(v@.subrange(0, i as int) =~= v@);
    r
}

fn collect_resource_digests(v: &Vec<CapabilityPackageResource>) -> (r: Vec<SchemaDigest>)
    ensures
        r@ == resource_digests(v@),
{
    let mut r: Vec<SchemaDigest> = Vec::new();
    let mut i: usize = 0;
    while i < v.len()
        invariant
            i <= v.len(),
            r@ == resource_digests(v@.subrange(0, i as int)),
        decreases v.len() - i,
    {
        r.push(v[i].digest.duplicate());
        i = i + 1;
        assert(r@ =~= resource_digests(v@.subrange(0, i as int)));
    }
    assert(v@.subrange(0, i as int) =~= v@);
    r
}

fn collect_payload_digests(v: &Vec<CapabilityContributionDescriptor>) -> (r: Vec<SchemaDigest>)
    ensures
        r@ == payload_digests(v@),
{
    let mut r: Vec<SchemaDigest> = Vec::new();
    let mut i: usize = 0;
    while i < v.len()
        invariant
            i <= v.len(),
            r@ == payload_digests(v@.subrange(0, i as int)),
        decreases v.len() - i,
    {
        r.push(v[i].payload_digest.duplicate());
        i = i + 1;
        assert(r@ =~= payload_digests(v@.subrange(0, i as int)));
    }
    assert(v@.subrange(0, i as int) =~= v@);
    r
}

fn check_casefold_distinct(v: &Vec<CapabilityPackageResource>) -> (r: bool)
    ensures
        r == casefold_distinct(v@),
{
    let mut i: usize = 0;
    while i < v.len()
        invariant
            i <= v.len(),
            forall|a: int, b: int|
                0 <= a < i && 0 <= b < v.len() && a != b ==> ascii_lower(
                    #[trigger] v@[a].relative_path@,
                ) != ascii_lower(#[trigger] v@[b].relative_path@),
        decreases v.len() - i,
    {
        let mut j: usize = 0;
        while j < v.len()
            invariant
                i < v.len(),
                j <= v.len(),
                forall|a: int, b: int|
                    0 <= a < i && 0 <= b < v.len() && a != b ==> ascii_lower(
                        #[trigger] v@[a].relative_path@,
                    ) != ascii_lower(#[trigger] v@[b].relative_path@),
                forall|b: int|
                    0 <= b < j && b != i ==> ascii_lower(v@[i as int].relative_path@) != ascii_lower(
                        #[trigger] v@[b].relative_path@,
                    ),
            decreases v.len() - j,
        {
            if j != i && same_ascii_lower(v[i].relative_path.as_str(), v[j].relative_path.as_str()) {
                return false;
            }
            j = j + 1;
        }
        i = i + 1;
    }
    true
}

/// The bytes of all contents, when they fit in a `u64`.
fn checked_total_content_bytes(v: &Vec<CapabilityPackageResource>) -> (r: Option<u64>)
    ensures
        r matches Some(t) ==> t == total_content_bytes(v@),
        r is None ==> total_content_bytes(v@) > u64::MAX,
{
    let mut total: u64 = 0;
    let mut i: usize = 0;
    while i < v.len()
        invariant
            i <= v.len(),
            total == total_content_bytes(v@.subrange(0, i as int)),
        decreases v.len() - i,
    {
        let size = v[i].content.as_str().as_bytes().len() as u64;
        proof {
            assert(v@.subrange(0, i + 1).drop_last() =~= v@.subrange(0, i as int));
        }
        match total.checked_add(size) {
            Some(t) => {
                total = t;
            },
            None => {
                proof {
                    lemma_total_content_bytes_prefix(v@, i + 1);
                }
                return None;
            },
        }
        i = i + 1;
    }
    assert(v@.subrange(0, i as int) =~= v@);
    Some(total)
}

/// Where a resource with path `p` goes among `out`, after every resource
/// whose path is at most `p`.
fn insertion_point(out: &Vec<CapabilityPackageResource>, p: &String) -> (pos: usize)
    ensures
        pos <= out.len(),
        forall|k: int| 0 <= k < pos ==> !text_lt(p@, #[trigger] out@[k].relative_path@),
        pos < out.len() ==> text_lt(p@, out@[pos as int].relative_path@),
{
    let mut k: usize = 0;
    while k < out.len()
        invariant
            k <= out.len(),
            forall|m: int| 0 <= m < k ==> !text_lt(p@, #[trigger] out@[m].relative_path@),
        decreases out.len() - k,
    {
        if text_less(p, &out[k].relative_path) {
            return k;
        }
        k = k + 1;
    }
    k
}

/// The resource keys in `s` whose path is `p`, in their order.
pub open spec fn keys_at_path(s: Seq<(SchemaVersion, Seq<char>, Seq<char>)>, p: Seq<char>) -> Seq<
    (SchemaVersion, Seq<char>, Seq<char>),
>
    decreases s.len(),
{
    if s.len() == 0 {
        Seq::empty()
    } else {
        keys_at_path(s.drop_last(), p) + if s.last().1 == p {
            seq![s.last()]
        } else {
            Seq::empty()
        }
    }
}

proof fn lemma_keys_at_path_add(
    a: Seq<(SchemaVersion, Seq<char>, Seq<char>)>,
    b: Seq<(SchemaVersion, Seq<char>, Seq<char>)>,
    p: Seq<char>,
)
    ensures
        keys_at_path(a + b, p) == keys_at_path(a, p) + keys_at_path(b, p),
    decreases b.len(),
{
    if b.len() == 0 {
        assert(a + b =~= a);
        assert(keys_at_path(a, p) + keys_at_path(b, p) =~= keys_at_path(a, p));
    } else {
        lemma_keys_at_path_add(a, b.drop_last(), p);
        assert((a + b).drop_last() =~= a + b.drop_last());
        assert((a + b).last() == b.last());
        let tail = if b.last().1 == p {
            seq![b.last()]
        } else {
            Seq::<(SchemaVersion, Seq<char>, Seq<char>)>::empty()
        };
        assert(keys_at_path(a, p) + keys_at_path(b.drop_last(), p) + tail =~= keys_at_path(a, p) + (
        keys_at_path(b.drop_last(), p) + tail));
    }
}

proof fn lemma_keys_at_path_none(s: Seq<(SchemaVersion, Seq<char>, Seq<char>)>, p: Seq<char>)
    requires
        forall|i: int| 0 <= i < s.len() ==> (#[trigger] s[i]).1 != p,
    ensures
        keys_at_path(s, p) == Seq::<(SchemaVersion, Seq<char>, Seq<char>)>::empty(),
    decreases s.len(),
{
    if s.len() > 0 {
        lemma_keys_at_path_none(s.drop_last(), p);
        assert(keys_at_path(s, p) =~= Seq::<(SchemaVersion, Seq<char>, Seq<char>)>::empty());
    }
}

proof fn lemma_keys_at_path_one(k: (SchemaVersion, Seq<char>, Seq<char>), p: Seq<char>)
    ensures
        keys_at_path(seq![k], p) == if k.1 == p {
            seq![k]
        } else {
            Seq::<(SchemaVersion, Seq<char>, Seq<char>)>::empty()
        },
{
    assert(seq![k].drop_last() =~= Seq::<(SchemaVersion, Seq<char>, Seq<char>)>::empty());
    assert(keys_at_path(Seq::<(SchemaVersion, Seq<char>, Seq<char>)>::empty(), p) =~= Seq::<
        (SchemaVersion, Seq<char>, Seq<char>),
    >::empty());
    assert(keys_at_path(seq![k], p) =~= (if k.1 == p {
        seq![k]
    } else {
        Seq::<(SchemaVersion, Seq<char>, Seq<char>)>::empty()
    }));
}

/// Keys ordered by path: no key's path is below an earlier one's.
pub open spec fn keys_ordered(k: Seq<(SchemaVersion, Seq<char>, Seq<char>)>) -> bool {
    forall|i: int, j: int| 0 <= i < j < k.len() ==> !text_lt(#[trigger] k[j].1, #[trigger] k[i].1)
}

proof fn lemma_keys_at_path_members(s: Seq<(SchemaVersion, Seq<char>, Seq<char>)>, p: Seq<char>)
    ensures
        forall|i: int| 0 <= i < keys_at_path(s, p).len() ==> (#[trigger] keys_at_path(s, p)[i]).1 == p
            && s.contains(keys_at_path(s, p)[i]),
    decreases s.len(),
{
    if s.len() > 0 {
        lemma_keys_at_path_members(s.drop_last(), p);
        let d = keys_at_path(s.drop_last(), p);
        assert forall|i: int| 0 <= i < keys_at_path(s, p).len() implies (#[trigger] keys_at_path(s, p)[i]).1
            == p && s.contains(keys_at_path(s, p)[i]) by {
            if i < d.len() {
                assert(keys_at_path(s, p)[i] == d[i]);
                let m = choose|m: int| 0 <= m < s.drop_last().len() && s.drop_last()[m] == d[i];
                assert(s[m] == d[i]);
            } else {
                assert(keys_at_path(s, p)[i] == s.last());
                assert(s[s.len() - 1] == s.last());
            }
        }
    }
}

proof fn lemma_keys_at_path_hit(s: Seq<(SchemaVersion, Seq<char>, Seq<char>)>, i: int)
    requires
        0 <= i < s.len(),
    ensures
        keys_at_path(s, s[i].1).len() > 0,
    decreases s.len(),
{
    if i < s.len() - 1 {
        assert(s.drop_last()[i] == s[i]);
        lemma_keys_at_path_hit(s.drop_last(), i);
    }
}

proof fn lemma_ordered_keys_unique(
    x: Seq<(SchemaVersion, Seq<char>, Seq<char>)>,
    y: Seq<(SchemaVersion, Seq<char>, Seq<char>)>,
)
    requires
        keys_ordered(x),
        keys_ordered(y),
        forall|p: Seq<char>| #[trigger] keys_at_path(x, p) == keys_at_path(y, p),
    ensures
        x == y,
    decreases x.len() + y.len(),
{
    if x.len() == 0 && y.len() == 0 {
        assert(x =~= y);
    } else if x.len() == 0 {
        lemma_keys_at_path_hit(y, y.len() - 1);
        assert(keys_at_path(x, y.last().1) =~= Seq::<(SchemaVersion, Seq<char>, Seq<char>)>::empty());
        assert(keys_at_path(x, y.last().1) == keys_at_path(y, y.last().1));
    } else if y.len() == 0 {
        lemma_keys_at_path_hit(x, x.len() - 1);
        assert(keys_at_path(y, x.last().1) =~= Seq::<(SchemaVersion, Seq<char>, Seq<char>)>::empty());
        assert(keys_at_path(x, x.last().1) == keys_at_path(y, x.last().1));
    } else {
        let q = x.last().1;
        let r = y.last().1;
        lemma_keys_at_path_hit(x, x.len() - 1);
        lemma_keys_at_path_hit(y, y.len() - 1);
        assert(keys_at_path(x, q) == keys_at_path(y, q));
        assert(keys_at_path(x, r) == keys_at_path(y, r));
        lemma_keys_at_path_members(y, q);
        lemma_keys_at_path_members(x, r);
        let ky = keys_at_path(y, q)[0];
        assert(ky.1 == q && y.contains(ky));
        let m = choose|m: int| 0 <= m < y.len() && y[m] == ky;
        if m < y.len() - 1 {
            assert(!text_lt(y[y.len() - 1].1, y[m].1));
        }
        let kx = keys_at_path(x, r)[0];
        assert(kx.1 == r && x.contains(kx));
        let n = choose|n: int| 0 <= n < x.len() && x[n] == kx;
        if n < x.len() - 1 {
            assert(!text_lt(x[x.len() - 1].1, x[n].1));
        }
        lemma_text_trichotomy(q, r);
        assert(q == r);
        assert(keys_at_path(x, q) == keys_at_path(x.drop_last(), q) + seq![x.last()]);
        assert(keys_at_path(y, q) == keys_at_path(y.drop_last(), q) + seq![y.last()]);
        assert(x.last() == keys_at_path(x, q).last());
        assert(y.last() == keys_at_path(y, q).last());
        assert(keys_at_path(x.drop_last(), q) =~= keys_at_path(x, q).drop_last());
        assert(keys_at_path(y.drop_last(), q) =~= keys_at_path(y, q).drop_last());
        assert forall|p: Seq<char>| #[trigger] keys_at_path(x.drop_last(), p) == keys_at_path(
            y.drop_last(),
            p,
        ) by {
            if p != q {
                assert(keys_at_path(x, p) =~= keys_at_path(x.drop_last(), p));
                assert(keys_at_path(y, p) =~= keys_at_path(y.drop_last(), p));
            }
            assert(keys_at_path(x, p) == keys_at_path(y, p));
        }
        assert(keys_ordered(x.drop_last()));
        assert(keys_ordered(y.drop_last()));
        lemma_ordered_keys_unique(x.drop_last(), y.drop_last());
        assert(x =~= x.drop_last().push(x.last()));
        assert(y =~= y.drop_last().push(y.last()));
    }
}

/// Resources ordered by path, with resources of one path in a given order,
/// are laid out one way only: so refreshing a package whose digests were
/// already refreshed gives back the same resources in the same order.
pub proof fn lemma_path_order_is_unique(a: Seq<CapabilityPackageResource>, b: Seq<CapabilityPackageResource>)
    requires
        paths_ordered(a),
        paths_ordered(b),
        forall|p: Seq<char>| #[trigger] keys_at_path(resource_keys(a), p) == keys_at_path(resource_keys(b), p),
    ensures
        resource_keys(a) == resource_keys(b),
{
    let x = resource_keys(a);
    let y = resource_keys(b);
    assert forall|i: int, j: int| 0 <= i < j < x.len() implies !text_lt(#[trigger] x[j].1, #[trigger] x[i].1) by {
        assert(x[j].1 == a[j].relative_path@ && x[i].1 == a[i].relative_path@);
    }
    assert forall|i: int, j: int| 0 <= i < j < y.len() implies !text_lt(#[trigger] y[j].1, #[trigger] y[i].1) by {
        assert(y[j].1 == b[j].relative_path@ && y[i].1 == b[i].relative_path@);
    }
    lemma_ordered_keys_unique(x, y);
}

proof fn lemma_insert_keeps_order(out: Seq<CapabilityPackageResource>, pos: int, x: CapabilityPackageResource)
    requires
        paths_ordered(out),
        0 <= pos <= out.len(),
        forall|k: int| 0 <= k < pos ==> !text_lt(x.relative_path@, #[trigger] out[k].relative_path@),
        pos < out.len() ==> text_lt(x.relative_path@, out[pos].relative_path@),
    ensures
        paths_ordered(out.insert(pos, x)),
{
    let s = out.insert(pos, x);
    assert forall|i: int, j: int| 0 <= i < j < s.len() implies !text_lt(
        #[trigger] s[j].relative_path@,
        #[trigger] s[i].relative_path@,
    ) by {
        if j < pos {
            assert(s[i] == out[i] && s[j] == out[j]);
        } else if j == pos {
            assert(s[j] == x && s[i] == out[i]);
        } else if i == pos {
            assert(s[i] == x && s[j] == out[j - 1]);
            lemma_text_lt_asymmetric(x.relative_path@, out[pos].relative_path@);
            if j - 1 > pos {
                if text_lt(out[j - 1].relative_path@, x.relative_path@) {
                    lemma_bytes_lt_transitive(
                        utf8_of(out[j - 1].relative_path@),
                        utf8_of(x.relative_path@),
                        utf8_of(out[pos].relative_path@),
                        0,
                    );
                    assert(!text_lt(out[j - 1].relative_path@, out[pos].relative_path@));
                }
            }
        } else if i < pos {
            assert(s[i] == out[i] && s[j] == out[j - 1]);
        } else {
            assert(s[i] == out[i - 1] && s[j] == out[j - 1]);
        }
    }
}

#[derive(Debug, Clone, PartialEq, Eq)]
pub struct SignedCapabilityPackage {
    pub schema_version: SchemaVersion,
    pub manifest: CapabilityPackageManifest,
    pub resources: Vec<CapabilityPackageResource>,
    pub package_digest: SchemaDigest,
    pub signature: PackageSignature,
}

impl SignedCapabilityPackage {
    /// The resources, taken as a whole: each valid, with paths that differ
    /// even case-folded, distinct digests, strictly sorted paths, at most
    /// the manifest's unpacked size, and exactly the contributions' payloads.
    pub open spec fn resources_valid(&self) -> bool {
        &&& forall|i: int| 0 <= i < self.resources@.len() ==> (#[trigger] self.resources@[i]).valid()
        &&& casefold_distinct(self.resources@)
        &&& distinct_texts(resource_digests(self.resources@))
        &&& total_content_bytes(self.resources@) <= self.manifest.max_unpacked_bytes
        &&& strictly_sorted(resource_paths(self.resources@))
        &&& covers(payload_digests(self.manifest.contributions@), resource_digests(self.resources@))
        &&& covers(resource_digests(self.resources@), payload_digests(self.manifest.contributions@))
    }

    /// A valid package whose body digest and package digest both match its contents.
    pub open spec fn valid(&self) -> bool {
        &&& self.schema_version.0 != 0
        &&& self.resources@.len() > 0
        &&& self.manifest.valid()
        &&& self.signature.valid()
        &&& is_canonical_digest(self.package_digest.0@)
        &&& self.resources_valid()
        &&& self.manifest.body_digest.0@ == canonical_digest_text(body_material(self.resources@))
        &&& self.package_digest.0@ == canonical_digest_text(
            package_material(self.manifest, self.resources@),
        )
    }

    fn check_each_resource(&self) -> (r: Result<(), Error>)
        ensures
            r is Ok <==> forall|i: int|
                0 <= i < self.resources@.len() ==> (#[trigger] self.resources@[i]).valid(),
    {
        let mut i: usize = 0;
        while i < self.resources.len()
            invariant
                i <= self.resources@.len(),
                forall|j: int| 0 <= j < i ==> (#[trigger] self.resources@[j]).valid(),
            decreases self.resources.len() - i,
        {
            self.resources[i].validate()?;
            i = i + 1;
        }
        Ok(())
    }

    fn check_resources(&self) -> (r: Result<(), Error>)
        ensures
            r is Ok <==> self.resources_valid(),
    {
        self.check_each_resource()?;
        if !check_casefold_distinct(&self.resources) {
            return Err(Error("package resource path is duplicated".to_string()));
        }
        let digests = collect_resource_digests(&self.resources);
        if !check_distinct_texts(&digests) {
            return Err(Error("package resource content digest is duplicated".to_string()));
        }
        let total = match checked_total_content_bytes(&self.resources) {
            Some(t) => t,
            None => {
                return Err(Error("package resource size overflowed".to_string()));
            },
        };
        let paths = collect_resource_paths(&self.resources);
        if !check_strictly_sorted(&paths) || total > self.manifest.max_unpacked_bytes {
            return Err(Error("package resources are unordered or oversized".to_string()));
        }
        let declared = collect_payload_digests(&self.manifest.contributions);
        if !check_covers(&declared, &digests) || !check_covers(&digests, &declared) {
            return Err(Error("package resources are not a closed contribution payload set".to_string()));
        }
        Ok(())
    }

    pub fn validate(&self) -> (r: Result<(), Error>)
        ensures
            r is Ok <==> self.valid(),
    {
        if self.schema_version.0 == 0 || self.resources.len() == 0 {
            return Err(Error("signed capability package is incomplete".to_string()));
        }
        self.manifest.validate()?;
        self.signature.validate()?;
        if !canonical_sha256(&self.package_digest) {
            return Err(Error("package digest is not a canonical sha256 digest".to_string()));
        }
        self.check_resources()?;
        let body = encode_body_material(&self.resources);
        if !same_text(&self.manifest.body_digest.0, &canonical_digest(&body).0) {
            return Err(Error("package body digest does not match resources".to_string()));
        }
        let material = encode_package_material(&self.manifest, &self.resources);
        if !same_text(&self.package_digest.0, &canonical_digest(&material).0) {
            return Err(Error("package digest does not match manifest and resources".to_string()));
        }
        Ok(())
    }

    /// Recomputes every resource digest from its content, orders the
    /// resources by path, and sets the body and package digests to match.
    /// Refreshing a package whose digests are current changes nothing.
    pub fn refresh_digests(&mut self) -> (r: Result<(), Error>)
        ensures
            r is Ok,
            digests_current(*final(self)),
            digests_current(*old(self)) ==> same_package_view(*final(self), *old(self)),
            final(self).schema_version == old(self).schema_version,
            final(self).signature == old(self).signature,
            same_but_body_digest(final(self).manifest, old(self).manifest),
            resource_keys(final(self).resources@).to_multiset() == resource_keys(
                old(self).resources@,
            ).to_multiset(),
            forall|i: int|
                0 <= i < final(self).resources@.len() ==> (#[trigger] final(self).resources@[i]).digest.0@
                    == content_digest_text(bytes_of(final(self).resources@[i].content@)),
            paths_ordered(final(self).resources@),
            forall|p: Seq<char>| #[trigger] keys_at_path(resource_keys(final(self).resources@), p)
                == keys_at_path(resource_keys(old(self).resources@), p),
            final(self).manifest.body_digest.0@ == canonical_digest_text(
                body_material(final(self).resources@),
            ),
            final(self).package_digest.0@ == canonical_digest_text(
                package_material(final(self).manifest, final(self).resources@),
            ),
    {
        let mut src: Vec<CapabilityPackageResource> = Vec::new();
        std::mem::swap(&mut src, &mut self.resources);
        let ghost original = src@;
        let mut out: Vec<CapabilityPackageResource> = Vec::new();
        proof {
            broadcast use vstd::seq_lib::group_to_multiset_ensures;

            assert(resource_keys(out@) =~= Seq::empty());
            assert(src@ =~= original.subrange(0, original.len() as int));
            assert forall|p: Seq<char>| #[trigger] keys_at_path(resource_keys(out@), p) + keys_at_path(
                resource_keys(src@),
                p,
            ) == keys_at_path(resource_keys(original), p) by {
                assert(keys_at_path(resource_keys(out@), p) =~= Seq::<(SchemaVersion, Seq<char>, Seq<char>)>::empty());
                assert(src@ == original);
                assert(keys_at_path(resource_keys(out@), p) + keys_at_path(resource_keys(src@), p)
                    =~= keys_at_path(resource_keys(src@), p));
            }
        }
        while src.len() > 0
            invariant
                resource_keys(out@).to_multiset().add(resource_keys(src@).to_multiset())
                    == resource_keys(original).to_multiset(),
                forall|p: Seq<char>| #[trigger] keys_at_path(resource_keys(out@), p) + keys_at_path(
                    resource_keys(src@),
                    p,
                ) == keys_at_path(resource_keys(original), p),
                paths_ordered(out@),
                forall|i: int|
                    0 <= i < out@.len() ==> (#[trigger] out@[i]).digest.0@ == content_digest_text(
                        bytes_of(out@[i].content@),
                    ),
            decreases src.len(),
        {
            let ghost before_src = src@;
            let ghost before_out = out@;
            let mut x = src.remove(0);
            x.digest = sha256_content_digest(x.content.as_str().as_bytes());
            let pos = insertion_point(&out, &x.relative_path);
            proof {
                lemma_insert_keeps_order(out@, pos as int, x);
            }
            out.insert(pos, x);
            proof {
                broadcast use vstd::seq_lib::group_to_multiset_ensures;

                assert(resource_keys(src@) =~= resource_keys(before_src).remove(0));
                assert(resource_keys(out@) =~= resource_keys(before_out).insert(pos as int, resource_key(x)));
                assert(resource_key(x) == resource_keys(before_src)[0]);
                assert(resource_keys(out@).to_multiset().add(resource_keys(src@).to_multiset())
                    =~= resource_keys(before_out).to_multiset().add(resource_keys(before_src).to_multiset()));
                let kx = resource_key(x);
                let bo = resource_keys(before_out);
                let pre = bo.subrange(0, pos as int);
                let post = bo.subrange(pos as int, bo.len() as int);
                assert(bo =~= pre + post);
                assert(resource_keys(out@) =~= pre + seq![kx] + post);
                assert(resource_keys(before_src) =~= seq![kx] + resource_keys(src@));
                assert forall|j: int| 0 <= j < post.len() implies (#[trigger] post[j]).1 != kx.1 by {
                    assert(post[j] == resource_key(before_out[pos + j]));
                    assert(text_lt(x.relative_path@, before_out[pos as int].relative_path@));
                    if j > 0 {
                        assert(!text_lt(before_out[pos + j].relative_path@, before_out[pos as int].relative_path@));
                    }
                    lemma_text_lt_irreflexive(x.relative_path@);
                }
                lemma_keys_at_path_none(post, kx.1);
                assert forall|p: Seq<char>| #[trigger] keys_at_path(resource_keys(out@), p) + keys_at_path(
                    resource_keys(src@),
                    p,
                ) == keys_at_path(resource_keys(original), p) by {
                    lemma_keys_at_path_add(pre, post, p);
                    lemma_keys_at_path_add(pre + seq![kx], post, p);
                    lemma_keys_at_path_add(pre, seq![kx], p);
                    lemma_keys_at_path_add(seq![kx], resource_keys(src@), p);
                    lemma_keys_at_path_one(kx, p);
                    if p == kx.1 {
                        assert(keys_at_path(resource_keys(out@), p) + keys_at_path(resource_keys(src@), p)
                            =~= keys_at_path(bo, p) + keys_at_path(resource_keys(before_src), p));
                    } else {
                        assert(keys_at_path(resource_keys(out@), p) + keys_at_path(resource_keys(src@), p)
                            =~= keys_at_path(bo, p) + keys_at_path(resource_keys(before_src), p));
                    }
                }
            }
        }
        proof {
            broadcast use vstd::seq_lib::group_to_multiset_ensures;

            assert(resource_keys(src@) =~= Seq::empty());
            assert(resource_keys(out@).to_multiset() =~= resource_keys(out@).to_multiset().add(
                resource_keys(src@).to_multiset(),
            ));
            assert forall|p: Seq<char>| #[trigger] keys_at_path(resource_keys(out@), p)
                == keys_at_path(resource_keys(original), p) by {
                assert(keys_at_path(resource_keys(src@), p) =~= Seq::<(SchemaVersion, Seq<char>, Seq<char>)>::empty());
                assert(keys_at_path(resource_keys(out@), p) + keys_at_path(resource_keys(src@), p)
                    =~= keys_at_path(resource_keys(out@), p));
            }
        }
        self.resources = out;
        let body = encode_body_material(&self.resources);
        self.manifest.body_digest = canonical_digest(&body);
        let material = encode_package_material(&self.manifest, &self.resources);
        self.package_digest = canonical_digest(&material);
        proof {
            if digests_current(*old(self)) {
                lemma_path_order_is_unique(self.resources@, old(self).resources@);
                let a = self.resources@;
                let b = old(self).resources@;
                assert(resource_keys(a).len() == a.len() && resource_keys(b).len() == b.len());
                assert(a.len() == b.len());
                assert forall|i: int| 0 <= i < a.len() implies (#[trigger] a[i]).relative_path@
                    == b[i].relative_path@ && a[i].digest.0@ == b[i].digest.0@ by {
                    assert(resource_keys(a)[i] == resource_key(a[i]));
                    assert(resource_keys(b)[i] == resource_key(b[i]));
                    assert(resource_keys(a)[i] == resource_keys(b)[i]);
                }
                lemma_joined_refs_same(Seq::<u8>::empty() + seq![0x5bu8], a, b);
                assert(body_material(a) == body_material(b));
                assert(self.manifest.body_digest.0@ == old(self).manifest.body_digest.0@);
                lemma_joined_refs_same(
                    self.manifest.put_canonical(seq![0x5bu8]) + seq![0x2cu8] + seq![0x5bu8],
                    a,
                    b,
                );
                assert(self.manifest == (CapabilityPackageManifest {
                    body_digest: self.manifest.body_digest,
                    ..old(self).manifest
                }));
                lemma_manifest_canonical_same(old(self).manifest, self.manifest, seq![0x5bu8]);
            }
        }
        Ok(())
    }
}

/// The package's resources are ordered by path and every digest matches
/// what it covers.
pub open spec fn digests_current(p: SignedCapabilityPackage) -> bool {
    &&& paths_ordered(p.resources@)
    &&& forall|i: int|
        0 <= i < p.resources@.len() ==> (#[trigger] p.resources@[i]).digest.0@ == content_digest_text(
            bytes_of(p.resources@[i].content@),
        )
    &&& p.manifest.body_digest.0@ == canonical_digest_text(body_material(p.resources@))
    &&& p.package_digest.0@ == canonical_digest_text(package_material(p.manifest, p.resources@))
}

/// Two packages say the same thing, their strings read by their text.
pub open spec fn same_package_view(a: SignedCapabilityPackage, b: SignedCapabilityPackage) -> bool {
    &&& a.schema_version == b.schema_version
    &&& a.signature == b.signature
    &&& same_but_body_digest(a.manifest, b.manifest)
    &&& a.manifest.body_digest.0@ == b.manifest.body_digest.0@
    &&& resource_keys(a.resources@) == resource_keys(b.resources@)
    &&& forall|i: int|
        0 <= i < a.resources@.len() ==> (#[trigger] a.resources@[i]).digest.0@ == b.resources@[i].digest.0@
    &&& a.package_digest.0@ == b.package_digest.0@
}

proof fn lemma_manifest_canonical_same(
    m1: CapabilityPackageManifest,
    m2: CapabilityPackageManifest,
    acc: Seq<u8>,
)
    requires
        m2 == (CapabilityPackageManifest { body_digest: m2.body_digest, ..m1 }),
        m1.body_digest.0@ == m2.body_digest.0@,
    ensures
        m1.put_canonical(acc) == m2.put_canonical(acc),
{
    reveal(CapabilityPackageManifest::put_canonical);
}

proof fn lemma_joined_refs_same(
    acc: Seq<u8>,
    a: Seq<CapabilityPackageResource>,
    b: Seq<CapabilityPackageResource>,
)
    requires
        a.len() == b.len(),
        forall|i: int| 0 <= i < a.len() ==> (#[trigger] a[i]).relative_path@ == b[i].relative_path@
            && a[i].digest.0@ == b[i].digest.0@,
    ensures
        joined_resource_refs(acc, a) == joined_resource_refs(acc, b),
    decreases a.len(),
{
    if a.len() > 1 {
        assert forall|i: int| 0 <= i < a.drop_last().len() implies (#[trigger] a.drop_last()[i]).relative_path@
            == b.drop_last()[i].relative_path@ && a.drop_last()[i].digest.0@ == b.drop_last()[i].digest.0@ by {
            assert(a.drop_last()[i] == a[i] && b.drop_last()[i] == b[i]);
        }
        lemma_joined_refs_same(acc, a.drop_last(), b.drop_last());
        assert(a.last() == a[a.len() - 1] && b.last() == b[b.len() - 1]);
    } else if a.len() == 1 {
        assert(a[0].relative_path@ == b[0].relative_path@);
    }
}

/// The manifests agree in everything but the body digest.
pub open spec fn same_but_body_digest(a: CapabilityPackageManifest, b: CapabilityPackageManifest) -> bool {
    &&& a.schema_version == b.schema_version
    &&& a.package == b.package
    &&& a.release == b.release
    &&& a.version == b.version
    &&& a.kind == b.kind
    &&& a.publisher == b.publisher
    &&& a.scope == b.scope
    &&& a.contributions == b.contributions
    &&& a.dependencies == b.dependencies
    &&& a.sbom_digest == b.sbom_digest
    &&& a.license_expression == b.license_expression
    &&& a.max_unpacked_bytes == b.max_unpacked_bytes
    &&& a.contains_executable == b.contains_executable
}
#[derive(Debug, Clone, PartialEq, Eq)]
pub struct CapabilityAdmissionPolicy {
    pub schema_version: SchemaVersion,
    pub reference: CapabilityPolicyRef,
    pub version: Version,
    pub allowed_kinds: Vec<CapabilityPackageKind>,
    pub allowed_licenses: Vec<String>,
    pub max_package_bytes: u64,
    pub max_dependencies: u32,
    pub max_depth: u32,
    pub allow_network: bool,
    pub allow_hooks: bool,
}

impl CapabilityAdmissionPolicy {
    pub open spec fn valid(&self) -> bool {
        &&& self.schema_version.0 != 0
        &&& self.allowed_kinds@.len() > 0
        &&& self.allowed_licenses@.len() > 0
        &&& self.max_package_bytes != 0
        &&& self.max_depth != 0
        &&& !is_blank(self.reference.0@)
        &&& self.version.0 != 0
        &&& tags_increasing(self.allowed_kinds@)
        &&& strictly_sorted(self.allowed_licenses@)
    }

    pub fn validate(&self) -> (r: Result<(), Error>)
        ensures
            r is Ok <==> self.valid(),
    {
        if self.schema_version.0 == 0 || self.allowed_kinds.len() == 0
            || self.allowed_licenses.len() == 0 || self.max_package_bytes == 0 || self.max_depth
            == 0 {
            return Err(Error("capability admission policy is incomplete".to_string()));
        }
        if blank(self.reference.0.as_str()) {
            return Err(Error("capability admission policy is incomplete".to_string()));
        }
        if self.version.0 == 0 {
            return Err(Error("capability admission policy version must be non-zero".to_string()));
        }
        if !check_tags_increasing(&self.allowed_kinds) {
            return Err(Error("allowed package kinds must be sorted and unique".to_string()));
        }
        if !check_strictly_sorted(&self.allowed_licenses) {
            return Err(Error("allowed package licenses must be sorted and unique".to_string()));
        }
        Ok(())
    }

    pub open spec fn put_canonical(&self, acc: Seq<u8>) -> Seq<u8> {
        let a = with_key(acc + seq![0x7bu8], "schema_version"@) + json_int(self.schema_version.0 as int);
        let a = with_key(a + seq![0x2cu8], "reference"@) + json_string(self.reference.0@);
        let a = with_key(a + seq![0x2cu8], "version"@) + json_int(self.version.0 as int);
        let a = with_names(with_key(a + seq![0x2cu8], "allowed_kinds"@), self.allowed_kinds@);
        let a = with_texts(with_key(a + seq![0x2cu8], "allowed_licenses"@), self.allowed_licenses@);
        let a = with_key(a + seq![0x2cu8], "max_package_bytes"@) + json_int(self.max_package_bytes as int);
        let a = with_key(a + seq![0x2cu8], "max_dependencies"@) + json_int(self.max_dependencies as int);
        let a = with_key(a + seq![0x2cu8], "max_depth"@) + json_int(self.max_depth as int);
        let a = with_key(a + seq![0x2cu8], "allow_network"@) + json_bool(self.allow_network);
        let a = with_key(a + seq![0x2cu8], "allow_hooks"@) + json_bool(self.allow_hooks);
        a + seq![0x7du8]
    }

    pub fn write_canonical(&self, buf: &mut Vec<u8>)
        ensures
            final(buf)@ == self.put_canonical(old(buf)@),
    {
        put_mark(buf, 0x7b);
        put_key(buf, "schema_version");
        put_u64(buf, self.schema_version.0 as u64);
        put_mark(buf, 0x2c);
        put_key(buf, "reference");
        put_str(buf, self.reference.0.as_str());
        put_mark(buf, 0x2c);
        put_key(buf, "version");
        put_u64(buf, self.version.0 as u64);
        put_mark(buf, 0x2c);
        put_key(buf, "allowed_kinds");
        put_names(buf, &self.allowed_kinds);
        put_mark(buf, 0x2c);
        put_key(buf, "allowed_licenses");
        put_texts(buf, &self.allowed_licenses);
        put_mark(buf, 0x2c);
        put_key(buf, "max_package_bytes");
        put_u64(buf, self.max_package_bytes as u64);
        put_mark(buf, 0x2c);
        put_key(buf, "max_dependencies");
        put_u64(buf, self.max_dependencies as u64);
        put_mark(buf, 0x2c);
        put_key(buf, "max_depth");
        put_u64(buf, self.max_depth as u64);
        put_mark(buf, 0x2c);
        put_key(buf, "allow_network");
        put_bool(buf, self.allow_network);
        put_mark(buf, 0x2c);
        put_key(buf, "allow_hooks");
        put_bool(buf, self.allow_hooks);
        put_mark(buf, 0x7d);
    }
}

#[derive(Debug, Clone, PartialEq, Eq)]
pub struct CapabilityAdmissionCheck {
    pub schema_version: SchemaVersion,
    pub kind: CapabilityAdmissionCheckKind,
    pub verdict: CapabilityAdmissionVerdict,
    pub evidence: EvidenceRef,
}

impl CapabilityAdmissionCheck {
    pub open spec fn valid(&self) -> bool {
        self.schema_version.0 != 0 && !is_blank(self.evidence.0@)
    }

    pub fn validate(&self) -> (r: Result<(), Error>)
        ensures
            r is Ok <==> self.valid(),
    {
        if self.schema_version.0 == 0 {
            return Err(Error("capability admission check schema is invalid".to_string()));
        }
        if blank(self.evidence.0.as_str()) {
            return Err(Error("capability admission evidence is incomplete".to_string()));
        }
        Ok(())
    }

    pub open spec fn put_canonical(&self, acc: Seq<u8>) -> Seq<u8> {
        let a = with_key(acc + seq![0x7bu8], "schema_version"@) + json_int(self.schema_version.0 as int);
        let a = with_key(a + seq![0x2cu8], "kind"@) + json_string(self.kind.wire_name());
        let a = with_key(a + seq![0x2cu8], "verdict"@) + json_string(self.verdict.wire_name());
        let a = with_key(a + seq![0x2cu8], "evidence"@) + json_string(self.evidence.0@);
        a + seq![0x7du8]
    }

    pub fn write_canonical(&self, buf: &mut Vec<u8>)
        ensures
            final(buf)@ == self.put_canonical(old(buf)@),
    {
        put_mark(buf, 0x7b);
        put_key(buf, "schema_version");
        put_u64(buf, self.schema_version.0 as u64);
        put_mark(buf, 0x2c);
        put_key(buf, "kind");
        put_str(buf, self.kind.wire_str());
        put_mark(buf, 0x2c);
        put_key(buf, "verdict");
        put_str(buf, self.verdict.wire_str());
        put_mark(buf, 0x2c);
        put_key(buf, "evidence");
        put_str(buf, self.evidence.0.as_str());
        put_mark(buf, 0x7d);
    }
}

/// A JSON array of admission checks, written after `acc`.
pub open spec fn with_checks(acc: Seq<u8>, v: Seq<CapabilityAdmissionCheck>) -> Seq<u8> {
    joined_checks(acc + seq![0x5bu8], v) + seq![0x5du8]
}

pub open spec fn joined_checks(acc: Seq<u8>, v: Seq<CapabilityAdmissionCheck>) -> Seq<u8>
    decreases v.len(),
{
    if v.len() == 0 {
        acc
    } else if v.len() == 1 {
        v[0].put_canonical(acc)
    } else {
        v.last().put_canonical(joined_checks(acc, v.drop_last()) + seq![0x2cu8])
    }
}

pub fn put_checks(buf: &mut Vec<u8>, v: &Vec<CapabilityAdmissionCheck>)
    ensures
        final(buf)@ == with_checks(old(buf)@, v@),
{
    let ghost start = buf@;
    buf.push(0x5b);
    let ghost open_acc = start + seq![0x5bu8];
    assert(buf@ =~= open_acc);
    let mut i: usize = 0;
    while i < v.len()
        invariant
            i <= v.len(),
            buf@ == joined_checks(open_acc, v@.subrange(0, i as int)),
        decreases v.len() - i,
    {
        let ghost prefix = v@.subrange(0, i as int);
        let ghost next = v@.subrange(0, i + 1);
        proof {
            assert(next.drop_last() =~= prefix);
            assert(next.last() == v@[i as int]);
        }
        if i > 0 {
            put_mark(buf, 0x2c);
            v[i].write_canonical(buf);
            proof {
                assert(next.len() > 1);
                assert(joined_checks(open_acc, next) == next.last().put_canonical(
                    joined_checks(open_acc, next.drop_last()) + seq![0x2cu8],
                ));
            }
        } else {
            v[i].write_canonical(buf);
            proof {
                assert(next.len() == 1);
                assert(next[0] == v@[0]);
                assert(joined_checks(open_acc, next) == next[0].put_canonical(open_acc));
            }
        }
        i = i + 1;
    }
    put_mark(buf, 0x5d);
    assert(v@.subrange(0, i as int) =~= v@);
}

#[derive(Debug, Clone, PartialEq, Eq)]
pub struct CapabilityPackageAdmission {
    pub schema_version: SchemaVersion,
    pub reference: CapabilityAdmissionRef,
    pub package: CapabilityPackageRef,
    pub release: CapabilityReleaseRef,
    pub package_digest: SchemaDigest,
    pub publisher_grant: CapabilityPublisherGrantRef,
    pub publisher_version: Version,
    pub policy: CapabilityPolicyRef,
    pub policy_version: Version,
    pub checks: Vec<CapabilityAdmissionCheck>,
    pub dependencies: Vec<CapabilityPackageDependency>,
    pub admitted_at: Timestamp,
}

impl CapabilityPackageAdmission {
    /// Every hard check ran, in order, and passed.
    pub open spec fn checks_passed(&self) -> bool {
        &&& self.checks@.len() == hard_check_count()
        &&& forall|i: int| 0 <= i < self.checks@.len() ==> {
            &&& (#[trigger] self.checks@[i]).valid()
            &&& self.checks@[i].kind.tag() == i
            &&& self.checks@[i].verdict == CapabilityAdmissionVerdict::Pass
        }
    }

    pub open spec fn valid(&self) -> bool {
        &&& self.schema_version.0 != 0
        &&& self.admitted_at > 0
        &&& !is_blank(self.reference.0@)
        &&& !is_blank(self.package.0@)
        &&& !is_blank(self.release.0@)
        &&& is_canonical_digest(self.package_digest.0@)
        &&& !is_blank(self.publisher_grant.0@)
        &&& self.publisher_version.0 != 0
        &&& !is_blank(self.policy.0@)
        &&& self.policy_version.0 != 0
        &&& self.checks_passed()
        &&& forall|i: int| 0 <= i < self.dependencies@.len() ==> (#[trigger] self.dependencies@[i]).valid()
        &&& dependencies_sorted(self.dependencies@)
    }

    fn check_checks(&self) -> (r: Result<(), Error>)
        ensures
            r is Ok <==> self.checks_passed(),
    {
        if self.checks.len() != 13 {
            return Err(Error("admission does not contain every hard check".to_string()));
        }
        let mut i: usize = 0;
        while i < 13
            invariant
                self.checks@.len() == 13,
                i <= 13,
                forall|j: int| 0 <= j < i ==> {
                    &&& (#[trigger] self.checks@[j]).valid()
                    &&& self.checks@[j].kind.tag() == j
                    &&& self.checks@[j].verdict == CapabilityAdmissionVerdict::Pass
                },
            decreases 13 - i,
        {
            let check = &self.checks[i];
            check.validate()?;
            if check.kind.tag_of() as usize != i || check.verdict != CapabilityAdmissionVerdict::Pass {
                return Err(Error("admission hard checks did not all pass".to_string()));
            }
            i = i + 1;
        }
        Ok(())
    }

    fn check_dependencies(&self) -> (r: Result<(), Error>)
        ensures
            r is Ok <==> forall|i: int|
                0 <= i < self.dependencies@.len() ==> (#[trigger] self.dependencies@[i]).valid(),
    {
        let mut i: usize = 0;
        while i < self.dependencies.len()
            invariant
                i <= self.dependencies@.len(),
                forall|j: int| 0 <= j < i ==> (#[trigger] self.dependencies@[j]).valid(),
            decreases self.dependencies.len() - i,
        {
            self.dependencies[i].validate()?;
            i = i + 1;
        }
        Ok(())
    }

    pub fn validate(&self) -> (r: Result<(), Error>)
        ensures
            r is Ok <==> self.valid(),
    {
        if self.schema_version.0 == 0 || self.admitted_at <= 0 {
            return Err(Error("capability package admission is incomplete".to_string()));
        }
        if blank(self.reference.0.as_str()) || blank(self.package.0.as_str()) || blank(
            self.release.0.as_str(),
        ) {
            return Err(Error("capability package admission is incomplete".to_string()));
        }
        if !canonical_sha256(&self.package_digest) {
            return Err(Error("admitted package digest is not a canonical sha256 digest".to_string()));
        }
        if blank(self.publisher_grant.0.as_str()) || self.publisher_version.0 == 0 || blank(
            self.policy.0.as_str(),
        ) || self.policy_version.0 == 0 {
            return Err(Error("capability package admission is incomplete".to_string()));
        }
        self.check_checks()?;
        self.check_dependencies()?;
        if !check_dependencies_sorted(&self.dependencies) {
            return Err(Error("admitted dependencies must be sorted and unique".to_string()));
        }
        Ok(())
    }

    #[verifier::opaque]
    pub open spec fn put_canonical(&self, acc: Seq<u8>) -> Seq<u8> {
        let a = with_key(acc + seq![0x7bu8], "schema_version"@) + json_int(self.schema_version.0 as int);
        let a = with_key(a + seq![0x2cu8], "reference"@) + json_string(self.reference.0@);
        let a = with_key(a + seq![0x2cu8], "package"@) + json_string(self.package.0@);
        let a = with_key(a + seq![0x2cu8], "release"@) + json_string(self.release.0@);
        let a = with_key(a + seq![0x2cu8], "package_digest"@) + json_string(self.package_digest.0@);
        let a = with_key(a + seq![0x2cu8], "publisher_grant"@) + json_string(self.publisher_grant.0@);
        let a = with_key(a + seq![0x2cu8], "publisher_version"@) + json_int(self.publisher_version.0 as int);
        let a = with_key(a + seq![0x2cu8], "policy"@) + json_string(self.policy.0@);
        let a = with_key(a + seq![0x2cu8], "policy_version"@) + json_int(self.policy_version.0 as int);
        let a = with_checks(with_key(a + seq![0x2cu8], "checks"@), self.checks@);
        let a = with_dependencies(with_key(a + seq![0x2cu8], "dependencies"@), self.dependencies@);
        let a = with_key(a + seq![0x2cu8], "admitted_at"@) + json_int(self.admitted_at as int);
        a + seq![0x7du8]
    }

    pub fn write_canonical(&self, buf: &mut Vec<u8>)
        ensures
            final(buf)@ == self.put_canonical(old(buf)@),
    {
        put_mark(buf, 0x7b);
        put_key(buf, "schema_version");
        put_u64(buf, self.schema_version.0 as u64);
        put_mark(buf, 0x2c);
        put_key(buf, "reference");
        put_str(buf, self.reference.0.as_str());
        put_mark(buf, 0x2c);
        put_key(buf, "package");
        put_str(buf, self.package.0.as_str());
        put_mark(buf, 0x2c);
        put_key(buf, "release");
        put_str(buf, self.release.0.as_str());
        put_mark(buf, 0x2c);
        put_key(buf, "package_digest");
        put_str(buf, self.package_digest.0.as_str());
        put_mark(buf, 0x2c);
        put_key(buf, "publisher_grant");
        put_str(buf, self.publisher_grant.0.as_str());
        put_mark(buf, 0x2c);
        put_key(buf, "publisher_version");
        put_u64(buf, self.publisher_version.0 as u64);
        put_mark(buf, 0x2c);
        put_key(buf, "policy");
        put_str(buf, self.policy.0.as_str());
        put_mark(buf, 0x2c);
        put_key(buf, "policy_version");
        put_u64(buf, self.policy_version.0 as u64);
        put_mark(buf, 0x2c);
        put_key(buf, "checks");
        put_checks(buf, &self.checks);
        put_mark(buf, 0x2c);
        put_key(buf, "dependencies");
        put_dependencies(buf, &self.dependencies);
        put_mark(buf, 0x2c);
        put_key(buf, "admitted_at");
        put_i64(buf, self.admitted_at);
        put_mark(buf, 0x7d);
        proof {
            reveal(CapabilityPackageAdmission::put_canonical);
        }
    }
}

/// A JSON array of package admissions, written after `acc`.
pub open spec fn with_admissions(acc: Seq<u8>, v: Seq<CapabilityPackageAdmission>) -> Seq<u8> {
    joined_admissions(acc + seq![0x5bu8], v) + seq![0x5du8]
}

pub open spec fn joined_admissions(acc: Seq<u8>, v: Seq<CapabilityPackageAdmission>) -> Seq<u8>
    decreases v.len(),
{
    if v.len() == 0 {
        acc
    } else if v.len() == 1 {
        v[0].put_canonical(acc)
    } else {
        v.last().put_canonical(joined_admissions(acc, v.drop_last()) + seq![0x2cu8])
    }
}

pub fn put_admissions(buf: &mut Vec<u8>, v: &Vec<CapabilityPackageAdmission>)
    ensures
        final(buf)@ == with_admissions(old(buf)@, v@),
{
    let ghost start = buf@;
    buf.push(0x5b);
    let ghost open_acc = start + seq![0x5bu8];
    assert(buf@ =~= open_acc);
    let mut i: usize = 0;
    while i < v.len()
        invariant
            i <= v.len(),
            buf@ == joined_admissions(open_acc, v@.subrange(0, i as int)),
        decreases v.len() - i,
    {
        let ghost prefix = v@.subrange(0, i as int);
        let ghost next = v@.subrange(0, i + 1);
        proof {
            assert(next.drop_last() =~= prefix);
            assert(next.last() == v@[i as int]);
        }
        if i > 0 {
            put_mark(buf, 0x2c);
            v[i].write_canonical(buf);
            proof {
                assert(next.len() > 1);
                assert(joined_admissions(open_acc, next) == next.last().put_canonical(
                    joined_admissions(open_acc, next.drop_last()) + seq![0x2cu8],
                ));
            }
        } else {
            v[i].write_canonical(buf);
            proof {
                assert(next.len() == 1);
                assert(next[0] == v@[0]);
                assert(joined_admissions(open_acc, next) == next[0].put_canonical(open_acc));
            }
        }
        i = i + 1;
    }
    put_mark(buf, 0x5d);
    assert(v@.subrange(0, i as int) =~= v@);
}
#[derive(Debug, Clone, PartialEq, Eq)]
pub struct CapabilityInstallPlan {
    pub schema_version: SchemaVersion,
    pub reference: CapabilityInstallPlanRef,
    pub operation: CapabilityPackageOperation,
    pub package: CapabilityPackageRef,
    pub release: CapabilityReleaseRef,
    pub package_digest: SchemaDigest,
    pub admission: CapabilityAdmissionRef,
    pub scope: Scope,
    pub policy: CapabilityPolicyRef,
    pub policy_version: Version,
    pub expected_version: EcosystemAggregateVersion,
    pub previous_release: Option<CapabilityReleaseRef>,
    pub rollback_boundary: RollbackBoundary,
    pub digest: PlanDigest,
}

impl CapabilityInstallPlan {
    /// The canonical form, with `d` in place of the digest.
    #[verifier::opaque]
    pub open spec fn put_with_digest(&self, acc: Seq<u8>, d: Seq<char>) -> Seq<u8> {
        let a = with_key(acc + seq![0x7bu8], "schema_version"@) + json_int(self.schema_version.0 as int);
        let a = with_key(a + seq![0x2cu8], "reference"@) + json_string(self.reference.0@);
        let a = with_key(a + seq![0x2cu8], "operation"@) + json_string(self.operation.wire_name());
        let a = with_key(a + seq![0x2cu8], "package"@) + json_string(self.package.0@);
        let a = with_key(a + seq![0x2cu8], "release"@) + json_string(self.release.0@);
        let a = with_key(a + seq![0x2cu8], "package_digest"@) + json_string(self.package_digest.0@);
        let a = with_key(a + seq![0x2cu8], "admission"@) + json_string(self.admission.0@);
        let a = with_key(a + seq![0x2cu8], "scope"@) + json_string(self.scope.0@);
        let a = with_key(a + seq![0x2cu8], "policy"@) + json_string(self.policy.0@);
        let a = with_key(a + seq![0x2cu8], "policy_version"@) + json_int(self.policy_version.0 as int);
        let a = self.expected_version.put_canonical(with_key(a + seq![0x2cu8], "expected_version"@));
        let a = match self.previous_release {
            Some(p) => with_key(a + seq![0x2cu8], "previous_release"@) + json_string(p.0@),
            None => a,
        };
        let a = with_key(a + seq![0x2cu8], "rollback_boundary"@) + json_string(self.rollback_boundary.0@);
        let a = with_key(a + seq![0x2cu8], "digest"@) + json_string(d);
        a + seq![0x7du8]
    }

    pub fn write_with_digest(&self, buf: &mut Vec<u8>, d: &str)
        ensures
            final(buf)@ == self.put_with_digest(old(buf)@, d@),
    {
        put_mark(buf, 0x7b);
        put_key(buf, "schema_version");
        put_u64(buf, self.schema_version.0 as u64);
        put_mark(buf, 0x2c);
        put_key(buf, "reference");
        put_str(buf, self.reference.0.as_str());
        put_mark(buf, 0x2c);
        put_key(buf, "operation");
        put_str(buf, self.operation.wire_str());
        put_mark(buf, 0x2c);
        put_key(buf, "package");
        put_str(buf, self.package.0.as_str());
        put_mark(buf, 0x2c);
        put_key(buf, "release");
        put_str(buf, self.release.0.as_str());
        put_mark(buf, 0x2c);
        put_key(buf, "package_digest");
        put_str(buf, self.package_digest.0.as_str());
        put_mark(buf, 0x2c);
        put_key(buf, "admission");
        put_str(buf, self.admission.0.as_str());
        put_mark(buf, 0x2c);
        put_key(buf, "scope");
        put_str(buf, self.scope.0.as_str());
        put_mark(buf, 0x2c);
        put_key(buf, "policy");
        put_str(buf, self.policy.0.as_str());
        put_mark(buf, 0x2c);
        put_key(buf, "policy_version");
        put_u64(buf, self.policy_version.0 as u64);
        put_mark(buf, 0x2c);
        put_key(buf, "expected_version");
        self.expected_version.write_canonical(buf);
        if let Some(p) = &self.previous_release {
            put_mark(buf, 0x2c);
            put_key(buf, "previous_release");
            put_str(buf, p.0.as_str());
        }
        put_mark(buf, 0x2c);
        put_key(buf, "rollback_boundary");
        put_str(buf, self.rollback_boundary.0.as_str());
        put_mark(buf, 0x2c);
        put_key(buf, "digest");
        put_str(buf, d);
        put_mark(buf, 0x7d);
        proof {
            reveal(CapabilityInstallPlan::put_with_digest);
        }
    }

    /// The canonical form as it stands, digest included.
    pub open spec fn put_canonical(&self, acc: Seq<u8>) -> Seq<u8> {
        self.put_with_digest(acc, self.digest.0@)
    }

    pub fn write_canonical(&self, buf: &mut Vec<u8>)
        ensures
            final(buf)@ == self.put_canonical(old(buf)@),
    {
        self.write_with_digest(buf, self.digest.0.as_str());
    }

    /// The canonical form with the digest cleared.
    pub open spec fn material(&self) -> Seq<u8> {
        self.put_with_digest(Seq::empty(), ""@)
    }

    pub fn encode_material(&self) -> (r: Vec<u8>)
        ensures
            r@ == self.material(),
    {
        let mut buf: Vec<u8> = Vec::new();
        self.write_with_digest(&mut buf, "");
        buf
    }

    /// An update or a rollback names the release it moves away from.
    pub open spec fn previous_release_ok(&self) -> bool {
        &&& (self.operation == CapabilityPackageOperation::Update || self.operation
            == CapabilityPackageOperation::Rollback) ==> self.previous_release is Some
        &&& self.previous_release matches Some(p) ==> !is_blank(p.0@)
    }

    pub open spec fn fields_valid(&self) -> bool {
        &&& self.schema_version.0 != 0
        &&& !is_blank(self.reference.0@)
        &&& !is_blank(self.package.0@)
        &&& !is_blank(self.release.0@)
        &&& is_canonical_digest(self.package_digest.0@)
        &&& !is_blank(self.admission.0@)
        &&& !is_blank(self.scope.0@)
        &&& !is_blank(self.policy.0@)
        &&& self.policy_version.0 != 0
        &&& self.expected_version.valid()
        &&& !is_blank(self.rollback_boundary.0@)
        &&& self.previous_release_ok()
    }

    pub open spec fn valid(&self) -> bool {
        &&& self.fields_valid()
        &&& self.digest.0@ == canonical_digest_text(self.material())
    }

    pub fn validate(&self) -> (r: Result<(), Error>)
        ensures
            r is Ok <==> self.valid(),
    {
        if self.schema_version.0 == 0 {
            return Err(Error("capability install plan schema is invalid".to_string()));
        }
        if blank(self.reference.0.as_str()) || blank(self.package.0.as_str()) || blank(
            self.release.0.as_str(),
        ) {
            return Err(Error("capability install plan is incomplete".to_string()));
        }
        if !canonical_sha256(&self.package_digest) {
            return Err(Error("plan package digest is not a canonical sha256 digest".to_string()));
        }
        if blank(self.admission.0.as_str()) || blank(self.scope.0.as_str()) || blank(
            self.policy.0.as_str(),
        ) {
            return Err(Error("capability install plan is incomplete".to_string()));
        }
        if self.policy_version.0 == 0 {
            return Err(Error("plan policy version must be non-zero".to_string()));
        }
        self.expected_version.validate()?;
        if blank(self.rollback_boundary.0.as_str()) {
            return Err(Error("plan rollback boundary is incomplete".to_string()));
        }
        let moves_back = match self.operation {
            CapabilityPackageOperation::Update => true,
            CapabilityPackageOperation::Rollback => true,
            _ => false,
        };
        if moves_back && self.previous_release.is_none() {
            return Err(Error("update or rollback plan has no previous release".to_string()));
        }
        if let Some(previous) = &self.previous_release {
            if blank(previous.0.as_str()) {
                return Err(Error("previous release is incomplete".to_string()));
            }
        }
        let material = self.encode_material();
        if !same_text(&self.digest.0, &canonical_digest(&material).0) {
            return Err(Error("capability install plan digest does not match".to_string()));
        }
        Ok(())
    }

    /// Sets the digest to that of the plan's contents, which are unchanged.
    pub fn refresh_digest(&mut self) -> (r: Result<(), Error>)
        ensures
            r is Ok,
            final(self).material() == old(self).material(),
            final(self).fields_valid() == old(self).fields_valid(),
            final(self).digest.0@ == canonical_digest_text(old(self).material()),
            final(self).valid() == old(self).fields_valid(),
    {
        let material = self.encode_material();
        self.digest = PlanDigest(canonical_digest(&material).0);
        proof {
            reveal(CapabilityInstallPlan::put_with_digest);
        }
        Ok(())
    }
}

#[derive(Debug, Clone, PartialEq, Eq)]
pub struct CapabilityPackageApproval {
    pub schema_version: SchemaVersion,
    pub approval: ApprovalId,
    pub plan_digest: PlanDigest,
    pub principal: VerifiedPrincipal,
    pub nonce: Nonce,
    pub expires_at: Timestamp,
}

impl CapabilityPackageApproval {
    pub open spec fn valid(&self) -> bool {
        &&& self.schema_version.0 != 0
        &&& self.expires_at > 0
        &&& !is_blank(self.approval.0@)
        &&& !is_blank(self.plan_digest.0@)
        &&& !is_blank(self.principal.0@)
        &&& !is_blank(self.nonce.0@)
    }

    pub fn validate(&self) -> (r: Result<(), Error>)
        ensures
            r is Ok <==> self.valid(),
    {
        if self.schema_version.0 == 0 || self.expires_at <= 0 {
            return Err(Error("capability package approval is incomplete".to_string()));
        }
        if blank(self.approval.0.as_str()) || blank(self.plan_digest.0.as_str()) || blank(
            self.principal.0.as_str(),
        ) || blank(self.nonce.0.as_str()) {
            return Err(Error("capability package approval is incomplete".to_string()));
        }
        Ok(())
    }
}

/// The lifecycle moves a package may make: admitted to installed, installed
/// to enabled, between enabled and disabled (enabled again counts), and
/// from any admitted, installed, enabled or disabled state to revoked.
pub open spec fn lifecycle_step(from: CapabilityLifecycleState, to: CapabilityLifecycleState) -> bool {
    match (from, to) {
        (CapabilityLifecycleState::Admitted, CapabilityLifecycleState::Installed) => true,
        (CapabilityLifecycleState::Installed, CapabilityLifecycleState::Enabled) => true,
        (CapabilityLifecycleState::Disabled, CapabilityLifecycleState::Enabled) => true,
        (CapabilityLifecycleState::Enabled, CapabilityLifecycleState::Disabled) => true,
        (CapabilityLifecycleState::Enabled, CapabilityLifecycleState::Enabled) => true,
        (CapabilityLifecycleState::Admitted, CapabilityLifecycleState::Revoked) => true,
        (CapabilityLifecycleState::Installed, CapabilityLifecycleState::Revoked) => true,
        (CapabilityLifecycleState::Enabled, CapabilityLifecycleState::Revoked) => true,
        (CapabilityLifecycleState::Disabled, CapabilityLifecycleState::Revoked) => true,
        _ => false,
    }
}

/// Whether a package may move from lifecycle state `from` to `to`.
pub fn legal_lifecycle_transition(from: CapabilityLifecycleState, to: CapabilityLifecycleState) -> (r: bool)
    ensures
        r == lifecycle_step(from, to),
{
    match (from, to) {
        (CapabilityLifecycleState::Admitted, CapabilityLifecycleState::Installed) => true,
        (CapabilityLifecycleState::Installed, CapabilityLifecycleState::Enabled) => true,
        (CapabilityLifecycleState::Disabled, CapabilityLifecycleState::Enabled) => true,
        (CapabilityLifecycleState::Enabled, CapabilityLifecycleState::Disabled) => true,
        (CapabilityLifecycleState::Enabled, CapabilityLifecycleState::Enabled) => true,
        (CapabilityLifecycleState::Admitted, CapabilityLifecycleState::Revoked) => true,
        (CapabilityLifecycleState::Installed, CapabilityLifecycleState::Revoked) => true,
        (CapabilityLifecycleState::Enabled, CapabilityLifecycleState::Revoked) => true,
        (CapabilityLifecycleState::Disabled, CapabilityLifecycleState::Revoked) => true,
        _ => false,
    }
}

/// Revocation is final and quarantine is never left by a lifecycle change:
/// no move starts from a revoked or quarantined package, and none leads back
/// to quarantine or admission.
pub proof fn lemma_lifecycle_revocation_final(from: CapabilityLifecycleState, to: CapabilityLifecycleState)
    ensures
        from == CapabilityLifecycleState::Revoked ==> !lifecycle_step(from, to),
        from == CapabilityLifecycleState::Quarantined ==> !lifecycle_step(from, to),
        to == CapabilityLifecycleState::Quarantined ==> !lifecycle_step(from, to),
        to == CapabilityLifecycleState::Admitted ==> !lifecycle_step(from, to),
{
}

#[derive(Debug, Clone, PartialEq, Eq)]
pub struct CapabilityPackageStateChange {
    pub schema_version: SchemaVersion,
    pub plan: CapabilityInstallPlanRef,
    pub approval: ApprovalId,
    pub package: CapabilityPackageRef,
    pub release: CapabilityReleaseRef,
    pub from: CapabilityLifecycleState,
    pub to: CapabilityLifecycleState,
    pub active_generation: u64,
    pub reason: ReasonRef,
    pub external_effects_reverted: bool,
}

impl CapabilityPackageStateChange {
    /// A complete change along a legal lifecycle move that claims no reverted external effects.
    pub open spec fn valid(&self) -> bool {
        &&& self.schema_version.0 != 0
        &&& self.active_generation != 0
        &&& !is_blank(self.plan.0@)
        &&& !is_blank(self.approval.0@)
        &&& !is_blank(self.package.0@)
        &&& !is_blank(self.release.0@)
        &&& !is_blank(self.reason.0@)
        &&& !self.external_effects_reverted
        &&& lifecycle_step(self.from, self.to)
    }

    pub fn validate(&self) -> (r: Result<(), Error>)
        ensures
            r is Ok <==> self.valid(),
    {
        if self.schema_version.0 == 0 || self.active_generation == 0 {
            return Err(Error("capability package state change is incomplete".to_string()));
        }
        if blank(self.plan.0.as_str()) || blank(self.approval.0.as_str()) || blank(
            self.package.0.as_str(),
        ) || blank(self.release.0.as_str()) || blank(self.reason.0.as_str()) {
            return Err(Error("capability package state change is incomplete".to_string()));
        }
        if self.external_effects_reverted || !legal_lifecycle_transition(self.from, self.to) {
            return Err(Error("capability package lifecycle transition is invalid".to_string()));
        }
        Ok(())
    }
}

#[derive(Debug, Clone, PartialEq, Eq)]
pub struct CapabilityPackageDistributionReceipt {
    pub schema_version: SchemaVersion,
    pub reference: CapabilityDistributionReceiptRef,
    pub package: CapabilityPackageRef,
    pub release: CapabilityReleaseRef,
    pub package_digest: SchemaDigest,
    pub peer: FederatedPeerRef,
    pub peer_grant: FederatedPeerGrantRef,
    pub authority_epoch: AuthorityEpoch,
    pub plan_digest: PlanDigest,
    pub lease: RemoteExecutionLeaseRef,
    pub fence_token: u64,
    pub installed_generation: u64,
    pub ground_truth: EvidenceRef,
    pub verified: RequiredTrue,
}

impl CapabilityPackageDistributionReceipt {
    pub open spec fn valid(&self) -> bool {
        &&& self.schema_version.0 != 0
        &&& self.authority_epoch.0 != 0
        &&& self.fence_token != 0
        &&& self.installed_generation != 0
        &&& !is_blank(self.reference.0@)
        &&& !is_blank(self.package.0@)
        &&& !is_blank(self.release.0@)
        &&& is_canonical_digest(self.package_digest.0@)
        &&& !is_blank(self.peer.0@)
        &&& !is_blank(self.peer_grant.0@)
        &&& !is_blank(self.plan_digest.0@)
        &&& !is_blank(self.lease.0@)
        &&& !is_blank(self.ground_truth.0@)
    }

    pub fn validate(&self) -> (r: Result<(), Error>)
        ensures
            r is Ok <==> self.valid(),
    {
        if self.schema_version.0 == 0 || self.authority_epoch.0 == 0 || self.fence_token == 0
            || self.installed_generation == 0 {
            return Err(Error("capability distribution receipt is incomplete".to_string()));
        }
        if blank(self.reference.0.as_str()) || blank(self.package.0.as_str()) || blank(
            self.release.0.as_str(),
        ) {
            return Err(Error("capability distribution receipt is incomplete".to_string()));
        }
        if !canonical_sha256(&self.package_digest) {
            return Err(Error("distributed package digest is not a canonical sha256 digest".to_string()));
        }
        if blank(self.peer.0.as_str()) || blank(self.peer_grant.0.as_str()) || blank(
            self.plan_digest.0.as_str(),
        ) || blank(self.lease.0.as_str()) || blank(self.ground_truth.0.as_str()) {
            return Err(Error("capability distribution receipt is incomplete".to_string()));
        }
        Ok(())
    }
}
impl SignedCapabilityPackage {
    #[verifier::opaque]
    pub open spec fn put_canonical(&self, acc: Seq<u8>) -> Seq<u8> {
        let a = with_key(acc + seq![0x7bu8], "schema_version"@) + json_int(self.schema_version.0 as int);
        let a = self.manifest.put_canonical(with_key(a + seq![0x2cu8], "manifest"@));
        let a = with_resources(with_key(a + seq![0x2cu8], "resources"@), self.resources@);
        let a = with_key(a + seq![0x2cu8], "package_digest"@) + json_string(self.package_digest.0@);
        let a = with_key(a + seq![0x2cu8], "signature"@) + json_string(self.signature.0@);
        a + seq![0x7du8]
    }

    pub fn write_canonical(&self, buf: &mut Vec<u8>)
        ensures
            final(buf)@ == self.put_canonical(old(buf)@),
    {
        put_mark(buf, 0x7b);
        put_key(buf, "schema_version");
        put_u64(buf, self.schema_version.0 as u64);
        put_mark(buf, 0x2c);
        put_key(buf, "manifest");
        self.manifest.write_canonical(buf);
        put_mark(buf, 0x2c);
        put_key(buf, "resources");
        put_resources(buf, &self.resources);
        put_mark(buf, 0x2c);
        put_key(buf, "package_digest");
        put_str(buf, self.package_digest.0.as_str());
        put_mark(buf, 0x2c);
        put_key(buf, "signature");
        put_str(buf, self.signature.0.as_str());
        put_mark(buf, 0x7d);
        proof {
            reveal(SignedCapabilityPackage::put_canonical);
        }
    }
}

/// The releases the entries name, in order.
pub open spec fn dependency_releases(v: Seq<CapabilityPackageDependency>) -> Seq<CapabilityReleaseRef> {
    v.map_values(|d: CapabilityPackageDependency| d.release)
}

pub open spec fn admission_releases(v: Seq<CapabilityPackageAdmission>) -> Seq<CapabilityReleaseRef> {
    v.map_values(|a: CapabilityPackageAdmission| a.release)
}

fn collect_dependency_releases(v: &Vec<CapabilityPackageDependency>) -> (r: Vec<CapabilityReleaseRef>)
    ensures
        r@ == dependency_releases(v@),
{
    let mut r: Vec<CapabilityReleaseRef> = Vec::new();
    let mut i: usize = 0;
    while i < v.len()
        invariant
            i <= v.len(),
            r@ == dependency_releases(v@.subrange(0, i as int)),
        decreases v.len() - i,
    {
        r.push(v[i].release.duplicate());
        i = i + 1;
        assert(r@ =~= dependency_releases(v@.subrange(0, i as int)));
    }
    assert(v@.subrange(0, i as int) =~= v@);
    r
}

fn collect_admission_releases(v: &Vec<CapabilityPackageAdmission>) -> (r: Vec<CapabilityReleaseRef>)
    ensures
        r@ == admission_releases(v@),
{
    let mut r: Vec<CapabilityReleaseRef> = Vec::new();
    let mut i: usize = 0;
    while i < v.len()
        invariant
            i <= v.len(),
            r@ == admission_releases(v@.subrange(0, i as int)),
        decreases v.len() - i,
    {
        r.push(v[i].release.duplicate());
        i = i + 1;
        assert(r@ =~= admission_releases(v@.subrange(0, i as int)));
    }
    assert(v@.subrange(0, i as int) =~= v@);
    r
}

/// Read side by side, each dependency admission admits the package, release
/// and digest of the dependency at the same position.
pub open spec fn admissions_match_dependencies(
    admissions: Seq<CapabilityPackageAdmission>,
    dependencies: Seq<CapabilityPackageDependency>,
) -> bool {
    forall|i: int|
        0 <= i < admissions.len() && 0 <= i < dependencies.len() ==> {
            &&& (#[trigger] admissions[i]).package.0@ == dependencies[i].package.0@
            &&& admissions[i].release.0@ == dependencies[i].release.0@
            &&& admissions[i].package_digest.0@ == dependencies[i].digest.0@
        }
}

fn check_admissions_match_dependencies(
    admissions: &Vec<CapabilityPackageAdmission>,
    dependencies: &Vec<CapabilityPackageDependency>,
) -> (r: bool)
    ensures
        r == admissions_match_dependencies(admissions@, dependencies@),
{
    let mut i: usize = 0;
    while i < admissions.len() && i < dependencies.len()
        invariant
            i <= admissions.len(),
            i <= dependencies.len(),
            forall|j: int|
                0 <= j < i ==> {
                    &&& (#[trigger] admissions@[j]).package.0@ == dependencies@[j].package.0@
                    &&& admissions@[j].release.0@ == dependencies@[j].release.0@
                    &&& admissions@[j].package_digest.0@ == dependencies@[j].digest.0@
                },
        decreases admissions.len() - i,
    {
        let a = &admissions[i];
        let d = &dependencies[i];
        if !same_text(&a.package.0, &d.package.0) || !same_text(&a.release.0, &d.release.0)
            || !same_text(&a.package_digest.0, &d.digest.0) {
            return false;
        }
        i = i + 1;
    }
    true
}

#[derive(Debug, Clone, PartialEq, Eq)]
pub struct CapabilityPackageDistributionEnvelope {
    pub schema_version: SchemaVersion,
    pub install_plan: CapabilityInstallPlan,
    pub package: SignedCapabilityPackage,
    pub admission: CapabilityPackageAdmission,
    pub dependency_admissions: Vec<CapabilityPackageAdmission>,
    pub publisher_grant: CapabilityPublisherGrant,
    pub authority_policy: CapabilityAdmissionPolicy,
    pub target_peer: FederatedPeerRef,
    pub authority_epoch: AuthorityEpoch,
    pub content_digest: SchemaDigest,
}

impl CapabilityPackageDistributionEnvelope {
    /// The canonical form, with `d` in place of the digest.
    #[verifier::opaque]
    pub open spec fn put_with_digest(&self, acc: Seq<u8>, d: Seq<char>) -> Seq<u8> {
        let a = with_key(acc + seq![0x7bu8], "schema_version"@) + json_int(self.schema_version.0 as int);
        let a = self.install_plan.put_canonical(with_key(a + seq![0x2cu8], "install_plan"@));
        let a = self.package.put_canonical(with_key(a + seq![0x2cu8], "package"@));
        let a = self.admission.put_canonical(with_key(a + seq![0x2cu8], "admission"@));
        let a = with_admissions(with_key(a + seq![0x2cu8], "dependency_admissions"@), self.dependency_admissions@);
        let a = self.publisher_grant.put_canonical(with_key(a + seq![0x2cu8], "publisher_grant"@));
        let a = self.authority_policy.put_canonical(with_key(a + seq![0x2cu8], "authority_policy"@));
        let a = with_key(a + seq![0x2cu8], "target_peer"@) + json_string(self.target_peer.0@);
        let a = with_key(a + seq![0x2cu8], "authority_epoch"@) + json_int(self.authority_epoch.0 as int);
        let a = with_key(a + seq![0x2cu8], "content_digest"@) + json_string(d);
        a + seq![0x7du8]
    }

    pub fn write_with_digest(&self, buf: &mut Vec<u8>, d: &str)
        ensures
            final(buf)@ == self.put_with_digest(old(buf)@, d@),
    {
        put_mark(buf, 0x7b);
        put_key(buf, "schema_version");
        put_u64(buf, self.schema_version.0 as u64);
        put_mark(buf, 0x2c);
        put_key(buf, "install_plan");
        self.install_plan.write_canonical(buf);
        put_mark(buf, 0x2c);
        put_key(buf, "package");
        self.package.write_canonical(buf);
        put_mark(buf, 0x2c);
        put_key(buf, "admission");
        self.admission.write_canonical(buf);
        put_mark(buf, 0x2c);
        put_key(buf, "dependency_admissions");
        put_admissions(buf, &self.dependency_admissions);
        put_mark(buf, 0x2c);
        put_key(buf, "publisher_grant");
        self.publisher_grant.write_canonical(buf);
        put_mark(buf, 0x2c);
        put_key(buf, "authority_policy");
        self.authority_policy.write_canonical(buf);
        put_mark(buf, 0x2c);
        put_key(buf, "target_peer");
        put_str(buf, self.target_peer.0.as_str());
        put_mark(buf, 0x2c);
        put_key(buf, "authority_epoch");
        put_u64(buf, self.authority_epoch.0 as u64);
        put_mark(buf, 0x2c);
        put_key(buf, "content_digest");
        put_str(buf, d);
        put_mark(buf, 0x7d);
        proof {
            reveal(CapabilityPackageDistributionEnvelope::put_with_digest);
        }
    }

    /// The canonical form as it stands, digest included.
    pub open spec fn put_canonical(&self, acc: Seq<u8>) -> Seq<u8> {
        self.put_with_digest(acc, self.content_digest.0@)
    }

    pub fn write_canonical(&self, buf: &mut Vec<u8>)
        ensures
            final(buf)@ == self.put_canonical(old(buf)@),
    {
        self.write_with_digest(buf, self.content_digest.0.as_str());
    }

    /// The canonical form with the digest cleared.
    pub open spec fn material(&self) -> Seq<u8> {
        self.put_with_digest(Seq::empty(), ""@)
    }

    pub fn encode_material(&self) -> (r: Vec<u8>)
        ensures
            r@ == self.material(),
    {
        let mut buf: Vec<u8> = Vec::new();
        self.write_with_digest(&mut buf, "");
        buf
    }

    /// Every dependency admission is valid; they are sorted by release; they
    /// admit exactly the releases the manifest depends on, each with the
    /// dependency's package and digest.
    pub open spec fn dependencies_closed(&self) -> bool {
        &&& forall|i: int|
            0 <= i < self.dependency_admissions@.len() ==> (#[trigger] self.dependency_admissions@[i]).valid()
        &&& strictly_sorted(admission_releases(self.dependency_admissions@))
        &&& covers(
            dependency_releases(self.package.manifest.dependencies@),
            admission_releases(self.dependency_admissions@),
        )
        &&& covers(
            admission_releases(self.dependency_admissions@),
            dependency_releases(self.package.manifest.dependencies@),
        )
        &&& admissions_match_dependencies(
            self.dependency_admissions@,
            self.package.manifest.dependencies@,
        )
    }

    /// The plan, package, admission, publisher grant and policy all speak of
    /// the same release, digest, scope, policy and publisher, and the
    /// publisher's scope covers the package's.
    pub open spec fn bindings_match(&self) -> bool {
        let plan = self.install_plan;
        let manifest = self.package.manifest;
        &&& plan.package.0@ == manifest.package.0@
        &&& plan.release.0@ == manifest.release.0@
        &&& plan.package_digest.0@ == self.package.package_digest.0@
        &&& plan.admission.0@ == self.admission.reference.0@
        &&& plan.scope.0@ == manifest.scope.0@
        &&& plan.policy.0@ == self.authority_policy.reference.0@
        &&& plan.policy_version == self.authority_policy.version
        &&& self.admission.package.0@ == manifest.package.0@
        &&& self.admission.release.0@ == manifest.release.0@
        &&& self.admission.package_digest.0@ == self.package.package_digest.0@
        &&& self.admission.publisher_grant.0@ == self.publisher_grant.reference.0@
        &&& self.admission.publisher_version == self.publisher_grant.version
        &&& manifest.publisher.0@ == self.publisher_grant.publisher.0@
        &&& scope_covers(self.publisher_grant.scope.0@, manifest.scope.0@)
    }

    pub open spec fn fields_valid(&self) -> bool {
        &&& self.schema_version == m5_schema_version()
        &&& self.authority_epoch.0 != 0
        &&& !is_blank(self.target_peer.0@)
        &&& self.install_plan.valid()
        &&& self.install_plan.operation == CapabilityPackageOperation::Distribute
        &&& self.package.valid()
        &&& self.admission.valid()
        &&& self.dependencies_closed()
        &&& self.publisher_grant.valid()
        &&& self.authority_policy.valid()
        &&& self.bindings_match()
    }

    pub open spec fn valid(&self) -> bool {
        &&& self.fields_valid()
        &&& self.content_digest.0@ == canonical_digest_text(self.material())
    }

    fn check_dependencies_closed(&self) -> (r: Result<(), Error>)
        ensures
            r is Ok <==> self.dependencies_closed(),
    {
        let mut i: usize = 0;
        while i < self.dependency_admissions.len()
            invariant
                i <= self.dependency_admissions@.len(),
                forall|j: int| 0 <= j < i ==> (#[trigger] self.dependency_admissions@[j]).valid(),
            decreases self.dependency_admissions.len() - i,
        {
            self.dependency_admissions[i].validate()?;
            i = i + 1;
        }
        let actual = collect_admission_releases(&self.dependency_admissions);
        if !check_strictly_sorted(&actual) {
            return Err(Error("distribution dependency admissions must be sorted and unique".to_string()));
        }
        let expected = collect_dependency_releases(&self.package.manifest.dependencies);
        if !check_covers(&expected, &actual) || !check_covers(&actual, &expected)
            || !check_admissions_match_dependencies(
            &self.dependency_admissions,
            &self.package.manifest.dependencies,
        ) {
            return Err(Error("distribution dependency admissions do not close the package".to_string()));
        }
        Ok(())
    }

    fn check_bindings(&self) -> (r: bool)
        ensures
            r == self.bindings_match(),
    {
        let plan = &self.install_plan;
        let manifest = &self.package.manifest;
        same_text(&plan.package.0, &manifest.package.0) && same_text(&plan.release.0, &manifest.release.0)
            && same_text(&plan.package_digest.0, &self.package.package_digest.0) && same_text(
            &plan.admission.0,
            &self.admission.reference.0,
        ) && same_text(&plan.scope.0, &manifest.scope.0) && same_text(
            &plan.policy.0,
            &self.authority_policy.reference.0,
        ) && plan.policy_version.0 == self.authority_policy.version.0 && same_text(
            &self.admission.package.0,
            &manifest.package.0,
        ) && same_text(&self.admission.release.0, &manifest.release.0) && same_text(
            &self.admission.package_digest.0,
            &self.package.package_digest.0,
        ) && same_text(&self.admission.publisher_grant.0, &self.publisher_grant.reference.0)
            && self.admission.publisher_version.0 == self.publisher_grant.version.0 && same_text(
            &manifest.publisher.0,
            &self.publisher_grant.publisher.0,
        ) && scope_contains(&self.publisher_grant.scope, &manifest.scope)
    }

    pub fn validate(&self) -> (r: Result<(), Error>)
        ensures
            r is Ok <==> self.valid(),
    {
        if self.schema_version.0 != 1 || self.authority_epoch.0 == 0 {
            return Err(Error("capability distribution envelope is incomplete".to_string()));
        }
        if blank(self.target_peer.0.as_str()) {
            return Err(Error("distribution target peer is incomplete".to_string()));
        }
        self.install_plan.validate()?;
        if self.install_plan.operation != CapabilityPackageOperation::Distribute {
            return Err(Error("distribution envelope install plan has the wrong operation".to_string()));
        }
        self.package.validate()?;
        self.admission.validate()?;
        self.check_dependencies_closed()?;
        self.publisher_grant.validate()?;
        self.authority_policy.validate()?;
        if !self.check_bindings() {
            return Err(Error("distribution envelope authority bindings do not match".to_string()));
        }
        let material = self.encode_material();
        if !same_text(&self.content_digest.0, &canonical_digest(&material).0) {
            return Err(Error("distribution envelope content digest does not match".to_string()));
        }
        Ok(())
    }

    /// Sets the content digest to that of the envelope's contents, which are unchanged.
    pub fn refresh_digest(&mut self) -> (r: Result<(), Error>)
        ensures
            r is Ok,
            final(self).material() == old(self).material(),
            final(self).fields_valid() == old(self).fields_valid(),
            final(self).content_digest.0@ == canonical_digest_text(old(self).material()),
            final(self).valid() == old(self).fields_valid(),
    {
        let material = self.encode_material();
        let ghost before = *self;
        self.content_digest = canonical_digest(&material);
        proof {
            lemma_envelope_digest_free(before, *self);
        }
        Ok(())
    }
}

/// Two envelopes that differ at most in their content digest have the same
/// material and are valid apart from it alike.
#[verifier::spinoff_prover]
#[verifier::rlimit(40)]
proof fn lemma_envelope_digest_free(
    a: CapabilityPackageDistributionEnvelope,
    b: CapabilityPackageDistributionEnvelope,
)
    requires
        b == (CapabilityPackageDistributionEnvelope { content_digest: b.content_digest, ..a }),
    ensures
        a.material() == b.material(),
        a.fields_valid() == b.fields_valid(),
{
    reveal(CapabilityPackageDistributionEnvelope::put_with_digest);
}
#[derive(Debug, Clone, PartialEq, Eq)]
pub struct CapabilityExecutorInstallRecord {
    pub schema_version: SchemaVersion,
    pub peer: FederatedPeerRef,
    pub package: CapabilityPackageRef,
    pub release: CapabilityReleaseRef,
    pub package_digest: SchemaDigest,
    pub envelope_digest: SchemaDigest,
    pub installed_generation: u64,
    pub record_digest: SchemaDigest,
}

impl CapabilityExecutorInstallRecord {
    /// The canonical form, with `d` in place of the digest.
    pub open spec fn put_with_digest(&self, acc: Seq<u8>, d: Seq<char>) -> Seq<u8> {
        let a = with_key(acc + seq![0x7bu8], "schema_version"@) + json_int(self.schema_version.0 as int);
        let a = with_key(a + seq![0x2cu8], "peer"@) + json_string(self.peer.0@);
        let a = with_key(a + seq![0x2cu8], "package"@) + json_string(self.package.0@);
        let a = with_key(a + seq![0x2cu8], "release"@) + json_string(self.release.0@);
        let a = with_key(a + seq![0x2cu8], "package_digest"@) + json_string(self.package_digest.0@);
        let a = with_key(a + seq![0x2cu8], "envelope_digest"@) + json_string(self.envelope_digest.0@);
        let a = with_key(a + seq![0x2cu8], "installed_generation"@) + json_int(self.installed_generation as int);
        let a = with_key(a + seq![0x2cu8], "record_digest"@) + json_string(d);
        a + seq![0x7du8]
    }

    pub fn write_with_digest(&self, buf: &mut Vec<u8>, d: &str)
        ensures
            final(buf)@ == self.put_with_digest(old(buf)@, d@),
    {
        put_mark(buf, 0x7b);
        put_key(buf, "schema_version");
        put_u64(buf, self.schema_version.0 as u64);
        put_mark(buf, 0x2c);
        put_key(buf, "peer");
        put_str(buf, self.peer.0.as_str());
        put_mark(buf, 0x2c);
        put_key(buf, "package");
        put_str(buf, self.package.0.as_str());
        put_mark(buf, 0x2c);
        put_key(buf, "release");
        put_str(buf, self.release.0.as_str());
        put_mark(buf, 0x2c);
        put_key(buf, "package_digest");
        put_str(buf, self.package_digest.0.as_str());
        put_mark(buf, 0x2c);
        put_key(buf, "envelope_digest");
        put_str(buf, self.envelope_digest.0.as_str());
        put_mark(buf, 0x2c);
        put_key(buf, "installed_generation");
        put_u64(buf, self.installed_generation as u64);
        put_mark(buf, 0x2c);
        put_key(buf, "record_digest");
        put_str(buf, d);
        put_mark(buf, 0x7d);
    }

    /// The canonical form as it stands, digest included.
    pub open spec fn put_canonical(&self, acc: Seq<u8>) -> Seq<u8> {
        self.put_with_digest(acc, self.record_digest.0@)
    }

    pub fn write_canonical(&self, buf: &mut Vec<u8>)
        ensures
            final(buf)@ == self.put_canonical(old(buf)@),
    {
        self.write_with_digest(buf, self.record_digest.0.as_str());
    }

    /// The canonical form with the digest cleared.
    pub open spec fn material(&self) -> Seq<u8> {
        self.put_with_digest(Seq::empty(), ""@)
    }

    pub fn encode_material(&self) -> (r: Vec<u8>)
        ensures
            r@ == self.material(),
    {
        let mut buf: Vec<u8> = Vec::new();
        self.write_with_digest(&mut buf, "");
        buf
    }

    pub open spec fn fields_valid(&self) -> bool {
        &&& self.schema_version == m5_schema_version()
        &&& self.installed_generation != 0
        &&& !is_blank(self.peer.0@)
        &&& !is_blank(self.package.0@)
        &&& !is_blank(self.release.0@)
        &&& is_canonical_digest(self.package_digest.0@)
        &&& is_canonical_digest(self.envelope_digest.0@)
    }

    /// A complete record carrying the digest of its own contents.
    pub open spec fn valid(&self) -> bool {
        &&& self.fields_valid()
        &&& is_canonical_digest(self.record_digest.0@)
        &&& self.record_digest.0@ == canonical_digest_text(self.material())
    }

    pub fn validate(&self) -> (r: Result<(), Error>)
        ensures
            r is Ok <==> self.valid(),
    {
        if self.schema_version.0 != 1 || self.installed_generation == 0 {
            return Err(Error("executor package record is incomplete".to_string()));
        }
        if blank(self.peer.0.as_str()) || blank(self.package.0.as_str()) || blank(
            self.release.0.as_str(),
        ) {
            return Err(Error("executor package record is incomplete".to_string()));
        }
        if !canonical_sha256(&self.package_digest) || !canonical_sha256(&self.envelope_digest)
            || !canonical_sha256(&self.record_digest) {
            return Err(Error("executor record digest is not a canonical sha256 digest".to_string()));
        }
        let material = self.encode_material();
        if !same_text(&self.record_digest.0, &canonical_digest(&material).0) {
            return Err(Error("executor package record digest does not match".to_string()));
        }
        Ok(())
    }

    /// Sets the record digest to that of the record's contents, which are unchanged.
    pub fn refresh_digest(&mut self) -> (r: Result<(), Error>)
        ensures
            r is Ok,
            final(self).material() == old(self).material(),
            final(self).fields_valid() == old(self).fields_valid(),
            final(self).record_digest.0@ == canonical_digest_text(old(self).material()),
            final(self).valid() == old(self).fields_valid(),
    {
        let material = self.encode_material();
        self.record_digest = canonical_digest(&material);
        Ok(())
    }
}

#[derive(Debug, Clone, PartialEq, Eq)]
pub struct CapabilityPackageState {
    pub schema_version: SchemaVersion,
    pub package: CapabilityPackageRef,
    pub release: CapabilityReleaseRef,
    pub package_digest: SchemaDigest,
    pub lifecycle: CapabilityLifecycleState,
    pub active_generation: u64,
    pub plan: Option<CapabilityInstallPlanRef>,
    pub approval: Option<ApprovalId>,
}

impl CapabilityPackageState {
    /// A complete state; an enabled package has an active generation.
    pub open spec fn valid(&self) -> bool {
        &&& self.schema_version.0 != 0
        &&& !is_blank(self.package.0@)
        &&& !is_blank(self.release.0@)
        &&& is_canonical_digest(self.package_digest.0@)
        &&& !(self.lifecycle == CapabilityLifecycleState::Enabled && self.active_generation == 0)
    }

    pub fn validate(&self) -> (r: Result<(), Error>)
        ensures
            r is Ok <==> self.valid(),
    {
        if self.schema_version.0 == 0 {
            return Err(Error("capability package state schema is invalid".to_string()));
        }
        if blank(self.package.0.as_str()) || blank(self.release.0.as_str()) {
            return Err(Error("capability package state is incomplete".to_string()));
        }
        if !canonical_sha256(&self.package_digest) {
            return Err(Error("package state digest is not a canonical sha256 digest".to_string()));
        }
        if self.lifecycle == CapabilityLifecycleState::Enabled && self.active_generation == 0 {
            return Err(Error("enabled package has no active generation".to_string()));
        }
        Ok(())
    }

    pub open spec fn put_canonical(&self, acc: Seq<u8>) -> Seq<u8> {
        let a = with_key(acc + seq![0x7bu8], "schema_version"@) + json_int(self.schema_version.0 as int);
        let a = with_key(a + seq![0x2cu8], "package"@) + json_string(self.package.0@);
        let a = with_key(a + seq![0x2cu8], "release"@) + json_string(self.release.0@);
        let a = with_key(a + seq![0x2cu8], "package_digest"@) + json_string(self.package_digest.0@);
        let a = with_key(a + seq![0x2cu8], "lifecycle"@) + json_string(self.lifecycle.wire_name());
        let a = with_key(a + seq![0x2cu8], "active_generation"@) + json_int(self.active_generation as int);
        let a = match self.plan {
            Some(p) => with_key(a + seq![0x2cu8], "plan"@) + json_string(p.0@),
            None => a,
        };
        let a = match self.approval {
            Some(p) => with_key(a + seq![0x2cu8], "approval"@) + json_string(p.0@),
            None => a,
        };
        a + seq![0x7du8]
    }

    pub fn write_canonical(&self, buf: &mut Vec<u8>)
        ensures
            final(buf)@ == self.put_canonical(old(buf)@),
    {
        put_mark(buf, 0x7b);
        put_key(buf, "schema_version");
        put_u64(buf, self.schema_version.0 as u64);
        put_mark(buf, 0x2c);
        put_key(buf, "package");
        put_str(buf, self.package.0.as_str());
        put_mark(buf, 0x2c);
        put_key(buf, "release");
        put_str(buf, self.release.0.as_str());
        put_mark(buf, 0x2c);
        put_key(buf, "package_digest");
        put_str(buf, self.package_digest.0.as_str());
        put_mark(buf, 0x2c);
        put_key(buf, "lifecycle");
        put_str(buf, self.lifecycle.wire_str());
        put_mark(buf, 0x2c);
        put_key(buf, "active_generation");
        put_u64(buf, self.active_generation as u64);
        if let Some(p) = &self.plan {
            put_mark(buf, 0x2c);
            put_key(buf, "plan");
            put_str(buf, p.0.as_str());
        }
        if let Some(p) = &self.approval {
            put_mark(buf, 0x2c);
            put_key(buf, "approval");
            put_str(buf, p.0.as_str());
        }
        put_mark(buf, 0x7d);
    }
}

/// A JSON array of package states, written after `acc`.
pub open spec fn with_package_states(acc: Seq<u8>, v: Seq<CapabilityPackageState>) -> Seq<u8> {
    joined_package_states(acc + seq![0x5bu8], v) + seq![0x5du8]
}

pub open spec fn joined_package_states(acc: Seq<u8>, v: Seq<CapabilityPackageState>) -> Seq<u8>
    decreases v.len(),
{
    if v.len() == 0 {
        acc
    } else if v.len() == 1 {
        v[0].put_canonical(acc)
    } else {
        v.last().put_canonical(joined_package_states(acc, v.drop_last()) + seq![0x2cu8])
    }
}

pub fn put_package_states(buf: &mut Vec<u8>, v: &Vec<CapabilityPackageState>)
    ensures
        final(buf)@ == with_package_states(old(buf)@, v@),
{
    let ghost start = buf@;
    buf.push(0x5b);
    let ghost open_acc = start + seq![0x5bu8];
    assert(buf@ =~= open_acc);
    let mut i: usize = 0;
    while i < v.len()
        invariant
            i <= v.len(),
            buf@ == joined_package_states(open_acc, v@.subrange(0, i as int)),
        decreases v.len() - i,
    {
        let ghost prefix = v@.subrange(0, i as int);
        let ghost next = v@.subrange(0, i + 1);
        proof {
            assert(next.drop_last() =~= prefix);
            assert(next.last() == v@[i as int]);
        }
        if i > 0 {
            put_mark(buf, 0x2c);
            v[i].write_canonical(buf);
            proof {
                assert(next.len() > 1);
                assert(joined_package_states(open_acc, next) == next.last().put_canonical(
                    joined_package_states(open_acc, next.drop_last()) + seq![0x2cu8],
                ));
            }
        } else {
            v[i].write_canonical(buf);
            proof {
                assert(next.len() == 1);
                assert(next[0] == v@[0]);
                assert(joined_package_states(open_acc, next) == next[0].put_canonical(open_acc));
            }
        }
        i = i + 1;
    }
    put_mark(buf, 0x5d);
    assert(v@.subrange(0, i as int) =~= v@);
}

/// The package states' packages, in order.
pub open spec fn state_packages(v: Seq<CapabilityPackageState>) -> Seq<CapabilityPackageRef> {
    v.map_values(|s: CapabilityPackageState| s.package)
}

fn collect_state_packages(v: &Vec<CapabilityPackageState>) -> (r: Vec<CapabilityPackageRef>)
    ensures
        r@ == state_packages(v@),
{
    let mut r: Vec<CapabilityPackageRef> = Vec::new();
    let mut i: usize = 0;
    while i < v.len()
        invariant
            i <= v.len(),
            r@ == state_packages(v@.subrange(0, i as int)),
        decreases v.len() - i,
    {
        r.push(v[i].package.duplicate());
        i = i + 1;
        assert(r@ =~= state_packages(v@.subrange(0, i as int)));
    }
    assert(v@.subrange(0, i as int) =~= v@);
    r
}

#[derive(Debug, Clone, PartialEq, Eq)]
pub struct CapabilityEcosystemSnapshot {
    pub schema_version: SchemaVersion,
    pub scope: Scope,
    pub version: EcosystemAggregateVersion,
    pub publishers: Vec<CapabilityPublisherGrantRef>,
    pub admissions: Vec<CapabilityAdmissionRef>,
    pub packages: Vec<CapabilityPackageState>,
    pub distributions: Vec<CapabilityDistributionReceiptRef>,
    pub digest: SchemaDigest,
}

/// What a snapshot's digest is taken over: `[scope, version, publishers,
/// admissions, packages, distributions]`.
pub open spec fn ecosystem_material(
    scope: Scope,
    version: EcosystemAggregateVersion,
    publishers: Seq<CapabilityPublisherGrantRef>,
    admissions: Seq<CapabilityAdmissionRef>,
    packages: Seq<CapabilityPackageState>,
    distributions: Seq<CapabilityDistributionReceiptRef>,
) -> Seq<u8> {
    let a = seq![0x5bu8] + json_string(scope.0@) + seq![0x2cu8];
    let a = version.put_canonical(a) + seq![0x2cu8];
    let a = with_texts(a, publishers) + seq![0x2cu8];
    let a = with_texts(a, admissions) + seq![0x2cu8];
    let a = with_package_states(a, packages) + seq![0x2cu8];
    with_texts(a, distributions) + seq![0x5du8]
}

impl CapabilityEcosystemSnapshot {
    pub open spec fn material(&self) -> Seq<u8> {
        ecosystem_material(
            self.scope,
            self.version,
            self.publishers@,
            self.admissions@,
            self.packages@,
            self.distributions@,
        )
    }

    pub fn encode_material(&self) -> (r: Vec<u8>)
        ensures
            r@ == self.material(),
    {
        let mut buf: Vec<u8> = Vec::new();
        put_mark(&mut buf, 0x5b);
        put_str(&mut buf, self.scope.0.as_str());
        put_mark(&mut buf, 0x2c);
        self.version.write_canonical(&mut buf);
        put_mark(&mut buf, 0x2c);
        put_texts(&mut buf, &self.publishers);
        put_mark(&mut buf, 0x2c);
        put_texts(&mut buf, &self.admissions);
        put_mark(&mut buf, 0x2c);
        put_package_states(&mut buf, &self.packages);
        put_mark(&mut buf, 0x2c);
        put_texts(&mut buf, &self.distributions);
        put_mark(&mut buf, 0x5d);
        assert(buf@ =~= self.material());
        buf
    }

    pub open spec fn fields_valid(&self) -> bool {
        &&& self.schema_version.0 != 0
        &&& !is_blank(self.scope.0@)
        &&& self.version.valid()
        &&& strictly_sorted(self.publishers@)
        &&& strictly_sorted(self.admissions@)
        &&& strictly_sorted(self.distributions@)
        &&& forall|i: int| 0 <= i < self.packages@.len() ==> (#[trigger] self.packages@[i]).valid()
        &&& strictly_sorted(state_packages(self.packages@))
    }

    /// A valid snapshot lists everything sorted without repeats and carries
    /// the digest of its contents.
    pub open spec fn valid(&self) -> bool {
        &&& self.fields_valid()
        &&& is_canonical_digest(self.digest.0@)
        &&& self.digest.0@ == canonical_digest_text(self.material())
    }

    /// The digest of the snapshot's contents.
    pub fn computed_digest(&self) -> (r: Result<SchemaDigest, Error>)
        ensures
            r matches Ok(d) ==> d.0@ == canonical_digest_text(self.material()) && is_canonical_digest(d.0@),
            r is Ok,
    {
        let material = self.encode_material();
        Ok(canonical_digest(&material))
    }

    /// The snapshot of an ecosystem with nothing in it yet, at version zero.
    pub fn empty(scope: Scope) -> (r: Self)
        ensures
            r.schema_version == m5_schema_version(),
            r.scope == scope,
            r.version.schema_version == m5_schema_version(),
            r.version.value == 0,
            r.publishers@.len() == 0,
            r.admissions@.len() == 0,
            r.packages@.len() == 0,
            r.distributions@.len() == 0,
            r.digest.0@ == canonical_digest_text(r.material()),
            !is_blank(scope.0@) ==> r.valid(),
    {
        let mut snapshot = CapabilityEcosystemSnapshot {
            schema_version: m5_schema(),
            scope,
            version: EcosystemAggregateVersion::zero(),
            publishers: Vec::new(),
            admissions: Vec::new(),
            packages: Vec::new(),
            distributions: Vec::new(),
            digest: SchemaDigest(String::new()),
        };
        let ghost before = snapshot;
        let digest = match snapshot.computed_digest() {
            Ok(d) => d,
            Err(_) => SchemaDigest("sha256:invalid".to_string()),
        };
        snapshot.digest = digest;
        proof {
            assert(snapshot.material() == before.material());
        }
        snapshot
    }

    fn check_packages(&self) -> (r: Result<(), Error>)
        ensures
            r is Ok <==> forall|i: int|
                0 <= i < self.packages@.len() ==> (#[trigger] self.packages@[i]).valid(),
    {
        let mut i: usize = 0;
        while i < self.packages.len()
            invariant
                i <= self.packages@.len(),
                forall|j: int| 0 <= j < i ==> (#[trigger] self.packages@[j]).valid(),
            decreases self.packages.len() - i,
        {
            self.packages[i].validate()?;
            i = i + 1;
        }
        Ok(())
    }

    pub fn validate(&self) -> (r: Result<(), Error>)
        ensures
            r is Ok <==> self.valid(),
    {
        if self.schema_version.0 == 0 {
            return Err(Error("capability ecosystem snapshot schema is invalid".to_string()));
        }
        if blank(self.scope.0.as_str()) {
            return Err(Error("capability ecosystem snapshot scope is incomplete".to_string()));
        }
        self.version.validate()?;
        if !check_strictly_sorted(&self.publishers) || !check_strictly_sorted(&self.admissions)
            || !check_strictly_sorted(&self.distributions) {
            return Err(Error("snapshot references must be sorted and unique".to_string()));
        }
        self.check_packages()?;
        let packages = collect_state_packages(&self.packages);
        if !check_strictly_sorted(&packages) {
            return Err(Error("snapshot package states are not sorted".to_string()));
        }
        if !canonical_sha256(&self.digest) {
            return Err(Error("ecosystem snapshot digest is not a canonical sha256 digest".to_string()));
        }
        let expected = self.computed_digest()?;
        if !same_text(&self.digest.0, &expected.0) {
            return Err(Error("ecosystem snapshot digest does not match".to_string()));
        }
        Ok(())
    }

    /// Sets the digest to that of the snapshot's contents, which are unchanged.
    pub fn refresh_digest(&mut self) -> (r: Result<(), Error>)
        ensures
            r is Ok,
            final(self).material() == old(self).material(),
            final(self).fields_valid() == old(self).fields_valid(),
            final(self).digest.0@ == canonical_digest_text(old(self).material()),
            final(self).valid() == old(self).fields_valid(),
    {
        self.digest = self.computed_digest()?;
        Ok(())
    }
}

} // verus!
