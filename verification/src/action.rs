//! Normalized action parameters and intents: what an action does, on
//! which backend, with which inputs; the remote operations and placement
//! plans that carry an action to a federated executor; and the checks that
//! keep secrets and host paths out of remote work.
use vstd::prelude::*;

use crate::canon::{
    canonical_digest, canonical_digest_text, json_bool, json_int, json_null, json_opt_text,
    json_string, put_bool, put_byte_array, put_i64, put_key, put_mark, put_null,
    put_opt_text, put_pairs, put_raw, put_str, put_texts, put_u64, with_byte_array, with_key,
    with_pairs, with_texts, Named,
};
use crate::digest::is_canonical_digest;
use crate::primitives::{
    ActionId, ActionType, AppApiMutationMethod, AuthorityEpoch, BackendKind, CapabilityRef,
    ContentRef, CoordinateBounds, DisclosureRequestRef, DurationMs, Error, ExecutorCredentialSlotRef,
    ExecutorProfileRef, ExpectedEffect, FederatedPeerGrantRef, FederatedPeerRef, FileOperation,
    GoalRef, IdempotencyKey, KeyCode, McpServerRef, McpStdioSpec, McpTransport, ParticipantId,
    PeerGrantVersion, PermissionRef, PointerButton, ProviderId, RemotePlacementPlanRef,
    Representation, Risk, RollbackBoundary, SchemaDigest, SchemaVersion, Scope, SecretRef, Source,
    SurfaceRef, Timestamp, ToolRef,
};
use crate::text::{blank, is_blank, same_text, utf8_of, Duplicate};

verus! {

/// A JSON value kept in its compact serialized form.
#[derive(Debug, Clone, PartialEq, Eq)]
pub struct JsonText(pub String);

#[derive(Debug, Clone, PartialEq, Eq)]
pub enum ExternalInput {
    Literal(String),
    Content(ContentRef),
    Secret(SecretRef),
}

impl ExternalInput {
    pub open spec fn put_canonical(&self, acc: Seq<u8>) -> Seq<u8> {
        match self {
            ExternalInput::Literal(v) => with_key(acc + seq![0x7bu8], "Literal"@) + json_string(v@) + seq![0x7du8],
            ExternalInput::Content(r) => with_key(acc + seq![0x7bu8], "Content"@) + json_string(r.0@) + seq![0x7du8],
            ExternalInput::Secret(r) => with_key(acc + seq![0x7bu8], "Secret"@) + json_string(r.0@) + seq![0x7du8],
        }
    }

    pub fn write_canonical(&self, buf: &mut Vec<u8>)
        ensures
            final(buf)@ == self.put_canonical(old(buf)@),
    {
        put_mark(buf, 0x7b);
        match self {
            ExternalInput::Literal(v) => {
                put_key(buf, "Literal");
                put_str(buf, v.as_str());
            },
            ExternalInput::Content(r) => {
                put_key(buf, "Content");
                put_str(buf, r.0.as_str());
            },
            ExternalInput::Secret(r) => {
                put_key(buf, "Secret");
                put_str(buf, r.0.as_str());
            },
        }
        put_mark(buf, 0x7d);
    }
}

#[derive(Debug, Clone, PartialEq, Eq)]
pub enum BrowserOperation {
    Navigate,
    ReadText { selector: Option<String> },
    Click { selector: String },
    Type { selector: String, input: ExternalInput },
    Screenshot { full_page: bool },
}

impl BrowserOperation {
    pub open spec fn put_canonical(&self, acc: Seq<u8>) -> Seq<u8> {
        match self {
            BrowserOperation::Navigate => acc + json_string("Navigate"@),
            BrowserOperation::ReadText { selector } => {
            let a = with_key(with_key(acc + seq![0x7bu8], "ReadText"@) + seq![0x7bu8], "selector"@) + json_opt_text(
                match selector {
                    Some(p) => Some(p@),
                    None => None,
                },
            );
            a + seq![0x7du8, 0x7du8]
            },
            BrowserOperation::Click { selector } => {
            let a = with_key(with_key(acc + seq![0x7bu8], "Click"@) + seq![0x7bu8], "selector"@) + json_string(selector@);
            a + seq![0x7du8, 0x7du8]
            },
            BrowserOperation::Type { selector, input } => {
            let a = with_key(with_key(acc + seq![0x7bu8], "Type"@) + seq![0x7bu8], "selector"@) + json_string(selector@);
            let a = input.put_canonical(with_key(a + seq![0x2cu8], "input"@));
            a + seq![0x7du8, 0x7du8]
            },
            BrowserOperation::Screenshot { full_page } => {
            let a = with_key(with_key(acc + seq![0x7bu8], "Screenshot"@) + seq![0x7bu8], "full_page"@) + json_bool(*full_page);
            a + seq![0x7du8, 0x7du8]
            },
        }
    }

    pub fn write_canonical(&self, buf: &mut Vec<u8>)
        ensures
            final(buf)@ == self.put_canonical(old(buf)@),
    {
        match self {
            BrowserOperation::Navigate => put_str(buf, "Navigate"),
            BrowserOperation::ReadText { selector } => {
            put_mark(buf, 0x7b);
            put_key(buf, "ReadText");
            put_mark(buf, 0x7b);
            put_key(buf, "selector");
            put_opt_text(buf, selector.as_ref());
            put_mark(buf, 0x7d);
            put_mark(buf, 0x7d);
            },
            BrowserOperation::Click { selector } => {
            put_mark(buf, 0x7b);
            put_key(buf, "Click");
            put_mark(buf, 0x7b);
            put_key(buf, "selector");
            put_str(buf, selector.as_str());
            put_mark(buf, 0x7d);
            put_mark(buf, 0x7d);
            },
            BrowserOperation::Type { selector, input } => {
            put_mark(buf, 0x7b);
            put_key(buf, "Type");
            put_mark(buf, 0x7b);
            put_key(buf, "selector");
            put_str(buf, selector.as_str());
            put_mark(buf, 0x2c);
            put_key(buf, "input");
            input.write_canonical(buf);
            put_mark(buf, 0x7d);
            put_mark(buf, 0x7d);
            },
            BrowserOperation::Screenshot { full_page } => {
            put_mark(buf, 0x7b);
            put_key(buf, "Screenshot");
            put_mark(buf, 0x7b);
            put_key(buf, "full_page");
            put_bool(buf, *full_page);
            put_mark(buf, 0x7d);
            put_mark(buf, 0x7d);
            },
        }
    }
}

#[derive(Debug, Clone, PartialEq, Eq)]
pub struct BrowserActionSpec {
    pub schema_version: SchemaVersion,
    pub driver: ProviderId,
    pub target_url: String,
    pub allowed_origins: Vec<String>,
    pub operation: BrowserOperation,
    pub artifact_scope: Scope,
}

impl BrowserActionSpec {
    pub open spec fn put_canonical(&self, acc: Seq<u8>) -> Seq<u8> {
        let a = with_key(acc + seq![0x7bu8], "schema_version"@) + json_int(self.schema_version.0 as int);
        let a = with_key(a + seq![0x2cu8], "driver"@) + json_string(self.driver.0@);
        let a = with_key(a + seq![0x2cu8], "target_url"@) + json_string(self.target_url@);
        let a = with_texts(with_key(a + seq![0x2cu8], "allowed_origins"@), self.allowed_origins@);
        let a = self.operation.put_canonical(with_key(a + seq![0x2cu8], "operation"@));
        let a = with_key(a + seq![0x2cu8], "artifact_scope"@) + json_string(self.artifact_scope.0@);
        a + seq![0x7du8]
    }

    pub fn write_canonical(&self, buf: &mut Vec<u8>)
        ensures
            final(buf)@ == self.put_canonical(old(buf)@),
    {
        put_mark(buf, 0x7b);
        put_key(buf, "schema_version");
        put_u64(buf, self.schema_version.0 as u64);
        put_mark(buf, 0x2c);
        put_key(buf, "driver");
        put_str(buf, self.driver.0.as_str());
        put_mark(buf, 0x2c);
        put_key(buf, "target_url");
        put_str(buf, self.target_url.as_str());
        put_mark(buf, 0x2c);
        put_key(buf, "allowed_origins");
        put_texts(buf, &self.allowed_origins);
        put_mark(buf, 0x2c);
        put_key(buf, "operation");
        self.operation.write_canonical(buf);
        put_mark(buf, 0x2c);
        put_key(buf, "artifact_scope");
        put_str(buf, self.artifact_scope.0.as_str());
        put_mark(buf, 0x7d);
    }
}

impl CoordinateBounds {
    pub open spec fn put_canonical(&self, acc: Seq<u8>) -> Seq<u8> {
        let a = with_key(acc + seq![0x7bu8], "schema_version"@) + json_int(self.schema_version.0 as int);
        let a = with_key(a + seq![0x2cu8], "min_x"@) + json_int(self.min_x as int);
        let a = with_key(a + seq![0x2cu8], "min_y"@) + json_int(self.min_y as int);
        let a = with_key(a + seq![0x2cu8], "max_x_exclusive"@) + json_int(self.max_x_exclusive as int);
        let a = with_key(a + seq![0x2cu8], "max_y_exclusive"@) + json_int(self.max_y_exclusive as int);
        a + seq![0x7du8]
    }

    pub fn write_canonical(&self, buf: &mut Vec<u8>)
        ensures
            final(buf)@ == self.put_canonical(old(buf)@),
    {
        put_mark(buf, 0x7b);
        put_key(buf, "schema_version");
        put_u64(buf, self.schema_version.0 as u64);
        put_mark(buf, 0x2c);
        put_key(buf, "min_x");
        put_i64(buf, self.min_x as i64);
        put_mark(buf, 0x2c);
        put_key(buf, "min_y");
        put_i64(buf, self.min_y as i64);
        put_mark(buf, 0x2c);
        put_key(buf, "max_x_exclusive");
        put_i64(buf, self.max_x_exclusive as i64);
        put_mark(buf, 0x2c);
        put_key(buf, "max_y_exclusive");
        put_i64(buf, self.max_y_exclusive as i64);
        put_mark(buf, 0x7d);
    }
}

#[derive(Debug, Clone, PartialEq, Eq)]
pub enum ComputerOperation {
    Move { x: i32, y: i32 },
    Click { x: i32, y: i32, button: PointerButton },
    Type { input: ExternalInput },
    Key { key: KeyCode },
    Scroll { dx: i32, dy: i32 },
    Screenshot,
}

impl ComputerOperation {
    pub open spec fn put_canonical(&self, acc: Seq<u8>) -> Seq<u8> {
        match self {
            ComputerOperation::Move { x, y } => {
            let a = with_key(with_key(acc + seq![0x7bu8], "Move"@) + seq![0x7bu8], "x"@) + json_int(*x as int);
            let a = with_key(a + seq![0x2cu8], "y"@) + json_int(*y as int);
            a + seq![0x7du8, 0x7du8]
            },
            ComputerOperation::Click { x, y, button } => {
            let a = with_key(with_key(acc + seq![0x7bu8], "Click"@) + seq![0x7bu8], "x"@) + json_int(*x as int);
            let a = with_key(a + seq![0x2cu8], "y"@) + json_int(*y as int);
            let a = with_key(a + seq![0x2cu8], "button"@) + json_string(button.wire_name());
            a + seq![0x7du8, 0x7du8]
            },
            ComputerOperation::Type { input } => {
            let a = input.put_canonical(with_key(with_key(acc + seq![0x7bu8], "Type"@) + seq![0x7bu8], "input"@));
            a + seq![0x7du8, 0x7du8]
            },
            ComputerOperation::Key { key } => {
            let a = with_key(with_key(acc + seq![0x7bu8], "Key"@) + seq![0x7bu8], "key"@) + json_string(key.wire_name());
            a + seq![0x7du8, 0x7du8]
            },
            ComputerOperation::Scroll { dx, dy } => {
            let a = with_key(with_key(acc + seq![0x7bu8], "Scroll"@) + seq![0x7bu8], "dx"@) + json_int(*dx as int);
            let a = with_key(a + seq![0x2cu8], "dy"@) + json_int(*dy as int);
            a + seq![0x7du8, 0x7du8]
            },
            ComputerOperation::Screenshot => acc + json_string("Screenshot"@),
        }
    }

    pub fn write_canonical(&self, buf: &mut Vec<u8>)
        ensures
            final(buf)@ == self.put_canonical(old(buf)@),
    {
        match self {
            ComputerOperation::Move { x, y } => {
            put_mark(buf, 0x7b);
            put_key(buf, "Move");
            put_mark(buf, 0x7b);
            put_key(buf, "x");
            put_i64(buf, *x as i64);
            put_mark(buf, 0x2c);
            put_key(buf, "y");
            put_i64(buf, *y as i64);
            put_mark(buf, 0x7d);
            put_mark(buf, 0x7d);
            },
            ComputerOperation::Click { x, y, button } => {
            put_mark(buf, 0x7b);
            put_key(buf, "Click");
            put_mark(buf, 0x7b);
            put_key(buf, "x");
            put_i64(buf, *x as i64);
            put_mark(buf, 0x2c);
            put_key(buf, "y");
            put_i64(buf, *y as i64);
            put_mark(buf, 0x2c);
            put_key(buf, "button");
            put_str(buf, button.wire_str());
            put_mark(buf, 0x7d);
            put_mark(buf, 0x7d);
            },
            ComputerOperation::Type { input } => {
            put_mark(buf, 0x7b);
            put_key(buf, "Type");
            put_mark(buf, 0x7b);
            put_key(buf, "input");
            input.write_canonical(buf);
            put_mark(buf, 0x7d);
            put_mark(buf, 0x7d);
            },
            ComputerOperation::Key { key } => {
            put_mark(buf, 0x7b);
            put_key(buf, "Key");
            put_mark(buf, 0x7b);
            put_key(buf, "key");
            put_str(buf, key.wire_str());
            put_mark(buf, 0x7d);
            put_mark(buf, 0x7d);
            },
            ComputerOperation::Scroll { dx, dy } => {
            put_mark(buf, 0x7b);
            put_key(buf, "Scroll");
            put_mark(buf, 0x7b);
            put_key(buf, "dx");
            put_i64(buf, *dx as i64);
            put_mark(buf, 0x2c);
            put_key(buf, "dy");
            put_i64(buf, *dy as i64);
            put_mark(buf, 0x7d);
            put_mark(buf, 0x7d);
            },
            ComputerOperation::Screenshot => put_str(buf, "Screenshot"),
        }
    }
}

#[derive(Debug, Clone, PartialEq, Eq)]
pub struct ComputerActionSpec {
    pub schema_version: SchemaVersion,
    pub driver: ProviderId,
    pub surface: SurfaceRef,
    pub bounds: CoordinateBounds,
    pub operation: ComputerOperation,
    pub artifact_scope: Scope,
}

impl ComputerActionSpec {
    pub open spec fn put_canonical(&self, acc: Seq<u8>) -> Seq<u8> {
        let a = with_key(acc + seq![0x7bu8], "schema_version"@) + json_int(self.schema_version.0 as int);
        let a = with_key(a + seq![0x2cu8], "driver"@) + json_string(self.driver.0@);
        let a = with_key(a + seq![0x2cu8], "surface"@) + json_string(self.surface.0@);
        let a = self.bounds.put_canonical(with_key(a + seq![0x2cu8], "bounds"@));
        let a = self.operation.put_canonical(with_key(a + seq![0x2cu8], "operation"@));
        let a = with_key(a + seq![0x2cu8], "artifact_scope"@) + json_string(self.artifact_scope.0@);
        a + seq![0x7du8]
    }

    pub fn write_canonical(&self, buf: &mut Vec<u8>)
        ensures
            final(buf)@ == self.put_canonical(old(buf)@),
    {
        put_mark(buf, 0x7b);
        put_key(buf, "schema_version");
        put_u64(buf, self.schema_version.0 as u64);
        put_mark(buf, 0x2c);
        put_key(buf, "driver");
        put_str(buf, self.driver.0.as_str());
        put_mark(buf, 0x2c);
        put_key(buf, "surface");
        put_str(buf, self.surface.0.as_str());
        put_mark(buf, 0x2c);
        put_key(buf, "bounds");
        self.bounds.write_canonical(buf);
        put_mark(buf, 0x2c);
        put_key(buf, "operation");
        self.operation.write_canonical(buf);
        put_mark(buf, 0x2c);
        put_key(buf, "artifact_scope");
        put_str(buf, self.artifact_scope.0.as_str());
        put_mark(buf, 0x7d);
    }
}

#[derive(Debug, Clone, PartialEq, Eq)]
pub struct SecretBinding {
    pub schema_version: SchemaVersion,
    pub name: String,
    pub value: SecretRef,
}

impl SecretBinding {
    pub open spec fn put_canonical(&self, acc: Seq<u8>) -> Seq<u8> {
        let a = with_key(acc + seq![0x7bu8], "schema_version"@) + json_int(self.schema_version.0 as int);
        let a = with_key(a + seq![0x2cu8], "name"@) + json_string(self.name@);
        let a = with_key(a + seq![0x2cu8], "value"@) + json_string(self.value.0@);
        a + seq![0x7du8]
    }

    pub fn write_canonical(&self, buf: &mut Vec<u8>)
        ensures
            final(buf)@ == self.put_canonical(old(buf)@),
    {
        put_mark(buf, 0x7b);
        put_key(buf, "schema_version");
        put_u64(buf, self.schema_version.0 as u64);
        put_mark(buf, 0x2c);
        put_key(buf, "name");
        put_str(buf, self.name.as_str());
        put_mark(buf, 0x2c);
        put_key(buf, "value");
        put_str(buf, self.value.0.as_str());
        put_mark(buf, 0x7d);
    }
}

/// A JSON array of secret bindings, written after `acc`.
pub open spec fn with_secret_bindings(acc: Seq<u8>, v: Seq<SecretBinding>) -> Seq<u8> {
    joined_secret_bindings(acc + seq![0x5bu8], v) + seq![0x5du8]
}

pub open spec fn joined_secret_bindings(acc: Seq<u8>, v: Seq<SecretBinding>) -> Seq<u8>
    decreases v.len(),
{
    if v.len() == 0 {
        acc
    } else if v.len() == 1 {
        v[0].put_canonical(acc)
    } else {
        v.last().put_canonical(joined_secret_bindings(acc, v.drop_last()) + seq![0x2cu8])
    }
}

pub fn put_secret_bindings(buf: &mut Vec<u8>, v: &Vec<SecretBinding>)
    ensures
        final(buf)@ == with_secret_bindings(old(buf)@, v@),
{
    let ghost start = buf@;
    buf.push(0x5b);
    let ghost open_acc = start + seq![0x5bu8];
    assert(buf@ =~= open_acc);
    let mut i: usize = 0;
    while i < v.len()
        invariant
            i <= v.len(),
            buf@ == joined_secret_bindings(open_acc, v@.subrange(0, i as int)),
        decreases v.len() - i,
    {
        let ghost prefix = v@.subrange(0, i as int);
        let ghost next = v@.subrange(0, i + 1);
        proof {
            assert(next.drop_last() =~= prefix);
            assert(next.last() == v@[i as int]);
        }
        if i > 0 {
            put_mark(buf, 0x2c);
            v[i].write_canonical(buf);
            proof {
                assert(next.len() > 1);
                assert(joined_secret_bindings(open_acc, next) == next.last().put_canonical(
                    joined_secret_bindings(open_acc, next.drop_last()) + seq![0x2cu8],
                ));
            }
        } else {
            v[i].write_canonical(buf);
            proof {
                assert(next.len() == 1);
                assert(next[0] == v@[0]);
                assert(joined_secret_bindings(open_acc, next) == next[0].put_canonical(open_acc));
            }
        }
        i = i + 1;
    }
    put_mark(buf, 0x5d);
    assert(v@.subrange(0, i as int) =~= v@);
}

#[derive(Debug, Clone, PartialEq, Eq)]
pub struct PtyActionSpec {
    pub schema_version: SchemaVersion,
    pub program: String,
    pub args: Vec<String>,
    pub cwd: String,
    pub cols: u16,
    pub rows: u16,
    pub input: Option<ExternalInput>,
    pub environment: Vec<SecretBinding>,
}

impl PtyActionSpec {
    pub open spec fn put_canonical(&self, acc: Seq<u8>) -> Seq<u8> {
        let a = with_key(acc + seq![0x7bu8], "schema_version"@) + json_int(self.schema_version.0 as int);
        let a = with_key(a + seq![0x2cu8], "program"@) + json_string(self.program@);
        let a = with_texts(with_key(a + seq![0x2cu8], "args"@), self.args@);
        let a = with_key(a + seq![0x2cu8], "cwd"@) + json_string(self.cwd@);
        let a = with_key(a + seq![0x2cu8], "cols"@) + json_int(self.cols as int);
        let a = with_key(a + seq![0x2cu8], "rows"@) + json_int(self.rows as int);
        let a = match self.input {
            Some(x) => x.put_canonical(with_key(a + seq![0x2cu8], "input"@)),
            None => with_key(a + seq![0x2cu8], "input"@) + json_null(),
        };
        let a = with_secret_bindings(with_key(a + seq![0x2cu8], "environment"@), self.environment@);
        a + seq![0x7du8]
    }

    pub fn write_canonical(&self, buf: &mut Vec<u8>)
        ensures
            final(buf)@ == self.put_canonical(old(buf)@),
    {
        put_mark(buf, 0x7b);
        put_key(buf, "schema_version");
        put_u64(buf, self.schema_version.0 as u64);
        put_mark(buf, 0x2c);
        put_key(buf, "program");
        put_str(buf, self.program.as_str());
        put_mark(buf, 0x2c);
        put_key(buf, "args");
        put_texts(buf, &self.args);
        put_mark(buf, 0x2c);
        put_key(buf, "cwd");
        put_str(buf, self.cwd.as_str());
        put_mark(buf, 0x2c);
        put_key(buf, "cols");
        put_u64(buf, self.cols as u64);
        put_mark(buf, 0x2c);
        put_key(buf, "rows");
        put_u64(buf, self.rows as u64);
        put_mark(buf, 0x2c);
        put_key(buf, "input");
        match &self.input {
            Some(x) => x.write_canonical(buf),
            None => put_null(buf),
        }
        put_mark(buf, 0x2c);
        put_key(buf, "environment");
        put_secret_bindings(buf, &self.environment);
        put_mark(buf, 0x7d);
    }
}

#[derive(Debug, Clone, PartialEq, Eq)]
pub enum AppApiOperation {
    Read,
    Mutation { method: AppApiMutationMethod, body: Option<ExternalInput>, idempotency_key: IdempotencyKey },
}

impl AppApiOperation {
    pub open spec fn put_canonical(&self, acc: Seq<u8>) -> Seq<u8> {
        match self {
            AppApiOperation::Read => acc + json_string("Read"@),
            AppApiOperation::Mutation { method, body, idempotency_key } => {
            let a = with_key(with_key(acc + seq![0x7bu8], "Mutation"@) + seq![0x7bu8], "method"@) + json_string(method.wire_name());
            let a = match body {
                Some(x) => x.put_canonical(with_key(a + seq![0x2cu8], "body"@)),
                None => with_key(a + seq![0x2cu8], "body"@) + json_null(),
            };
            let a = with_key(a + seq![0x2cu8], "idempotency_key"@) + json_string(idempotency_key.0@);
            a + seq![0x7du8, 0x7du8]
            },
        }
    }

    pub fn write_canonical(&self, buf: &mut Vec<u8>)
        ensures
            final(buf)@ == self.put_canonical(old(buf)@),
    {
        match self {
            AppApiOperation::Read => put_str(buf, "Read"),
            AppApiOperation::Mutation { method, body, idempotency_key } => {
            put_mark(buf, 0x7b);
            put_key(buf, "Mutation");
            put_mark(buf, 0x7b);
            put_key(buf, "method");
            put_str(buf, method.wire_str());
            put_mark(buf, 0x2c);
            put_key(buf, "body");
            match body {
                Some(x) => x.write_canonical(buf),
                None => put_null(buf),
            }
            put_mark(buf, 0x2c);
            put_key(buf, "idempotency_key");
            put_str(buf, idempotency_key.0.as_str());
            put_mark(buf, 0x7d);
            put_mark(buf, 0x7d);
            },
        }
    }
}

#[derive(Debug, Clone, PartialEq, Eq)]
pub struct AppApiActionSpec {
    pub schema_version: SchemaVersion,
    pub connector: ProviderId,
    pub endpoint: String,
    pub schema_digest: SchemaDigest,
    pub credential: Option<SecretRef>,
    pub operation: AppApiOperation,
    pub timeout: DurationMs,
    pub participant: Option<ParticipantId>,
    pub representation: Option<Representation>,
    pub disclosure_request: Option<DisclosureRequestRef>,
}

impl AppApiActionSpec {
    pub open spec fn put_canonical(&self, acc: Seq<u8>) -> Seq<u8> {
        let a = with_key(acc + seq![0x7bu8], "schema_version"@) + json_int(self.schema_version.0 as int);
        let a = with_key(a + seq![0x2cu8], "connector"@) + json_string(self.connector.0@);
        let a = with_key(a + seq![0x2cu8], "endpoint"@) + json_string(self.endpoint@);
        let a = with_key(a + seq![0x2cu8], "schema_digest"@) + json_string(self.schema_digest.0@);
        let a = with_key(a + seq![0x2cu8], "credential"@) + json_opt_text(
            match self.credential {
                Some(p) => Some(p.0@),
                None => None,
            },
        );
        let a = self.operation.put_canonical(with_key(a + seq![0x2cu8], "operation"@));
        let a = with_key(a + seq![0x2cu8], "timeout"@) + json_int(self.timeout.0 as int);
        let a = with_key(a + seq![0x2cu8], "participant"@) + json_opt_text(
            match self.participant {
                Some(p) => Some(p.0@),
                None => None,
            },
        );
        let a = with_key(a + seq![0x2cu8], "representation"@) + match self.representation {
            Some(x) => json_string(x.wire_name()),
            None => json_null(),
        };
        let a = with_key(a + seq![0x2cu8], "disclosure_request"@) + json_opt_text(
            match self.disclosure_request {
                Some(p) => Some(p.0@),
                None => None,
            },
        );
        a + seq![0x7du8]
    }

    pub fn write_canonical(&self, buf: &mut Vec<u8>)
        ensures
            final(buf)@ == self.put_canonical(old(buf)@),
    {
        put_mark(buf, 0x7b);
        put_key(buf, "schema_version");
        put_u64(buf, self.schema_version.0 as u64);
        put_mark(buf, 0x2c);
        put_key(buf, "connector");
        put_str(buf, self.connector.0.as_str());
        put_mark(buf, 0x2c);
        put_key(buf, "endpoint");
        put_str(buf, self.endpoint.as_str());
        put_mark(buf, 0x2c);
        put_key(buf, "schema_digest");
        put_str(buf, self.schema_digest.0.as_str());
        put_mark(buf, 0x2c);
        put_key(buf, "credential");
        put_opt_text(
            buf,
            match &self.credential {
                Some(p) => Some(&p.0),
                None => None,
            },
        );
        put_mark(buf, 0x2c);
        put_key(buf, "operation");
        self.operation.write_canonical(buf);
        put_mark(buf, 0x2c);
        put_key(buf, "timeout");
        put_u64(buf, self.timeout.0 as u64);
        put_mark(buf, 0x2c);
        put_key(buf, "participant");
        put_opt_text(
            buf,
            match &self.participant {
                Some(p) => Some(&p.0),
                None => None,
            },
        );
        put_mark(buf, 0x2c);
        put_key(buf, "representation");
        match &self.representation {
            Some(x) => put_str(buf, x.wire_str()),
            None => put_null(buf),
        }
        put_mark(buf, 0x2c);
        put_key(buf, "disclosure_request");
        put_opt_text(
            buf,
            match &self.disclosure_request {
                Some(p) => Some(&p.0),
                None => None,
            },
        );
        put_mark(buf, 0x7d);
    }
}

impl McpStdioSpec {
    pub open spec fn put_canonical(&self, acc: Seq<u8>) -> Seq<u8> {
        let a = with_key(acc + seq![0x7bu8], "schema_version"@) + json_int(self.schema_version.0 as int);
        let a = with_key(a + seq![0x2cu8], "command"@) + json_string(self.command@);
        let a = with_texts(with_key(a + seq![0x2cu8], "args"@), self.args@);
        let a = with_pairs(with_key(a + seq![0x2cu8], "env"@), self.env@);
        a + seq![0x7du8]
    }

    pub fn write_canonical(&self, buf: &mut Vec<u8>)
        ensures
            final(buf)@ == self.put_canonical(old(buf)@),
    {
        put_mark(buf, 0x7b);
        put_key(buf, "schema_version");
        put_u64(buf, self.schema_version.0 as u64);
        put_mark(buf, 0x2c);
        put_key(buf, "command");
        put_str(buf, self.command.as_str());
        put_mark(buf, 0x2c);
        put_key(buf, "args");
        put_texts(buf, &self.args);
        put_mark(buf, 0x2c);
        put_key(buf, "env");
        put_pairs(buf, &self.env);
        put_mark(buf, 0x7d);
    }
}

#[derive(Debug, PartialEq, Eq)]
pub enum ActionParameters {
    Shell { program: String, args: Vec<String>, cwd: Option<String>, network: bool },
    File { operation: FileOperation, path: String, content: Option<Vec<u8>> },
    Mcp {
        server: McpServerRef,
        tool: ToolRef,
        arguments: JsonText,
        schema_digest: Option<SchemaDigest>,
        transport: McpTransport,
        stdio: McpStdioSpec,
        timeout: DurationMs,
    },
    Notification { surface: SurfaceRef, target: ParticipantId, title: String, body_ref: ContentRef },
    Browser(BrowserActionSpec),
    Computer(ComputerActionSpec),
    Pty(PtyActionSpec),
    AppApi(AppApiActionSpec),
    Remote(Box<RemoteActionSpec>),
}

impl ActionParameters {
    pub open spec fn put_canonical(&self, acc: Seq<u8>) -> Seq<u8>
        decreases self, 1nat,
    {
        match self {
            ActionParameters::Shell { program, args, cwd, network } => {
            let a = with_key(with_key(acc + seq![0x7bu8], "Shell"@) + seq![0x7bu8], "program"@) + json_string(program@);
            let a = with_texts(with_key(a + seq![0x2cu8], "args"@), args@);
            let a = with_key(a + seq![0x2cu8], "cwd"@) + json_opt_text(
                match cwd {
                    Some(p) => Some(p@),
                    None => None,
                },
            );
            let a = with_key(a + seq![0x2cu8], "network"@) + json_bool(*network);
            a + seq![0x7du8, 0x7du8]
            },
            ActionParameters::File { operation, path, content } => {
            let a = with_key(with_key(acc + seq![0x7bu8], "File"@) + seq![0x7bu8], "operation"@) + json_string(operation.wire_name());
            let a = with_key(a + seq![0x2cu8], "path"@) + json_string(path@);
            let a = match content {
                Some(x) => with_byte_array(with_key(a + seq![0x2cu8], "content"@), x@),
                None => with_key(a + seq![0x2cu8], "content"@) + json_null(),
            };
            a + seq![0x7du8, 0x7du8]
            },
            ActionParameters::Mcp { server, tool, arguments, schema_digest, transport, stdio, timeout } => {
            let a = with_key(with_key(acc + seq![0x7bu8], "Mcp"@) + seq![0x7bu8], "server"@) + json_string(server.0@);
            let a = with_key(a + seq![0x2cu8], "tool"@) + json_string(tool.0@);
            let a = with_key(a + seq![0x2cu8], "arguments"@) + utf8_of(arguments.0@);
            let a = with_key(a + seq![0x2cu8], "schema_digest"@) + json_opt_text(
                match schema_digest {
                    Some(p) => Some(p.0@),
                    None => None,
                },
            );
            let a = with_key(a + seq![0x2cu8], "transport"@) + json_string(transport.wire_name());
            let a = stdio.put_canonical(with_key(a + seq![0x2cu8], "stdio"@));
            let a = with_key(a + seq![0x2cu8], "timeout"@) + json_int(timeout.0 as int);
            a + seq![0x7du8, 0x7du8]
            },
            ActionParameters::Notification { surface, target, title, body_ref } => {
            let a = with_key(with_key(acc + seq![0x7bu8], "Notification"@) + seq![0x7bu8], "surface"@) + json_string(surface.0@);
            let a = with_key(a + seq![0x2cu8], "target"@) + json_string(target.0@);
            let a = with_key(a + seq![0x2cu8], "title"@) + json_string(title@);
            let a = with_key(a + seq![0x2cu8], "body_ref"@) + json_string(body_ref.0@);
            a + seq![0x7du8, 0x7du8]
            },
            ActionParameters::Browser(spec) => {
                spec.put_canonical(with_key(acc + seq![0x7bu8], "Browser"@)) + seq![0x7du8]
            },
            ActionParameters::Computer(spec) => {
                spec.put_canonical(with_key(acc + seq![0x7bu8], "Computer"@)) + seq![0x7du8]
            },
            ActionParameters::Pty(spec) => {
                spec.put_canonical(with_key(acc + seq![0x7bu8], "Pty"@)) + seq![0x7du8]
            },
            ActionParameters::AppApi(spec) => {
                spec.put_canonical(with_key(acc + seq![0x7bu8], "AppApi"@)) + seq![0x7du8]
            },
            ActionParameters::Remote(spec) => {
                spec.put_canonical(with_key(acc + seq![0x7bu8], "Remote"@)) + seq![0x7du8]
            },
        }
    }

    #[verifier::rlimit(60)]
    pub fn write_canonical(&self, buf: &mut Vec<u8>)
        ensures
            final(buf)@ == self.put_canonical(old(buf)@),
        decreases self, 1nat,
    {
        match self {
            ActionParameters::Shell { program, args, cwd, network } => {
            put_mark(buf, 0x7b);
            put_key(buf, "Shell");
            put_mark(buf, 0x7b);
            put_key(buf, "program");
            put_str(buf, program.as_str());
            put_mark(buf, 0x2c);
            put_key(buf, "args");
            put_texts(buf, args);
            put_mark(buf, 0x2c);
            put_key(buf, "cwd");
            put_opt_text(buf, cwd.as_ref());
            put_mark(buf, 0x2c);
            put_key(buf, "network");
            put_bool(buf, *network);
            put_mark(buf, 0x7d);
            put_mark(buf, 0x7d);
            },
            ActionParameters::File { operation, path, content } => {
            put_mark(buf, 0x7b);
            put_key(buf, "File");
            put_mark(buf, 0x7b);
            put_key(buf, "operation");
            put_str(buf, operation.wire_str());
            put_mark(buf, 0x2c);
            put_key(buf, "path");
            put_str(buf, path.as_str());
            put_mark(buf, 0x2c);
            put_key(buf, "content");
            match content {
                Some(x) => put_byte_array(buf, x),
                None => put_null(buf),
            }
            put_mark(buf, 0x7d);
            put_mark(buf, 0x7d);
            },
            ActionParameters::Mcp { server, tool, arguments, schema_digest, transport, stdio, timeout } => {
            put_mark(buf, 0x7b);
            put_key(buf, "Mcp");
            put_mark(buf, 0x7b);
            put_key(buf, "server");
            put_str(buf, server.0.as_str());
            put_mark(buf, 0x2c);
            put_key(buf, "tool");
            put_str(buf, tool.0.as_str());
            put_mark(buf, 0x2c);
            put_key(buf, "arguments");
            put_raw(buf, arguments.0.as_str());
            put_mark(buf, 0x2c);
            put_key(buf, "schema_digest");
            put_opt_text(
                buf,
                match schema_digest {
                    Some(p) => Some(&p.0),
                    None => None,
                },
            );
            put_mark(buf, 0x2c);
            put_key(buf, "transport");
            put_str(buf, transport.wire_str());
            put_mark(buf, 0x2c);
            put_key(buf, "stdio");
            stdio.write_canonical(buf);
            put_mark(buf, 0x2c);
            put_key(buf, "timeout");
            put_u64(buf, timeout.0 as u64);
            put_mark(buf, 0x7d);
            put_mark(buf, 0x7d);
            },
            ActionParameters::Notification { surface, target, title, body_ref } => {
            put_mark(buf, 0x7b);
            put_key(buf, "Notification");
            put_mark(buf, 0x7b);
            put_key(buf, "surface");
            put_str(buf, surface.0.as_str());
            put_mark(buf, 0x2c);
            put_key(buf, "target");
            put_str(buf, target.0.as_str());
            put_mark(buf, 0x2c);
            put_key(buf, "title");
            put_str(buf, title.as_str());
            put_mark(buf, 0x2c);
            put_key(buf, "body_ref");
            put_str(buf, body_ref.0.as_str());
            put_mark(buf, 0x7d);
            put_mark(buf, 0x7d);
            },
            ActionParameters::Browser(spec) => {
                put_mark(buf, 0x7b);
                put_key(buf, "Browser");
                spec.write_canonical(buf);
                put_mark(buf, 0x7d);
            },
            ActionParameters::Computer(spec) => {
                put_mark(buf, 0x7b);
                put_key(buf, "Computer");
                spec.write_canonical(buf);
                put_mark(buf, 0x7d);
            },
            ActionParameters::Pty(spec) => {
                put_mark(buf, 0x7b);
                put_key(buf, "Pty");
                spec.write_canonical(buf);
                put_mark(buf, 0x7d);
            },
            ActionParameters::AppApi(spec) => {
                put_mark(buf, 0x7b);
                put_key(buf, "AppApi");
                spec.write_canonical(buf);
                put_mark(buf, 0x7d);
            },
            ActionParameters::Remote(spec) => {
                put_mark(buf, 0x7b);
                put_key(buf, "Remote");
                spec.write_canonical(buf);
                put_mark(buf, 0x7d);
            },
        }
    }
}

#[derive(Debug, PartialEq, Eq)]
pub struct RemoteOperation {
    pub schema_version: SchemaVersion,
    pub backend: BackendKind,
    pub parameters: ActionParameters,
    pub capability: CapabilityRef,
    pub scope: Scope,
    pub action_type: ActionType,
    pub expected_effect: ExpectedEffect,
    pub rollback_boundary: RollbackBoundary,
    pub credential_slot: Option<ExecutorCredentialSlotRef>,
    pub digest: SchemaDigest,
}

#[derive(Debug, PartialEq, Eq)]
pub struct RemotePlacementPlan {
    pub schema_version: SchemaVersion,
    pub executor: FederatedPeerRef,
    pub peer_grant: FederatedPeerGrantRef,
    pub grant_version: PeerGrantVersion,
    pub authority_epoch: AuthorityEpoch,
    pub executor_profile: ExecutorProfileRef,
    pub operation: RemoteOperation,
    pub digest: SchemaDigest,
}

#[derive(Debug, PartialEq, Eq)]
pub struct RemoteActionSpec {
    pub schema_version: SchemaVersion,
    pub placement: RemotePlacementPlan,
}

impl RemoteOperation {
    /// The canonical form, with `d` in place of the digest.
    pub open spec fn put_with_digest(&self, acc: Seq<u8>, d: Seq<char>) -> Seq<u8>
        decreases self, 0nat,
    {
        let a = with_key(acc + seq![0x7bu8], "schema_version"@) + json_int(self.schema_version.0 as int);
        let a = with_key(a + seq![0x2cu8], "backend"@) + json_string(self.backend.wire_name());
        let a = self.parameters.put_canonical(with_key(a + seq![0x2cu8], "parameters"@));
        let a = with_key(a + seq![0x2cu8], "capability"@) + json_string(self.capability.0@);
        let a = with_key(a + seq![0x2cu8], "scope"@) + json_string(self.scope.0@);
        let a = with_key(a + seq![0x2cu8], "action_type"@) + json_string(self.action_type.wire_name());
        let a = with_key(a + seq![0x2cu8], "expected_effect"@) + json_string(self.expected_effect.wire_name());
        let a = with_key(a + seq![0x2cu8], "rollback_boundary"@) + json_string(self.rollback_boundary.0@);
        let a = with_key(a + seq![0x2cu8], "credential_slot"@) + json_opt_text(
            match self.credential_slot {
                Some(p) => Some(p.0@),
                None => None,
            },
        );
        let a = with_key(a + seq![0x2cu8], "digest"@) + json_string(d);
        a + seq![0x7du8]
    }

    pub fn write_with_digest(&self, buf: &mut Vec<u8>, d: &str)
        ensures
            final(buf)@ == self.put_with_digest(old(buf)@, d@),
        decreases self, 0nat,
    {
        put_mark(buf, 0x7b);
        put_key(buf, "schema_version");
        put_u64(buf, self.schema_version.0 as u64);
        put_mark(buf, 0x2c);
        put_key(buf, "backend");
        put_str(buf, self.backend.wire_str());
        put_mark(buf, 0x2c);
        put_key(buf, "parameters");
        self.parameters.write_canonical(buf);
        put_mark(buf, 0x2c);
        put_key(buf, "capability");
        put_str(buf, self.capability.0.as_str());
        put_mark(buf, 0x2c);
        put_key(buf, "scope");
        put_str(buf, self.scope.0.as_str());
        put_mark(buf, 0x2c);
        put_key(buf, "action_type");
        put_str(buf, self.action_type.wire_str());
        put_mark(buf, 0x2c);
        put_key(buf, "expected_effect");
        put_str(buf, self.expected_effect.wire_str());
        put_mark(buf, 0x2c);
        put_key(buf, "rollback_boundary");
        put_str(buf, self.rollback_boundary.0.as_str());
        put_mark(buf, 0x2c);
        put_key(buf, "credential_slot");
        put_opt_text(
            buf,
            match &self.credential_slot {
                Some(p) => Some(&p.0),
                None => None,
            },
        );
        put_mark(buf, 0x2c);
        put_key(buf, "digest");
        put_str(buf, d);
        put_mark(buf, 0x7d);
    }

    /// The canonical form as it stands, digest included.
    pub open spec fn put_canonical(&self, acc: Seq<u8>) -> Seq<u8>
        decreases self, 1nat,
    {
        self.put_with_digest(acc, self.digest.0@)
    }

    pub fn write_canonical(&self, buf: &mut Vec<u8>)
        ensures
            final(buf)@ == self.put_canonical(old(buf)@),
        decreases self, 1nat,
    {
        self.write_with_digest(buf, self.digest.0.as_str());
    }

    /// The canonical form with the digest cleared.
    pub open spec fn material(&self) -> Seq<u8> {
        self.put_with_digest(Seq::empty(), ""@)
    }

    pub fn encode_material(&self) -> (r: Vec<u8>)
        ensures
            r@ == self.material(),
    {
        let mut buf: Vec<u8> = Vec::new();
        self.write_with_digest(&mut buf, "");
        buf
    }
}

impl RemotePlacementPlan {
    /// The canonical form, with `d` in place of the digest.
    pub open spec fn put_with_digest(&self, acc: Seq<u8>, d: Seq<char>) -> Seq<u8>
        decreases self, 0nat,
    {
        let a = with_key(acc + seq![0x7bu8], "schema_version"@) + json_int(self.schema_version.0 as int);
        let a = with_key(a + seq![0x2cu8], "executor"@) + json_string(self.executor.0@);
        let a = with_key(a + seq![0x2cu8], "peer_grant"@) + json_string(self.peer_grant.0@);
        let a = with_key(a + seq![0x2cu8], "grant_version"@) + json_int(self.grant_version.0 as int);
        let a = with_key(a + seq![0x2cu8], "authority_epoch"@) + json_int(self.authority_epoch.0 as int);
        let a = with_key(a + seq![0x2cu8], "executor_profile"@) + json_string(self.executor_profile.0@);
        let a = self.operation.put_canonical(with_key(a + seq![0x2cu8], "operation"@));
        let a = with_key(a + seq![0x2cu8], "digest"@) + json_string(d);
        a + seq![0x7du8]
    }

    pub fn write_with_digest(&self, buf: &mut Vec<u8>, d: &str)
        ensures
            final(buf)@ == self.put_with_digest(old(buf)@, d@),
        decreases self, 0nat,
    {
        put_mark(buf, 0x7b);
        put_key(buf, "schema_version");
        put_u64(buf, self.schema_version.0 as u64);
        put_mark(buf, 0x2c);
        put_key(buf, "executor");
        put_str(buf, self.executor.0.as_str());
        put_mark(buf, 0x2c);
        put_key(buf, "peer_grant");
        put_str(buf, self.peer_grant.0.as_str());
        put_mark(buf, 0x2c);
        put_key(buf, "grant_version");
        put_u64(buf, self.grant_version.0 as u64);
        put_mark(buf, 0x2c);
        put_key(buf, "authority_epoch");
        put_u64(buf, self.authority_epoch.0 as u64);
        put_mark(buf, 0x2c);
        put_key(buf, "executor_profile");
        put_str(buf, self.executor_profile.0.as_str());
        put_mark(buf, 0x2c);
        put_key(buf, "operation");
        self.operation.write_canonical(buf);
        put_mark(buf, 0x2c);
        put_key(buf, "digest");
        put_str(buf, d);
        put_mark(buf, 0x7d);
    }

    /// The canonical form as it stands, digest included.
    pub open spec fn put_canonical(&self, acc: Seq<u8>) -> Seq<u8>
        decreases self, 1nat,
    {
        self.put_with_digest(acc, self.digest.0@)
    }

    pub fn write_canonical(&self, buf: &mut Vec<u8>)
        ensures
            final(buf)@ == self.put_canonical(old(buf)@),
        decreases self, 1nat,
    {
        self.write_with_digest(buf, self.digest.0.as_str());
    }

    /// The canonical form with the digest cleared.
    pub open spec fn material(&self) -> Seq<u8> {
        self.put_with_digest(Seq::empty(), ""@)
    }

    pub fn encode_material(&self) -> (r: Vec<u8>)
        ensures
            r@ == self.material(),
    {
        let mut buf: Vec<u8> = Vec::new();
        self.write_with_digest(&mut buf, "");
        buf
    }
}

impl RemoteActionSpec {
    pub open spec fn put_canonical(&self, acc: Seq<u8>) -> Seq<u8>
        decreases self, 1nat,
    {
        let a = with_key(acc + seq![0x7bu8], "schema_version"@) + json_int(self.schema_version.0 as int);
        let a = self.placement.put_canonical(with_key(a + seq![0x2cu8], "placement"@));
        a + seq![0x7du8]
    }

    pub fn write_canonical(&self, buf: &mut Vec<u8>)
        ensures
            final(buf)@ == self.put_canonical(old(buf)@),
        decreases self, 1nat,
    {
        put_mark(buf, 0x7b);
        put_key(buf, "schema_version");
        put_u64(buf, self.schema_version.0 as u64);
        put_mark(buf, 0x2c);
        put_key(buf, "placement");
        self.placement.write_canonical(buf);
        put_mark(buf, 0x7d);
    }
}

/// The backend an action runs on is the one its parameters are written for.
pub open spec fn backend_matches(backend: BackendKind, parameters: ActionParameters) -> bool {
    match (backend, parameters) {
        (BackendKind::Shell, ActionParameters::Shell { .. }) => true,
        (BackendKind::File, ActionParameters::File { .. }) => true,
        (BackendKind::Mcp, ActionParameters::Mcp { .. }) => true,
        (BackendKind::Notification, ActionParameters::Notification { .. }) => true,
        (BackendKind::Browser, ActionParameters::Browser(_)) => true,
        (BackendKind::Computer, ActionParameters::Computer(_)) => true,
        (BackendKind::Pty, ActionParameters::Pty(_)) => true,
        (BackendKind::AppApi, ActionParameters::AppApi(_)) => true,
        _ => false,
    }
}

pub fn parameters_match_backend(backend: BackendKind, parameters: &ActionParameters) -> (r: bool)
    ensures
        r == backend_matches(backend, *parameters),
{
    match (backend, parameters) {
        (BackendKind::Shell, ActionParameters::Shell { .. }) => true,
        (BackendKind::File, ActionParameters::File { .. }) => true,
        (BackendKind::Mcp, ActionParameters::Mcp { .. }) => true,
        (BackendKind::Notification, ActionParameters::Notification { .. }) => true,
        (BackendKind::Browser, ActionParameters::Browser(_)) => true,
        (BackendKind::Computer, ActionParameters::Computer(_)) => true,
        (BackendKind::Pty, ActionParameters::Pty(_)) => true,
        (BackendKind::AppApi, ActionParameters::AppApi(_)) => true,
        _ => false,
    }
}

/// The input is a secret reference.
pub open spec fn secret_input(input: ExternalInput) -> bool {
    input is Secret
}

/// The parameters reach for a central secret: typed or piped secret input,
/// PTY environment bindings, an App API credential or secret body, or any
/// of these inside a remote operation.
pub open spec fn has_secret(parameters: ActionParameters) -> bool
    decreases parameters,
{
    match parameters {
        ActionParameters::Browser(spec) => match spec.operation {
            BrowserOperation::Type { input, .. } => secret_input(input),
            _ => false,
        },
        ActionParameters::Computer(spec) => match spec.operation {
            ComputerOperation::Type { input } => secret_input(input),
            _ => false,
        },
        ActionParameters::Pty(spec) => (match spec.input {
            Some(input) => secret_input(input),
            None => false,
        }) || spec.environment@.len() > 0,
        ActionParameters::AppApi(spec) => spec.credential is Some || match spec.operation {
            AppApiOperation::Read => false,
            AppApiOperation::Mutation { body, .. } => match body {
                Some(input) => secret_input(input),
                None => false,
            },
        },
        ActionParameters::Remote(spec) => has_secret(spec.placement.operation.parameters),
        _ => false,
    }
}

fn input_has_secret(input: &ExternalInput) -> (r: bool)
    ensures
        r == secret_input(*input),
{
    match input {
        ExternalInput::Secret(_) => true,
        _ => false,
    }
}

pub fn contains_secret(parameters: &ActionParameters) -> (r: bool)
    ensures
        r == has_secret(*parameters),
    decreases parameters,
{
    match parameters {
        ActionParameters::Browser(spec) => match &spec.operation {
            BrowserOperation::Type { input, .. } => input_has_secret(input),
            _ => false,
        },
        ActionParameters::Computer(spec) => match &spec.operation {
            ComputerOperation::Type { input } => input_has_secret(input),
            _ => false,
        },
        ActionParameters::Pty(spec) => {
            let piped = match &spec.input {
                Some(input) => input_has_secret(input),
                None => false,
            };
            piped || spec.environment.len() > 0
        },
        ActionParameters::AppApi(spec) => {
            let body_secret = match &spec.operation {
                AppApiOperation::Read => false,
                AppApiOperation::Mutation { body, .. } => match body {
                    Some(input) => input_has_secret(input),
                    None => false,
                },
            };
            spec.credential.is_some() || body_secret
        },
        ActionParameters::Remote(spec) => contains_secret(&spec.placement.operation.parameters),
        _ => false,
    }
}

/// The host paths the parameters name: a shell working directory, a file
/// path, a PTY working directory, or those inside a remote operation.
pub open spec fn host_paths(parameters: ActionParameters) -> Seq<Seq<char>>
    decreases parameters,
{
    match parameters {
        ActionParameters::Shell { cwd, .. } => match cwd {
            Some(c) => seq![c@],
            None => Seq::empty(),
        },
        ActionParameters::File { path, .. } => seq![path@],
        ActionParameters::Pty(spec) => seq![spec.cwd@],
        ActionParameters::Remote(spec) => host_paths(spec.placement.operation.parameters),
        _ => Seq::empty(),
    }
}

/// What a path component is, without its text.
#[derive(Debug, Clone, Copy, PartialEq, Eq, Structural)]
pub enum PathPiece {
    Prefix,
    RootDir,
    CurDir,
    ParentDir,
    Normal,
}

/// The text starts with `/`.
pub open spec fn rooted_text(s: Seq<char>) -> bool {
    s.len() > 0 && s[0] == '/'
}

/// The `/`-separated segment of the text starting at `i` is `..`.
pub open spec fn parent_segment_at(s: Seq<char>, i: int) -> bool {
    &&& 0 <= i
    &&& i + 2 <= s.len()
    &&& s[i] == '.'
    &&& s[i + 1] == '.'
    &&& (i == 0 || s[i - 1] == '/')
    &&& (i + 2 == s.len() || s[i + 2] == '/')
}

/// One of the `/`-separated segments of the text is `..`.
pub open spec fn has_parent_segment(s: Seq<char>) -> bool {
    exists|i: int| #[trigger] parent_segment_at(s, i)
}

/// A path text that leaves the working area on every platform: it starts
/// at the root, or steps up to a parent.
pub open spec fn leaves_working_area(s: Seq<char>) -> bool {
    rooted_text(s) || has_parent_segment(s)
}

/// A plain relative path text on every platform: it does not start with
/// `/`, holds no `\` and no `:`, and has no `..` segment.
pub open spec fn plain_relative(s: Seq<char>) -> bool {
    &&& !rooted_text(s)
    &&& !s.contains('\\')
    &&& !s.contains(':')
    &&& !has_parent_segment(s)
}

/// Some piece of the list is `k`.
pub open spec fn has_piece(pieces: Seq<PathPiece>, k: PathPiece) -> bool {
    exists|i: int| 0 <= i < pieces.len() && #[trigger] pieces[i] == k
}

/// Calls `std::path::Path::is_absolute` on the text taken as a path. What
/// is absolute differs between platforms (a leading `/` is absolute on Unix
/// but not on Windows). On each of them an absolute path starts with a
/// separator or carries a prefix, and a Windows prefix needs a `\`, a `:`
/// or a leading `/`; the contract states that a text with none of these is
/// not absolute, and nothing else.
#[verifier::external_body]
fn path_is_absolute(value: &str) -> (r: bool)
    ensures
        !rooted_text(value@) && !value@.contains('\\') && !value@.contains(':') ==> !r,
{
    std::path::Path::new(value).is_absolute()
}

/// Calls `std::path::Path::components` on the text taken as a path and
/// keeps the kind of each component, in order. Where the text splits
/// differs between platforms, but `/` separates components on each of them:
/// a text starting with `/` gives a root (or, on Windows, a prefix such as a
/// UNC share), and a `..` segment gives a parent step (or sits behind a
/// prefix, as in a verbatim Windows path, where `/` does not separate). A
/// plain relative text, which neither platform reads a prefix or a root
/// in, and whose only separators are `/`, gives no root, prefix or parent
/// step. The contract states those three facts and nothing else of the
/// result.
#[verifier::external_body]
fn path_pieces(value: &str) -> (r: Vec<PathPiece>)
    ensures
        plain_relative(value@) ==> !has_piece(r@, PathPiece::RootDir) && !has_piece(
            r@,
            PathPiece::ParentDir,
        ) && !has_piece(r@, PathPiece::Prefix),
        rooted_text(value@) ==> has_piece(r@, PathPiece::RootDir) || has_piece(r@, PathPiece::Prefix),
        has_parent_segment(value@) ==> has_piece(r@, PathPiece::ParentDir) || has_piece(
            r@,
            PathPiece::Prefix,
        ),
{
    let mut out = Vec::new();
    for component in std::path::Path::new(value).components() {
        out.push(match component {
            std::path::Component::Prefix(_) => PathPiece::Prefix,
            std::path::Component::RootDir => PathPiece::RootDir,
            std::path::Component::CurDir => PathPiece::CurDir,
            std::path::Component::ParentDir => PathPiece::ParentDir,
            std::path::Component::Normal(_) => PathPiece::Normal,
        });
    }
    out
}

/// A path that is absolute, or has a root, a prefix or a parent step, leaves
/// the working area of a remote executor.
pub open spec fn escapes_host(absolute: bool, pieces: Seq<PathPiece>) -> bool {
    absolute || exists|i: int|
        0 <= i < pieces.len() && (#[trigger] pieces[i] == PathPiece::ParentDir || pieces[i]
            == PathPiece::RootDir || pieces[i] == PathPiece::Prefix)
}

pub fn path_escapes_host(absolute: bool, pieces: &Vec<PathPiece>) -> (r: bool)
    ensures
        r == escapes_host(absolute, pieces@),
{
    if absolute {
        return true;
    }
    let mut i: usize = 0;
    while i < pieces.len()
        invariant
            i <= pieces@.len(),
            !absolute,
            forall|j: int|
                0 <= j < i ==> !(#[trigger] pieces@[j] == PathPiece::ParentDir || pieces@[j]
                    == PathPiece::RootDir || pieces@[j] == PathPiece::Prefix),
        decreases pieces.len() - i,
    {
        let p = pieces[i];
        if p == PathPiece::ParentDir || p == PathPiece::RootDir || p == PathPiece::Prefix {
            return true;
        }
        i = i + 1;
    }
    false
}

/// Whether the platform takes `value` as a path that leaves the working
/// area: it always does for a text starting with `/` or with a `..`
/// segment, and never for a plain relative text. Between the two (a `\` or
/// a `:` in the text) the answer is the platform's.
pub fn unsafe_path(value: &str) -> (r: bool)
    ensures
        leaves_working_area(value@) ==> r,
        plain_relative(value@) ==> !r,
{
    let absolute = path_is_absolute(value);
    let pieces = path_pieces(value);
    let r = path_escapes_host(absolute, &pieces);
    proof {
        if leaves_working_area(value@) {
            if has_piece(pieces@, PathPiece::RootDir) {
                let i = choose|i: int| 0 <= i < pieces@.len() && #[trigger] pieces@[i] == PathPiece::RootDir;
                assert(pieces@[i] == PathPiece::RootDir);
            } else if has_piece(pieces@, PathPiece::ParentDir) {
                let i = choose|i: int| 0 <= i < pieces@.len() && #[trigger] pieces@[i] == PathPiece::ParentDir;
                assert(pieces@[i] == PathPiece::ParentDir);
            } else {
                let i = choose|i: int| 0 <= i < pieces@.len() && #[trigger] pieces@[i] == PathPiece::Prefix;
                assert(pieces@[i] == PathPiece::Prefix);
            }
        }
    }
    r
}

/// Every host path the parameters name is plain relative.
pub open spec fn names_plain_paths(parameters: ActionParameters) -> bool {
    forall|i: int|
        0 <= i < host_paths(parameters).len() ==> plain_relative(#[trigger] host_paths(parameters)[i])
}

/// Some host path the parameters name leaves the working area on every platform.
pub open spec fn names_leaving_path(parameters: ActionParameters) -> bool {
    exists|i: int|
        0 <= i < host_paths(parameters).len() && leaves_working_area(#[trigger] host_paths(parameters)[i])
}

/// Whether any host path the parameters name leaves the working area: never
/// when they name none, always when one starts with `/` or has a `..`
/// segment.
pub fn contains_host_path(parameters: &ActionParameters) -> (r: bool)
    ensures
        host_paths(*parameters).len() == 0 ==> !r,
        names_leaving_path(*parameters) ==> r,
        names_plain_paths(*parameters) ==> !r,
    decreases parameters,
{
    match parameters {
        ActionParameters::Shell { cwd, .. } => match cwd {
            Some(c) => {
                proof {
                    if names_leaving_path(*parameters) {
                        let i = choose|i: int|
                            0 <= i < host_paths(*parameters).len() && leaves_working_area(
                                #[trigger] host_paths(*parameters)[i],
                            );
                        assert(host_paths(*parameters)[i] == c@);
                    }
                    if names_plain_paths(*parameters) {
                        assert(host_paths(*parameters)[0] == c@);
                        assert(plain_relative(c@));
                    }
                }
                unsafe_path(c.as_str())
            },
            None => false,
        },
        ActionParameters::File { path, .. } => {
            proof {
                assert(host_paths(*parameters) == seq![path@]);
                if names_leaving_path(*parameters) {
                    let i = choose|i: int|
                        0 <= i < host_paths(*parameters).len() && leaves_working_area(
                            #[trigger] host_paths(*parameters)[i],
                        );
                    assert(host_paths(*parameters)[i] == path@);
                }
                if names_plain_paths(*parameters) {
                    assert(plain_relative(host_paths(*parameters)[0]));
                }
            }
            unsafe_path(path.as_str())
        },
        ActionParameters::Pty(spec) => {
            proof {
                assert(host_paths(*parameters) == seq![spec.cwd@]);
                if names_leaving_path(*parameters) {
                    let i = choose|i: int|
                        0 <= i < host_paths(*parameters).len() && leaves_working_area(
                            #[trigger] host_paths(*parameters)[i],
                        );
                    assert(host_paths(*parameters)[i] == spec.cwd@);
                }
                if names_plain_paths(*parameters) {
                    assert(plain_relative(host_paths(*parameters)[0]));
                }
            }
            unsafe_path(spec.cwd.as_str())
        },
        ActionParameters::Remote(spec) => {
            proof {
                assert(host_paths(*parameters) == host_paths(spec.placement.operation.parameters));
            }
            contains_host_path(&spec.placement.operation.parameters)
        },
        _ => false,
    }
}

impl RemoteOperation {
    /// Everything a valid operation needs but its host-path check and digest.
    pub open spec fn fields_valid(&self) -> bool {
        &&& self.schema_version.0 != 0
        &&& self.backend != BackendKind::Remote
        &&& !is_blank(self.capability.0@)
        &&& !is_blank(self.scope.0@)
        &&& !is_blank(self.rollback_boundary.0@)
        &&& !is_blank(self.digest.0@)
        &&& backend_matches(self.backend, self.parameters)
        &&& !has_secret(self.parameters)
        &&& !(self.expected_effect == ExpectedEffect::Outward && (self.action_type
            == ActionType::Observe || self.action_type == ActionType::Analyze))
    }

    /// Valid when none of its host paths leaves the working area
    /// (`host_path` says whether one does).
    pub open spec fn valid_given(&self, host_path: bool) -> bool {
        &&& self.fields_valid()
        &&& !host_path
        &&& self.digest.0@ == canonical_digest_text(self.material())
    }

    /// Checks the operation, given whether one of its host paths leaves the working area.
    pub fn check(&self, host_path: bool) -> (r: Result<(), Error>)
        ensures
            r is Ok <==> self.valid_given(host_path),
    {
        if self.schema_version.0 == 0 || self.backend == BackendKind::Remote {
            return Err(Error("remote operation backend is invalid".to_string()));
        }
        if blank(self.capability.0.as_str()) || blank(self.scope.0.as_str()) || blank(
            self.rollback_boundary.0.as_str(),
        ) || blank(self.digest.0.as_str()) {
            return Err(Error("remote operation is incomplete".to_string()));
        }
        if !parameters_match_backend(self.backend, &self.parameters) {
            return Err(Error("remote operation backend and parameters disagree".to_string()));
        }
        if contains_secret(&self.parameters) {
            return Err(Error("remote operation contains a central secret reference".to_string()));
        }
        if host_path {
            return Err(Error("remote operation contains a host path".to_string()));
        }
        if self.expected_effect == ExpectedEffect::Outward && (self.action_type == ActionType::Observe
            || self.action_type == ActionType::Analyze) {
            return Err(Error("remote observation cannot declare an outward effect".to_string()));
        }
        let material = self.encode_material();
        if !same_text(&self.digest.0, &canonical_digest(&material).0) {
            return Err(Error("remote operation digest does not match its contents".to_string()));
        }
        Ok(())
    }

    /// Checks the operation, asking the platform whether its host paths
    /// leave the working area; exact when it names no host path.
    pub fn validate(&self) -> (r: Result<(), Error>)
        ensures
            r is Ok ==> self.valid_given(false),
            host_paths(self.parameters).len() == 0 ==> (r is Ok <==> self.valid_given(false)),
            names_leaving_path(self.parameters) ==> r is Err,
            names_plain_paths(self.parameters) ==> (r is Ok <==> self.valid_given(false)),
    {
        let host_path = contains_host_path(&self.parameters);
        self.check(host_path)
    }

    /// Sets the digest to that of the operation's contents, which are unchanged.
    pub fn refresh_digest(&mut self) -> (r: Result<(), Error>)
        ensures
            r is Ok,
            final(self).material() == old(self).material(),
            final(self).digest.0@ == canonical_digest_text(old(self).material()),
    {
        let material = self.encode_material();
        let ghost before = *self;
        self.digest = canonical_digest(&material);
        proof {
            lemma_operation_digest_free(before, *self);
        }
        Ok(())
    }
}

proof fn lemma_operation_digest_free(a: RemoteOperation, b: RemoteOperation)
    requires
        b == (RemoteOperation { digest: b.digest, ..a }),
    ensures
        a.material() == b.material(),
{
}

impl RemotePlacementPlan {
    pub open spec fn fields_valid_given(&self, host_path: bool) -> bool {
        &&& self.schema_version.0 != 0
        &&& self.authority_epoch.0 != 0
        &&& !is_blank(self.executor.0@)
        &&& !is_blank(self.peer_grant.0@)
        &&& !is_blank(self.executor_profile.0@)
        &&& self.grant_version.0 != 0
        &&& self.operation.valid_given(host_path)
        &&& !is_blank(self.digest.0@)
    }

    pub open spec fn valid_given(&self, host_path: bool) -> bool {
        &&& self.fields_valid_given(host_path)
        &&& self.digest.0@ == canonical_digest_text(self.material())
    }

    pub fn check(&self, host_path: bool) -> (r: Result<(), Error>)
        ensures
            r is Ok <==> self.valid_given(host_path),
    {
        if self.schema_version.0 == 0 || self.authority_epoch.0 == 0 {
            return Err(Error("remote placement plan is incomplete".to_string()));
        }
        if blank(self.executor.0.as_str()) || blank(self.peer_grant.0.as_str()) || blank(
            self.executor_profile.0.as_str(),
        ) {
            return Err(Error("remote placement plan is incomplete".to_string()));
        }
        self.grant_version.validate()?;
        self.operation.check(host_path)?;
        if blank(self.digest.0.as_str()) {
            return Err(Error("remote placement digest is incomplete".to_string()));
        }
        let material = self.encode_material();
        if !same_text(&self.digest.0, &canonical_digest(&material).0) {
            return Err(Error("remote placement digest does not match its contents".to_string()));
        }
        Ok(())
    }

    pub fn validate(&self) -> (r: Result<(), Error>)
        ensures
            r is Ok ==> self.valid_given(false),
            host_paths(self.operation.parameters).len() == 0 ==> (r is Ok <==> self.valid_given(false)),
            names_leaving_path(self.operation.parameters) ==> r is Err,
            names_plain_paths(self.operation.parameters) ==> (r is Ok <==> self.valid_given(false)),
    {
        let host_path = contains_host_path(&self.operation.parameters);
        self.check(host_path)
    }

    /// Sets the digest to that of the plan's contents, which are unchanged.
    pub fn refresh_digest(&mut self) -> (r: Result<(), Error>)
        ensures
            r is Ok,
            final(self).material() == old(self).material(),
            final(self).operation == old(self).operation,
            final(self).digest.0@ == canonical_digest_text(old(self).material()),
    {
        let material = self.encode_material();
        let ghost before = *self;
        self.digest = canonical_digest(&material);
        proof {
            lemma_plan_digest_free(before, *self);
        }
        Ok(())
    }

    /// A valid plan is referred to by its digest.
    pub fn reference(&self) -> (r: Result<RemotePlacementPlanRef, Error>)
        ensures
            r is Ok ==> self.valid_given(false),
            host_paths(self.operation.parameters).len() == 0 ==> (r is Ok <==> self.valid_given(false)),
            names_leaving_path(self.operation.parameters) ==> r is Err,
            names_plain_paths(self.operation.parameters) ==> (r is Ok <==> self.valid_given(false)),
            r matches Ok(p) ==> p.0@ == self.digest.0@,
    {
        self.validate()?;
        Ok(RemotePlacementPlanRef(self.digest.0.clone()))
    }
}

proof fn lemma_plan_digest_free(a: RemotePlacementPlan, b: RemotePlacementPlan)
    requires
        b == (RemotePlacementPlan { digest: b.digest, ..a }),
    ensures
        a.material() == b.material(),
{
}

impl RemoteActionSpec {
    pub open spec fn valid_given(&self, host_path: bool) -> bool {
        self.schema_version.0 != 0 && self.placement.valid_given(host_path)
    }

    /// Checks the spec, with `host_path` saying whether its parameters name
    /// a host path.
    pub fn check(&self, host_path: bool) -> (r: Result<(), Error>)
        ensures
            r is Ok <==> self.valid_given(host_path),
    {
        if self.schema_version.0 == 0 {
            return Err(Error("remote action schema is invalid".to_string()));
        }
        self.placement.check(host_path)
    }

    pub fn validate(&self) -> (r: Result<(), Error>)
        ensures
            r is Ok ==> self.valid_given(false),
            host_paths(self.placement.operation.parameters).len() == 0 ==> (r is Ok
                <==> self.valid_given(false)),
    {
        if self.schema_version.0 == 0 {
            return Err(Error("remote action schema is invalid".to_string()));
        }
        self.placement.validate()
    }
}

#[derive(Debug, PartialEq, Eq)]
pub struct ActionIntent {
    pub schema_version: SchemaVersion,
    pub intent_id: ActionId,
    pub source: Source,
    pub goal: GoalRef,
    pub backend_hint: BackendKind,
    pub capability_ref: CapabilityRef,
    pub action_type: ActionType,
    pub scope: Scope,
    pub risk_hint: Risk,
    pub expected_effect: ExpectedEffect,
    pub rollback_expectation: RollbackBoundary,
    pub parameters: ActionParameters,
    pub requested_permissions: Vec<PermissionRef>,
    pub requested_at: Timestamp,
    pub estimated_output_bytes: u64,
    pub estimated_duration: DurationMs,
}

impl ActionIntent {
    #[verifier::opaque]
    pub open spec fn put_canonical(&self, acc: Seq<u8>) -> Seq<u8> {
        let a = with_key(acc + seq![0x7bu8], "schema_version"@) + json_int(self.schema_version.0 as int);
        let a = with_key(a + seq![0x2cu8], "intent_id"@) + json_string(self.intent_id.0@);
        let a = with_key(a + seq![0x2cu8], "source"@) + json_string(self.source.wire_name());
        let a = with_key(a + seq![0x2cu8], "goal"@) + json_string(self.goal.0@);
        let a = with_key(a + seq![0x2cu8], "backend_hint"@) + json_string(self.backend_hint.wire_name());
        let a = with_key(a + seq![0x2cu8], "capability_ref"@) + json_string(self.capability_ref.0@);
        let a = with_key(a + seq![0x2cu8], "action_type"@) + json_string(self.action_type.wire_name());
        let a = with_key(a + seq![0x2cu8], "scope"@) + json_string(self.scope.0@);
        let a = with_key(a + seq![0x2cu8], "risk_hint"@) + json_string(self.risk_hint.wire_name());
        let a = with_key(a + seq![0x2cu8], "expected_effect"@) + json_string(self.expected_effect.wire_name());
        let a = with_key(a + seq![0x2cu8], "rollback_expectation"@) + json_string(self.rollback_expectation.0@);
        let a = self.parameters.put_canonical(with_key(a + seq![0x2cu8], "parameters"@));
        let a = with_texts(with_key(a + seq![0x2cu8], "requested_permissions"@), self.requested_permissions@);
        let a = with_key(a + seq![0x2cu8], "requested_at"@) + json_int(self.requested_at as int);
        let a = with_key(a + seq![0x2cu8], "estimated_output_bytes"@) + json_int(self.estimated_output_bytes as int);
        let a = with_key(a + seq![0x2cu8], "estimated_duration"@) + json_int(self.estimated_duration.0 as int);
        a + seq![0x7du8]
    }

    pub fn write_canonical(&self, buf: &mut Vec<u8>)
        ensures
            final(buf)@ == self.put_canonical(old(buf)@),
    {
        put_mark(buf, 0x7b);
        put_key(buf, "schema_version");
        put_u64(buf, self.schema_version.0 as u64);
        put_mark(buf, 0x2c);
        put_key(buf, "intent_id");
        put_str(buf, self.intent_id.0.as_str());
        put_mark(buf, 0x2c);
        put_key(buf, "source");
        put_str(buf, self.source.wire_str());
        put_mark(buf, 0x2c);
        put_key(buf, "goal");
        put_str(buf, self.goal.0.as_str());
        put_mark(buf, 0x2c);
        put_key(buf, "backend_hint");
        put_str(buf, self.backend_hint.wire_str());
        put_mark(buf, 0x2c);
        put_key(buf, "capability_ref");
        put_str(buf, self.capability_ref.0.as_str());
        put_mark(buf, 0x2c);
        put_key(buf, "action_type");
        put_str(buf, self.action_type.wire_str());
        put_mark(buf, 0x2c);
        put_key(buf, "scope");
        put_str(buf, self.scope.0.as_str());
        put_mark(buf, 0x2c);
        put_key(buf, "risk_hint");
        put_str(buf, self.risk_hint.wire_str());
        put_mark(buf, 0x2c);
        put_key(buf, "expected_effect");
        put_str(buf, self.expected_effect.wire_str());
        put_mark(buf, 0x2c);
        put_key(buf, "rollback_expectation");
        put_str(buf, self.rollback_expectation.0.as_str());
        put_mark(buf, 0x2c);
        put_key(buf, "parameters");
        self.parameters.write_canonical(buf);
        put_mark(buf, 0x2c);
        put_key(buf, "requested_permissions");
        put_texts(buf, &self.requested_permissions);
        put_mark(buf, 0x2c);
        put_key(buf, "requested_at");
        put_i64(buf, self.requested_at);
        put_mark(buf, 0x2c);
        put_key(buf, "estimated_output_bytes");
        put_u64(buf, self.estimated_output_bytes as u64);
        put_mark(buf, 0x2c);
        put_key(buf, "estimated_duration");
        put_u64(buf, self.estimated_duration.0 as u64);
        put_mark(buf, 0x7d);
        proof {
            reveal(ActionIntent::put_canonical);
        }
    }
}
} // verus!
