//! Runtime policy: ordered policy layers, the execution-time recheck of an
//! action against the resolved toolset and its external limits, and the
//! enforcement of delegated autonomy envelopes.
use vstd::prelude::*;

use crate::action::{
    ActionIntent, ActionParameters, AppApiActionSpec, AppApiOperation, BrowserActionSpec,
    BrowserOperation, ComputerActionSpec, ComputerOperation, ExternalInput, PtyActionSpec,
    RemoteActionSpec, contains_host_path, host_paths, names_leaving_path, names_plain_paths,
};
use crate::digest::string_of_chars;
use crate::event::{EventKind, EventPayload, ToolPolicyEvaluatedPayload};
use crate::m5::{scope_contains, scope_covers};
use crate::primitives::{
    ActionType, Actor, AppApiMutationMethod, ApprovalRule, AutonomyEnvelope, BackendKind,
    CapabilityRef, CoordinateBounds, DurationMs, Error, EventId, ExpectedEffect, McpServerRef,
    ParticipantId, PermissionRef, PolicyDecision, ProviderId, ReasonRef, Risk, RollbackReq,
    RuleSourceRef, RunId, SchemaDigest, SchemaVersion, Scope, SecretRef, SessionId, SurfaceRef,
    Timebox, Timestamp, ToolRef, ToolsetRef,
};
use crate::text::{
    ascii_lower_char, blank, covers, check_covers, check_has_text, has_text, is_blank, same_text,
    utf8_of, Duplicate,
};

verus! {

/// A path character as paths are compared: `\` read as `/`, ASCII letters
/// folded to lower case.
pub open spec fn path_char(c: char) -> char {
    if c == '\\' {
        '/'
    } else {
        ascii_lower_char(c)
    }
}

/// The pieces of `s` between `/` separators; a text without separator is one piece.
pub open spec fn slash_pieces(s: Seq<char>) -> Seq<Seq<char>>
    decreases s.len(),
{
    if s.len() == 0 {
        seq![Seq::empty()]
    } else {
        let p = slash_pieces(s.drop_last());
        if s.last() == '/' {
            p.push(Seq::empty())
        } else {
            p.update(p.len() - 1, p.last().push(s.last()))
        }
    }
}

proof fn lemma_slash_pieces_nonempty(s: Seq<char>)
    ensures
        slash_pieces(s).len() >= 1,
    decreases s.len(),
{
    if s.len() > 0 {
        lemma_slash_pieces_nonempty(s.drop_last());
    }
}

/// One piece of a path taken into the components gathered so far: a leading
/// empty piece marks an absolute path, `.` and inner empty pieces are
/// skipped, `..` removes the last component unless that is the root or a
/// drive (`c:`), which makes the path invalid.
pub open spec fn path_step(comps: Seq<Seq<char>>, piece: Seq<char>) -> Option<Seq<Seq<char>>> {
    if piece.len() == 0 && comps.len() == 0 {
        Some(seq![Seq::empty()])
    } else if piece.len() == 0 || piece == seq!['.'] {
        Some(comps)
    } else if piece == seq!['.', '.'] {
        if comps.len() == 0 || comps.last().len() == 0 || comps.last().last() == ':' {
            None
        } else {
            Some(comps.drop_last())
        }
    } else {
        Some(comps.push(piece))
    }
}

/// The components of a path, its pieces taken in order.
pub open spec fn path_walk(pieces: Seq<Seq<char>>) -> Option<Seq<Seq<char>>>
    decreases pieces.len(),
{
    if pieces.len() == 0 {
        Some(Seq::empty())
    } else {
        match path_walk(pieces.drop_last()) {
            None => None,
            Some(c) => path_step(c, pieces.last()),
        }
    }
}

/// Components joined with `/`.
pub open spec fn slash_joined(c: Seq<Seq<char>>) -> Seq<char>
    decreases c.len(),
{
    if c.len() == 0 {
        Seq::empty()
    } else if c.len() == 1 {
        c[0]
    } else {
        slash_joined(c.drop_last()) + seq!['/'] + c.last()
    }
}

/// The normal form of a path: separators unified, ASCII case folded, `.`
/// and `..` resolved; none when `..` climbs above a root or drive, or when
/// nothing is left.
pub open spec fn normalized(path: Seq<char>) -> Option<Seq<char>> {
    match path_walk(slash_pieces(path.map_values(|c: char| path_char(c)))) {
        None => None,
        Some(c) => if c.len() == 0 {
            None
        } else {
            Some(slash_joined(c))
        },
    }
}

/// `path` lies at or below `root` once both are normalized.
pub open spec fn within_path(root: Seq<char>, path: Seq<char>) -> bool {
    match (normalized(root), normalized(path)) {
        (Some(r), Some(p)) => p == r || (p.len() > r.len() && p.subrange(0, r.len() as int) == r
            && p[r.len() as int] == '/'),
        _ => false,
    }
}

/// The characters of each component.
pub open spec fn comp_view(v: Seq<Vec<char>>) -> Seq<Seq<char>> {
    v.map_values(|x: Vec<char>| x@)
}

fn fold_path_char(c: char) -> (r: char)
    ensures
        r == path_char(c),
{
    if c == '\\' {
        '/'
    } else if 'A' <= c && c <= 'Z' {
        ((c as u8) + 32) as char
    } else {
        c
    }
}

/// Takes one piece into the components, as `path_step` says; false when the
/// piece makes the path invalid.
fn take_piece(comps: &mut Vec<Vec<char>>, piece: Vec<char>) -> (ok: bool)
    ensures
        ok ==> path_step(comp_view(old(comps)@), piece@) == Some(comp_view(final(comps)@)),
        !ok ==> path_step(comp_view(old(comps)@), piece@) is None,
{
    let ghost before = comp_view(comps@);
    if piece.len() == 0 && comps.len() == 0 {
        comps.push(Vec::new());
        assert(comp_view(comps@) =~= seq![Seq::<char>::empty()]);
        return true;
    }
    let dot = piece.len() == 1 && piece[0] == '.';
    let dots = piece.len() == 2 && piece[0] == '.' && piece[1] == '.';
    proof {
        assert(dot == (piece@ == seq!['.'])) by {
            if piece@ == seq!['.'] {
                assert(piece@[0] == '.');
            }
            if dot {
                assert(piece@ =~= seq!['.']);
            }
        }
        assert(dots == (piece@ == seq!['.', '.'])) by {
            if piece@ == seq!['.', '.'] {
                assert(piece@[0] == '.' && piece@[1] == '.');
            }
            if dots {
                assert(piece@ =~= seq!['.', '.']);
            }
        }
    }
    if piece.len() == 0 || dot {
        return true;
    }
    if dots {
        if comps.len() == 0 {
            return false;
        }
        let k = comps.len() - 1;
        let last_len = comps[k].len();
        if last_len == 0 || comps[k][last_len - 1] == ':' {
            return false;
        }
        comps.pop();
        assert(comp_view(comps@) =~= before.drop_last());
        return true;
    }
    comps.push(piece);
    assert(comp_view(comps@) =~= before.push(piece@));
    true
}

fn joined_components(comps: &Vec<Vec<char>>) -> (r: Vec<char>)
    ensures
        r@ == slash_joined(comp_view(comps@)),
{
    let ghost c = comp_view(comps@);
    let mut out: Vec<char> = Vec::new();
    let mut k: usize = 0;
    while k < comps.len()
        invariant
            k <= comps.len(),
            c == comp_view(comps@),
            out@ == slash_joined(c.subrange(0, k as int)),
        decreases comps.len() - k,
    {
        let ghost prev = out@;
        if k > 0 {
            out.push('/');
        }
        let piece = &comps[k];
        let mut j: usize = 0;
        let ghost mid = out@;
        while j < piece.len()
            invariant
                j <= piece.len(),
                out@ == mid + piece@.subrange(0, j as int),
            decreases piece.len() - j,
        {
            out.push(piece[j]);
            j = j + 1;
            assert(out@ =~= mid + piece@.subrange(0, j as int));
        }
        proof {
            assert(piece@ =~= piece@.subrange(0, j as int));
            assert(c[k as int] == piece@);
            let s = c.subrange(0, k as int + 1);
            assert(s.drop_last() =~= c.subrange(0, k as int));
            if k == 0 {
                assert(mid =~= Seq::<char>::empty());
                assert(s.len() == 1);
                assert(out@ =~= s[0]);
            } else {
                assert(out@ =~= prev + seq!['/'] + s.last());
            }
        }
        k = k + 1;
    }
    assert(c.subrange(0, k as int) =~= c);
    out
}

/// The normal form of a path, as `normalized` says.
pub fn normalized_path(path: &str) -> (r: Option<String>)
    ensures
        match r {
            Some(t) => normalized(path@) == Some(t@),
            None => normalized(path@) is None,
        },
{
    let ghost mapped = path@.map_values(|c: char| path_char(c));
    let n = path.unicode_len();
    let mut comps: Vec<Vec<char>> = Vec::new();
    let mut cur: Vec<char> = Vec::new();
    let ghost mut done: Seq<Seq<char>> = Seq::empty();
    let mut ok = true;
    let mut i: usize = 0;
    while i < n
        invariant
            n == path@.len(),
            mapped == path@.map_values(|c: char| path_char(c)),
            i <= n,
            slash_pieces(mapped.subrange(0, i as int)) == done.push(cur@),
            ok ==> path_walk(done) == Some(comp_view(comps@)),
            !ok ==> path_walk(done) is None,
        decreases n - i,
    {
        let c = fold_path_char(path.get_char(i));
        let ghost s = mapped.subrange(0, i as int + 1);
        proof {
            assert(s.drop_last() =~= mapped.subrange(0, i as int));
            assert(s.last() == c);
        }
        if c == '/' {
            let piece = cur;
            cur = Vec::new();
            if ok {
                ok = take_piece(&mut comps, piece);
            }
            proof {
                let d2 = done.push(piece@);
                assert(d2.drop_last() =~= done);
                assert(slash_pieces(s) =~= d2.push(cur@));
                done = d2;
            }
        } else {
            let ghost prev = cur@;
            cur.push(c);
            proof {
                let old_cur = prev;
                let p = done.push(old_cur);
                assert(slash_pieces(s.drop_last()) == p);
                assert(s.last() != '/');
                assert(slash_pieces(s) == p.update(p.len() - 1, p.last().push(s.last())));
                assert(old_cur.push(c) =~= cur@);
                assert(p.update(p.len() - 1, p.last().push(c)) =~= done.push(cur@));
            }
        }
        i = i + 1;
    }
    let ghost pieces = done.push(cur@);
    proof {
        assert(mapped.subrange(0, n as int) =~= mapped);
        assert(pieces.drop_last() =~= done);
    }
    if ok {
        ok = take_piece(&mut comps, cur);
    }
    if !ok || comps.len() == 0 {
        return None;
    }
    let chars = joined_components(&comps);
    Some(string_of_chars(&chars))
}

/// Whether `path` lies at or below `root`, as `within_path` says.
pub fn path_within(root: &str, path: &str) -> (r: bool)
    ensures
        r == within_path(root@, path@),
{
    let nr = match normalized_path(root) {
        Some(t) => t,
        None => return false,
    };
    let np = match normalized_path(path) {
        Some(t) => t,
        None => return false,
    };
    let rs = nr.as_str();
    let ps = np.as_str();
    let m = rs.unicode_len();
    let n = ps.unicode_len();
    if n == m {
        return same_text(&nr, &np);
    }
    if n < m {
        proof {
            assert(ps@ != rs@);
        }
        return false;
    }
    let mut i: usize = 0;
    while i < m
        invariant
            m == rs@.len(),
            n == ps@.len(),
            m < n,
            i <= m,
            normalized(root@) == Some(rs@),
            normalized(path@) == Some(ps@),
            forall|j: int| 0 <= j < i ==> ps@[j] == rs@[j],
        decreases m - i,
    {
        if ps.get_char(i) != rs.get_char(i) {
            proof {
                assert(ps@.subrange(0, m as int)[i as int] != rs@[i as int]);
            }
            return false;
        }
        i = i + 1;
    }
    proof {
        assert(ps@.subrange(0, m as int) =~= rs@);
    }
    ps.get_char(m) == '/'
}

/// A byte a header component may hold: ASCII letters and digits, `-`, `_`,
/// `.`, `:` and `/`.
pub open spec fn header_byte(b: u8) -> bool {
    (0x30 <= b <= 0x39) || (0x41 <= b <= 0x5a) || (0x61 <= b <= 0x7a) || b == 0x2d || b == 0x5f
        || b == 0x2e || b == 0x3a || b == 0x2f
}

/// A value that can travel in a header: 1 to 256 bytes, each a header byte.
pub open spec fn header_safe(v: Seq<char>) -> bool {
    let b = utf8_of(v);
    0 < b.len() <= 256 && forall|i: int| 0 <= i < b.len() ==> header_byte(#[trigger] b[i])
}

pub fn safe_header_component(value: &str) -> (r: bool)
    ensures
        r == header_safe(value@),
{
    let b = value.as_bytes();
    if b.len() == 0 || b.len() > 256 {
        return false;
    }
    let mut i: usize = 0;
    while i < b.len()
        invariant
            b@ == utf8_of(value@),
            i <= b.len(),
            forall|j: int| 0 <= j < i ==> header_byte(#[trigger] b@[j]),
        decreases b.len() - i,
    {
        let c = b[i];
        if !((0x30 <= c && c <= 0x39) || (0x41 <= c && c <= 0x5a) || (0x61 <= c && c <= 0x7a) || c
            == 0x2d || c == 0x5f || c == 0x2e || c == 0x3a || c == 0x2f) {
            return false;
        }
        i = i + 1;
    }
    true
}

pub open spec fn ascii_letter(c: char) -> bool {
    ('a' <= c <= 'z') || ('A' <= c <= 'Z')
}

pub open spec fn ascii_digit(c: char) -> bool {
    '0' <= c <= '9'
}

/// An environment variable name: a letter or `_`, then letters, digits or
/// `_`, at most 128 bytes.
pub open spec fn environment_name(n: Seq<char>) -> bool {
    &&& n.len() > 0
    &&& (n[0] == '_' || ascii_letter(n[0]))
    &&& forall|i: int| 1 <= i < n.len() ==> #[trigger] n[i] == '_' || ascii_letter(n[i])
        || ascii_digit(n[i])
    &&& utf8_of(n).len() <= 128
}

pub fn valid_environment_name(name: &str) -> (r: bool)
    ensures
        r == environment_name(name@),
{
    let n = name.unicode_len();
    if n == 0 {
        return false;
    }
    let first = name.get_char(0);
    if !(first == '_' || ('a' <= first && first <= 'z') || ('A' <= first && first <= 'Z')) {
        return false;
    }
    let mut i: usize = 1;
    while i < n
        invariant
            n == name@.len(),
            1 <= i <= n,
            forall|j: int| 1 <= j < i ==> #[trigger] name@[j] == '_' || ascii_letter(name@[j])
                || ascii_digit(name@[j]),
        decreases n - i,
    {
        let c = name.get_char(i);
        if !(c == '_' || ('a' <= c && c <= 'z') || ('A' <= c && c <= 'Z') || ('0' <= c && c
            <= '9')) {
            return false;
        }
        i = i + 1;
    }
    name.as_bytes().len() <= 128
}

/// A control character (general category Cc).
pub open spec fn control_char(c: char) -> bool {
    (c as u32) <= 0x1f || (0x7f <= (c as u32) <= 0x9f)
}

pub open spec fn has_control(s: Seq<char>) -> bool {
    exists|i: int| 0 <= i < s.len() && control_char(#[trigger] s[i])
}

pub open spec fn has_nul(s: Seq<char>) -> bool {
    exists|i: int| 0 <= i < s.len() && #[trigger] s[i] == '\0'
}

fn find_control(s: &str) -> (r: bool)
    ensures
        r == has_control(s@),
{
    let n = s.unicode_len();
    let mut i: usize = 0;
    while i < n
        invariant
            n == s@.len(),
            i <= n,
            forall|j: int| 0 <= j < i ==> !control_char(#[trigger] s@[j]),
        decreases n - i,
    {
        let v = s.get_char(i) as u32;
        if v <= 0x1f || (0x7f <= v && v <= 0x9f) {
            assert(control_char(s@[i as int]));
            return true;
        }
        i = i + 1;
    }
    false
}

fn find_nul(s: &str) -> (r: bool)
    ensures
        r == has_nul(s@),
{
    let n = s.unicode_len();
    let mut i: usize = 0;
    while i < n
        invariant
            n == s@.len(),
            i <= n,
            forall|j: int| 0 <= j < i ==> #[trigger] s@[j] != '\0',
        decreases n - i,
    {
        if s.get_char(i) == '\0' {
            return true;
        }
        i = i + 1;
    }
    false
}

/// A selector within its bounded grammar: not blank, at most 512 bytes,
/// no control character.
pub open spec fn selector_ok(s: Seq<char>) -> bool {
    !is_blank(s) && utf8_of(s).len() <= 512 && !has_control(s)
}

pub fn validate_selector(selector: &str) -> (r: Result<(), Error>)
    ensures
        r is Ok <==> selector_ok(selector@),
{
    if blank(selector) || selector.as_bytes().len() > 512 || find_control(selector) {
        return Err(Error("browser selector is outside the bounded grammar".to_string()));
    }
    Ok(())
}

/// An input an action may carry: a literal of 1 to 16384 bytes without NUL,
/// or a content or secret reference that is not blank.
pub open spec fn external_input_ok(input: ExternalInput) -> bool {
    match input {
        ExternalInput::Literal(v) => v@.len() > 0 && utf8_of(v@).len() <= 16384 && !has_nul(v@),
        ExternalInput::Content(r) => !is_blank(r.0@),
        ExternalInput::Secret(r) => !is_blank(r.0@),
    }
}

pub fn validate_external_input(input: &ExternalInput) -> (r: Result<(), Error>)
    ensures
        r is Ok <==> external_input_ok(*input),
{
    let valid = match input {
        ExternalInput::Literal(value) => {
            let v = value.as_str();
            !v.is_empty() && v.as_bytes().len() <= 16384 && !find_nul(v)
        },
        ExternalInput::Content(reference) => !blank(reference.0.as_str()),
        ExternalInput::Secret(reference) => !blank(reference.0.as_str()),
    };
    if !valid {
        return Err(Error("external input is empty or exceeds its boundary".to_string()));
    }
    Ok(())
}

/// An input a mutation body may not carry: a literal over 64 KiB, or a
/// blank reference.
pub open spec fn external_input_invalid(input: ExternalInput) -> bool {
    match input {
        ExternalInput::Literal(v) => utf8_of(v@).len() > 65536,
        ExternalInput::Content(r) => is_blank(r.0@),
        ExternalInput::Secret(r) => is_blank(r.0@),
    }
}

pub fn invalid_external_input(input: &ExternalInput) -> (r: bool)
    ensures
        r == external_input_invalid(*input),
{
    match input {
        ExternalInput::Literal(value) => value.as_str().as_bytes().len() > 65536,
        ExternalInput::Content(reference) => blank(reference.0.as_str()),
        ExternalInput::Secret(reference) => blank(reference.0.as_str()),
    }
}

/// What a browser operation must satisfy: selectors in their grammar and a
/// typed input within its boundary.
pub open spec fn browser_operation_ok(op: BrowserOperation) -> bool {
    match op {
        BrowserOperation::Navigate => true,
        BrowserOperation::Screenshot { .. } => true,
        BrowserOperation::ReadText { selector: None } => true,
        BrowserOperation::ReadText { selector: Some(s) } => selector_ok(s@),
        BrowserOperation::Click { selector } => selector_ok(selector@),
        BrowserOperation::Type { selector, input } => selector_ok(selector@) && external_input_ok(
            input,
        ),
    }
}

pub fn validate_browser_operation(operation: &BrowserOperation) -> (r: Result<(), Error>)
    ensures
        r is Ok <==> browser_operation_ok(*operation),
{
    match operation {
        BrowserOperation::Navigate | BrowserOperation::Screenshot { .. } => Ok(()),
        BrowserOperation::ReadText { selector: None } => Ok(()),
        BrowserOperation::ReadText { selector: Some(selector) } => validate_selector(
            selector.as_str(),
        ),
        BrowserOperation::Click { selector } => validate_selector(selector.as_str()),
        BrowserOperation::Type { selector, input } => {
            validate_selector(selector.as_str())?;
            validate_external_input(input)
        },
    }
}

/// How strict a decision is: allow, then ask, then deny.
pub open spec fn decision_level(d: PolicyDecision) -> nat {
    match d {
        PolicyDecision::Allow => 0,
        PolicyDecision::Ask => 1,
        PolicyDecision::Deny => 2,
    }
}

pub fn decision_rank(decision: PolicyDecision) -> (r: u8)
    ensures
        r == decision_level(decision),
{
    match decision {
        PolicyDecision::Allow => 0,
        PolicyDecision::Ask => 1,
        PolicyDecision::Deny => 2,
    }
}

/// Every requested permission is granted.
pub fn permissions_contain(granted: &Vec<PermissionRef>, requested: &Vec<PermissionRef>) -> (r:
    bool)
    ensures
        r == covers(requested@, granted@),
{
    check_covers(requested, granted)
}

/// A timebox admits the instant `at`: it allows at least one turn and `at`
/// lies between its start and its expiry, both included.
pub open spec fn timebox_admits(t: Timebox, at: Timestamp) -> bool {
    t.max_turns > 0 && t.starts_at <= at <= t.expires_at
}

pub fn timebox_contains(timebox: &Timebox, at: Timestamp) -> (r: bool)
    ensures
        r == timebox_admits(*timebox, at),
{
    timebox.max_turns > 0 && at >= timebox.starts_at && at <= timebox.expires_at
}

/// An intent meets a rollback requirement: none is required, or the intent
/// names a real rollback boundary (not empty, not `none`) that matches the
/// required one when there is one.
pub open spec fn rollback_met(req: RollbackReq, intent: ActionIntent) -> bool {
    let e = intent.rollback_expectation.0@;
    !req.required || (e.len() > 0 && e != "none"@ && match req.boundary {
        None => true,
        Some(b) => b.0@ == e,
    })
}

pub fn rollback_satisfies(requirement: &RollbackReq, intent: &ActionIntent) -> (r: bool)
    ensures
        r == rollback_met(*requirement, *intent),
{
    if !requirement.required {
        return true;
    }
    let e = intent.rollback_expectation.0.as_str();
    if e.is_empty() || crate::text::str_equal(e, "none") {
        return false;
    }
    match &requirement.boundary {
        None => true,
        Some(boundary) => same_text(&boundary.0, &intent.rollback_expectation.0),
    }
}

/// `inner` lies inside `outer`.
pub open spec fn bounds_within(outer: CoordinateBounds, inner: CoordinateBounds) -> bool {
    &&& inner.min_x >= outer.min_x
    &&& inner.min_y >= outer.min_y
    &&& inner.max_x_exclusive <= outer.max_x_exclusive
    &&& inner.max_y_exclusive <= outer.max_y_exclusive
}

pub fn bounds_contain(outer: CoordinateBounds, inner: CoordinateBounds) -> (r: bool)
    ensures
        r == bounds_within(outer, inner),
{
    inner.min_x >= outer.min_x && inner.min_y >= outer.min_y && inner.max_x_exclusive
        <= outer.max_x_exclusive && inner.max_y_exclusive <= outer.max_y_exclusive
}

/// The host of a parsed URL: a domain, or an IPv4 or IPv6 address given by
/// its octets or segments.
#[derive(Debug, Clone, PartialEq, Eq)]
pub enum UrlHost {
    Domain(String),
    Ipv4(Vec<u8>),
    Ipv6(Vec<u16>),
}

pub enum HostView {
    Domain(Seq<char>),
    Ipv4(Seq<u8>),
    Ipv6(Seq<u16>),
}

impl View for UrlHost {
    type V = HostView;

    open spec fn view(&self) -> HostView {
        match self {
            UrlHost::Domain(d) => HostView::Domain(d@),
            UrlHost::Ipv4(o) => HostView::Ipv4(o@),
            UrlHost::Ipv6(s) => HostView::Ipv6(s@),
        }
    }
}

/// What the policy reads of a parsed URL besides its host: the scheme, the
/// port or the scheme's known default, the user name and password, path,
/// query and fragment, and the ASCII serialization of the URL's origin.
#[derive(Debug, Clone, PartialEq, Eq)]
pub struct UrlParts {
    pub scheme: String,
    pub port: Option<u16>,
    pub username: String,
    pub password: Option<String>,
    pub path: String,
    pub query: Option<String>,
    pub fragment: Option<String>,
    pub origin: String,
}

pub struct UrlPartsView {
    pub scheme: Seq<char>,
    pub port: Option<u16>,
    pub username: Seq<char>,
    pub password: Option<Seq<char>>,
    pub path: Seq<char>,
    pub query: Option<Seq<char>>,
    pub fragment: Option<Seq<char>>,
    pub origin: Seq<char>,
}

pub open spec fn opt_text(o: Option<String>) -> Option<Seq<char>> {
    match o {
        Some(s) => Some(s@),
        None => None,
    }
}

impl View for UrlParts {
    type V = UrlPartsView;

    open spec fn view(&self) -> UrlPartsView {
        UrlPartsView {
            scheme: self.scheme@,
            port: self.port,
            username: self.username@,
            password: opt_text(self.password),
            path: self.path@,
            query: opt_text(self.query),
            fragment: opt_text(self.fragment),
            origin: self.origin@,
        }
    }
}

pub open spec fn parts_view(o: Option<UrlParts>) -> Option<UrlPartsView> {
    match o {
        Some(p) => Some(p@),
        None => None,
    }
}

pub open spec fn host_view(o: Option<UrlHost>) -> Option<HostView> {
    match o {
        Some(h) => Some(h@),
        None => None,
    }
}

/// The parts of the URL that `url::Url::parse` reads from `text`; none when
/// it cannot parse one.
pub uninterp spec fn parsed_url_parts(text: Seq<char>) -> Option<UrlPartsView>;

/// The host of the URL that `url::Url::parse` reads from `text`; none when
/// it cannot parse one or the URL has no host.
pub uninterp spec fn parsed_url_host(text: Seq<char>) -> Option<HostView>;

/// Calls `url::Url::parse` on `text` and, when a URL comes back, reads its
/// `scheme`, `port_or_known_default`, `username`, `password`, `path`,
/// `query`, `fragment` and `origin().ascii_serialization()`. The contract
/// gives the result a name and says nothing of what the parser accepts.
#[verifier::external_body]
fn url_parts(text: &str) -> (r: Option<UrlParts>)
    ensures
        parts_view(r) == parsed_url_parts(text@),
{
    let u = url::Url::parse(text).ok()?;
    Some(UrlParts {
        scheme: u.scheme().to_owned(),
        port: u.port_or_known_default(),
        username: u.username().to_owned(),
        password: u.password().map(str::to_owned),
        path: u.path().to_owned(),
        query: u.query().map(str::to_owned),
        fragment: u.fragment().map(str::to_owned),
        origin: u.origin().ascii_serialization(),
    })
}

/// Calls `url::Url::parse` on `text` and, when a URL comes back, reads its
/// `host()`: a domain, or the octets of an IPv4 or the segments of an IPv6
/// address. The contract gives the result a name.
#[verifier::external_body]
fn url_host(text: &str) -> (r: Option<UrlHost>)
    ensures
        host_view(r) == parsed_url_host(text@),
{
    match url::Url::parse(text).ok()?.host()? {
        url::Host::Domain(d) => Some(UrlHost::Domain(d.to_owned())),
        url::Host::Ipv4(a) => Some(UrlHost::Ipv4(a.octets().to_vec())),
        url::Host::Ipv6(a) => Some(UrlHost::Ipv6(a.segments().to_vec())),
    }
}

/// A parsed URL: its parts and its host.
#[derive(Debug, Clone, PartialEq, Eq)]
pub struct ParsedUrl {
    pub parts: UrlParts,
    pub host: Option<UrlHost>,
}

pub struct UrlView {
    pub parts: UrlPartsView,
    pub host: Option<HostView>,
}

impl View for ParsedUrl {
    type V = UrlView;

    open spec fn view(&self) -> UrlView {
        UrlView { parts: self.parts@, host: host_view(self.host) }
    }
}

/// The URL read from `text`, when it parses.
pub open spec fn parsed_url(text: Seq<char>) -> Option<UrlView> {
    match parsed_url_parts(text) {
        Some(p) => Some(UrlView { parts: p, host: parsed_url_host(text) }),
        None => None,
    }
}

pub fn parse_url(text: &str) -> (r: Option<ParsedUrl>)
    ensures
        match r {
            Some(u) => parsed_url(text@) == Some(u@),
            None => parsed_url(text@) is None,
        },
{
    match url_parts(text) {
        Some(parts) => Some(ParsedUrl { parts, host: url_host(text) }),
        None => None,
    }
}

/// A loopback host: the domain `localhost` or an IPv4 address in 127/8. An
/// IPv6 host never counts as loopback, because its text form is bracketed
/// and the bracketed text is not read as an address.
pub open spec fn loopback_host(h: HostView) -> bool {
    match h {
        HostView::Domain(d) => d == "localhost"@,
        HostView::Ipv4(o) => o.len() > 0 && o[0] == 127,
        HostView::Ipv6(_) => false,
    }
}

/// A URL an App API call may reach: `https`, or `http` to a loopback host;
/// with a host and a known port, and no credentials in it.
pub open spec fn app_url_safe(u: UrlView) -> bool {
    &&& (u.parts.scheme == "https"@ || (u.parts.scheme == "http"@ && match u.host {
        Some(h) => loopback_host(h),
        None => false,
    }))
    &&& u.host is Some
    &&& u.parts.port is Some
    &&& u.parts.username.len() == 0
    &&& u.parts.password is None
}

fn is_loopback(host: &UrlHost) -> (r: bool)
    ensures
        r == loopback_host(host@),
{
    match host {
        UrlHost::Domain(d) => crate::text::str_equal(d.as_str(), "localhost"),
        UrlHost::Ipv4(o) => o.len() > 0 && o[0] == 127,
        UrlHost::Ipv6(_) => false,
    }
}

pub fn safe_app_api_url(url: &ParsedUrl) -> (r: bool)
    ensures
        r == app_url_safe(url@),
{
    let loopback = match &url.host {
        Some(h) => is_loopback(h),
        None => false,
    };
    let scheme = url.parts.scheme.as_str();
    (crate::text::str_equal(scheme, "https") || (crate::text::str_equal(scheme, "http") && loopback))
        && url.host.is_some() && url.parts.port.is_some() && url.parts.username.as_str().is_empty()
        && url.parts.password.is_none()
}

pub open spec fn starts_with(t: Seq<char>, p: Seq<char>) -> bool {
    p.len() <= t.len() && t.subrange(0, p.len() as int) == p
}

pub fn text_starts_with(t: &str, p: &str) -> (r: bool)
    ensures
        r == starts_with(t@, p@),
{
    let n = t.unicode_len();
    let m = p.unicode_len();
    if m > n {
        return false;
    }
    let mut i: usize = 0;
    while i < m
        invariant
            n == t@.len(),
            m == p@.len(),
            m <= n,
            i <= m,
            forall|j: int| 0 <= j < i ==> t@[j] == p@[j],
        decreases m - i,
    {
        if t.get_char(i) != p.get_char(i) {
            assert(t@.subrange(0, m as int)[i as int] != p@[i as int]);
            return false;
        }
        i = i + 1;
    }
    assert(t@.subrange(0, m as int) =~= p@);
    true
}

/// An endpoint lies under an App API connector's base: both URLs are safe,
/// the base path ends with `/` and starts the endpoint's path, both share
/// one origin, and neither carries a query or fragment.
pub open spec fn endpoint_under_base(base: UrlView, endpoint: UrlView) -> bool {
    &&& app_url_safe(base)
    &&& app_url_safe(endpoint)
    &&& base.parts.path.len() > 0 && base.parts.path.last() == '/'
    &&& endpoint.parts.origin == base.parts.origin
    &&& starts_with(endpoint.parts.path, base.parts.path)
    &&& base.parts.query is None
    &&& base.parts.fragment is None
    &&& endpoint.parts.query is None
    &&& endpoint.parts.fragment is None
}

/// Whether `endpoint` lies under `base`, as `endpoint_under_base` says. The
/// origins are compared by their serializations: both URLs are then `http`
/// or `https`, whose origins are (scheme, host, port) tuples that the
/// serialization tells apart.
pub fn endpoint_within_base(base: &ParsedUrl, endpoint: &ParsedUrl) -> (r: bool)
    ensures
        r == endpoint_under_base(base@, endpoint@),
{
    let bp = base.parts.path.as_str();
    let n = bp.unicode_len();
    safe_app_api_url(base) && safe_app_api_url(endpoint) && n > 0 && bp.get_char(n - 1) == '/'
        && same_text(&endpoint.parts.origin, &base.parts.origin) && text_starts_with(
        endpoint.parts.path.as_str(),
        bp,
    ) && base.parts.query.is_none() && base.parts.fragment.is_none()
        && endpoint.parts.query.is_none() && endpoint.parts.fragment.is_none()
}

/// `endpoint` parses to a URL under the connector base `base`.
pub open spec fn app_api_endpoint_ok(base: Seq<char>, endpoint: Seq<char>) -> bool {
    match (parsed_url(base), parsed_url(endpoint)) {
        (Some(b), Some(e)) => endpoint_under_base(b, e),
        _ => false,
    }
}

pub fn ensure_app_api_endpoint(base: &str, endpoint: &str) -> (r: Result<(), Error>)
    ensures
        r is Ok <==> app_api_endpoint_ok(base@, endpoint@),
{
    let b = match parse_url(base) {
        Some(u) => u,
        None => return Err(Error("App API base URL cannot be parsed".to_string())),
    };
    let e = match parse_url(endpoint) {
        Some(u) => u,
        None => return Err(Error("App API endpoint cannot be parsed".to_string())),
    };
    if !endpoint_within_base(&b, &e) {
        return Err(Error("App API endpoint is outside the approved connector base".to_string()));
    }
    Ok(())
}

/// A web URL with a host and no credentials.
pub open spec fn web_target(u: UrlView) -> bool {
    &&& (u.parts.scheme == "http"@ || u.parts.scheme == "https"@)
    &&& u.host is Some
    &&& u.parts.username.len() == 0
    &&& u.parts.password is None
}

fn is_web_target(u: &ParsedUrl) -> (r: bool)
    ensures
        r == web_target(u@),
{
    let scheme = u.parts.scheme.as_str();
    (crate::text::str_equal(scheme, "http") || crate::text::str_equal(scheme, "https"))
        && u.host.is_some() && u.parts.username.as_str().is_empty() && u.parts.password.is_none()
}

/// An allowlist entry that is a bare origin: a web URL whose path is `/`,
/// with no query or fragment.
pub open spec fn origin_entry(u: UrlView) -> bool {
    web_target(u) && u.parts.path == "/"@ && u.parts.query is None && u.parts.fragment is None
}

/// The serialized origins of allowlist entries, in order; none when an entry
/// does not parse or is not a bare origin.
pub open spec fn origins_of(values: Seq<String>) -> Option<Seq<Seq<char>>>
    decreases values.len(),
{
    if values.len() == 0 {
        Some(Seq::empty())
    } else {
        match origins_of(values.drop_last()) {
            None => None,
            Some(o) => match parsed_url(values.last()@) {
                Some(u) => if origin_entry(u) {
                    Some(o.push(u.parts.origin))
                } else {
                    None
                },
                None => None,
            },
        }
    }
}

proof fn lemma_origins_none_stays(values: Seq<String>, k: int)
    requires
        0 <= k <= values.len(),
        origins_of(values.subrange(0, k)) is None,
    ensures
        origins_of(values) is None,
    decreases values.len() - k,
{
    if k < values.len() {
        let s = values.subrange(0, k + 1);
        assert(s.drop_last() =~= values.subrange(0, k));
        lemma_origins_none_stays(values, k + 1);
    } else {
        assert(values.subrange(0, k) =~= values);
    }
}

pub fn normalized_origins(values: &Vec<String>) -> (r: Result<Vec<String>, Error>)
    ensures
        match r {
            Ok(o) => origins_of(values@) == Some(o@.map_values(|s: String| s@)),
            Err(_) => origins_of(values@) is None,
        },
{
    let mut out: Vec<String> = Vec::new();
    let mut i: usize = 0;
    while i < values.len()
        invariant
            i <= values.len(),
            origins_of(values@.subrange(0, i as int)) == Some(out@.map_values(|s: String| s@)),
        decreases values.len() - i,
    {
        let ghost s = values@.subrange(0, i as int + 1);
        proof {
            assert(s.drop_last() =~= values@.subrange(0, i as int));
        }
        let parsed = match parse_url(values[i].as_str()) {
            Some(u) => u,
            None => {
                proof {
                    lemma_origins_none_stays(values@, i as int + 1);
                }
                return Err(Error("browser allowlist origin cannot be parsed".to_string()));
            },
        };
        let p = parsed.parts.path.as_str();
        let root = p.unicode_len() == 1 && p.get_char(0) == '/';
        proof {
            reveal_strlit("/");
            if p@ == "/"@ {
                assert(p@[0] == '/');
            }
            if root {
                assert(p@ =~= "/"@);
            }
        }
        if !is_web_target(&parsed) || !root || parsed.parts.query.is_some()
            || parsed.parts.fragment.is_some() {
            proof {
                lemma_origins_none_stays(values@, i as int + 1);
            }
            return Err(Error("browser allowlist entry must be an origin".to_string()));
        }
        let ghost before = out@;
        out.push(parsed.parts.origin);
        proof {
            assert(out@.map_values(|s: String| s@) =~= before.map_values(|s: String| s@).push(
                parsed@.parts.origin,
            ));
        }
        i = i + 1;
    }
    proof {
        assert(values@.subrange(0, i as int) =~= values@);
    }
    Ok(out)
}

/// Where a policy layer comes from. Layers are merged in this order, from
/// managed policy to the final layer.
#[derive(Debug, Clone, Copy, PartialEq, Eq, Hash, Structural)]
pub enum PolicyLayerSource {
    Managed,
    User,
    Workspace,
    Agent,
    Surface,
    Session,
    SkillToolPlugin,
    Hook,
    Final,
}

impl PolicyLayerSource {
    /// The source's place in the merge order.
    pub open spec fn level(self) -> nat {
        match self {
            PolicyLayerSource::Managed => 0,
            PolicyLayerSource::User => 1,
            PolicyLayerSource::Workspace => 2,
            PolicyLayerSource::Agent => 3,
            PolicyLayerSource::Surface => 4,
            PolicyLayerSource::Session => 5,
            PolicyLayerSource::SkillToolPlugin => 6,
            PolicyLayerSource::Hook => 7,
            PolicyLayerSource::Final => 8,
        }
    }

    pub fn rank(self) -> (r: u8)
        ensures
            r == self.level(),
    {
        match self {
            PolicyLayerSource::Managed => 0,
            PolicyLayerSource::User => 1,
            PolicyLayerSource::Workspace => 2,
            PolicyLayerSource::Agent => 3,
            PolicyLayerSource::Surface => 4,
            PolicyLayerSource::Session => 5,
            PolicyLayerSource::SkillToolPlugin => 6,
            PolicyLayerSource::Hook => 7,
            PolicyLayerSource::Final => 8,
        }
    }

    /// The source's name as a rule source.
    pub open spec fn name(self) -> Seq<char> {
        match self {
            PolicyLayerSource::Managed => "managed"@,
            PolicyLayerSource::User => "user"@,
            PolicyLayerSource::Workspace => "workspace"@,
            PolicyLayerSource::Agent => "agent"@,
            PolicyLayerSource::Surface => "surface"@,
            PolicyLayerSource::Session => "session"@,
            PolicyLayerSource::SkillToolPlugin => "skill-tool-plugin"@,
            PolicyLayerSource::Hook => "hook"@,
            PolicyLayerSource::Final => "final"@,
        }
    }

    pub fn as_str(self) -> (r: &'static str)
        ensures
            r@ == self.name(),
    {
        match self {
            PolicyLayerSource::Managed => "managed",
            PolicyLayerSource::User => "user",
            PolicyLayerSource::Workspace => "workspace",
            PolicyLayerSource::Agent => "agent",
            PolicyLayerSource::Surface => "surface",
            PolicyLayerSource::Session => "session",
            PolicyLayerSource::SkillToolPlugin => "skill-tool-plugin",
            PolicyLayerSource::Hook => "hook",
            PolicyLayerSource::Final => "final",
        }
    }
}

/// What an action's parameters must look like for a rule to apply.
#[derive(Debug, Clone, PartialEq, Eq)]
pub enum ArgMatcher {
    Any,
    ShellProgram(String),
    ShellArgsPrefix(Vec<String>),
    FilePathPrefix(String),
    McpTarget { server: McpServerRef, tool: ToolRef },
}

/// The texts of a list of strings.
pub open spec fn texts_of(v: Seq<String>) -> Seq<Seq<char>> {
    v.map_values(|s: String| s@)
}

/// The views of a list of values.
pub open spec fn views_of<T: View>(v: Seq<T>) -> Seq<T::V> {
    v.map_values(|x: T| x@)
}

/// A value that can be copied into one with the same view.
pub trait Replica: View + Sized {
    fn replica(&self) -> (r: Self)
        ensures
            r@ == self@,
    ;
}

/// A copy of every entry, in order, each with the same view.
pub fn replicate_all<T: Replica>(v: &Vec<T>) -> (r: Vec<T>)
    ensures
        views_of(r@) == views_of(v@),
{
    let mut r: Vec<T> = Vec::new();
    let mut i: usize = 0;
    while i < v.len()
        invariant
            i <= v.len(),
            views_of(r@) == views_of(v@.subrange(0, i as int)),
        decreases v.len() - i,
    {
        let ghost before = r@;
        let x = v[i].replica();
        proof {
            let a = views_of(before.push(x));
            let b = views_of(v@.subrange(0, i as int + 1));
            assert(views_of(before).len() == i);
            assert(before.len() == i);
            assert forall|j: int| 0 <= j < i + 1 implies a[j] == b[j] by {
                if j < i {
                    assert(before.push(x)[j] == before[j]);
                    assert(v@.subrange(0, i as int + 1)[j] == v@.subrange(0, i as int)[j]);
                    assert(views_of(before)[j] == views_of(v@.subrange(0, i as int))[j]);
                } else {
                    assert(before.push(x)[j] == x);
                    assert(v@.subrange(0, i as int + 1)[j] == v@[i as int]);
                }
            }
            assert(a =~= b);
        }
        r.push(x);
        i = i + 1;
    }
    assert(v@.subrange(0, i as int) =~= v@);
    r
}

pub enum ArgView {
    Any,
    ShellProgram(Seq<char>),
    ShellArgsPrefix(Seq<Seq<char>>),
    FilePathPrefix(Seq<char>),
    McpTarget(Seq<char>, Seq<char>),
}

impl View for ArgMatcher {
    type V = ArgView;

    open spec fn view(&self) -> ArgView {
        match self {
            ArgMatcher::Any => ArgView::Any,
            ArgMatcher::ShellProgram(p) => ArgView::ShellProgram(p@),
            ArgMatcher::ShellArgsPrefix(a) => ArgView::ShellArgsPrefix(texts_of(a@)),
            ArgMatcher::FilePathPrefix(p) => ArgView::FilePathPrefix(p@),
            ArgMatcher::McpTarget { server, tool } => ArgView::McpTarget(server.0@, tool.0@),
        }
    }
}

/// `expected` starts `args`, entry by entry.
pub open spec fn args_prefix(args: Seq<String>, expected: Seq<Seq<char>>) -> bool {
    expected.len() <= args.len() && forall|i: int|
        0 <= i < expected.len() ==> #[trigger] args[i]@ == expected[i]
}

pub open spec fn arg_matches(m: ArgView, p: ActionParameters) -> bool {
    match (m, p) {
        (ArgView::Any, _) => true,
        (ArgView::ShellProgram(e), ActionParameters::Shell { program, .. }) => e == program@,
        (ArgView::ShellArgsPrefix(e), ActionParameters::Shell { args, .. }) => args_prefix(
            args@,
            e,
        ),
        (ArgView::FilePathPrefix(root), ActionParameters::File { path, .. }) => within_path(
            root,
            path@,
        ),
        (ArgView::McpTarget(es, et), ActionParameters::Mcp { server, tool, .. }) => es
            == server.0@ && et == tool.0@,
        _ => false,
    }
}

fn check_args_prefix(args: &Vec<String>, expected: &Vec<String>) -> (r: bool)
    ensures
        r == args_prefix(args@, texts_of(expected@)),
{
    if expected.len() > args.len() {
        return false;
    }
    let mut i: usize = 0;
    while i < expected.len()
        invariant
            expected.len() <= args.len(),
            i <= expected.len(),
            forall|j: int| 0 <= j < i ==> #[trigger] args@[j]@ == texts_of(expected@)[j],
        decreases expected.len() - i,
    {
        if !same_text(&args[i], &expected[i]) {
            return false;
        }
        i = i + 1;
    }
    true
}

impl ArgMatcher {
    pub fn matches(&self, intent: &ActionIntent) -> (r: bool)
        ensures
            r == arg_matches(self@, intent.parameters),
    {
        match (self, &intent.parameters) {
            (ArgMatcher::Any, _) => true,
            (ArgMatcher::ShellProgram(expected), ActionParameters::Shell { program, .. }) => {
                same_text(expected, program)
            },
            (ArgMatcher::ShellArgsPrefix(expected), ActionParameters::Shell { args, .. }) => {
                check_args_prefix(args, expected)
            },
            (ArgMatcher::FilePathPrefix(root), ActionParameters::File { path, .. }) => {
                path_within(root.as_str(), path.as_str())
            },
            (
                ArgMatcher::McpTarget { server: expected_server, tool: expected_tool },
                ActionParameters::Mcp { server, tool, .. },
            ) => same_text(&expected_server.0, &server.0) && same_text(&expected_tool.0, &tool.0),
            _ => false,
        }
    }
}

impl Replica for ArgMatcher {
    fn replica(&self) -> (r: Self) {
        match self {
            ArgMatcher::Any => ArgMatcher::Any,
            ArgMatcher::ShellProgram(p) => ArgMatcher::ShellProgram(p.clone()),
            ArgMatcher::ShellArgsPrefix(a) => {
                let c = crate::text::duplicate_all(a);
                assert(texts_of(c@) =~= texts_of(a@));
                ArgMatcher::ShellArgsPrefix(c)
            },
            ArgMatcher::FilePathPrefix(p) => ArgMatcher::FilePathPrefix(p.clone()),
            ArgMatcher::McpTarget { server, tool } => ArgMatcher::McpTarget {
                server: server.duplicate(),
                tool: tool.duplicate(),
            },
        }
    }
}

/// Which actions a rule applies to; each field left open matches anything.
#[derive(Debug, Clone, PartialEq, Eq)]
pub struct ActionMatcher {
    pub backend: Option<BackendKind>,
    pub capability: Option<CapabilityRef>,
    pub action_type: Option<ActionType>,
    pub parameters: ArgMatcher,
}

impl Default for ActionMatcher {
    fn default() -> (r: Self)
        ensures
            r.backend is None,
            r.capability is None,
            r.action_type is None,
            r.parameters == ArgMatcher::Any,
    {
        ActionMatcher { backend: None, capability: None, action_type: None, parameters: ArgMatcher::Any }
    }
}

pub struct MatcherView {
    pub backend: Option<BackendKind>,
    pub capability: Option<Seq<char>>,
    pub action_type: Option<ActionType>,
    pub parameters: ArgView,
}

impl View for ActionMatcher {
    type V = MatcherView;

    open spec fn view(&self) -> MatcherView {
        MatcherView {
            backend: self.backend,
            capability: match self.capability {
                Some(c) => Some(c.0@),
                None => None,
            },
            action_type: self.action_type,
            parameters: self.parameters@,
        }
    }
}

pub open spec fn matcher_applies(m: MatcherView, intent: ActionIntent) -> bool {
    &&& match m.backend {
        Some(b) => b == intent.backend_hint,
        None => true,
    }
    &&& match m.capability {
        Some(c) => c == intent.capability_ref.0@,
        None => true,
    }
    &&& match m.action_type {
        Some(a) => a == intent.action_type,
        None => true,
    }
    &&& arg_matches(m.parameters, intent.parameters)
}

impl ActionMatcher {
    pub fn matches(&self, intent: &ActionIntent) -> (r: bool)
        ensures
            r == matcher_applies(self@, *intent),
    {
        let backend = match self.backend {
            Some(b) => b == intent.backend_hint,
            None => true,
        };
        let capability = match &self.capability {
            Some(c) => same_text(&c.0, &intent.capability_ref.0),
            None => true,
        };
        let action_type = match self.action_type {
            Some(a) => a == intent.action_type,
            None => true,
        };
        backend && capability && action_type && self.parameters.matches(intent)
    }
}

impl Replica for ActionMatcher {
    fn replica(&self) -> (r: Self) {
        ActionMatcher {
            backend: self.backend,
            capability: match &self.capability {
                Some(c) => Some(c.duplicate()),
                None => None,
            },
            action_type: self.action_type,
            parameters: self.parameters.replica(),
        }
    }
}

/// One rule of a layer: the actions it matches, within which scope, and its
/// decision.
#[derive(Debug, Clone, PartialEq, Eq)]
pub struct PolicyRule {
    pub schema_version: SchemaVersion,
    pub matcher: ActionMatcher,
    pub effect: PolicyDecision,
    pub scope: Scope,
}

pub struct RuleView {
    pub schema_version: SchemaVersion,
    pub matcher: MatcherView,
    pub effect: PolicyDecision,
    pub scope: Seq<char>,
}

impl View for PolicyRule {
    type V = RuleView;

    open spec fn view(&self) -> RuleView {
        RuleView {
            schema_version: self.schema_version,
            matcher: self.matcher@,
            effect: self.effect,
            scope: self.scope.0@,
        }
    }
}

impl Replica for PolicyRule {
    fn replica(&self) -> (r: Self) {
        PolicyRule {
            schema_version: self.schema_version,
            matcher: self.matcher.replica(),
            effect: self.effect,
            scope: self.scope.duplicate(),
        }
    }
}

#[derive(Debug, Clone, PartialEq, Eq)]
pub struct PolicyLayer {
    pub schema_version: SchemaVersion,
    pub source: PolicyLayerSource,
    pub rules: Vec<PolicyRule>,
}

pub struct LayerView {
    pub schema_version: SchemaVersion,
    pub source: PolicyLayerSource,
    pub rules: Seq<RuleView>,
}

impl View for PolicyLayer {
    type V = LayerView;

    open spec fn view(&self) -> LayerView {
        LayerView {
            schema_version: self.schema_version,
            source: self.source,
            rules: views_of(self.rules@),
        }
    }
}

impl Replica for PolicyLayer {
    fn replica(&self) -> (r: Self) {
        PolicyLayer {
            schema_version: self.schema_version,
            source: self.source,
            rules: replicate_all(&self.rules),
        }
    }
}

/// Policy layers merged into their order of precedence.
#[derive(Debug, Clone, PartialEq, Eq)]
pub struct EffectivePolicy {
    pub schema_version: SchemaVersion,
    layers: Vec<PolicyLayer>,
}

impl EffectivePolicy {
    /// The merged layers, in order.
    pub closed spec fn layer_seq(&self) -> Seq<PolicyLayer> {
        self.layers@
    }

    /// The schema version of the merged policy.
    pub closed spec fn version(&self) -> SchemaVersion {
        self.schema_version
    }

    /// What the merged layers hold, in order.
    pub open spec fn layer_views(&self) -> Seq<LayerView> {
        views_of(self.layer_seq())
    }

    pub fn layers(&self) -> (r: &[PolicyLayer])
        ensures
            r@ == self.layer_seq(),
    {
        self.layers.as_slice()
    }
}

/// An App API connector the runtime admits, with what its calls may do.
#[derive(Debug, Clone, PartialEq, Eq)]
pub struct AppApiConnectorLimit {
    pub schema_version: SchemaVersion,
    pub connector: ProviderId,
    pub base_url: String,
    pub schema_digest: SchemaDigest,
    pub credential_ref: Option<SecretRef>,
    pub allowed_mutations: Vec<AppApiMutationMethod>,
    pub max_timeout: DurationMs,
}

/// A computer surface the runtime admits, with the bounds actions must stay in.
#[derive(Debug, Clone, PartialEq, Eq)]
pub struct ComputerSurfaceLimit {
    pub schema_version: SchemaVersion,
    pub surface: SurfaceRef,
    pub bounds: CoordinateBounds,
}

/// The runtime's limits on external backends.
#[derive(Debug, Clone, PartialEq, Eq)]
pub struct ExternalPolicyLimits {
    pub schema_version: SchemaVersion,
    pub browser_origins: Vec<String>,
    pub computer_surfaces: Vec<ComputerSurfaceLimit>,
    pub pty_programs: Vec<String>,
    pub pty_roots: Vec<String>,
    pub app_api_connectors: Vec<AppApiConnectorLimit>,
}

impl Default for ExternalPolicyLimits {
    fn default() -> (r: Self)
        ensures
            r.schema_version == SchemaVersion(1),
            r.browser_origins@.len() == 0,
            r.computer_surfaces@.len() == 0,
            r.pty_programs@.len() == 0,
            r.pty_roots@.len() == 0,
            r.app_api_connectors@.len() == 0,
    {
        ExternalPolicyLimits {
            schema_version: SchemaVersion(1),
            browser_origins: Vec::new(),
            computer_surfaces: Vec::new(),
            pty_programs: Vec::new(),
            pty_roots: Vec::new(),
            app_api_connectors: Vec::new(),
        }
    }
}

/// Who a delegation is granted to.
#[derive(Debug, Clone, PartialEq, Eq)]
pub enum DelegationSubject {
    Owner,
    Agent,
    Subagent(RunId),
    External(ParticipantId),
}

/// A delegated autonomy envelope and its provenance.
#[derive(Debug, Clone, PartialEq, Eq)]
pub struct DelegationGrant {
    pub schema_version: SchemaVersion,
    pub subject: DelegationSubject,
    pub envelope: AutonomyEnvelope,
    pub granted_by: Actor,
    pub audit_ref: EventId,
}

/// Everything the policy checks an action against at execution time.
#[derive(Debug, Clone, PartialEq, Eq)]
pub struct PolicyContext {
    pub schema_version: SchemaVersion,
    pub session: SessionId,
    pub toolset: ToolsetRef,
    pub policy: EffectivePolicy,
    pub visible_capabilities: Vec<CapabilityRef>,
    pub granted_permissions: Vec<PermissionRef>,
    pub allowed_scopes: Vec<Scope>,
    pub shell_allowlist: Vec<String>,
    pub file_roots: Vec<String>,
    pub mcp_allowlist: Vec<String>,
    pub external: ExternalPolicyLimits,
    pub network_allowed: bool,
    pub sandbox_available: bool,
    pub delegation: Option<DelegationGrant>,
    pub envelope: Option<AutonomyEnvelope>,
}

/// Where an action stands against a delegated envelope.
#[derive(Debug, Clone, Copy, PartialEq, Eq, Structural)]
pub enum EnvelopeDecision {
    Within,
    OutOfScope,
    NeedsApproval,
}

/// `t` is among the texts of `v`.
fn texts_contain(v: &Vec<String>, t: &String) -> (r: bool)
    ensures
        r == texts_of(v@).contains(t@),
{
    let mut i: usize = 0;
    while i < v.len()
        invariant
            i <= v.len(),
            forall|j: int| 0 <= j < i ==> #[trigger] texts_of(v@)[j] != t@,
        decreases v.len() - i,
    {
        if same_text(&v[i], t) {
            assert(texts_of(v@)[i as int] == t@);
            return true;
        }
        i = i + 1;
    }
    false
}

/// What a browser action must satisfy against the runtime's limits: a
/// complete boundary whose artifact scope lies in the intent's scope, a web
/// target with a host and no credentials, whose origin both the plan's and
/// the runtime's allowlists name (every entry of each a bare origin), and an
/// operation within its grammar.
pub open spec fn browser_ok(ctx: PolicyContext, intent: ActionIntent, spec: BrowserActionSpec) -> bool {
    &&& ctx.external.schema_version.0 != 0
    &&& spec.schema_version.0 != 0
    &&& !is_blank(spec.driver.0@)
    &&& spec.allowed_origins@.len() > 0
    &&& !is_blank(spec.artifact_scope.0@)
    &&& scope_covers(intent.scope.0@, spec.artifact_scope.0@)
    &&& match parsed_url(spec.target_url@) {
        None => false,
        Some(t) => {
            &&& web_target(t)
            &&& match (origins_of(spec.allowed_origins@), origins_of(ctx.external.browser_origins@)) {
                (Some(planned), Some(runtime)) => planned.contains(t.parts.origin)
                    && runtime.contains(t.parts.origin),
                _ => false,
            }
            &&& browser_operation_ok(spec.operation)
        },
    }
}

pub fn validate_browser(ctx: &PolicyContext, intent: &ActionIntent, spec: &BrowserActionSpec) -> (r:
    Result<(), Error>)
    ensures
        r is Ok <==> browser_ok(*ctx, *intent, *spec),
{
    if ctx.external.schema_version.0 == 0 || spec.schema_version.0 == 0 || blank(
        spec.driver.0.as_str(),
    ) || spec.allowed_origins.len() == 0 || blank(spec.artifact_scope.0.as_str())
        || !scope_contains(&intent.scope, &spec.artifact_scope) {
        return Err(Error("browser action boundary is incomplete".to_string()));
    }
    let target = match parse_url(spec.target_url.as_str()) {
        Some(u) => u,
        None => return Err(Error("browser target URL cannot be parsed".to_string())),
    };
    if !is_web_target(&target) {
        return Err(Error("browser target URL scheme or authority is unsafe".to_string()));
    }
    let planned = normalized_origins(&spec.allowed_origins)?;
    let runtime = normalized_origins(&ctx.external.browser_origins)?;
    if !texts_contain(&planned, &target.parts.origin) || !texts_contain(
        &runtime,
        &target.parts.origin,
    ) {
        return Err(Error("browser target origin is not allowlisted".to_string()));
    }
    validate_browser_operation(&spec.operation)
}

/// The first surface limit for `surface`.
pub open spec fn surface_limit(limits: Seq<ComputerSurfaceLimit>, surface: Seq<char>) -> Option<
    ComputerSurfaceLimit,
>
    decreases limits.len(),
{
    if limits.len() == 0 {
        None
    } else if limits[0].surface.0@ == surface {
        Some(limits[0])
    } else {
        surface_limit(limits.drop_first(), surface)
    }
}

fn find_surface_limit<'a>(limits: &'a Vec<ComputerSurfaceLimit>, surface: &SurfaceRef) -> (r:
    Option<&'a ComputerSurfaceLimit>)
    ensures
        match r {
            Some(l) => surface_limit(limits@, surface.0@) == Some(*l),
            None => surface_limit(limits@, surface.0@) is None,
        },
{
    let mut i: usize = 0;
    assert(limits@.subrange(0, limits@.len() as int) =~= limits@);
    while i < limits.len()
        invariant
            i <= limits.len(),
            surface_limit(limits@, surface.0@) == surface_limit(
                limits@.subrange(i as int, limits@.len() as int),
                surface.0@,
            ),
        decreases limits.len() - i,
    {
        let ghost rest = limits@.subrange(i as int, limits@.len() as int);
        assert(rest[0] == limits@[i as int]);
        if same_text(&limits[i].surface.0, &surface.0) {
            return Some(&limits[i]);
        }
        assert(rest.drop_first() =~= limits@.subrange(i as int + 1, limits@.len() as int));
        i = i + 1;
    }
    None
}

/// What a computer operation must satisfy: pointer coordinates inside the
/// plan's bounds, a typed input within its boundary, a scroll of at most
/// 10000 in each direction.
pub open spec fn computer_operation_ok(spec: ComputerActionSpec) -> bool {
    match spec.operation {
        ComputerOperation::Move { x, y } => spec.bounds.holds(x, y),
        ComputerOperation::Click { x, y, .. } => spec.bounds.holds(x, y),
        ComputerOperation::Type { input } => external_input_ok(input),
        ComputerOperation::Scroll { dx, dy } => -10000 <= dx <= 10000 && -10000 <= dy <= 10000,
        ComputerOperation::Key { .. } => true,
        ComputerOperation::Screenshot => true,
    }
}

/// What a computer action must satisfy: valid bounds, a complete boundary
/// whose artifact scope lies in the intent's scope, an allowlisted surface
/// whose valid bounds contain the plan's, and a bounded operation.
pub open spec fn computer_ok(ctx: PolicyContext, intent: ActionIntent, spec: ComputerActionSpec) -> bool {
    &&& spec.bounds.valid()
    &&& ctx.external.schema_version.0 != 0
    &&& spec.schema_version.0 != 0
    &&& !is_blank(spec.driver.0@)
    &&& !is_blank(spec.surface.0@)
    &&& !is_blank(spec.artifact_scope.0@)
    &&& scope_covers(intent.scope.0@, spec.artifact_scope.0@)
    &&& match surface_limit(ctx.external.computer_surfaces@, spec.surface.0@) {
        None => false,
        Some(limit) => limit.bounds.valid() && limit.schema_version.0 != 0 && bounds_within(
            limit.bounds,
            spec.bounds,
        ),
    }
    &&& computer_operation_ok(spec)
}

pub fn validate_computer(ctx: &PolicyContext, intent: &ActionIntent, spec: &ComputerActionSpec) -> (r:
    Result<(), Error>)
    ensures
        r is Ok <==> computer_ok(*ctx, *intent, *spec),
{
    spec.bounds.validate()?;
    if ctx.external.schema_version.0 == 0 || spec.schema_version.0 == 0 || blank(
        spec.driver.0.as_str(),
    ) || blank(spec.surface.0.as_str()) || blank(spec.artifact_scope.0.as_str())
        || !scope_contains(&intent.scope, &spec.artifact_scope) {
        return Err(Error("computer action boundary is incomplete".to_string()));
    }
    let allowed = match find_surface_limit(&ctx.external.computer_surfaces, &spec.surface) {
        Some(l) => l,
        None => return Err(Error("computer surface is not allowlisted".to_string())),
    };
    allowed.bounds.validate()?;
    if allowed.schema_version.0 == 0 || !bounds_contain(allowed.bounds, spec.bounds) {
        return Err(Error("computer bounds exceed the surface grant".to_string()));
    }
    match &spec.operation {
        ComputerOperation::Move { x, y } | ComputerOperation::Click { x, y, .. } => {
            if !spec.bounds.contains(*x, *y) {
                return Err(Error("computer coordinates are outside plan bounds".to_string()));
            }
        },
        ComputerOperation::Type { input } => validate_external_input(input)?,
        ComputerOperation::Scroll { dx, dy } => {
            if *dx < -10000 || *dx > 10000 || *dy < -10000 || *dy > 10000 {
                return Err(Error("computer scroll exceeds the bounded delta".to_string()));
            }
        },
        ComputerOperation::Key { .. } | ComputerOperation::Screenshot => {},
    }
    Ok(())
}

/// An argument a PTY program may take: at most 8192 bytes, no NUL.
pub open spec fn pty_arg_ok(a: Seq<char>) -> bool {
    utf8_of(a).len() <= 8192 && !has_nul(a)
}

/// The environment of a PTY action: each binding has a schema, a secret
/// that is not blank, a valid name, and a name no earlier binding used.
pub open spec fn environment_ok(env: Seq<crate::action::SecretBinding>) -> bool {
    forall|i: int|
        0 <= i < env.len() ==> {
            &&& (#[trigger] env[i]).schema_version.0 != 0
            &&& !is_blank(env[i].value.0@)
            &&& environment_name(env[i].name@)
            &&& forall|j: int| 0 <= j < i ==> (#[trigger] env[j]).name@ != env[i].name@
        }
}

/// What a PTY action must satisfy: a complete boundary with sane terminal
/// size, an allowlisted program, a working directory under an allowlisted
/// root, bounded arguments, a valid input and a valid environment.
pub open spec fn pty_ok(ctx: PolicyContext, spec: PtyActionSpec) -> bool {
    &&& ctx.external.schema_version.0 != 0
    &&& spec.schema_version.0 != 0
    &&& !is_blank(spec.program@)
    &&& !is_blank(spec.cwd@)
    &&& 1 <= spec.cols <= 500
    &&& 1 <= spec.rows <= 200
    &&& has_text(ctx.external.pty_programs@, spec.program@)
    &&& exists|i: int|
        0 <= i < ctx.external.pty_roots@.len() && within_path(
            #[trigger] ctx.external.pty_roots@[i]@,
            spec.cwd@,
        )
    &&& forall|i: int| 0 <= i < spec.args@.len() ==> pty_arg_ok(#[trigger] spec.args@[i]@)
    &&& match spec.input {
        Some(x) => external_input_ok(x),
        None => true,
    }
    &&& environment_ok(spec.environment@)
}

fn any_root_within(roots: &Vec<String>, path: &str) -> (r: bool)
    ensures
        r == exists|i: int| 0 <= i < roots@.len() && within_path(#[trigger] roots@[i]@, path@),
{
    let mut i: usize = 0;
    while i < roots.len()
        invariant
            i <= roots.len(),
            forall|j: int| 0 <= j < i ==> !within_path(#[trigger] roots@[j]@, path@),
        decreases roots.len() - i,
    {
        if path_within(roots[i].as_str(), path) {
            return true;
        }
        i = i + 1;
    }
    false
}

fn args_bounded(args: &Vec<String>) -> (r: bool)
    ensures
        r == forall|i: int| 0 <= i < args@.len() ==> pty_arg_ok(#[trigger] args@[i]@),
{
    let mut i: usize = 0;
    while i < args.len()
        invariant
            i <= args.len(),
            forall|j: int| 0 <= j < i ==> pty_arg_ok(#[trigger] args@[j]@),
        decreases args.len() - i,
    {
        let a = args[i].as_str();
        if a.as_bytes().len() > 8192 || find_nul(a) {
            return false;
        }
        i = i + 1;
    }
    true
}

fn check_environment(env: &Vec<crate::action::SecretBinding>) -> (r: bool)
    ensures
        r == environment_ok(env@),
{
    let mut i: usize = 0;
    while i < env.len()
        invariant
            i <= env.len(),
            environment_ok(env@.subrange(0, i as int)),
        decreases env.len() - i,
    {
        let b = &env[i];
        if b.schema_version.0 == 0 || blank(b.value.0.as_str()) || !valid_environment_name(
            b.name.as_str(),
        ) {
            proof {
                assert(env@[i as int] == *b);
            }
            return false;
        }
        let mut j: usize = 0;
        while j < i
            invariant
                i < env.len(),
                j <= i,
                *b == env@[i as int],
                forall|k: int| 0 <= k < j ==> (#[trigger] env@[k]).name@ != env@[i as int].name@,
            decreases i - j,
        {
            if same_text(&env[j].name, &b.name) {
                proof {
                    assert((env@[j as int]).name@ == env@[i as int].name@);
                    assert(!environment_ok(env@));
                }
                return false;
            }
            j = j + 1;
        }
        proof {
            let s = env@.subrange(0, i as int + 1);
            assert forall|k: int| 0 <= k < s.len() implies {
                &&& (#[trigger] s[k]).schema_version.0 != 0
                &&& !is_blank(s[k].value.0@)
                &&& environment_name(s[k].name@)
                &&& forall|l: int| 0 <= l < k ==> (#[trigger] s[l]).name@ != s[k].name@
            } by {
                if k < i {
                    let p = env@.subrange(0, i as int);
                    assert(p[k] == s[k]);
                    assert forall|l: int| 0 <= l < k implies (#[trigger] s[l]).name@ != s[k].name@ by {
                        assert(p[l] == s[l]);
                    }
                } else {
                    assert forall|l: int| 0 <= l < k implies (#[trigger] s[l]).name@ != s[k].name@ by {
                        assert(s[l] == env@[l]);
                    }
                }
            }
        }
        i = i + 1;
    }
    assert(env@.subrange(0, i as int) =~= env@);
    true
}

pub fn validate_pty(ctx: &PolicyContext, spec: &PtyActionSpec) -> (r: Result<(), Error>)
    ensures
        r is Ok <==> pty_ok(*ctx, *spec),
{
    if ctx.external.schema_version.0 == 0 || spec.schema_version.0 == 0 || blank(
        spec.program.as_str(),
    ) || blank(spec.cwd.as_str()) || !(1 <= spec.cols && spec.cols <= 500) || !(1 <= spec.rows
        && spec.rows <= 200) || !check_has_text(&ctx.external.pty_programs, &spec.program)
        || !any_root_within(&ctx.external.pty_roots, spec.cwd.as_str()) || !args_bounded(
        &spec.args,
    ) {
        return Err(Error("PTY action boundary is incomplete".to_string()));
    }
    if let Some(input) = &spec.input {
        validate_external_input(input)?;
    }
    if !check_environment(&spec.environment) {
        return Err(Error("PTY secret binding is invalid".to_string()));
    }
    Ok(())
}

/// The first connector limit for `connector`.
pub open spec fn connector_limit(limits: Seq<AppApiConnectorLimit>, connector: Seq<char>) -> Option<
    AppApiConnectorLimit,
>
    decreases limits.len(),
{
    if limits.len() == 0 {
        None
    } else if limits[0].connector.0@ == connector {
        Some(limits[0])
    } else {
        connector_limit(limits.drop_first(), connector)
    }
}

fn find_connector_limit<'a>(limits: &'a Vec<AppApiConnectorLimit>, connector: &ProviderId) -> (r:
    Option<&'a AppApiConnectorLimit>)
    ensures
        match r {
            Some(l) => connector_limit(limits@, connector.0@) == Some(*l),
            None => connector_limit(limits@, connector.0@) is None,
        },
{
    let mut i: usize = 0;
    assert(limits@.subrange(0, limits@.len() as int) =~= limits@);
    while i < limits.len()
        invariant
            i <= limits.len(),
            connector_limit(limits@, connector.0@) == connector_limit(
                limits@.subrange(i as int, limits@.len() as int),
                connector.0@,
            ),
        decreases limits.len() - i,
    {
        let ghost rest = limits@.subrange(i as int, limits@.len() as int);
        assert(rest[0] == limits@[i as int]);
        if same_text(&limits[i].connector.0, &connector.0) {
            return Some(&limits[i]);
        }
        assert(rest.drop_first() =~= limits@.subrange(i as int + 1, limits@.len() as int));
        i = i + 1;
    }
    None
}

/// Two optional credentials name the same secret, or both are absent.
pub open spec fn same_credential(a: Option<SecretRef>, b: Option<SecretRef>) -> bool {
    match (a, b) {
        (None, None) => true,
        (Some(x), Some(y)) => x.0@ == y.0@,
        _ => false,
    }
}

fn credentials_match(a: &Option<SecretRef>, b: &Option<SecretRef>) -> (r: bool)
    ensures
        r == same_credential(*a, *b),
{
    match (a, b) {
        (None, None) => true,
        (Some(x), Some(y)) => same_text(&x.0, &y.0),
        _ => false,
    }
}

/// Who an App API call speaks for: a participant and a representation
/// come together, the participant is a header-safe identifier, a disclosure
/// request is not blank, and a delivery names all three.
pub open spec fn app_api_participant_ok(intent: ActionIntent, spec: AppApiActionSpec) -> bool {
    &&& (spec.participant is Some) == (spec.representation is Some)
    &&& match spec.participant {
        Some(p) => header_safe(p.0@),
        None => true,
    }
    &&& match spec.disclosure_request {
        Some(d) => !is_blank(d.0@),
        None => true,
    }
    &&& intent.action_type == ActionType::Deliver ==> (spec.participant is Some
        && spec.representation is Some && spec.disclosure_request is Some)
}

/// What an App API operation must satisfy under a connector limit: a read
/// observes or analyzes; a mutation does more than observe, analyze or
/// prepare, uses a method the connector allows, a header-safe idempotency
/// key and a body within its boundary.
pub open spec fn app_api_operation_ok(
    intent: ActionIntent,
    limit: AppApiConnectorLimit,
    operation: AppApiOperation,
) -> bool {
    match operation {
        AppApiOperation::Read => intent.action_type == ActionType::Observe || intent.action_type
            == ActionType::Analyze,
        AppApiOperation::Mutation { method, body, idempotency_key } => {
            &&& intent.action_type != ActionType::Observe
            &&& intent.action_type != ActionType::Analyze
            &&& intent.action_type != ActionType::Prepare
            &&& limit.allowed_mutations@.contains(method)
            &&& header_safe(idempotency_key.0@)
            &&& match body {
                Some(b) => !external_input_invalid(b),
                None => true,
            }
        },
    }
}

/// What an App API action must satisfy: network access and a complete
/// outward boundary; an allowlisted connector whose schema, credential and
/// timeout it keeps; an endpoint under the connector's base; a complete
/// participant; and an operation the connector allows.
pub open spec fn app_api_ok(ctx: PolicyContext, intent: ActionIntent, spec: AppApiActionSpec) -> bool {
    &&& ctx.external.schema_version.0 != 0
    &&& ctx.network_allowed
    &&& spec.schema_version.0 != 0
    &&& !is_blank(spec.connector.0@)
    &&& !is_blank(spec.schema_digest.0@)
    &&& spec.timeout.0 != 0
    &&& intent.expected_effect == ExpectedEffect::Outward
    &&& match connector_limit(ctx.external.app_api_connectors@, spec.connector.0@) {
        None => false,
        Some(limit) => {
            &&& limit.schema_version.0 != 0
            &&& limit.schema_digest.0@ == spec.schema_digest.0@
            &&& same_credential(limit.credential_ref, spec.credential)
            &&& limit.max_timeout.0 != 0
            &&& spec.timeout.0 <= limit.max_timeout.0
            &&& app_api_endpoint_ok(limit.base_url@, spec.endpoint@)
            &&& app_api_participant_ok(intent, spec)
            &&& app_api_operation_ok(intent, limit, spec.operation)
        },
    }
}

fn method_allowed(allowed: &Vec<AppApiMutationMethod>, method: AppApiMutationMethod) -> (r: bool)
    ensures
        r == allowed@.contains(method),
{
    let mut i: usize = 0;
    while i < allowed.len()
        invariant
            i <= allowed.len(),
            forall|j: int| 0 <= j < i ==> allowed@[j] != method,
        decreases allowed.len() - i,
    {
        if allowed[i] == method {
            assert(allowed@[i as int] == method);
            return true;
        }
        i = i + 1;
    }
    false
}

pub fn validate_app_api(ctx: &PolicyContext, intent: &ActionIntent, spec: &AppApiActionSpec) -> (r:
    Result<(), Error>)
    ensures
        r is Ok <==> app_api_ok(*ctx, *intent, *spec),
{
    if ctx.external.schema_version.0 == 0 || !ctx.network_allowed || spec.schema_version.0 == 0
        || blank(spec.connector.0.as_str()) || blank(spec.schema_digest.0.as_str())
        || spec.timeout.0 == 0 || intent.expected_effect != ExpectedEffect::Outward {
        return Err(Error("App API action boundary is incomplete".to_string()));
    }
    let limit = match find_connector_limit(&ctx.external.app_api_connectors, &spec.connector) {
        Some(l) => l,
        None => return Err(Error("App API connector is not allowlisted".to_string())),
    };
    if limit.schema_version.0 == 0 || !same_text(&limit.schema_digest.0, &spec.schema_digest.0)
        || !credentials_match(&limit.credential_ref, &spec.credential) || limit.max_timeout.0 == 0
        || spec.timeout.0 > limit.max_timeout.0 {
        return Err(
            Error(
                "App API connector identity, schema, credential, or timeout changed".to_string(),
            ),
        );
    }
    ensure_app_api_endpoint(limit.base_url.as_str(), spec.endpoint.as_str())?;
    let participant_unsafe = match &spec.participant {
        Some(p) => !safe_header_component(p.0.as_str()),
        None => false,
    };
    let disclosure_blank = match &spec.disclosure_request {
        Some(d) => blank(d.0.as_str()),
        None => false,
    };
    if spec.participant.is_some() != spec.representation.is_some() || participant_unsafe
        || disclosure_blank || (intent.action_type == ActionType::Deliver && (
    spec.participant.is_none() || spec.representation.is_none()
        || spec.disclosure_request.is_none())) {
        return Err(
            Error("App API external participant or representation is incomplete".to_string()),
        );
    }
    match &spec.operation {
        AppApiOperation::Read => {
            if !(intent.action_type == ActionType::Observe || intent.action_type
                == ActionType::Analyze) {
                return Err(Error("App API read is not an observation".to_string()));
            }
        },
        AppApiOperation::Mutation { method, body, idempotency_key } => {
            let body_invalid = match body {
                Some(b) => invalid_external_input(b),
                None => false,
            };
            if intent.action_type == ActionType::Observe || intent.action_type == ActionType::Analyze
                || intent.action_type == ActionType::Prepare || !method_allowed(
                &limit.allowed_mutations,
                *method,
            ) || !safe_header_component(idempotency_key.0.as_str()) || body_invalid {
                return Err(
                    Error(
                        "App API mutation method, body, or idempotency boundary is invalid".to_string(),
                    ),
                );
            }
        },
    }
    Ok(())
}

/// Why the execution-time recheck refuses an action.
#[derive(Debug, Clone, Copy, PartialEq, Eq, Structural)]
pub enum RecheckFailure {
    CapabilityHidden,
    PermissionMissing,
    ScopeDenied,
    ShellSandbox,
    ShellProgram,
    ShellNetwork,
    ShellCwd,
    FileSandbox,
    FileRoot,
    McpTarget,
    McpSandbox,
    Notification,
    Browser,
    Computer,
    Pty,
    AppApi,
    Remote,
    BackendMismatch,
}

impl RecheckFailure {
    /// The reason the recheck gives.
    pub open spec fn text(self) -> Seq<char> {
        match self {
            RecheckFailure::CapabilityHidden => "capability is not present in the resolved toolset"@,
            RecheckFailure::PermissionMissing => "requested permission is not currently granted"@,
            RecheckFailure::ScopeDenied => "action scope is not currently permitted"@,
            RecheckFailure::ShellSandbox => "shell sandbox is unavailable"@,
            RecheckFailure::ShellProgram => "shell program is not allowlisted"@,
            RecheckFailure::ShellNetwork => "network access is not permitted"@,
            RecheckFailure::ShellCwd => "shell working directory is outside permitted roots"@,
            RecheckFailure::FileSandbox => "file sandbox is unavailable"@,
            RecheckFailure::FileRoot => "file path is outside permitted roots"@,
            RecheckFailure::McpTarget => "MCP target is not allowlisted"@,
            RecheckFailure::McpSandbox => "MCP sandbox is unavailable"@,
            RecheckFailure::Notification => "local notification target or delivery parameters are invalid"@,
            RecheckFailure::Browser => "browser origin or normalized action parameters are invalid"@,
            RecheckFailure::Computer => "computer surface, bounds, or normalized action parameters are invalid"@,
            RecheckFailure::Pty => "PTY program, root, environment, or normalized parameters are invalid"@,
            RecheckFailure::AppApi => "App API connector, schema, endpoint, credential, or operation is invalid"@,
            RecheckFailure::Remote => "remote plan, authority intent, or network permission is invalid"@,
            RecheckFailure::BackendMismatch => "backend and normalized action parameters disagree"@,
        }
    }
}

/// Some root admits `path`.
pub open spec fn some_root_admits(roots: Seq<String>, path: Seq<char>) -> bool {
    exists|i: int| 0 <= i < roots.len() && within_path(#[trigger] roots[i]@, path)
}

/// The MCP allowlist names the server, or the server and tool as `server/tool`.
pub open spec fn mcp_allowed(allow: Seq<String>, server: Seq<char>, tool: Seq<char>) -> bool {
    exists|i: int|
        0 <= i < allow.len() && ((#[trigger] allow[i])@ == server || allow[i]@ == server + seq![
            '/',
        ] + tool)
}

/// A local notification: a delivery with an outward effect, to a
/// `surface:local` surface, with a target, a title and a body that are not
/// blank.
pub open spec fn notification_ok(
    intent: ActionIntent,
    surface: SurfaceRef,
    target: ParticipantId,
    title: String,
    body: crate::primitives::ContentRef,
) -> bool {
    &&& intent.action_type == ActionType::Deliver
    &&& intent.expected_effect == ExpectedEffect::Outward
    &&& starts_with(surface.0@, "surface:local"@)
    &&& !is_blank(target.0@)
    &&& !is_blank(title@)
    &&& !is_blank(body.0@)
}

/// A remote action is admitted: network access, a valid spec (with
/// `host_path` saying whether its parameters name a host path), and an
/// operation that carries the intent's capability, scope, action type,
/// effect and rollback boundary.
pub open spec fn remote_ok(
    ctx: PolicyContext,
    intent: ActionIntent,
    spec: RemoteActionSpec,
    host_path: bool,
) -> bool {
    let op = spec.placement.operation;
    &&& ctx.network_allowed
    &&& spec.valid_given(host_path)
    &&& op.capability.0@ == intent.capability_ref.0@
    &&& op.scope.0@ == intent.scope.0@
    &&& op.action_type == intent.action_type
    &&& op.expected_effect == intent.expected_effect
    &&& op.rollback_boundary.0@ == intent.rollback_expectation.0@
}

/// What the backend-specific recheck refuses, if anything.
pub open spec fn backend_failure(ctx: PolicyContext, intent: ActionIntent, host_path: bool) -> Option<
    RecheckFailure,
> {
    match (intent.backend_hint, intent.parameters) {
        (BackendKind::Shell, ActionParameters::Shell { program, cwd, network, .. }) => {
            if !ctx.sandbox_available {
                Some(RecheckFailure::ShellSandbox)
            } else if !has_text(ctx.shell_allowlist@, program@) {
                Some(RecheckFailure::ShellProgram)
            } else if network && !ctx.network_allowed {
                Some(RecheckFailure::ShellNetwork)
            } else if (match cwd {
                Some(p) => !some_root_admits(ctx.file_roots@, p@),
                None => false,
            }) {
                Some(RecheckFailure::ShellCwd)
            } else {
                None
            }
        },
        (BackendKind::File, ActionParameters::File { path, .. }) => {
            if !ctx.sandbox_available {
                Some(RecheckFailure::FileSandbox)
            } else if !some_root_admits(ctx.file_roots@, path@) {
                Some(RecheckFailure::FileRoot)
            } else {
                None
            }
        },
        (BackendKind::Mcp, ActionParameters::Mcp { server, tool, .. }) => {
            if !mcp_allowed(ctx.mcp_allowlist@, server.0@, tool.0@) {
                Some(RecheckFailure::McpTarget)
            } else if !ctx.sandbox_available {
                Some(RecheckFailure::McpSandbox)
            } else {
                None
            }
        },
        (
            BackendKind::Notification,
            ActionParameters::Notification { surface, target, title, body_ref },
        ) => if notification_ok(intent, surface, target, title, body_ref) {
            None
        } else {
            Some(RecheckFailure::Notification)
        },
        (BackendKind::Browser, ActionParameters::Browser(spec)) => if browser_ok(ctx, intent, spec) {
            None
        } else {
            Some(RecheckFailure::Browser)
        },
        (BackendKind::Computer, ActionParameters::Computer(spec)) => if computer_ok(
            ctx,
            intent,
            spec,
        ) {
            None
        } else {
            Some(RecheckFailure::Computer)
        },
        (BackendKind::Pty, ActionParameters::Pty(spec)) => if pty_ok(ctx, spec) {
            None
        } else {
            Some(RecheckFailure::Pty)
        },
        (BackendKind::AppApi, ActionParameters::AppApi(spec)) => if app_api_ok(ctx, intent, spec) {
            None
        } else {
            Some(RecheckFailure::AppApi)
        },
        (BackendKind::Remote, ActionParameters::Remote(spec)) => if remote_ok(
            ctx,
            intent,
            *spec,
            host_path,
        ) {
            None
        } else {
            Some(RecheckFailure::Remote)
        },
        _ => Some(RecheckFailure::BackendMismatch),
    }
}

/// What the execution-time recheck refuses, if anything: a capability the
/// toolset does not show, a permission not granted, a scope not permitted,
/// then what the backend's own recheck refuses.
pub open spec fn recheck_failure(ctx: PolicyContext, intent: ActionIntent, host_path: bool) -> Option<
    RecheckFailure,
> {
    if !has_text(ctx.visible_capabilities@, intent.capability_ref.0@) {
        Some(RecheckFailure::CapabilityHidden)
    } else if !covers(intent.requested_permissions@, ctx.granted_permissions@) {
        Some(RecheckFailure::PermissionMissing)
    } else if !(exists|i: int|
        0 <= i < ctx.allowed_scopes@.len() && scope_covers(
            (#[trigger] ctx.allowed_scopes@[i]).0@,
            intent.scope.0@,
        )) {
        Some(RecheckFailure::ScopeDenied)
    } else {
        backend_failure(ctx, intent, host_path)
    }
}

/// A remote intent's operation names a host path that leaves the working
/// area on every platform.
pub open spec fn remote_names_leaving_path(intent: ActionIntent) -> bool {
    match intent.parameters {
        ActionParameters::Remote(spec) => names_leaving_path(spec.placement.operation.parameters),
        _ => false,
    }
}

/// Every host path a remote intent's operation names is plain relative;
/// so for every intent that is not remote.
pub open spec fn remote_names_plain_paths(intent: ActionIntent) -> bool {
    match intent.parameters {
        ActionParameters::Remote(spec) => names_plain_paths(spec.placement.operation.parameters),
        _ => true,
    }
}

/// The host paths a remote intent's operation names; none for other intents.
pub open spec fn remote_host_paths(intent: ActionIntent) -> Seq<Seq<char>> {
    match intent.parameters {
        ActionParameters::Remote(spec) => host_paths(spec.placement.operation.parameters),
        _ => Seq::empty(),
    }
}

pub open spec fn failure_text(f: Option<RecheckFailure>) -> Option<Seq<char>> {
    match f {
        Some(x) => Some(x.text()),
        None => None,
    }
}

pub open spec fn str_view(r: Option<&str>) -> Option<Seq<char>> {
    match r {
        Some(t) => Some(t@),
        None => None,
    }
}

fn some_scope_admits(scopes: &Vec<Scope>, requested: &Scope) -> (r: bool)
    ensures
        r == exists|i: int|
            0 <= i < scopes@.len() && scope_covers((#[trigger] scopes@[i]).0@, requested.0@),
{
    let mut i: usize = 0;
    while i < scopes.len()
        invariant
            i <= scopes.len(),
            forall|j: int| 0 <= j < i ==> !scope_covers((#[trigger] scopes@[j]).0@, requested.0@),
        decreases scopes.len() - i,
    {
        if scope_contains(&scopes[i], requested) {
            return true;
        }
        i = i + 1;
    }
    false
}

/// `a` is `s`, a `/`, then `t`.
fn is_server_tool(a: &str, s: &str, t: &str) -> (r: bool)
    ensures
        r == (a@ == s@ + seq!['/'] + t@),
{
    let n = a.unicode_len();
    let ns = s.unicode_len();
    let nt = t.unicode_len();
    if n < 1 || n - 1 < ns || n - 1 - ns != nt {
        proof {
            if a@ == s@ + seq!['/'] + t@ {
                assert(a@.len() == ns + 1 + nt);
            }
        }
        return false;
    }
    let ghost w = s@ + seq!['/'] + t@;
    let mut i: usize = 0;
    while i < n
        invariant
            n == a@.len(),
            ns == s@.len(),
            nt == t@.len(),
            n == ns + 1 + nt,
            w == s@ + seq!['/'] + t@,
            i <= n,
            forall|j: int| 0 <= j < i ==> a@[j] == w[j],
        decreases n - i,
    {
        let expected = if i < ns {
            s.get_char(i)
        } else if i == ns {
            '/'
        } else {
            t.get_char(i - ns - 1)
        };
        assert(expected == w[i as int]);
        if a.get_char(i) != expected {
            return false;
        }
        i = i + 1;
    }
    assert(a@ =~= w);
    true
}

fn check_mcp_allowed(allow: &Vec<String>, server: &McpServerRef, tool: &ToolRef) -> (r: bool)
    ensures
        r == mcp_allowed(allow@, server.0@, tool.0@),
{
    let mut i: usize = 0;
    while i < allow.len()
        invariant
            i <= allow.len(),
            forall|j: int|
                0 <= j < i ==> !((#[trigger] allow@[j])@ == server.0@ || allow@[j]@ == server.0@
                    + seq!['/'] + tool.0@),
        decreases allow.len() - i,
    {
        if same_text(&allow[i], &server.0) || is_server_tool(
            allow[i].as_str(),
            server.0.as_str(),
            tool.0.as_str(),
        ) {
            return true;
        }
        i = i + 1;
    }
    false
}

fn check_remote(ctx: &PolicyContext, intent: &ActionIntent, spec: &RemoteActionSpec, host_path: bool) -> (r:
    bool)
    ensures
        r == remote_ok(*ctx, *intent, *spec, host_path),
{
    let op = &spec.placement.operation;
    ctx.network_allowed && spec.check(host_path).is_ok() && same_text(
        &op.capability.0,
        &intent.capability_ref.0,
    ) && same_text(&op.scope.0, &intent.scope.0) && op.action_type == intent.action_type
        && op.expected_effect == intent.expected_effect && same_text(
        &op.rollback_boundary.0,
        &intent.rollback_expectation.0,
    )
}

/// The recheck, with `host_path` standing for whether a remote intent's
/// parameters name a host path.
fn recheck_given(ctx: &PolicyContext, intent: &ActionIntent, host_path: bool) -> (r: Option<
    &'static str,
>)
    ensures
        str_view(r) == failure_text(recheck_failure(*ctx, *intent, host_path)),
{
    if !check_has_text(&ctx.visible_capabilities, &intent.capability_ref.0) {
        return Some("capability is not present in the resolved toolset");
    }
    if !permissions_contain(&ctx.granted_permissions, &intent.requested_permissions) {
        return Some("requested permission is not currently granted");
    }
    if !some_scope_admits(&ctx.allowed_scopes, &intent.scope) {
        return Some("action scope is not currently permitted");
    }
    match (&intent.backend_hint, &intent.parameters) {
        (BackendKind::Shell, ActionParameters::Shell { program, cwd, network, .. }) => {
            if !ctx.sandbox_available {
                return Some("shell sandbox is unavailable");
            }
            if !check_has_text(&ctx.shell_allowlist, program) {
                return Some("shell program is not allowlisted");
            }
            if *network && !ctx.network_allowed {
                return Some("network access is not permitted");
            }
            let outside = match cwd {
                Some(path) => !any_root_within(&ctx.file_roots, path.as_str()),
                None => false,
            };
            if outside {
                return Some("shell working directory is outside permitted roots");
            }
        },
        (BackendKind::File, ActionParameters::File { path, .. }) => {
            if !ctx.sandbox_available {
                return Some("file sandbox is unavailable");
            }
            if !any_root_within(&ctx.file_roots, path.as_str()) {
                return Some("file path is outside permitted roots");
            }
        },
        (BackendKind::Mcp, ActionParameters::Mcp { server, tool, .. }) => {
            if !check_mcp_allowed(&ctx.mcp_allowlist, server, tool) {
                return Some("MCP target is not allowlisted");
            }
            if !ctx.sandbox_available {
                return Some("MCP sandbox is unavailable");
            }
        },
        (
            BackendKind::Notification,
            ActionParameters::Notification { surface, target, title, body_ref },
        ) => {
            if intent.action_type != ActionType::Deliver || intent.expected_effect
                != ExpectedEffect::Outward || !text_starts_with(surface.0.as_str(), "surface:local")
                || blank(target.0.as_str()) || blank(title.as_str()) || blank(
                body_ref.0.as_str(),
            ) {
                return Some("local notification target or delivery parameters are invalid");
            }
        },
        (BackendKind::Browser, ActionParameters::Browser(spec)) => {
            if validate_browser(ctx, intent, spec).is_err() {
                return Some("browser origin or normalized action parameters are invalid");
            }
        },
        (BackendKind::Computer, ActionParameters::Computer(spec)) => {
            if validate_computer(ctx, intent, spec).is_err() {
                return Some("computer surface, bounds, or normalized action parameters are invalid");
            }
        },
        (BackendKind::Pty, ActionParameters::Pty(spec)) => {
            if validate_pty(ctx, spec).is_err() {
                return Some("PTY program, root, environment, or normalized parameters are invalid");
            }
        },
        (BackendKind::AppApi, ActionParameters::AppApi(spec)) => {
            if validate_app_api(ctx, intent, spec).is_err() {
                return Some(
                    "App API connector, schema, endpoint, credential, or operation is invalid",
                );
            }
        },
        (BackendKind::Remote, ActionParameters::Remote(spec)) => {
            if !check_remote(ctx, intent, spec, host_path) {
                return Some("remote plan, authority intent, or network permission is invalid");
            }
        },
        _ => return Some("backend and normalized action parameters disagree"),
    }
    None
}

/// Rechecks an action against the resolved toolset and the runtime's
/// limits at execution time; the reason it is refused, if it is. Whether a
/// remote operation names a host path is decided by the platform's path
/// rules; the result is exact where every one is plain relative (or there
/// is none), and where one starts with `/` or has a `..` segment.
pub fn execution_recheck(ctx: &PolicyContext, intent: &ActionIntent) -> (r: Option<&'static str>)
    ensures
        remote_host_paths(*intent).len() == 0 ==> str_view(r) == failure_text(
            recheck_failure(*ctx, *intent, false),
        ),
        remote_names_leaving_path(*intent) ==> str_view(r) == failure_text(
            recheck_failure(*ctx, *intent, true),
        ),
        remote_names_plain_paths(*intent) ==> str_view(r) == failure_text(
            recheck_failure(*ctx, *intent, false),
        ),
        str_view(r) == failure_text(recheck_failure(*ctx, *intent, false)) || str_view(r)
            == failure_text(recheck_failure(*ctx, *intent, true)),
{
    let host_path = match &intent.parameters {
        ActionParameters::Remote(spec) => contains_host_path(&spec.placement.operation.parameters),
        _ => false,
    };
    recheck_given(ctx, intent, host_path)
}

/// An envelope admits an intent: it grants the intent's capability, its
/// scope covers the intent's, it allows the action type and risk, its
/// timebox admits the request time, it carries a budget, and the intent
/// meets its rollback requirement.
pub open spec fn envelope_admits(e: AutonomyEnvelope, intent: ActionIntent) -> bool {
    &&& has_text(e.capability.capabilities@, intent.capability_ref.0@)
    &&& scope_covers(e.scope.0@, intent.scope.0@)
    &&& e.action_type@.contains(intent.action_type)
    &&& crate::provider::risk_level(intent.risk_hint) <= crate::provider::risk_level(e.risk_limit)
    &&& timebox_admits(e.timebox, intent.requested_at)
    &&& e.budget.0@.len() > 0
    &&& rollback_met(e.rollback, intent)
}

/// Where an intent stands against a granted and a runtime envelope:
/// permissions are checked first, then what both envelopes admit, then
/// their approval rules (a deny anywhere refuses, an ask anywhere asks).
pub open spec fn envelope_decision(
    granted: AutonomyEnvelope,
    runtime: AutonomyEnvelope,
    intent: ActionIntent,
) -> EnvelopeDecision {
    if !covers(intent.requested_permissions@, granted.capability.permissions@) || !covers(
        intent.requested_permissions@,
        runtime.capability.permissions@,
    ) {
        EnvelopeDecision::OutOfScope
    } else if !envelope_admits(granted, intent) || !envelope_admits(runtime, intent) {
        EnvelopeDecision::OutOfScope
    } else if granted.approval_rule == ApprovalRule::Deny || runtime.approval_rule
        == ApprovalRule::Deny {
        EnvelopeDecision::OutOfScope
    } else if granted.approval_rule == ApprovalRule::Ask || runtime.approval_rule
        == ApprovalRule::Ask {
        EnvelopeDecision::NeedsApproval
    } else {
        EnvelopeDecision::Within
    }
}

fn risk_order(risk: Risk) -> (r: u8)
    ensures
        r == crate::provider::risk_level(risk),
{
    match risk {
        Risk::Low => 0,
        Risk::Medium => 1,
        Risk::High => 2,
    }
}

fn action_type_listed(v: &Vec<ActionType>, a: ActionType) -> (r: bool)
    ensures
        r == v@.contains(a),
{
    let mut i: usize = 0;
    while i < v.len()
        invariant
            i <= v.len(),
            forall|j: int| 0 <= j < i ==> v@[j] != a,
        decreases v.len() - i,
    {
        if v[i] == a {
            assert(v@[i as int] == a);
            return true;
        }
        i = i + 1;
    }
    false
}

fn admits(e: &AutonomyEnvelope, intent: &ActionIntent) -> (r: bool)
    ensures
        r == envelope_admits(*e, *intent),
{
    check_has_text(&e.capability.capabilities, &intent.capability_ref.0) && scope_contains(
        &e.scope,
        &intent.scope,
    ) && action_type_listed(&e.action_type, intent.action_type) && risk_order(intent.risk_hint)
        <= risk_order(e.risk_limit) && timebox_contains(&e.timebox, intent.requested_at)
        && !e.budget.0.as_str().is_empty() && rollback_satisfies(&e.rollback, intent)
}

/// The decision of the last applicable rule that is stricter than every one
/// before it: rules are read in order, and one replaces the current choice
/// only when it is strictly stricter.
pub open spec fn rule_applies(rule: RuleView, intent: ActionIntent) -> bool {
    scope_covers(rule.scope, intent.scope.0@) && matcher_applies(rule.matcher, intent)
}

pub open spec fn pick(
    acc: Option<(PolicyDecision, PolicyLayerSource)>,
    rule: RuleView,
    source: PolicyLayerSource,
    intent: ActionIntent,
) -> Option<(PolicyDecision, PolicyLayerSource)> {
    if rule_applies(rule, intent) && match acc {
        None => true,
        Some(c) => decision_level(rule.effect) > decision_level(c.0),
    } {
        Some((rule.effect, source))
    } else {
        acc
    }
}

pub open spec fn pick_rules(
    acc: Option<(PolicyDecision, PolicyLayerSource)>,
    rules: Seq<RuleView>,
    source: PolicyLayerSource,
    intent: ActionIntent,
) -> Option<(PolicyDecision, PolicyLayerSource)>
    decreases rules.len(),
{
    if rules.len() == 0 {
        acc
    } else {
        pick(pick_rules(acc, rules.drop_last(), source, intent), rules.last(), source, intent)
    }
}

/// The strictest applicable rule's decision over all layers, with the
/// layer that first reached it.
pub open spec fn pick_layers(layers: Seq<LayerView>, intent: ActionIntent) -> Option<
    (PolicyDecision, PolicyLayerSource),
>
    decreases layers.len(),
{
    if layers.len() == 0 {
        None
    } else {
        pick_rules(
            pick_layers(layers.drop_last(), intent),
            layers.last().rules,
            layers.last().source,
            intent,
        )
    }
}

/// What the rules decide: the strictest applicable rule and its layer, or a
/// final deny when none applies.
pub open spec fn rule_outcome(ctx: PolicyContext, intent: ActionIntent) -> (
    PolicyDecision,
    Seq<char>,
    Seq<char>,
) {
    match pick_layers(ctx.policy.layer_views(), intent) {
        Some(c) => (c.0, c.1.name(), "matched the effective policy"@),
        None => (PolicyDecision::Deny, "final"@, "no effective policy rule matched the action"@),
    }
}

/// The evaluation of an intent: the recheck refuses first; then a
/// delegation and runtime envelope, which must come together, may refuse
/// or ask; then the rules decide.
pub open spec fn evaluation_outcome(ctx: PolicyContext, intent: ActionIntent, host_path: bool) -> (
    PolicyDecision,
    Seq<char>,
    Seq<char>,
) {
    match recheck_failure(ctx, intent, host_path) {
        Some(f) => (PolicyDecision::Deny, "execution-recheck"@, f.text()),
        None => match (ctx.delegation, ctx.envelope) {
            (Some(grant), Some(env)) => match envelope_decision(grant.envelope, env, intent) {
                EnvelopeDecision::OutOfScope => (
                    PolicyDecision::Deny,
                    "delegation-envelope"@,
                    "action is outside the active delegated envelope"@,
                ),
                EnvelopeDecision::NeedsApproval => (
                    PolicyDecision::Ask,
                    "delegation-envelope"@,
                    "active delegated envelope requires approval"@,
                ),
                EnvelopeDecision::Within => rule_outcome(ctx, intent),
            },
            (None, None) => rule_outcome(ctx, intent),
            _ => (
                PolicyDecision::Deny,
                "delegation-envelope"@,
                "delegation and runtime envelope must be supplied together"@,
            ),
        },
    }
}

/// The outcome of a policy evaluation, for a check against a result.
#[derive(Debug, Clone, PartialEq, Eq)]
pub struct PolicyEvaluation {
    pub schema_version: SchemaVersion,
    pub decision: PolicyDecision,
    pub rule_source: RuleSourceRef,
    pub reason: ReasonRef,
}

impl PolicyEvaluation {
    pub open spec fn outcome(&self) -> (PolicyDecision, Seq<char>, Seq<char>) {
        (self.decision, self.rule_source.0@, self.reason.0@)
    }

    /// The payload of the `ToolPolicyEvaluated` event that records this
    /// evaluation.
    pub open spec fn payload(&self) -> ToolPolicyEvaluatedPayload {
        ToolPolicyEvaluatedPayload {
            decision: self.decision,
            rule_source: self.rule_source,
            reason: self.reason,
        }
    }

    pub fn event_payload(&self) -> (r: EventPayload)
        ensures
            r.kind == EventKind::ToolPolicyEvaluated,
            r.body@ == self.payload().put_canonical(Seq::empty()),
    {
        let payload = ToolPolicyEvaluatedPayload {
            decision: self.decision,
            rule_source: self.rule_source.duplicate(),
            reason: self.reason.duplicate(),
        };
        payload.to_event_payload()
    }
}

fn evaluation(decision: PolicyDecision, source: &str, reason: &str) -> (r: PolicyEvaluation)
    ensures
        r.schema_version == SchemaVersion(1),
        r.outcome() == (decision, source@, reason@),
{
    PolicyEvaluation {
        schema_version: SchemaVersion(1),
        decision,
        rule_source: RuleSourceRef(source.to_owned()),
        reason: ReasonRef(reason.to_owned()),
    }
}

/// The layers of one source level, in order.
pub open spec fn of_level(layers: Seq<LayerView>, level: nat) -> Seq<LayerView>
    decreases layers.len(),
{
    if layers.len() == 0 {
        Seq::empty()
    } else {
        let p = of_level(layers.drop_last(), level);
        if layers.last().source.level() == level {
            p.push(layers.last())
        } else {
            p
        }
    }
}

/// The layers of the levels below `n`, level by level, each in its given order.
pub open spec fn ranked_below(layers: Seq<LayerView>, n: nat) -> Seq<LayerView>
    decreases n,
{
    if n == 0 {
        Seq::empty()
    } else {
        ranked_below(layers, (n - 1) as nat) + of_level(layers, (n - 1) as nat)
    }
}

/// The merge order: layers by source, from managed to final; layers of one
/// source keep their given order.
pub open spec fn merged(layers: Seq<LayerView>) -> Seq<LayerView> {
    ranked_below(layers, 9)
}

/// Applies a rule set and engages delegated envelopes.
pub trait PolicyEngine {
    fn merge(&self, layers: &[PolicyLayer]) -> EffectivePolicy;

    fn evaluate(&self, ctx: &PolicyContext, intent: &ActionIntent) -> PolicyDecision;

    fn enforce_envelope(
        &self,
        grant: &DelegationGrant,
        env: &AutonomyEnvelope,
        intent: &ActionIntent,
    ) -> EnvelopeDecision;
}

/// The policy engine of the runtime.
#[derive(Debug, Default, Clone, Copy)]
pub struct DefaultPolicyEngine;

impl DefaultPolicyEngine {
    pub fn evaluate_detailed(&self, context: &PolicyContext, intent: &ActionIntent) -> (r:
        PolicyEvaluation)
        ensures
            r.schema_version == SchemaVersion(1),
            remote_host_paths(*intent).len() == 0 ==> r.outcome() == evaluation_outcome(
                *context,
                *intent,
                false,
            ),
            remote_names_leaving_path(*intent) ==> r.outcome() == evaluation_outcome(
                *context,
                *intent,
                true,
            ),
            remote_names_plain_paths(*intent) ==> r.outcome() == evaluation_outcome(
                *context,
                *intent,
                false,
            ),
            r.outcome() == evaluation_outcome(*context, *intent, false) || r.outcome()
                == evaluation_outcome(*context, *intent, true),
    {
        if let Some(reason) = execution_recheck(context, intent) {
            return evaluation(PolicyDecision::Deny, "execution-recheck", reason);
        }
        match (&context.delegation, &context.envelope) {
            (Some(grant), Some(envelope)) => {
                match self.enforce_envelope(grant, envelope, intent) {
                    EnvelopeDecision::OutOfScope => {
                        return evaluation(
                            PolicyDecision::Deny,
                            "delegation-envelope",
                            "action is outside the active delegated envelope",
                        );
                    },
                    EnvelopeDecision::NeedsApproval => {
                        return evaluation(
                            PolicyDecision::Ask,
                            "delegation-envelope",
                            "active delegated envelope requires approval",
                        );
                    },
                    EnvelopeDecision::Within => {},
                }
            },
            (None, None) => {},
            _ => {
                return evaluation(
                    PolicyDecision::Deny,
                    "delegation-envelope",
                    "delegation and runtime envelope must be supplied together",
                );
            },
        }
        let layers = context.policy.layers();
        let ghost lv = context.policy.layer_views();
        let mut selected: Option<(PolicyDecision, PolicyLayerSource)> = None;
        let mut i: usize = 0;
        while i < layers.len()
            invariant
                i <= layers@.len(),
                lv == views_of(layers@),
                selected == pick_layers(lv.subrange(0, i as int), *intent),
            decreases layers.len() - i,
        {
            let layer = &layers[i];
            let ghost start = selected;
            let mut j: usize = 0;
            while j < layer.rules.len()
                invariant
                    j <= layer.rules@.len(),
                    layer.rules@.len() == lv[i as int].rules.len(),
                    lv[i as int] == layer@,
                    selected == pick_rules(
                        start,
                        lv[i as int].rules.subrange(0, j as int),
                        layer.source,
                        *intent,
                    ),
                decreases layer.rules.len() - j,
            {
                let rule = &layer.rules[j];
                proof {
                    assert(lv[i as int].rules[j as int] == rule@);
                    let s = lv[i as int].rules.subrange(0, j as int + 1);
                    assert(s.drop_last() =~= lv[i as int].rules.subrange(0, j as int));
                }
                let stricter = match &selected {
                    None => true,
                    Some(c) => decision_rank(rule.effect) > decision_rank(c.0),
                };
                if scope_contains(&rule.scope, &intent.scope) && rule.matcher.matches(intent)
                    && stricter {
                    selected = Some((rule.effect, layer.source));
                }
                j = j + 1;
            }
            proof {
                assert(lv[i as int].rules.subrange(0, j as int) =~= lv[i as int].rules);
                let s = lv.subrange(0, i as int + 1);
                assert(s.drop_last() =~= lv.subrange(0, i as int));
                assert(s.last() == lv[i as int]);
            }
            i = i + 1;
        }
        proof {
            assert(lv.subrange(0, i as int) =~= lv);
        }
        match selected {
            Some((decision, source)) => evaluation(
                decision,
                source.as_str(),
                "matched the effective policy",
            ),
            None => evaluation(
                PolicyDecision::Deny,
                "final",
                "no effective policy rule matched the action",
            ),
        }
    }
}

impl PolicyEngine for DefaultPolicyEngine {
    fn merge(&self, layers: &[PolicyLayer]) -> (r: EffectivePolicy)
        ensures
            r.version() == SchemaVersion(1),
            r.layer_views() == merged(views_of(layers@)),
    {
        let ghost lv = views_of(layers@);
        let mut out: Vec<PolicyLayer> = Vec::new();
        let mut level: u8 = 0;
        while level < 9
            invariant
                level <= 9,
                lv == views_of(layers@),
                views_of(out@) == ranked_below(lv, level as nat),
            decreases 9 - level,
        {
            let ghost base = views_of(out@);
            let mut k: usize = 0;
            while k < layers.len()
                invariant
                    k <= layers@.len(),
                    level < 9,
                    lv == views_of(layers@),
                    base == ranked_below(lv, level as nat),
                    views_of(out@) == base + of_level(lv.subrange(0, k as int), level as nat),
                decreases layers.len() - k,
            {
                let ghost before = out@;
                let ghost s = lv.subrange(0, k as int + 1);
                proof {
                    assert(s.drop_last() =~= lv.subrange(0, k as int));
                    assert(s.last() == layers@[k as int]@);
                }
                if layers[k].source.rank() == level {
                    let x = layers[k].replica();
                    out.push(x);
                    proof {
                        assert(views_of(out@) =~= views_of(before).push(x@));
                    }
                } else {
                    proof {
                        assert(views_of(out@) == views_of(before));
                    }
                }
                k = k + 1;
            }
            proof {
                assert(lv.subrange(0, k as int) =~= lv);
            }
            level = level + 1;
        }
        EffectivePolicy { schema_version: SchemaVersion(1), layers: out }
    }

    fn evaluate(&self, context: &PolicyContext, intent: &ActionIntent) -> (r: PolicyDecision)
        ensures
            remote_host_paths(*intent).len() == 0 ==> r == evaluation_outcome(
                *context,
                *intent,
                false,
            ).0,
            remote_names_leaving_path(*intent) ==> r == evaluation_outcome(
                *context,
                *intent,
                true,
            ).0,
            remote_names_plain_paths(*intent) ==> r == evaluation_outcome(
                *context,
                *intent,
                false,
            ).0,
            r == evaluation_outcome(*context, *intent, false).0 || r == evaluation_outcome(
                *context,
                *intent,
                true,
            ).0,
    {
        self.evaluate_detailed(context, intent).decision
    }

    fn enforce_envelope(
        &self,
        grant: &DelegationGrant,
        runtime: &AutonomyEnvelope,
        intent: &ActionIntent,
    ) -> (r: EnvelopeDecision)
        ensures
            r == envelope_decision(grant.envelope, *runtime, *intent),
    {
        let granted = &grant.envelope;
        if !permissions_contain(&granted.capability.permissions, &intent.requested_permissions)
            || !permissions_contain(&runtime.capability.permissions, &intent.requested_permissions) {
            return EnvelopeDecision::OutOfScope;
        }
        if !admits(granted, intent) || !admits(runtime, intent) {
            return EnvelopeDecision::OutOfScope;
        }
        if granted.approval_rule == ApprovalRule::Deny || runtime.approval_rule == ApprovalRule::Deny {
            EnvelopeDecision::OutOfScope
        } else if granted.approval_rule == ApprovalRule::Ask || runtime.approval_rule
            == ApprovalRule::Ask {
            EnvelopeDecision::NeedsApproval
        } else {
            EnvelopeDecision::Within
        }
    }
}

/// The decision of a selection.
pub open spec fn chosen_decision(c: Option<(PolicyDecision, PolicyLayerSource)>) -> PolicyDecision {
    match c {
        Some(x) => x.0,
        None => PolicyDecision::Deny,
    }
}

/// The layer source of a selection.
pub open spec fn chosen_source(c: Option<(PolicyDecision, PolicyLayerSource)>) -> PolicyLayerSource {
    match c {
        Some(x) => x.1,
        None => PolicyLayerSource::Final,
    }
}

proof fn lemma_pick_rules_strictest(
    acc: Option<(PolicyDecision, PolicyLayerSource)>,
    rules: Seq<RuleView>,
    source: PolicyLayerSource,
    intent: ActionIntent,
)
    ensures
        acc is Some ==> pick_rules(acc, rules, source, intent) is Some && decision_level(
            chosen_decision(pick_rules(acc, rules, source, intent)),
        ) >= decision_level(chosen_decision(acc)),
        forall|j: int|
            0 <= j < rules.len() && rule_applies(#[trigger] rules[j], intent) ==> pick_rules(
                acc,
                rules,
                source,
                intent,
            ) is Some && decision_level(chosen_decision(pick_rules(acc, rules, source, intent)))
                >= decision_level(rules[j].effect),
    decreases rules.len(),
{
    if rules.len() > 0 {
        let prev = rules.drop_last();
        lemma_pick_rules_strictest(acc, prev, source, intent);
        assert forall|j: int|
            0 <= j < rules.len() && rule_applies(#[trigger] rules[j], intent) implies pick_rules(
            acc,
            rules,
            source,
            intent,
        ) is Some && decision_level(chosen_decision(pick_rules(acc, rules, source, intent)))
            >= decision_level(rules[j].effect) by {
            if j < rules.len() - 1 {
                assert(prev[j] == rules[j]);
            }
        }
    }
}

proof fn lemma_pick_rules_origin(
    acc: Option<(PolicyDecision, PolicyLayerSource)>,
    rules: Seq<RuleView>,
    source: PolicyLayerSource,
    intent: ActionIntent,
)
    ensures
        pick_rules(acc, rules, source, intent) == acc || (pick_rules(acc, rules, source, intent)
            is Some && chosen_source(pick_rules(acc, rules, source, intent)) == source && exists|j: int|
            0 <= j < rules.len() && rule_applies(#[trigger] rules[j], intent) && rules[j].effect
                == chosen_decision(pick_rules(acc, rules, source, intent))),
    decreases rules.len(),
{
    if rules.len() > 0 {
        let prev = rules.drop_last();
        lemma_pick_rules_origin(acc, prev, source, intent);
        let r = pick_rules(acc, rules, source, intent);
        let p = pick_rules(acc, prev, source, intent);
        if r != p {
            assert(rules[rules.len() - 1] == rules.last());
        } else if p != acc {
            let j = choose|j: int|
                0 <= j < prev.len() && rule_applies(#[trigger] prev[j], intent) && prev[j].effect
                    == chosen_decision(p);
            assert(rules[j] == prev[j]);
        }
    }
}

/// The rules cannot be relaxed: whatever layer a rule stands in, when it
/// applies, the selection is at least as strict as its decision.
pub proof fn lemma_selection_is_strictest(layers: Seq<LayerView>, intent: ActionIntent, i: int, j: int)
    requires
        0 <= i < layers.len(),
        0 <= j < layers[i].rules.len(),
        rule_applies(layers[i].rules[j], intent),
    ensures
        pick_layers(layers, intent) is Some,
        decision_level(chosen_decision(pick_layers(layers, intent))) >= decision_level(
            layers[i].rules[j].effect,
        ),
    decreases layers.len(),
{
    let prev = layers.drop_last();
    let last = layers.last();
    lemma_pick_rules_strictest(pick_layers(prev, intent), last.rules, last.source, intent);
    if i < layers.len() - 1 {
        assert(prev[i] == layers[i]);
        lemma_selection_is_strictest(prev, intent, i, j);
    }
}

/// Strictness runs allow, ask, deny: with no delegation and a passing
/// recheck, an applicable deny rule in any layer makes the evaluation deny,
/// and an applicable ask rule keeps it from allowing, whatever the other
/// layers and rules say.
pub proof fn lemma_deny_and_ask_are_never_relaxed(
    ctx: PolicyContext,
    intent: ActionIntent,
    host_path: bool,
    i: int,
    j: int,
)
    requires
        recheck_failure(ctx, intent, host_path) is None,
        ctx.delegation is None,
        ctx.envelope is None,
        0 <= i < ctx.policy.layer_views().len(),
        0 <= j < ctx.policy.layer_views()[i].rules.len(),
        rule_applies(ctx.policy.layer_views()[i].rules[j], intent),
    ensures
        ctx.policy.layer_views()[i].rules[j].effect == PolicyDecision::Deny ==> evaluation_outcome(
            ctx,
            intent,
            host_path,
        ).0 == PolicyDecision::Deny,
        ctx.policy.layer_views()[i].rules[j].effect == PolicyDecision::Ask ==> evaluation_outcome(
            ctx,
            intent,
            host_path,
        ).0 != PolicyDecision::Allow,
{
    lemma_selection_is_strictest(ctx.policy.layer_views(), intent, i, j);
}

/// The choice so far is a deny.
pub open spec fn chose_deny(c: Option<(PolicyDecision, PolicyLayerSource)>) -> bool {
    c matches Some(x) && x.0 == PolicyDecision::Deny
}

/// Some rule of the list applies and denies.
pub open spec fn has_applicable_deny(rules: Seq<RuleView>, intent: ActionIntent) -> bool {
    exists|j: int|
        0 <= j < rules.len() && rule_applies(#[trigger] rules[j], intent) && rules[j].effect
            == PolicyDecision::Deny
}

proof fn lemma_deny_choice_stays(
    acc: Option<(PolicyDecision, PolicyLayerSource)>,
    rules: Seq<RuleView>,
    source: PolicyLayerSource,
    intent: ActionIntent,
)
    requires
        chose_deny(acc),
    ensures
        pick_rules(acc, rules, source, intent) == acc,
    decreases rules.len(),
{
    if rules.len() > 0 {
        lemma_deny_choice_stays(acc, rules.drop_last(), source, intent);
    }
}

proof fn lemma_rules_without_deny(
    acc: Option<(PolicyDecision, PolicyLayerSource)>,
    rules: Seq<RuleView>,
    source: PolicyLayerSource,
    intent: ActionIntent,
)
    requires
        !chose_deny(acc),
        !has_applicable_deny(rules, intent),
    ensures
        !chose_deny(pick_rules(acc, rules, source, intent)),
    decreases rules.len(),
{
    if rules.len() > 0 {
        assert(!has_applicable_deny(rules.drop_last(), intent)) by {
            if has_applicable_deny(rules.drop_last(), intent) {
                let j = choose|j: int|
                    0 <= j < rules.drop_last().len() && rule_applies(#[trigger] rules.drop_last()[j], intent)
                        && rules.drop_last()[j].effect == PolicyDecision::Deny;
                assert(rules[j] == rules.drop_last()[j]);
            }
        }
        lemma_rules_without_deny(acc, rules.drop_last(), source, intent);
        assert(rules.last() == rules[rules.len() - 1]);
    }
}

proof fn lemma_rules_with_deny(
    acc: Option<(PolicyDecision, PolicyLayerSource)>,
    rules: Seq<RuleView>,
    source: PolicyLayerSource,
    intent: ActionIntent,
)
    requires
        !chose_deny(acc),
        has_applicable_deny(rules, intent),
    ensures
        pick_rules(acc, rules, source, intent) == Some((PolicyDecision::Deny, source)),
    decreases rules.len(),
{
    let prev = rules.drop_last();
    if has_applicable_deny(prev, intent) {
        lemma_rules_with_deny(acc, prev, source, intent);
    } else {
        lemma_rules_without_deny(acc, prev, source, intent);
        let j = choose|j: int|
            0 <= j < rules.len() && rule_applies(#[trigger] rules[j], intent) && rules[j].effect
                == PolicyDecision::Deny;
        if j < rules.len() - 1 {
            assert(prev[j] == rules[j]);
        }
    }
}

proof fn lemma_layers_without_deny(layers: Seq<LayerView>, intent: ActionIntent)
    requires
        forall|i: int| 0 <= i < layers.len() ==> !has_applicable_deny(#[trigger] layers[i].rules, intent),
    ensures
        !chose_deny(pick_layers(layers, intent)),
    decreases layers.len(),
{
    if layers.len() > 0 {
        let prev = layers.drop_last();
        assert forall|i: int| 0 <= i < prev.len() implies !has_applicable_deny(#[trigger] prev[i].rules, intent) by {
            assert(prev[i] == layers[i]);
        }
        lemma_layers_without_deny(prev, intent);
        assert(layers.last() == layers[layers.len() - 1]);
        lemma_rules_without_deny(pick_layers(prev, intent), layers.last().rules, layers.last().source, intent);
    }
}

/// An earlier layer's deny is never taken over by a later layer: when some
/// applicable rule denies, the selection is a deny from the first layer
/// holding such a rule.
pub proof fn lemma_first_denying_layer_decides(layers: Seq<LayerView>, intent: ActionIntent, i: int)
    requires
        0 <= i < layers.len(),
        has_applicable_deny(layers[i].rules, intent),
        forall|k: int| 0 <= k < i ==> !has_applicable_deny(#[trigger] layers[k].rules, intent),
    ensures
        pick_layers(layers, intent) == Some((PolicyDecision::Deny, layers[i].source)),
    decreases layers.len(),
{
    let prev = layers.drop_last();
    let last = layers.last();
    if i == layers.len() - 1 {
        assert forall|k: int| 0 <= k < prev.len() implies !has_applicable_deny(#[trigger] prev[k].rules, intent) by {
            assert(prev[k] == layers[k]);
        }
        lemma_layers_without_deny(prev, intent);
        lemma_rules_with_deny(pick_layers(prev, intent), last.rules, last.source, intent);
    } else {
        assert(prev[i] == layers[i]);
        assert forall|k: int| 0 <= k < i implies !has_applicable_deny(#[trigger] prev[k].rules, intent) by {
            assert(prev[k] == layers[k]);
        }
        lemma_first_denying_layer_decides(prev, intent, i);
        lemma_deny_choice_stays(pick_layers(prev, intent), last.rules, last.source, intent);
    }
}

/// What the rules select comes from an applicable rule, with its decision
/// and its layer's source; nothing is selected when no rule applies.
pub proof fn lemma_selection_comes_from_a_rule(layers: Seq<LayerView>, intent: ActionIntent)
    ensures
        pick_layers(layers, intent) is Some ==> exists|i: int, j: int|
            0 <= i < layers.len() && 0 <= j < layers[i].rules.len() && rule_applies(
                #[trigger] layers[i].rules[j],
                intent,
            ) && layers[i].rules[j].effect == chosen_decision(pick_layers(layers, intent))
                && layers[i].source == chosen_source(pick_layers(layers, intent)),
    decreases layers.len(),
{
    if layers.len() > 0 {
        let prev = layers.drop_last();
        let last = layers.last();
        let n = layers.len() - 1;
        lemma_selection_comes_from_a_rule(prev, intent);
        lemma_pick_rules_origin(pick_layers(prev, intent), last.rules, last.source, intent);
        let r = pick_layers(layers, intent);
        if r is Some {
            if r == pick_layers(prev, intent) {
                let (i, j) = choose|i: int, j: int|
                    0 <= i < prev.len() && 0 <= j < prev[i].rules.len() && rule_applies(
                        #[trigger] prev[i].rules[j],
                        intent,
                    ) && prev[i].rules[j].effect == chosen_decision(pick_layers(prev, intent))
                        && prev[i].source == chosen_source(pick_layers(prev, intent));
                assert(layers[i] == prev[i]);
                assert(rule_applies(layers[i].rules[j], intent));
            } else {
                let j = choose|j: int|
                    0 <= j < last.rules.len() && rule_applies(#[trigger] last.rules[j], intent)
                        && last.rules[j].effect == chosen_decision(r);
                assert(layers[n] == last);
                assert(rule_applies(layers[n].rules[j], intent));
            }
        }
    }
}

/// An evaluation the execution-time recheck refuses is a deny, whatever
/// the rules say.
pub proof fn lemma_recheck_refusal_denies(ctx: PolicyContext, intent: ActionIntent, host_path: bool)
    requires
        recheck_failure(ctx, intent, host_path) is Some,
    ensures
        evaluation_outcome(ctx, intent, host_path).0 == PolicyDecision::Deny,
        evaluation_outcome(ctx, intent, host_path).1 == "execution-recheck"@,
{
}

/// Without delegation, once the recheck passes, the evaluation is at least
/// as strict as every applicable rule of every layer: a later layer cannot
/// relax an earlier deny or ask.
pub proof fn lemma_evaluation_not_relaxed(
    ctx: PolicyContext,
    intent: ActionIntent,
    host_path: bool,
    i: int,
    j: int,
)
    requires
        recheck_failure(ctx, intent, host_path) is None,
        ctx.delegation is None,
        ctx.envelope is None,
        0 <= i < ctx.policy.layer_views().len(),
        0 <= j < ctx.policy.layer_views()[i].rules.len(),
        rule_applies(ctx.policy.layer_views()[i].rules[j], intent),
    ensures
        decision_level(evaluation_outcome(ctx, intent, host_path).0) >= decision_level(
            ctx.policy.layer_views()[i].rules[j].effect,
        ),
{
    lemma_selection_is_strictest(ctx.policy.layer_views(), intent, i, j);
}

/// An action under delegation that is not denied stays inside both the
/// granted and the runtime envelope: its permissions are granted by both,
/// both admit it, and neither denies.
pub proof fn lemma_delegated_action_stays_inside(
    ctx: PolicyContext,
    intent: ActionIntent,
    host_path: bool,
)
    requires
        ctx.delegation is Some,
        evaluation_outcome(ctx, intent, host_path).0 != PolicyDecision::Deny,
    ensures
        ctx.envelope is Some,
        covers(intent.requested_permissions@, ctx.delegation->0.envelope.capability.permissions@),
        covers(intent.requested_permissions@, ctx.envelope->0.capability.permissions@),
        envelope_admits(ctx.delegation->0.envelope, intent),
        envelope_admits(ctx.envelope->0, intent),
        ctx.delegation->0.envelope.approval_rule != ApprovalRule::Deny,
        ctx.envelope->0.approval_rule != ApprovalRule::Deny,
{
}

/// An envelope decision that lets an action through (within, or after
/// approval) means both envelopes grant its permissions and admit it; a
/// `Within` means both allow it outright.
pub proof fn lemma_envelope_decision_inside(
    granted: AutonomyEnvelope,
    runtime: AutonomyEnvelope,
    intent: ActionIntent,
)
    ensures
        envelope_decision(granted, runtime, intent) != EnvelopeDecision::OutOfScope ==> {
            &&& covers(intent.requested_permissions@, granted.capability.permissions@)
            &&& covers(intent.requested_permissions@, runtime.capability.permissions@)
            &&& envelope_admits(granted, intent)
            &&& envelope_admits(runtime, intent)
        },
        envelope_decision(granted, runtime, intent) == EnvelopeDecision::Within ==> granted.approval_rule
            == ApprovalRule::Allow && runtime.approval_rule == ApprovalRule::Allow,
{
}

proof fn lemma_of_level_levels(layers: Seq<LayerView>, level: nat)
    ensures
        forall|k: int|
            0 <= k < of_level(layers, level).len() ==> (#[trigger] of_level(layers, level)[k]).source.level()
                == level,
    decreases layers.len(),
{
    if layers.len() > 0 {
        lemma_of_level_levels(layers.drop_last(), level);
    }
}

proof fn lemma_ranked_below_sorted(layers: Seq<LayerView>, n: nat)
    ensures
        forall|k: int|
            0 <= k < ranked_below(layers, n).len() ==> (#[trigger] ranked_below(layers, n)[k]).source.level()
                < n,
        forall|a: int, b: int|
            0 <= a < b < ranked_below(layers, n).len() ==> (#[trigger] ranked_below(
                layers,
                n,
            )[a]).source.level() <= (#[trigger] ranked_below(layers, n)[b]).source.level(),
    decreases n,
{
    if n > 0 {
        let m = (n - 1) as nat;
        lemma_ranked_below_sorted(layers, m);
        lemma_of_level_levels(layers, m);
        let p = ranked_below(layers, m);
        let q = of_level(layers, m);
        let r = ranked_below(layers, n);
        assert(r == p + q);
        assert forall|k: int| 0 <= k < r.len() implies (#[trigger] r[k]).source.level() < n by {
            if k < p.len() {
                assert(r[k] == p[k]);
            } else {
                assert(r[k] == q[k - p.len()]);
            }
        }
        assert forall|a: int, b: int| 0 <= a < b < r.len() implies (#[trigger] r[a]).source.level()
            <= (#[trigger] r[b]).source.level() by {
            if b < p.len() {
                assert(r[a] == p[a] && r[b] == p[b]);
            } else if a < p.len() {
                assert(r[a] == p[a] && r[b] == q[b - p.len()]);
            } else {
                assert(r[a] == q[a - p.len()] && r[b] == q[b - p.len()]);
            }
        }
    }
}

/// The merge orders layers by source, from managed policy to the final
/// layer.
pub proof fn lemma_merge_is_ordered(layers: Seq<LayerView>)
    ensures
        forall|a: int, b: int|
            0 <= a < b < merged(layers).len() ==> (#[trigger] merged(layers)[a]).source.level()
                <= (#[trigger] merged(layers)[b]).source.level(),
{
    lemma_ranked_below_sorted(layers, 9);
}

proof fn lemma_of_level_concat(a: Seq<LayerView>, b: Seq<LayerView>, level: nat)
    ensures
        of_level(a + b, level) == of_level(a, level) + of_level(b, level),
    decreases b.len(),
{
    if b.len() == 0 {
        assert(a + b =~= a);
        assert(of_level(a, level) + of_level(b, level) =~= of_level(a, level));
    } else {
        lemma_of_level_concat(a, b.drop_last(), level);
        assert((a + b).drop_last() =~= a + b.drop_last());
        assert((a + b).last() == b.last());
        if b.last().source.level() == level {
            assert(of_level(a, level) + of_level(b.drop_last(), level).push(b.last()) =~= (
            of_level(a, level) + of_level(b.drop_last(), level)).push(b.last()));
        }
    }
}

proof fn lemma_of_level_twice(s: Seq<LayerView>, m: nat, level: nat)
    ensures
        of_level(of_level(s, m), level) == if m == level {
            of_level(s, m)
        } else {
            Seq::empty()
        },
    decreases s.len(),
{
    if s.len() > 0 {
        lemma_of_level_twice(s.drop_last(), m, level);
        let p = of_level(s.drop_last(), m);
        if s.last().source.level() == m {
            assert(p.push(s.last()).drop_last() =~= p);
        }
    }
}

proof fn lemma_ranked_below_of_level(layers: Seq<LayerView>, n: nat, level: nat)
    ensures
        of_level(ranked_below(layers, n), level) == if level < n {
            of_level(layers, level)
        } else {
            Seq::empty()
        },
    decreases n,
{
    if n > 0 {
        let m = (n - 1) as nat;
        lemma_ranked_below_of_level(layers, m, level);
        lemma_of_level_concat(ranked_below(layers, m), of_level(layers, m), level);
        lemma_of_level_twice(layers, m, level);
        if level < m {
            assert(of_level(layers, level) + Seq::empty() =~= of_level(layers, level));
        } else if level == m {
            assert(Seq::empty() + of_level(layers, level) =~= of_level(layers, level));
        } else {
            assert(Seq::<LayerView>::empty() + Seq::empty() =~= Seq::<LayerView>::empty());
        }
    }
}

proof fn lemma_no_level_beyond(layers: Seq<LayerView>, level: nat)
    requires
        level >= 9,
    ensures
        of_level(layers, level) == Seq::<LayerView>::empty(),
    decreases layers.len(),
{
    if layers.len() > 0 {
        lemma_no_level_beyond(layers.drop_last(), level);
    }
}

/// The merge keeps, for every source, exactly that source's layers in
/// their given order.
pub proof fn lemma_merge_keeps_each_source(layers: Seq<LayerView>, level: nat)
    ensures
        of_level(merged(layers), level) == of_level(layers, level),
{
    lemma_ranked_below_of_level(layers, 9, level);
    if level >= 9 {
        lemma_no_level_beyond(layers, level);
    }
}


} // verus!
