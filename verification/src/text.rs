//! Text predicates shared by the protocol validators.
use vstd::prelude::*;
use vstd::string::*;

verus! {

/// The Unicode `White_Space` property, which is what `char::is_whitespace`
/// and `str::trim` use.
pub open spec fn is_white_space(c: char) -> bool {
    let v = c as u32;
    (0x9 <= v <= 0xd) || v == 0x20 || v == 0x85 || v == 0xa0 || v == 0x1680 || (0x2000 <= v
        <= 0x200a) || v == 0x2028 || v == 0x2029 || v == 0x202f || v == 0x205f || v == 0x3000
}

/// A text is blank when trimming it leaves nothing: every character is white space.
pub open spec fn is_blank(s: Seq<char>) -> bool {
    forall|i: int| 0 <= i < s.len() ==> is_white_space(#[trigger] s[i])
}

pub fn white_space(c: char) -> (r: bool)
    ensures
        r == is_white_space(c),
{
    let v = c as u32;
    (0x9 <= v && v <= 0xd) || v == 0x20 || v == 0x85 || v == 0xa0 || v == 0x1680 || (0x2000 <= v
        && v <= 0x200a) || v == 0x2028 || v == 0x2029 || v == 0x202f || v == 0x205f || v == 0x3000
}

/// `value.trim().is_empty()`.
pub fn blank(value: &str) -> (r: bool)
    ensures
        r == is_blank(value@),
{
    let n = value.unicode_len();
    let mut i: usize = 0;
    while i < n
        invariant
            n == value@.len(),
            i <= n,
            forall|j: int| 0 <= j < i ==> is_white_space(#[trigger] value@[j]),
        decreases n - i,
    {
        let c = value.get_char(i);
        if !white_space(c) {
            return false;
        }
        i = i + 1;
    }
    true
}

/// The UTF-8 bytes of a text, which is what `str` orders and compares by.
pub open spec fn utf8_of(s: Seq<char>) -> Seq<u8> {
    vstd::utf8::encode_utf8(s)
}

/// Byte-wise lexicographic order, read from position `i` on.
pub open spec fn bytes_lt_from(a: Seq<u8>, b: Seq<u8>, i: int) -> bool
    decreases a.len() - i,
{
    if i >= a.len() {
        i < b.len()
    } else if i >= b.len() {
        false
    } else if a[i] < b[i] {
        true
    } else if a[i] > b[i] {
        false
    } else {
        bytes_lt_from(a, b, i + 1)
    }
}

pub open spec fn bytes_lt(a: Seq<u8>, b: Seq<u8>) -> bool {
    bytes_lt_from(a, b, 0)
}

/// `a < b` for two strings: the order of their UTF-8 bytes.
pub open spec fn text_lt(a: Seq<char>, b: Seq<char>) -> bool {
    bytes_lt(utf8_of(a), utf8_of(b))
}

pub fn slice_lt(x: &[u8], y: &[u8]) -> (r: bool)
    ensures
        r == bytes_lt(x@, y@),
{
    let mut i: usize = 0;
    while i < x.len() && i < y.len()
        invariant
            i <= x.len(),
            i <= y.len(),
            bytes_lt_from(x@, y@, 0) == bytes_lt_from(x@, y@, i as int),
        decreases x.len() - i,
    {
        if x[i] < y[i] {
            return true;
        }
        if x[i] > y[i] {
            return false;
        }
        i = i + 1;
    }
    i < y.len() && i >= x.len()
}

/// Byte order is transitive.
pub proof fn lemma_bytes_lt_transitive(a: Seq<u8>, b: Seq<u8>, c: Seq<u8>, i: int)
    requires
        0 <= i,
        bytes_lt_from(a, b, i),
        bytes_lt_from(b, c, i),
    ensures
        bytes_lt_from(a, c, i),
    decreases a.len() - i,
{
    if i < a.len() && i < b.len() && i < c.len() && a[i] == b[i] && b[i] == c[i] {
        lemma_bytes_lt_transitive(a, b, c, i + 1);
    }
}

/// Byte order is asymmetric.
pub proof fn lemma_bytes_lt_asymmetric(a: Seq<u8>, b: Seq<u8>, i: int)
    requires
        0 <= i,
        bytes_lt_from(a, b, i),
    ensures
        !bytes_lt_from(b, a, i),
    decreases a.len() - i,
{
    if i < a.len() && i < b.len() && a[i] == b[i] {
        lemma_bytes_lt_asymmetric(a, b, i + 1);
    }
}

/// Two byte strings neither of which is below the other agree from `i` on.
pub proof fn lemma_bytes_lt_total(a: Seq<u8>, b: Seq<u8>, i: int)
    requires
        0 <= i <= a.len(),
        i <= b.len(),
        !bytes_lt_from(a, b, i),
        !bytes_lt_from(b, a, i),
    ensures
        a.subrange(i, a.len() as int) == b.subrange(i, b.len() as int),
    decreases a.len() - i,
{
    if i < a.len() && i < b.len() {
        lemma_bytes_lt_total(a, b, i + 1);
        assert(a.subrange(i, a.len() as int) =~= seq![a[i]] + a.subrange(i + 1, a.len() as int));
        assert(b.subrange(i, b.len() as int) =~= seq![b[i]] + b.subrange(i + 1, b.len() as int));
    } else {
        assert(a.subrange(i, a.len() as int) =~= Seq::<u8>::empty());
        assert(b.subrange(i, b.len() as int) =~= Seq::<u8>::empty());
    }
}

/// Text order is asymmetric.
pub proof fn lemma_text_lt_asymmetric(x: Seq<char>, y: Seq<char>)
    requires
        text_lt(x, y),
    ensures
        !text_lt(y, x),
{
    lemma_bytes_lt_asymmetric(utf8_of(x), utf8_of(y), 0);
}

/// Text order is transitive.
pub proof fn lemma_text_lt_transitive(x: Seq<char>, y: Seq<char>, z: Seq<char>)
    requires
        text_lt(x, y),
        text_lt(y, z),
    ensures
        text_lt(x, z),
{
    lemma_bytes_lt_transitive(utf8_of(x), utf8_of(y), utf8_of(z), 0);
}

/// Of two texts, one is below the other or they are the same text.
pub proof fn lemma_text_trichotomy(x: Seq<char>, y: Seq<char>)
    ensures
        text_lt(x, y) || text_lt(y, x) || x == y,
{
    if !text_lt(x, y) && !text_lt(y, x) {
        let bx = utf8_of(x);
        let by = utf8_of(y);
        lemma_bytes_lt_total(bx, by, 0);
        assert(bx =~= bx.subrange(0, bx.len() as int));
        assert(by =~= by.subrange(0, by.len() as int));
        vstd::utf8::encode_utf8_decode_utf8(x);
        vstd::utf8::encode_utf8_decode_utf8(y);
    }
}

/// No text is below itself.
pub proof fn lemma_text_lt_irreflexive(x: Seq<char>)
    ensures
        !text_lt(x, x),
{
    if text_lt(x, x) {
        lemma_text_lt_asymmetric(x, x);
    }
}

/// `a < b` on strings.
pub fn text_less(a: &String, b: &String) -> (r: bool)
    ensures
        r == text_lt(a@, b@),
{
    let x = a.as_str().as_bytes();
    let y = b.as_str().as_bytes();
    slice_lt(x, y)
}

/// `a == b` on string slices.
pub fn str_equal(a: &str, b: &str) -> (r: bool)
    ensures
        r == (a@ == b@),
{
    let n = a.unicode_len();
    if n != b.unicode_len() {
        return false;
    }
    let mut i: usize = 0;
    while i < n
        invariant
            n == a@.len(),
            n == b@.len(),
            i <= n,
            forall|j: int| 0 <= j < i ==> a@[j] == b@[j],
        decreases n - i,
    {
        if a.get_char(i) != b.get_char(i) {
            return false;
        }
        i = i + 1;
    }
    assert(a@ =~= b@);
    true
}

/// `a == b` on strings.
pub fn same_text(a: &String, b: &String) -> (r: bool)
    ensures
        r == (a@ == b@),
{
    a.eq(b)
}

/// A value whose identity is one string.
pub trait Textual {
    spec fn text(&self) -> Seq<char>;

    fn as_text(&self) -> (r: &String)
        ensures
            r@ == self.text(),
    ;
}

impl Textual for String {
    open spec fn text(&self) -> Seq<char> {
        self@
    }

    fn as_text(&self) -> (r: &String) {
        self
    }
}

/// A value that can be copied exactly.
pub trait Duplicate: Sized {
    fn duplicate(&self) -> (r: Self)
        ensures
            r == *self,
    ;
}

impl Duplicate for String {
    fn duplicate(&self) -> (r: Self) {
        self.clone()
    }
}

/// An exact copy of every entry, in order.
pub fn duplicate_all<T: Duplicate>(v: &Vec<T>) -> (r: Vec<T>)
    ensures
        r@ == v@,
{
    let mut r: Vec<T> = Vec::new();
    let mut i: usize = 0;
    while i < v.len()
        invariant
            i <= v.len(),
            r@ == v@.subrange(0, i as int),
        decreases v.len() - i,
    {
        r.push(v[i].duplicate());
        i = i + 1;
        assert(r@ =~= v@.subrange(0, i as int));
    }
    assert(r@ =~= v@);
    r
}

/// The texts of a list, in order.
pub open spec fn texts_of<T: Textual>(v: Seq<T>) -> Seq<Seq<char>> {
    v.map_values(|x: T| x.text())
}

/// No entry is blank.
pub open spec fn none_blank<T: Textual>(v: Seq<T>) -> bool {
    forall|i: int| 0 <= i < v.len() ==> !is_blank(#[trigger] v[i].text())
}

/// The list is non-empty and no entry is blank.
pub open spec fn all_filled<T: Textual>(v: Seq<T>) -> bool {
    v.len() > 0 && none_blank(v)
}

/// Each entry is strictly below the next one, so the list is sorted and free of repeats.
pub open spec fn strictly_sorted<T: Textual>(v: Seq<T>) -> bool {
    forall|i: int| 0 <= i < v.len() - 1 ==> text_lt(#[trigger] v[i].text(), v[i + 1].text())
}

/// No two entries carry the same text.
pub open spec fn distinct_texts<T: Textual>(v: Seq<T>) -> bool {
    forall|i: int, j: int|
        0 <= i < v.len() && 0 <= j < v.len() && i != j ==> #[trigger] v[i].text() != #[trigger] v[
            j
        ].text()
}

/// Some entry carries the text `t`.
pub open spec fn has_text<T: Textual>(v: Seq<T>, t: Seq<char>) -> bool {
    exists|i: int| 0 <= i < v.len() && #[trigger] v[i].text() == t
}

pub fn check_none_blank<T: Textual>(v: &Vec<T>) -> (r: bool)
    ensures
        r == none_blank(v@),
{
    let mut i: usize = 0;
    while i < v.len()
        invariant
            i <= v.len(),
            forall|j: int| 0 <= j < i ==> !is_blank(#[trigger] v@[j].text()),
        decreases v.len() - i,
    {
        if blank(v[i].as_text().as_str()) {
            return false;
        }
        i = i + 1;
    }
    true
}

pub fn check_all_filled<T: Textual>(v: &Vec<T>) -> (r: bool)
    ensures
        r == all_filled(v@),
{
    v.len() > 0 && check_none_blank(v)
}

pub fn check_strictly_sorted<T: Textual>(v: &Vec<T>) -> (r: bool)
    ensures
        r == strictly_sorted(v@),
{
    if v.len() < 2 {
        return true;
    }
    let mut i: usize = 0;
    while i + 1 < v.len()
        invariant
            v.len() >= 2,
            i + 1 <= v.len(),
            forall|j: int| 0 <= j < i ==> text_lt(#[trigger] v@[j].text(), v@[j + 1].text()),
        decreases v.len() - i,
    {
        if !text_less(v[i].as_text(), v[i + 1].as_text()) {
            return false;
        }
        i = i + 1;
    }
    true
}

pub fn check_distinct_texts<T: Textual>(v: &Vec<T>) -> (r: bool)
    ensures
        r == distinct_texts(v@),
{
    let mut i: usize = 0;
    while i < v.len()
        invariant
            i <= v.len(),
            forall|a: int, b: int|
                0 <= a < i && 0 <= b < v.len() && a != b ==> #[trigger] v@[a].text()
                    != #[trigger] v@[b].text(),
        decreases v.len() - i,
    {
        let mut j: usize = 0;
        while j < v.len()
            invariant
                i < v.len(),
                j <= v.len(),
                forall|a: int, b: int|
                    0 <= a < i && 0 <= b < v.len() && a != b ==> #[trigger] v@[a].text()
                        != #[trigger] v@[b].text(),
                forall|b: int| 0 <= b < j && b != i ==> v@[i as int].text() != #[trigger] v@[b].text(),
            decreases v.len() - j,
        {
            if j != i && same_text(v[i].as_text(), v[j].as_text()) {
                return false;
            }
            j = j + 1;
        }
        i = i + 1;
    }
    true
}

/// Every text of `a` occurs in `b`.
pub open spec fn covers<T: Textual>(a: Seq<T>, b: Seq<T>) -> bool {
    forall|i: int| 0 <= i < a.len() ==> has_text(b, #[trigger] a[i].text())
}

pub fn check_covers<T: Textual>(a: &Vec<T>, b: &Vec<T>) -> (r: bool)
    ensures
        r == covers(a@, b@),
{
    let mut i: usize = 0;
    while i < a.len()
        invariant
            i <= a.len(),
            forall|j: int| 0 <= j < i ==> has_text(b@, #[trigger] a@[j].text()),
        decreases a.len() - i,
    {
        if !check_has_text(b, a[i].as_text()) {
            return false;
        }
        i = i + 1;
    }
    true
}

/// ASCII upper-case letters turned to lower case, the rest kept.
pub open spec fn ascii_lower_char(c: char) -> char {
    if 'A' <= c <= 'Z' {
        (((c as u8) + 32) as u8) as char
    } else {
        c
    }
}

/// `to_ascii_lowercase` on a text.
pub open spec fn ascii_lower(t: Seq<char>) -> Seq<char> {
    t.map_values(|c: char| ascii_lower_char(c))
}

fn lower_char(c: char) -> (r: char)
    ensures
        r == ascii_lower_char(c),
{
    if 'A' <= c && c <= 'Z' {
        ((c as u8) + 32) as char
    } else {
        c
    }
}

/// Two texts are equal once ASCII letters are folded to lower case.
pub fn same_ascii_lower(a: &str, b: &str) -> (r: bool)
    ensures
        r == (ascii_lower(a@) == ascii_lower(b@)),
{
    let n = a.unicode_len();
    if n != b.unicode_len() {
        proof {
            assert(ascii_lower(a@).len() != ascii_lower(b@).len());
        }
        return false;
    }
    let mut i: usize = 0;
    while i < n
        invariant
            n == a@.len(),
            n == b@.len(),
            i <= n,
            forall|j: int| 0 <= j < i ==> ascii_lower_char(a@[j]) == ascii_lower_char(b@[j]),
        decreases n - i,
    {
        if lower_char(a.get_char(i)) != lower_char(b.get_char(i)) {
            proof {
                assert(ascii_lower(a@)[i as int] != ascii_lower(b@)[i as int]);
            }
            return false;
        }
        i = i + 1;
    }
    assert(ascii_lower(a@) =~= ascii_lower(b@));
    true
}

/// `needle` occurs in `hay` at position `i`.
pub open spec fn occurs_at(hay: Seq<char>, needle: Seq<char>, i: int) -> bool {
    0 <= i && i + needle.len() <= hay.len() && hay.subrange(i, i + needle.len()) == needle
}

/// `needle` occurs somewhere in `hay`.
pub open spec fn contains_text(hay: Seq<char>, needle: Seq<char>) -> bool {
    exists|i: int| #[trigger] occurs_at(hay, needle, i)
}

/// `needle` occurs at position `i` of `value` folded to ASCII lower case.
pub fn lowered_occurs_at(value: &str, needle: &str, i: usize) -> (r: bool)
    ensures
        r == occurs_at(ascii_lower(value@), needle@, i as int),
{
    let n = value.unicode_len();
    let m = needle.unicode_len();
    if m > n || i > n - m {
        return false;
    }
    let mut k: usize = 0;
    while k < m
        invariant
            n == value@.len(),
            m == needle@.len(),
            i + m <= n,
            k <= m,
            forall|j: int| 0 <= j < k ==> ascii_lower_char(value@[i + j]) == needle@[j],
        decreases m - k,
    {
        if lower_char(value.get_char(i + k)) != needle.get_char(k) {
            proof {
                assert(ascii_lower(value@).subrange(i as int, i + m)[k as int] != needle@[k as int]);
            }
            return false;
        }
        k = k + 1;
    }
    assert(ascii_lower(value@).subrange(i as int, i + m) =~= needle@);
    true
}

/// `needle` occurs somewhere in `value` folded to ASCII lower case.
pub fn lowered_contains(value: &str, needle: &str) -> (r: bool)
    ensures
        r == contains_text(ascii_lower(value@), needle@),
{
    let n = value.unicode_len();
    let mut i: usize = 0;
    while i < n
        invariant
            n == value@.len(),
            i <= n,
            forall|j: int| 0 <= j < i ==> !#[trigger] occurs_at(ascii_lower(value@), needle@, j),
        decreases n - i,
    {
        if lowered_occurs_at(value, needle, i) {
            return true;
        }
        i = i + 1;
    }
    if lowered_occurs_at(value, needle, n) {
        return true;
    }
    proof {
        assert forall|j: int| !#[trigger] occurs_at(ascii_lower(value@), needle@, j) by {
            if j > n {
                assert(ascii_lower(value@).len() == n);
            }
        }
    }
    false
}

/// `needle` occurs at position `i` of `value`.
pub fn text_occurs_at(value: &str, needle: &str, i: usize) -> (r: bool)
    ensures
        r == occurs_at(value@, needle@, i as int),
{
    let n = value.unicode_len();
    let m = needle.unicode_len();
    if m > n || i > n - m {
        return false;
    }
    let mut k: usize = 0;
    while k < m
        invariant
            n == value@.len(),
            m == needle@.len(),
            i + m <= n,
            k <= m,
            forall|j: int| 0 <= j < k ==> value@[i + j] == needle@[j],
        decreases m - k,
    {
        if value.get_char(i + k) != needle.get_char(k) {
            proof {
                assert(value@.subrange(i as int, i + m)[k as int] != needle@[k as int]);
            }
            return false;
        }
        k = k + 1;
    }
    assert(value@.subrange(i as int, i + m) =~= needle@);
    true
}

/// `needle` occurs somewhere in `value`.
pub fn text_contains(value: &str, needle: &str) -> (r: bool)
    ensures
        r == contains_text(value@, needle@),
{
    let n = value.unicode_len();
    let mut i: usize = 0;
    while i < n
        invariant
            n == value@.len(),
            i <= n,
            forall|j: int| 0 <= j < i ==> !#[trigger] occurs_at(value@, needle@, j),
        decreases n - i,
    {
        if text_occurs_at(value, needle, i) {
            return true;
        }
        i = i + 1;
    }
    if text_occurs_at(value, needle, n) {
        return true;
    }
    proof {
        assert forall|j: int| !#[trigger] occurs_at(value@, needle@, j) by {
            if j > n {
                assert(value@.len() == n);
            }
        }
    }
    false
}

/// `c` occurs in `value`.
pub fn has_char(value: &str, c: char) -> (r: bool)
    ensures
        r == (exists|i: int| 0 <= i < value@.len() && #[trigger] value@[i] == c),
{
    let n = value.unicode_len();
    let mut i: usize = 0;
    while i < n
        invariant
            n == value@.len(),
            i <= n,
            forall|j: int| 0 <= j < i ==> #[trigger] value@[j] != c,
        decreases n - i,
    {
        if value.get_char(i) == c {
            return true;
        }
        i = i + 1;
    }
    false
}

pub fn check_has_text<T: Textual>(v: &Vec<T>, t: &String) -> (r: bool)
    ensures
        r == has_text(v@, t@),
{
    let mut i: usize = 0;
    while i < v.len()
        invariant
            i <= v.len(),
            forall|j: int| 0 <= j < i ==> #[trigger] v@[j].text() != t@,
        decreases v.len() - i,
    {
        if same_text(v[i].as_text(), t) {
            return true;
        }
        i = i + 1;
    }
    false
}

} // verus!
