//! The canonical JSON form of protocol objects: compact, fields in
//! declaration order, strings escaped as `serde_json` escapes them. Digests
//! of protocol objects are taken over this form.
use vstd::prelude::*;

use crate::digest::{content_digest_text, is_canonical_digest, sha256_content_digest};
use crate::primitives::SchemaDigest;
use crate::text::{utf8_of, Textual};

verus! {

/// The escaped form of one byte inside a JSON string.
pub open spec fn escape_byte(b: u8) -> Seq<u8> {
    if b == 0x22 {
        seq![0x5cu8, 0x22u8]
    } else if b == 0x5c {
        seq![0x5cu8, 0x5cu8]
    } else if b == 0x08 {
        seq![0x5cu8, 0x62u8]
    } else if b == 0x0c {
        seq![0x5cu8, 0x66u8]
    } else if b == 0x0a {
        seq![0x5cu8, 0x6eu8]
    } else if b == 0x0d {
        seq![0x5cu8, 0x72u8]
    } else if b == 0x09 {
        seq![0x5cu8, 0x74u8]
    } else if b < 0x20 {
        seq![0x5cu8, 0x75u8, 0x30u8, 0x30u8, hex_byte(b / 16), hex_byte(b % 16)]
    } else {
        seq![b]
    }
}

pub open spec fn hex_byte(n: u8) -> u8 {
    if n < 10 {
        (48 + n) as u8
    } else {
        (87 + n) as u8
    }
}

pub open spec fn escaped(bytes: Seq<u8>) -> Seq<u8>
    decreases bytes.len(),
{
    if bytes.len() == 0 {
        Seq::empty()
    } else {
        escaped(bytes.drop_last()) + escape_byte(bytes.last())
    }
}

/// A JSON string holding the text `s`.
pub open spec fn json_string(s: Seq<char>) -> Seq<u8> {
    seq![0x22u8] + escaped(utf8_of(s)) + seq![0x22u8]
}

/// The decimal digits of a natural number.
pub open spec fn decimal(n: nat) -> Seq<u8>
    decreases n,
{
    if n < 10 {
        seq![(48 + n) as u8]
    } else {
        decimal(n / 10).push((48 + n % 10) as u8)
    }
}

/// A JSON integer.
pub open spec fn json_int(n: int) -> Seq<u8> {
    if n < 0 {
        seq![0x2du8] + decimal((-n) as nat)
    } else {
        decimal(n as nat)
    }
}

pub open spec fn json_bool(b: bool) -> Seq<u8> {
    if b {
        seq![0x74u8, 0x72u8, 0x75u8, 0x65u8]
    } else {
        seq![0x66u8, 0x61u8, 0x6cu8, 0x73u8, 0x65u8]
    }
}

pub open spec fn json_null() -> Seq<u8> {
    seq![0x6eu8, 0x75u8, 0x6cu8, 0x6cu8]
}

/// `acc` followed by the key `k` and its colon.
pub open spec fn with_key(acc: Seq<u8>, k: Seq<char>) -> Seq<u8> {
    acc + json_string(k) + seq![0x3au8]
}

/// A JSON array of strings, written after `acc`.
pub open spec fn with_texts<T: Textual>(acc: Seq<u8>, v: Seq<T>) -> Seq<u8> {
    acc + seq![0x5bu8] + joined_texts(v) + seq![0x5du8]
}

pub open spec fn joined_texts<T: Textual>(v: Seq<T>) -> Seq<u8>
    decreases v.len(),
{
    if v.len() == 0 {
        Seq::empty()
    } else if v.len() == 1 {
        json_string(v[0].text())
    } else {
        joined_texts(v.drop_last()) + seq![0x2cu8] + json_string(v.last().text())
    }
}

/// An optional string: `null` or the string.
pub open spec fn json_opt_text(t: Option<Seq<char>>) -> Seq<u8> {
    match t {
        Some(s) => json_string(s),
        None => json_null(),
    }
}

fn hex_u8(n: u8) -> (r: u8)
    requires
        n < 16,
    ensures
        r == hex_byte(n),
{
    if n < 10 {
        48 + n
    } else {
        87 + n
    }
}

fn put_escaped_byte(buf: &mut Vec<u8>, b: u8)
    ensures
        final(buf)@ == old(buf)@ + escape_byte(b),
{
    if b == 0x22 {
        buf.push(0x5c);
        buf.push(0x22);
    } else if b == 0x5c {
        buf.push(0x5c);
        buf.push(0x5c);
    } else if b == 0x08 {
        buf.push(0x5c);
        buf.push(0x62);
    } else if b == 0x0c {
        buf.push(0x5c);
        buf.push(0x66);
    } else if b == 0x0a {
        buf.push(0x5c);
        buf.push(0x6e);
    } else if b == 0x0d {
        buf.push(0x5c);
        buf.push(0x72);
    } else if b == 0x09 {
        buf.push(0x5c);
        buf.push(0x74);
    } else if b < 0x20 {
        buf.push(0x5c);
        buf.push(0x75);
        buf.push(0x30);
        buf.push(0x30);
        buf.push(hex_u8(b / 16));
        buf.push(hex_u8(b % 16));
    } else {
        buf.push(b);
    }
    assert(buf@ =~= old(buf)@ + escape_byte(b));
}

/// Appends the JSON string holding `s`.
pub fn put_str(buf: &mut Vec<u8>, s: &str)
    ensures
        final(buf)@ == old(buf)@ + json_string(s@),
{
    let bytes = s.as_bytes();
    let ghost start = buf@;
    buf.push(0x22);
    let mut i: usize = 0;
    while i < bytes.len()
        invariant
            i <= bytes.len(),
            bytes@ == utf8_of(s@),
            buf@ == start + seq![0x22u8] + escaped(bytes@.subrange(0, i as int)),
        decreases bytes.len() - i,
    {
        put_escaped_byte(buf, bytes[i]);
        proof {
            assert(bytes@.subrange(0, i + 1).drop_last() =~= bytes@.subrange(0, i as int));
            assert(buf@ =~= start + seq![0x22u8] + escaped(bytes@.subrange(0, i + 1)));
        }
        i = i + 1;
    }
    buf.push(0x22);
    assert(bytes@.subrange(0, i as int) =~= bytes@);
    assert(buf@ =~= start + json_string(s@));
}

/// Appends the decimal digits of `n`.
pub fn put_decimal(buf: &mut Vec<u8>, n: u64)
    ensures
        final(buf)@ == old(buf)@ + decimal(n as nat),
    decreases n,
{
    if n >= 10 {
        put_decimal(buf, n / 10);
    }
    buf.push((48 + n % 10) as u8);
    if n < 10 {
        assert(buf@ =~= old(buf)@ + decimal(n as nat));
    } else {
        assert(buf@ =~= old(buf)@ + decimal(n as nat));
    }
}

pub fn put_u64(buf: &mut Vec<u8>, n: u64)
    ensures
        final(buf)@ == old(buf)@ + json_int(n as int),
{
    put_decimal(buf, n);
}

pub fn put_i64(buf: &mut Vec<u8>, n: i64)
    ensures
        final(buf)@ == old(buf)@ + json_int(n as int),
{
    if n < 0 {
        buf.push(0x2d);
        let magnitude: u64 = if n == i64::MIN {
            9223372036854775808u64
        } else {
            (-n) as u64
        };
        put_decimal(buf, magnitude);
        assert(buf@ =~= old(buf)@ + json_int(n as int));
    } else {
        put_decimal(buf, n as u64);
    }
}

pub fn put_bool(buf: &mut Vec<u8>, b: bool)
    ensures
        final(buf)@ == old(buf)@ + json_bool(b),
{
    if b {
        buf.push(0x74);
        buf.push(0x72);
        buf.push(0x75);
        buf.push(0x65);
    } else {
        buf.push(0x66);
        buf.push(0x61);
        buf.push(0x6c);
        buf.push(0x73);
        buf.push(0x65);
    }
    assert(buf@ =~= old(buf)@ + json_bool(b));
}

pub fn put_null(buf: &mut Vec<u8>)
    ensures
        final(buf)@ == old(buf)@ + json_null(),
{
    buf.push(0x6e);
    buf.push(0x75);
    buf.push(0x6c);
    buf.push(0x6c);
    assert(buf@ =~= old(buf)@ + json_null());
}

/// Appends one punctuation byte.
pub fn put_mark(buf: &mut Vec<u8>, b: u8)
    ensures
        final(buf)@ == old(buf)@ + seq![b],
{
    buf.push(b);
    assert(buf@ =~= old(buf)@ + seq![b]);
}

/// Appends a key and its colon.
pub fn put_key(buf: &mut Vec<u8>, k: &str)
    ensures
        final(buf)@ == with_key(old(buf)@, k@),
{
    put_str(buf, k);
    buf.push(0x3a);
    assert(buf@ =~= with_key(old(buf)@, k@));
}

pub fn put_opt_text(buf: &mut Vec<u8>, t: Option<&String>)
    ensures
        final(buf)@ == old(buf)@ + json_opt_text(
            match t {
                Some(s) => Some(s@),
                None => None,
            },
        ),
{
    match t {
        Some(s) => put_str(buf, s.as_str()),
        None => put_null(buf),
    }
}

/// Appends a JSON array of strings.
pub fn put_texts<T: Textual>(buf: &mut Vec<u8>, v: &Vec<T>)
    ensures
        final(buf)@ == with_texts(old(buf)@, v@),
{
    let ghost start = buf@;
    buf.push(0x5b);
    let mut i: usize = 0;
    while i < v.len()
        invariant
            i <= v.len(),
            buf@ == start + seq![0x5bu8] + joined_texts(v@.subrange(0, i as int)),
        decreases v.len() - i,
    {
        if i > 0 {
            buf.push(0x2c);
        }
        put_str(buf, v[i].as_text().as_str());
        proof {
            assert(v@.subrange(0, i + 1).drop_last() =~= v@.subrange(0, i as int));
            if i == 0 {
                assert(joined_texts(v@.subrange(0, 0)) =~= Seq::<u8>::empty());
            }
            assert(buf@ =~= start + seq![0x5bu8] + joined_texts(v@.subrange(0, i + 1)));
        }
        i = i + 1;
    }
    buf.push(0x5d);
    assert(v@.subrange(0, i as int) =~= v@);
    assert(buf@ =~= with_texts(start, v@));
}

/// A field-less enumeration value that travels as its variant's name.
pub trait Named {
    spec fn wire_name(&self) -> Seq<char>;

    fn wire_str(&self) -> (r: &'static str)
        ensures
            r@ == self.wire_name(),
    ;
}

/// A JSON array of enumeration names, written after `acc`.
pub open spec fn with_names<T: Named>(acc: Seq<u8>, v: Seq<T>) -> Seq<u8> {
    acc + seq![0x5bu8] + joined_names(v) + seq![0x5du8]
}

pub open spec fn joined_names<T: Named>(v: Seq<T>) -> Seq<u8>
    decreases v.len(),
{
    if v.len() == 0 {
        Seq::empty()
    } else if v.len() == 1 {
        json_string(v[0].wire_name())
    } else {
        joined_names(v.drop_last()) + seq![0x2cu8] + json_string(v.last().wire_name())
    }
}

pub fn put_names<T: Named>(buf: &mut Vec<u8>, v: &Vec<T>)
    ensures
        final(buf)@ == with_names(old(buf)@, v@),
{
    let ghost start = buf@;
    buf.push(0x5b);
    let mut i: usize = 0;
    while i < v.len()
        invariant
            i <= v.len(),
            buf@ == start + seq![0x5bu8] + joined_names(v@.subrange(0, i as int)),
        decreases v.len() - i,
    {
        if i > 0 {
            buf.push(0x2c);
        }
        put_str(buf, v[i].wire_str());
        proof {
            assert(v@.subrange(0, i + 1).drop_last() =~= v@.subrange(0, i as int));
            if i == 0 {
                assert(joined_names(v@.subrange(0, 0)) =~= Seq::<u8>::empty());
            }
            assert(buf@ =~= start + seq![0x5bu8] + joined_names(v@.subrange(0, i + 1)));
        }
        i = i + 1;
    }
    buf.push(0x5d);
    assert(v@.subrange(0, i as int) =~= v@);
    assert(buf@ =~= with_names(start, v@));
}

/// Appends the UTF-8 bytes of `s` as they are: text that already is JSON.
pub fn put_raw(buf: &mut Vec<u8>, s: &str)
    ensures
        final(buf)@ == old(buf)@ + utf8_of(s@),
{
    let bytes = s.as_bytes();
    let ghost start = buf@;
    let mut i: usize = 0;
    while i < bytes.len()
        invariant
            i <= bytes.len(),
            bytes@ == utf8_of(s@),
            buf@ == start + bytes@.subrange(0, i as int),
        decreases bytes.len() - i,
    {
        buf.push(bytes[i]);
        i = i + 1;
        assert(buf@ =~= start + bytes@.subrange(0, i as int));
    }
    assert(bytes@.subrange(0, i as int) =~= bytes@);
}

/// A JSON array of byte values, written after `acc`.
pub open spec fn with_byte_array(acc: Seq<u8>, v: Seq<u8>) -> Seq<u8> {
    joined_bytes(acc + seq![0x5bu8], v) + seq![0x5du8]
}

pub open spec fn joined_bytes(acc: Seq<u8>, v: Seq<u8>) -> Seq<u8>
    decreases v.len(),
{
    if v.len() == 0 {
        acc
    } else if v.len() == 1 {
        acc + decimal(v[0] as nat)
    } else {
        joined_bytes(acc, v.drop_last()) + seq![0x2cu8] + decimal(v.last() as nat)
    }
}

pub fn put_byte_array(buf: &mut Vec<u8>, v: &Vec<u8>)
    ensures
        final(buf)@ == with_byte_array(old(buf)@, v@),
{
    let ghost start = buf@;
    buf.push(0x5b);
    let ghost open_acc = start + seq![0x5bu8];
    assert(buf@ =~= open_acc);
    let mut i: usize = 0;
    while i < v.len()
        invariant
            i <= v.len(),
            buf@ == joined_bytes(open_acc, v@.subrange(0, i as int)),
        decreases v.len() - i,
    {
        let ghost next = v@.subrange(0, i + 1);
        proof {
            assert(next.drop_last() =~= v@.subrange(0, i as int));
        }
        if i > 0 {
            buf.push(0x2c);
        }
        put_decimal(buf, v[i] as u64);
        i = i + 1;
    }
    buf.push(0x5d);
    assert(v@.subrange(0, i as int) =~= v@);
}

/// A JSON array of `[key, value]` string pairs, written after `acc`.
pub open spec fn with_pairs(acc: Seq<u8>, v: Seq<(String, String)>) -> Seq<u8> {
    joined_pairs(acc + seq![0x5bu8], v) + seq![0x5du8]
}

pub open spec fn pair_text(p: (String, String)) -> Seq<u8> {
    seq![0x5bu8] + json_string(p.0@) + seq![0x2cu8] + json_string(p.1@) + seq![0x5du8]
}

pub open spec fn joined_pairs(acc: Seq<u8>, v: Seq<(String, String)>) -> Seq<u8>
    decreases v.len(),
{
    if v.len() == 0 {
        acc
    } else if v.len() == 1 {
        acc + pair_text(v[0])
    } else {
        joined_pairs(acc, v.drop_last()) + seq![0x2cu8] + pair_text(v.last())
    }
}

pub fn put_pairs(buf: &mut Vec<u8>, v: &Vec<(String, String)>)
    ensures
        final(buf)@ == with_pairs(old(buf)@, v@),
{
    let ghost start = buf@;
    buf.push(0x5b);
    let ghost open_acc = start + seq![0x5bu8];
    assert(buf@ =~= open_acc);
    let mut i: usize = 0;
    while i < v.len()
        invariant
            i <= v.len(),
            buf@ == joined_pairs(open_acc, v@.subrange(0, i as int)),
        decreases v.len() - i,
    {
        let ghost before = buf@;
        let ghost next = v@.subrange(0, i + 1);
        proof {
            assert(next.drop_last() =~= v@.subrange(0, i as int));
        }
        if i > 0 {
            buf.push(0x2c);
        }
        buf.push(0x5b);
        put_str(buf, v[i].0.as_str());
        buf.push(0x2c);
        put_str(buf, v[i].1.as_str());
        buf.push(0x5d);
        proof {
            if i > 0 {
                assert(buf@ =~= before + seq![0x2cu8] + pair_text(v@[i as int]));
            } else {
                assert(buf@ =~= before + pair_text(v@[i as int]));
            }
        }
        i = i + 1;
    }
    buf.push(0x5d);
    assert(v@.subrange(0, i as int) =~= v@);
}

/// The digest of a canonical encoding.
pub open spec fn canonical_digest_text(canonical: Seq<u8>) -> Seq<char> {
    content_digest_text(canonical)
}

/// Digests a canonical encoding.
pub fn canonical_digest(canonical: &Vec<u8>) -> (r: SchemaDigest)
    ensures
        r.0@ == canonical_digest_text(canonical@),
        is_canonical_digest(r.0@),
{
    sha256_content_digest(canonical.as_slice())
}

} // verus!
