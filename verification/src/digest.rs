//! SHA-256 content digests and their `sha256:<hex>` text form.
use sha2::Digest;
use vstd::array::array_fill_for_copy_types;
use vstd::prelude::*;

use crate::primitives::{Error, SchemaDigest};

verus! {

/// The SHA-256 hash of a byte sequence.
pub uninterp spec fn sha256_spec(data: Seq<u8>) -> Seq<u8>;

/// Calls `sha2::Sha256::digest`. Its result is named `sha256_spec` of the
/// input; the contract adds only that a SHA-256 hash is 32 bytes long.
#[verifier::external_body]
fn sha256(data: &[u8]) -> (r: Vec<u8>)
    ensures
        r@ == sha256_spec(data@),
        r@.len() == 32,
{
    sha2::Sha256::digest(data).to_vec()
}

/// Calls `<String as FromIterator<&char>>::from_iter` on a list of
/// characters: the string made of those characters in order.
#[verifier::external_body]
pub(crate) fn string_of_chars(chars: &Vec<char>) -> (r: String)
    ensures
        r@ == chars@,
{
    chars.iter().collect::<String>()
}

/// The lower-case hexadecimal digit of a value below 16.
pub open spec fn hex_digit(n: int) -> char {
    if n < 10 {
        (48 + n) as char
    } else {
        (87 + n) as char
    }
}

/// Two lower-case hexadecimal digits per byte, high nibble first.
pub open spec fn hex_lower(bytes: Seq<u8>) -> Seq<char>
    decreases bytes.len(),
{
    if bytes.len() == 0 {
        Seq::empty()
    } else {
        hex_lower(bytes.drop_last()).push(hex_digit(bytes.last() as int / 16)).push(
            hex_digit(bytes.last() as int % 16),
        )
    }
}

pub open spec fn sha256_prefix() -> Seq<char> {
    seq!['s', 'h', 'a', '2', '5', '6', ':']
}

/// The text of a SHA-256 digest: `sha256:` and the hash in lower-case hex.
pub open spec fn digest_text(hash: Seq<u8>) -> Seq<char> {
    sha256_prefix() + hex_lower(hash)
}

/// The text digest of some content.
pub open spec fn content_digest_text(content: Seq<u8>) -> Seq<char> {
    digest_text(sha256_spec(content))
}

fn hex_char(n: u8) -> (c: char)
    requires
        n < 16,
    ensures
        c == hex_digit(n as int),
{
    if n < 10 {
        (48 + n) as char
    } else {
        (87 + n) as char
    }
}

fn push_prefix(out: &mut Vec<char>)
    ensures
        final(out)@ == old(out)@ + sha256_prefix(),
{
    out.push('s');
    out.push('h');
    out.push('a');
    out.push('2');
    out.push('5');
    out.push('6');
    out.push(':');
    assert(out@ =~= old(out)@ + sha256_prefix());
}

/// The `sha256:<hex>` text of a hash.
pub fn encode_digest(hash: &[u8]) -> (r: SchemaDigest)
    ensures
        r.0@ == digest_text(hash@),
{
    let mut out: Vec<char> = Vec::new();
    push_prefix(&mut out);
    let mut i: usize = 0;
    while i < hash.len()
        invariant
            i <= hash.len(),
            out@ == sha256_prefix() + hex_lower(hash@.subrange(0, i as int)),
        decreases hash.len() - i,
    {
        let b = hash[i];
        out.push(hex_char(b / 16));
        out.push(hex_char(b % 16));
        proof {
            assert(hash@.subrange(0, i + 1).drop_last() =~= hash@.subrange(0, i as int));
            assert(out@ =~= sha256_prefix() + hex_lower(hash@.subrange(0, i + 1)));
        }
        i = i + 1;
    }
    assert(hash@.subrange(0, i as int) =~= hash@);
    SchemaDigest(string_of_chars(&out))
}

/// The content digest of some bytes: `sha256:` and their hash in lower-case hex.
pub fn sha256_content_digest(bytes: &[u8]) -> (r: SchemaDigest)
    ensures
        r.0@ == content_digest_text(bytes@),
        is_canonical_digest(r.0@),
        digest_bytes_of(r.0@) == sha256_spec(bytes@),
{
    let hash = sha256(bytes);
    proof {
        lemma_digest_text_canonical(hash@);
    }
    encode_digest(hash.as_slice())
}

/// An ASCII hexadecimal digit, either case.
pub open spec fn is_hex_char(c: char) -> bool {
    ('0' <= c <= '9') || ('a' <= c <= 'f') || ('A' <= c <= 'F')
}

pub open spec fn hex_value(c: char) -> int {
    if '0' <= c <= '9' {
        c as int - 48
    } else if 'a' <= c <= 'f' {
        c as int - 87
    } else {
        c as int - 55
    }
}

/// A canonical SHA-256 digest text: `sha256:` followed by 64 hex digits.
pub open spec fn is_canonical_digest(t: Seq<char>) -> bool {
    &&& t.len() == 71
    &&& t.subrange(0, 7) == sha256_prefix()
    &&& forall|i: int| 7 <= i < 71 ==> is_hex_char(#[trigger] t[i])
}

/// The 32 bytes a canonical digest text spells out.
pub open spec fn digest_bytes_of(t: Seq<char>) -> Seq<u8> {
    Seq::new(32, |i: int| (16 * hex_value(t[7 + 2 * i]) + hex_value(t[8 + 2 * i])) as u8)
}

fn hex_char_value(c: char) -> (r: Option<u8>)
    ensures
        r is Some <==> is_hex_char(c),
        r matches Some(v) ==> v == hex_value(c) && v < 16,
{
    if '0' <= c && c <= '9' {
        Some(((c as u32) - 48) as u8)
    } else if 'a' <= c && c <= 'f' {
        Some(((c as u32) - 87) as u8)
    } else if 'A' <= c && c <= 'F' {
        Some(((c as u32) - 55) as u8)
    } else {
        None
    }
}

proof fn lemma_hex_digit(n: int)
    requires
        0 <= n < 16,
    ensures
        is_hex_char(hex_digit(n)),
        hex_value(hex_digit(n)) == n,
{
}

/// The hex text of some bytes has two hex digits per byte, spelling the byte.
pub proof fn lemma_hex_lower(b: Seq<u8>)
    ensures
        hex_lower(b).len() == 2 * b.len(),
        forall|i: int| 0 <= i < 2 * b.len() ==> is_hex_char(#[trigger] hex_lower(b)[i]),
        forall|k: int|
            0 <= k < b.len() ==> 16 * hex_value(#[trigger] hex_lower(b)[2 * k]) + hex_value(
                hex_lower(b)[2 * k + 1],
            ) == b[k],
    decreases b.len(),
{
    if b.len() > 0 {
        let p = b.drop_last();
        lemma_hex_lower(p);
        let x = b.last();
        lemma_hex_digit(x as int / 16);
        lemma_hex_digit(x as int % 16);
        let h = hex_lower(b);
        assert(h == hex_lower(p).push(hex_digit(x as int / 16)).push(hex_digit(x as int % 16)));
        assert forall|i: int| 0 <= i < 2 * b.len() implies is_hex_char(#[trigger] h[i]) by {
            if i < 2 * p.len() {
                assert(h[i] == hex_lower(p)[i]);
            }
        }
        assert forall|k: int| 0 <= k < b.len() implies 16 * hex_value(#[trigger] h[2 * k])
            + hex_value(h[2 * k + 1]) == b[k] by {
            if k < p.len() {
                assert(h[2 * k] == hex_lower(p)[2 * k]);
                assert(h[2 * k + 1] == hex_lower(p)[2 * k + 1]);
                assert(b[k] == p[k]);
            } else {
                assert(k == p.len());
                assert(16 * (x as int / 16) + x as int % 16 == x as int);
            }
        }
    }
}

/// The digest text of a 32-byte hash is canonical, and reading it back gives the hash.
pub proof fn lemma_digest_text_canonical(hash: Seq<u8>)
    requires
        hash.len() == 32,
    ensures
        is_canonical_digest(digest_text(hash)),
        digest_bytes_of(digest_text(hash)) == hash,
{
    lemma_hex_lower(hash);
    let t = digest_text(hash);
    let h = hex_lower(hash);
    assert(t.subrange(0, 7) =~= sha256_prefix());
    assert forall|i: int| 7 <= i < 71 implies is_hex_char(#[trigger] t[i]) by {
        assert(t[i] == h[i - 7]);
    }
    assert forall|k: int| 0 <= k < 32 implies #[trigger] digest_bytes_of(t)[k] == hash[k] by {
        assert(t[7 + 2 * k] == h[2 * k]);
        assert(t[8 + 2 * k] == h[2 * k + 1]);
    }
    assert(digest_bytes_of(t) =~= hash);
}

/// Reads the 32 hash bytes out of a `sha256:<64 hex digits>` digest text.
pub fn sha256_digest_bytes(digest: &SchemaDigest) -> (r: Result<[u8; 32], Error>)
    ensures
        r is Ok <==> is_canonical_digest(digest.0@),
        r matches Ok(bytes) ==> bytes@ == digest_bytes_of(digest.0@),
{
    let text = digest.0.as_str();
    let n = text.unicode_len();
    if n < 7 || text.get_char(0) != 's' || text.get_char(1) != 'h' || text.get_char(2) != 'a'
        || text.get_char(3) != '2' || text.get_char(4) != '5' || text.get_char(5) != '6'
        || text.get_char(6) != ':' {
        proof {
            if n >= 7 && digest.0@.subrange(0, 7) == sha256_prefix() {
                assert(digest.0@[0] == digest.0@.subrange(0, 7)[0]);
                assert(digest.0@[1] == digest.0@.subrange(0, 7)[1]);
                assert(digest.0@[2] == digest.0@.subrange(0, 7)[2]);
                assert(digest.0@[3] == digest.0@.subrange(0, 7)[3]);
                assert(digest.0@[4] == digest.0@.subrange(0, 7)[4]);
                assert(digest.0@[5] == digest.0@.subrange(0, 7)[5]);
                assert(digest.0@[6] == digest.0@.subrange(0, 7)[6]);
            }
        }
        return Err(Error("digest is not sha256-prefixed".to_string()));
    }
    proof {
        assert(digest.0@.subrange(0, 7) =~= sha256_prefix());
    }
    if n != 71 {
        return Err(Error("digest is not a canonical sha256 value".to_string()));
    }
    let mut bytes: [u8; 32] = array_fill_for_copy_types(0u8);
    let mut index: usize = 0;
    while index < 32
        invariant
            n == 71,
            n == digest.0@.len(),
            text@ == digest.0@,
            digest.0@.subrange(0, 7) == sha256_prefix(),
            index <= 32,
            bytes@.len() == 32,
            forall|i: int| 7 <= i < 7 + 2 * index ==> is_hex_char(#[trigger] digest.0@[i]),
            forall|k: int|
                0 <= k < index ==> #[trigger] bytes@[k] == digest_bytes_of(digest.0@)[k],
        decreases 32 - index,
    {
        let high = hex_char_value(text.get_char(7 + 2 * index));
        let low = hex_char_value(text.get_char(8 + 2 * index));
        match (high, low) {
            (Some(h), Some(l)) => {
                bytes.set(index, h * 16 + l);
            },
            _ => {
                return Err(Error("digest is not a canonical sha256 value".to_string()));
            },
        }
        index = index + 1;
    }
    assert(bytes@ =~= digest_bytes_of(digest.0@));
    Ok(bytes)
}

} // verus!
