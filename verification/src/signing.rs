//! Proof of context: every snippet handed out is signed with HMAC-SHA256 under a
//! key that never leaves the machine, and a signature can be checked again later.
//!
//! The signed payload is `source`, `url`, the first 100 bytes of `content` (cut back to a
//! character boundary) and the timestamp, joined by newlines; the signature is the
//! lowercase hexadecimal rendering of the 32-byte tag.
use hmac::{Hmac, Mac};
use sha2::Sha256;
use vstd::prelude::*;
use vstd::string::StringSliceAdditionalSpecFns;
use vstd::utf8::*;
use crate::text::{dec_int, hex_digit, push_char, push_i64, push_str};

verus! {

broadcast use {vstd::string::group_string_axioms, encode_utf8_valid_utf8, encode_utf8_decode_utf8};

/// The HMAC-SHA256 tag of `msg` under `key`, as computed by the `hmac` and `sha2` crates.
pub uninterp spec fn hmac_sha256(key: Seq<u8>, msg: Seq<u8>) -> Seq<u8>;

/// Calls `Hmac::<Sha256>::new_from_slice`, `Mac::update` with the UTF-8 bytes of `msg`, and
/// `Mac::finalize`. Claimed: the tag is `hmac_sha256(key, bytes of msg)` and is 32 bytes
/// long (the output size of SHA-256); a key of any length is accepted by HMAC, so the
/// constructor does not fail.
#[verifier::external_body]
fn hmac_sha256_tag(key: &[u8; 32], msg: &str) -> (tag: Vec<u8>)
    ensures
        tag@ == hmac_sha256(key@, msg.spec_bytes()),
        tag@.len() == 32,
{
    let mut mac = <Hmac<Sha256> as Mac>::new_from_slice(key).expect("HMAC accepts any key size");
    mac.update(msg.as_bytes());
    mac.finalize().into_bytes().to_vec()
}

/// Lowercase hexadecimal rendering of bytes, two digits per byte, high nibble first.
pub open spec fn hex_lower(bytes: Seq<u8>) -> Seq<char>
    decreases bytes.len(),
{
    if bytes.len() == 0 {
        seq![]
    } else {
        seq![hex_digit((bytes[0] / 16) as int), hex_digit((bytes[0] % 16) as int)] + hex_lower(bytes.drop_first())
    }
}

/// Whether `c` is one of the lowercase hexadecimal digits.
pub open spec fn is_hex_lower_digit(c: char) -> bool {
    ('0' <= c && c <= '9') || ('a' <= c && c <= 'f')
}

/// Hexadecimal rendering doubles the length and uses only lowercase hexadecimal digits.
pub proof fn lemma_hex_lower_shape(bytes: Seq<u8>)
    ensures
        hex_lower(bytes).len() == 2 * bytes.len(),
        forall|i: int| 0 <= i < hex_lower(bytes).len() ==> is_hex_lower_digit(#[trigger] hex_lower(bytes)[i]),
    decreases bytes.len(),
{
    if bytes.len() > 0 {
        lemma_hex_lower_shape(bytes.drop_first());
        let h = seq![hex_digit((bytes[0] / 16) as int), hex_digit((bytes[0] % 16) as int)];
        assert forall|i: int| 0 <= i < hex_lower(bytes).len() implies is_hex_lower_digit(
            #[trigger] hex_lower(bytes)[i],
        ) by {
            if i >= 2 {
                assert(hex_lower(bytes)[i] == hex_lower(bytes.drop_first())[i - 2]);
            }
        }
    }
}

/// Calls `hex::encode`. Claimed: the result is `hex_lower(bytes)`, which is what the crate
/// documents and its source does (table `0123456789abcdef`, high nibble first).
#[verifier::external_body]
fn hex_encode(bytes: &[u8]) -> (s: String)
    ensures
        s@ == hex_lower(bytes@),
{
    hex::encode(bytes)
}

/// The largest character boundary of `bytes` that is at most `e` (0 when there is none above 0).
pub open spec fn boundary_floor(bytes: Seq<u8>, e: int) -> int
    decreases e,
{
    if e <= 0 {
        0
    } else if is_char_boundary(bytes, e) {
        e
    } else {
        boundary_floor(bytes, e - 1)
    }
}

/// Number of bytes kept by [`first_chars`]: the largest character boundary not beyond `n`
/// bytes nor beyond the end.
pub open spec fn first_chars_end(bytes: Seq<u8>, n: int) -> int {
    boundary_floor(bytes, if n < bytes.len() { n } else { bytes.len() as int })
}

/// The longest prefix of `s` whose UTF-8 encoding takes at most `n` bytes.
pub open spec fn first_chars_spec(s: Seq<char>, n: int) -> Seq<char> {
    decode_utf8(encode_utf8(s).take(first_chars_end(encode_utf8(s), n)))
}

proof fn lemma_boundary_floor(bytes: Seq<u8>, m: int, e: int)
    requires
        0 <= e <= m,
        e == 0 || is_char_boundary(bytes, e),
        forall|j: int| e < j <= m ==> !is_char_boundary(bytes, j),
    ensures
        boundary_floor(bytes, m) == e,
    decreases m,
{
    if m > e {
        lemma_boundary_floor(bytes, m - 1, e);
    }
}

/// The longest prefix of `s` that holds at most `n` bytes and ends on a character boundary.
pub fn first_chars(s: &str, n: usize) -> (r: &str)
    ensures
        r.spec_bytes() == s.spec_bytes().take(first_chars_end(s.spec_bytes(), n as int)),
        r@ == first_chars_spec(s@, n as int),
        r.spec_bytes().len() <= n,
        is_char_boundary(s.spec_bytes(), r.spec_bytes().len() as int),
        forall|j: int|
            r.spec_bytes().len() < j <= n && j <= s.spec_bytes().len() ==> !is_char_boundary(
                s.spec_bytes(),
                j,
            ),
{
    let ghost bytes = s.spec_bytes();
    let len = s.as_bytes().len();
    let m = if n < len { n } else { len };
    let mut end = m;
    while end > 0 && !s.is_char_boundary(end)
        invariant
            end <= m,
            m <= bytes.len(),
            bytes == s.spec_bytes(),
            forall|j: int| end < j <= m ==> !is_char_boundary(bytes, j),
        decreases end,
    {
        end = end - 1;
    }
    proof {
        is_char_boundary_start_end_of_seq(bytes);
        lemma_boundary_floor(bytes, m as int, end as int);
    }
    let (head, _tail) = s.split_at(end);
    proof {
        assert(bytes.subrange(0, end as int) == bytes.take(end as int));
        assert(m as int == (if (n as int) < bytes.len() { n as int } else { bytes.len() as int }));
        assert(first_chars_end(bytes, n as int) == end as int);
        assert(head.spec_bytes() == bytes.take(end as int));
        assert(decode_utf8(encode_utf8(head@)) == head@);
    }
    head
}

/// The payload that is signed for a snippet.
pub open spec fn sign_payload(source: Seq<char>, url: Seq<char>, content: Seq<char>, ts: int) -> Seq<
    char,
> {
    source + seq!['\n'] + url + seq!['\n'] + first_chars_spec(content, 100) + seq!['\n'] + dec_int(
        ts,
    )
}

/// The signature of a snippet under `key`.
pub open spec fn signature(
    key: Seq<u8>,
    source: Seq<char>,
    url: Seq<char>,
    content: Seq<char>,
    ts: int,
) -> Seq<char> {
    hex_lower(hmac_sha256(key, encode_utf8(sign_payload(source, url, content, ts))))
}

/// Whether `sig` is accepted for the snippet under `key`.
pub open spec fn accepts(
    sig: Seq<char>,
    key: Seq<u8>,
    source: Seq<char>,
    url: Seq<char>,
    content: Seq<char>,
    ts: int,
) -> bool {
    sig == signature(key, source, url, content, ts)
}

/// A signature is accepted for the snippet it was made for.
pub proof fn lemma_signature_accepted(
    key: Seq<u8>,
    source: Seq<char>,
    url: Seq<char>,
    content: Seq<char>,
    ts: int,
)
    ensures
        accepts(signature(key, source, url, content, ts), key, source, url, content, ts),
{
}

/// The only signature accepted for a snippet is the one made for it.
pub proof fn lemma_accepted_is_signature(
    sig: Seq<char>,
    key: Seq<u8>,
    source: Seq<char>,
    url: Seq<char>,
    content: Seq<char>,
    ts: int,
)
    requires
        accepts(sig, key, source, url, content, ts),
    ensures
        sig == signature(key, source, url, content, ts),
{
}

/// Two snippets whose content agrees on what is signed of it have the same signature:
/// content beyond its first 100 bytes is not covered.
pub proof fn lemma_signature_covers_prefix(
    key: Seq<u8>,
    source: Seq<char>,
    url: Seq<char>,
    c1: Seq<char>,
    c2: Seq<char>,
    ts: int,
)
    requires
        first_chars_spec(c1, 100) == first_chars_spec(c2, 100),
    ensures
        signature(key, source, url, c1, ts) == signature(key, source, url, c2, ts),
{
}

/// Signs a snippet: HMAC-SHA256 of `source`, `url`, the first 100 bytes of `content` and
/// `ts`, one per line, rendered as 64 lowercase hexadecimal digits.
pub fn sign(key: &[u8; 32], source: &str, url: &str, content: &str, ts: i64) -> (sig: String)
    ensures
        sig@ == signature(key@, source@, url@, content@, ts as int),
        sig@.len() == 64,
        forall|i: int| 0 <= i < 64 ==> is_hex_lower_digit(#[trigger] sig@[i]),
{
    let snippet = first_chars(content, 100);
    let mut payload = String::new();
    push_str(&mut payload, source);
    push_char(&mut payload, '\n');
    push_str(&mut payload, url);
    push_char(&mut payload, '\n');
    push_str(&mut payload, snippet);
    push_char(&mut payload, '\n');
    push_i64(&mut payload, ts);
    assert(payload@ == sign_payload(source@, url@, content@, ts as int));
    let tag = hmac_sha256_tag(key, payload.as_str());
    proof {
        lemma_hex_lower_shape(tag@);
    }
    hex_encode(tag.as_slice())
}

/// Checks a signature against the one `sign` computes, comparing every byte whatever the
/// first difference (constant time in the length of the signature).
pub fn verify_sig(
    sig_hex: &str,
    key: &[u8; 32],
    source: &str,
    url: &str,
    content: &str,
    ts: i64,
) -> (ok: bool)
    ensures
        ok == accepts(sig_hex@, key@, source@, url@, content@, ts as int),
{
    let expected = sign(key, source, url, content, ts);
    let eb = expected.as_str().as_bytes();
    let sb = sig_hex.as_bytes();
    if eb.len() != sb.len() {
        proof {
            if expected@ == sig_hex@ {
                assert(encode_utf8(expected@) == encode_utf8(sig_hex@));
            }
        }
        return false;
    }
    let n = eb.len();
    let mut acc: u8 = 0;
    for i in 0..n
        invariant
            n == eb@.len(),
            n == sb@.len(),
            acc == 0 <==> forall|j: int| 0 <= j < i ==> eb@[j] == sb@[j],
    {
        let a = eb[i];
        let b = sb[i];
        let next = acc | (a ^ b);
        assert(next == 0 <==> (acc == 0 && a == b)) by (bit_vector)
            requires
                next == acc | (a ^ b),
        ;
        acc = next;
        proof {
            if acc == 0 {
                assert forall|j: int| 0 <= j < i + 1 implies eb@[j] == sb@[j] by {
                    if j < i {
                    }
                }
            }
        }
    }
    proof {
        if acc == 0 {
            assert(eb@ == sb@);
            assert(decode_utf8(encode_utf8(expected@)) == decode_utf8(encode_utf8(sig_hex@)));
        } else {
            if expected@ == sig_hex@ {
                assert(eb@ == sb@);
                assert(forall|j: int| 0 <= j < n ==> eb@[j] == sb@[j]);
            }
        }
    }
    acc == 0
}

} // verus!
