//! Percent-encoding of query-string and form values, in the variants the connectors use.
use base64::Engine;
use vstd::prelude::*;
use vstd::string::StringSliceAdditionalSpecFns;
use vstd::utf8::encode_utf8;
use crate::text::{hex_upper, hex_upper_char, push_char, push_str, str_chars};

verus! {

broadcast use vstd::string::group_string_axioms;

/// Bytes that are written as themselves: ASCII letters, digits and `-`, `_`, `.`, `~`.
pub open spec fn is_unreserved(b: u8) -> bool {
    (0x41 <= b <= 0x5a) || (0x61 <= b <= 0x7a) || (0x30 <= b <= 0x39) || b == 0x2d || b == 0x5f
        || b == 0x2e || b == 0x7e
}

/// `%` followed by the two uppercase hexadecimal digits of `b`.
pub open spec fn pct(b: u8) -> Seq<char> {
    seq!['%', hex_upper((b / 16) as int), hex_upper((b % 16) as int)]
}

/// How one byte is written: as itself when unreserved, as `+` when it is a space and
/// `space_as_plus` holds, else percent-encoded.
pub open spec fn encode_byte(b: u8, space_as_plus: bool) -> Seq<char> {
    if is_unreserved(b) {
        seq![b as char]
    } else if space_as_plus && b == 0x20 {
        seq!['+']
    } else {
        pct(b)
    }
}

/// The encoding of a byte sequence, byte by byte.
pub open spec fn encode_bytes(bytes: Seq<u8>, space_as_plus: bool) -> Seq<char>
    decreases bytes.len(),
{
    if bytes.len() == 0 {
        seq![]
    } else {
        encode_bytes(bytes.drop_last(), space_as_plus) + encode_byte(bytes.last(), space_as_plus)
    }
}

/// Characters that may appear in an encoded value: unreserved characters, `%`, and `+`.
pub open spec fn is_url_safe(c: char) -> bool {
    ('A' <= c <= 'Z') || ('a' <= c <= 'z') || ('0' <= c <= '9') || c == '-' || c == '_' || c == '.'
        || c == '~' || c == '%' || c == '+'
}

proof fn lemma_hex_upper_safe(d: int)
    ensures
        is_url_safe(hex_upper(d)),
{
}

/// Every character of an encoding is URL-safe; without `space_as_plus` there is no `+`.
pub proof fn lemma_encode_bytes_safe(bytes: Seq<u8>, space_as_plus: bool)
    ensures
        forall|i: int|
            0 <= i < encode_bytes(bytes, space_as_plus).len() ==> is_url_safe(
                #[trigger] encode_bytes(bytes, space_as_plus)[i],
            ),
        !space_as_plus ==> !encode_bytes(bytes, space_as_plus).contains('+'),
    decreases bytes.len(),
{
    if bytes.len() > 0 {
        let b = bytes.last();
        lemma_encode_bytes_safe(bytes.drop_last(), space_as_plus);
        lemma_hex_upper_safe((b / 16) as int);
        lemma_hex_upper_safe((b % 16) as int);
        let pre = encode_bytes(bytes.drop_last(), space_as_plus);
        let e = encode_byte(b, space_as_plus);
        assert(encode_bytes(bytes, space_as_plus) == pre + e);
        assert forall|i: int| 0 <= i < e.len() implies is_url_safe(#[trigger] e[i]) by {
            if is_unreserved(b) {
                assert(e[i] == (b as char));
            }
        }
        assert forall|i: int|
            0 <= i < (pre + e).len() implies is_url_safe(#[trigger] (pre + e)[i]) by {
            if i >= pre.len() {
                assert((pre + e)[i] == e[i - pre.len()]);
            } else {
                assert((pre + e)[i] == pre[i]);
            }
        }
        if !space_as_plus {
            if (pre + e).contains('+') {
                let k = choose|k: int| 0 <= k < (pre + e).len() && (pre + e)[k] == '+';
                if k >= pre.len() {
                    assert(e[k - pre.len()] == '+');
                    if is_unreserved(b) {
                        assert(e[0] == (b as char));
                    }
                } else {
                    assert(pre[k] == '+');
                }
            }
        }
    }
}

fn push_encoded_byte(out: &mut String, b: u8, space_as_plus: bool)
    ensures
        final(out)@ == old(out)@ + encode_byte(b, space_as_plus),
{
    if (0x41 <= b && b <= 0x5a) || (0x61 <= b && b <= 0x7a) || (0x30 <= b && b <= 0x39) || b
        == 0x2d || b == 0x5f || b == 0x2e || b == 0x7e {
        push_char(out, b as char);
    } else if space_as_plus && b == 0x20 {
        push_char(out, '+');
    } else {
        push_char(out, '%');
        push_char(out, hex_upper_char(b / 16));
        push_char(out, hex_upper_char(b % 16));
    }
}

/// Percent-encodes the UTF-8 bytes of `s`, keeping unreserved bytes and, when
/// `space_as_plus` holds, writing a space as `+`.
pub fn percent_encode(s: &str, space_as_plus: bool) -> (r: String)
    ensures
        r@ == encode_bytes(s.spec_bytes(), space_as_plus),
        forall|i: int| 0 <= i < r@.len() ==> is_url_safe(#[trigger] r@[i]),
        !space_as_plus ==> !r@.contains('+'),
{
    let bytes = s.as_bytes();
    let mut out = String::new();
    let n = bytes.len();
    for i in 0..n
        invariant
            n == bytes@.len(),
            out@ == encode_bytes(bytes@.take(i as int), space_as_plus),
    {
        push_encoded_byte(&mut out, bytes[i], space_as_plus);
        assert(bytes@.take(i + 1).drop_last() == bytes@.take(i as int));
    }
    assert(bytes@.take(n as int) == bytes@);
    proof {
        lemma_encode_bytes_safe(bytes@, space_as_plus);
    }
    out
}

/// How one character is written by the query encoding that escapes only URL delimiters:
/// space, `:`, `/`, `?`, `#`, `&`, `=`, `+` and `%` are percent-encoded, the rest is kept.
pub open spec fn delimiter_escape(c: char) -> Seq<char> {
    if c == ' ' {
        seq!['%', '2', '0']
    } else if c == ':' {
        seq!['%', '3', 'A']
    } else if c == '/' {
        seq!['%', '2', 'F']
    } else if c == '?' {
        seq!['%', '3', 'F']
    } else if c == '#' {
        seq!['%', '2', '3']
    } else if c == '&' {
        seq!['%', '2', '6']
    } else if c == '=' {
        seq!['%', '3', 'D']
    } else if c == '+' {
        seq!['%', '2', 'B']
    } else if c == '%' {
        seq!['%', '2', '5']
    } else {
        seq![c]
    }
}

/// The delimiter-escaping encoding of a character sequence.
pub open spec fn delimiter_escape_chars(s: Seq<char>) -> Seq<char>
    decreases s.len(),
{
    if s.len() == 0 {
        seq![]
    } else {
        delimiter_escape_chars(s.drop_last()) + delimiter_escape(s.last())
    }
}

/// Whether `c` is one of the delimiters that [`delimiter_escape`] encodes.
pub open spec fn is_delimiter(c: char) -> bool {
    c == ' ' || c == ':' || c == '/' || c == '?' || c == '#' || c == '&' || c == '=' || c == '+'
        || c == '%'
}

/// No delimiter other than `%` survives the delimiter-escaping encoding, and every `%` in it
/// starts an escape.
pub proof fn lemma_delimiter_escape_clean(s: Seq<char>)
    ensures
        forall|i: int|
            0 <= i < delimiter_escape_chars(s).len() ==> !is_delimiter(
                #[trigger] delimiter_escape_chars(s)[i],
            ) || delimiter_escape_chars(s)[i] == '%',
    decreases s.len(),
{
    if s.len() > 0 {
        lemma_delimiter_escape_clean(s.drop_last());
        let pre = delimiter_escape_chars(s.drop_last());
        let e = delimiter_escape(s.last());
        assert(delimiter_escape_chars(s) == pre + e);
        assert forall|i: int|
            0 <= i < (pre + e).len() implies !is_delimiter(#[trigger] (pre + e)[i]) || (pre
            + e)[i] == '%' by {
            if i >= pre.len() {
                assert((pre + e)[i] == e[i - pre.len()]);
            } else {
                assert((pre + e)[i] == pre[i]);
            }
        }
    }
}

fn push_delimiter_escape(out: &mut String, c: char)
    ensures
        final(out)@ == old(out)@ + delimiter_escape(c),
{
    if c == ' ' {
        push_char(out, '%');
        push_char(out, '2');
        push_char(out, '0');
    } else if c == ':' {
        push_char(out, '%');
        push_char(out, '3');
        push_char(out, 'A');
    } else if c == '/' {
        push_char(out, '%');
        push_char(out, '2');
        push_char(out, 'F');
    } else if c == '?' {
        push_char(out, '%');
        push_char(out, '3');
        push_char(out, 'F');
    } else if c == '#' {
        push_char(out, '%');
        push_char(out, '2');
        push_char(out, '3');
    } else if c == '&' {
        push_char(out, '%');
        push_char(out, '2');
        push_char(out, '6');
    } else if c == '=' {
        push_char(out, '%');
        push_char(out, '3');
        push_char(out, 'D');
    } else if c == '+' {
        push_char(out, '%');
        push_char(out, '2');
        push_char(out, 'B');
    } else if c == '%' {
        push_char(out, '%');
        push_char(out, '2');
        push_char(out, '5');
    } else {
        push_char(out, c);
    }
}

/// Encodes the URL delimiters of `s` (see [`delimiter_escape`]) and keeps every other character.
pub fn escape_delimiters(s: &str) -> (r: String)
    ensures
        r@ == delimiter_escape_chars(s@),
        forall|i: int| 0 <= i < r@.len() ==> !is_delimiter(#[trigger] r@[i]) || r@[i] == '%',
{
    let cs = str_chars(s);
    let mut out = String::new();
    let n = cs.len();
    for i in 0..n
        invariant
            n == cs@.len(),
            out@ == delimiter_escape_chars(cs@.take(i as int)),
    {
        push_delimiter_escape(&mut out, cs[i]);
        assert(cs@.take(i + 1).drop_last() == cs@.take(i as int));
    }
    assert(cs@.take(n as int) == cs@);
    proof {
        lemma_delimiter_escape_clean(s@);
    }
    out
}

/// The form encoding of one `key=value` pair.
pub open spec fn form_pair(k: Seq<u8>, v: Seq<u8>) -> Seq<char> {
    encode_bytes(k, false) + seq!['='] + encode_bytes(v, false)
}

/// The `application/x-www-form-urlencoded` body of `params`: encoded pairs joined by `&`.
pub open spec fn form_body_spec(params: Seq<(&str, &str)>) -> Seq<char>
    decreases params.len(),
{
    if params.len() == 0 {
        seq![]
    } else if params.len() == 1 {
        form_pair(params[0].0.spec_bytes(), params[0].1.spec_bytes())
    } else {
        form_body_spec(params.drop_last()) + seq!['&'] + form_pair(
            params.last().0.spec_bytes(),
            params.last().1.spec_bytes(),
        )
    }
}

/// Builds a form body: each key and value percent-encoded, pairs joined by `&`.
pub fn form_body(params: &[(&str, &str)]) -> (r: String)
    ensures
        r@ == form_body_spec(params@),
{
    let mut out = String::new();
    let n = params.len();
    for i in 0..n
        invariant
            n == params@.len(),
            out@ == form_body_spec(params@.take(i as int)),
    {
        assert(params@.take(i + 1).drop_last() == params@.take(i as int));
        if i > 0 {
            push_char(&mut out, '&');
        }
        let (k, v) = params[i];
        let ek = percent_encode(k, false);
        let ev = percent_encode(v, false);
        push_str(&mut out, ek.as_str());
        push_char(&mut out, '=');
        push_str(&mut out, ev.as_str());
    }
    assert(params@.take(n as int) == params@);
    out
}

/// The character of the standard base64 alphabet for `d < 64`.
pub open spec fn b64_char(d: int) -> char {
    if d < 26 {
        (65 + d) as char
    } else if d < 52 {
        (97 + d - 26) as char
    } else if d < 62 {
        (48 + d - 52) as char
    } else if d == 62 {
        '+'
    } else {
        '/'
    }
}

/// Standard base64 with `=` padding, three bytes to four characters.
pub open spec fn base64_spec(b: Seq<u8>) -> Seq<char>
    decreases b.len(),
{
    if b.len() == 0 {
        seq![]
    } else if b.len() == 1 {
        seq![b64_char((b[0] / 4) as int), b64_char((b[0] % 4) * 16), '=', '=']
    } else if b.len() == 2 {
        seq![
            b64_char((b[0] / 4) as int),
            b64_char((b[0] % 4) * 16 + b[1] / 16),
            b64_char((b[1] % 16) * 4),
            '=',
        ]
    } else {
        seq![
            b64_char((b[0] / 4) as int),
            b64_char((b[0] % 4) * 16 + b[1] / 16),
            b64_char((b[1] % 16) * 4 + b[2] / 64),
            b64_char((b[2] % 64) as int),
        ] + base64_spec(b.skip(3))
    }
}

/// Calls `base64::engine::general_purpose::STANDARD.encode`. Claimed: the result is the
/// standard base64 encoding with padding, `base64_spec(bytes)`, as the crate documents.
#[verifier::external_body]
pub(crate) fn base64_standard(bytes: &[u8]) -> (r: String)
    ensures
        r@ == base64_spec(bytes@),
{
    base64::engine::general_purpose::STANDARD.encode(bytes)
}


/// Bytes that an HTML form encoding (`application/x-www-form-urlencoded`, as
/// `form_urlencoded::byte_serialize` writes it) keeps as they are: ASCII letters, digits and
/// `*`, `-`, `.`, `_`.
pub open spec fn is_form_safe(b: u8) -> bool {
    (0x41 <= b <= 0x5a) || (0x61 <= b <= 0x7a) || (0x30 <= b <= 0x39) || b == 0x2a || b == 0x2d
        || b == 0x2e || b == 0x5f
}

/// How the form encoding writes one byte: as itself when safe, a space as `+`, else
/// percent-encoded.
pub open spec fn form_byte(b: u8) -> Seq<char> {
    if is_form_safe(b) {
        seq![b as char]
    } else if b == 0x20 {
        seq!['+']
    } else {
        pct(b)
    }
}

/// The form encoding of a byte sequence, byte by byte.
pub open spec fn form_bytes(bytes: Seq<u8>) -> Seq<char>
    decreases bytes.len(),
{
    if bytes.len() == 0 {
        seq![]
    } else {
        form_bytes(bytes.drop_last()) + form_byte(bytes.last())
    }
}

fn push_form_byte(out: &mut String, b: u8)
    ensures
        final(out)@ == old(out)@ + form_byte(b),
{
    if (0x41 <= b && b <= 0x5a) || (0x61 <= b && b <= 0x7a) || (0x30 <= b && b <= 0x39) || b
        == 0x2a || b == 0x2d || b == 0x2e || b == 0x5f {
        push_char(out, b as char);
    } else if b == 0x20 {
        push_char(out, '+');
    } else {
        push_char(out, '%');
        push_char(out, hex_upper_char(b / 16));
        push_char(out, hex_upper_char(b % 16));
    }
}

/// Appends the form encoding of the UTF-8 bytes of `s`.
pub fn push_form_encoded(out: &mut String, s: &str)
    ensures
        final(out)@ == old(out)@ + form_bytes(s.spec_bytes()),
{
    let bytes = s.as_bytes();
    let n = bytes.len();
    for i in 0..n
        invariant
            n == bytes@.len(),
            out@ == old(out)@ + form_bytes(bytes@.take(i as int)),
    {
        push_form_byte(out, bytes[i]);
        assert(bytes@.take(i + 1).drop_last() == bytes@.take(i as int));
    }
    assert(bytes@.take(n as int) == bytes@);
}


/// One form pair encoded as a browser form writes it.
pub open spec fn www_pair(k: Seq<char>, v: Seq<char>) -> Seq<char> {
    form_bytes(encode_utf8(k)) + "="@ + form_bytes(encode_utf8(v))
}

/// Appends the form encoding of the pair `k=v`.
pub fn push_www_pair(out: &mut String, k: &str, v: &str)
    ensures
        final(out)@ == old(out)@ + www_pair(k@, v@),
{
    push_form_encoded(out, k);
    push_str(out, "=");
    push_form_encoded(out, v);
}


/// The percent encoding of a text's UTF-8 bytes, keeping unreserved bytes.
pub open spec fn pct_text(t: Seq<char>) -> Seq<char> {
    encode_bytes(encode_utf8(t), false)
}

/// Percent-encodes the UTF-8 bytes of `s`, keeping unreserved bytes.
pub fn pct_encode(s: &str) -> (r: String)
    ensures
        r@ == pct_text(s@),
{
    percent_encode(s, false)
}

/// One form pair with key and value percent-encoded.
pub open spec fn pct_pair(k: Seq<char>, v: Seq<char>) -> Seq<char> {
    pct_text(k) + "="@ + pct_text(v)
}

/// The pair `k=v` with key and value percent-encoded.
pub fn pct_pair_exec(k: &str, v: &str) -> (r: String)
    ensures
        r@ == pct_pair(k@, v@),
{
    let mut r = percent_encode(k, false);
    push_str(&mut r, "=");
    push_str(&mut r, percent_encode(v, false).as_str());
    r
}

} // verus!
