//! Text building blocks shared by the connectors: character sequences,
//! decimal rendering of integers and trimming of repeated characters.
use vstd::prelude::*;
use crate::occurs::occurs;

verus! {

broadcast use vstd::string::group_string_axioms;

/// Appends one character to a string (std `String::push`).
#[verifier::external_body]
pub(crate) fn push_char(s: &mut String, c: char)
    ensures
        final(s)@ == old(s)@.push(c),
{
    s.push(c);
}

/// Appends a string slice to a string.
pub fn push_str(s: &mut String, t: &str)
    ensures
        final(s)@ == old(s)@ + t@,
{
    s.append(t);
}

/// The characters of a string slice, in order.
pub fn str_chars(s: &str) -> (v: Vec<char>)
    ensures
        v@ == s@,
{
    let mut v: Vec<char> = Vec::new();
    for c in it: s.chars()
        invariant
            v@ == it.seq().take(it.index() as int),
    {
        v.push(c);
    }
    v
}

/// A string holding the given characters.
pub fn string_of_chars(cs: &Vec<char>) -> (s: String)
    ensures
        s@ == cs@,
{
    let mut s = String::new();
    let n = cs.len();
    for i in 0..n
        invariant
            n == cs@.len(),
            s@ == cs@.take(i as int),
    {
        push_char(&mut s, cs[i]);
        assert(cs@.take(i + 1) == cs@.take(i as int).push(cs@[i as int]));
    }
    assert(cs@.take(n as int) == cs@);
    s
}

/// An owned copy of a string slice.
pub fn owned(s: &str) -> (r: String)
    ensures
        r@ == s@,
{
    String::from_str(s)
}

/// The decimal digit character for `d < 10`.
pub open spec fn digit_char(d: nat) -> char {
    if d == 0 { '0' }
    else if d == 1 { '1' }
    else if d == 2 { '2' }
    else if d == 3 { '3' }
    else if d == 4 { '4' }
    else if d == 5 { '5' }
    else if d == 6 { '6' }
    else if d == 7 { '7' }
    else if d == 8 { '8' }
    else { '9' }
}

/// The lowercase hexadecimal digit of `d < 16`.
pub open spec fn hex_digit(d: int) -> char {
    if d < 10 {
        digit_char(d as nat)
    } else if d == 10 {
        'a'
    } else if d == 11 {
        'b'
    } else if d == 12 {
        'c'
    } else if d == 13 {
        'd'
    } else if d == 14 {
        'e'
    } else {
        'f'
    }
}

/// The lowercase hexadecimal digit of `d < 16`.
pub fn hex_digit_char(d: u32) -> (c: char)
    requires
        d < 16,
    ensures
        c == hex_digit(d as int),
{
    if d < 10 {
        digit(d as u64)
    } else if d == 10 {
        'a'
    } else if d == 11 {
        'b'
    } else if d == 12 {
        'c'
    } else if d == 13 {
        'd'
    } else if d == 14 {
        'e'
    } else {
        'f'
    }
}

/// The uppercase hexadecimal digit of `d < 16`.
pub open spec fn hex_upper(d: int) -> char {
    if d < 10 {
        digit_char(d as nat)
    } else if d == 10 {
        'A'
    } else if d == 11 {
        'B'
    } else if d == 12 {
        'C'
    } else if d == 13 {
        'D'
    } else if d == 14 {
        'E'
    } else {
        'F'
    }
}

/// The uppercase hexadecimal digit of `d < 16`.
pub fn hex_upper_char(d: u8) -> (c: char)
    requires
        d < 16,
    ensures
        c == hex_upper(d as int),
{
    if d < 10 {
        digit(d as u64)
    } else if d == 10 {
        'A'
    } else if d == 11 {
        'B'
    } else if d == 12 {
        'C'
    } else if d == 13 {
        'D'
    } else if d == 14 {
        'E'
    } else {
        'F'
    }
}

/// Decimal rendering of a natural number, most significant digit first.
pub open spec fn dec_nat(n: nat) -> Seq<char>
    decreases n,
{
    if n < 10 {
        seq![digit_char(n)]
    } else {
        dec_nat(n / 10).push(digit_char(n % 10))
    }
}

/// Decimal rendering of an integer, with a leading `-` when negative.
pub open spec fn dec_int(i: int) -> Seq<char> {
    if i < 0 {
        seq!['-'] + dec_nat((-i) as nat)
    } else {
        dec_nat(i as nat)
    }
}

fn digit(d: u64) -> (c: char)
    requires
        d < 10,
    ensures
        c == digit_char(d as nat),
{
    if d == 0 { '0' }
    else if d == 1 { '1' }
    else if d == 2 { '2' }
    else if d == 3 { '3' }
    else if d == 4 { '4' }
    else if d == 5 { '5' }
    else if d == 6 { '6' }
    else if d == 7 { '7' }
    else if d == 8 { '8' }
    else { '9' }
}

/// Appends the decimal rendering of `n`.
pub fn push_u64(out: &mut String, n: u64)
    ensures
        final(out)@ == old(out)@ + dec_nat(n as nat),
    decreases n,
{
    if n >= 10 {
        push_u64(out, n / 10);
    }
    let ghost mid = out@;
    push_char(out, digit(n % 10));
    proof {
        if n >= 10 {
            assert(old(out)@ + dec_nat(n as nat) == (old(out)@ + dec_nat((n / 10) as nat)).push(
                digit_char((n % 10) as nat),
            ));
        } else {
            assert(old(out)@ + dec_nat(n as nat) == old(out)@.push(digit_char(n as nat)));
        }
    }
}

/// Appends the decimal rendering of `n`, with a leading `-` when negative.
pub fn push_i64(out: &mut String, n: i64)
    ensures
        final(out)@ == old(out)@ + dec_int(n as int),
{
    if n < 0 {
        push_char(out, '-');
        let m: u64 = if n == i64::MIN { 9223372036854775808u64 } else { (-n) as u64 };
        push_u64(out, m);
        assert(old(out)@ + dec_int(n as int) == old(out)@.push('-') + dec_nat(m as nat));
    } else {
        push_u64(out, n as u64);
    }
}

/// The decimal rendering of `n` as a new string.
pub fn u64_to_string(n: u64) -> (s: String)
    ensures
        s@ == dec_nat(n as nat),
{
    let mut s = String::new();
    push_u64(&mut s, n);
    assert(s@ == Seq::<char>::empty() + dec_nat(n as nat));
    s
}

/// The decimal rendering of `n` as a new string.
pub fn i64_to_string(n: i64) -> (s: String)
    ensures
        s@ == dec_int(n as int),
{
    let mut s = String::new();
    push_i64(&mut s, n);
    assert(s@ == Seq::<char>::empty() + dec_int(n as int));
    s
}

/// `s` with every leading occurrence of `c` removed.
pub open spec fn trim_start_spec(s: Seq<char>, c: char) -> Seq<char>
    decreases s.len(),
{
    if s.len() > 0 && s[0] == c {
        trim_start_spec(s.drop_first(), c)
    } else {
        s
    }
}

/// `s` with every trailing occurrence of `c` removed.
pub open spec fn trim_end_spec(s: Seq<char>, c: char) -> Seq<char>
    decreases s.len(),
{
    if s.len() > 0 && s.last() == c {
        trim_end_spec(s.drop_last(), c)
    } else {
        s
    }
}

proof fn lemma_trim_start(s: Seq<char>, c: char, k: int)
    requires
        0 <= k <= s.len(),
        forall|j: int| 0 <= j < k ==> s[j] == c,
        k == s.len() || s[k] != c,
    ensures
        trim_start_spec(s, c) == s.skip(k),
    decreases k,
{
    if k > 0 {
        lemma_trim_start(s.drop_first(), c, k - 1);
        assert(s.drop_first().skip(k - 1) == s.skip(k));
    } else {
        assert(s.skip(0) == s);
    }
}

proof fn lemma_trim_end(s: Seq<char>, c: char, k: int)
    requires
        0 <= k <= s.len(),
        forall|j: int| k <= j < s.len() ==> s[j] == c,
        k == 0 || s[k - 1] != c,
    ensures
        trim_end_spec(s, c) == s.take(k),
    decreases s.len() - k,
{
    if k < s.len() {
        lemma_trim_end(s.drop_last(), c, k);
        assert(s.drop_last().take(k) == s.take(k));
    } else {
        assert(s.take(k) == s);
    }
}

/// The characters of `s` without its leading run of `c` (std `trim_start_matches` with a
/// character pattern).
pub fn trim_start_char(s: &Vec<char>, c: char) -> (r: Vec<char>)
    ensures
        r@ == trim_start_spec(s@, c),
{
    let n = s.len();
    let mut k: usize = 0;
    while k < n && s[k] == c
        invariant
            n == s@.len(),
            0 <= k <= n,
            forall|j: int| 0 <= j < k ==> s@[j] == c,
        decreases n - k,
    {
        k = k + 1;
    }
    proof {
        lemma_trim_start(s@, c, k as int);
    }
    let mut r: Vec<char> = Vec::new();
    let mut i = k;
    while i < n
        invariant
            n == s@.len(),
            k <= i <= n,
            r@ == s@.subrange(k as int, i as int),
        decreases n - i,
    {
        r.push(s[i]);
        assert(s@.subrange(k as int, i + 1) == s@.subrange(k as int, i as int).push(s@[i as int]));
        i = i + 1;
    }
    assert(s@.subrange(k as int, n as int) == s@.skip(k as int));
    r
}

/// The characters of `s` without its trailing run of `c` (std `trim_end_matches` with a
/// character pattern).
pub fn trim_end_char(s: &Vec<char>, c: char) -> (r: Vec<char>)
    ensures
        r@ == trim_end_spec(s@, c),
{
    let n = s.len();
    let mut k: usize = n;
    while k > 0 && s[k - 1] == c
        invariant
            n == s@.len(),
            0 <= k <= n,
            forall|j: int| k <= j < n ==> s@[j] == c,
        decreases k,
    {
        k = k - 1;
    }
    proof {
        lemma_trim_end(s@, c, k as int);
    }
    let mut r: Vec<char> = Vec::new();
    let mut i: usize = 0;
    while i < k
        invariant
            n == s@.len(),
            0 <= i <= k <= n,
            r@ == s@.take(i as int),
        decreases k - i,
    {
        r.push(s[i]);
        assert(s@.take(i + 1) == s@.take(i as int).push(s@[i as int]));
        i = i + 1;
    }
    r
}

/// Appends the given characters.
pub fn push_chars(out: &mut String, cs: &Vec<char>)
    ensures
        final(out)@ == old(out)@ + cs@,
{
    let n = cs.len();
    for i in 0..n
        invariant
            n == cs@.len(),
            out@ == old(out)@ + cs@.take(i as int),
    {
        push_char(out, cs[i]);
        assert(cs@.take(i + 1) == cs@.take(i as int).push(cs@[i as int]));
    }
    assert(cs@.take(n as int) == cs@);
}

/// Whether `c` occurs in `s`.
pub fn contains_char(s: &Vec<char>, c: char) -> (b: bool)
    ensures
        b == s@.contains(c),
{
    let n = s.len();
    for i in 0..n
        invariant
            n == s@.len(),
            forall|j: int| 0 <= j < i ==> s@[j] != c,
    {
        if s[i] == c {
            assert(s@[i as int] == c);
            return true;
        }
    }
    false
}

/// Whether two strings hold the same characters.
pub fn str_eq(a: &str, b: &str) -> (r: bool)
    ensures
        r == (a@ == b@),
{
    let x = str_chars(a);
    let y = str_chars(b);
    if x.len() != y.len() {
        return false;
    }
    let n = x.len();
    for i in 0..n
        invariant
            n == x@.len(),
            n == y@.len(),
            x@ == a@,
            y@ == b@,
            forall|j: int| 0 <= j < i ==> x@[j] == y@[j],
    {
        if x[i] != y[i] {
            assert(x@[i as int] != y@[i as int]);
            return false;
        }
    }
    assert(x@ == y@);
    true
}

/// Whether `c` has the Unicode `White_Space` property, which std `char::is_whitespace`
/// decides: tab to carriage return, space, NEL, no-break space, ogham space mark, the spaces
/// from en quad to hair space, line and paragraph separators, narrow no-break space, medium
/// mathematical space and ideographic space.
pub open spec fn is_white_space(c: char) -> bool {
    let u = c as u32;
    ||| 0x09 <= u <= 0x0d
    ||| u == 0x20
    ||| u == 0x85
    ||| u == 0xa0
    ||| u == 0x1680
    ||| 0x2000 <= u <= 0x200a
    ||| u == 0x2028
    ||| u == 0x2029
    ||| u == 0x202f
    ||| u == 0x205f
    ||| u == 0x3000
}

/// Whether `c` is white space (see [`is_white_space`]).
fn char_is_whitespace(c: char) -> (b: bool)
    ensures
        b == is_white_space(c),
{
    let u = c as u32;
    (0x09 <= u && u <= 0x0d) || u == 0x20 || u == 0x85 || u == 0xa0 || u == 0x1680 || (0x2000 <= u
        && u <= 0x200a) || u == 0x2028 || u == 0x2029 || u == 0x202f || u == 0x205f || u == 0x3000
}

/// `s` without its trailing white space.
pub open spec fn trim_end_ws_spec(s: Seq<char>) -> Seq<char>
    decreases s.len(),
{
    if s.len() > 0 && is_white_space(s.last()) {
        trim_end_ws_spec(s.drop_last())
    } else {
        s
    }
}

proof fn lemma_trim_end_ws(s: Seq<char>, k: int)
    requires
        0 <= k <= s.len(),
        forall|j: int| k <= j < s.len() ==> is_white_space(s[j]),
        k == 0 || !is_white_space(s[k - 1]),
    ensures
        trim_end_ws_spec(s) == s.take(k),
    decreases s.len() - k,
{
    if k < s.len() {
        lemma_trim_end_ws(s.drop_last(), k);
        assert(s.drop_last().take(k) == s.take(k));
    } else {
        assert(s.take(k) == s);
    }
}

/// `t` holds a character that is not white space.
pub open spec fn has_non_ws(t: Seq<char>) -> bool {
    exists|k: int| 0 <= k < t.len() && !is_white_space(#[trigger] t[k])
}

/// A text that stands inside another passes its non-white-space characters on to it.
pub proof fn lemma_non_ws_occurs(n: Seq<char>, t: Seq<char>)
    requires
        occurs(n, t),
        has_non_ws(n),
    ensures
        has_non_ws(t),
{
    let (p, s) = choose|p: Seq<char>, s: Seq<char>| t == p + n + s;
    let k = choose|k: int| 0 <= k < n.len() && !is_white_space(#[trigger] n[k]);
    assert(t[p.len() + k] == n[k]);
}

/// Trimming the end of `x + s` leaves `x` whole when `s` or the end of `x` is not white space.
pub proof fn lemma_trim_end_ws_concat(x: Seq<char>, s: Seq<char>)
    requires
        has_non_ws(s) || (x.len() > 0 && !is_white_space(x.last())),
    ensures
        trim_end_ws_spec(x + s) == x + trim_end_ws_spec(s),
    decreases s.len(),
{
    if s.len() == 0 {
        assert(x + s =~= x);
        assert(x + trim_end_ws_spec(s) =~= x);
    } else if is_white_space(s.last()) {
        assert((x + s).drop_last() =~= x + s.drop_last());
        assert((x + s).last() == s.last());
        if has_non_ws(s) {
            let k = choose|k: int| 0 <= k < s.len() && !is_white_space(#[trigger] s[k]);
            assert(s.drop_last()[k] == s[k]);
        }
        lemma_trim_end_ws_concat(x, s.drop_last());
    } else {
        assert((x + s).last() == s.last());
    }
}

/// `s` without its trailing white space (std `str::trim_end`).
pub fn trim_end_ws(s: &str) -> (r: String)
    ensures
        r@ == trim_end_ws_spec(s@),
{
    let cs = str_chars(s);
    let n = cs.len();
    let mut k: usize = n;
    while k > 0 && char_is_whitespace(cs[k - 1])
        invariant
            n == cs@.len(),
            k <= n,
            forall|j: int| k <= j < n ==> is_white_space(cs@[j]),
        decreases k,
    {
        k = k - 1;
    }
    proof {
        lemma_trim_end_ws(cs@, k as int);
    }
    let mut r = String::new();
    for i in 0..k
        invariant
            k <= n,
            n == cs@.len(),
            r@ == cs@.take(i as int),
    {
        push_char(&mut r, cs[i]);
        assert(cs@.take(i + 1) == cs@.take(i as int).push(cs@[i as int]));
    }
    r
}

/// `s` without its leading white space.
pub open spec fn trim_start_ws_spec(s: Seq<char>) -> Seq<char>
    decreases s.len(),
{
    if s.len() > 0 && is_white_space(s[0]) {
        trim_start_ws_spec(s.drop_first())
    } else {
        s
    }
}

/// `s` without its leading and trailing white space.
pub open spec fn trim_ws_spec(s: Seq<char>) -> Seq<char> {
    trim_start_ws_spec(trim_end_ws_spec(s))
}

proof fn lemma_trim_start_ws(s: Seq<char>, j: int)
    requires
        0 <= j <= s.len(),
        forall|i: int| 0 <= i < j ==> is_white_space(s[i]),
        j == s.len() || !is_white_space(s[j]),
    ensures
        trim_start_ws_spec(s) == s.skip(j),
    decreases j,
{
    if j > 0 {
        assert forall|i: int| 0 <= i < j - 1 implies is_white_space(s.drop_first()[i]) by {
            assert(s.drop_first()[i] == s[i + 1]);
        }
        lemma_trim_start_ws(s.drop_first(), j - 1);
        assert(s.drop_first().skip(j - 1) == s.skip(j));
    } else {
        assert(s.skip(0) == s);
    }
}

/// `s` without its leading and trailing white space (std `str::trim`).
pub fn trim_ws(s: &str) -> (r: String)
    ensures
        r@ == trim_ws_spec(s@),
{
    let cs = str_chars(s);
    let n = cs.len();
    let mut k: usize = n;
    while k > 0 && char_is_whitespace(cs[k - 1])
        invariant
            n == cs@.len(),
            k <= n,
            forall|j: int| k <= j < n ==> is_white_space(cs@[j]),
        decreases k,
    {
        k = k - 1;
    }
    proof {
        lemma_trim_end_ws(cs@, k as int);
    }
    let mut j: usize = 0;
    while j < k && char_is_whitespace(cs[j])
        invariant
            n == cs@.len(),
            k <= n,
            j <= k,
            forall|i: int| 0 <= i < j ==> is_white_space(cs@[i]),
        decreases k - j,
    {
        j = j + 1;
    }
    proof {
        let t = cs@.take(k as int);
        assert forall|i: int| 0 <= i < j implies is_white_space(t[i]) by {
            assert(t[i] == cs@[i]);
        }
        if j < k {
            assert(t[j as int] == cs@[j as int]);
        }
        lemma_trim_start_ws(t, j as int);
    }
    let mut r = String::new();
    for i in j..k
        invariant
            j <= k,
            k <= n,
            n == cs@.len(),
            r@ == cs@.subrange(j as int, i as int),
    {
        push_char(&mut r, cs[i]);
        assert(cs@.subrange(j as int, i + 1) == cs@.subrange(j as int, i as int).push(cs@[i as int]));
    }
    assert(cs@.take(k as int).skip(j as int) == cs@.subrange(j as int, k as int));
    r
}

/// The ASCII lowercase of a character (other characters unchanged).
pub open spec fn ascii_lower(c: char) -> char {
    if 'A' <= c && c <= 'Z' {
        ((c as u32) + 32) as char
    } else {
        c
    }
}

/// Whether two strings are equal ignoring ASCII case (std `str::eq_ignore_ascii_case`).
pub open spec fn eq_ignore_ascii_case_spec(a: Seq<char>, b: Seq<char>) -> bool {
    a.len() == b.len() && forall|i: int| 0 <= i < a.len() ==> ascii_lower(a[i]) == ascii_lower(b[i])
}

fn lower(c: char) -> (r: char)
    ensures
        r == ascii_lower(c),
{
    if 'A' <= c && c <= 'Z' {
        ((c as u8) + 32) as char
    } else {
        c
    }
}

/// Whether two strings are equal ignoring ASCII case.
pub fn eq_ignore_ascii_case(a: &str, b: &str) -> (r: bool)
    ensures
        r == eq_ignore_ascii_case_spec(a@, b@),
{
    let x = str_chars(a);
    let y = str_chars(b);
    if x.len() != y.len() {
        return false;
    }
    let n = x.len();
    for i in 0..n
        invariant
            n == x@.len(),
            n == y@.len(),
            x@ == a@,
            y@ == b@,
            forall|j: int| 0 <= j < i ==> ascii_lower(x@[j]) == ascii_lower(y@[j]),
    {
        if lower(x[i]) != lower(y[i]) {
            return false;
        }
    }
    true
}

} // verus!
