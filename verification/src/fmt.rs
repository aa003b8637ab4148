//! Helpers for rendering API results as text: reading members with a fallback and
//! cutting text at a byte position.
use vstd::prelude::*;
use crate::occurs::{lemma_occurs_append, lemma_occurs_between, lemma_occurs_self, occurs};
use vstd::string::StringSliceAdditionalSpecFns;
use vstd::utf8::*;
use crate::json::{get_array, get_i64, get_str, get_u64, json_text, to_json_string, Json};
use crate::text::{dec_int, dec_nat, i64_to_string, owned, push_str, u64_to_string};

verus! {

broadcast use {vstd::string::group_string_axioms, encode_utf8_valid_utf8, encode_utf8_decode_utf8};

/// The text of member `key` of `v`, or `d` when the member is missing or not a string.
pub open spec fn str_or(v: Json, key: Seq<char>, d: Seq<char>) -> Seq<char> {
    match v.at(key).str_of() {
        Some(s) => s,
        None => d,
    }
}

/// The text of member `key` of `v`, or `d` when the member is missing or not a string.
pub fn get_str_or<'a>(v: &'a Json, key: &str, d: &'a str) -> (r: &'a str)
    ensures
        r@ == str_or(*v, key@, d@),
{
    match get_str(v, key) {
        Some(s) => s,
        None => d,
    }
}

/// The decimal text of member `key` of `v` when it is a non-negative integer, else `d`.
pub open spec fn u64_text_or(v: Json, key: Seq<char>, d: Seq<char>) -> Seq<char> {
    match v.at(key).u64_of() {
        Some(n) => dec_nat(n as nat),
        None => d,
    }
}

/// The decimal text of member `key` of `v` when it is a non-negative integer, else `d`.
pub fn get_u64_text_or(v: &Json, key: &str, d: &str) -> (r: String)
    ensures
        r@ == u64_text_or(*v, key@, d@),
{
    match get_u64(v, key) {
        Some(n) => u64_to_string(n),
        None => owned(d),
    }
}

/// The decimal text of member `key` of `v` when it is an integer that fits `i64`, else 0.
pub open spec fn i64_text_or_zero(v: Json, key: Seq<char>) -> Seq<char> {
    match v.at(key).i64_of() {
        Some(n) => dec_int(n as int),
        None => dec_int(0),
    }
}

/// The decimal text of member `key` of `v` when it is an integer that fits `i64`, else `0`.
pub fn get_i64_text_or_zero(v: &Json, key: &str) -> (r: String)
    ensures
        r@ == i64_text_or_zero(*v, key@),
{
    match get_i64(v, key) {
        Some(n) => i64_to_string(n),
        None => i64_to_string(0),
    }
}

/// The length of member `key` of `v` when it is an array, else 0.
pub open spec fn array_len_or_zero(v: Json, key: Seq<char>) -> nat {
    match v.at(key).array_of() {
        Some(a) => a.len(),
        None => 0,
    }
}

/// The decimal text of the length of member `key` of `v` when it is an array, else `0`.
pub fn get_array_len_text(v: &Json, key: &str) -> (r: String)
    ensures
        r@ == dec_nat(array_len_or_zero(*v, key@)),
{
    match get_array(v, key) {
        Some(a) => u64_to_string(a.len() as u64),
        None => u64_to_string(0),
    }
}

/// The text of member `key` of member `outer` of `v`, or `d`.
pub fn get_nested_str_or<'a>(v: &'a Json, outer: &str, key: &str, d: &'a str) -> (r: &'a str)
    ensures
        r@ == str_or(v.at(outer@), key@, d@),
{
    match v.get(outer) {
        Some(o) => get_str_or(o, key, d),
        None => d,
    }
}

/// The text of an optional string, or `d`.
pub open spec fn opt_or(o: Option<Seq<char>>, d: Seq<char>) -> Seq<char> {
    match o {
        Some(s) => s,
        None => d,
    }
}

/// The characters of the first `n` bytes of `s`, which end on a character boundary.
pub open spec fn byte_prefix_spec(s: Seq<char>, n: int) -> Seq<char> {
    decode_utf8(encode_utf8(s).take(n))
}

/// The first `n` bytes of `s` (string slicing `&s[..n]`), where `n` is a character boundary.
pub fn byte_prefix(s: &str, n: usize) -> (r: &str)
    requires
        is_char_boundary(s.spec_bytes(), n as int),
    ensures
        r@ == byte_prefix_spec(s@, n as int),
        r.spec_bytes() == s.spec_bytes().take(n as int),
{
    let (head, _tail) = s.split_at(n);
    assert(s.spec_bytes().subrange(0, n as int) == s.spec_bytes().take(n as int));
    assert(decode_utf8(encode_utf8(head@)) == head@);
    head
}

/// The number of UTF-8 bytes of `s` (std `str::len`).
pub fn byte_len(s: &str) -> (n: usize)
    ensures
        n == s.spec_bytes().len(),
{
    s.as_bytes().len()
}

/// `parts` joined with `sep` between consecutive parts.
pub open spec fn join_spec(parts: Seq<Seq<char>>, sep: Seq<char>) -> Seq<char>
    decreases parts.len(),
{
    if parts.len() == 0 {
        seq![]
    } else if parts.len() == 1 {
        parts[0]
    } else {
        join_spec(parts.drop_last(), sep) + sep + parts.last()
    }
}

/// Every part of a join stands in it.
pub proof fn lemma_join_holds(parts: Seq<Seq<char>>, sep: Seq<char>, i: int)
    requires
        0 <= i < parts.len(),
    ensures
        occurs(parts[i], join_spec(parts, sep)),
    decreases parts.len(),
{
    if parts.len() == 1 {
        lemma_occurs_self(parts[0]);
    } else if i == parts.len() - 1 {
        let head = join_spec(parts.drop_last(), sep) + sep;
        lemma_occurs_between(head, parts.last(), Seq::<char>::empty());
        assert(head + parts.last() + Seq::<char>::empty() =~= head + parts.last());
    } else {
        lemma_join_holds(parts.drop_last(), sep, i);
        assert(parts.drop_last()[i] == parts[i]);
        lemma_occurs_append(parts[i], join_spec(parts.drop_last(), sep), sep);
        lemma_occurs_append(parts[i], join_spec(parts.drop_last(), sep) + sep, parts.last());
    }
}

/// Joining one more part adds the separator and that part.
pub proof fn lemma_join_push(parts: Seq<Seq<char>>, sep: Seq<char>, x: Seq<char>)
    requires
        parts.len() > 0,
    ensures
        join_spec(parts.push(x), sep) == join_spec(parts, sep) + sep + x,
{
    assert(parts.push(x).drop_last() =~= parts);
}

/// The views of string slices.
pub open spec fn views(parts: Seq<&str>) -> Seq<Seq<char>> {
    parts.map_values(|p: &str| p@)
}

/// Joins string slices with a separator (std `join`).
pub fn join_strs(parts: &Vec<&str>, sep: &str) -> (r: String)
    ensures
        r@ == join_spec(views(parts@), sep@),
{
    let mut out = String::new();
    let n = parts.len();
    for i in 0..n
        invariant
            n == parts@.len(),
            out@ == join_spec(views(parts@.take(i as int)), sep@),
    {
        assert(views(parts@.take(i + 1)).drop_last() == views(parts@.take(i as int)));
        if i > 0 {
            push_str(&mut out, sep);
        }
        push_str(&mut out, parts[i]);
        proof {
            if i == 0 {
                assert(out@ == parts@[0]@);
            }
        }
    }
    assert(parts@.take(n as int) == parts@);
    out
}

/// The compact JSON text of member `key` of `v` (`null` when missing), as `Display` shows
/// `v[key]`.
pub fn display_at(v: &Json, key: &str) -> (r: String)
    ensures
        r@ == json_text(v.at(key@)),
{
    match v.get(key) {
        Some(x) => to_json_string(x),
        None => {
            let r = to_json_string(&Json::Null);
            r
        },
    }
}

/// The views of owned strings.
pub open spec fn string_views(parts: Seq<String>) -> Seq<Seq<char>> {
    parts.map_values(|p: String| p@)
}

/// Joins owned strings with a separator (std `join`).
pub fn join_strings(parts: &Vec<String>, sep: &str) -> (r: String)
    ensures
        r@ == join_spec(string_views(parts@), sep@),
{
    let mut out = String::new();
    let n = parts.len();
    for i in 0..n
        invariant
            n == parts@.len(),
            out@ == join_spec(string_views(parts@.take(i as int)), sep@),
    {
        assert(string_views(parts@.take(i + 1)).drop_last() == string_views(parts@.take(i as int)));
        if i > 0 {
            push_str(&mut out, sep);
        }
        push_str(&mut out, parts[i].as_str());
        proof {
            if i == 0 {
                assert(out@ == parts@[0]@);
            }
        }
    }
    assert(parts@.take(n as int) == parts@);
    out
}

/// A text cut after `n` bytes when it is longer.
pub open spec fn cut(t: Seq<char>, n: int) -> Seq<char> {
    if encode_utf8(t).len() > n {
        byte_prefix_spec(t, n)
    } else {
        t
    }
}

/// The text can be cut after `n` bytes: it is no longer, or that byte ends a character.
pub open spec fn cut_ok(t: Seq<char>, n: int) -> bool {
    encode_utf8(t).len() > n ==> is_char_boundary(encode_utf8(t), n)
}

/// Whether the text can be cut after `n` bytes (see [`cut_ok`]).
pub fn can_cut(t: &str, n: usize) -> (r: bool)
    ensures
        r == cut_ok(t@, n as int),
{
    byte_len(t) <= n || t.is_char_boundary(n)
}

/// The text cut after `n` bytes when it is longer.
pub fn cut_exec(t: &str, n: usize) -> (r: &str)
    requires
        cut_ok(t@, n as int),
    ensures
        r@ == cut(t@, n as int),
{
    if byte_len(t) > n {
        byte_prefix(t, n)
    } else {
        t
    }
}

} // verus!
