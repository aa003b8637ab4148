//! A JSON value as the connectors read it from API responses and tool arguments,
//! with the accessors they use and its compact text rendering.
use vstd::prelude::*;
use crate::text::{dec_int, dec_nat, hex_digit, hex_digit_char, owned, push_char, push_i64, push_str, push_u64, str_chars, str_eq};

verus! {

/// A JSON value. Numbers keep the distinction the connectors read them by: non-negative
/// integers, negative integers, and other numbers kept as their text.
pub enum Json {
    Null,
    Bool(bool),
    /// A non-negative integer.
    PosInt(u64),
    /// A negative integer.
    NegInt(i64),
    /// A number with a fraction or an exponent, as its JSON text.
    Float(String),
    Str(String),
    Array(Vec<Json>),
    /// The members of an object, in order.
    Object(Vec<(String, Json)>),
}

/// The member named `key` among `fields`: the first one with that name.
pub open spec fn find_field(fields: Seq<(String, Json)>, key: Seq<char>) -> Option<Json>
    decreases fields.len(),
{
    if fields.len() == 0 {
        None
    } else if fields[0].0@ == key {
        Some(fields[0].1)
    } else {
        find_field(fields.drop_first(), key)
    }
}

proof fn lemma_find_field_skip(fields: Seq<(String, Json)>, key: Seq<char>, i: int)
    requires
        0 <= i <= fields.len(),
        forall|j: int| 0 <= j < i ==> fields[j].0@ != key,
    ensures
        find_field(fields, key) == find_field(fields.skip(i), key),
    decreases i,
{
    if i > 0 {
        lemma_find_field_skip(fields.drop_first(), key, i - 1);
        assert(fields.drop_first().skip(i - 1) == fields.skip(i));
    } else {
        assert(fields.skip(0) == fields);
    }
}

impl Json {
    /// The member `key` of an object; `None` for a missing member or a value that is not
    /// an object.
    pub open spec fn spec_get(self, key: Seq<char>) -> Option<Json> {
        match self {
            Json::Object(fields) => find_field(fields@, key),
            _ => None,
        }
    }

    /// The member `key`, or `Null` where `spec_get` has none (JSON indexing by name).
    pub open spec fn at(self, key: Seq<char>) -> Json {
        match self.spec_get(key) {
            Some(v) => v,
            None => Json::Null,
        }
    }

    /// The text of a string value.
    pub open spec fn str_of(self) -> Option<Seq<char>> {
        match self {
            Json::Str(s) => Some(s@),
            _ => None,
        }
    }

    /// The value of a boolean.
    pub open spec fn bool_of(self) -> Option<bool> {
        match self {
            Json::Bool(b) => Some(b),
            _ => None,
        }
    }

    /// The value of an integer that fits in `i64`.
    pub open spec fn i64_of(self) -> Option<i64> {
        match self {
            Json::PosInt(n) => if n <= i64::MAX { Some(n as i64) } else { None },
            Json::NegInt(n) => Some(n),
            _ => None,
        }
    }

    /// The value of a non-negative integer.
    pub open spec fn u64_of(self) -> Option<u64> {
        match self {
            Json::PosInt(n) => Some(n),
            _ => None,
        }
    }

    /// The elements of an array.
    pub open spec fn array_of(self) -> Option<Seq<Json>> {
        match self {
            Json::Array(items) => Some(items@),
            _ => None,
        }
    }

    /// The member `key` of an object (serde_json `Value::get`).
    pub fn get(&self, key: &str) -> (r: Option<&Json>)
        ensures
            r matches Some(v) ==> self.spec_get(key@) == Some(*v),
            r is None ==> self.spec_get(key@) is None,
    {
        match self {
            Json::Object(fields) => {
                let n = fields.len();
                for i in 0..n
                    invariant
                        n == fields@.len(),
                        *self == Json::Object(*fields),
                        forall|j: int| 0 <= j < i ==> fields@[j].0@ != key@,
                {
                    if str_eq(fields[i].0.as_str(), key) {
                        proof {
                            lemma_find_field_skip(fields@, key@, i as int);
                            assert(fields@.skip(i as int)[0] == fields@[i as int]);
                        }
                        return Some(&fields[i].1);
                    }
                }
                proof {
                    lemma_find_field_skip(fields@, key@, n as int);
                }
                None
            },
            _ => None,
        }
    }

    /// The text of a string value (serde_json `Value::as_str`).
    pub fn as_str(&self) -> (r: Option<&str>)
        ensures
            r matches Some(s) ==> self.str_of() == Some(s@),
            r is None ==> self.str_of() is None,
    {
        match self {
            Json::Str(s) => Some(s.as_str()),
            _ => None,
        }
    }

    /// The value of a boolean (serde_json `Value::as_bool`).
    pub fn as_bool(&self) -> (r: Option<bool>)
        ensures
            r == self.bool_of(),
    {
        match self {
            Json::Bool(b) => Some(*b),
            _ => None,
        }
    }

    /// The value of an integer that fits in `i64` (serde_json `Value::as_i64`).
    pub fn as_i64(&self) -> (r: Option<i64>)
        ensures
            r == self.i64_of(),
    {
        match self {
            Json::PosInt(n) => if *n <= 9223372036854775807u64 { Some(*n as i64) } else { None },
            Json::NegInt(n) => Some(*n),
            _ => None,
        }
    }

    /// The value of a non-negative integer (serde_json `Value::as_u64`).
    pub fn as_u64(&self) -> (r: Option<u64>)
        ensures
            r == self.u64_of(),
    {
        match self {
            Json::PosInt(n) => Some(*n),
            _ => None,
        }
    }

    /// The elements of an array (serde_json `Value::as_array`).
    pub fn as_array(&self) -> (r: Option<&Vec<Json>>)
        ensures
            r matches Some(a) ==> self.array_of() == Some(a@),
            r is None ==> self.array_of() is None,
    {
        match self {
            Json::Array(items) => Some(items),
            _ => None,
        }
    }

    /// Whether the value is an object.
    pub fn is_object(&self) -> (r: bool)
        ensures
            r == (*self is Object),
    {
        match self {
            Json::Object(_) => true,
            _ => false,
        }
    }
}

/// The member `key` of `v`, as text.
pub fn get_str<'a>(v: &'a Json, key: &str) -> (r: Option<&'a str>)
    ensures
        r matches Some(s) ==> v.at(key@).str_of() == Some(s@),
        r is None ==> v.at(key@).str_of() is None,
{
    match v.get(key) {
        Some(x) => x.as_str(),
        None => None,
    }
}

/// The member `key` of `v`, as a boolean.
pub fn get_bool(v: &Json, key: &str) -> (r: Option<bool>)
    ensures
        r == v.at(key@).bool_of(),
{
    match v.get(key) {
        Some(x) => x.as_bool(),
        None => None,
    }
}

/// The member `key` of `v`, as an `i64`.
pub fn get_i64(v: &Json, key: &str) -> (r: Option<i64>)
    ensures
        r == v.at(key@).i64_of(),
{
    match v.get(key) {
        Some(x) => x.as_i64(),
        None => None,
    }
}

/// The member `key` of `v`, as a `u64`.
pub fn get_u64(v: &Json, key: &str) -> (r: Option<u64>)
    ensures
        r == v.at(key@).u64_of(),
{
    match v.get(key) {
        Some(x) => x.as_u64(),
        None => None,
    }
}

/// The member `key` of `v`, as an array.
pub fn get_array<'a>(v: &'a Json, key: &str) -> (r: Option<&'a Vec<Json>>)
    ensures
        r matches Some(a) ==> v.at(key@).array_of() == Some(a@),
        r is None ==> v.at(key@).array_of() is None,
{
    match v.get(key) {
        Some(x) => x.as_array(),
        None => None,
    }
}

/// How serde_json writes one character inside a string literal.
pub open spec fn escape_char(c: char) -> Seq<char> {
    if c == '"' {
        seq!['\\', '"']
    } else if c == '\\' {
        seq!['\\', '\\']
    } else if c == '\u{8}' {
        seq!['\\', 'b']
    } else if c == '\u{c}' {
        seq!['\\', 'f']
    } else if c == '\n' {
        seq!['\\', 'n']
    } else if c == '\r' {
        seq!['\\', 'r']
    } else if c == '\t' {
        seq!['\\', 't']
    } else if (c as u32) < 0x20 {
        seq!['\\', 'u', '0', '0', hex_digit((c as u32 / 16) as int), hex_digit((c as u32 % 16) as int)]
    } else {
        seq![c]
    }
}

/// The escaped form of a character sequence.
pub open spec fn escape_chars(s: Seq<char>) -> Seq<char>
    decreases s.len(),
{
    if s.len() == 0 {
        seq![]
    } else {
        escape_chars(s.drop_last()) + escape_char(s.last())
    }
}

/// A JSON string literal holding `s`.
pub open spec fn quoted(s: Seq<char>) -> Seq<char> {
    seq!['"'] + escape_chars(s) + seq!['"']
}

/// The compact JSON text of a value, as serde_json renders it.
pub open spec fn json_text(v: Json) -> Seq<char>
    decreases v,
{
    match v {
        Json::Null => seq!['n', 'u', 'l', 'l'],
        Json::Bool(b) => if b { seq!['t', 'r', 'u', 'e'] } else { seq!['f', 'a', 'l', 's', 'e'] },
        Json::PosInt(n) => dec_nat(n as nat),
        Json::NegInt(n) => dec_int(n as int),
        Json::Float(t) => t@,
        Json::Str(s) => quoted(s@),
        Json::Array(items) => seq!['['] + items_text(items@) + seq![']'],
        Json::Object(fields) => seq!['{'] + fields_text(fields@) + seq!['}'],
    }
}

/// The elements of an array, separated by commas.
pub open spec fn items_text(items: Seq<Json>) -> Seq<char>
    decreases items,
{
    if items.len() == 0 {
        seq![]
    } else if items.len() == 1 {
        json_text(items[0])
    } else {
        items_text(items.drop_last()) + seq![','] + json_text(items.last())
    }
}

/// The members of an object as `"key":value`, separated by commas.
pub open spec fn fields_text(fields: Seq<(String, Json)>) -> Seq<char>
    decreases fields,
{
    if fields.len() == 0 {
        seq![]
    } else if fields.len() == 1 {
        quoted(fields[0].0@) + seq![':'] + json_text(fields[0].1)
    } else {
        fields_text(fields.drop_last()) + seq![','] + quoted(fields.last().0@) + seq![':'] + json_text(
            fields.last().1,
        )
    }
}

fn push_escaped_char(out: &mut String, c: char)
    ensures
        final(out)@ == old(out)@ + escape_char(c),
{
    if c == '"' {
        push_char(out, '\\');
        push_char(out, '"');
    } else if c == '\\' {
        push_char(out, '\\');
        push_char(out, '\\');
    } else if c == '\u{8}' {
        push_char(out, '\\');
        push_char(out, 'b');
    } else if c == '\u{c}' {
        push_char(out, '\\');
        push_char(out, 'f');
    } else if c == '\n' {
        push_char(out, '\\');
        push_char(out, 'n');
    } else if c == '\r' {
        push_char(out, '\\');
        push_char(out, 'r');
    } else if c == '\t' {
        push_char(out, '\\');
        push_char(out, 't');
    } else if (c as u32) < 0x20 {
        push_char(out, '\\');
        push_char(out, 'u');
        push_char(out, '0');
        push_char(out, '0');
        push_char(out, hex_digit_char(c as u32 / 16));
        push_char(out, hex_digit_char(c as u32 % 16));
    } else {
        push_char(out, c);
    }
}

/// Appends `s` as a JSON string literal.
pub fn push_quoted(out: &mut String, s: &str)
    ensures
        final(out)@ == old(out)@ + quoted(s@),
{
    let cs = crate::text::str_chars(s);
    push_char(out, '"');
    let n = cs.len();
    for i in 0..n
        invariant
            n == cs@.len(),
            cs@ == s@,
            out@ == old(out)@ + seq!['"'] + escape_chars(cs@.take(i as int)),
    {
        push_escaped_char(out, cs[i]);
        assert(cs@.take(i + 1).drop_last() == cs@.take(i as int));
    }
    assert(cs@.take(n as int) == cs@);
    push_char(out, '"');
}

/// Appends the compact JSON text of `v`.
pub fn write_json(out: &mut String, v: &Json)
    ensures
        final(out)@ == old(out)@ + json_text(*v),
    decreases v,
{
    match v {
        Json::Null => {
            push_char(out, 'n');
            push_char(out, 'u');
            push_char(out, 'l');
            push_char(out, 'l');
        },
        Json::Bool(b) => {
            if *b {
                push_char(out, 't');
                push_char(out, 'r');
                push_char(out, 'u');
                push_char(out, 'e');
            } else {
                push_char(out, 'f');
                push_char(out, 'a');
                push_char(out, 'l');
                push_char(out, 's');
                push_char(out, 'e');
            }
        },
        Json::PosInt(n) => push_u64(out, *n),
        Json::NegInt(n) => push_i64(out, *n),
        Json::Float(t) => push_str(out, t.as_str()),
        Json::Str(s) => push_quoted(out, s.as_str()),
        Json::Array(items) => {
            push_char(out, '[');
            let n = items.len();
            for i in 0..n
                invariant
                    n == items@.len(),
                    *v == Json::Array(*items),
                    out@ == old(out)@ + seq!['['] + items_text(items@.take(i as int)),
            {
                assert(items@.take(i + 1).drop_last() == items@.take(i as int));
                if i > 0 {
                    push_char(out, ',');
                }
                proof {
                    assert(decreases_to!(*v => v->Array_0));
                    assert(decreases_to!(v->Array_0 => items@));
                    assert(decreases_to!(items@ => items@[i as int]));
                }
                write_json(out, &items[i]);
            }
            assert(items@.take(n as int) == items@);
            push_char(out, ']');
        },
        Json::Object(fields) => {
            push_char(out, '{');
            let n = fields.len();
            for i in 0..n
                invariant
                    n == fields@.len(),
                    *v == Json::Object(*fields),
                    out@ == old(out)@ + seq!['{'] + fields_text(fields@.take(i as int)),
            {
                assert(fields@.take(i + 1).drop_last() == fields@.take(i as int));
                if i > 0 {
                    push_char(out, ',');
                }
                push_quoted(out, fields[i].0.as_str());
                push_char(out, ':');
                proof {
                    let f = fields@[i as int];
                    assert(decreases_to!(*v => v->Object_0));
                    assert(decreases_to!(v->Object_0 => fields@));
                    assert(decreases_to!(fields@ => f));
                    assert(decreases_to!(f => f.1));
                }
                write_json(out, &fields[i].1);
            }
            assert(fields@.take(n as int) == fields@);
            push_char(out, '}');
        },
    }
}

/// The compact JSON text of `v` (serde_json `to_string`, and `Display` of a value).
pub fn to_json_string(v: &Json) -> (s: String)
    ensures
        s@ == json_text(*v),
{
    let mut s = String::new();
    write_json(&mut s, v);
    assert(s@ == Seq::<char>::empty() + json_text(*v));
    s
}

/// `level` levels of two-space indentation.
pub open spec fn indent(level: nat) -> Seq<char>
    decreases level,
{
    if level == 0 {
        seq![]
    } else {
        indent((level - 1) as nat) + seq![' ', ' ']
    }
}

/// The pretty JSON text of a value at nesting `level`, as serde_json `to_string_pretty`
/// renders it: one element or member per line, indented by two spaces per level.
pub open spec fn pretty_text(v: Json, level: nat) -> Seq<char>
    decreases v,
{
    match v {
        Json::Array(items) => if items@.len() == 0 {
            seq!['[', ']']
        } else {
            seq!['['] + pretty_items(items@, level) + seq!['\n'] + indent(level) + seq![']']
        },
        Json::Object(fields) => if fields@.len() == 0 {
            seq!['{', '}']
        } else {
            seq!['{'] + pretty_fields(fields@, level) + seq!['\n'] + indent(level) + seq!['}']
        },
        _ => json_text(v),
    }
}

/// The elements of a non-empty array, each on its own line one level deeper.
pub open spec fn pretty_items(items: Seq<Json>, level: nat) -> Seq<char>
    decreases items,
{
    if items.len() == 0 {
        seq![]
    } else if items.len() == 1 {
        seq!['\n'] + indent(level + 1) + pretty_text(items[0], level + 1)
    } else {
        pretty_items(items.drop_last(), level) + seq![',', '\n'] + indent(level + 1) + pretty_text(
            items.last(),
            level + 1,
        )
    }
}

/// The members of a non-empty object as `"key": value`, each on its own line one level deeper.
pub open spec fn pretty_fields(fields: Seq<(String, Json)>, level: nat) -> Seq<char>
    decreases fields,
{
    if fields.len() == 0 {
        seq![]
    } else if fields.len() == 1 {
        seq!['\n'] + indent(level + 1) + quoted(fields[0].0@) + seq![':', ' '] + pretty_text(
            fields[0].1,
            level + 1,
        )
    } else {
        pretty_fields(fields.drop_last(), level) + seq![',', '\n'] + indent(level + 1) + quoted(
            fields.last().0@,
        ) + seq![':', ' '] + pretty_text(fields.last().1, level + 1)
    }
}

fn deeper(ind: &str, Ghost(level): Ghost<nat>) -> (r: String)
    requires
        ind@ == indent(level),
    ensures
        r@ == indent(level + 1),
{
    let mut r = String::new();
    push_str(&mut r, ind);
    push_char(&mut r, ' ');
    push_char(&mut r, ' ');
    assert(indent(level + 1) == indent(level) + seq![' ', ' ']);
    r
}

/// Appends the pretty JSON text of `v` at nesting `level`, whose indentation is `ind`.
fn write_pretty(out: &mut String, v: &Json, ind: &str, Ghost(level): Ghost<nat>)
    requires
        ind@ == indent(level),
    ensures
        final(out)@ == old(out)@ + pretty_text(*v, level),
    decreases v,
{
    match v {
        Json::Array(items) => {
            if items.len() == 0 {
                push_char(out, '[');
                push_char(out, ']');
                return;
            }
            let inner = deeper(ind, Ghost(level));
            push_char(out, '[');
            let n = items.len();
            for i in 0..n
                invariant
                    n == items@.len(),
                    ind@ == indent(level),
                    inner@ == indent(level + 1),
                    *v == Json::Array(*items),
                    out@ == old(out)@ + seq!['['] + pretty_items(items@.take(i as int), level),
            {
                assert(items@.take(i + 1).drop_last() == items@.take(i as int));
                if i > 0 {
                    push_char(out, ',');
                }
                push_char(out, '\n');
                push_str(out, inner.as_str());
                proof {
                    assert(decreases_to!(*v => v->Array_0));
                    assert(decreases_to!(v->Array_0 => items@));
                    assert(decreases_to!(items@ => items@[i as int]));
                }
                write_pretty(out, &items[i], inner.as_str(), Ghost(level + 1));
            }
            assert(items@.take(n as int) == items@);
            push_char(out, '\n');
            push_str(out, ind);
            push_char(out, ']');
        },
        Json::Object(fields) => {
            if fields.len() == 0 {
                push_char(out, '{');
                push_char(out, '}');
                return;
            }
            let inner = deeper(ind, Ghost(level));
            push_char(out, '{');
            let n = fields.len();
            for i in 0..n
                invariant
                    n == fields@.len(),
                    ind@ == indent(level),
                    inner@ == indent(level + 1),
                    *v == Json::Object(*fields),
                    out@ == old(out)@ + seq!['{'] + pretty_fields(fields@.take(i as int), level),
            {
                assert(fields@.take(i + 1).drop_last() == fields@.take(i as int));
                if i > 0 {
                    push_char(out, ',');
                }
                push_char(out, '\n');
                push_str(out, inner.as_str());
                push_quoted(out, fields[i].0.as_str());
                push_char(out, ':');
                push_char(out, ' ');
                proof {
                    let f = fields@[i as int];
                    assert(decreases_to!(*v => v->Object_0));
                    assert(decreases_to!(v->Object_0 => fields@));
                    assert(decreases_to!(fields@ => f));
                    assert(decreases_to!(f => f.1));
                }
                write_pretty(out, &fields[i].1, inner.as_str(), Ghost(level + 1));
            }
            assert(fields@.take(n as int) == fields@);
            push_char(out, '\n');
            push_str(out, ind);
            push_char(out, '}');
        },
        _ => write_json(out, v),
    }
}

/// The pretty JSON text of `v` (serde_json `to_string_pretty`).
pub fn to_json_string_pretty(v: &Json) -> (s: String)
    ensures
        s@ == pretty_text(*v, 0),
{
    let mut s = String::new();
    let ind = String::new();
    write_pretty(&mut s, v, ind.as_str(), Ghost(0));
    assert(s@ == Seq::<char>::empty() + pretty_text(*v, 0));
    s
}

/// Object members as (name, JSON text of the value) pairs.
pub open spec fn members_view(ms: Seq<(String, String)>) -> Seq<(Seq<char>, Seq<char>)> {
    ms.map_values(|p: (String, String)| (p.0@, p.1@))
}

/// The members of an object rendered: names with the JSON text of their values.
pub open spec fn rendered_fields(fs: Seq<(String, Json)>) -> Seq<(Seq<char>, Seq<char>)> {
    fs.map_values(|f: (String, Json)| (f.0@, json_text(f.1)))
}

/// Rendered members as `"name":value`, separated by commas.
pub open spec fn members_text(ms: Seq<(Seq<char>, Seq<char>)>) -> Seq<char>
    decreases ms.len(),
{
    if ms.len() == 0 {
        seq![]
    } else if ms.len() == 1 {
        quoted(ms[0].0) + seq![':'] + ms[0].1
    } else {
        members_text(ms.drop_last()) + seq![','] + quoted(ms.last().0) + seq![':'] + ms.last().1
    }
}

/// Whether `a` sorts before `b` by code points, which is the byte order of their UTF-8
/// encodings (the order of the keys of a JSON object map).
pub open spec fn key_less(a: Seq<char>, b: Seq<char>) -> bool
    decreases a.len(),
{
    if a.len() == 0 {
        b.len() > 0
    } else if b.len() == 0 {
        false
    } else if a[0] != b[0] {
        (a[0] as u32) < (b[0] as u32)
    } else {
        key_less(a.drop_first(), b.drop_first())
    }
}

/// The members with `k` set to `v`: replacing the value when `k` is present, else inserting
/// it before the first larger name (its place in a map sorted by name).
pub open spec fn set_member(ms: Seq<(Seq<char>, Seq<char>)>, k: Seq<char>, v: Seq<char>) -> Seq<
    (Seq<char>, Seq<char>),
>
    decreases ms.len(),
{
    if ms.len() == 0 {
        seq![(k, v)]
    } else if ms[0].0 == k {
        seq![(k, v)] + ms.drop_first()
    } else if key_less(k, ms[0].0) {
        seq![(k, v)] + ms
    } else {
        seq![ms[0]] + set_member(ms.drop_first(), k, v)
    }
}

fn key_less_exec(a: &Vec<char>, b: &Vec<char>) -> (r: bool)
    ensures
        r == key_less(a@, b@),
{
    let n = a.len();
    let m = b.len();
    let mut i: usize = 0;
    assert(a@.skip(0) == a@);
    assert(b@.skip(0) == b@);
    while i < n && i < m && a[i] == b[i]
        invariant
            n == a@.len(),
            m == b@.len(),
            i <= n,
            i <= m,
            forall|j: int| 0 <= j < i ==> a@[j] == b@[j],
            key_less(a@, b@) == key_less(a@.skip(i as int), b@.skip(i as int)),
        decreases n - i,
    {
        assert(a@.skip(i as int).drop_first() == a@.skip(i + 1));
        assert(b@.skip(i as int).drop_first() == b@.skip(i + 1));
        i = i + 1;
    }
    let ghost sa = a@.skip(i as int);
    let ghost sb = b@.skip(i as int);
    if i == n {
        assert(sa.len() == 0);
        i < m
    } else if i == m {
        assert(sb.len() == 0);
        false
    } else {
        assert(sa[0] == a@[i as int]);
        assert(sb[0] == b@[i as int]);
        (a[i] as u32) < (b[i] as u32)
    }
}

proof fn lemma_set_member_at(ms: Seq<(Seq<char>, Seq<char>)>, k: Seq<char>, v: Seq<char>, i: int)
    requires
        0 <= i <= ms.len(),
        forall|j: int| 0 <= j < i ==> ms[j].0 != k && !key_less(k, ms[j].0),
    ensures
        set_member(ms, k, v) == ms.take(i) + set_member(ms.skip(i), k, v),
    decreases i,
{
    if i > 0 {
        lemma_set_member_at(ms.drop_first(), k, v, i - 1);
        assert(ms.drop_first().skip(i - 1) == ms.skip(i));
        assert(ms.take(i) == seq![ms[0]] + ms.drop_first().take(i - 1));
    } else {
        assert(ms.skip(0) == ms);
    }
}

fn copy_member(p: &(String, String)) -> (r: (String, String))
    ensures
        r.0@ == p.0@,
        r.1@ == p.1@,
{
    (owned(p.0.as_str()), owned(p.1.as_str()))
}

/// The members with `k` set to the value text `v` (see [`set_member`]).
pub fn set_member_exec(ms: &Vec<(String, String)>, k: &str, v: String) -> (r: Vec<(String, String)>)
    ensures
        members_view(r@) == set_member(members_view(ms@), k@, v@),
{
    let ghost mv = members_view(ms@);
    let kc = str_chars(k);
    let n = ms.len();
    let mut i: usize = 0;
    let mut out: Vec<(String, String)> = Vec::new();
    while i < n && !str_eq(ms[i].0.as_str(), k) && !key_less_exec(&kc, &str_chars(ms[i].0.as_str()))
        invariant
            n == ms@.len(),
            mv == members_view(ms@),
            kc@ == k@,
            i <= n,
            forall|j: int| 0 <= j < i ==> mv[j].0 != k@ && !key_less(k@, mv[j].0),
            members_view(out@) == mv.take(i as int),
        decreases n - i,
    {
        let c = copy_member(&ms[i]);
        let ghost before = out@;
        out.push(c);
        assert(out@ == before.push(c));
        assert(members_view(out@) == members_view(before).push((c.0@, c.1@)));
        assert(mv.take(i + 1) == mv.take(i as int).push(mv[i as int]));
        i = i + 1;
    }
    proof {
        lemma_set_member_at(mv, k@, v@, i as int);
    }
    let replaces = i < n && str_eq(ms[i].0.as_str(), k);
    let ghost before = out@;
    let kv = (owned(k), v);
    out.push(kv);
    assert(out@ == before.push(kv));
    assert(members_view(out@) == members_view(before).push((k@, v@)));
    let mut j: usize = if replaces { i + 1 } else { i };
    let start = j;
    proof {
        let rest = mv.skip(i as int);
        if i < n {
            assert(rest[0] == mv[i as int]);
            if replaces {
                assert(set_member(rest, k@, v@) == seq![(k@, v@)] + rest.drop_first());
                assert(rest.drop_first() == mv.skip(i + 1));
            } else {
                assert(set_member(rest, k@, v@) == seq![(k@, v@)] + rest);
            }
        } else {
            assert(rest.len() == 0);
        }
        assert(members_view(out@) == mv.take(i as int) + seq![(k@, v@)]);
    }
    while j < n
        invariant
            n == ms@.len(),
            mv == members_view(ms@),
            start <= j <= n,
            members_view(out@) == mv.take(i as int) + seq![(k@, v@)] + mv.subrange(start as int, j as int),
        decreases n - j,
    {
        let c = copy_member(&ms[j]);
        let ghost before = out@;
        out.push(c);
        assert(out@ == before.push(c));
        assert(members_view(out@) == members_view(before).push((c.0@, c.1@)));
        assert(mv.subrange(start as int, j + 1) == mv.subrange(start as int, j as int).push(mv[j as int]));
        j = j + 1;
    }
    assert(mv.subrange(start as int, n as int) == mv.skip(start as int));
    out
}

/// The members of an object, rendered.
pub fn render_fields(fields: &Vec<(String, Json)>) -> (r: Vec<(String, String)>)
    ensures
        members_view(r@) == rendered_fields(fields@),
{
    let mut out: Vec<(String, String)> = Vec::new();
    let n = fields.len();
    for i in 0..n
        invariant
            n == fields@.len(),
            members_view(out@) == rendered_fields(fields@.take(i as int)),
    {
        out.push((owned(fields[i].0.as_str()), to_json_string(&fields[i].1)));
        assert(rendered_fields(fields@.take(i + 1)) == rendered_fields(fields@.take(i as int)).push(
            (fields@[i as int].0@, json_text(fields@[i as int].1)),
        ));
    }
    assert(fields@.take(n as int) == fields@);
    out
}

/// The JSON text of an object with the given rendered members.
pub fn members_to_text(ms: &Vec<(String, String)>) -> (r: String)
    ensures
        r@ == seq!['{'] + members_text(members_view(ms@)) + seq!['}'],
{
    let mut out = String::new();
    push_char(&mut out, '{');
    let n = ms.len();
    for i in 0..n
        invariant
            n == ms@.len(),
            out@ == seq!['{'] + members_text(members_view(ms@.take(i as int))),
    {
        assert(members_view(ms@.take(i + 1)).drop_last() == members_view(ms@.take(i as int)));
        if i > 0 {
            push_char(&mut out, ',');
        }
        push_quoted(&mut out, ms[i].0.as_str());
        push_char(&mut out, ':');
        push_str(&mut out, ms[i].1.as_str());
    }
    assert(ms@.take(n as int) == ms@);
    push_char(&mut out, '}');
    out
}

} // verus!
