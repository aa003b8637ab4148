//! Where one piece of text stands inside another.
use vstd::prelude::*;

verus! {

/// `n` stands somewhere inside `t`.
pub open spec fn occurs(n: Seq<char>, t: Seq<char>) -> bool {
    exists|p: Seq<char>, s: Seq<char>| t == p + n + s
}

pub proof fn lemma_occurs_between(p: Seq<char>, n: Seq<char>, s: Seq<char>)
    ensures
        occurs(n, p + n + s),
{
    assert(p + n + s == p + n + s);
}

pub proof fn lemma_occurs_self(n: Seq<char>)
    ensures
        occurs(n, n),
{
    let e = Seq::<char>::empty();
    assert(n =~= e + n + e);
}

pub proof fn lemma_occurs_append(n: Seq<char>, t: Seq<char>, u: Seq<char>)
    requires
        occurs(n, t),
    ensures
        occurs(n, t + u),
{
    let (p, s) = choose|p: Seq<char>, s: Seq<char>| t == p + n + s;
    assert(t + u =~= p + n + (s + u));
}

pub proof fn lemma_occurs_prepend(n: Seq<char>, a: Seq<char>, t: Seq<char>)
    requires
        occurs(n, t),
    ensures
        occurs(n, a + t),
{
    let (p, s) = choose|p: Seq<char>, s: Seq<char>| t == p + n + s;
    assert(a + t =~= (a + p) + n + s);
}

/// The last four pieces of a text built piece by piece stand together in it.
pub proof fn lemma_occurs_tail4(x: Seq<char>, a: Seq<char>, b: Seq<char>, c: Seq<char>, d: Seq<char>)
    ensures
        occurs(a + b + c + d, x + a + b + c + d),
{
    let e = Seq::<char>::empty();
    assert(x + a + b + c + d =~= x + (a + b + c + d) + e);
}

/// The last five pieces of a text built piece by piece stand together in it.
pub proof fn lemma_occurs_tail5(
    x: Seq<char>,
    a: Seq<char>,
    b: Seq<char>,
    c: Seq<char>,
    d: Seq<char>,
    e: Seq<char>,
)
    ensures
        occurs(a + b + c + d + e, x + a + b + c + d + e),
{
    let z = Seq::<char>::empty();
    assert(x + a + b + c + d + e =~= x + (a + b + c + d + e) + z);
}

/// What holds a text holds what it holds.
pub proof fn lemma_occurs_trans(m: Seq<char>, n: Seq<char>, t: Seq<char>)
    requires
        occurs(m, n),
        occurs(n, t),
    ensures
        occurs(m, t),
{
    let (p, s) = choose|p: Seq<char>, s: Seq<char>| n == p + m + s;
    let (q, r) = choose|q: Seq<char>, r: Seq<char>| t == q + n + r;
    assert(t =~= (q + p) + m + (s + r));
}

/// The text of a listing regrouped around one of its lines.
pub proof fn lemma_regroup(h: Seq<char>, b: Seq<char>, l: Seq<char>, m: Seq<char>, a: Seq<char>)
    ensures
        h + (b + (l + m) + a) == (h + b + l) + (m + a),
{
    assert(h + (b + (l + m) + a) =~= (h + b + l) + (m + a));
}

/// A text built piece by piece is its head followed by its last four pieces.
pub proof fn lemma_split_tail4(u: Seq<char>, a: Seq<char>, b: Seq<char>, c: Seq<char>, d: Seq<char>)
    ensures
        u + a + b + c + d == u + (a + b + c + d),
{
    assert(u + a + b + c + d =~= u + (a + b + c + d));
}

/// The text of a listing regrouped around the head of one of its lines.
pub proof fn lemma_regroup_line(
    h: Seq<char>,
    b: Seq<char>,
    l: Seq<char>,
    m: Seq<char>,
    e: Seq<char>,
    a: Seq<char>,
)
    ensures
        h + (b + (l + m + e) + a) == (h + b + l) + (m + e + a),
{
    assert(h + (b + (l + m + e) + a) =~= (h + b + l) + (m + e + a));
}

/// The last six pieces of a text built piece by piece stand together in it.
pub proof fn lemma_occurs_tail6(
    x: Seq<char>,
    a: Seq<char>,
    b: Seq<char>,
    c: Seq<char>,
    d: Seq<char>,
    e: Seq<char>,
    f: Seq<char>,
)
    ensures
        occurs(a + b + c + d + e + f, x + a + b + c + d + e + f),
{
    let z = Seq::<char>::empty();
    assert(x + a + b + c + d + e + f =~= x + (a + b + c + d + e + f) + z);
}

/// A text built piece by piece is its head followed by its last two pieces.
pub proof fn lemma_split_tail2(u: Seq<char>, a: Seq<char>, b: Seq<char>)
    ensures
        u + a + b == u + (a + b),
{
    assert(u + a + b =~= u + (a + b));
}

/// A text built piece by piece is its head followed by its last three pieces.
pub proof fn lemma_split_tail3(u: Seq<char>, a: Seq<char>, b: Seq<char>, c: Seq<char>)
    ensures
        u + a + b + c == u + (a + b + c),
{
    assert(u + a + b + c =~= u + (a + b + c));
}

/// The last three pieces of a text built piece by piece stand together in it.
pub proof fn lemma_occurs_tail3(x: Seq<char>, a: Seq<char>, b: Seq<char>, c: Seq<char>)
    ensures
        occurs(a + b + c, x + a + b + c),
{
    let z = Seq::<char>::empty();
    assert(x + a + b + c =~= x + (a + b + c) + z);
}

} // verus!
