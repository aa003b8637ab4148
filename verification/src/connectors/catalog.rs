//! The tool catalogs: their text, built from each tool's entry and name, and what they say of
//! each tool's input (the names of its properties and the names it requires).
use vstd::prelude::*;
use crate::fmt::{join_spec, join_strings, string_views};
use crate::json::{push_quoted, quoted};
use crate::text::{owned, push_str};

verus! {

/// A tool's name, the names of its input properties and the names it requires, as the
/// catalog lists them.
pub type SchemaNames = (&'static str, Vec<&'static str>, Vec<&'static str>);

/// The texts of a tool's schema names.
pub open spec fn schema_view(e: SchemaNames) -> (Seq<char>, Seq<Seq<char>>, Seq<Seq<char>>) {
    (e.0@, e.1@.map_values(|s: &'static str| s@), e.2@.map_values(|s: &'static str| s@))
}

/// Every name the schema requires is one of its properties.
pub open spec fn requires_properties(s: (Seq<char>, Seq<Seq<char>>, Seq<Seq<char>>)) -> bool {
    forall|j: int| 0 <= j < s.2.len() ==> s.1.contains(#[trigger] s.2[j])
}

/// The texts of a list of string slices.
pub open spec fn texts(s: Seq<&'static str>) -> Seq<Seq<char>> {
    s.map_values(|x: &'static str| x@)
}

/// One tool of a catalog: the JSON text of its members before its name (description and
/// input schema), then its name as the last member.
pub open spec fn entry_text(head: Seq<char>, name: Seq<char>) -> Seq<char> {
    head + quoted(name) + "}"@
}

/// The entries of a catalog, one per name.
pub open spec fn entries(heads: Seq<Seq<char>>, names: Seq<Seq<char>>) -> Seq<Seq<char>> {
    Seq::new(names.len(), |i: int| entry_text(heads[i], names[i]))
}

/// A catalog: a JSON array with one tool entry per line.
pub open spec fn catalog_text(heads: Seq<Seq<char>>, names: Seq<Seq<char>>) -> Seq<char> {
    "[\n"@ + join_spec(entries(heads, names), ",\n"@) + "\n]"@
}

/// The catalog of the tools with the given entry heads and names.
pub fn build_catalog(heads: &[&'static str], names: &[&'static str]) -> (r: String)
    requires
        heads@.len() == names@.len(),
    ensures
        r@ == catalog_text(texts(heads@), texts(names@)),
{
    let n = names.len();
    let mut parts: Vec<String> = Vec::new();
    let ghost hs = texts(heads@);
    let ghost ns = texts(names@);
    for i in 0..n
        invariant
            n == names@.len(),
            n == heads@.len(),
            hs == texts(heads@),
            ns == texts(names@),
            string_views(parts@) =~= entries(hs, ns).take(i as int),
    {
        let ghost before = parts@;
        let mut e = owned(heads[i]);
        push_quoted(&mut e, names[i]);
        push_str(&mut e, "}");
        parts.push(e);
        assert(string_views(parts@) =~= string_views(before).push(entry_text(hs[i as int], ns[i as int])));
        assert(entries(hs, ns).take(i + 1) =~= entries(hs, ns).take(i as int).push(
            entry_text(hs[i as int], ns[i as int]),
        ));
    }
    assert(entries(hs, ns).take(n as int) =~= entries(hs, ns));
    let mut out = owned("[\n");
    push_str(&mut out, join_strings(&parts, ",\n").as_str());
    push_str(&mut out, "\n]");
    out
}

} // verus!
