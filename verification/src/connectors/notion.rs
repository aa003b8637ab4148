//! Notion connector (REST API v1).
use vstd::prelude::*;
use crate::connectors::catalog::{build_catalog, catalog_text, requires_properties, schema_view, texts, SchemaNames};
use vstd::utf8::{encode_utf8, is_char_boundary};
use crate::fmt::{cut, cut_exec, cut_ok, byte_len, byte_prefix, byte_prefix_spec, get_nested_str_or, get_str_or, str_or};
use crate::http::{fail_view, ok_view, send, send_view, Method, Step, StepView};
use crate::json::{
    find_field, get_array, get_bool, get_str, get_u64, json_text, members_text, members_to_text,
    members_view, pretty_text, push_quoted, quoted, render_fields, rendered_fields, set_member,
    set_member_exec, to_json_string, to_json_string_pretty, write_json, Json,
};
use crate::text::{
    dec_nat, owned, push_chars, push_str, push_u64, str_chars, str_eq, trim_end_ws, trim_end_ws_spec,
    trim_start_char, trim_start_spec,
};

verus! {

/// Notion credentials (`~/.osmozzz/notion.toml`).
pub struct NotionConfig {
    pub token: String,
}

impl NotionConfig {
    /// The API URL of `path`, whatever slashes it starts with.
    pub fn api(&self, path: &str) -> (r: String)
        ensures
            r@ == "https://api.notion.com/v1/"@ + trim_start_spec(path@, '/'),
    {
        let mut out = owned("https://api.notion.com/v1/");
        let p = trim_start_char(&str_chars(path), '/');
        push_chars(&mut out, &p);
        out
    }
}

/// The concatenated `plain_text` members of rich-text items (items without one add nothing).
pub open spec fn plain_text_of(items: Seq<Json>) -> Seq<char>
    decreases items.len(),
{
    if items.len() == 0 {
        seq![]
    } else {
        plain_text_of(items.drop_last()) + str_or(items.last(), "plain_text"@, seq![])
    }
}

/// The plain text of a rich-text value: empty unless it is an array.
pub open spec fn plain_text_spec(rich_text: Json) -> Seq<char> {
    match rich_text.array_of() {
        Some(items) => plain_text_of(items),
        None => seq![],
    }
}

fn plain_text_items(items: &Vec<Json>) -> (r: String)
    ensures
        r@ == plain_text_of(items@),
{
    let mut out = String::new();
    let n = items.len();
    for i in 0..n
        invariant
            n == items@.len(),
            out@ == plain_text_of(items@.take(i as int)),
    {
        proof {
            reveal_strlit("");
        }
        push_str(&mut out, get_str_or(&items[i], "plain_text", ""));
        assert(items@.take(i + 1).drop_last() == items@.take(i as int));
    }
    assert(items@.take(n as int) == items@);
    out
}

/// Extracts the plain text of a Notion rich-text array.
pub fn extract_plain_text(rich_text: &Json) -> (r: String)
    ensures
        r@ == plain_text_spec(*rich_text),
{
    match rich_text.as_array() {
        Some(items) => plain_text_items(items),
        None => String::new(),
    }
}

/// The first property whose `type` is `"title"`.
pub open spec fn title_property(fields: Seq<(String, Json)>) -> Option<Json>
    decreases fields.len(),
{
    if fields.len() == 0 {
        None
    } else if fields[0].1.at("type"@).str_of() == Some("title"@) {
        Some(fields[0].1)
    } else {
        title_property(fields.drop_first())
    }
}

proof fn lemma_title_property_skip(fields: Seq<(String, Json)>, i: int)
    requires
        0 <= i <= fields.len(),
        forall|j: int| 0 <= j < i ==> fields[j].1.at("type"@).str_of() != Some("title"@),
    ensures
        title_property(fields) == title_property(fields.skip(i)),
    decreases i,
{
    if i > 0 {
        lemma_title_property_skip(fields.drop_first(), i - 1);
        assert(fields.drop_first().skip(i - 1) == fields.skip(i));
    } else {
        assert(fields.skip(0) == fields);
    }
}

/// The title of a page: the plain text of its first title property, else of its own
/// `title` array, else empty.
pub open spec fn page_title_spec(page: Json) -> Seq<char> {
    let from_props = match page.at("properties"@) {
        Json::Object(fields) => title_property(fields@),
        _ => None,
    };
    match from_props {
        Some(prop) => plain_text_spec(prop.at("title"@)),
        None => match page.at("title"@).array_of() {
            Some(items) => plain_text_of(items),
            None => seq![],
        },
    }
}

fn title_text(prop: &Json) -> (r: String)
    ensures
        r@ == plain_text_spec(prop.at("title"@)),
{
    match prop.get("title") {
        Some(t) => extract_plain_text(t),
        None => String::new(),
    }
}

/// Extracts the title of a Notion page from its properties.
pub fn extract_page_title(page: &Json) -> (r: String)
    ensures
        r@ == page_title_spec(*page),
{
    match page.get("properties") {
        Some(Json::Object(fields)) => {
            let n = fields.len();
            for i in 0..n
                invariant
                    n == fields@.len(),
                    page.at("properties"@) == Json::Object(*fields),
                    forall|j: int|
                        0 <= j < i ==> fields@[j].1.at("type"@).str_of() != Some("title"@),
            {
                let is_title = match get_str_or_none(&fields[i].1) {
                    Some(t) => str_eq(t, "title"),
                    None => false,
                };
                if is_title {
                    proof {
                        lemma_title_property_skip(fields@, i as int);
                        assert(fields@.skip(i as int)[0] == fields@[i as int]);
                    }
                    return title_text(&fields[i].1);
                }
            }
            proof {
                lemma_title_property_skip(fields@, n as int);
            }
        },
        _ => {},
    }
    match get_array(page, "title") {
        Some(items) => plain_text_items(items),
        None => String::new(),
    }
}

fn get_str_or_none(v: &Json) -> (r: Option<&str>)
    ensures
        r matches Some(s) ==> v.at("type"@).str_of() == Some(s@),
        r is None ==> v.at("type"@).str_of() is None,
{
    crate::json::get_str(v, "type")
}

/// One line describing a Notion user.
pub open spec fn user_line_spec(user: Json) -> Seq<char> {
    let id = str_or(user, "id"@, "—"@);
    let utype = str_or(user, "type"@, "—"@);
    let name = str_or(user, "name"@, "—"@);
    if utype == "person"@ {
        "["@ + id + "] "@ + name + " <"@ + str_or(user.at("person"@), "email"@, "—"@) + ">"@
    } else if utype == "bot"@ {
        "["@ + id + "] "@ + name + " (bot)"@
    } else {
        "["@ + id + "] "@ + name + " ("@ + utype + ")"@
    }
}

/// Formats a Notion user as one line.
pub fn format_user(user: &Json) -> (r: String)
    ensures
        r@ == user_line_spec(*user),
{
    let id = get_str_or(user, "id", "—");
    let utype = get_str_or(user, "type", "—");
    let name = get_str_or(user, "name", "—");
    let mut out = owned("[");
    push_str(&mut out, id);
    push_str(&mut out, "] ");
    push_str(&mut out, name);
    if str_eq(utype, "person") {
        let email = match user.get("person") {
            Some(p) => get_str_or(p, "email", "—"),
            None => "—",
        };
        push_str(&mut out, " <");
        push_str(&mut out, email);
        push_str(&mut out, ">");
    } else if str_eq(utype, "bot") {
        push_str(&mut out, " (bot)");
    } else {
        push_str(&mut out, " (");
        push_str(&mut out, utype);
        push_str(&mut out, ")");
    }
    out
}


// ─── Tool calls ──────────────────────────────────────────────────────────────

/// The API URL of `path` (see [`NotionConfig::api`]).
pub open spec fn api_url(path: Seq<char>) -> Seq<char> {
    "https://api.notion.com/v1/"@ + trim_start_spec(path, '/')
}

/// A tool that makes one request: the request, then the outcome rendered from its response.
pub open spec fn one_call(req: StepView, rs: Seq<Json>, text: spec_fn(Json) -> Seq<char>) -> StepView {
    if rs.len() == 0 {
        req
    } else {
        ok_view(text(rs[0]))
    }
}

/// The error for a missing argument.
pub open spec fn required_text(key: Seq<char>) -> Seq<char> {
    "Paramètre '"@ + key + "' requis"@
}

fn required(key: &str) -> (s: Step)
    ensures
        s@ == fail_view(required_text(key@)),
{
    let mut e = owned("Paramètre '");
    push_str(&mut e, key);
    push_str(&mut e, "' requis");
    Step::Done(Err(e))
}

fn fail(e: &str) -> (s: Step)
    ensures
        s@ == fail_view(e@),
{
    Step::Done(Err(owned(e)))
}

fn ok_text(t: String) -> (s: Step)
    ensures
        s@ == ok_view(t@),
{
    Step::Done(Ok(t))
}

fn concat(a: &str, b: &str) -> (r: String)
    ensures
        r@ == a@ + b@,
{
    let mut r = owned(a);
    push_str(&mut r, b);
    r
}

fn concat3(a: &str, b: &str, c: &str) -> (r: String)
    ensures
        r@ == a@ + b@ + c@,
{
    let mut r = owned(a);
    push_str(&mut r, b);
    push_str(&mut r, c);
    r
}

/// A page size argument, `d` by default, at most 100.
pub open spec fn page_size(args: Json, d: nat) -> nat {
    let n: nat = match args.at("page_size"@).u64_of() {
        Some(n) => n as nat,
        None => d,
    };
    if n > 100 {
        100
    } else {
        n
    }
}

fn get_page_size(args: &Json, d: u64) -> (n: u64)
    ensures
        n == page_size(*args, d as nat),
{
    let n = match get_u64(args, "page_size") {
        Some(n) => n,
        None => d,
    };
    if n > 100 {
        100
    } else {
        n
    }
}

/// Member `key` of `j` as a boolean, `d` when it is not one.
pub open spec fn flag_or(j: Json, key: Seq<char>, d: bool) -> bool {
    match j.at(key).bool_of() {
        Some(b) => b,
        None => d,
    }
}

fn get_flag_or(j: &Json, key: &str, d: bool) -> (b: bool)
    ensures
        b == flag_or(*j, key@, d),
{
    match get_bool(j, key) {
        Some(b) => b,
        None => d,
    }
}

/// A boolean as `Display` writes it.
pub open spec fn bool_text(b: bool) -> Seq<char> {
    json_text(Json::Bool(b))
}

fn bool_string(b: bool) -> (r: String)
    ensures
        r@ == bool_text(b),
{
    to_json_string(&Json::Bool(b))
}

/// A title, `(sans titre)` when empty.
pub open spec fn title_display(t: Seq<char>) -> Seq<char> {
    if t.len() == 0 {
        "(sans titre)"@
    } else {
        t
    }
}

fn push_title_display(out: &mut String, t: &str)
    ensures
        final(out)@ == old(out)@ + title_display(t@),
{
    if t.is_empty() {
        push_str(out, "(sans titre)");
    } else {
        push_str(out, t);
    }
}

/// The text of a block: the plain text of the `rich_text` member of the object named by its
/// type, empty when there is none.
pub open spec fn block_text(b: Json) -> Seq<char> {
    let bt = str_or(b, "type"@, "—"@);
    match b.at(bt) {
        Json::Object(fields) => match find_field(fields@, "rich_text"@) {
            Some(rt) => plain_text_spec(rt),
            None => seq![],
        },
        _ => seq![],
    }
}

fn get_block_text(b: &Json) -> (r: String)
    ensures
        r@ == block_text(*b),
{
    let bt = get_str_or(b, "type", "—");
    match b.get(bt) {
        Some(x) => match x {
            Json::Object(_) => match x.get("rich_text") {
                Some(rt) => extract_plain_text(rt),
                None => String::new(),
            },
            _ => String::new(),
        },
        None => String::new(),
    }
}


/// The kinds of listed items.
#[derive(Clone, Copy)]
pub enum Listed {
    Found,
    Entry,
    Block,
    User,
    Comment,
}

/// One listed item, with its line break.
pub open spec fn item_text(kind: Listed, j: Json) -> Seq<char> {
    match kind {
        Listed::Found => "• ["@ + str_or(j, "id"@, "—"@) + "] ("@ + str_or(j, "object"@, "—"@) + ") "@
            + title_display(page_title_spec(j)) + "\n  "@ + str_or(j, "url"@, "—"@) + "\n"@,
        Listed::Entry => "• ["@ + str_or(j, "id"@, "—"@) + "] "@ + title_display(page_title_spec(j))
            + " (modifié: "@ + str_or(j, "last_edited_time"@, "—"@) + ")\n"@,
        Listed::Block => "• ["@ + str_or(j, "id"@, "—"@) + "] ("@ + str_or(j, "type"@, "—"@) + ") "@ + cut(
            block_text(j),
            100,
        ) + "\n"@,
        Listed::User => "• "@ + user_line_spec(j) + "\n"@,
        Listed::Comment => "• ["@ + str_or(j, "id"@, "—"@) + "] ("@ + str_or(j, "created_time"@, "—"@)
            + ") par "@ + str_or(j.at("created_by"@), "id"@, "—"@) + ": "@ + plain_text_spec(
            j.at("rich_text"@),
        ) + "\n"@,
    }
}

/// An item can be listed: the text of a block can be cut for its preview.
pub open spec fn item_ok(kind: Listed, j: Json) -> bool {
    kind == Listed::Block ==> cut_ok(block_text(j), 100)
}

fn format_item(kind: Listed, j: &Json) -> (r: String)
    requires
        item_ok(kind, *j),
    ensures
        r@ == item_text(kind, *j),
{
    match kind {
        Listed::Found => {
            let mut out = owned("• [");
            push_str(&mut out, get_str_or(j, "id", "—"));
            push_str(&mut out, "] (");
            push_str(&mut out, get_str_or(j, "object", "—"));
            push_str(&mut out, ") ");
            push_title_display(&mut out, extract_page_title(j).as_str());
            push_str(&mut out, "\n  ");
            push_str(&mut out, get_str_or(j, "url", "—"));
            push_str(&mut out, "\n");
            out
        },
        Listed::Entry => {
            let mut out = owned("• [");
            push_str(&mut out, get_str_or(j, "id", "—"));
            push_str(&mut out, "] ");
            push_title_display(&mut out, extract_page_title(j).as_str());
            push_str(&mut out, " (modifié: ");
            push_str(&mut out, get_str_or(j, "last_edited_time", "—"));
            push_str(&mut out, ")\n");
            out
        },
        Listed::Block => {
            let text = get_block_text(j);
            let t = text.as_str();
            let mut out = owned("• [");
            push_str(&mut out, get_str_or(j, "id", "—"));
            push_str(&mut out, "] (");
            push_str(&mut out, get_str_or(j, "type", "—"));
            push_str(&mut out, ") ");
            if byte_len(t) > 100 {
                push_str(&mut out, byte_prefix(t, 100));
            } else {
                push_str(&mut out, t);
            }
            push_str(&mut out, "\n");
            out
        },
        Listed::User => {
            let mut out = owned("• ");
            push_str(&mut out, format_user(j).as_str());
            push_str(&mut out, "\n");
            out
        },
        Listed::Comment => {
            let mut out = owned("• [");
            push_str(&mut out, get_str_or(j, "id", "—"));
            push_str(&mut out, "] (");
            push_str(&mut out, get_str_or(j, "created_time", "—"));
            push_str(&mut out, ") par ");
            push_str(&mut out, get_nested_str_or(j, "created_by", "id", "—"));
            push_str(&mut out, ": ");
            let rt = match j.get("rich_text") {
                Some(x) => extract_plain_text(x),
                None => String::new(),
            };
            push_str(&mut out, rt.as_str());
            push_str(&mut out, "\n");
            out
        },
    }
}

/// The items' texts, one after the other.
pub open spec fn lines(kind: Listed, items: Seq<Json>) -> Seq<char>
    decreases items.len(),
{
    if items.len() == 0 {
        seq![]
    } else {
        lines(kind, items.drop_last()) + item_text(kind, items.last())
    }
}

/// The `results` of a list response, empty when it is not an array.
pub open spec fn results_of(r: Json) -> Seq<Json> {
    match r.at("results"@).array_of() {
        Some(a) => a,
        None => seq![],
    }
}

/// Every result can be listed.
pub open spec fn results_ok(kind: Listed, r: Json) -> bool {
    forall|i: int| 0 <= i < results_of(r).len() ==> #[trigger] item_ok(kind, results_of(r)[i])
}

/// The note that more results can be fetched, when there are.
pub open spec fn more_text(r: Json) -> Seq<char> {
    if flag_or(r, "has_more"@, false) {
        "\n(Suite disponible — start_cursor: "@ + str_or(r, "next_cursor"@, "—"@) + ")"@
    } else {
        seq![]
    }
}

/// A list response: `empty` when it has no result, else the count, `header`, the items and
/// the note on more results, without trailing white space.
pub open spec fn listing(kind: Listed, r: Json, header: Seq<char>, empty: Seq<char>) -> Seq<char> {
    let items = results_of(r);
    if items.len() == 0 {
        empty
    } else {
        trim_end_ws_spec(dec_nat(items.len()) + header + lines(kind, items) + more_text(r))
    }
}

fn listing_exec(kind: Listed, r: &Json, header: &str, empty: &str) -> (t: String)
    requires
        results_ok(kind, *r),
    ensures
        t@ == listing(kind, *r, header@, empty@),
{
    let items = match get_array(r, "results") {
        Some(a) => a,
        None => return owned(empty),
    };
    let n = items.len();
    if n == 0 {
        return owned(empty);
    }
    assert(results_of(*r) == items@);
    let mut out = String::new();
    push_u64(&mut out, n as u64);
    push_str(&mut out, header);
    let ghost head = out@;
    for i in 0..n
        invariant
            n == items@.len(),
            results_of(*r) == items@,
            results_ok(kind, *r),
            out@ == head + lines(kind, items@.take(i as int)),
    {
        assert(items@.take(i + 1).drop_last() == items@.take(i as int));
        assert(items@.take(i + 1).last() == items@[i as int]);
        assert(item_ok(kind, results_of(*r)[i as int]));
        push_str(&mut out, format_item(kind, &items[i]).as_str());
    }
    assert(items@.take(n as int) == items@);
    if get_flag_or(r, "has_more", false) {
        push_str(&mut out, "\n(Suite disponible — start_cursor: ");
        push_str(&mut out, get_str_or(r, "next_cursor", "—"));
        push_str(&mut out, ")");
    }
    assert(out@ =~= dec_nat(n as nat) + header@ + lines(kind, items@) + more_text(*r));
    trim_end_ws(out.as_str())
}


/// A string argument as an optional JSON member `,"key":"value"`.
pub open spec fn opt_str_member(lead: Seq<char>, key: Seq<char>, v: Option<Seq<char>>) -> Seq<char> {
    match v {
        Some(s) => lead + quoted(key) + ":"@ + quoted(s),
        None => seq![],
    }
}

fn push_opt_str_member(out: &mut String, lead: &str, key: &str, v: Option<&str>)
    ensures
        final(out)@ == old(out)@ + opt_str_member(
            lead@,
            key@,
            match v {
                Some(s) => Some(s@),
                None => None,
            },
        ),
{
    match v {
        Some(s) => {
            push_str(out, lead);
            push_quoted(out, key);
            push_str(out, ":");
            push_quoted(out, s);
        },
        None => {},
    }
}

/// The body of `notion_search`, members in name order.
pub open spec fn search_body(args: Json) -> Seq<char> {
    "{"@ + match args.at("filter_type"@).str_of() {
        Some(f) => "\"filter\":{\"property\":\"object\",\"value\":"@ + quoted(f) + "},"@,
        None => seq![],
    } + "\"page_size\":"@ + dec_nat(page_size(args, 20)) + opt_str_member(
        ","@,
        "query"@,
        args.at("query"@).str_of(),
    ) + ",\"sort\":{\"direction\":"@ + quoted(str_or(args, "sort_direction"@, "descending"@))
        + ",\"timestamp\":\"last_edited_time\"}"@ + opt_str_member(
        ","@,
        "start_cursor"@,
        args.at("start_cursor"@).str_of(),
    ) + "}"@
}

fn search_body_exec(args: &Json) -> (b: String)
    ensures
        b@ == search_body(*args),
{
    let mut body = owned("{");
    match get_str(args, "filter_type") {
        Some(f) => {
            push_str(&mut body, "\"filter\":{\"property\":\"object\",\"value\":");
            push_quoted(&mut body, f);
            push_str(&mut body, "},");
        },
        None => {},
    }
    push_str(&mut body, "\"page_size\":");
    push_u64(&mut body, get_page_size(args, 20));
    push_opt_str_member(&mut body, ",", "query", get_str(args, "query"));
    push_str(&mut body, ",\"sort\":{\"direction\":");
    push_quoted(&mut body, get_str_or(args, "sort_direction", "descending"));
    push_str(&mut body, ",\"timestamp\":\"last_edited_time\"}");
    push_opt_str_member(&mut body, ",", "start_cursor", get_str(args, "start_cursor"));
    push_str(&mut body, "}");
    assert(body@ =~= search_body(*args));
    body
}

/// A rich-text array holding `content` as one text item.
pub open spec fn text_block(content: Seq<char>) -> Seq<char> {
    "[{\"text\":{\"content\":"@ + quoted(content) + "},\"type\":\"text\"}]"@
}

fn text_block_exec(content: &str) -> (r: String)
    ensures
        r@ == text_block(content@),
{
    let mut r = owned("[{\"text\":{\"content\":");
    push_quoted(&mut r, content);
    push_str(&mut r, "},\"type\":\"text\"}]");
    r
}

/// The parent object of a page named by `page_key` or `db_key` among the arguments, if any.
pub open spec fn parent_of(args: Json, page_key: Seq<char>, db_key: Seq<char>) -> Option<Seq<char>> {
    match args.at(page_key).str_of() {
        Some(pid) => Some("{\"page_id\":"@ + quoted(pid) + ",\"type\":\"page_id\"}"@),
        None => match args.at(db_key).str_of() {
            Some(did) => Some("{\"database_id\":"@ + quoted(did) + ",\"type\":\"database_id\"}"@),
            None => None,
        },
    }
}

fn parent_exec(args: &Json, page_key: &str, db_key: &str) -> (r: Option<String>)
    ensures
        r matches Some(t) ==> parent_of(*args, page_key@, db_key@) == Some(t@),
        r is None ==> parent_of(*args, page_key@, db_key@) is None,
{
    match get_str(args, page_key) {
        Some(pid) => {
            let mut t = owned("{\"page_id\":");
            push_quoted(&mut t, pid);
            push_str(&mut t, ",\"type\":\"page_id\"}");
            Some(t)
        },
        None => match get_str(args, db_key) {
            Some(did) => {
                let mut t = owned("{\"database_id\":");
                push_quoted(&mut t, did);
                push_str(&mut t, ",\"type\":\"database_id\"}");
                Some(t)
            },
            None => None,
        },
    }
}

/// The members of an object argument (none when it is not an object).
pub open spec fn object_members(v: Json) -> Seq<(Seq<char>, Seq<char>)> {
    match v {
        Json::Object(fields) => rendered_fields(fields@),
        _ => seq![],
    }
}

/// The body of `notion_create_page`: children when given, the parent, and the properties with
/// the title set.
pub open spec fn create_page_body(args: Json, title: Seq<char>, parent: Seq<char>) -> Seq<char> {
    "{"@ + match args.at("content_blocks"@).array_of() {
        Some(_) => "\"children\":"@ + json_text(args.at("content_blocks"@)) + ","@,
        None => seq![],
    } + "\"parent\":"@ + parent + ",\"properties\":"@ + seq!['{'] + members_text(
        set_member(object_members(args.at("properties"@)), "title"@, text_block(title)),
    ) + seq!['}'] + "}"@
}

fn create_page_body_exec(args: &Json, title: &str, parent: &str) -> (b: String)
    ensures
        b@ == create_page_body(*args, title@, parent@),
{
    let mut body = owned("{");
    match args.get("content_blocks") {
        Some(c) => match c.as_array() {
            Some(_) => {
                push_str(&mut body, "\"children\":");
                write_json(&mut body, c);
                push_str(&mut body, ",");
            },
            None => {},
        },
        None => {},
    }
    push_str(&mut body, "\"parent\":");
    push_str(&mut body, parent);
    push_str(&mut body, ",\"properties\":");
    let base: Vec<(String, String)> = match args.get("properties") {
        Some(Json::Object(fields)) => render_fields(fields),
        _ => Vec::new(),
    };
    assert(members_view(base@) == object_members(args.at("properties"@)));
    let ms = set_member_exec(&base, "title", text_block_exec(title));
    push_str(&mut body, members_to_text(&ms).as_str());
    push_str(&mut body, "}");
    assert(body@ =~= create_page_body(*args, title@, parent@));
    body
}

/// The body of `notion_update_page`: whichever of `archived` and `properties` are given.
pub open spec fn update_page_body(args: Json) -> Seq<char> {
    let a = args.at("archived"@).bool_of();
    let p = args.at("properties"@);
    "{"@ + match a {
        Some(b) => "\"archived\":"@ + bool_text(b),
        None => seq![],
    } + (if a is Some && p is Object {
        ","@
    } else {
        seq![]
    }) + (if p is Object {
        "\"properties\":"@ + json_text(p)
    } else {
        seq![]
    }) + "}"@
}

/// The body of `notion_query_database`, members in name order.
pub open spec fn query_body(args: Json) -> Seq<char> {
    "{"@ + (if args.at("filter"@) is Object {
        "\"filter\":"@ + json_text(args.at("filter"@)) + ","@
    } else {
        seq![]
    }) + "\"page_size\":"@ + dec_nat(page_size(args, 20)) + match args.at("sorts"@).array_of() {
        Some(_) => ",\"sorts\":"@ + json_text(args.at("sorts"@)),
        None => seq![],
    } + opt_str_member(","@, "start_cursor"@, args.at("start_cursor"@).str_of()) + "}"@
}

fn query_body_exec(args: &Json) -> (b: String)
    ensures
        b@ == query_body(*args),
{
    let mut body = owned("{");
    match args.get("filter") {
        Some(f) => if f.is_object() {
            push_str(&mut body, "\"filter\":");
            write_json(&mut body, f);
            push_str(&mut body, ",");
        },
        None => {},
    }
    push_str(&mut body, "\"page_size\":");
    push_u64(&mut body, get_page_size(args, 20));
    match args.get("sorts") {
        Some(x) => match x.as_array() {
            Some(_) => {
                push_str(&mut body, ",\"sorts\":");
                write_json(&mut body, x);
            },
            None => {},
        },
        None => {},
    }
    push_opt_str_member(&mut body, ",", "start_cursor", get_str(args, "start_cursor"));
    push_str(&mut body, "}");
    assert(body@ =~= query_body(*args));
    body
}

/// The properties of a database, one line each, or `  (aucune)` when it has none.
pub open spec fn property_lines(fields: Seq<(String, Json)>) -> Seq<char>
    decreases fields.len(),
{
    if fields.len() == 0 {
        seq![]
    } else {
        property_lines(fields.drop_last()) + "  • "@ + fields.last().0@ + " ("@ + str_or(
            fields.last().1,
            "type"@,
            "—"@,
        ) + ")\n"@
    }
}

/// The property list of a database response.
pub open spec fn db_properties(r: Json) -> Seq<char> {
    match r.at("properties"@) {
        Json::Object(fields) => if fields@.len() > 0 {
            property_lines(fields@)
        } else {
            "  (aucune)\n"@
        },
        _ => "  (aucune)\n"@,
    }
}

fn db_properties_exec(r: &Json) -> (t: String)
    ensures
        t@ == db_properties(*r),
{
    match r.get("properties") {
        Some(Json::Object(fields)) => {
            let n = fields.len();
            if n == 0 {
                return owned("  (aucune)\n");
            }
            let mut out = String::new();
            for i in 0..n
                invariant
                    n == fields@.len(),
                    out@ == property_lines(fields@.take(i as int)),
            {
                assert(fields@.take(i + 1).drop_last() == fields@.take(i as int));
                assert(fields@.take(i + 1).last() == fields@[i as int]);
                push_str(&mut out, "  • ");
                push_str(&mut out, fields[i].0.as_str());
                push_str(&mut out, " (");
                push_str(&mut out, get_str_or(&fields[i].1, "type", "—"));
                push_str(&mut out, ")\n");
            }
            assert(fields@.take(n as int) == fields@);
            out
        },
        _ => owned("  (aucune)\n"),
    }
}

/// The parent of a page as `type / id`.
pub open spec fn parent_text(r: Json) -> Seq<char> {
    let p = r.at("parent"@);
    let t = str_or(p, "type"@, "—"@);
    t + " / "@ + if t == "page_id"@ {
        str_or(p, "page_id"@, "—"@)
    } else if t == "database_id"@ {
        str_or(p, "database_id"@, "—"@)
    } else if t == "workspace"@ {
        "workspace"@
    } else {
        "—"@
    }
}

fn parent_text_exec(r: &Json) -> (t: String)
    ensures
        t@ == parent_text(*r),
{
    let null = Json::Null;
    let p = match r.get("parent") {
        Some(p) => p,
        None => &null,
    };
    let ty = get_str_or(p, "type", "—");
    let mut out = owned(ty);
    push_str(&mut out, " / ");
    if str_eq(ty, "page_id") {
        push_str(&mut out, get_str_or(p, "page_id", "—"));
    } else if str_eq(ty, "database_id") {
        push_str(&mut out, get_str_or(p, "database_id", "—"));
    } else if str_eq(ty, "workspace") {
        push_str(&mut out, "workspace");
    } else {
        push_str(&mut out, "—");
    }
    out
}


/// The paging query of a listing: its page size, 50 by default, and the cursor when given.
pub open spec fn paging(args: Json) -> Seq<char> {
    "page_size="@ + dec_nat(page_size(args, 50)) + match args.at("start_cursor"@).str_of() {
        Some(c) => "&start_cursor="@ + c,
        None => seq![],
    }
}

fn push_paging(out: &mut String, args: &Json)
    ensures
        final(out)@ == old(out)@ + paging(*args),
{
    let ghost start = out@;
    push_str(out, "page_size=");
    push_u64(out, get_page_size(args, 50));
    match get_str(args, "start_cursor") {
        Some(c) => {
            push_str(out, "&start_cursor=");
            push_str(out, c);
        },
        None => {},
    }
    assert(out@ =~= start + paging(*args));
}

/// `notion_get_page`.
pub open spec fn page_text(r: Json) -> Seq<char> {
    "Page Notion\nID         : "@ + str_or(r, "id"@, "—"@) + "\nTitre      : "@ + title_display(
        page_title_spec(r),
    ) + "\nParent     : "@ + parent_text(r) + "\nArchivé    : "@ + bool_text(flag_or(r, "archived"@, false))
        + "\nURL        : "@ + str_or(r, "url"@, "—"@) + "\nCréée le   : "@ + str_or(
        r,
        "created_time"@,
        "—"@,
    ) + "\nModifiée   : "@ + str_or(r, "last_edited_time"@, "—"@)
}

/// The page tools.
pub open spec fn page_view(name: Seq<char>, args: Json, rs: Seq<Json>) -> StepView {
    if name == "notion_create_page"@ {
        match args.at("title"@).str_of() {
            None => fail_view(required_text("title"@)),
            Some(t) => match parent_of(args, "parent_page_id"@, "parent_database_id"@) {
                None => fail_view("Paramètre 'parent_page_id' ou 'parent_database_id' requis"@),
                Some(parent) => one_call(
                    send_view(Method::Post, api_url("pages"@), Some(create_page_body(args, t, parent))),
                    rs,
                    |r: Json|
                        "Page créée.\nID  : "@ + str_or(r, "id"@, "—"@) + "\nURL : "@ + str_or(r, "url"@, "—"@),
                ),
            },
        }
    } else {
        match args.at("page_id"@).str_of() {
            None => fail_view(required_text("page_id"@)),
            Some(pid) => if name == "notion_get_page"@ {
                one_call(send_view(Method::Get, api_url("pages/"@ + pid), None), rs, |r: Json| page_text(r))
            } else if name == "notion_update_page"@ {
                if !(args.at("properties"@) is Object) && args.at("archived"@).bool_of() is None {
                    fail_view("Au moins un paramètre parmi 'properties' ou 'archived' est requis"@)
                } else {
                    one_call(
                        send_view(Method::Patch, api_url("pages/"@ + pid), Some(update_page_body(args))),
                        rs,
                        |r: Json|
                            "Page "@ + str_or(r, "id"@, pid) + " mise à jour.\nArchivée    : "@ + bool_text(
                                flag_or(r, "archived"@, false),
                            ) + "\nModifiée le : "@ + str_or(r, "last_edited_time"@, "—"@),
                    )
                }
            } else if name == "notion_move_page"@ {
                match parent_of(args, "new_parent_page_id"@, "new_parent_database_id"@) {
                    None => fail_view(
                        "Paramètre 'new_parent_page_id' ou 'new_parent_database_id' requis"@,
                    ),
                    Some(parent) => one_call(
                        send_view(
                            Method::Patch,
                            api_url("pages/"@ + pid),
                            Some("{\"parent\":"@ + parent + "}"@),
                        ),
                        rs,
                        |r: Json|
                            "Page "@ + str_or(r, "id"@, pid) + " déplacée.\nModifiée le : "@ + str_or(
                                r,
                                "last_edited_time"@,
                                "—"@,
                            ),
                    ),
                }
            } else {
                match args.at("property_id"@).str_of() {
                    None => fail_view(required_text("property_id"@)),
                    Some(prop) => one_call(
                        send_view(Method::Get, api_url("pages/"@ + pid + "/properties/"@ + prop), None),
                        rs,
                        |r: Json| pretty_text(r, 0),
                    ),
                }
            },
        }
    }
}

/// `notion_get_database`.
pub open spec fn database_text(r: Json) -> Seq<char> {
    "Base de données Notion\nID         : "@ + str_or(r, "id"@, "—"@) + "\nTitre      : "@ + title_display(
        plain_text_spec(r.at("title"@)),
    ) + "\nURL        : "@ + str_or(r, "url"@, "—"@) + "\nCréée le   : "@ + str_or(
        r,
        "created_time"@,
        "—"@,
    ) + "\nModifiée   : "@ + str_or(r, "last_edited_time"@, "—"@) + "\nPropriétés :\n"@ + db_properties(r)
}

/// The database tools.
pub open spec fn database_view(name: Seq<char>, args: Json, rs: Seq<Json>) -> StepView {
    match args.at("database_id"@).str_of() {
        None => fail_view(required_text("database_id"@)),
        Some(id) => if name == "notion_get_database"@ {
            one_call(send_view(Method::Get, api_url("databases/"@ + id), None), rs, |r: Json| database_text(r))
        } else {
            one_call(
                send_view(Method::Post, api_url("databases/"@ + id + "/query"@), Some(query_body(args))),
                rs,
                |r: Json|
                    listing(
                        Listed::Entry,
                        r,
                        " entrée(s) :\n"@,
                        "Aucun résultat dans la base de données "@ + id + "."@,
                    ),
            )
        },
    }
}

/// `notion_get_block`.
pub open spec fn block_detail(r: Json) -> Seq<char> {
    let text = block_text(r);
    "Bloc Notion\nID          : "@ + str_or(r, "id"@, "—"@) + "\nType        : "@ + str_or(r, "type"@, "—"@)
        + "\nCréé le     : "@ + str_or(r, "created_time"@, "—"@) + "\nModifié le  : "@ + str_or(
        r,
        "last_edited_time"@,
        "—"@,
    ) + "\nA des enfants: "@ + bool_text(flag_or(r, "has_children"@, false)) + "\nArchivé     : "@
        + bool_text(flag_or(r, "archived"@, false)) + if text.len() > 0 {
        "\nContenu     : "@ + text
    } else {
        seq![]
    }
}

/// The block tools.
pub open spec fn block_view(name: Seq<char>, args: Json, rs: Seq<Json>) -> StepView {
    match args.at("block_id"@).str_of() {
        None => fail_view(required_text("block_id"@)),
        Some(id) => if name == "notion_get_block"@ {
            one_call(send_view(Method::Get, api_url("blocks/"@ + id), None), rs, |r: Json| block_detail(r))
        } else if name == "notion_get_block_children"@ {
            one_call(
                send_view(
                    Method::Get,
                    api_url("blocks/"@ + id + "/children?"@) + ("&"@ + paging(args)),
                    None,
                ),
                rs,
                |r: Json| listing(Listed::Block, r, " bloc(s) :\n"@, "Aucun bloc enfant pour "@ + id + "."@),
            )
        } else if name == "notion_append_block_children"@ {
            match args.at("children"@).array_of() {
                None => fail_view("Paramètre 'children' requis (tableau de blocs Notion)"@),
                Some(_) => one_call(
                    send_view(
                        Method::Patch,
                        api_url("blocks/"@ + id + "/children"@),
                        Some("{\"children\":"@ + json_text(args.at("children"@)) + "}"@),
                    ),
                    rs,
                    |r: Json| dec_nat(results_of(r).len()) + " bloc(s) ajouté(s) à "@ + id + "."@,
                ),
            }
        } else if name == "notion_update_block"@ {
            if !(args.at("block_content"@) is Object) {
                fail_view("Paramètre 'block_content' requis (objet JSON Notion)"@)
            } else {
                one_call(
                    send_view(Method::Patch, api_url("blocks/"@ + id), Some(json_text(args.at("block_content"@)))),
                    rs,
                    |r: Json|
                        "Bloc "@ + str_or(r, "id"@, id) + " mis à jour. Modifié le : "@ + str_or(
                            r,
                            "last_edited_time"@,
                            "—"@,
                        ),
                )
            }
        } else {
            one_call(
                send_view(Method::Delete, api_url("blocks/"@ + id), None),
                rs,
                |r: Json|
                    "Bloc "@ + str_or(r, "id"@, id) + " supprimé (archivé: "@ + bool_text(
                        flag_or(r, "archived"@, true),
                    ) + ")."@,
            )
        },
    }
}

/// The user tools.
pub open spec fn user_view(name: Seq<char>, args: Json, rs: Seq<Json>) -> StepView {
    if name == "notion_get_user"@ {
        match args.at("user_id"@).str_of() {
            None => fail_view(required_text("user_id"@)),
            Some(uid) => one_call(
                send_view(Method::Get, api_url("users/"@ + uid), None),
                rs,
                |r: Json| "Utilisateur Notion\n"@ + user_line_spec(r),
            ),
        }
    } else if name == "notion_list_users"@ {
        one_call(
            send_view(
                Method::Get,
                api_url("users"@) + ("?"@ + paging(args)),
                None,
            ),
            rs,
            |r: Json| listing(Listed::User, r, " utilisateur(s) :\n"@, "Aucun utilisateur trouvé."@),
        )
    } else {
        one_call(
            send_view(Method::Get, api_url("users/me"@), None),
            rs,
            |r: Json|
                "Bot Notion\nID              : "@ + str_or(r, "id"@, "—"@) + "\nNom             : "@ + str_or(
                    r,
                    "name"@,
                    "—"@,
                ) + "\nPropriétaire    : "@ + str_or(r.at("bot"@).at("owner"@), "type"@, "—"@)
                    + "\nEspace de travail: "@ + str_or(r.at("bot"@), "workspace_name"@, "—"@),
        )
    }
}

/// The comment tools.
pub open spec fn comment_view(name: Seq<char>, args: Json, rs: Seq<Json>) -> StepView {
    if name == "notion_create_comment"@ {
        match args.at("content"@).str_of() {
            None => fail_view(required_text("content"@)),
            Some(c) => {
                let body = match args.at("page_id"@).str_of() {
                    Some(pid) => Some(
                        "{\"parent\":{\"page_id\":"@ + quoted(pid) + ",\"type\":\"page_id\"},\"rich_text\":"@
                            + text_block(c) + "}"@,
                    ),
                    None => match args.at("discussion_id"@).str_of() {
                        Some(did) => Some(
                            "{\"discussion_id\":"@ + quoted(did) + ",\"rich_text\":"@ + text_block(c) + "}"@,
                        ),
                        None => None,
                    },
                };
                match body {
                    None => fail_view("Paramètre 'page_id' ou 'discussion_id' requis"@),
                    Some(b) => one_call(
                        send_view(Method::Post, api_url("comments"@), Some(b)),
                        rs,
                        |r: Json|
                            "Commentaire créé.\nID        : "@ + str_or(r, "id"@, "—"@) + "\nCréé le   : "@
                                + str_or(r, "created_time"@, "—"@),
                    ),
                }
            },
        }
    } else {
        match args.at("block_id"@).str_of() {
            None => fail_view(required_text("block_id"@)),
            Some(id) => one_call(
                send_view(
                    Method::Get,
                    api_url("comments"@) + ("?block_id="@ + id + "&"@ + paging(args)),
                    None,
                ),
                rs,
                |r: Json|
                    listing(Listed::Comment, r, " commentaire(s) :\n"@, "Aucun commentaire pour "@ + id + "."@),
            ),
        }
    }
}

/// The body of `notion_create_data_source`: the given config and type.
pub open spec fn data_source_body(args: Json) -> Seq<char> {
    let c = args.spec_get("config"@);
    let t = args.at("type"@).str_of();
    "{"@ + match c {
        Some(v) => "\"config\":"@ + json_text(v),
        None => seq![],
    } + (if c is Some && t is Some {
        ","@
    } else {
        seq![]
    }) + match t {
        Some(s) => "\"type\":"@ + quoted(s),
        None => seq![],
    } + "}"@
}

/// The data-source tools.
pub open spec fn data_source_view(name: Seq<char>, args: Json, rs: Seq<Json>) -> StepView {
    if name == "notion_list_data_source_templates"@ {
        one_call(
            send_view(Method::Get, api_url("data-source-templates"@), None),
            rs,
            |r: Json| pretty_text(r, 0),
        )
    } else if name == "notion_create_data_source"@ {
        one_call(
            send_view(Method::Post, api_url("data-sources"@), Some(data_source_body(args))),
            rs,
            |r: Json|
                "Data source créée.\nID   : "@ + str_or(r, "id"@, "—"@) + "\nType : "@ + str_or(r, "type"@, "—"@),
        )
    } else {
        match args.at("data_source_id"@).str_of() {
            None => fail_view(required_text("data_source_id"@)),
            Some(id) => if name == "notion_get_data_source"@ {
                one_call(send_view(Method::Get, api_url("data-sources/"@ + id), None), rs, |r: Json| pretty_text(r, 0))
            } else {
                one_call(
                    send_view(
                        Method::Patch,
                        api_url("data-sources/"@ + id),
                        Some(
                            "{"@ + match args.spec_get("config"@) {
                                Some(v) => "\"config\":"@ + json_text(v),
                                None => seq![],
                            } + "}"@,
                        ),
                    ),
                    rs,
                    |r: Json| "Data source "@ + str_or(r, "id"@, id) + " mise à jour."@,
                )
            },
        }
    }
}

/// The page tools, by name.
pub open spec fn is_page_tool(name: Seq<char>) -> bool {
    name == "notion_get_page"@ || name == "notion_create_page"@ || name == "notion_update_page"@
        || name == "notion_move_page"@ || name == "notion_get_page_property"@
}

/// The block tools, by name.
pub open spec fn is_block_tool(name: Seq<char>) -> bool {
    name == "notion_get_block"@ || name == "notion_get_block_children"@ || name
        == "notion_append_block_children"@ || name == "notion_update_block"@ || name
        == "notion_delete_block"@
}

/// The data-source tools, by name.
pub open spec fn is_data_source_tool(name: Seq<char>) -> bool {
    name == "notion_list_data_source_templates"@ || name == "notion_create_data_source"@ || name
        == "notion_get_data_source"@ || name == "notion_update_data_source"@
}

/// What a call of Notion tool `name` with `args` does next, given the responses so far.
pub open spec fn handle_view(name: Seq<char>, args: Json, rs: Seq<Json>) -> StepView {
    if name == "notion_search"@ {
        one_call(
            send_view(Method::Post, api_url("search"@), Some(search_body(args))),
            rs,
            |r: Json| listing(Listed::Found, r, " résultat(s) :\n"@, "Aucun résultat Notion."@),
        )
    } else if is_page_tool(name) {
        page_view(name, args, rs)
    } else if name == "notion_get_database"@ || name == "notion_query_database"@ {
        database_view(name, args, rs)
    } else if is_block_tool(name) {
        block_view(name, args, rs)
    } else if name == "notion_get_user"@ || name == "notion_list_users"@ || name == "notion_get_self"@ {
        user_view(name, args, rs)
    } else if name == "notion_create_comment"@ || name == "notion_get_comments"@ {
        comment_view(name, args, rs)
    } else if is_data_source_tool(name) {
        data_source_view(name, args, rs)
    } else {
        fail_view("Tool Notion inconnu : "@ + name)
    }
}

/// What the listings need of a response: the texts of the child blocks can be cut.
pub open spec fn handle_ok(name: Seq<char>, rs: Seq<Json>) -> bool {
    name == "notion_get_block_children"@ && rs.len() >= 1 ==> results_ok(Listed::Block, rs[0])
}

fn update_page_body_exec(args: &Json) -> (b: String)
    ensures
        b@ == update_page_body(*args),
{
    let null = Json::Null;
    let a = get_bool(args, "archived");
    let p = match args.get("properties") {
        Some(p) => p,
        None => &null,
    };
    assert(*p == args.at("properties"@));
    let mut body = owned("{");
    match a {
        Some(x) => {
            push_str(&mut body, "\"archived\":");
            push_str(&mut body, bool_string(x).as_str());
        },
        None => {},
    }
    if a.is_some() && p.is_object() {
        push_str(&mut body, ",");
    }
    if p.is_object() {
        push_str(&mut body, "\"properties\":");
        write_json(&mut body, p);
    }
    push_str(&mut body, "}");
    assert(body@ =~= update_page_body(*args));
    body
}

fn data_source_body_exec(args: &Json) -> (b: String)
    ensures
        b@ == data_source_body(*args),
{
    let c = args.get("config");
    let t = get_str(args, "type");
    let mut body = owned("{");
    match c {
        Some(v) => {
            push_str(&mut body, "\"config\":");
            write_json(&mut body, v);
        },
        None => {},
    }
    if c.is_some() && t.is_some() {
        push_str(&mut body, ",");
    }
    match t {
        Some(s) => {
            push_str(&mut body, "\"type\":");
            push_quoted(&mut body, s);
        },
        None => {},
    }
    push_str(&mut body, "}");
    assert(body@ =~= data_source_body(*args));
    body
}

fn page_text_exec(r: &Json) -> (t: String)
    ensures
        t@ == page_text(*r),
{
    let mut out = owned("Page Notion\nID         : ");
    push_str(&mut out, get_str_or(r, "id", "—"));
    push_str(&mut out, "\nTitre      : ");
    push_title_display(&mut out, extract_page_title(r).as_str());
    push_str(&mut out, "\nParent     : ");
    push_str(&mut out, parent_text_exec(r).as_str());
    push_str(&mut out, "\nArchivé    : ");
    push_str(&mut out, bool_string(get_flag_or(r, "archived", false)).as_str());
    push_str(&mut out, "\nURL        : ");
    push_str(&mut out, get_str_or(r, "url", "—"));
    push_str(&mut out, "\nCréée le   : ");
    push_str(&mut out, get_str_or(r, "created_time", "—"));
    push_str(&mut out, "\nModifiée   : ");
    push_str(&mut out, get_str_or(r, "last_edited_time", "—"));
    assert(out@ =~= page_text(*r));
    out
}

fn database_text_exec(r: &Json) -> (t: String)
    ensures
        t@ == database_text(*r),
{
    let null = Json::Null;
    let title = match r.get("title") {
        Some(x) => x,
        None => &null,
    };
    let mut out = owned("Base de données Notion\nID         : ");
    push_str(&mut out, get_str_or(r, "id", "—"));
    push_str(&mut out, "\nTitre      : ");
    push_title_display(&mut out, extract_plain_text(title).as_str());
    push_str(&mut out, "\nURL        : ");
    push_str(&mut out, get_str_or(r, "url", "—"));
    push_str(&mut out, "\nCréée le   : ");
    push_str(&mut out, get_str_or(r, "created_time", "—"));
    push_str(&mut out, "\nModifiée   : ");
    push_str(&mut out, get_str_or(r, "last_edited_time", "—"));
    push_str(&mut out, "\nPropriétés :\n");
    push_str(&mut out, db_properties_exec(r).as_str());
    assert(out@ =~= database_text(*r));
    out
}

fn block_detail_exec(r: &Json) -> (t: String)
    ensures
        t@ == block_detail(*r),
{
    let text = get_block_text(r);
    let mut out = owned("Bloc Notion\nID          : ");
    push_str(&mut out, get_str_or(r, "id", "—"));
    push_str(&mut out, "\nType        : ");
    push_str(&mut out, get_str_or(r, "type", "—"));
    push_str(&mut out, "\nCréé le     : ");
    push_str(&mut out, get_str_or(r, "created_time", "—"));
    push_str(&mut out, "\nModifié le  : ");
    push_str(&mut out, get_str_or(r, "last_edited_time", "—"));
    push_str(&mut out, "\nA des enfants: ");
    push_str(&mut out, bool_string(get_flag_or(r, "has_children", false)).as_str());
    push_str(&mut out, "\nArchivé     : ");
    push_str(&mut out, bool_string(get_flag_or(r, "archived", false)).as_str());
    if !text.as_str().is_empty() {
        push_str(&mut out, "\nContenu     : ");
        push_str(&mut out, text.as_str());
    }
    assert(out@ =~= block_detail(*r));
    out
}


fn page_tools(cfg: &NotionConfig, name: &str, args: &Json, rs: &Vec<Json>) -> (s: Step)
    ensures
        s@ == page_view(name@, *args, rs@),
{
    if str_eq(name, "notion_create_page") {
        let t = match get_str(args, "title") {
            None => return required("title"),
            Some(t) => t,
        };
        let parent = match parent_exec(args, "parent_page_id", "parent_database_id") {
            None => return fail("Paramètre 'parent_page_id' ou 'parent_database_id' requis"),
            Some(p) => p,
        };
        if rs.len() == 0 {
            return send(Method::Post, cfg.api("pages"), Some(create_page_body_exec(args, t, parent.as_str())));
        }
        let r = &rs[0];
        let mut out = owned("Page créée.\nID  : ");
        push_str(&mut out, get_str_or(r, "id", "—"));
        push_str(&mut out, "\nURL : ");
        push_str(&mut out, get_str_or(r, "url", "—"));
        return ok_text(out);
    }
    let pid = match get_str(args, "page_id") {
        None => return required("page_id"),
        Some(p) => p,
    };
    if str_eq(name, "notion_get_page") {
        if rs.len() == 0 {
            return send(Method::Get, cfg.api(concat("pages/", pid).as_str()), None);
        }
        ok_text(page_text_exec(&rs[0]))
    } else if str_eq(name, "notion_update_page") {
        let props = match args.get("properties") {
            Some(p) => p.is_object(),
            None => false,
        };
        if !props && get_bool(args, "archived").is_none() {
            return fail("Au moins un paramètre parmi 'properties' ou 'archived' est requis");
        }
        if rs.len() == 0 {
            return send(
                Method::Patch,
                cfg.api(concat("pages/", pid).as_str()),
                Some(update_page_body_exec(args)),
            );
        }
        let r = &rs[0];
        let mut out = owned("Page ");
        push_str(&mut out, get_str_or(r, "id", pid));
        push_str(&mut out, " mise à jour.\nArchivée    : ");
        push_str(&mut out, bool_string(get_flag_or(r, "archived", false)).as_str());
        push_str(&mut out, "\nModifiée le : ");
        push_str(&mut out, get_str_or(r, "last_edited_time", "—"));
        ok_text(out)
    } else if str_eq(name, "notion_move_page") {
        let parent = match parent_exec(args, "new_parent_page_id", "new_parent_database_id") {
            None => return fail("Paramètre 'new_parent_page_id' ou 'new_parent_database_id' requis"),
            Some(p) => p,
        };
        if rs.len() == 0 {
            return send(
                Method::Patch,
                cfg.api(concat("pages/", pid).as_str()),
                Some(concat3("{\"parent\":", parent.as_str(), "}")),
            );
        }
        let r = &rs[0];
        let mut out = owned("Page ");
        push_str(&mut out, get_str_or(r, "id", pid));
        push_str(&mut out, " déplacée.\nModifiée le : ");
        push_str(&mut out, get_str_or(r, "last_edited_time", "—"));
        ok_text(out)
    } else {
        let prop = match get_str(args, "property_id") {
            None => return required("property_id"),
            Some(p) => p,
        };
        if rs.len() == 0 {
            let mut path = concat3("pages/", pid, "/properties/");
            push_str(&mut path, prop);
            return send(Method::Get, cfg.api(path.as_str()), None);
        }
        ok_text(to_json_string_pretty(&rs[0]))
    }
}

fn database_tools(cfg: &NotionConfig, name: &str, args: &Json, rs: &Vec<Json>) -> (s: Step)
    ensures
        s@ == database_view(name@, *args, rs@),
{
    let id = match get_str(args, "database_id") {
        None => return required("database_id"),
        Some(x) => x,
    };
    if str_eq(name, "notion_get_database") {
        if rs.len() == 0 {
            return send(Method::Get, cfg.api(concat("databases/", id).as_str()), None);
        }
        ok_text(database_text_exec(&rs[0]))
    } else {
        if rs.len() == 0 {
            return send(
                Method::Post,
                cfg.api(concat3("databases/", id, "/query").as_str()),
                Some(query_body_exec(args)),
            );
        }
        let empty = concat3("Aucun résultat dans la base de données ", id, ".");
        ok_text(listing_exec(Listed::Entry, &rs[0], " entrée(s) :\n", empty.as_str()))
    }
}


fn block_tools(cfg: &NotionConfig, name: &str, args: &Json, rs: &Vec<Json>) -> (s: Step)
    requires
        name@ == "notion_get_block_children"@ && rs@.len() >= 1 ==> results_ok(Listed::Block, rs@[0]),
    ensures
        s@ == block_view(name@, *args, rs@),
{
    let id = match get_str(args, "block_id") {
        None => return required("block_id"),
        Some(x) => x,
    };
    if str_eq(name, "notion_get_block") {
        if rs.len() == 0 {
            return send(Method::Get, cfg.api(concat("blocks/", id).as_str()), None);
        }
        ok_text(block_detail_exec(&rs[0]))
    } else if str_eq(name, "notion_get_block_children") {
        if rs.len() == 0 {
            let mut url = cfg.api(concat3("blocks/", id, "/children?").as_str());
            push_str(&mut url, "&");
            push_paging(&mut url, args);
            assert(url@ =~= api_url("blocks/"@ + id@ + "/children?"@) + ("&"@ + paging(*args)));
            return send(Method::Get, url, None);
        }
        let empty = concat3("Aucun bloc enfant pour ", id, ".");
        ok_text(listing_exec(Listed::Block, &rs[0], " bloc(s) :\n", empty.as_str()))
    } else if str_eq(name, "notion_append_block_children") {
        let children = match args.get("children") {
            Some(c) => c,
            None => return fail("Paramètre 'children' requis (tableau de blocs Notion)"),
        };
        if children.as_array().is_none() {
            return fail("Paramètre 'children' requis (tableau de blocs Notion)");
        }
        if rs.len() == 0 {
            let mut body = owned("{\"children\":");
            write_json(&mut body, children);
            push_str(&mut body, "}");
            return send(Method::Patch, cfg.api(concat3("blocks/", id, "/children").as_str()), Some(body));
        }
        let n = match get_array(&rs[0], "results") {
            Some(a) => a.len(),
            None => 0,
        };
        let mut out = String::new();
        push_u64(&mut out, n as u64);
        push_str(&mut out, " bloc(s) ajouté(s) à ");
        push_str(&mut out, id);
        push_str(&mut out, ".");
        ok_text(out)
    } else if str_eq(name, "notion_update_block") {
        let content = match args.get("block_content") {
            Some(c) => c,
            None => return fail("Paramètre 'block_content' requis (objet JSON Notion)"),
        };
        if !content.is_object() {
            return fail("Paramètre 'block_content' requis (objet JSON Notion)");
        }
        if rs.len() == 0 {
            return send(
                Method::Patch,
                cfg.api(concat("blocks/", id).as_str()),
                Some(to_json_string(content)),
            );
        }
        let r = &rs[0];
        let mut out = owned("Bloc ");
        push_str(&mut out, get_str_or(r, "id", id));
        push_str(&mut out, " mis à jour. Modifié le : ");
        push_str(&mut out, get_str_or(r, "last_edited_time", "—"));
        ok_text(out)
    } else {
        if rs.len() == 0 {
            return send(Method::Delete, cfg.api(concat("blocks/", id).as_str()), None);
        }
        let r = &rs[0];
        let mut out = owned("Bloc ");
        push_str(&mut out, get_str_or(r, "id", id));
        push_str(&mut out, " supprimé (archivé: ");
        push_str(&mut out, bool_string(get_flag_or(r, "archived", true)).as_str());
        push_str(&mut out, ").");
        ok_text(out)
    }
}

fn user_tools(cfg: &NotionConfig, name: &str, args: &Json, rs: &Vec<Json>) -> (s: Step)
    ensures
        s@ == user_view(name@, *args, rs@),
{
    if str_eq(name, "notion_get_user") {
        let uid = match get_str(args, "user_id") {
            None => return required("user_id"),
            Some(x) => x,
        };
        if rs.len() == 0 {
            return send(Method::Get, cfg.api(concat("users/", uid).as_str()), None);
        }
        ok_text(concat("Utilisateur Notion\n", format_user(&rs[0]).as_str()))
    } else if str_eq(name, "notion_list_users") {
        if rs.len() == 0 {
            let mut url = cfg.api("users");
            push_str(&mut url, "?");
            push_paging(&mut url, args);
            assert(url@ =~= api_url("users"@) + ("?"@ + paging(*args)));
            return send(Method::Get, url, None);
        }
        ok_text(listing_exec(Listed::User, &rs[0], " utilisateur(s) :\n", "Aucun utilisateur trouvé."))
    } else {
        if rs.len() == 0 {
            return send(Method::Get, cfg.api("users/me"), None);
        }
        let r = &rs[0];
        let null = Json::Null;
        let bot = match r.get("bot") {
            Some(b) => b,
            None => &null,
        };
        let owner = match bot.get("owner") {
            Some(o) => o,
            None => &null,
        };
        let mut out = owned("Bot Notion\nID              : ");
        push_str(&mut out, get_str_or(r, "id", "—"));
        push_str(&mut out, "\nNom             : ");
        push_str(&mut out, get_str_or(r, "name", "—"));
        push_str(&mut out, "\nPropriétaire    : ");
        push_str(&mut out, get_str_or(owner, "type", "—"));
        push_str(&mut out, "\nEspace de travail: ");
        push_str(&mut out, get_str_or(bot, "workspace_name", "—"));
        ok_text(out)
    }
}


fn comment_tools(cfg: &NotionConfig, name: &str, args: &Json, rs: &Vec<Json>) -> (s: Step)
    ensures
        s@ == comment_view(name@, *args, rs@),
{
    if str_eq(name, "notion_create_comment") {
        let c = match get_str(args, "content") {
            None => return required("content"),
            Some(x) => x,
        };
        let body = match get_str(args, "page_id") {
            Some(pid) => {
                let mut b = owned("{\"parent\":{\"page_id\":");
                push_quoted(&mut b, pid);
                push_str(&mut b, ",\"type\":\"page_id\"},\"rich_text\":");
                push_str(&mut b, text_block_exec(c).as_str());
                push_str(&mut b, "}");
                b
            },
            None => match get_str(args, "discussion_id") {
                Some(did) => {
                    let mut b = owned("{\"discussion_id\":");
                    push_quoted(&mut b, did);
                    push_str(&mut b, ",\"rich_text\":");
                    push_str(&mut b, text_block_exec(c).as_str());
                    push_str(&mut b, "}");
                    b
                },
                None => return fail("Paramètre 'page_id' ou 'discussion_id' requis"),
            },
        };
        if rs.len() == 0 {
            return send(Method::Post, cfg.api("comments"), Some(body));
        }
        let r = &rs[0];
        let mut out = owned("Commentaire créé.\nID        : ");
        push_str(&mut out, get_str_or(r, "id", "—"));
        push_str(&mut out, "\nCréé le   : ");
        push_str(&mut out, get_str_or(r, "created_time", "—"));
        ok_text(out)
    } else {
        let id = match get_str(args, "block_id") {
            None => return required("block_id"),
            Some(x) => x,
        };
        if rs.len() == 0 {
            let mut url = cfg.api("comments");
            push_str(&mut url, "?block_id=");
            push_str(&mut url, id);
            push_str(&mut url, "&");
            push_paging(&mut url, args);
            assert(url@ =~= api_url("comments"@) + ("?block_id="@ + id@ + "&"@ + paging(*args)));
            return send(Method::Get, url, None);
        }
        let empty = concat3("Aucun commentaire pour ", id, ".");
        ok_text(listing_exec(Listed::Comment, &rs[0], " commentaire(s) :\n", empty.as_str()))
    }
}

fn data_source_tools(cfg: &NotionConfig, name: &str, args: &Json, rs: &Vec<Json>) -> (s: Step)
    ensures
        s@ == data_source_view(name@, *args, rs@),
{
    if str_eq(name, "notion_list_data_source_templates") {
        if rs.len() == 0 {
            return send(Method::Get, cfg.api("data-source-templates"), None);
        }
        ok_text(to_json_string_pretty(&rs[0]))
    } else if str_eq(name, "notion_create_data_source") {
        if rs.len() == 0 {
            return send(Method::Post, cfg.api("data-sources"), Some(data_source_body_exec(args)));
        }
        let r = &rs[0];
        let mut out = owned("Data source créée.\nID   : ");
        push_str(&mut out, get_str_or(r, "id", "—"));
        push_str(&mut out, "\nType : ");
        push_str(&mut out, get_str_or(r, "type", "—"));
        ok_text(out)
    } else {
        let id = match get_str(args, "data_source_id") {
            None => return required("data_source_id"),
            Some(x) => x,
        };
        if str_eq(name, "notion_get_data_source") {
            if rs.len() == 0 {
                return send(Method::Get, cfg.api(concat("data-sources/", id).as_str()), None);
            }
            ok_text(to_json_string_pretty(&rs[0]))
        } else {
            if rs.len() == 0 {
                let mut body = owned("{");
                match args.get("config") {
                    Some(v) => {
                        push_str(&mut body, "\"config\":");
                        write_json(&mut body, v);
                    },
                    None => {},
                }
                push_str(&mut body, "}");
                assert(body@ =~= "{"@ + match args.spec_get("config"@) {
                    Some(v) => "\"config\":"@ + json_text(v),
                    None => seq![],
                } + "}"@);
                return send(Method::Patch, cfg.api(concat("data-sources/", id).as_str()), Some(body));
            }
            ok_text(concat3("Data source ", get_str_or(&rs[0], "id", id), " mise à jour."))
        }
    }
}

/// Whether a call of `name` can take `responses` without panicking (see [`handle_ok`]).
pub fn can_handle(name: &str, responses: &Vec<Json>) -> (r: bool)
    ensures
        r == handle_ok(name@, responses@),
{
    if !str_eq(name, "notion_get_block_children") || responses.len() == 0 {
        return true;
    }
    let items = match get_array(&responses[0], "results") {
        Some(a) => a,
        None => return true,
    };
    let ghost all = results_of(responses@[0]);
    let mut i: usize = 0;
    while i < items.len()
        invariant
            i <= items@.len(),
            items@ == all,
            name@ == "notion_get_block_children"@,
            responses@.len() >= 1,
            all == results_of(responses@[0]),
            forall|k: int| 0 <= k < i ==> #[trigger] item_ok(Listed::Block, all[k]),
        decreases items.len() - i,
    {
        if !crate::fmt::can_cut(get_block_text(&items[i]).as_str(), 100) {
            assert(!item_ok(Listed::Block, all[i as int]));
            return false;
        }
        i = i + 1;
    }
    true
}

/// Runs one step of the Notion tool `name` called with `args`: `responses` holds the parsed
/// responses to the requests made so far.
pub fn handle(cfg: &NotionConfig, name: &str, args: &Json, responses: &Vec<Json>) -> (s: Step)
    requires
        handle_ok(name@, responses@),
    ensures
        s@ == handle_view(name@, *args, responses@),
{
    let rs = responses;
    if str_eq(name, "notion_search") {
        if rs.len() == 0 {
            return send(Method::Post, cfg.api("search"), Some(search_body_exec(args)));
        }
        ok_text(listing_exec(Listed::Found, &rs[0], " résultat(s) :\n", "Aucun résultat Notion."))
    } else if str_eq(name, "notion_get_page") || str_eq(name, "notion_create_page") || str_eq(
        name,
        "notion_update_page",
    ) || str_eq(name, "notion_move_page") || str_eq(name, "notion_get_page_property") {
        page_tools(cfg, name, args, rs)
    } else if str_eq(name, "notion_get_database") || str_eq(name, "notion_query_database") {
        database_tools(cfg, name, args, rs)
    } else if str_eq(name, "notion_get_block") || str_eq(name, "notion_get_block_children") || str_eq(
        name,
        "notion_append_block_children",
    ) || str_eq(name, "notion_update_block") || str_eq(name, "notion_delete_block") {
        block_tools(cfg, name, args, rs)
    } else if str_eq(name, "notion_get_user") || str_eq(name, "notion_list_users") || str_eq(
        name,
        "notion_get_self",
    ) {
        user_tools(cfg, name, args, rs)
    } else if str_eq(name, "notion_create_comment") || str_eq(name, "notion_get_comments") {
        comment_tools(cfg, name, args, rs)
    } else if str_eq(name, "notion_list_data_source_templates") || str_eq(
        name,
        "notion_create_data_source",
    ) || str_eq(name, "notion_get_data_source") || str_eq(name, "notion_update_data_source") {
        data_source_tools(cfg, name, args, rs)
    } else {
        Step::Done(Err(concat("Tool Notion inconnu : ", name)))
    }
}

/// A URL of the Notion API: a path under it, with a query or not.
pub open spec fn on_api(url: Seq<char>) -> bool {
    (exists|p: Seq<char>| url == api_url(p)) || (exists|p: Seq<char>, q: Seq<char>| url == api_url(p) + q)
}

/// What every step of a tool keeps: one response ends it, and a request is authenticated and
/// goes to the Notion API.
pub open spec fn step_ok(v: StepView, rs: Seq<Json>) -> bool {
    &&& rs.len() >= 1 ==> v is Done
    &&& v matches StepView::Send(req) ==> req.authenticated && on_api(req.url)
}

proof fn lemma_page_steps(name: Seq<char>, args: Json, rs: Seq<Json>)
    ensures
        step_ok(page_view(name, args, rs), rs),
{
}

proof fn lemma_block_steps(name: Seq<char>, args: Json, rs: Seq<Json>)
    ensures
        step_ok(block_view(name, args, rs), rs),
{
}

proof fn lemma_other_steps(name: Seq<char>, args: Json, rs: Seq<Json>)
    ensures
        step_ok(database_view(name, args, rs), rs),
        step_ok(user_view(name, args, rs), rs),
        step_ok(comment_view(name, args, rs), rs),
        step_ok(data_source_view(name, args, rs), rs),
{
}

/// Every Notion tool makes at most one request, authenticated, to the Notion API: once a
/// response has come, the call is done.
pub proof fn lemma_handle_ends(name: Seq<char>, args: Json, rs: Seq<Json>)
    ensures
        step_ok(handle_view(name, args, rs), rs),
{
    lemma_page_steps(name, args, rs);
    lemma_block_steps(name, args, rs);
    lemma_other_steps(name, args, rs);
}

/// The Notion tools offered to MCP clients: name, description and input schema of each, as a
/// The catalog's tools, in its order: for each, the JSON text of its members before its name
/// (its description and input schema).
pub const TOOL_HEADS: [&'static str; 22] = [
    r#"{"description":"NOTION 🔍 — Recherche dans toutes les pages et bases de données Notion accessibles par l'intégration. Retourne une liste compacte (id, titre, type, url). Utiliser notion_get_page ou notion_get_database pour le détail.","inputSchema":{"properties":{"filter_type":{"description":"Filtrer par type : 'page' ou 'database' (optionnel)","enum":["page","database"],"type":"string"},"page_size":{"description":"Nombre de résultats (1-100, défaut : 20)","type":"integer"},"query":{"description":"Texte à rechercher","type":"string"},"sort_direction":{"description":"Direction du tri (optionnel, défaut : descending)","enum":["ascending","descending"],"type":"string"},"start_cursor":{"description":"Curseur de pagination (optionnel)","type":"string"}},"type":"object"},"name":"#,
    r#"{"description":"NOTION 📄 — Récupère les métadonnées d'une page Notion (titre, propriétés, parent, url, dates). Pour lire le contenu textuel, utiliser notion_get_block_children avec le même page_id.","inputSchema":{"properties":{"page_id":{"description":"ID de la page Notion","type":"string"}},"required":["page_id"],"type":"object"},"name":"#,
    r#"{"description":"NOTION ➕ — Crée une nouvelle page Notion dans une page parente ou une base de données. Pour une base de données, passer parent_database_id. Pour une page, passer parent_page_id. Le contenu de la page peut être ajouté via content_blocks (tableau de blocs Notion).","inputSchema":{"properties":{"content_blocks":{"description":"Blocs de contenu Notion (JSON, optionnel)","type":"array"},"parent_database_id":{"description":"ID de la base de données parente (exclusif avec parent_page_id)","type":"string"},"parent_page_id":{"description":"ID de la page parente (exclusif avec parent_database_id)","type":"string"},"properties":{"description":"Propriétés supplémentaires pour les pages dans une base de données (JSON Notion)","type":"object"},"title":{"description":"Titre de la page","type":"string"}},"required":["title"],"type":"object"},"name":"#,
    r#"{"description":"NOTION ✏️ — Met à jour les propriétés d'une page Notion (titre, autres propriétés) ou archive/restaure la page. Ne modifie pas le contenu des blocs — utiliser notion_append_block_children pour ajouter du contenu.","inputSchema":{"properties":{"archived":{"description":"true pour archiver, false pour restaurer (optionnel)","type":"boolean"},"page_id":{"description":"ID de la page à modifier","type":"string"},"properties":{"description":"Propriétés à mettre à jour (JSON Notion, optionnel)","type":"object"}},"required":["page_id"],"type":"object"},"name":"#,
    r#"{"description":"NOTION 🔀 — Déplace une page Notion vers un nouveau parent (page ou base de données). Utilise PATCH /pages/{page_id} avec un nouveau champ parent.","inputSchema":{"properties":{"new_parent_database_id":{"description":"ID de la nouvelle base de données parente (exclusif avec new_parent_page_id)","type":"string"},"new_parent_page_id":{"description":"ID de la nouvelle page parente (exclusif avec new_parent_database_id)","type":"string"},"page_id":{"description":"ID de la page à déplacer","type":"string"}},"required":["page_id"],"type":"object"},"name":"#,
    r#"{"description":"NOTION 🏷️ — Récupère la valeur d'une propriété spécifique d'une page Notion (ex: relation, rollup, formula). Utile pour les propriétés paginées ou volumineuses.","inputSchema":{"properties":{"page_id":{"description":"ID de la page","type":"string"},"property_id":{"description":"ID de la propriété (visible dans notion_get_page sous properties)","type":"string"}},"required":["page_id","property_id"],"type":"object"},"name":"#,
    r#"{"description":"NOTION 🗄️ — Récupère le schéma d'une base de données Notion (titre, propriétés disponibles et leur type). Utiliser notion_query_database pour lister les entrées.","inputSchema":{"properties":{"database_id":{"description":"ID de la base de données Notion","type":"string"}},"required":["database_id"],"type":"object"},"name":"#,
    r#"{"description":"NOTION 📋 — Interroge une base de données Notion avec des filtres et un tri. Retourne les pages correspondantes avec leurs propriétés. Utiliser notion_get_page pour le détail d'une entrée.","inputSchema":{"properties":{"database_id":{"description":"ID de la base de données","type":"string"},"filter":{"description":"Filtre Notion (JSON, optionnel)","type":"object"},"page_size":{"description":"Nombre de résultats (1-100, défaut : 20)","type":"integer"},"sorts":{"description":"Tableau de critères de tri (JSON Notion, optionnel)","type":"array"},"start_cursor":{"description":"Curseur de pagination (optionnel)","type":"string"}},"required":["database_id"],"type":"object"},"name":"#,
    r#"{"description":"NOTION 🧱 — Récupère un bloc Notion par son ID (type, contenu, enfants, dates). Pour lister les blocs d'une page, utiliser notion_get_block_children avec le page_id.","inputSchema":{"properties":{"block_id":{"description":"ID du bloc Notion","type":"string"}},"required":["block_id"],"type":"object"},"name":"#,
    r#"{"description":"NOTION 🧱 — Liste les blocs enfants d'une page ou d'un bloc Notion (contenu textuel, titres, listes, etc.). Utiliser le page_id pour lire le contenu d'une page entière.","inputSchema":{"properties":{"block_id":{"description":"ID du bloc ou de la page parente","type":"string"},"page_size":{"description":"Nombre de blocs (1-100, défaut : 50)","type":"integer"},"start_cursor":{"description":"Curseur de pagination (optionnel)","type":"string"}},"required":["block_id"],"type":"object"},"name":"#,
    r#"{"description":"NOTION ➕ — Ajoute des blocs de contenu à la fin d'une page ou d'un bloc Notion. Les blocs sont définis en JSON selon le format Notion (paragraph, heading_1, bulleted_list_item, etc.).","inputSchema":{"properties":{"block_id":{"description":"ID du bloc ou de la page cible","type":"string"},"children":{"description":"Tableau de blocs Notion à ajouter (JSON)","type":"array"}},"required":["block_id","children"],"type":"object"},"name":"#,
    r#"{"description":"NOTION ✏️ — Met à jour le contenu d'un bloc Notion existant (texte, type, etc.). Le corps doit être un objet JSON conforme à l'API Notion pour le type de bloc concerné.","inputSchema":{"properties":{"block_content":{"description":"Contenu du bloc au format Notion (JSON)","type":"object"},"block_id":{"description":"ID du bloc à modifier","type":"string"}},"required":["block_id","block_content"],"type":"object"},"name":"#,
    r#"{"description":"NOTION 🗑️ — Supprime (archive) définitivement un bloc Notion. Cette action est irréversible via l'API.","inputSchema":{"properties":{"block_id":{"description":"ID du bloc à supprimer","type":"string"}},"required":["block_id"],"type":"object"},"name":"#,
    r#"{"description":"NOTION 👤 — Récupère le profil d'un utilisateur Notion (nom, email, type). Utiliser notion_list_users pour obtenir les user_id.","inputSchema":{"properties":{"user_id":{"description":"ID de l'utilisateur Notion","type":"string"}},"required":["user_id"],"type":"object"},"name":"#,
    r#"{"description":"NOTION 👥 — Liste tous les utilisateurs de l'espace de travail Notion accessibles par l'intégration. Retourne id, nom et email.","inputSchema":{"properties":{"page_size":{"description":"Nombre d'utilisateurs (1-100, défaut : 50)","type":"integer"},"start_cursor":{"description":"Curseur de pagination (optionnel)","type":"string"}},"type":"object"},"name":"#,
    r#"{"description":"NOTION 🤖 — Retourne le profil du bot associé à l'intégration Notion (nom, id, espace de travail). Utile pour vérifier la configuration.","inputSchema":{"properties":{},"type":"object"},"name":"#,
    r#"{"description":"NOTION 📦 — Liste les templates de data sources disponibles dans Notion (Google Drive, GitHub, etc.).","inputSchema":{"properties":{},"type":"object"},"name":"#,
    r#"{"description":"NOTION ➕ — Crée une nouvelle data source Notion (connexion à une source externe). Fournir le type et la config selon le template.","inputSchema":{"properties":{"config":{"description":"Configuration spécifique au type de data source","type":"object"},"type":{"description":"Type de data source (ex: 'github', 'google_drive')","type":"string"}},"required":["type"],"type":"object"},"name":"#,
    r#"{"description":"NOTION 🔍 — Récupère les détails d'une data source Notion par son ID.","inputSchema":{"properties":{"data_source_id":{"description":"ID de la data source","type":"string"}},"required":["data_source_id"],"type":"object"},"name":"#,
    r#"{"description":"NOTION ✏️ — Met à jour la configuration d'une data source Notion existante.","inputSchema":{"properties":{"config":{"description":"Nouvelle configuration","type":"object"},"data_source_id":{"description":"ID de la data source","type":"string"}},"required":["data_source_id"],"type":"object"},"name":"#,
    r#"{"description":"NOTION 💬 — Ajoute un commentaire sur une page Notion (via page_id) ou dans une discussion existante (via discussion_id). Le texte est passé en plain text.","inputSchema":{"properties":{"content":{"description":"Texte du commentaire","type":"string"},"discussion_id":{"description":"ID de la discussion existante (exclusif avec page_id)","type":"string"},"page_id":{"description":"ID de la page cible (exclusif avec discussion_id)","type":"string"}},"required":["content"],"type":"object"},"name":"#,
    r#"{"description":"NOTION 💬 — Récupère les commentaires d'une page ou d'un bloc Notion. Retourne la liste des commentaires avec auteur, texte et date.","inputSchema":{"properties":{"block_id":{"description":"ID de la page ou du bloc","type":"string"},"page_size":{"description":"Nombre de commentaires (1-100, défaut : 50)","type":"integer"},"start_cursor":{"description":"Curseur de pagination (optionnel)","type":"string"}},"required":["block_id"],"type":"object"},"name":"#
];

/// The names of the catalog's tools, in its order (those of [`catalog_names`]).
pub const TOOL_NAMES: [&'static str; 22] = [
    "notion_search",
    "notion_get_page",
    "notion_create_page",
    "notion_update_page",
    "notion_move_page",
    "notion_get_page_property",
    "notion_get_database",
    "notion_query_database",
    "notion_get_block",
    "notion_get_block_children",
    "notion_append_block_children",
    "notion_update_block",
    "notion_delete_block",
    "notion_get_user",
    "notion_list_users",
    "notion_get_self",
    "notion_list_data_source_templates",
    "notion_create_data_source",
    "notion_get_data_source",
    "notion_update_data_source",
    "notion_create_comment",
    "notion_get_comments"
];

/// The Notion tools offered to MCP clients, as a JSON array: one entry per tool of
/// [`catalog_names`], in order, each with its description and input schema (from
/// [`TOOL_HEADS`]) and its name.
pub fn tools() -> (r: String)
    ensures
        r@ == catalog_text(texts(TOOL_HEADS@), catalog_names()),
{
    assert(texts(TOOL_NAMES@) =~= catalog_names());
    build_catalog(&TOOL_HEADS, &TOOL_NAMES)
}

/// The names of the tools in the catalog, in its order.
pub open spec fn catalog_names() -> Seq<Seq<char>> {
    seq![
        "notion_search"@,
        "notion_get_page"@,
        "notion_create_page"@,
        "notion_update_page"@,
        "notion_move_page"@,
        "notion_get_page_property"@,
        "notion_get_database"@,
        "notion_query_database"@,
        "notion_get_block"@,
        "notion_get_block_children"@,
        "notion_append_block_children"@,
        "notion_update_block"@,
        "notion_delete_block"@,
        "notion_get_user"@,
        "notion_list_users"@,
        "notion_get_self"@,
        "notion_list_data_source_templates"@,
        "notion_create_data_source"@,
        "notion_get_data_source"@,
        "notion_update_data_source"@,
        "notion_create_comment"@,
        "notion_get_comments"@
    ]
}

/// The names of the tools in the catalog, in its order (see [`catalog_names`]).
pub fn tool_names() -> (r: Vec<&'static str>)
    ensures
        r@.map_values(|s: &'static str| s@) == catalog_names(),
{
    let r = vec![
        "notion_search",
        "notion_get_page",
        "notion_create_page",
        "notion_update_page",
        "notion_move_page",
        "notion_get_page_property",
        "notion_get_database",
        "notion_query_database",
        "notion_get_block",
        "notion_get_block_children",
        "notion_append_block_children",
        "notion_update_block",
        "notion_delete_block",
        "notion_get_user",
        "notion_list_users",
        "notion_get_self",
        "notion_list_data_source_templates",
        "notion_create_data_source",
        "notion_get_data_source",
        "notion_update_data_source",
        "notion_create_comment",
        "notion_get_comments"
    ];
    assert(r@.map_values(|s: &'static str| s@) =~= catalog_names());
    r
}

/// A tool name that [`tools`] does not serve (one outside [`catalog_names`]) gets the
/// unknown-tool error, without a request.
pub proof fn lemma_unknown_tool(name: Seq<char>, args: Json, rs: Seq<Json>)
    requires
        !catalog_names().contains(name),
    ensures
        handle_view(name, args, rs) == fail_view("Tool Notion inconnu : "@ + name),
{
    assert(catalog_names()[0] == "notion_search"@);
    assert(catalog_names()[1] == "notion_get_page"@);
    assert(catalog_names()[2] == "notion_create_page"@);
    assert(catalog_names()[3] == "notion_update_page"@);
    assert(catalog_names()[4] == "notion_move_page"@);
    assert(catalog_names()[5] == "notion_get_page_property"@);
    assert(catalog_names()[6] == "notion_get_database"@);
    assert(catalog_names()[7] == "notion_query_database"@);
    assert(catalog_names()[8] == "notion_get_block"@);
    assert(catalog_names()[9] == "notion_get_block_children"@);
    assert(catalog_names()[10] == "notion_append_block_children"@);
    assert(catalog_names()[11] == "notion_update_block"@);
    assert(catalog_names()[12] == "notion_delete_block"@);
    assert(catalog_names()[13] == "notion_get_user"@);
    assert(catalog_names()[14] == "notion_list_users"@);
    assert(catalog_names()[15] == "notion_get_self"@);
    assert(catalog_names()[16] == "notion_list_data_source_templates"@);
    assert(catalog_names()[17] == "notion_create_data_source"@);
    assert(catalog_names()[18] == "notion_get_data_source"@);
    assert(catalog_names()[19] == "notion_update_data_source"@);
    assert(catalog_names()[20] == "notion_create_comment"@);
    assert(catalog_names()[21] == "notion_get_comments"@);
}

/// Every tool that [`tools`] serves (those of [`catalog_names`]) and that this module runs is
/// handled: its first step is never the unknown-tool error.
pub proof fn lemma_catalog_handled(name: Seq<char>, args: Json)
    requires
        catalog_names().contains(name),
    ensures
        handle_view(name, args, seq![]) != fail_view("Tool Notion inconnu : "@ + name),
{
    reveal_strlit("Au moins un paramètre parmi 'properties' ou 'archived' est requis");
    reveal_strlit("Paramètre '");
    reveal_strlit("Paramètre 'block_content' requis (objet JSON Notion)");
    reveal_strlit("Paramètre 'children' requis (tableau de blocs Notion)");
    reveal_strlit("Paramètre 'new_parent_page_id' ou 'new_parent_database_id' requis");
    reveal_strlit("Paramètre 'page_id' ou 'discussion_id' requis");
    reveal_strlit("Paramètre 'parent_page_id' ou 'parent_database_id' requis");
    reveal_strlit("Tool Notion inconnu : ");
    assert(("Tool Notion inconnu : "@ + name)[0] == 'T');
    assert(catalog_names()[0] == "notion_search"@);
    assert(catalog_names()[1] == "notion_get_page"@);
    assert(catalog_names()[2] == "notion_create_page"@);
    assert(catalog_names()[3] == "notion_update_page"@);
    assert(catalog_names()[4] == "notion_move_page"@);
    assert(catalog_names()[5] == "notion_get_page_property"@);
    assert(catalog_names()[6] == "notion_get_database"@);
    assert(catalog_names()[7] == "notion_query_database"@);
    assert(catalog_names()[8] == "notion_get_block"@);
    assert(catalog_names()[9] == "notion_get_block_children"@);
    assert(catalog_names()[10] == "notion_append_block_children"@);
    assert(catalog_names()[11] == "notion_update_block"@);
    assert(catalog_names()[12] == "notion_delete_block"@);
    assert(catalog_names()[13] == "notion_get_user"@);
    assert(catalog_names()[14] == "notion_list_users"@);
    assert(catalog_names()[15] == "notion_get_self"@);
    assert(catalog_names()[16] == "notion_list_data_source_templates"@);
    assert(catalog_names()[17] == "notion_create_data_source"@);
    assert(catalog_names()[18] == "notion_get_data_source"@);
    assert(catalog_names()[19] == "notion_update_data_source"@);
    assert(catalog_names()[20] == "notion_create_comment"@);
    assert(catalog_names()[21] == "notion_get_comments"@);
}

/// The names of each catalog tool's input properties and of those it requires, in catalog
/// order (properties by name).
pub open spec fn catalog_schemas() -> Seq<(Seq<char>, Seq<Seq<char>>, Seq<Seq<char>>)> {
    seq![
        ("notion_search"@, seq!["filter_type"@, "page_size"@, "query"@, "sort_direction"@, "start_cursor"@], seq![]),
        ("notion_get_page"@, seq!["page_id"@], seq!["page_id"@]),
        ("notion_create_page"@, seq!["content_blocks"@, "parent_database_id"@, "parent_page_id"@, "properties"@, "title"@], seq!["title"@]),
        ("notion_update_page"@, seq!["archived"@, "page_id"@, "properties"@], seq!["page_id"@]),
        ("notion_move_page"@, seq!["new_parent_database_id"@, "new_parent_page_id"@, "page_id"@], seq!["page_id"@]),
        ("notion_get_page_property"@, seq!["page_id"@, "property_id"@], seq!["page_id"@, "property_id"@]),
        ("notion_get_database"@, seq!["database_id"@], seq!["database_id"@]),
        ("notion_query_database"@, seq!["database_id"@, "filter"@, "page_size"@, "sorts"@, "start_cursor"@], seq!["database_id"@]),
        ("notion_get_block"@, seq!["block_id"@], seq!["block_id"@]),
        ("notion_get_block_children"@, seq!["block_id"@, "page_size"@, "start_cursor"@], seq!["block_id"@]),
        ("notion_append_block_children"@, seq!["block_id"@, "children"@], seq!["block_id"@, "children"@]),
        ("notion_update_block"@, seq!["block_content"@, "block_id"@], seq!["block_id"@, "block_content"@]),
        ("notion_delete_block"@, seq!["block_id"@], seq!["block_id"@]),
        ("notion_get_user"@, seq!["user_id"@], seq!["user_id"@]),
        ("notion_list_users"@, seq!["page_size"@, "start_cursor"@], seq![]),
        ("notion_get_self"@, seq![], seq![]),
        ("notion_list_data_source_templates"@, seq![], seq![]),
        ("notion_create_data_source"@, seq!["config"@, "type"@], seq!["type"@]),
        ("notion_get_data_source"@, seq!["data_source_id"@], seq!["data_source_id"@]),
        ("notion_update_data_source"@, seq!["config"@, "data_source_id"@], seq!["data_source_id"@]),
        ("notion_create_comment"@, seq!["content"@, "discussion_id"@, "page_id"@], seq!["content"@]),
        ("notion_get_comments"@, seq!["block_id"@, "page_size"@, "start_cursor"@], seq!["block_id"@])
    ]
}

/// The names of each catalog tool's input properties and required inputs (see
/// [`catalog_schemas`]).
pub fn tool_schemas() -> (r: Vec<SchemaNames>)
    ensures
        r@.map_values(|e: SchemaNames| schema_view(e)) == catalog_schemas(),
{
    let r: Vec<SchemaNames> = vec![
        ("notion_search", vec!["filter_type", "page_size", "query", "sort_direction", "start_cursor"], vec![]),
        ("notion_get_page", vec!["page_id"], vec!["page_id"]),
        ("notion_create_page", vec!["content_blocks", "parent_database_id", "parent_page_id", "properties", "title"], vec!["title"]),
        ("notion_update_page", vec!["archived", "page_id", "properties"], vec!["page_id"]),
        ("notion_move_page", vec!["new_parent_database_id", "new_parent_page_id", "page_id"], vec!["page_id"]),
        ("notion_get_page_property", vec!["page_id", "property_id"], vec!["page_id", "property_id"]),
        ("notion_get_database", vec!["database_id"], vec!["database_id"]),
        ("notion_query_database", vec!["database_id", "filter", "page_size", "sorts", "start_cursor"], vec!["database_id"]),
        ("notion_get_block", vec!["block_id"], vec!["block_id"]),
        ("notion_get_block_children", vec!["block_id", "page_size", "start_cursor"], vec!["block_id"]),
        ("notion_append_block_children", vec!["block_id", "children"], vec!["block_id", "children"]),
        ("notion_update_block", vec!["block_content", "block_id"], vec!["block_id", "block_content"]),
        ("notion_delete_block", vec!["block_id"], vec!["block_id"]),
        ("notion_get_user", vec!["user_id"], vec!["user_id"]),
        ("notion_list_users", vec!["page_size", "start_cursor"], vec![]),
        ("notion_get_self", vec![], vec![]),
        ("notion_list_data_source_templates", vec![], vec![]),
        ("notion_create_data_source", vec!["config", "type"], vec!["type"]),
        ("notion_get_data_source", vec!["data_source_id"], vec!["data_source_id"]),
        ("notion_update_data_source", vec!["config", "data_source_id"], vec!["data_source_id"]),
        ("notion_create_comment", vec!["content", "discussion_id", "page_id"], vec!["content"]),
        ("notion_get_comments", vec!["block_id", "page_size", "start_cursor"], vec!["block_id"])
    ];
    assert(r@[0].1@.map_values(|s: &'static str| s@) =~= catalog_schemas()[0].1);
    assert(r@[0].2@.map_values(|s: &'static str| s@) =~= catalog_schemas()[0].2);
    assert(r@[1].1@.map_values(|s: &'static str| s@) =~= catalog_schemas()[1].1);
    assert(r@[1].2@.map_values(|s: &'static str| s@) =~= catalog_schemas()[1].2);
    assert(r@[2].1@.map_values(|s: &'static str| s@) =~= catalog_schemas()[2].1);
    assert(r@[2].2@.map_values(|s: &'static str| s@) =~= catalog_schemas()[2].2);
    assert(r@[3].1@.map_values(|s: &'static str| s@) =~= catalog_schemas()[3].1);
    assert(r@[3].2@.map_values(|s: &'static str| s@) =~= catalog_schemas()[3].2);
    assert(r@[4].1@.map_values(|s: &'static str| s@) =~= catalog_schemas()[4].1);
    assert(r@[4].2@.map_values(|s: &'static str| s@) =~= catalog_schemas()[4].2);
    assert(r@[5].1@.map_values(|s: &'static str| s@) =~= catalog_schemas()[5].1);
    assert(r@[5].2@.map_values(|s: &'static str| s@) =~= catalog_schemas()[5].2);
    assert(r@[6].1@.map_values(|s: &'static str| s@) =~= catalog_schemas()[6].1);
    assert(r@[6].2@.map_values(|s: &'static str| s@) =~= catalog_schemas()[6].2);
    assert(r@[7].1@.map_values(|s: &'static str| s@) =~= catalog_schemas()[7].1);
    assert(r@[7].2@.map_values(|s: &'static str| s@) =~= catalog_schemas()[7].2);
    assert(r@[8].1@.map_values(|s: &'static str| s@) =~= catalog_schemas()[8].1);
    assert(r@[8].2@.map_values(|s: &'static str| s@) =~= catalog_schemas()[8].2);
    assert(r@[9].1@.map_values(|s: &'static str| s@) =~= catalog_schemas()[9].1);
    assert(r@[9].2@.map_values(|s: &'static str| s@) =~= catalog_schemas()[9].2);
    assert(r@[10].1@.map_values(|s: &'static str| s@) =~= catalog_schemas()[10].1);
    assert(r@[10].2@.map_values(|s: &'static str| s@) =~= catalog_schemas()[10].2);
    assert(r@[11].1@.map_values(|s: &'static str| s@) =~= catalog_schemas()[11].1);
    assert(r@[11].2@.map_values(|s: &'static str| s@) =~= catalog_schemas()[11].2);
    assert(r@[12].1@.map_values(|s: &'static str| s@) =~= catalog_schemas()[12].1);
    assert(r@[12].2@.map_values(|s: &'static str| s@) =~= catalog_schemas()[12].2);
    assert(r@[13].1@.map_values(|s: &'static str| s@) =~= catalog_schemas()[13].1);
    assert(r@[13].2@.map_values(|s: &'static str| s@) =~= catalog_schemas()[13].2);
    assert(r@[14].1@.map_values(|s: &'static str| s@) =~= catalog_schemas()[14].1);
    assert(r@[14].2@.map_values(|s: &'static str| s@) =~= catalog_schemas()[14].2);
    assert(r@[15].1@.map_values(|s: &'static str| s@) =~= catalog_schemas()[15].1);
    assert(r@[15].2@.map_values(|s: &'static str| s@) =~= catalog_schemas()[15].2);
    assert(r@[16].1@.map_values(|s: &'static str| s@) =~= catalog_schemas()[16].1);
    assert(r@[16].2@.map_values(|s: &'static str| s@) =~= catalog_schemas()[16].2);
    assert(r@[17].1@.map_values(|s: &'static str| s@) =~= catalog_schemas()[17].1);
    assert(r@[17].2@.map_values(|s: &'static str| s@) =~= catalog_schemas()[17].2);
    assert(r@[18].1@.map_values(|s: &'static str| s@) =~= catalog_schemas()[18].1);
    assert(r@[18].2@.map_values(|s: &'static str| s@) =~= catalog_schemas()[18].2);
    assert(r@[19].1@.map_values(|s: &'static str| s@) =~= catalog_schemas()[19].1);
    assert(r@[19].2@.map_values(|s: &'static str| s@) =~= catalog_schemas()[19].2);
    assert(r@[20].1@.map_values(|s: &'static str| s@) =~= catalog_schemas()[20].1);
    assert(r@[20].2@.map_values(|s: &'static str| s@) =~= catalog_schemas()[20].2);
    assert(r@[21].1@.map_values(|s: &'static str| s@) =~= catalog_schemas()[21].1);
    assert(r@[21].2@.map_values(|s: &'static str| s@) =~= catalog_schemas()[21].2);
    assert(r@.map_values(|e: SchemaNames| schema_view(e)) =~= catalog_schemas());
    r
}

/// Every tool of the catalog requires only inputs that are among its properties.
pub proof fn lemma_required_are_properties(i: int)
    requires
        0 <= i < catalog_schemas().len(),
    ensures
        requires_properties(catalog_schemas()[i]),
{
    if i == 1 {
        assert(catalog_schemas()[1].1[0] == catalog_schemas()[1].2[0]);
    }
    if i == 2 {
        assert(catalog_schemas()[2].1[4] == catalog_schemas()[2].2[0]);
    }
    if i == 3 {
        assert(catalog_schemas()[3].1[1] == catalog_schemas()[3].2[0]);
    }
    if i == 4 {
        assert(catalog_schemas()[4].1[2] == catalog_schemas()[4].2[0]);
    }
    if i == 5 {
        assert(catalog_schemas()[5].1[0] == catalog_schemas()[5].2[0]);
        assert(catalog_schemas()[5].1[1] == catalog_schemas()[5].2[1]);
    }
    if i == 6 {
        assert(catalog_schemas()[6].1[0] == catalog_schemas()[6].2[0]);
    }
    if i == 7 {
        assert(catalog_schemas()[7].1[0] == catalog_schemas()[7].2[0]);
    }
    if i == 8 {
        assert(catalog_schemas()[8].1[0] == catalog_schemas()[8].2[0]);
    }
    if i == 9 {
        assert(catalog_schemas()[9].1[0] == catalog_schemas()[9].2[0]);
    }
    if i == 10 {
        assert(catalog_schemas()[10].1[0] == catalog_schemas()[10].2[0]);
        assert(catalog_schemas()[10].1[1] == catalog_schemas()[10].2[1]);
    }
    if i == 11 {
        assert(catalog_schemas()[11].1[1] == catalog_schemas()[11].2[0]);
        assert(catalog_schemas()[11].1[0] == catalog_schemas()[11].2[1]);
    }
    if i == 12 {
        assert(catalog_schemas()[12].1[0] == catalog_schemas()[12].2[0]);
    }
    if i == 13 {
        assert(catalog_schemas()[13].1[0] == catalog_schemas()[13].2[0]);
    }
    if i == 17 {
        assert(catalog_schemas()[17].1[1] == catalog_schemas()[17].2[0]);
    }
    if i == 18 {
        assert(catalog_schemas()[18].1[0] == catalog_schemas()[18].2[0]);
    }
    if i == 19 {
        assert(catalog_schemas()[19].1[1] == catalog_schemas()[19].2[0]);
    }
    if i == 20 {
        assert(catalog_schemas()[20].1[0] == catalog_schemas()[20].2[0]);
    }
    if i == 21 {
        assert(catalog_schemas()[21].1[0] == catalog_schemas()[21].2[0]);
    }
}

/// `notion_search` posts to `search` the `query` argument when given, the `filter_type`
/// argument as the kind of object searched for when given, and sorts on the last edit time in
/// the `sort_direction` argument's direction, descending by default.
pub proof fn lemma_search_request(args: Json)
    ensures
        handle_view("notion_search"@, args, seq![]) == send_view(
            Method::Post,
            "https://api.notion.com/v1/search"@,
            Some(
                "{"@ + match args.at("filter_type"@).str_of() {
                    Some(f) => "\"filter\":{\"property\":\"object\",\"value\":"@ + quoted(f) + "},"@,
                    None => seq![],
                } + "\"page_size\":"@ + dec_nat(page_size(args, 20)) + match args.at("query"@).str_of() {
                    Some(q) => ","@ + quoted("query"@) + ":"@ + quoted(q),
                    None => seq![],
                } + ",\"sort\":{\"direction\":"@ + quoted(
                    match args.at("sort_direction"@).str_of() {
                        Some(d) => d,
                        None => "descending"@,
                    },
                ) + ",\"timestamp\":\"last_edited_time\"}"@ + match args.at("start_cursor"@).str_of() {
                    Some(c) => ","@ + quoted("start_cursor"@) + ":"@ + quoted(c),
                    None => seq![],
                } + "}"@,
            ),
        ),
{
    reveal_strlit("search");
    reveal_strlit("https://api.notion.com/v1/");
    reveal_strlit("https://api.notion.com/v1/search");
    assert("search"@[0] == 's');
    assert(trim_start_spec("search"@, '/') == "search"@);
    assert(api_url("search"@) =~= "https://api.notion.com/v1/search"@);
}

} // verus!
