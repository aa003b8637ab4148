//! Sentry connector (REST API v0).
use vstd::prelude::*;
use crate::connectors::catalog::{build_catalog, catalog_text, requires_properties, schema_view, texts, SchemaNames};
use crate::encoding::{delimiter_escape_chars, escape_delimiters, is_delimiter};
use crate::fmt::{
    get_nested_str_or, get_str_or, get_u64_text_or, join_spec, lemma_join_push, join_strings, join_strs, str_or,
    string_views, u64_text_or, views,
};
use crate::http::{fail_view, ok_view, send, send_view, Method, Step, StepView};
use crate::json::{
    get_array, get_bool, get_str, get_u64, json_text, pretty_text, push_quoted, quoted, to_json_string,
    to_json_string_pretty, Json,
};
use crate::occurs::{lemma_occurs_append, lemma_occurs_prepend, lemma_occurs_tail4, lemma_occurs_tail5, lemma_regroup, occurs};
use crate::text::{
    dec_nat, has_non_ws, is_white_space, lemma_non_ws_occurs, lemma_trim_end_ws_concat, owned, push_chars, push_str, push_u64, str_chars, str_eq, trim_end_char, trim_end_spec,
    trim_end_ws, trim_end_ws_spec, trim_start_char, trim_start_spec,
};

verus! {

/// Sentry credentials (`~/.osmozzz/sentry.toml`); `host` selects a self-hosted instance.
pub struct SentryConfig {
    pub token: String,
    pub host: Option<String>,
}

/// The host calls go to: the configured one when set and not empty, else `https://sentry.io`.
pub open spec fn host_of(host: Option<Seq<char>>) -> Seq<char> {
    match host {
        Some(h) => if h.len() > 0 { h } else { "https://sentry.io"@ },
        None => "https://sentry.io"@,
    }
}

impl SentryConfig {
    /// The configured host as text, when one is set.
    pub open spec fn host_view(&self) -> Option<Seq<char>> {
        match self.host {
            Some(h) => Some(h@),
            None => None,
        }
    }

    /// The API root: the host without trailing slashes, then `/api/0`.
    pub fn base_url(&self) -> (r: String)
        ensures
            r@ == trim_end_spec(host_of(self.host_view()), '/') + "/api/0"@,
    {
        let host: &str = match &self.host {
            Some(h) => if h.as_str().is_empty() { "https://sentry.io" } else { h.as_str() },
            None => "https://sentry.io",
        };
        let mut out = String::new();
        push_chars(&mut out, &trim_end_char(&str_chars(host), '/'));
        push_str(&mut out, "/api/0");
        assert(Seq::<char>::empty() + trim_end_spec(host@, '/') == trim_end_spec(host@, '/'));
        out
    }

    /// The API URL of `path` without its outer slashes, always ending with a slash.
    pub fn api(&self, path: &str) -> (r: String)
        ensures
            r@ == trim_end_spec(host_of(self.host_view()), '/') + "/api/0"@ + "/"@
                + trim_end_spec(trim_start_spec(path@, '/'), '/') + "/"@,
    {
        let mut out = self.base_url();
        push_str(&mut out, "/");
        let p = trim_end_char(&trim_start_char(&str_chars(path), '/'), '/');
        push_chars(&mut out, &p);
        push_str(&mut out, "/");
        out
    }
}

/// Encodes the URL delimiters of a query value (space, `:`, `/`, `?`, `#`, `&`, `=`, `+`, `%`)
/// and keeps every other character.
pub fn urlencoding_simple(s: &str) -> (r: String)
    ensures
        r@ == delimiter_escape_chars(s@),
        forall|i: int| 0 <= i < r@.len() ==> !is_delimiter(#[trigger] r@[i]) || r@[i] == '%',
{
    escape_delimiters(s)
}


// ─── Tool calls ──────────────────────────────────────────────────────────────

/// The API URL of `path` (see [`SentryConfig::api`]).
pub open spec fn api_of(cfg: SentryConfig, path: Seq<char>) -> Seq<char> {
    trim_end_spec(host_of(cfg.host_view()), '/') + "/api/0"@ + "/"@ + trim_end_spec(
        trim_start_spec(path, '/'),
        '/',
    ) + "/"@
}

/// A tool that makes one request: the request, then the outcome rendered from its response.
pub open spec fn one_call(req: StepView, rs: Seq<Json>, text: spec_fn(Json) -> Seq<char>) -> StepView {
    if rs.len() == 0 {
        req
    } else {
        ok_view(text(rs[0]))
    }
}

/// The error for a missing argument.
pub open spec fn required_text(key: Seq<char>) -> Seq<char> {
    "Paramètre '"@ + key + "' requis"@
}

fn required(key: &str) -> (s: Step)
    ensures
        s@ == fail_view(required_text(key@)),
{
    let mut e = owned("Paramètre '");
    push_str(&mut e, key);
    push_str(&mut e, "' requis");
    Step::Done(Err(e))
}

fn ok_text(t: String) -> (s: Step)
    ensures
        s@ == ok_view(t@),
{
    Step::Done(Ok(t))
}

fn concat(a: &str, b: &str) -> (r: String)
    ensures
        r@ == a@ + b@,
{
    let mut r = owned(a);
    push_str(&mut r, b);
    r
}

fn concat3(a: &str, b: &str, c: &str) -> (r: String)
    ensures
        r@ == a@ + b@ + c@,
{
    let mut r = owned(a);
    push_str(&mut r, b);
    push_str(&mut r, c);
    r
}

/// The text of an optional string slice.
pub open spec fn opt_view(v: Option<&str>) -> Option<Seq<char>> {
    match v {
        Some(s) => Some(s@),
        None => None,
    }
}

/// `parts` with `lead` and the value appended when there is a value.
pub open spec fn with_part(parts: Seq<Seq<char>>, lead: Seq<char>, v: Option<Seq<char>>) -> Seq<Seq<char>> {
    match v {
        Some(x) => parts.push(lead + x),
        None => parts,
    }
}

fn push_part(parts: &mut Vec<String>, lead: &str, v: Option<&str>)
    ensures
        string_views(final(parts)@) == with_part(string_views(old(parts)@), lead@, opt_view(v)),
{
    match v {
        Some(x) => {
            let ghost before = parts@;
            parts.push(concat(lead, x));
            assert(string_views(parts@) =~= string_views(before).push(lead@ + x@));
        },
        None => {},
    }
}

/// A query string of parameters: none when there are none, else `?` and the parameters
/// joined with `&`.
pub open spec fn query_of(params: Seq<Seq<char>>) -> Seq<char> {
    if params.len() == 0 {
        seq![]
    } else {
        "?"@ + join_spec(params, "&"@)
    }
}

fn query_exec(params: &Vec<String>) -> (r: String)
    ensures
        r@ == query_of(string_views(params@)),
{
    if params.len() == 0 {
        String::new()
    } else {
        concat("?", join_strings(params, "&").as_str())
    }
}

/// A JSON object of the given member texts (`"key":value`, in key order).
pub open spec fn object_of(members: Seq<Seq<char>>) -> Seq<char> {
    "{"@ + join_spec(members, ","@) + "}"@
}

fn object_exec(members: &Vec<String>) -> (r: String)
    ensures
        r@ == object_of(string_views(members@)),
{
    concat3("{", join_strings(members, ",").as_str(), "}")
}

/// A string argument as a member value.
pub open spec fn str_member(args: Json, key: Seq<char>) -> Option<Seq<char>> {
    match args.at(key).str_of() {
        Some(s) => Some(quoted(s)),
        None => None,
    }
}

fn str_member_exec(args: &Json, key: &str) -> (r: Option<String>)
    ensures
        match r {
            Some(t) => str_member(*args, key@) == Some(t@),
            None => str_member(*args, key@) is None,
        },
{
    match get_str(args, key) {
        Some(s) => {
            let mut t = String::new();
            push_quoted(&mut t, s);
            assert(t@ =~= quoted(s@));
            Some(t)
        },
        None => None,
    }
}

/// A boolean argument as a member value.
pub open spec fn bool_member(args: Json, key: Seq<char>) -> Option<Seq<char>> {
    match args.at(key).bool_of() {
        Some(b) => Some(json_text(Json::Bool(b))),
        None => None,
    }
}

fn bool_member_exec(args: &Json, key: &str) -> (r: Option<String>)
    ensures
        match r {
            Some(t) => bool_member(*args, key@) == Some(t@),
            None => bool_member(*args, key@) is None,
        },
{
    match get_bool(args, key) {
        Some(b) => Some(to_json_string(&Json::Bool(b))),
        None => None,
    }
}

fn push_member(parts: &mut Vec<String>, lead: &str, v: Option<String>)
    ensures
        string_views(final(parts)@) == with_part(
            string_views(old(parts)@),
            lead@,
            match v {
                Some(t) => Some(t@),
                None => None,
            },
        ),
{
    match v {
        Some(x) => {
            let ghost before = parts@;
            parts.push(concat(lead, x.as_str()));
            assert(string_views(parts@) =~= string_views(before).push(lead@ + x@));
        },
        None => {},
    }
}

/// A limit argument, `d` by default, at most 100.
pub open spec fn limit_of(args: Json, d: nat) -> nat {
    let n: nat = match args.at("limit"@).u64_of() {
        Some(n) => n as nat,
        None => d,
    };
    if n > 100 {
        100
    } else {
        n
    }
}

fn get_limit(args: &Json, d: u64) -> (n: u64)
    ensures
        n == limit_of(*args, d as nat),
{
    let n = match get_u64(args, "limit") {
        Some(n) => n,
        None => d,
    };
    if n > 100 {
        100
    } else {
        n
    }
}

/// Who an issue is assigned to: the name, else the e-mail, else `non assigné`.
pub open spec fn assigned_of(issue: Json) -> Seq<char> {
    match issue.at("assignedTo"@).at("name"@).str_of() {
        Some(n) => n,
        None => str_or(issue.at("assignedTo"@), "email"@, "non assigné"@),
    }
}

fn get_assigned(issue: &Json) -> (r: &str)
    ensures
        r@ == assigned_of(*issue),
{
    match issue.get("assignedTo") {
        Some(a) => match get_str(a, "name") {
            Some(n) => n,
            None => get_str_or(a, "email", "non assigné"),
        },
        None => "non assigné",
    }
}

/// The slugs of the projects of a release, in order, skipping those without one.
pub open spec fn slugs(items: Seq<Json>) -> Seq<Seq<char>>
    decreases items.len(),
{
    if items.len() == 0 {
        seq![]
    } else {
        slugs(items.drop_last()) + match items.last().at("slug"@).str_of() {
            Some(s) => seq![s],
            None => seq![],
        }
    }
}

/// The projects of a release, joined with `, `, or `—` when there are none.
pub open spec fn projects_text(r: Json) -> Seq<char> {
    let ps = match r.at("projects"@).array_of() {
        Some(a) => slugs(a),
        None => seq![],
    };
    if ps.len() == 0 {
        "—"@
    } else {
        join_spec(ps, ", "@)
    }
}

fn projects_text_exec(r: &Json) -> (t: String)
    ensures
        t@ == projects_text(*r),
{
    let mut ps: Vec<&str> = Vec::new();
    match get_array(r, "projects") {
        Some(a) => {
            let n = a.len();
            for i in 0..n
                invariant
                    n == a@.len(),
                    views(ps@) == slugs(a@.take(i as int)),
            {
                assert(a@.take(i + 1).drop_last() == a@.take(i as int));
                assert(a@.take(i + 1).last() == a@[i as int]);
                let ghost before = ps@;
                match get_str(&a[i], "slug") {
                    Some(s) => {
                        ps.push(s);
                        assert(views(ps@) =~= views(before) + seq![s@]);
                    },
                    None => {
                        assert(slugs(a@.take(i + 1)) =~= slugs(a@.take(i as int)));
                    },
                }
            }
            assert(a@.take(n as int) == a@);
        },
        None => {},
    }
    if ps.len() == 0 {
        owned("—")
    } else {
        join_strs(&ps, ", ")
    }
}

/// The kinds of listed items.
#[derive(Clone, Copy)]
pub enum Listed {
    Organization,
    Project,
    Team,
    Release,
    Dsn,
    Issue,
    IssueEvent,
    TagValue,
    Event,
    FoundIssue,
    FoundEvent,
    FoundIssueEvent,
}

/// One listed item, with its line break.
pub open spec fn item_text(kind: Listed, j: Json) -> Seq<char> {
    let id = str_or(j, "id"@, "—"@);
    let title = str_or(j, "title"@, "—"@);
    let date = str_or(j, "dateCreated"@, "—"@);
    match kind {
        Listed::Organization => "• ["@ + str_or(j, "slug"@, "—"@) + "] "@ + str_or(j, "name"@, "—"@)
            + " — statut: "@ + str_or(j.at("status"@), "name"@, "—"@) + " — créé: "@ + date + "\n"@,
        Listed::Project => "• ["@ + str_or(j, "slug"@, "—"@) + "] "@ + str_or(j, "name"@, "—"@)
            + " — plateforme: "@ + str_or(j, "platform"@, "—"@) + " — statut: "@ + str_or(
            j,
            "status"@,
            "—"@,
        ) + "\n"@,
        Listed::Team => "• ["@ + str_or(j, "slug"@, "—"@) + "] "@ + str_or(j, "name"@, "—"@) + " — "@
            + u64_text_or(j, "memberCount"@, "0"@) + " membre(s) — créé: "@ + date + "\n"@,
        Listed::Release => {
            let env = str_or(j.at("lastDeploy"@), "environment"@, ""@);
            "• "@ + str_or(j, "version"@, "—"@) + " — créé: "@ + date + if env.len() == 0 {
                seq![]
            } else {
                " — env: "@ + env
            } + " — projets: "@ + projects_text(j) + "\n"@
        },
        Listed::Dsn => "• ["@ + id + "] "@ + str_or(j, "name"@, "—"@) + " ("@ + if match j.at(
            "isActive"@,
        ).bool_of() {
            Some(b) => b,
            None => false,
        } {
            "actif"@
        } else {
            "inactif"@
        } + ")\n  DSN public : "@ + str_or(j.at("dsn"@), "public"@, "—"@) + "\n"@,
        Listed::Issue => "• ["@ + id + "] "@ + title + "\n  statut: "@ + str_or(j, "status"@, "—"@)
            + " | projet: "@ + str_or(j.at("project"@), "slug"@, "—"@) + " | occurrences: "@ + str_or(
            j,
            "count"@,
            "0"@,
        ) + " | assigné: "@ + assigned_of(j) + "\n  première fois: "@ + str_or(j, "firstSeen"@, "—"@)
            + " | dernière fois: "@ + str_or(j, "lastSeen"@, "—"@) + "\n"@,
        Listed::IssueEvent => "• ["@ + id + "] "@ + title + "\n  date: "@ + date + " | plateforme: "@
            + str_or(j, "platform"@, "—"@) + " | env: "@ + str_or(j, "environment"@, "—"@) + "\n"@,
        Listed::TagValue => "• "@ + str_or(j, "value"@, "—"@) + " — "@ + u64_text_or(j, "count"@, "0"@)
            + " occurrences (première: "@ + str_or(j, "firstSeen"@, "—"@) + ", dernière: "@ + str_or(
            j,
            "lastSeen"@,
            "—"@,
        ) + ")\n"@,
        Listed::Event => "• ["@ + id + "] "@ + title + "\n  date: "@ + date + " | niveau: "@ + str_or(
            j,
            "level"@,
            "—"@,
        ) + " | plateforme: "@ + str_or(j, "platform"@, "—"@) + "\n"@,
        Listed::FoundIssue => "• ["@ + id + "] "@ + title + " — statut: "@ + str_or(j, "status"@, "—"@)
            + " — occurrences: "@ + str_or(j, "count"@, "0"@) + "\n"@,
        Listed::FoundEvent => "• ["@ + id + "] ["@ + str_or(j, "level"@, "—"@) + "] "@ + title + " — "@
            + date + "\n"@,
        Listed::FoundIssueEvent => "• ["@ + id + "] "@ + date + " — "@ + str_or(j, "message"@, "—"@)
            + "\n"@,
    }
}

fn format_item(kind: Listed, j: &Json) -> (r: String)
    ensures
        r@ == item_text(kind, *j),
{
    let id = get_str_or(j, "id", "—");
    let title = get_str_or(j, "title", "—");
    let date = get_str_or(j, "dateCreated", "—");
    let mut out = String::new();
    match kind {
        Listed::Organization => {
            push_str(&mut out, "• [");
            push_str(&mut out, get_str_or(j, "slug", "—"));
            push_str(&mut out, "] ");
            push_str(&mut out, get_str_or(j, "name", "—"));
            push_str(&mut out, " — statut: ");
            push_str(&mut out, get_nested_str_or(j, "status", "name", "—"));
            push_str(&mut out, " — créé: ");
            push_str(&mut out, date);
            push_str(&mut out, "\n");
            assert(out@ =~= item_text(kind, *j));
        },
        Listed::Project => {
            push_str(&mut out, "• [");
            push_str(&mut out, get_str_or(j, "slug", "—"));
            push_str(&mut out, "] ");
            push_str(&mut out, get_str_or(j, "name", "—"));
            push_str(&mut out, " — plateforme: ");
            push_str(&mut out, get_str_or(j, "platform", "—"));
            push_str(&mut out, " — statut: ");
            push_str(&mut out, get_str_or(j, "status", "—"));
            push_str(&mut out, "\n");
            assert(out@ =~= item_text(kind, *j));
        },
        Listed::Team => {
            push_str(&mut out, "• [");
            push_str(&mut out, get_str_or(j, "slug", "—"));
            push_str(&mut out, "] ");
            push_str(&mut out, get_str_or(j, "name", "—"));
            push_str(&mut out, " — ");
            push_str(&mut out, get_u64_text_or(j, "memberCount", "0").as_str());
            push_str(&mut out, " membre(s) — créé: ");
            push_str(&mut out, date);
            push_str(&mut out, "\n");
            assert(out@ =~= item_text(kind, *j));
        },
        Listed::Release => {
            let env = get_nested_str_or(j, "lastDeploy", "environment", "");
            push_str(&mut out, "• ");
            push_str(&mut out, get_str_or(j, "version", "—"));
            push_str(&mut out, " — créé: ");
            push_str(&mut out, date);
            if !env.is_empty() {
                push_str(&mut out, " — env: ");
                push_str(&mut out, env);
            }
            push_str(&mut out, " — projets: ");
            push_str(&mut out, projects_text_exec(j).as_str());
            push_str(&mut out, "\n");
            assert(out@ =~= item_text(kind, *j));
        },
        Listed::Dsn => {
            push_str(&mut out, "• [");
            push_str(&mut out, id);
            push_str(&mut out, "] ");
            push_str(&mut out, get_str_or(j, "name", "—"));
            push_str(&mut out, " (");
            let active = match get_bool(j, "isActive") {
                Some(b) => b,
                None => false,
            };
            push_str(&mut out, if active { "actif" } else { "inactif" });
            push_str(&mut out, ")\n  DSN public : ");
            push_str(&mut out, get_nested_str_or(j, "dsn", "public", "—"));
            push_str(&mut out, "\n");
            assert(out@ =~= item_text(kind, *j));
        },
        Listed::Issue => {
            push_str(&mut out, "• [");
            push_str(&mut out, id);
            push_str(&mut out, "] ");
            push_str(&mut out, title);
            push_str(&mut out, "\n  statut: ");
            push_str(&mut out, get_str_or(j, "status", "—"));
            push_str(&mut out, " | projet: ");
            push_str(&mut out, get_nested_str_or(j, "project", "slug", "—"));
            push_str(&mut out, " | occurrences: ");
            push_str(&mut out, get_str_or(j, "count", "0"));
            push_str(&mut out, " | assigné: ");
            push_str(&mut out, get_assigned(j));
            push_str(&mut out, "\n  première fois: ");
            push_str(&mut out, get_str_or(j, "firstSeen", "—"));
            push_str(&mut out, " | dernière fois: ");
            push_str(&mut out, get_str_or(j, "lastSeen", "—"));
            push_str(&mut out, "\n");
            assert(out@ =~= item_text(kind, *j));
        },
        Listed::IssueEvent => {
            push_str(&mut out, "• [");
            push_str(&mut out, id);
            push_str(&mut out, "] ");
            push_str(&mut out, title);
            push_str(&mut out, "\n  date: ");
            push_str(&mut out, date);
            push_str(&mut out, " | plateforme: ");
            push_str(&mut out, get_str_or(j, "platform", "—"));
            push_str(&mut out, " | env: ");
            push_str(&mut out, get_str_or(j, "environment", "—"));
            push_str(&mut out, "\n");
            assert(out@ =~= item_text(kind, *j));
        },
        Listed::TagValue => {
            push_str(&mut out, "• ");
            push_str(&mut out, get_str_or(j, "value", "—"));
            push_str(&mut out, " — ");
            push_str(&mut out, get_u64_text_or(j, "count", "0").as_str());
            push_str(&mut out, " occurrences (première: ");
            push_str(&mut out, get_str_or(j, "firstSeen", "—"));
            push_str(&mut out, ", dernière: ");
            push_str(&mut out, get_str_or(j, "lastSeen", "—"));
            push_str(&mut out, ")\n");
            assert(out@ =~= item_text(kind, *j));
        },
        Listed::Event => {
            push_str(&mut out, "• [");
            push_str(&mut out, id);
            push_str(&mut out, "] ");
            push_str(&mut out, title);
            push_str(&mut out, "\n  date: ");
            push_str(&mut out, date);
            push_str(&mut out, " | niveau: ");
            push_str(&mut out, get_str_or(j, "level", "—"));
            push_str(&mut out, " | plateforme: ");
            push_str(&mut out, get_str_or(j, "platform", "—"));
            push_str(&mut out, "\n");
            assert(out@ =~= item_text(kind, *j));
        },
        Listed::FoundIssue => {
            push_str(&mut out, "• [");
            push_str(&mut out, id);
            push_str(&mut out, "] ");
            push_str(&mut out, title);
            push_str(&mut out, " — statut: ");
            push_str(&mut out, get_str_or(j, "status", "—"));
            push_str(&mut out, " — occurrences: ");
            push_str(&mut out, get_str_or(j, "count", "0"));
            push_str(&mut out, "\n");
            assert(out@ =~= item_text(kind, *j));
        },
        Listed::FoundEvent => {
            push_str(&mut out, "• [");
            push_str(&mut out, id);
            push_str(&mut out, "] [");
            push_str(&mut out, get_str_or(j, "level", "—"));
            push_str(&mut out, "] ");
            push_str(&mut out, title);
            push_str(&mut out, " — ");
            push_str(&mut out, date);
            push_str(&mut out, "\n");
            assert(out@ =~= item_text(kind, *j));
        },
        Listed::FoundIssueEvent => {
            push_str(&mut out, "• [");
            push_str(&mut out, id);
            push_str(&mut out, "] ");
            push_str(&mut out, date);
            push_str(&mut out, " — ");
            push_str(&mut out, get_str_or(j, "message", "—"));
            push_str(&mut out, "\n");
            assert(out@ =~= item_text(kind, *j));
        },
    }
    out
}

/// The items' texts, one after the other.
pub open spec fn lines(kind: Listed, items: Seq<Json>) -> Seq<char>
    decreases items.len(),
{
    if items.len() == 0 {
        seq![]
    } else {
        lines(kind, items.drop_last()) + item_text(kind, items.last())
    }
}

/// The items of a list response, which is an array (none when it is not).
pub open spec fn items_of(r: Json) -> Seq<Json> {
    match r.array_of() {
        Some(a) => a,
        None => seq![],
    }
}

/// A list response: `empty` when it has no item, else the count, `header` and the items,
/// without trailing white space.
pub open spec fn listing(kind: Listed, r: Json, header: Seq<char>, empty: Seq<char>) -> Seq<char> {
    let items = items_of(r);
    if items.len() == 0 {
        empty
    } else {
        trim_end_ws_spec(dec_nat(items.len()) + header + lines(kind, items))
    }
}

fn listing_exec(kind: Listed, r: &Json, header: &str, empty: &str) -> (t: String)
    ensures
        t@ == listing(kind, *r, header@, empty@),
{
    let items = match r.as_array() {
        Some(a) => a,
        None => return owned(empty),
    };
    let n = items.len();
    if n == 0 {
        return owned(empty);
    }
    let mut out = String::new();
    push_u64(&mut out, n as u64);
    push_str(&mut out, header);
    let ghost head = out@;
    for i in 0..n
        invariant
            n == items@.len(),
            out@ == head + lines(kind, items@.take(i as int)),
    {
        assert(items@.take(i + 1).drop_last() == items@.take(i as int));
        assert(items@.take(i + 1).last() == items@[i as int]);
        push_str(&mut out, format_item(kind, &items[i]).as_str());
    }
    assert(items@.take(n as int) == items@);
    trim_end_ws(out.as_str())
}


/// A `GET` of an API path.
pub open spec fn get_view(cfg: SentryConfig, path: Seq<char>) -> StepView {
    send_view(Method::Get, api_of(cfg, path), None)
}

/// A query value with its URL delimiters encoded.
pub open spec fn enc_opt(v: Option<Seq<char>>) -> Option<Seq<char>> {
    match v {
        Some(q) => Some(delimiter_escape_chars(q)),
        None => None,
    }
}

/// `lead` and the value, or nothing.
pub open spec fn opt_suffix(lead: Seq<char>, v: Option<Seq<char>>) -> Seq<char> {
    match v {
        Some(x) => lead + x,
        None => seq![],
    }
}

/// A boolean argument, `false` by default.
pub open spec fn flag(j: Json, key: Seq<char>) -> bool {
    match j.at(key).bool_of() {
        Some(b) => b,
        None => false,
    }
}

pub open spec fn find_organizations_view(cfg: SentryConfig, rs: Seq<Json>) -> StepView {
    one_call(
        get_view(cfg, "organizations"@),
        rs,
        |r: Json| listing(Listed::Organization, r, " organisation(s) :\n"@, "Aucune organisation Sentry trouvée."@),
    )
}

pub open spec fn find_projects_view(cfg: SentryConfig, args: Json, rs: Seq<Json>) -> StepView {
    match args.at("org_slug"@).str_of() {
        None => fail_view(required_text("org_slug"@)),
        Some(org) => one_call(
            send_view(
                Method::Get,
                api_of(cfg, "organizations/"@ + org + "/projects"@) + opt_suffix(
                    "?cursor="@,
                    args.at("cursor"@).str_of(),
                ),
                None,
            ),
            rs,
            |r: Json|
                listing(
                    Listed::Project,
                    r,
                    " projet(s) dans "@ + org + " :\n"@,
                    "Aucun projet dans l'organisation "@ + org + "."@,
                ),
        ),
    }
}

pub open spec fn find_teams_view(cfg: SentryConfig, args: Json, rs: Seq<Json>) -> StepView {
    match args.at("org_slug"@).str_of() {
        None => fail_view(required_text("org_slug"@)),
        Some(org) => one_call(
            get_view(cfg, "organizations/"@ + org + "/teams"@),
            rs,
            |r: Json|
                listing(
                    Listed::Team,
                    r,
                    " équipe(s) dans "@ + org + " :\n"@,
                    "Aucune équipe dans l'organisation "@ + org + "."@,
                ),
        ),
    }
}

/// The query parameters of `sentry_find_releases`.
pub open spec fn release_params(args: Json) -> Seq<Seq<char>> {
    with_part(
        with_part(
            with_part(seq![], "project="@, args.at("project_slug"@).str_of()),
            "query="@,
            enc_opt(args.at("query"@).str_of()),
        ),
        "cursor="@,
        args.at("cursor"@).str_of(),
    )
}

pub open spec fn find_releases_view(cfg: SentryConfig, args: Json, rs: Seq<Json>) -> StepView {
    match args.at("org_slug"@).str_of() {
        None => fail_view(required_text("org_slug"@)),
        Some(org) => one_call(
            send_view(
                Method::Get,
                api_of(cfg, "organizations/"@ + org + "/releases"@) + query_of(release_params(args)),
                None,
            ),
            rs,
            |r: Json|
                listing(Listed::Release, r, " release(s) :\n"@, "Aucune release dans l'organisation "@ + org + "."@),
        ),
    }
}

pub open spec fn find_dsns_view(cfg: SentryConfig, args: Json, rs: Seq<Json>) -> StepView {
    match args.at("org_slug"@).str_of() {
        None => fail_view(required_text("org_slug"@)),
        Some(org) => match args.at("project_slug"@).str_of() {
            None => fail_view(required_text("project_slug"@)),
            Some(proj) => one_call(
                get_view(cfg, "projects/"@ + org + "/"@ + proj + "/keys"@),
                rs,
                |r: Json|
                    listing(
                        Listed::Dsn,
                        r,
                        " clé(s) DSN pour "@ + proj + " :\n"@,
                        "Aucun DSN pour le projet "@ + proj + "."@,
                    ),
            ),
        },
    }
}

/// The query parameters of `sentry_list_issues`.
pub open spec fn issue_params(args: Json) -> Seq<Seq<char>> {
    with_part(
        with_part(
            with_part(
                seq!["limit="@ + dec_nat(limit_of(args, 25))],
                "project="@,
                args.at("project_slug"@).str_of(),
            ),
            "query="@,
            enc_opt(args.at("query"@).str_of()),
        ),
        "cursor="@,
        args.at("cursor"@).str_of(),
    )
}

pub open spec fn list_issues_view(cfg: SentryConfig, args: Json, rs: Seq<Json>) -> StepView {
    match args.at("org_slug"@).str_of() {
        None => fail_view(required_text("org_slug"@)),
        Some(org) => one_call(
            send_view(
                Method::Get,
                api_of(cfg, "organizations/"@ + org + "/issues"@) + query_of(issue_params(args)),
                None,
            ),
            rs,
            |r: Json| listing(Listed::Issue, r, " issue(s) :\n"@, "Aucune issue dans l'organisation "@ + org + "."@),
        ),
    }
}

/// The tags of an issue as `key=value`.
pub open spec fn tag_pairs(items: Seq<Json>) -> Seq<Seq<char>>
    decreases items.len(),
{
    if items.len() == 0 {
        seq![]
    } else {
        tag_pairs(items.drop_last()).push(
            str_or(items.last(), "key"@, "?"@) + "="@ + str_or(items.last(), "value"@, "?"@),
        )
    }
}

/// The tags of an issue joined with `, `, or `aucun`.
pub open spec fn tags_text(r: Json) -> Seq<char> {
    let ts = match r.at("tags"@).array_of() {
        Some(a) => tag_pairs(a),
        None => seq![],
    };
    if ts.len() == 0 {
        "aucun"@
    } else {
        join_spec(ts, ", "@)
    }
}

/// `sentry_get_issue`.
pub open spec fn issue_text(r: Json) -> Seq<char> {
    "Issue "@ + str_or(r, "id"@, "—"@) + "\nTitre       : "@ + str_or(r, "title"@, "—"@) + "\nCulprit     : "@
        + str_or(r, "culprit"@, "—"@) + "\nStatut      : "@ + str_or(r, "status"@, "—"@) + "\nNiveau      : "@
        + str_or(r, "level"@, "—"@) + "\nPriorité    : "@ + str_or(r, "priority"@, "—"@) + "\nProjet      : "@
        + str_or(r.at("project"@), "slug"@, "—"@) + "\nAssigné     : "@ + assigned_of(r) + "\nOccurrences : "@
        + str_or(r, "count"@, "0"@) + " ("@ + u64_text_or(r, "userCount"@, "0"@) + " utilisateur(s))\nPremière    : "@
        + str_or(r, "firstSeen"@, "—"@) + "\nDernière    : "@ + str_or(r, "lastSeen"@, "—"@) + "\nTags        : "@
        + tags_text(r)
}

pub open spec fn get_issue_view(cfg: SentryConfig, args: Json, rs: Seq<Json>) -> StepView {
    match args.at("issue_id"@).str_of() {
        None => fail_view(required_text("issue_id"@)),
        Some(id) => one_call(get_view(cfg, "issues/"@ + id), rs, |r: Json| issue_text(r)),
    }
}

pub open spec fn list_issue_events_view(cfg: SentryConfig, args: Json, rs: Seq<Json>) -> StepView {
    match args.at("issue_id"@).str_of() {
        None => fail_view(required_text("issue_id"@)),
        Some(id) => one_call(
            send_view(
                Method::Get,
                api_of(cfg, "issues/"@ + id + "/events"@) + query_of(
                    with_part(seq!["limit="@ + dec_nat(limit_of(args, 25))], "cursor="@, args.at("cursor"@).str_of()),
                ),
                None,
            ),
            rs,
            |r: Json|
                listing(
                    Listed::IssueEvent,
                    r,
                    " événement(s) pour l'issue "@ + id + " :\n"@,
                    "Aucun événement pour l'issue "@ + id + "."@,
                ),
        ),
    }
}

pub open spec fn tag_values_view(cfg: SentryConfig, args: Json, rs: Seq<Json>) -> StepView {
    match args.at("issue_id"@).str_of() {
        None => fail_view(required_text("issue_id"@)),
        Some(id) => match args.at("tag"@).str_of() {
            None => fail_view(required_text("tag"@)),
            Some(tag) => one_call(
                get_view(cfg, "issues/"@ + id + "/tags/"@ + tag + "/values"@),
                rs,
                |r: Json|
                    listing(
                        Listed::TagValue,
                        r,
                        " valeur(s) pour le tag '"@ + tag + "' :\n"@,
                        "Aucune valeur pour le tag '"@ + tag + "' de l'issue "@ + id + "."@,
                    ),
            ),
        },
    }
}

/// The members of the body of `sentry_update_issue`, in key order.
pub open spec fn issue_update_members(args: Json) -> Seq<Seq<char>> {
    with_part(
        with_part(
            with_part(
                with_part(
                    with_part(
                        with_part(seq![], "\"assignedTo\":"@, str_member(args, "assignedTo"@)),
                        "\"hasSeen\":"@,
                        bool_member(args, "hasSeen"@),
                    ),
                    "\"isBookmarked\":"@,
                    bool_member(args, "isBookmarked"@),
                ),
                "\"isSubscribed\":"@,
                bool_member(args, "isSubscribed"@),
            ),
            "\"priority\":"@,
            str_member(args, "priority"@),
        ),
        "\"status\":"@,
        str_member(args, "status"@),
    )
}

pub open spec fn update_issue_view(cfg: SentryConfig, args: Json, rs: Seq<Json>) -> StepView {
    match args.at("issue_id"@).str_of() {
        None => fail_view(required_text("issue_id"@)),
        Some(id) => if issue_update_members(args).len() == 0 {
            fail_view("Au moins un paramètre de mise à jour est requis"@)
        } else {
            one_call(
                send_view(Method::Put, api_of(cfg, "issues/"@ + id), Some(object_of(issue_update_members(args)))),
                rs,
                |r: Json|
                    "Issue "@ + str_or(r, "id"@, id) + " mise à jour.\nStatut  : "@ + str_or(r, "status"@, "—"@)
                        + "\nAssigné : "@ + assigned_of(r),
            )
        },
    }
}

/// The query parameters of `sentry_list_events`.
pub open spec fn event_params(args: Json) -> Seq<Seq<char>> {
    with_part(
        if flag(args, "full"@) {
            seq!["full=1"@]
        } else {
            seq![]
        },
        "cursor="@,
        args.at("cursor"@).str_of(),
    )
}

pub open spec fn list_events_view(cfg: SentryConfig, args: Json, rs: Seq<Json>) -> StepView {
    match args.at("org_slug"@).str_of() {
        None => fail_view(required_text("org_slug"@)),
        Some(org) => match args.at("project_slug"@).str_of() {
            None => fail_view(required_text("project_slug"@)),
            Some(proj) => one_call(
                send_view(
                    Method::Get,
                    api_of(cfg, "projects/"@ + org + "/"@ + proj + "/events"@) + query_of(event_params(args)),
                    None,
                ),
                rs,
                |r: Json|
                    listing(
                        Listed::Event,
                        r,
                        " événement(s) dans "@ + proj + " :\n"@,
                        "Aucun événement pour le projet "@ + proj + "."@,
                    ),
            ),
        },
    }
}


pub open spec fn create_project_view(cfg: SentryConfig, args: Json, rs: Seq<Json>) -> StepView {
    match args.at("org_slug"@).str_of() {
        None => fail_view(required_text("org_slug"@)),
        Some(org) => match args.at("team_slug"@).str_of() {
            None => fail_view(required_text("team_slug"@)),
            Some(team) => match args.at("name"@).str_of() {
                None => fail_view(required_text("name"@)),
                Some(name) => one_call(
                    send_view(
                        Method::Post,
                        api_of(cfg, "teams/"@ + org + "/"@ + team + "/projects"@),
                        Some(
                            object_of(
                                with_part(
                                    seq!["\"name\":"@ + quoted(name)],
                                    "\"platform\":"@,
                                    str_member(args, "platform"@),
                                ),
                            ),
                        ),
                    ),
                    rs,
                    |r: Json|
                        "Projet créé.\nID   : "@ + str_or(r, "id"@, "—"@) + "\nNom  : "@ + name + "\nSlug : "@
                            + str_or(r, "slug"@, "—"@) + "\nDSN  : "@ + str_or(
                            r.at("options"@),
                            "sentry:csp_ignored_sources"@,
                            "(voir sentry_find_dsns)"@,
                        ) + "\nOrg  : "@ + org + " | Équipe : "@ + team,
                ),
            },
        },
    }
}

pub open spec fn create_team_view(cfg: SentryConfig, args: Json, rs: Seq<Json>) -> StepView {
    match args.at("org_slug"@).str_of() {
        None => fail_view(required_text("org_slug"@)),
        Some(org) => match args.at("name"@).str_of() {
            None => fail_view(required_text("name"@)),
            Some(name) => one_call(
                send_view(
                    Method::Post,
                    api_of(cfg, "organizations/"@ + org + "/teams"@),
                    Some(object_of(with_part(seq!["\"name\":"@ + quoted(name)], "\"slug\":"@, str_member(args, "slug"@)))),
                ),
                rs,
                |r: Json|
                    "Équipe créée.\nID   : "@ + str_or(r, "id"@, "—"@) + "\nNom  : "@ + name + "\nSlug : "@ + str_or(
                        r,
                        "slug"@,
                        "—"@,
                    ) + "\nCréé : "@ + str_or(r, "dateCreated"@, "—"@) + "\nOrg  : "@ + org,
            ),
        },
    }
}

pub open spec fn create_dsn_view(cfg: SentryConfig, args: Json, rs: Seq<Json>) -> StepView {
    match args.at("org_slug"@).str_of() {
        None => fail_view(required_text("org_slug"@)),
        Some(org) => match args.at("project_slug"@).str_of() {
            None => fail_view(required_text("project_slug"@)),
            Some(proj) => match args.at("name"@).str_of() {
                None => fail_view(required_text("name"@)),
                Some(name) => one_call(
                    send_view(
                        Method::Post,
                        api_of(cfg, "projects/"@ + org + "/"@ + proj + "/keys"@),
                        Some(object_of(seq!["\"name\":"@ + quoted(name)])),
                    ),
                    rs,
                    |r: Json|
                        "Clé DSN créée.\nID         : "@ + str_or(r, "id"@, "—"@) + "\nNom        : "@ + name
                            + "\nDSN public : "@ + str_or(r.at("dsn"@), "public"@, "—"@) + "\nDSN secret : "@
                            + str_or(r.at("dsn"@), "secret"@, "—"@) + "\nProjet     : "@ + proj + " | Org : "@ + org,
                ),
            },
        },
    }
}

/// `sentry_whoami`.
pub open spec fn whoami_text(r: Json) -> Seq<char> {
    "Utilisateur Sentry authentifié\nID       : "@ + str_or(r, "id"@, "—"@) + "\nUsername : "@ + str_or(
        r,
        "username"@,
        "—"@,
    ) + "\nNom      : "@ + str_or(r, "name"@, "—"@) + "\nEmail    : "@ + str_or(r, "email"@, "—"@)
        + "\nCréé     : "@ + str_or(r, "dateCreated"@, "—"@) + "\nSuperuser: "@ + if flag(r, "isSuperuser"@) {
        "oui"@
    } else {
        "non"@
    }
}

pub open spec fn attachment_view(cfg: SentryConfig, args: Json, rs: Seq<Json>) -> StepView {
    match args.at("org_slug"@).str_of() {
        None => fail_view(required_text("org_slug"@)),
        Some(org) => match args.at("project_slug"@).str_of() {
            None => fail_view(required_text("project_slug"@)),
            Some(proj) => match args.at("event_id"@).str_of() {
                None => fail_view(required_text("event_id"@)),
                Some(ev) => match args.at("attachment_id"@).str_of() {
                    None => fail_view(required_text("attachment_id"@)),
                    Some(att) => one_call(
                        get_view(cfg, "projects/"@ + org + "/"@ + proj + "/events/"@ + ev + "/attachments/"@ + att),
                        rs,
                        |r: Json|
                            "Pièce jointe "@ + str_or(r, "id"@, "—"@) + "\nNom       : "@ + str_or(r, "name"@, "—"@)
                                + "\nTaille    : "@ + u64_text_or(r, "size"@, "0"@) + " octets\nMIME      : "@
                                + str_or(r, "mimetype"@, "—"@) + "\nCréé      : "@ + str_or(r, "dateCreated"@, "—"@)
                                + "\nHeaders   : "@ + (if r.at("headers"@) is Object {
                                "(présents)"@
                            } else {
                                "—"@
                            }) + "\nÉvénement : "@ + ev + "\nProjet    : "@ + proj + " | Org : "@ + org,
                    ),
                },
            },
        },
    }
}

/// The members of the body of `sentry_update_project`, in key order.
pub open spec fn project_update_members(args: Json) -> Seq<Seq<char>> {
    with_part(
        with_part(with_part(seq![], "\"name\":"@, str_member(args, "name"@)), "\"platform\":"@, str_member(args, "platform"@)),
        "\"subjectPrefix\":"@,
        str_member(args, "subjectPrefix"@),
    )
}

pub open spec fn update_project_view(cfg: SentryConfig, args: Json, rs: Seq<Json>) -> StepView {
    match args.at("org_slug"@).str_of() {
        None => fail_view(required_text("org_slug"@)),
        Some(org) => match args.at("project_slug"@).str_of() {
            None => fail_view(required_text("project_slug"@)),
            Some(proj) => if project_update_members(args).len() == 0 {
                fail_view("Au moins un paramètre parmi 'name', 'platform' ou 'subjectPrefix' est requis"@)
            } else {
                one_call(
                    send_view(
                        Method::Put,
                        api_of(cfg, "projects/"@ + org + "/"@ + proj),
                        Some(object_of(project_update_members(args))),
                    ),
                    rs,
                    |r: Json|
                        "Projet "@ + str_or(r, "id"@, "—"@) + " mis à jour.\nNom        : "@ + str_or(r, "name"@, "—"@)
                            + "\nSlug       : "@ + str_or(r, "slug"@, proj) + "\nPlateforme : "@ + str_or(
                            r,
                            "platform"@,
                            "—"@,
                        ) + "\nOrg        : "@ + org,
                )
            },
        },
    }
}

pub open spec fn search_issues_view(cfg: SentryConfig, args: Json, rs: Seq<Json>) -> StepView {
    match args.at("org_slug"@).str_of() {
        None => fail_view(required_text("org_slug"@)),
        Some(org) => match args.at("query"@).str_of() {
            None => fail_view(required_text("query"@)),
            Some(q) => one_call(
                send_view(
                    Method::Get,
                    api_of(cfg, "organizations/"@ + org + "/issues"@) + ("?query="@ + delimiter_escape_chars(q)
                        + "&limit="@ + dec_nat(limit_of(args, 25)) + opt_suffix(
                        "&project="@,
                        args.at("project_slug"@).str_of(),
                    ) + opt_suffix("&cursor="@, args.at("cursor"@).str_of())),
                    None,
                ),
                rs,
                |r: Json|
                    listing(
                        Listed::FoundIssue,
                        r,
                        " issue(s) pour query '"@ + q + "' :\n"@,
                        "Aucune issue correspondante."@,
                    ),
            ),
        },
    }
}

pub open spec fn search_events_view(cfg: SentryConfig, args: Json, rs: Seq<Json>) -> StepView {
    match args.at("org_slug"@).str_of() {
        None => fail_view(required_text("org_slug"@)),
        Some(org) => match args.at("project_slug"@).str_of() {
            None => fail_view(required_text("project_slug"@)),
            Some(proj) => match args.at("query"@).str_of() {
                None => fail_view(required_text("query"@)),
                Some(q) => one_call(
                    send_view(
                        Method::Get,
                        api_of(cfg, "projects/"@ + org + "/"@ + proj + "/events"@) + ("?query="@
                            + delimiter_escape_chars(q) + "&limit="@ + dec_nat(limit_of(args, 10))),
                        None,
                    ),
                    rs,
                    |r: Json| listing(Listed::FoundEvent, r, " événement(s) :\n"@, "Aucun événement correspondant."@),
                ),
            },
        },
    }
}

/// The limit of `sentry_search_issue_events`: 25 by default, not capped.
pub open spec fn raw_limit(args: Json) -> nat {
    match args.at("limit"@).u64_of() {
        Some(n) => n as nat,
        None => 25,
    }
}

pub open spec fn search_issue_events_view(cfg: SentryConfig, args: Json, rs: Seq<Json>) -> StepView {
    match args.at("issue_id"@).str_of() {
        None => fail_view(required_text("issue_id"@)),
        Some(id) => one_call(
            send_view(
                Method::Get,
                api_of(cfg, "issues/"@ + id + "/events"@) + ("?limit="@ + dec_nat(raw_limit(args)) + opt_suffix(
                    "&query="@,
                    enc_opt(args.at("query"@).str_of()),
                )),
                None,
            ),
            rs,
            |r: Json|
                listing(
                    Listed::FoundIssueEvent,
                    r,
                    " événement(s) pour issue "@ + id + " :\n"@,
                    "Aucun événement pour l'issue "@ + id + "."@,
                ),
        ),
    }
}

/// The first entry of type `exception`, if any.
pub open spec fn first_exception(entries: Seq<Json>) -> Option<Json>
    decreases entries.len(),
{
    if entries.len() == 0 {
        None
    } else if entries[0].at("type"@).str_of() == Some("exception"@) {
        Some(entries[0])
    } else {
        first_exception(entries.drop_first())
    }
}

/// One frame of a stack trace.
pub open spec fn frame_line(f: Json) -> Seq<char> {
    "  "@ + str_or(f, "filename"@, "—"@) + ":"@ + u64_text_or(f, "lineNo"@, "0"@) + " in "@ + str_or(
        f,
        "function"@,
        "—"@,
    )
}

/// At most `n` frames, from the one before index `hi` backwards.
pub open spec fn frame_lines(fs: Seq<Json>, hi: int, n: nat) -> Seq<Seq<char>>
    decreases n,
{
    if n == 0 || hi <= 0 {
        seq![]
    } else {
        seq![frame_line(fs[hi - 1])] + frame_lines(fs, hi - 1, (n - 1) as nat)
    }
}

/// The frames of an exception value.
pub open spec fn frames_of(val: Json) -> Seq<Json> {
    match val.at("stacktrace"@).at("frames"@).array_of() {
        Some(a) => a,
        None => seq![],
    }
}

/// The exception of the latest event: its type, value and last eight frames, innermost first.
pub open spec fn stacktrace_text(event: Json) -> Seq<char> {
    let none = "(stacktrace non disponible)"@;
    match event.at("entries"@).array_of() {
        None => none,
        Some(es) => match first_exception(es) {
            None => none,
            Some(exc) => match exc.at("data"@).at("values"@).array_of() {
                None => none,
                Some(vals) => if vals.len() == 0 {
                    none
                } else {
                    let val = vals[0];
                    str_or(val, "type"@, "—"@) + ": "@ + str_or(val, "value"@, "—"@)
                        + "\nStacktrace (top 8 frames):\n"@ + join_spec(
                        frame_lines(frames_of(val), frames_of(val).len() as int, 8),
                        "\n"@,
                    )
                },
            },
        },
    }
}

/// `sentry_get_issue_details`: the issue, then its latest event.
pub open spec fn details_text(id: Seq<char>, issue: Json, event: Json) -> Seq<char> {
    "Issue "@ + id + " — "@ + str_or(issue, "title"@, "—"@) + "\nStatut: "@ + str_or(issue, "status"@, "—"@)
        + " | Level: "@ + str_or(issue, "level"@, "—"@) + " | Assigné: "@ + str_or(
        issue.at("assignee"@),
        "name"@,
        "non assigné"@,
    ) + "\nOccurrences: "@ + str_or(issue, "count"@, "0"@) + " | Première: "@ + str_or(
        issue,
        "firstSeen"@,
        "—"@,
    ) + " | Dernière: "@ + str_or(issue, "lastSeen"@, "—"@) + "\n\n"@ + stacktrace_text(event)
}

pub open spec fn issue_details_view(cfg: SentryConfig, args: Json, rs: Seq<Json>) -> StepView {
    match args.at("issue_id"@).str_of() {
        None => fail_view(required_text("issue_id"@)),
        Some(id) => if rs.len() == 0 {
            get_view(cfg, "issues/"@ + id)
        } else if rs.len() == 1 {
            get_view(cfg, "issues/"@ + id + "/events/latest"@)
        } else {
            ok_view(details_text(id, rs[0], rs[1]))
        },
    }
}

pub open spec fn seer_view(cfg: SentryConfig, args: Json, rs: Seq<Json>) -> StepView {
    match args.at("org_slug"@).str_of() {
        None => fail_view(required_text("org_slug"@)),
        Some(org) => match args.at("project_slug"@).str_of() {
            None => fail_view(required_text("project_slug"@)),
            Some(proj) => match args.at("issue_id"@).str_of() {
                None => fail_view(required_text("issue_id"@)),
                Some(id) => one_call(
                    send_view(
                        Method::Post,
                        api_of(cfg, "projects/"@ + org + "/"@ + proj + "/issues/"@ + id + "/autofix/start"@),
                        Some("{}"@),
                    ),
                    rs,
                    |r: Json|
                        "Analyse Seer lancée pour l'issue "@ + id + "\nRun ID : "@ + match r.at("run_id"@).str_of() {
                            Some(x) => x,
                            None => str_or(r, "id"@, "—"@),
                        } + "\nStatut  : "@ + str_or(r, "status"@, "démarré"@)
                            + "\n\nVérifier le résultat dans l'interface Sentry ou via sentry_get_issue."@,
                ),
            },
        },
    }
}

/// The duration of a profile in whole milliseconds.
pub open spec fn duration_ms(r: Json) -> nat {
    match r.at("duration_ns"@).u64_of() {
        Some(n) => (n / 1000000) as nat,
        None => 0,
    }
}

pub open spec fn profile_view(cfg: SentryConfig, args: Json, rs: Seq<Json>) -> StepView {
    match args.at("org_slug"@).str_of() {
        None => fail_view(required_text("org_slug"@)),
        Some(org) => match args.at("project_slug"@).str_of() {
            None => fail_view(required_text("project_slug"@)),
            Some(proj) => match args.at("profile_id"@).str_of() {
                None => fail_view(required_text("profile_id"@)),
                Some(pid) => one_call(
                    get_view(cfg, "projects/"@ + org + "/"@ + proj + "/profiling/profiles/"@ + pid),
                    rs,
                    |r: Json|
                        "Profil "@ + pid + "\nTransaction : "@ + str_or(r.at("transaction"@), "name"@, "—"@)
                            + "\nPlateforme  : "@ + str_or(r, "platform"@, "—"@) + "\nVersion     : "@ + str_or(
                            r,
                            "version"@,
                            "—"@,
                        ) + "\nDurée       : "@ + dec_nat(duration_ms(r)) + "ms\nDate        : "@ + str_or(
                            r,
                            "timestamp"@,
                            "—"@,
                        ),
                ),
            },
        },
    }
}

/// `sentry_get_doc`: the documentation URL of a path.
pub open spec fn doc_view(args: Json) -> StepView {
    match args.at("path"@).str_of() {
        None => fail_view(required_text("path"@)),
        Some(path) => ok_view(
            "Documentation Sentry : https://docs.sentry.io/"@ + trim_start_spec(path, '/') + "/"@
                + "\n\nConsulter cette URL pour la documentation sur '"@ + path + "'."@,
        ),
    }
}

/// The sections suggested by `sentry_search_docs`.
pub open spec fn doc_suggestions() -> Seq<char> {
    "\n\nSuggestions de rubriques courantes :\n• platforms/javascript — SDK JavaScript\n• platforms/python — SDK Python\n• product/issues — Gestion des issues\n• product/performance — Monitoring performance\n• product/profiling — Profiling\n• product/alerts — Alertes"@
}

/// `sentry_search_docs`: the documentation search URL of a query.
pub open spec fn search_docs_view(args: Json) -> StepView {
    match args.at("query"@).str_of() {
        None => fail_view(required_text("query"@)),
        Some(q) => ok_view(
            "Recherche Sentry Docs pour '"@ + q + "' : https://docs.sentry.io/?search="@ + delimiter_escape_chars(q)
                + doc_suggestions(),
        ),
    }
}


fn get_step(cfg: &SentryConfig, path: &str) -> (s: Step)
    ensures
        s@ == get_view(*cfg, path@),
{
    send(Method::Get, cfg.api(path), None)
}

fn enc_exec(v: Option<&str>) -> (r: Option<String>)
    ensures
        match r {
            Some(t) => enc_opt(opt_view(v)) == Some(t@),
            None => enc_opt(opt_view(v)) is None,
        },
{
    match v {
        Some(q) => Some(urlencoding_simple(q)),
        None => None,
    }
}

fn find_organizations(cfg: &SentryConfig, rs: &Vec<Json>) -> (s: Step)
    ensures
        s@ == find_organizations_view(*cfg, rs@),
{
    if rs.len() == 0 {
        return get_step(cfg, "organizations");
    }
    ok_text(listing_exec(Listed::Organization, &rs[0], " organisation(s) :\n", "Aucune organisation Sentry trouvée."))
}

fn find_projects(cfg: &SentryConfig, args: &Json, rs: &Vec<Json>) -> (s: Step)
    ensures
        s@ == find_projects_view(*cfg, *args, rs@),
{
    let org = match get_str(args, "org_slug") {
        None => return required("org_slug"),
        Some(x) => x,
    };
    if rs.len() == 0 {
        let mut url = cfg.api(concat3("organizations/", org, "/projects").as_str());
        match get_str(args, "cursor") {
            Some(c) => {
                push_str(&mut url, "?cursor=");
                push_str(&mut url, c);
            },
            None => {},
        }
        assert(url@ =~= api_of(*cfg, "organizations/"@ + org@ + "/projects"@) + opt_suffix(
            "?cursor="@,
            args.at("cursor"@).str_of(),
        ));
        return send(Method::Get, url, None);
    }
    let header = concat3(" projet(s) dans ", org, " :\n");
    let empty = concat3("Aucun projet dans l'organisation ", org, ".");
    ok_text(listing_exec(Listed::Project, &rs[0], header.as_str(), empty.as_str()))
}

fn find_teams(cfg: &SentryConfig, args: &Json, rs: &Vec<Json>) -> (s: Step)
    ensures
        s@ == find_teams_view(*cfg, *args, rs@),
{
    let org = match get_str(args, "org_slug") {
        None => return required("org_slug"),
        Some(x) => x,
    };
    if rs.len() == 0 {
        return get_step(cfg, concat3("organizations/", org, "/teams").as_str());
    }
    let header = concat3(" équipe(s) dans ", org, " :\n");
    let empty = concat3("Aucune équipe dans l'organisation ", org, ".");
    ok_text(listing_exec(Listed::Team, &rs[0], header.as_str(), empty.as_str()))
}

fn find_releases(cfg: &SentryConfig, args: &Json, rs: &Vec<Json>) -> (s: Step)
    ensures
        s@ == find_releases_view(*cfg, *args, rs@),
{
    let org = match get_str(args, "org_slug") {
        None => return required("org_slug"),
        Some(x) => x,
    };
    if rs.len() == 0 {
        let mut ps: Vec<String> = Vec::new();
        assert(string_views(ps@) =~= Seq::<Seq<char>>::empty());
        push_part(&mut ps, "project=", get_str(args, "project_slug"));
        push_member(&mut ps, "query=", enc_exec(get_str(args, "query")));
        push_part(&mut ps, "cursor=", get_str(args, "cursor"));
        let mut url = cfg.api(concat3("organizations/", org, "/releases").as_str());
        push_str(&mut url, query_exec(&ps).as_str());
        return send(Method::Get, url, None);
    }
    let empty = concat3("Aucune release dans l'organisation ", org, ".");
    ok_text(listing_exec(Listed::Release, &rs[0], " release(s) :\n", empty.as_str()))
}

fn find_dsns(cfg: &SentryConfig, args: &Json, rs: &Vec<Json>) -> (s: Step)
    ensures
        s@ == find_dsns_view(*cfg, *args, rs@),
{
    let org = match get_str(args, "org_slug") {
        None => return required("org_slug"),
        Some(x) => x,
    };
    let proj = match get_str(args, "project_slug") {
        None => return required("project_slug"),
        Some(x) => x,
    };
    if rs.len() == 0 {
        let mut path = concat3("projects/", org, "/");
        push_str(&mut path, proj);
        push_str(&mut path, "/keys");
        return get_step(cfg, path.as_str());
    }
    let header = concat3(" clé(s) DSN pour ", proj, " :\n");
    let empty = concat3("Aucun DSN pour le projet ", proj, ".");
    ok_text(listing_exec(Listed::Dsn, &rs[0], header.as_str(), empty.as_str()))
}

fn limit_part(args: &Json, d: u64) -> (ps: Vec<String>)
    ensures
        string_views(ps@) == seq!["limit="@ + dec_nat(limit_of(*args, d as nat))],
{
    let mut t = owned("limit=");
    push_u64(&mut t, get_limit(args, d));
    let mut ps: Vec<String> = Vec::new();
    ps.push(t);
    assert(string_views(ps@) =~= seq!["limit="@ + dec_nat(limit_of(*args, d as nat))]);
    ps
}

fn list_issues(cfg: &SentryConfig, args: &Json, rs: &Vec<Json>) -> (s: Step)
    ensures
        s@ == list_issues_view(*cfg, *args, rs@),
{
    let org = match get_str(args, "org_slug") {
        None => return required("org_slug"),
        Some(x) => x,
    };
    if rs.len() == 0 {
        let mut ps = limit_part(args, 25);
        push_part(&mut ps, "project=", get_str(args, "project_slug"));
        push_member(&mut ps, "query=", enc_exec(get_str(args, "query")));
        push_part(&mut ps, "cursor=", get_str(args, "cursor"));
        let mut url = cfg.api(concat3("organizations/", org, "/issues").as_str());
        push_str(&mut url, query_exec(&ps).as_str());
        return send(Method::Get, url, None);
    }
    let empty = concat3("Aucune issue dans l'organisation ", org, ".");
    ok_text(listing_exec(Listed::Issue, &rs[0], " issue(s) :\n", empty.as_str()))
}

fn tags_text_exec(r: &Json) -> (t: String)
    ensures
        t@ == tags_text(*r),
{
    let mut ts: Vec<String> = Vec::new();
    match get_array(r, "tags") {
        Some(a) => {
            let n = a.len();
            for i in 0..n
                invariant
                    n == a@.len(),
                    string_views(ts@) == tag_pairs(a@.take(i as int)),
            {
                assert(a@.take(i + 1).drop_last() == a@.take(i as int));
                assert(a@.take(i + 1).last() == a@[i as int]);
                let ghost before = ts@;
                let mut p = owned(get_str_or(&a[i], "key", "?"));
                push_str(&mut p, "=");
                push_str(&mut p, get_str_or(&a[i], "value", "?"));
                ts.push(p);
                assert(string_views(ts@) =~= string_views(before).push(
                    str_or(a@[i as int], "key"@, "?"@) + "="@ + str_or(a@[i as int], "value"@, "?"@),
                ));
            }
            assert(a@.take(n as int) == a@);
        },
        None => {
            assert(string_views(ts@) =~= Seq::<Seq<char>>::empty());
        },
    }
    if ts.len() == 0 {
        owned("aucun")
    } else {
        join_strings(&ts, ", ")
    }
}

fn issue_text_exec(r: &Json) -> (t: String)
    ensures
        t@ == issue_text(*r),
{
    let mut out = owned("Issue ");
    push_str(&mut out, get_str_or(r, "id", "—"));
    push_str(&mut out, "\nTitre       : ");
    push_str(&mut out, get_str_or(r, "title", "—"));
    push_str(&mut out, "\nCulprit     : ");
    push_str(&mut out, get_str_or(r, "culprit", "—"));
    push_str(&mut out, "\nStatut      : ");
    push_str(&mut out, get_str_or(r, "status", "—"));
    push_str(&mut out, "\nNiveau      : ");
    push_str(&mut out, get_str_or(r, "level", "—"));
    push_str(&mut out, "\nPriorité    : ");
    push_str(&mut out, get_str_or(r, "priority", "—"));
    push_str(&mut out, "\nProjet      : ");
    push_str(&mut out, get_nested_str_or(r, "project", "slug", "—"));
    push_str(&mut out, "\nAssigné     : ");
    push_str(&mut out, get_assigned(r));
    push_str(&mut out, "\nOccurrences : ");
    push_str(&mut out, get_str_or(r, "count", "0"));
    push_str(&mut out, " (");
    push_str(&mut out, get_u64_text_or(r, "userCount", "0").as_str());
    push_str(&mut out, " utilisateur(s))\nPremière    : ");
    push_str(&mut out, get_str_or(r, "firstSeen", "—"));
    push_str(&mut out, "\nDernière    : ");
    push_str(&mut out, get_str_or(r, "lastSeen", "—"));
    push_str(&mut out, "\nTags        : ");
    push_str(&mut out, tags_text_exec(r).as_str());
    assert(out@ =~= issue_text(*r));
    out
}

fn get_issue(cfg: &SentryConfig, args: &Json, rs: &Vec<Json>) -> (s: Step)
    ensures
        s@ == get_issue_view(*cfg, *args, rs@),
{
    let id = match get_str(args, "issue_id") {
        None => return required("issue_id"),
        Some(x) => x,
    };
    if rs.len() == 0 {
        return get_step(cfg, concat("issues/", id).as_str());
    }
    ok_text(issue_text_exec(&rs[0]))
}

fn list_issue_events(cfg: &SentryConfig, args: &Json, rs: &Vec<Json>) -> (s: Step)
    ensures
        s@ == list_issue_events_view(*cfg, *args, rs@),
{
    let id = match get_str(args, "issue_id") {
        None => return required("issue_id"),
        Some(x) => x,
    };
    if rs.len() == 0 {
        let mut ps = limit_part(args, 25);
        push_part(&mut ps, "cursor=", get_str(args, "cursor"));
        let mut url = cfg.api(concat3("issues/", id, "/events").as_str());
        push_str(&mut url, query_exec(&ps).as_str());
        return send(Method::Get, url, None);
    }
    let header = concat3(" événement(s) pour l'issue ", id, " :\n");
    let empty = concat3("Aucun événement pour l'issue ", id, ".");
    ok_text(listing_exec(Listed::IssueEvent, &rs[0], header.as_str(), empty.as_str()))
}

fn tag_values(cfg: &SentryConfig, args: &Json, rs: &Vec<Json>) -> (s: Step)
    ensures
        s@ == tag_values_view(*cfg, *args, rs@),
{
    let id = match get_str(args, "issue_id") {
        None => return required("issue_id"),
        Some(x) => x,
    };
    let tag = match get_str(args, "tag") {
        None => return required("tag"),
        Some(x) => x,
    };
    if rs.len() == 0 {
        let mut path = concat3("issues/", id, "/tags/");
        push_str(&mut path, tag);
        push_str(&mut path, "/values");
        return get_step(cfg, path.as_str());
    }
    let header = concat3(" valeur(s) pour le tag '", tag, "' :\n");
    let mut empty = concat3("Aucune valeur pour le tag '", tag, "' de l'issue ");
    push_str(&mut empty, id);
    push_str(&mut empty, ".");
    ok_text(listing_exec(Listed::TagValue, &rs[0], header.as_str(), empty.as_str()))
}


fn update_issue(cfg: &SentryConfig, args: &Json, rs: &Vec<Json>) -> (s: Step)
    ensures
        s@ == update_issue_view(*cfg, *args, rs@),
{
    let id = match get_str(args, "issue_id") {
        None => return required("issue_id"),
        Some(x) => x,
    };
    let mut ms: Vec<String> = Vec::new();
    assert(string_views(ms@) =~= Seq::<Seq<char>>::empty());
    push_member(&mut ms, "\"assignedTo\":", str_member_exec(args, "assignedTo"));
    push_member(&mut ms, "\"hasSeen\":", bool_member_exec(args, "hasSeen"));
    push_member(&mut ms, "\"isBookmarked\":", bool_member_exec(args, "isBookmarked"));
    push_member(&mut ms, "\"isSubscribed\":", bool_member_exec(args, "isSubscribed"));
    push_member(&mut ms, "\"priority\":", str_member_exec(args, "priority"));
    push_member(&mut ms, "\"status\":", str_member_exec(args, "status"));
    if ms.len() == 0 {
        return Step::Done(Err(owned("Au moins un paramètre de mise à jour est requis")));
    }
    if rs.len() == 0 {
        return send(Method::Put, cfg.api(concat("issues/", id).as_str()), Some(object_exec(&ms)));
    }
    let r = &rs[0];
    let mut out = owned("Issue ");
    push_str(&mut out, get_str_or(r, "id", id));
    push_str(&mut out, " mise à jour.\nStatut  : ");
    push_str(&mut out, get_str_or(r, "status", "—"));
    push_str(&mut out, "\nAssigné : ");
    push_str(&mut out, get_assigned(r));
    ok_text(out)
}

fn list_events(cfg: &SentryConfig, args: &Json, rs: &Vec<Json>) -> (s: Step)
    ensures
        s@ == list_events_view(*cfg, *args, rs@),
{
    let org = match get_str(args, "org_slug") {
        None => return required("org_slug"),
        Some(x) => x,
    };
    let proj = match get_str(args, "project_slug") {
        None => return required("project_slug"),
        Some(x) => x,
    };
    if rs.len() == 0 {
        let full = match get_bool(args, "full") {
            Some(b) => b,
            None => false,
        };
        let mut ps: Vec<String> = Vec::new();
        if full {
            ps.push(owned("full=1"));
        }
        assert(string_views(ps@) =~= if flag(*args, "full"@) {
            seq!["full=1"@]
        } else {
            seq![]
        });
        push_part(&mut ps, "cursor=", get_str(args, "cursor"));
        let mut path = concat3("projects/", org, "/");
        push_str(&mut path, proj);
        push_str(&mut path, "/events");
        let mut url = cfg.api(path.as_str());
        push_str(&mut url, query_exec(&ps).as_str());
        return send(Method::Get, url, None);
    }
    let header = concat3(" événement(s) dans ", proj, " :\n");
    let empty = concat3("Aucun événement pour le projet ", proj, ".");
    ok_text(listing_exec(Listed::Event, &rs[0], header.as_str(), empty.as_str()))
}

fn name_member(name: &str) -> (ms: Vec<String>)
    ensures
        string_views(ms@) == seq!["\"name\":"@ + quoted(name@)],
{
    let mut t = owned("\"name\":");
    push_quoted(&mut t, name);
    let mut ms: Vec<String> = Vec::new();
    ms.push(t);
    assert(string_views(ms@) =~= seq!["\"name\":"@ + quoted(name@)]);
    ms
}

fn create_project(cfg: &SentryConfig, args: &Json, rs: &Vec<Json>) -> (s: Step)
    ensures
        s@ == create_project_view(*cfg, *args, rs@),
{
    let org = match get_str(args, "org_slug") {
        None => return required("org_slug"),
        Some(x) => x,
    };
    let team = match get_str(args, "team_slug") {
        None => return required("team_slug"),
        Some(x) => x,
    };
    let name = match get_str(args, "name") {
        None => return required("name"),
        Some(x) => x,
    };
    if rs.len() == 0 {
        let mut ms = name_member(name);
        push_member(&mut ms, "\"platform\":", str_member_exec(args, "platform"));
        let mut path = concat3("teams/", org, "/");
        push_str(&mut path, team);
        push_str(&mut path, "/projects");
        return send(Method::Post, cfg.api(path.as_str()), Some(object_exec(&ms)));
    }
    let r = &rs[0];
    let mut out = owned("Projet créé.\nID   : ");
    push_str(&mut out, get_str_or(r, "id", "—"));
    push_str(&mut out, "\nNom  : ");
    push_str(&mut out, name);
    push_str(&mut out, "\nSlug : ");
    push_str(&mut out, get_str_or(r, "slug", "—"));
    push_str(&mut out, "\nDSN  : ");
    push_str(&mut out, get_nested_str_or(r, "options", "sentry:csp_ignored_sources", "(voir sentry_find_dsns)"));
    push_str(&mut out, "\nOrg  : ");
    push_str(&mut out, org);
    push_str(&mut out, " | Équipe : ");
    push_str(&mut out, team);
    ok_text(out)
}

fn create_team(cfg: &SentryConfig, args: &Json, rs: &Vec<Json>) -> (s: Step)
    ensures
        s@ == create_team_view(*cfg, *args, rs@),
{
    let org = match get_str(args, "org_slug") {
        None => return required("org_slug"),
        Some(x) => x,
    };
    let name = match get_str(args, "name") {
        None => return required("name"),
        Some(x) => x,
    };
    if rs.len() == 0 {
        let mut ms = name_member(name);
        push_member(&mut ms, "\"slug\":", str_member_exec(args, "slug"));
        return send(
            Method::Post,
            cfg.api(concat3("organizations/", org, "/teams").as_str()),
            Some(object_exec(&ms)),
        );
    }
    let r = &rs[0];
    let mut out = owned("Équipe créée.\nID   : ");
    push_str(&mut out, get_str_or(r, "id", "—"));
    push_str(&mut out, "\nNom  : ");
    push_str(&mut out, name);
    push_str(&mut out, "\nSlug : ");
    push_str(&mut out, get_str_or(r, "slug", "—"));
    push_str(&mut out, "\nCréé : ");
    push_str(&mut out, get_str_or(r, "dateCreated", "—"));
    push_str(&mut out, "\nOrg  : ");
    push_str(&mut out, org);
    ok_text(out)
}

fn create_dsn(cfg: &SentryConfig, args: &Json, rs: &Vec<Json>) -> (s: Step)
    ensures
        s@ == create_dsn_view(*cfg, *args, rs@),
{
    let org = match get_str(args, "org_slug") {
        None => return required("org_slug"),
        Some(x) => x,
    };
    let proj = match get_str(args, "project_slug") {
        None => return required("project_slug"),
        Some(x) => x,
    };
    let name = match get_str(args, "name") {
        None => return required("name"),
        Some(x) => x,
    };
    if rs.len() == 0 {
        let ms = name_member(name);
        let mut path = concat3("projects/", org, "/");
        push_str(&mut path, proj);
        push_str(&mut path, "/keys");
        return send(Method::Post, cfg.api(path.as_str()), Some(object_exec(&ms)));
    }
    let r = &rs[0];
    let mut out = owned("Clé DSN créée.\nID         : ");
    push_str(&mut out, get_str_or(r, "id", "—"));
    push_str(&mut out, "\nNom        : ");
    push_str(&mut out, name);
    push_str(&mut out, "\nDSN public : ");
    push_str(&mut out, get_nested_str_or(r, "dsn", "public", "—"));
    push_str(&mut out, "\nDSN secret : ");
    push_str(&mut out, get_nested_str_or(r, "dsn", "secret", "—"));
    push_str(&mut out, "\nProjet     : ");
    push_str(&mut out, proj);
    push_str(&mut out, " | Org : ");
    push_str(&mut out, org);
    ok_text(out)
}

fn whoami_exec(r: &Json) -> (t: String)
    ensures
        t@ == whoami_text(*r),
{
    let mut out = owned("Utilisateur Sentry authentifié\nID       : ");
    push_str(&mut out, get_str_or(r, "id", "—"));
    push_str(&mut out, "\nUsername : ");
    push_str(&mut out, get_str_or(r, "username", "—"));
    push_str(&mut out, "\nNom      : ");
    push_str(&mut out, get_str_or(r, "name", "—"));
    push_str(&mut out, "\nEmail    : ");
    push_str(&mut out, get_str_or(r, "email", "—"));
    push_str(&mut out, "\nCréé     : ");
    push_str(&mut out, get_str_or(r, "dateCreated", "—"));
    push_str(&mut out, "\nSuperuser: ");
    let su = match get_bool(r, "isSuperuser") {
        Some(b) => b,
        None => false,
    };
    push_str(&mut out, if su { "oui" } else { "non" });
    out
}

fn attachment(cfg: &SentryConfig, args: &Json, rs: &Vec<Json>) -> (s: Step)
    ensures
        s@ == attachment_view(*cfg, *args, rs@),
{
    let org = match get_str(args, "org_slug") {
        None => return required("org_slug"),
        Some(x) => x,
    };
    let proj = match get_str(args, "project_slug") {
        None => return required("project_slug"),
        Some(x) => x,
    };
    let ev = match get_str(args, "event_id") {
        None => return required("event_id"),
        Some(x) => x,
    };
    let att = match get_str(args, "attachment_id") {
        None => return required("attachment_id"),
        Some(x) => x,
    };
    if rs.len() == 0 {
        let mut path = concat3("projects/", org, "/");
        push_str(&mut path, proj);
        push_str(&mut path, "/events/");
        push_str(&mut path, ev);
        push_str(&mut path, "/attachments/");
        push_str(&mut path, att);
        return get_step(cfg, path.as_str());
    }
    let r = &rs[0];
    let headers = match r.get("headers") {
        Some(h) => h.is_object(),
        None => false,
    };
    let mut out = owned("Pièce jointe ");
    push_str(&mut out, get_str_or(r, "id", "—"));
    push_str(&mut out, "\nNom       : ");
    push_str(&mut out, get_str_or(r, "name", "—"));
    push_str(&mut out, "\nTaille    : ");
    push_str(&mut out, get_u64_text_or(r, "size", "0").as_str());
    push_str(&mut out, " octets\nMIME      : ");
    push_str(&mut out, get_str_or(r, "mimetype", "—"));
    push_str(&mut out, "\nCréé      : ");
    push_str(&mut out, get_str_or(r, "dateCreated", "—"));
    push_str(&mut out, "\nHeaders   : ");
    push_str(&mut out, if headers { "(présents)" } else { "—" });
    push_str(&mut out, "\nÉvénement : ");
    push_str(&mut out, ev);
    push_str(&mut out, "\nProjet    : ");
    push_str(&mut out, proj);
    push_str(&mut out, " | Org : ");
    push_str(&mut out, org);
    ok_text(out)
}

fn update_project(cfg: &SentryConfig, args: &Json, rs: &Vec<Json>) -> (s: Step)
    ensures
        s@ == update_project_view(*cfg, *args, rs@),
{
    let org = match get_str(args, "org_slug") {
        None => return required("org_slug"),
        Some(x) => x,
    };
    let proj = match get_str(args, "project_slug") {
        None => return required("project_slug"),
        Some(x) => x,
    };
    let mut ms: Vec<String> = Vec::new();
    assert(string_views(ms@) =~= Seq::<Seq<char>>::empty());
    push_member(&mut ms, "\"name\":", str_member_exec(args, "name"));
    push_member(&mut ms, "\"platform\":", str_member_exec(args, "platform"));
    push_member(&mut ms, "\"subjectPrefix\":", str_member_exec(args, "subjectPrefix"));
    if ms.len() == 0 {
        return Step::Done(
            Err(owned("Au moins un paramètre parmi 'name', 'platform' ou 'subjectPrefix' est requis")),
        );
    }
    if rs.len() == 0 {
        let mut path = concat3("projects/", org, "/");
        push_str(&mut path, proj);
        return send(Method::Put, cfg.api(path.as_str()), Some(object_exec(&ms)));
    }
    let r = &rs[0];
    let mut out = owned("Projet ");
    push_str(&mut out, get_str_or(r, "id", "—"));
    push_str(&mut out, " mis à jour.\nNom        : ");
    push_str(&mut out, get_str_or(r, "name", "—"));
    push_str(&mut out, "\nSlug       : ");
    push_str(&mut out, get_str_or(r, "slug", proj));
    push_str(&mut out, "\nPlateforme : ");
    push_str(&mut out, get_str_or(r, "platform", "—"));
    push_str(&mut out, "\nOrg        : ");
    push_str(&mut out, org);
    ok_text(out)
}


fn search_issues(cfg: &SentryConfig, args: &Json, rs: &Vec<Json>) -> (s: Step)
    ensures
        s@ == search_issues_view(*cfg, *args, rs@),
{
    let org = match get_str(args, "org_slug") {
        None => return required("org_slug"),
        Some(x) => x,
    };
    let q = match get_str(args, "query") {
        None => return required("query"),
        Some(x) => x,
    };
    if rs.len() == 0 {
        let mut url = cfg.api(concat3("organizations/", org, "/issues").as_str());
        let ghost base = url@;
        push_str(&mut url, "?query=");
        push_str(&mut url, urlencoding_simple(q).as_str());
        push_str(&mut url, "&limit=");
        push_u64(&mut url, get_limit(args, 25));
        match get_str(args, "project_slug") {
            Some(p) => {
                push_str(&mut url, "&project=");
                push_str(&mut url, p);
            },
            None => {},
        }
        match get_str(args, "cursor") {
            Some(c) => {
                push_str(&mut url, "&cursor=");
                push_str(&mut url, c);
            },
            None => {},
        }
        assert(url@ =~= base + ("?query="@ + delimiter_escape_chars(q@) + "&limit="@ + dec_nat(
            limit_of(*args, 25),
        ) + opt_suffix("&project="@, args.at("project_slug"@).str_of()) + opt_suffix(
            "&cursor="@,
            args.at("cursor"@).str_of(),
        )));
        return send(Method::Get, url, None);
    }
    let header = concat3(" issue(s) pour query '", q, "' :\n");
    ok_text(listing_exec(Listed::FoundIssue, &rs[0], header.as_str(), "Aucune issue correspondante."))
}

fn search_events(cfg: &SentryConfig, args: &Json, rs: &Vec<Json>) -> (s: Step)
    ensures
        s@ == search_events_view(*cfg, *args, rs@),
{
    let org = match get_str(args, "org_slug") {
        None => return required("org_slug"),
        Some(x) => x,
    };
    let proj = match get_str(args, "project_slug") {
        None => return required("project_slug"),
        Some(x) => x,
    };
    let q = match get_str(args, "query") {
        None => return required("query"),
        Some(x) => x,
    };
    if rs.len() == 0 {
        let mut path = concat3("projects/", org, "/");
        push_str(&mut path, proj);
        push_str(&mut path, "/events");
        let mut url = cfg.api(path.as_str());
        let ghost base = url@;
        push_str(&mut url, "?query=");
        push_str(&mut url, urlencoding_simple(q).as_str());
        push_str(&mut url, "&limit=");
        push_u64(&mut url, get_limit(args, 10));
        assert(url@ =~= base + ("?query="@ + delimiter_escape_chars(q@) + "&limit="@ + dec_nat(
            limit_of(*args, 10),
        )));
        return send(Method::Get, url, None);
    }
    ok_text(listing_exec(Listed::FoundEvent, &rs[0], " événement(s) :\n", "Aucun événement correspondant."))
}

fn search_issue_events(cfg: &SentryConfig, args: &Json, rs: &Vec<Json>) -> (s: Step)
    ensures
        s@ == search_issue_events_view(*cfg, *args, rs@),
{
    let id = match get_str(args, "issue_id") {
        None => return required("issue_id"),
        Some(x) => x,
    };
    if rs.len() == 0 {
        let limit = match get_u64(args, "limit") {
            Some(n) => n,
            None => 25,
        };
        let mut url = cfg.api(concat3("issues/", id, "/events").as_str());
        let ghost base = url@;
        push_str(&mut url, "?limit=");
        push_u64(&mut url, limit);
        match get_str(args, "query") {
            Some(q) => {
                push_str(&mut url, "&query=");
                push_str(&mut url, urlencoding_simple(q).as_str());
            },
            None => {},
        }
        assert(url@ =~= base + ("?limit="@ + dec_nat(raw_limit(*args)) + opt_suffix(
            "&query="@,
            enc_opt(args.at("query"@).str_of()),
        )));
        return send(Method::Get, url, None);
    }
    let header = concat3(" événement(s) pour issue ", id, " :\n");
    let empty = concat3("Aucun événement pour l'issue ", id, ".");
    ok_text(listing_exec(Listed::FoundIssueEvent, &rs[0], header.as_str(), empty.as_str()))
}

fn first_exception_exec(es: &Vec<Json>) -> (r: Option<&Json>)
    ensures
        match r {
            Some(e) => first_exception(es@) == Some(*e),
            None => first_exception(es@) is None,
        },
{
    let n = es.len();
    assert(es@.skip(0) =~= es@);
    for i in 0..n
        invariant
            n == es@.len(),
            first_exception(es@) == first_exception(es@.skip(i as int)),
    {
        assert(es@.skip(i as int)[0] == es@[i as int]);
        let is_exc = match get_str(&es[i], "type") {
            Some(t) => str_eq(t, "exception"),
            None => false,
        };
        if is_exc {
            return Some(&es[i]);
        }
        assert(es@.skip(i as int).drop_first() =~= es@.skip(i + 1));
    }
    assert(es@.skip(n as int) =~= Seq::<Json>::empty());
    None
}

fn frame_line_exec(f: &Json) -> (t: String)
    ensures
        t@ == frame_line(*f),
{
    let mut out = owned("  ");
    push_str(&mut out, get_str_or(f, "filename", "—"));
    push_str(&mut out, ":");
    push_str(&mut out, get_u64_text_or(f, "lineNo", "0").as_str());
    push_str(&mut out, " in ");
    push_str(&mut out, get_str_or(f, "function", "—"));
    out
}

fn frames_text(fs: &Vec<Json>) -> (t: String)
    ensures
        t@ == join_spec(frame_lines(fs@, fs@.len() as int, 8), "\n"@),
{
    let mut acc: Vec<String> = Vec::new();
    let mut hi: usize = fs.len();
    let mut k: u64 = 8;
    assert(string_views(acc@) + frame_lines(fs@, hi as int, k as nat) =~= frame_lines(
        fs@,
        fs@.len() as int,
        8,
    ));
    while k > 0 && hi > 0
        invariant
            hi <= fs@.len(),
            k <= 8,
            string_views(acc@) + frame_lines(fs@, hi as int, k as nat) == frame_lines(
                fs@,
                fs@.len() as int,
                8,
            ),
        decreases k,
    {
        let ghost before = acc@;
        acc.push(frame_line_exec(&fs[hi - 1]));
        proof {
            assert(string_views(acc@) =~= string_views(before).push(frame_line(fs@[hi - 1])));
            assert(string_views(acc@) + frame_lines(fs@, hi - 1, (k - 1) as nat) =~= string_views(before)
                + frame_lines(fs@, hi as int, k as nat));
        }
        hi = hi - 1;
        k = k - 1;
    }
    assert(string_views(acc@) =~= frame_lines(fs@, fs@.len() as int, 8));
    join_strings(&acc, "\n")
}

fn stacktrace_exec(event: &Json) -> (t: String)
    ensures
        t@ == stacktrace_text(*event),
{
    let es = match get_array(event, "entries") {
        Some(a) => a,
        None => return owned("(stacktrace non disponible)"),
    };
    let exc = match first_exception_exec(es) {
        Some(e) => e,
        None => return owned("(stacktrace non disponible)"),
    };
    let vals = match exc.get("data") {
        Some(d) => match get_array(d, "values") {
            Some(v) => v,
            None => return owned("(stacktrace non disponible)"),
        },
        None => return owned("(stacktrace non disponible)"),
    };
    if vals.len() == 0 {
        return owned("(stacktrace non disponible)");
    }
    let val = &vals[0];
    let empty: Vec<Json> = Vec::new();
    let fs: &Vec<Json> = match val.get("stacktrace") {
        Some(st) => match get_array(st, "frames") {
            Some(f) => f,
            None => &empty,
        },
        None => &empty,
    };
    assert(fs@ =~= frames_of(*val));
    let mut out = owned(get_str_or(val, "type", "—"));
    push_str(&mut out, ": ");
    push_str(&mut out, get_str_or(val, "value", "—"));
    push_str(&mut out, "\nStacktrace (top 8 frames):\n");
    push_str(&mut out, frames_text(fs).as_str());
    out
}

fn issue_details(cfg: &SentryConfig, args: &Json, rs: &Vec<Json>) -> (s: Step)
    ensures
        s@ == issue_details_view(*cfg, *args, rs@),
{
    let id = match get_str(args, "issue_id") {
        None => return required("issue_id"),
        Some(x) => x,
    };
    if rs.len() == 0 {
        return get_step(cfg, concat("issues/", id).as_str());
    }
    if rs.len() == 1 {
        return get_step(cfg, concat3("issues/", id, "/events/latest").as_str());
    }
    let issue = &rs[0];
    let mut out = owned("Issue ");
    push_str(&mut out, id);
    push_str(&mut out, " — ");
    push_str(&mut out, get_str_or(issue, "title", "—"));
    push_str(&mut out, "\nStatut: ");
    push_str(&mut out, get_str_or(issue, "status", "—"));
    push_str(&mut out, " | Level: ");
    push_str(&mut out, get_str_or(issue, "level", "—"));
    push_str(&mut out, " | Assigné: ");
    push_str(&mut out, get_nested_str_or(issue, "assignee", "name", "non assigné"));
    push_str(&mut out, "\nOccurrences: ");
    push_str(&mut out, get_str_or(issue, "count", "0"));
    push_str(&mut out, " | Première: ");
    push_str(&mut out, get_str_or(issue, "firstSeen", "—"));
    push_str(&mut out, " | Dernière: ");
    push_str(&mut out, get_str_or(issue, "lastSeen", "—"));
    push_str(&mut out, "\n\n");
    push_str(&mut out, stacktrace_exec(&rs[1]).as_str());
    ok_text(out)
}

fn seer(cfg: &SentryConfig, args: &Json, rs: &Vec<Json>) -> (s: Step)
    ensures
        s@ == seer_view(*cfg, *args, rs@),
{
    let org = match get_str(args, "org_slug") {
        None => return required("org_slug"),
        Some(x) => x,
    };
    let proj = match get_str(args, "project_slug") {
        None => return required("project_slug"),
        Some(x) => x,
    };
    let id = match get_str(args, "issue_id") {
        None => return required("issue_id"),
        Some(x) => x,
    };
    if rs.len() == 0 {
        let mut path = concat3("projects/", org, "/");
        push_str(&mut path, proj);
        push_str(&mut path, "/issues/");
        push_str(&mut path, id);
        push_str(&mut path, "/autofix/start");
        return send(Method::Post, cfg.api(path.as_str()), Some(owned("{}")));
    }
    let r = &rs[0];
    let run_id = match get_str(r, "run_id") {
        Some(x) => x,
        None => get_str_or(r, "id", "—"),
    };
    let mut out = owned("Analyse Seer lancée pour l'issue ");
    push_str(&mut out, id);
    push_str(&mut out, "\nRun ID : ");
    push_str(&mut out, run_id);
    push_str(&mut out, "\nStatut  : ");
    push_str(&mut out, get_str_or(r, "status", "démarré"));
    push_str(&mut out, "\n\nVérifier le résultat dans l'interface Sentry ou via sentry_get_issue.");
    ok_text(out)
}

fn profile(cfg: &SentryConfig, args: &Json, rs: &Vec<Json>) -> (s: Step)
    ensures
        s@ == profile_view(*cfg, *args, rs@),
{
    let org = match get_str(args, "org_slug") {
        None => return required("org_slug"),
        Some(x) => x,
    };
    let proj = match get_str(args, "project_slug") {
        None => return required("project_slug"),
        Some(x) => x,
    };
    let pid = match get_str(args, "profile_id") {
        None => return required("profile_id"),
        Some(x) => x,
    };
    if rs.len() == 0 {
        let mut path = concat3("projects/", org, "/");
        push_str(&mut path, proj);
        push_str(&mut path, "/profiling/profiles/");
        push_str(&mut path, pid);
        return get_step(cfg, path.as_str());
    }
    let r = &rs[0];
    let ms = match get_u64(r, "duration_ns") {
        Some(n) => n / 1000000,
        None => 0,
    };
    let mut out = owned("Profil ");
    push_str(&mut out, pid);
    push_str(&mut out, "\nTransaction : ");
    push_str(&mut out, get_nested_str_or(r, "transaction", "name", "—"));
    push_str(&mut out, "\nPlateforme  : ");
    push_str(&mut out, get_str_or(r, "platform", "—"));
    push_str(&mut out, "\nVersion     : ");
    push_str(&mut out, get_str_or(r, "version", "—"));
    push_str(&mut out, "\nDurée       : ");
    push_u64(&mut out, ms);
    push_str(&mut out, "ms\nDate        : ");
    push_str(&mut out, get_str_or(r, "timestamp", "—"));
    ok_text(out)
}

fn get_doc(args: &Json) -> (s: Step)
    ensures
        s@ == doc_view(*args),
{
    let path = match get_str(args, "path") {
        None => return required("path"),
        Some(x) => x,
    };
    let mut out = owned("Documentation Sentry : https://docs.sentry.io/");
    push_chars(&mut out, &trim_start_char(&str_chars(path), '/'));
    push_str(&mut out, "/");
    push_str(&mut out, "\n\nConsulter cette URL pour la documentation sur '");
    push_str(&mut out, path);
    push_str(&mut out, "'.");
    ok_text(out)
}

fn search_docs(args: &Json) -> (s: Step)
    ensures
        s@ == search_docs_view(*args),
{
    let q = match get_str(args, "query") {
        None => return required("query"),
        Some(x) => x,
    };
    let mut out = owned("Recherche Sentry Docs pour '");
    push_str(&mut out, q);
    push_str(&mut out, "' : https://docs.sentry.io/?search=");
    push_str(&mut out, urlencoding_simple(q).as_str());
    push_str(
        &mut out,
        "\n\nSuggestions de rubriques courantes :\n• platforms/javascript — SDK JavaScript\n• platforms/python — SDK Python\n• product/issues — Gestion des issues\n• product/performance — Monitoring performance\n• product/profiling — Profiling\n• product/alerts — Alertes",
    );
    ok_text(out)
}


/// The organization, project, team, release and key lookups.
pub open spec fn org_view(cfg: SentryConfig, name: Seq<char>, args: Json, rs: Seq<Json>) -> StepView {
    if name == "sentry_find_organizations"@ {
        find_organizations_view(cfg, rs)
    } else if name == "sentry_find_projects"@ {
        find_projects_view(cfg, args, rs)
    } else if name == "sentry_find_teams"@ {
        find_teams_view(cfg, args, rs)
    } else if name == "sentry_find_releases"@ {
        find_releases_view(cfg, args, rs)
    } else {
        find_dsns_view(cfg, args, rs)
    }
}

/// The issue tools.
pub open spec fn issue_view(cfg: SentryConfig, name: Seq<char>, args: Json, rs: Seq<Json>) -> StepView {
    if name == "sentry_list_issues"@ {
        list_issues_view(cfg, args, rs)
    } else if name == "sentry_get_issue"@ {
        get_issue_view(cfg, args, rs)
    } else if name == "sentry_list_issue_events"@ {
        list_issue_events_view(cfg, args, rs)
    } else if name == "sentry_get_issue_tag_values"@ {
        tag_values_view(cfg, args, rs)
    } else if name == "sentry_update_issue"@ {
        update_issue_view(cfg, args, rs)
    } else if name == "sentry_get_issue_details"@ {
        issue_details_view(cfg, args, rs)
    } else {
        seer_view(cfg, args, rs)
    }
}

/// The event and search tools.
pub open spec fn event_view(cfg: SentryConfig, name: Seq<char>, args: Json, rs: Seq<Json>) -> StepView {
    if name == "sentry_list_events"@ {
        list_events_view(cfg, args, rs)
    } else if name == "sentry_search_issues"@ {
        search_issues_view(cfg, args, rs)
    } else if name == "sentry_search_events"@ {
        search_events_view(cfg, args, rs)
    } else if name == "sentry_search_issue_events"@ {
        search_issue_events_view(cfg, args, rs)
    } else if name == "sentry_get_event_attachment"@ {
        attachment_view(cfg, args, rs)
    } else {
        profile_view(cfg, args, rs)
    }
}

/// `sentry_get_sentry_resource`: any URL of the API, shown as indented JSON.
pub open spec fn resource_view(args: Json, rs: Seq<Json>) -> StepView {
    match args.at("url"@).str_of() {
        None => fail_view(required_text("url"@)),
        Some(u) => one_call(send_view(Method::Get, u, None), rs, |r: Json| pretty_text(r, 0)),
    }
}

/// The creation, update, account and documentation tools.
pub open spec fn admin_view(cfg: SentryConfig, name: Seq<char>, args: Json, rs: Seq<Json>) -> StepView {
    if name == "sentry_create_project"@ {
        create_project_view(cfg, args, rs)
    } else if name == "sentry_create_team"@ {
        create_team_view(cfg, args, rs)
    } else if name == "sentry_create_dsn"@ {
        create_dsn_view(cfg, args, rs)
    } else if name == "sentry_whoami"@ {
        one_call(get_view(cfg, "users/me"@), rs, |r: Json| whoami_text(r))
    } else if name == "sentry_get_sentry_resource"@ {
        resource_view(args, rs)
    } else if name == "sentry_update_project"@ {
        update_project_view(cfg, args, rs)
    } else if name == "sentry_get_doc"@ {
        doc_view(args)
    } else {
        search_docs_view(args)
    }
}

pub open spec fn is_org_tool(name: Seq<char>) -> bool {
    name == "sentry_find_organizations"@ || name == "sentry_find_projects"@ || name == "sentry_find_teams"@
        || name == "sentry_find_releases"@ || name == "sentry_find_dsns"@
}

pub open spec fn is_issue_tool(name: Seq<char>) -> bool {
    name == "sentry_list_issues"@ || name == "sentry_get_issue"@ || name == "sentry_list_issue_events"@
        || name == "sentry_get_issue_tag_values"@ || name == "sentry_update_issue"@ || name
        == "sentry_get_issue_details"@ || name == "sentry_analyze_issue_with_seer"@
}

pub open spec fn is_event_tool(name: Seq<char>) -> bool {
    name == "sentry_list_events"@ || name == "sentry_search_issues"@ || name == "sentry_search_events"@
        || name == "sentry_search_issue_events"@ || name == "sentry_get_event_attachment"@ || name
        == "sentry_get_profile_details"@
}

pub open spec fn is_admin_tool(name: Seq<char>) -> bool {
    name == "sentry_create_project"@ || name == "sentry_create_team"@ || name == "sentry_create_dsn"@
        || name == "sentry_whoami"@ || name == "sentry_get_sentry_resource"@ || name
        == "sentry_update_project"@ || name == "sentry_get_doc"@ || name == "sentry_search_docs"@
}

/// What a call of Sentry tool `name` with `args` does next, given the responses so far.
pub open spec fn handle_view(cfg: SentryConfig, name: Seq<char>, args: Json, rs: Seq<Json>) -> StepView {
    if is_org_tool(name) {
        org_view(cfg, name, args, rs)
    } else if is_issue_tool(name) {
        issue_view(cfg, name, args, rs)
    } else if is_event_tool(name) {
        event_view(cfg, name, args, rs)
    } else if is_admin_tool(name) {
        admin_view(cfg, name, args, rs)
    } else {
        fail_view("Tool Sentry inconnu : "@ + name)
    }
}

fn org_tools(cfg: &SentryConfig, name: &str, args: &Json, rs: &Vec<Json>) -> (s: Step)
    ensures
        s@ == org_view(*cfg, name@, *args, rs@),
{
    if str_eq(name, "sentry_find_organizations") {
        find_organizations(cfg, rs)
    } else if str_eq(name, "sentry_find_projects") {
        find_projects(cfg, args, rs)
    } else if str_eq(name, "sentry_find_teams") {
        find_teams(cfg, args, rs)
    } else if str_eq(name, "sentry_find_releases") {
        find_releases(cfg, args, rs)
    } else {
        find_dsns(cfg, args, rs)
    }
}

fn issue_tools(cfg: &SentryConfig, name: &str, args: &Json, rs: &Vec<Json>) -> (s: Step)
    ensures
        s@ == issue_view(*cfg, name@, *args, rs@),
{
    if str_eq(name, "sentry_list_issues") {
        list_issues(cfg, args, rs)
    } else if str_eq(name, "sentry_get_issue") {
        get_issue(cfg, args, rs)
    } else if str_eq(name, "sentry_list_issue_events") {
        list_issue_events(cfg, args, rs)
    } else if str_eq(name, "sentry_get_issue_tag_values") {
        tag_values(cfg, args, rs)
    } else if str_eq(name, "sentry_update_issue") {
        update_issue(cfg, args, rs)
    } else if str_eq(name, "sentry_get_issue_details") {
        issue_details(cfg, args, rs)
    } else {
        seer(cfg, args, rs)
    }
}

fn event_tools(cfg: &SentryConfig, name: &str, args: &Json, rs: &Vec<Json>) -> (s: Step)
    ensures
        s@ == event_view(*cfg, name@, *args, rs@),
{
    if str_eq(name, "sentry_list_events") {
        list_events(cfg, args, rs)
    } else if str_eq(name, "sentry_search_issues") {
        search_issues(cfg, args, rs)
    } else if str_eq(name, "sentry_search_events") {
        search_events(cfg, args, rs)
    } else if str_eq(name, "sentry_search_issue_events") {
        search_issue_events(cfg, args, rs)
    } else if str_eq(name, "sentry_get_event_attachment") {
        attachment(cfg, args, rs)
    } else {
        profile(cfg, args, rs)
    }
}

fn admin_tools(cfg: &SentryConfig, name: &str, args: &Json, rs: &Vec<Json>) -> (s: Step)
    ensures
        s@ == admin_view(*cfg, name@, *args, rs@),
{
    if str_eq(name, "sentry_create_project") {
        create_project(cfg, args, rs)
    } else if str_eq(name, "sentry_create_team") {
        create_team(cfg, args, rs)
    } else if str_eq(name, "sentry_create_dsn") {
        create_dsn(cfg, args, rs)
    } else if str_eq(name, "sentry_whoami") {
        if rs.len() == 0 {
            return get_step(cfg, "users/me");
        }
        ok_text(whoami_exec(&rs[0]))
    } else if str_eq(name, "sentry_get_sentry_resource") {
        let u = match get_str(args, "url") {
            None => return required("url"),
            Some(x) => x,
        };
        if rs.len() == 0 {
            return send(Method::Get, owned(u), None);
        }
        ok_text(to_json_string_pretty(&rs[0]))
    } else if str_eq(name, "sentry_update_project") {
        update_project(cfg, args, rs)
    } else if str_eq(name, "sentry_get_doc") {
        get_doc(args)
    } else {
        search_docs(args)
    }
}

/// Runs one step of the Sentry tool `name` called with `args`: `responses` holds the parsed
/// responses to the requests made so far. `sentry_get_trace_details`, which renders
/// durations given as floating-point numbers, is not handled here.
pub fn handle(cfg: &SentryConfig, name: &str, args: &Json, responses: &Vec<Json>) -> (s: Step)
    requires
        name@ != "sentry_get_trace_details"@,
    ensures
        s@ == handle_view(*cfg, name@, *args, responses@),
{
    let rs = responses;
    if str_eq(name, "sentry_find_organizations") || str_eq(name, "sentry_find_projects") || str_eq(
        name,
        "sentry_find_teams",
    ) || str_eq(name, "sentry_find_releases") || str_eq(name, "sentry_find_dsns") {
        org_tools(cfg, name, args, rs)
    } else if str_eq(name, "sentry_list_issues") || str_eq(name, "sentry_get_issue") || str_eq(
        name,
        "sentry_list_issue_events",
    ) || str_eq(name, "sentry_get_issue_tag_values") || str_eq(name, "sentry_update_issue") || str_eq(
        name,
        "sentry_get_issue_details",
    ) || str_eq(name, "sentry_analyze_issue_with_seer") {
        issue_tools(cfg, name, args, rs)
    } else if str_eq(name, "sentry_list_events") || str_eq(name, "sentry_search_issues") || str_eq(
        name,
        "sentry_search_events",
    ) || str_eq(name, "sentry_search_issue_events") || str_eq(name, "sentry_get_event_attachment")
        || str_eq(name, "sentry_get_profile_details") {
        event_tools(cfg, name, args, rs)
    } else if str_eq(name, "sentry_create_project") || str_eq(name, "sentry_create_team") || str_eq(
        name,
        "sentry_create_dsn",
    ) || str_eq(name, "sentry_whoami") || str_eq(name, "sentry_get_sentry_resource") || str_eq(
        name,
        "sentry_update_project",
    ) || str_eq(name, "sentry_get_doc") || str_eq(name, "sentry_search_docs") {
        admin_tools(cfg, name, args, rs)
    } else {
        Step::Done(Err(concat("Tool Sentry inconnu : ", name)))
    }
}

/// A URL of the configured API: a path under it, with a query or not.
pub open spec fn on_api(cfg: SentryConfig, url: Seq<char>) -> bool {
    (exists|p: Seq<char>| url == api_of(cfg, p)) || (exists|p: Seq<char>, q: Seq<char>| url == api_of(cfg, p) + q)
}

/// What every step of a tool keeps: a request is authenticated and goes to the configured API
/// (but for `sentry_get_sentry_resource`, which is given its URL); one response ends the call,
/// but for `sentry_get_issue_details`, which two end.
pub open spec fn step_ok(cfg: SentryConfig, name: Seq<char>, v: StepView, rs: Seq<Json>) -> bool {
    &&& rs.len() >= 2 ==> v is Done
    &&& rs.len() >= 1 && name != "sentry_get_issue_details"@ ==> v is Done
    &&& v matches StepView::Send(req) ==> req.authenticated && (name != "sentry_get_sentry_resource"@
        ==> on_api(cfg, req.url))
}

proof fn lemma_org_steps(cfg: SentryConfig, name: Seq<char>, args: Json, rs: Seq<Json>)
    ensures
        step_ok(cfg, name, org_view(cfg, name, args, rs), rs),
{
}

proof fn lemma_issue_steps(cfg: SentryConfig, name: Seq<char>, args: Json, rs: Seq<Json>)
    ensures
        step_ok(cfg, name, issue_view(cfg, name, args, rs), rs),
{
}

proof fn lemma_event_steps(cfg: SentryConfig, name: Seq<char>, args: Json, rs: Seq<Json>)
    ensures
        step_ok(cfg, name, event_view(cfg, name, args, rs), rs),
{
}

proof fn lemma_admin_steps(cfg: SentryConfig, name: Seq<char>, args: Json, rs: Seq<Json>)
    ensures
        step_ok(cfg, name, admin_view(cfg, name, args, rs), rs),
{
}

/// Every Sentry tool ends once its responses have come (one; two for the issue details), and
/// every request it makes is authenticated and, but for an explicit resource URL, goes to
/// the configured API.
pub proof fn lemma_handle_ends(cfg: SentryConfig, name: Seq<char>, args: Json, rs: Seq<Json>)
    ensures
        step_ok(cfg, name, handle_view(cfg, name, args, rs), rs),
{
    lemma_org_steps(cfg, name, args, rs);
    lemma_issue_steps(cfg, name, args, rs);
    lemma_event_steps(cfg, name, args, rs);
    lemma_admin_steps(cfg, name, args, rs);
}

/// The Sentry tools offered to MCP clients: name, description and input schema of each, as a
/// The catalog's tools, in its order: for each, the JSON text of its members before its name
/// (its description and input schema).
pub const TOOL_HEADS: [&'static str; 27] = [
    r#"{"description":"SENTRY 🔍 — Liste toutes les organisations Sentry accessibles avec le token configuré. Retourne slug, nom et statut de chaque organisation.","inputSchema":{"properties":{},"type":"object"},"name":"#,
    r#"{"description":"SENTRY 📁 — Liste les projets d'une organisation Sentry. Retourne slug, nom, plateforme et statut de chaque projet.","inputSchema":{"properties":{"cursor":{"description":"Curseur de pagination (optionnel)","type":"string"},"org_slug":{"description":"Slug de l'organisation","type":"string"}},"required":["org_slug"],"type":"object"},"name":"#,
    r#"{"description":"SENTRY 👥 — Liste toutes les équipes d'une organisation Sentry. Retourne slug, nom et nombre de membres.","inputSchema":{"properties":{"org_slug":{"description":"Slug de l'organisation","type":"string"}},"required":["org_slug"],"type":"object"},"name":"#,
    r#"{"description":"SENTRY 🚀 — Liste les releases d'une organisation, filtrable par projet et query texte. Retourne version, date et projets associés.","inputSchema":{"properties":{"cursor":{"description":"Curseur de pagination (optionnel)","type":"string"},"org_slug":{"description":"Slug de l'organisation","type":"string"},"project_slug":{"description":"Slug du projet (optionnel)","type":"string"},"query":{"description":"Filtre texte (optionnel)","type":"string"}},"required":["org_slug"],"type":"object"},"name":"#,
    r#"{"description":"SENTRY 🔑 — Liste les clés DSN (Data Source Name) d'un projet Sentry. Retourne id, nom, DSN public et secret.","inputSchema":{"properties":{"org_slug":{"description":"Slug de l'organisation","type":"string"},"project_slug":{"description":"Slug du projet","type":"string"}},"required":["org_slug","project_slug"],"type":"object"},"name":"#,
    r#"{"description":"SENTRY 🐛 — Liste les issues Sentry d'une organisation, filtrable par projet, query texte et limite. Retourne id, titre, statut, assigné et compteur d'occurrences.","inputSchema":{"properties":{"cursor":{"description":"Curseur de pagination (optionnel)","type":"string"},"limit":{"description":"Nombre max de résultats (défaut 25, max 100)","type":"integer"},"org_slug":{"description":"Slug de l'organisation","type":"string"},"project_slug":{"description":"Slug du projet (optionnel)","type":"string"},"query":{"description":"Requête de recherche Sentry (ex: 'is:unresolved', 'level:error')","type":"string"}},"required":["org_slug"],"type":"object"},"name":"#,
    r#"{"description":"SENTRY 🐛 — Récupère le détail complet d'une issue Sentry : titre, statut, assigné, priorité, premier/dernier événement, compteurs.","inputSchema":{"properties":{"issue_id":{"description":"ID de l'issue Sentry","type":"string"}},"required":["issue_id"],"type":"object"},"name":"#,
    r#"{"description":"SENTRY 📋 — Liste les événements d'une issue Sentry (occurrences individuelles). Retourne id, date, message et contexte de chaque événement.","inputSchema":{"properties":{"cursor":{"description":"Curseur de pagination (optionnel)","type":"string"},"issue_id":{"description":"ID de l'issue Sentry","type":"string"},"limit":{"description":"Nombre max de résultats (défaut 25)","type":"integer"}},"required":["issue_id"],"type":"object"},"name":"#,
    r#"{"description":"SENTRY 🏷️ — Récupère les valeurs d'un tag spécifique pour une issue Sentry (ex: tag 'browser', 'os', 'user'). Utile pour analyser la distribution des environnements touchés.","inputSchema":{"properties":{"issue_id":{"description":"ID de l'issue Sentry","type":"string"},"tag":{"description":"Nom du tag (ex: 'browser', 'os', 'environment', 'release', 'user')","type":"string"}},"required":["issue_id","tag"],"type":"object"},"name":"#,
    r#"{"description":"SENTRY ✏️ — Met à jour une issue Sentry : statut (resolved/unresolved/ignored), assignation, priorité, marquer comme vu ou mis en favori.","inputSchema":{"properties":{"assignedTo":{"description":"Username ou email de l'assigné (optionnel)","type":"string"},"hasSeen":{"description":"Marquer comme vu (optionnel)","type":"boolean"},"isBookmarked":{"description":"Mettre en favori (optionnel)","type":"boolean"},"isSubscribed":{"description":"S'abonner aux notifications (optionnel)","type":"boolean"},"issue_id":{"description":"ID de l'issue Sentry","type":"string"},"priority":{"description":"Priorité de l'issue (optionnel)","enum":["critical","high","medium","low"],"type":"string"},"status":{"description":"Nouveau statut (optionnel)","enum":["resolved","unresolved","ignored"],"type":"string"}},"required":["issue_id"],"type":"object"},"name":"#,
    r#"{"description":"SENTRY 📡 — Liste les événements bruts d'un projet Sentry. Retourne id, titre, date, niveau et environnement de chaque événement.","inputSchema":{"properties":{"cursor":{"description":"Curseur de pagination (optionnel)","type":"string"},"full":{"description":"Inclure les données complètes de chaque événement (défaut false)","type":"boolean"},"org_slug":{"description":"Slug de l'organisation","type":"string"},"project_slug":{"description":"Slug du projet","type":"string"}},"required":["org_slug","project_slug"],"type":"object"},"name":"#,
    r#"{"description":"SENTRY ➕ — Crée un nouveau projet Sentry dans une organisation, associé à une équipe. Retourne le slug et DSN du projet créé.","inputSchema":{"properties":{"name":{"description":"Nom du projet","type":"string"},"org_slug":{"description":"Slug de l'organisation","type":"string"},"platform":{"description":"Plateforme (ex: 'javascript', 'python', 'react-native') — optionnel","type":"string"},"team_slug":{"description":"Slug de l'équipe propriétaire du projet","type":"string"}},"required":["org_slug","team_slug","name"],"type":"object"},"name":"#,
    r#"{"description":"SENTRY ➕ — Crée une nouvelle équipe dans une organisation Sentry. Retourne le slug et l'id de l'équipe créée.","inputSchema":{"properties":{"name":{"description":"Nom de l'équipe","type":"string"},"org_slug":{"description":"Slug de l'organisation","type":"string"},"slug":{"description":"Slug personnalisé (optionnel — généré automatiquement si absent)","type":"string"}},"required":["org_slug","name"],"type":"object"},"name":"#,
    r#"{"description":"SENTRY 🔑 — Crée une nouvelle clé DSN dans un projet Sentry. Retourne le DSN public et secret de la nouvelle clé.","inputSchema":{"properties":{"name":{"description":"Nom de la clé DSN (ex: 'Production', 'Staging')","type":"string"},"org_slug":{"description":"Slug de l'organisation","type":"string"},"project_slug":{"description":"Slug du projet","type":"string"}},"required":["org_slug","project_slug","name"],"type":"object"},"name":"#,
    r#"{"description":"SENTRY 👤 — Retourne les informations de l'utilisateur authentifié (nom, email, id, date de création du compte).","inputSchema":{"properties":{},"type":"object"},"name":"#,
    r#"{"description":"SENTRY 📎 — Récupère le contenu d'une pièce jointe attachée à un événement Sentry (screenshot, log, fichier de crash).","inputSchema":{"properties":{"attachment_id":{"description":"ID de la pièce jointe","type":"string"},"event_id":{"description":"ID de l'événement","type":"string"},"org_slug":{"description":"Slug de l'organisation","type":"string"},"project_slug":{"description":"Slug du projet","type":"string"}},"required":["org_slug","project_slug","event_id","attachment_id"],"type":"object"},"name":"#,
    r#"{"description":"SENTRY 🔗 — Appelle directement une URL complète de l'API Sentry. Utile pour suivre les liens de pagination (header Link) retournés par d'autres tools Sentry.","inputSchema":{"properties":{"url":{"description":"URL complète de l'API Sentry (ex: https://sentry.io/api/0/organizations/my-org/issues/?cursor=...)","type":"string"}},"required":["url"],"type":"object"},"name":"#,
    r#"{"description":"SENTRY ✏️ — Met à jour les paramètres d'un projet Sentry : nom, plateforme, préfixe des sujets d'alerte.","inputSchema":{"properties":{"name":{"description":"Nouveau nom du projet (optionnel)","type":"string"},"org_slug":{"description":"Slug de l'organisation","type":"string"},"platform":{"description":"Nouvelle plateforme (optionnel)","type":"string"},"project_slug":{"description":"Slug du projet","type":"string"},"subjectPrefix":{"description":"Préfixe des sujets d'email d'alerte (optionnel)","type":"string"}},"required":["org_slug","project_slug"],"type":"object"},"name":"#,
    r#"{"description":"SENTRY 🔍 — Recherche avancée d'issues Sentry avec une query Sentry (ex: 'is:unresolved level:error browser:Chrome'). Alias de list_issues avec focus sur la recherche.","inputSchema":{"properties":{"cursor":{"description":"Curseur de pagination","type":"string"},"limit":{"description":"Nombre max de résultats (défaut 25, max 100)","type":"integer"},"org_slug":{"description":"Slug de l'organisation","type":"string"},"project_slug":{"description":"Slug du projet (optionnel)","type":"string"},"query":{"description":"Query Sentry (ex: 'is:unresolved assigned:me level:error')","type":"string"}},"required":["org_slug","query"],"type":"object"},"name":"#,
    r#"{"description":"SENTRY 🔍 — Recherche d'événements Sentry dans un projet avec une query (ex: 'level:error transaction:/api/checkout'). Retourne les événements correspondants.","inputSchema":{"properties":{"limit":{"description":"Nombre max de résultats (défaut 10)","type":"integer"},"org_slug":{"description":"Slug de l'organisation","type":"string"},"project_slug":{"description":"Slug du projet","type":"string"},"query":{"description":"Query Sentry pour filtrer les événements","type":"string"}},"required":["org_slug","project_slug","query"],"type":"object"},"name":"#,
    r#"{"description":"SENTRY 🔍 — Recherche dans les événements d'une issue Sentry spécifique avec un filtre texte.","inputSchema":{"properties":{"issue_id":{"description":"ID de l'issue Sentry","type":"string"},"limit":{"description":"Nombre max de résultats (défaut 25)","type":"integer"},"query":{"description":"Filtre texte (optionnel)","type":"string"}},"required":["issue_id"],"type":"object"},"name":"#,
    r#"{"description":"SENTRY 🐛 — Récupère le détail complet d'une issue Sentry avec sa dernière stacktrace et le contexte d'erreur complet.","inputSchema":{"properties":{"issue_id":{"description":"ID de l'issue Sentry","type":"string"}},"required":["issue_id"],"type":"object"},"name":"#,
    r#"{"description":"SENTRY 🔗 — Récupère les détails d'une trace Sentry (distributed tracing) par son trace_id.","inputSchema":{"properties":{"org_slug":{"description":"Slug de l'organisation","type":"string"},"trace_id":{"description":"ID de la trace (32 caractères hex)","type":"string"}},"required":["org_slug","trace_id"],"type":"object"},"name":"#,
    r#"{"description":"SENTRY 🤖 — Lance l'analyse IA de Sentry (Seer) sur une issue pour obtenir une explication et des suggestions de correction automatiques.","inputSchema":{"properties":{"issue_id":{"description":"ID de l'issue à analyser","type":"string"},"org_slug":{"description":"Slug de l'organisation","type":"string"},"project_slug":{"description":"Slug du projet","type":"string"}},"required":["org_slug","project_slug","issue_id"],"type":"object"},"name":"#,
    r#"{"description":"SENTRY 📊 — Récupère les données de profiling (flamegraph) d'un événement Sentry qui a du profiling activé.","inputSchema":{"properties":{"org_slug":{"description":"Slug de l'organisation","type":"string"},"profile_id":{"description":"ID du profil (obtenu depuis un événement Sentry)","type":"string"},"project_slug":{"description":"Slug du projet","type":"string"}},"required":["org_slug","project_slug","profile_id"],"type":"object"},"name":"#,
    r#"{"description":"SENTRY 📖 — Récupère un article de la documentation Sentry par son chemin (ex: 'platforms/javascript/guides/react').","inputSchema":{"properties":{"path":{"description":"Chemin de la doc Sentry (ex: 'platforms/javascript' ou 'product/issues')","type":"string"}},"required":["path"],"type":"object"},"name":"#,
    r#"{"description":"SENTRY 📖 — Recherche dans la documentation Sentry par mots-clés. Retourne les articles et sections correspondants.","inputSchema":{"properties":{"query":{"description":"Termes de recherche dans la documentation Sentry","type":"string"}},"required":["query"],"type":"object"},"name":"#
];

/// The names of the catalog's tools, in its order (those of [`catalog_names`]).
pub const TOOL_NAMES: [&'static str; 27] = [
    "sentry_find_organizations",
    "sentry_find_projects",
    "sentry_find_teams",
    "sentry_find_releases",
    "sentry_find_dsns",
    "sentry_list_issues",
    "sentry_get_issue",
    "sentry_list_issue_events",
    "sentry_get_issue_tag_values",
    "sentry_update_issue",
    "sentry_list_events",
    "sentry_create_project",
    "sentry_create_team",
    "sentry_create_dsn",
    "sentry_whoami",
    "sentry_get_event_attachment",
    "sentry_get_sentry_resource",
    "sentry_update_project",
    "sentry_search_issues",
    "sentry_search_events",
    "sentry_search_issue_events",
    "sentry_get_issue_details",
    "sentry_get_trace_details",
    "sentry_analyze_issue_with_seer",
    "sentry_get_profile_details",
    "sentry_get_doc",
    "sentry_search_docs"
];

/// The Sentry tools offered to MCP clients, as a JSON array: one entry per tool of
/// [`catalog_names`], in order, each with its description and input schema (from
/// [`TOOL_HEADS`]) and its name.
pub fn tools() -> (r: String)
    ensures
        r@ == catalog_text(texts(TOOL_HEADS@), catalog_names()),
{
    assert(texts(TOOL_NAMES@) =~= catalog_names());
    build_catalog(&TOOL_HEADS, &TOOL_NAMES)
}

/// The names of the tools in the catalog, in its order.
pub open spec fn catalog_names() -> Seq<Seq<char>> {
    seq![
        "sentry_find_organizations"@,
        "sentry_find_projects"@,
        "sentry_find_teams"@,
        "sentry_find_releases"@,
        "sentry_find_dsns"@,
        "sentry_list_issues"@,
        "sentry_get_issue"@,
        "sentry_list_issue_events"@,
        "sentry_get_issue_tag_values"@,
        "sentry_update_issue"@,
        "sentry_list_events"@,
        "sentry_create_project"@,
        "sentry_create_team"@,
        "sentry_create_dsn"@,
        "sentry_whoami"@,
        "sentry_get_event_attachment"@,
        "sentry_get_sentry_resource"@,
        "sentry_update_project"@,
        "sentry_search_issues"@,
        "sentry_search_events"@,
        "sentry_search_issue_events"@,
        "sentry_get_issue_details"@,
        "sentry_get_trace_details"@,
        "sentry_analyze_issue_with_seer"@,
        "sentry_get_profile_details"@,
        "sentry_get_doc"@,
        "sentry_search_docs"@
    ]
}

/// The names of the tools in the catalog, in its order (see [`catalog_names`]).
pub fn tool_names() -> (r: Vec<&'static str>)
    ensures
        r@.map_values(|s: &'static str| s@) == catalog_names(),
{
    let r = vec![
        "sentry_find_organizations",
        "sentry_find_projects",
        "sentry_find_teams",
        "sentry_find_releases",
        "sentry_find_dsns",
        "sentry_list_issues",
        "sentry_get_issue",
        "sentry_list_issue_events",
        "sentry_get_issue_tag_values",
        "sentry_update_issue",
        "sentry_list_events",
        "sentry_create_project",
        "sentry_create_team",
        "sentry_create_dsn",
        "sentry_whoami",
        "sentry_get_event_attachment",
        "sentry_get_sentry_resource",
        "sentry_update_project",
        "sentry_search_issues",
        "sentry_search_events",
        "sentry_search_issue_events",
        "sentry_get_issue_details",
        "sentry_get_trace_details",
        "sentry_analyze_issue_with_seer",
        "sentry_get_profile_details",
        "sentry_get_doc",
        "sentry_search_docs"
    ];
    assert(r@.map_values(|s: &'static str| s@) =~= catalog_names());
    r
}

/// A tool name that [`tools`] does not serve (one outside [`catalog_names`]) gets the
/// unknown-tool error, without a request.
pub proof fn lemma_unknown_tool(cfg: SentryConfig, name: Seq<char>, args: Json, rs: Seq<Json>)
    requires
        !catalog_names().contains(name),
    ensures
        handle_view(cfg, name, args, rs) == fail_view("Tool Sentry inconnu : "@ + name),
{
    assert(catalog_names()[0] == "sentry_find_organizations"@);
    assert(catalog_names()[1] == "sentry_find_projects"@);
    assert(catalog_names()[2] == "sentry_find_teams"@);
    assert(catalog_names()[3] == "sentry_find_releases"@);
    assert(catalog_names()[4] == "sentry_find_dsns"@);
    assert(catalog_names()[5] == "sentry_list_issues"@);
    assert(catalog_names()[6] == "sentry_get_issue"@);
    assert(catalog_names()[7] == "sentry_list_issue_events"@);
    assert(catalog_names()[8] == "sentry_get_issue_tag_values"@);
    assert(catalog_names()[9] == "sentry_update_issue"@);
    assert(catalog_names()[10] == "sentry_list_events"@);
    assert(catalog_names()[11] == "sentry_create_project"@);
    assert(catalog_names()[12] == "sentry_create_team"@);
    assert(catalog_names()[13] == "sentry_create_dsn"@);
    assert(catalog_names()[14] == "sentry_whoami"@);
    assert(catalog_names()[15] == "sentry_get_event_attachment"@);
    assert(catalog_names()[16] == "sentry_get_sentry_resource"@);
    assert(catalog_names()[17] == "sentry_update_project"@);
    assert(catalog_names()[18] == "sentry_search_issues"@);
    assert(catalog_names()[19] == "sentry_search_events"@);
    assert(catalog_names()[20] == "sentry_search_issue_events"@);
    assert(catalog_names()[21] == "sentry_get_issue_details"@);
    assert(catalog_names()[22] == "sentry_get_trace_details"@);
    assert(catalog_names()[23] == "sentry_analyze_issue_with_seer"@);
    assert(catalog_names()[24] == "sentry_get_profile_details"@);
    assert(catalog_names()[25] == "sentry_get_doc"@);
    assert(catalog_names()[26] == "sentry_search_docs"@);
}

/// Every tool that [`tools`] serves (those of [`catalog_names`]) and that this module runs is
/// handled: its first step is never the unknown-tool error.
#[verifier::rlimit(100)]
pub proof fn lemma_catalog_handled(cfg: SentryConfig, name: Seq<char>, args: Json)
    requires
        catalog_names().contains(name),
        name != "sentry_get_trace_details"@,
    ensures
        handle_view(cfg, name, args, seq![]) != fail_view("Tool Sentry inconnu : "@ + name),
{
    reveal_strlit("Au moins un paramètre de mise à jour est requis");
    reveal_strlit("Au moins un paramètre parmi 'name', 'platform' ou 'subjectPrefix' est requis");
    reveal_strlit("Paramètre '");
    reveal_strlit("Tool Sentry inconnu : ");
    assert(("Tool Sentry inconnu : "@ + name)[0] == 'T');
    assert(catalog_names()[0] == "sentry_find_organizations"@);
    assert(catalog_names()[1] == "sentry_find_projects"@);
    assert(catalog_names()[2] == "sentry_find_teams"@);
    assert(catalog_names()[3] == "sentry_find_releases"@);
    assert(catalog_names()[4] == "sentry_find_dsns"@);
    assert(catalog_names()[5] == "sentry_list_issues"@);
    assert(catalog_names()[6] == "sentry_get_issue"@);
    assert(catalog_names()[7] == "sentry_list_issue_events"@);
    assert(catalog_names()[8] == "sentry_get_issue_tag_values"@);
    assert(catalog_names()[9] == "sentry_update_issue"@);
    assert(catalog_names()[10] == "sentry_list_events"@);
    assert(catalog_names()[11] == "sentry_create_project"@);
    assert(catalog_names()[12] == "sentry_create_team"@);
    assert(catalog_names()[13] == "sentry_create_dsn"@);
    assert(catalog_names()[14] == "sentry_whoami"@);
    assert(catalog_names()[15] == "sentry_get_event_attachment"@);
    assert(catalog_names()[16] == "sentry_get_sentry_resource"@);
    assert(catalog_names()[17] == "sentry_update_project"@);
    assert(catalog_names()[18] == "sentry_search_issues"@);
    assert(catalog_names()[19] == "sentry_search_events"@);
    assert(catalog_names()[20] == "sentry_search_issue_events"@);
    assert(catalog_names()[21] == "sentry_get_issue_details"@);
    assert(catalog_names()[22] == "sentry_get_trace_details"@);
    assert(catalog_names()[23] == "sentry_analyze_issue_with_seer"@);
    assert(catalog_names()[24] == "sentry_get_profile_details"@);
    assert(catalog_names()[25] == "sentry_get_doc"@);
    assert(catalog_names()[26] == "sentry_search_docs"@);
}

/// The names of each catalog tool's input properties and of those it requires, in catalog
/// order (properties by name).
pub open spec fn catalog_schemas() -> Seq<(Seq<char>, Seq<Seq<char>>, Seq<Seq<char>>)> {
    seq![
        ("sentry_find_organizations"@, seq![], seq![]),
        ("sentry_find_projects"@, seq!["cursor"@, "org_slug"@], seq!["org_slug"@]),
        ("sentry_find_teams"@, seq!["org_slug"@], seq!["org_slug"@]),
        ("sentry_find_releases"@, seq!["cursor"@, "org_slug"@, "project_slug"@, "query"@], seq!["org_slug"@]),
        ("sentry_find_dsns"@, seq!["org_slug"@, "project_slug"@], seq!["org_slug"@, "project_slug"@]),
        ("sentry_list_issues"@, seq!["cursor"@, "limit"@, "org_slug"@, "project_slug"@, "query"@], seq!["org_slug"@]),
        ("sentry_get_issue"@, seq!["issue_id"@], seq!["issue_id"@]),
        ("sentry_list_issue_events"@, seq!["cursor"@, "issue_id"@, "limit"@], seq!["issue_id"@]),
        ("sentry_get_issue_tag_values"@, seq!["issue_id"@, "tag"@], seq!["issue_id"@, "tag"@]),
        ("sentry_update_issue"@, seq!["assignedTo"@, "hasSeen"@, "isBookmarked"@, "isSubscribed"@, "issue_id"@, "priority"@, "status"@], seq!["issue_id"@]),
        ("sentry_list_events"@, seq!["cursor"@, "full"@, "org_slug"@, "project_slug"@], seq!["org_slug"@, "project_slug"@]),
        ("sentry_create_project"@, seq!["name"@, "org_slug"@, "platform"@, "team_slug"@], seq!["org_slug"@, "team_slug"@, "name"@]),
        ("sentry_create_team"@, seq!["name"@, "org_slug"@, "slug"@], seq!["org_slug"@, "name"@]),
        ("sentry_create_dsn"@, seq!["name"@, "org_slug"@, "project_slug"@], seq!["org_slug"@, "project_slug"@, "name"@]),
        ("sentry_whoami"@, seq![], seq![]),
        ("sentry_get_event_attachment"@, seq!["attachment_id"@, "event_id"@, "org_slug"@, "project_slug"@], seq!["org_slug"@, "project_slug"@, "event_id"@, "attachment_id"@]),
        ("sentry_get_sentry_resource"@, seq!["url"@], seq!["url"@]),
        ("sentry_update_project"@, seq!["name"@, "org_slug"@, "platform"@, "project_slug"@, "subjectPrefix"@], seq!["org_slug"@, "project_slug"@]),
        ("sentry_search_issues"@, seq!["cursor"@, "limit"@, "org_slug"@, "project_slug"@, "query"@], seq!["org_slug"@, "query"@]),
        ("sentry_search_events"@, seq!["limit"@, "org_slug"@, "project_slug"@, "query"@], seq!["org_slug"@, "project_slug"@, "query"@]),
        ("sentry_search_issue_events"@, seq!["issue_id"@, "limit"@, "query"@], seq!["issue_id"@]),
        ("sentry_get_issue_details"@, seq!["issue_id"@], seq!["issue_id"@]),
        ("sentry_get_trace_details"@, seq!["org_slug"@, "trace_id"@], seq!["org_slug"@, "trace_id"@]),
        ("sentry_analyze_issue_with_seer"@, seq!["issue_id"@, "org_slug"@, "project_slug"@], seq!["org_slug"@, "project_slug"@, "issue_id"@]),
        ("sentry_get_profile_details"@, seq!["org_slug"@, "profile_id"@, "project_slug"@], seq!["org_slug"@, "project_slug"@, "profile_id"@]),
        ("sentry_get_doc"@, seq!["path"@], seq!["path"@]),
        ("sentry_search_docs"@, seq!["query"@], seq!["query"@])
    ]
}

/// The names of each catalog tool's input properties and required inputs (see
/// [`catalog_schemas`]).
pub fn tool_schemas() -> (r: Vec<SchemaNames>)
    ensures
        r@.map_values(|e: SchemaNames| schema_view(e)) == catalog_schemas(),
{
    let r: Vec<SchemaNames> = vec![
        ("sentry_find_organizations", vec![], vec![]),
        ("sentry_find_projects", vec!["cursor", "org_slug"], vec!["org_slug"]),
        ("sentry_find_teams", vec!["org_slug"], vec!["org_slug"]),
        ("sentry_find_releases", vec!["cursor", "org_slug", "project_slug", "query"], vec!["org_slug"]),
        ("sentry_find_dsns", vec!["org_slug", "project_slug"], vec!["org_slug", "project_slug"]),
        ("sentry_list_issues", vec!["cursor", "limit", "org_slug", "project_slug", "query"], vec!["org_slug"]),
        ("sentry_get_issue", vec!["issue_id"], vec!["issue_id"]),
        ("sentry_list_issue_events", vec!["cursor", "issue_id", "limit"], vec!["issue_id"]),
        ("sentry_get_issue_tag_values", vec!["issue_id", "tag"], vec!["issue_id", "tag"]),
        ("sentry_update_issue", vec!["assignedTo", "hasSeen", "isBookmarked", "isSubscribed", "issue_id", "priority", "status"], vec!["issue_id"]),
        ("sentry_list_events", vec!["cursor", "full", "org_slug", "project_slug"], vec!["org_slug", "project_slug"]),
        ("sentry_create_project", vec!["name", "org_slug", "platform", "team_slug"], vec!["org_slug", "team_slug", "name"]),
        ("sentry_create_team", vec!["name", "org_slug", "slug"], vec!["org_slug", "name"]),
        ("sentry_create_dsn", vec!["name", "org_slug", "project_slug"], vec!["org_slug", "project_slug", "name"]),
        ("sentry_whoami", vec![], vec![]),
        ("sentry_get_event_attachment", vec!["attachment_id", "event_id", "org_slug", "project_slug"], vec!["org_slug", "project_slug", "event_id", "attachment_id"]),
        ("sentry_get_sentry_resource", vec!["url"], vec!["url"]),
        ("sentry_update_project", vec!["name", "org_slug", "platform", "project_slug", "subjectPrefix"], vec!["org_slug", "project_slug"]),
        ("sentry_search_issues", vec!["cursor", "limit", "org_slug", "project_slug", "query"], vec!["org_slug", "query"]),
        ("sentry_search_events", vec!["limit", "org_slug", "project_slug", "query"], vec!["org_slug", "project_slug", "query"]),
        ("sentry_search_issue_events", vec!["issue_id", "limit", "query"], vec!["issue_id"]),
        ("sentry_get_issue_details", vec!["issue_id"], vec!["issue_id"]),
        ("sentry_get_trace_details", vec!["org_slug", "trace_id"], vec!["org_slug", "trace_id"]),
        ("sentry_analyze_issue_with_seer", vec!["issue_id", "org_slug", "project_slug"], vec!["org_slug", "project_slug", "issue_id"]),
        ("sentry_get_profile_details", vec!["org_slug", "profile_id", "project_slug"], vec!["org_slug", "project_slug", "profile_id"]),
        ("sentry_get_doc", vec!["path"], vec!["path"]),
        ("sentry_search_docs", vec!["query"], vec!["query"])
    ];
    assert(r@[0].1@.map_values(|s: &'static str| s@) =~= catalog_schemas()[0].1);
    assert(r@[0].2@.map_values(|s: &'static str| s@) =~= catalog_schemas()[0].2);
    assert(r@[1].1@.map_values(|s: &'static str| s@) =~= catalog_schemas()[1].1);
    assert(r@[1].2@.map_values(|s: &'static str| s@) =~= catalog_schemas()[1].2);
    assert(r@[2].1@.map_values(|s: &'static str| s@) =~= catalog_schemas()[2].1);
    assert(r@[2].2@.map_values(|s: &'static str| s@) =~= catalog_schemas()[2].2);
    assert(r@[3].1@.map_values(|s: &'static str| s@) =~= catalog_schemas()[3].1);
    assert(r@[3].2@.map_values(|s: &'static str| s@) =~= catalog_schemas()[3].2);
    assert(r@[4].1@.map_values(|s: &'static str| s@) =~= catalog_schemas()[4].1);
    assert(r@[4].2@.map_values(|s: &'static str| s@) =~= catalog_schemas()[4].2);
    assert(r@[5].1@.map_values(|s: &'static str| s@) =~= catalog_schemas()[5].1);
    assert(r@[5].2@.map_values(|s: &'static str| s@) =~= catalog_schemas()[5].2);
    assert(r@[6].1@.map_values(|s: &'static str| s@) =~= catalog_schemas()[6].1);
    assert(r@[6].2@.map_values(|s: &'static str| s@) =~= catalog_schemas()[6].2);
    assert(r@[7].1@.map_values(|s: &'static str| s@) =~= catalog_schemas()[7].1);
    assert(r@[7].2@.map_values(|s: &'static str| s@) =~= catalog_schemas()[7].2);
    assert(r@[8].1@.map_values(|s: &'static str| s@) =~= catalog_schemas()[8].1);
    assert(r@[8].2@.map_values(|s: &'static str| s@) =~= catalog_schemas()[8].2);
    assert(r@[9].1@.map_values(|s: &'static str| s@) =~= catalog_schemas()[9].1);
    assert(r@[9].2@.map_values(|s: &'static str| s@) =~= catalog_schemas()[9].2);
    assert(r@[10].1@.map_values(|s: &'static str| s@) =~= catalog_schemas()[10].1);
    assert(r@[10].2@.map_values(|s: &'static str| s@) =~= catalog_schemas()[10].2);
    assert(r@[11].1@.map_values(|s: &'static str| s@) =~= catalog_schemas()[11].1);
    assert(r@[11].2@.map_values(|s: &'static str| s@) =~= catalog_schemas()[11].2);
    assert(r@[12].1@.map_values(|s: &'static str| s@) =~= catalog_schemas()[12].1);
    assert(r@[12].2@.map_values(|s: &'static str| s@) =~= catalog_schemas()[12].2);
    assert(r@[13].1@.map_values(|s: &'static str| s@) =~= catalog_schemas()[13].1);
    assert(r@[13].2@.map_values(|s: &'static str| s@) =~= catalog_schemas()[13].2);
    assert(r@[14].1@.map_values(|s: &'static str| s@) =~= catalog_schemas()[14].1);
    assert(r@[14].2@.map_values(|s: &'static str| s@) =~= catalog_schemas()[14].2);
    assert(r@[15].1@.map_values(|s: &'static str| s@) =~= catalog_schemas()[15].1);
    assert(r@[15].2@.map_values(|s: &'static str| s@) =~= catalog_schemas()[15].2);
    assert(r@[16].1@.map_values(|s: &'static str| s@) =~= catalog_schemas()[16].1);
    assert(r@[16].2@.map_values(|s: &'static str| s@) =~= catalog_schemas()[16].2);
    assert(r@[17].1@.map_values(|s: &'static str| s@) =~= catalog_schemas()[17].1);
    assert(r@[17].2@.map_values(|s: &'static str| s@) =~= catalog_schemas()[17].2);
    assert(r@[18].1@.map_values(|s: &'static str| s@) =~= catalog_schemas()[18].1);
    assert(r@[18].2@.map_values(|s: &'static str| s@) =~= catalog_schemas()[18].2);
    assert(r@[19].1@.map_values(|s: &'static str| s@) =~= catalog_schemas()[19].1);
    assert(r@[19].2@.map_values(|s: &'static str| s@) =~= catalog_schemas()[19].2);
    assert(r@[20].1@.map_values(|s: &'static str| s@) =~= catalog_schemas()[20].1);
    assert(r@[20].2@.map_values(|s: &'static str| s@) =~= catalog_schemas()[20].2);
    assert(r@[21].1@.map_values(|s: &'static str| s@) =~= catalog_schemas()[21].1);
    assert(r@[21].2@.map_values(|s: &'static str| s@) =~= catalog_schemas()[21].2);
    assert(r@[22].1@.map_values(|s: &'static str| s@) =~= catalog_schemas()[22].1);
    assert(r@[22].2@.map_values(|s: &'static str| s@) =~= catalog_schemas()[22].2);
    assert(r@[23].1@.map_values(|s: &'static str| s@) =~= catalog_schemas()[23].1);
    assert(r@[23].2@.map_values(|s: &'static str| s@) =~= catalog_schemas()[23].2);
    assert(r@[24].1@.map_values(|s: &'static str| s@) =~= catalog_schemas()[24].1);
    assert(r@[24].2@.map_values(|s: &'static str| s@) =~= catalog_schemas()[24].2);
    assert(r@[25].1@.map_values(|s: &'static str| s@) =~= catalog_schemas()[25].1);
    assert(r@[25].2@.map_values(|s: &'static str| s@) =~= catalog_schemas()[25].2);
    assert(r@[26].1@.map_values(|s: &'static str| s@) =~= catalog_schemas()[26].1);
    assert(r@[26].2@.map_values(|s: &'static str| s@) =~= catalog_schemas()[26].2);
    assert(r@.map_values(|e: SchemaNames| schema_view(e)) =~= catalog_schemas());
    r
}

/// Every tool of the catalog requires only inputs that are among its properties.
pub proof fn lemma_required_are_properties(i: int)
    requires
        0 <= i < catalog_schemas().len(),
    ensures
        requires_properties(catalog_schemas()[i]),
{
    if i == 1 {
        assert(catalog_schemas()[1].1[1] == catalog_schemas()[1].2[0]);
    }
    if i == 2 {
        assert(catalog_schemas()[2].1[0] == catalog_schemas()[2].2[0]);
    }
    if i == 3 {
        assert(catalog_schemas()[3].1[1] == catalog_schemas()[3].2[0]);
    }
    if i == 4 {
        assert(catalog_schemas()[4].1[0] == catalog_schemas()[4].2[0]);
        assert(catalog_schemas()[4].1[1] == catalog_schemas()[4].2[1]);
    }
    if i == 5 {
        assert(catalog_schemas()[5].1[2] == catalog_schemas()[5].2[0]);
    }
    if i == 6 {
        assert(catalog_schemas()[6].1[0] == catalog_schemas()[6].2[0]);
    }
    if i == 7 {
        assert(catalog_schemas()[7].1[1] == catalog_schemas()[7].2[0]);
    }
    if i == 8 {
        assert(catalog_schemas()[8].1[0] == catalog_schemas()[8].2[0]);
        assert(catalog_schemas()[8].1[1] == catalog_schemas()[8].2[1]);
    }
    if i == 9 {
        assert(catalog_schemas()[9].1[4] == catalog_schemas()[9].2[0]);
    }
    if i == 10 {
        assert(catalog_schemas()[10].1[2] == catalog_schemas()[10].2[0]);
        assert(catalog_schemas()[10].1[3] == catalog_schemas()[10].2[1]);
    }
    if i == 11 {
        assert(catalog_schemas()[11].1[1] == catalog_schemas()[11].2[0]);
        assert(catalog_schemas()[11].1[3] == catalog_schemas()[11].2[1]);
        assert(catalog_schemas()[11].1[0] == catalog_schemas()[11].2[2]);
    }
    if i == 12 {
        assert(catalog_schemas()[12].1[1] == catalog_schemas()[12].2[0]);
        assert(catalog_schemas()[12].1[0] == catalog_schemas()[12].2[1]);
    }
    if i == 13 {
        assert(catalog_schemas()[13].1[1] == catalog_schemas()[13].2[0]);
        assert(catalog_schemas()[13].1[2] == catalog_schemas()[13].2[1]);
        assert(catalog_schemas()[13].1[0] == catalog_schemas()[13].2[2]);
    }
    if i == 15 {
        assert(catalog_schemas()[15].1[2] == catalog_schemas()[15].2[0]);
        assert(catalog_schemas()[15].1[3] == catalog_schemas()[15].2[1]);
        assert(catalog_schemas()[15].1[1] == catalog_schemas()[15].2[2]);
        assert(catalog_schemas()[15].1[0] == catalog_schemas()[15].2[3]);
    }
    if i == 16 {
        assert(catalog_schemas()[16].1[0] == catalog_schemas()[16].2[0]);
    }
    if i == 17 {
        assert(catalog_schemas()[17].1[1] == catalog_schemas()[17].2[0]);
        assert(catalog_schemas()[17].1[3] == catalog_schemas()[17].2[1]);
    }
    if i == 18 {
        assert(catalog_schemas()[18].1[2] == catalog_schemas()[18].2[0]);
        assert(catalog_schemas()[18].1[4] == catalog_schemas()[18].2[1]);
    }
    if i == 19 {
        assert(catalog_schemas()[19].1[1] == catalog_schemas()[19].2[0]);
        assert(catalog_schemas()[19].1[2] == catalog_schemas()[19].2[1]);
        assert(catalog_schemas()[19].1[3] == catalog_schemas()[19].2[2]);
    }
    if i == 20 {
        assert(catalog_schemas()[20].1[0] == catalog_schemas()[20].2[0]);
    }
    if i == 21 {
        assert(catalog_schemas()[21].1[0] == catalog_schemas()[21].2[0]);
    }
    if i == 22 {
        assert(catalog_schemas()[22].1[0] == catalog_schemas()[22].2[0]);
        assert(catalog_schemas()[22].1[1] == catalog_schemas()[22].2[1]);
    }
    if i == 23 {
        assert(catalog_schemas()[23].1[1] == catalog_schemas()[23].2[0]);
        assert(catalog_schemas()[23].1[2] == catalog_schemas()[23].2[1]);
        assert(catalog_schemas()[23].1[0] == catalog_schemas()[23].2[2]);
    }
    if i == 24 {
        assert(catalog_schemas()[24].1[0] == catalog_schemas()[24].2[0]);
        assert(catalog_schemas()[24].1[2] == catalog_schemas()[24].2[1]);
        assert(catalog_schemas()[24].1[1] == catalog_schemas()[24].2[2]);
    }
    if i == 25 {
        assert(catalog_schemas()[25].1[0] == catalog_schemas()[25].2[0]);
    }
    if i == 26 {
        assert(catalog_schemas()[26].1[0] == catalog_schemas()[26].2[0]);
    }
}

proof fn lemma_lines_append(kind: Listed, a: Seq<Json>, b: Seq<Json>)
    ensures
        lines(kind, a + b) == lines(kind, a) + lines(kind, b),
    decreases b.len(),
{
    if b.len() == 0 {
        assert(a + b =~= a);
    } else {
        lemma_lines_append(kind, a, b.drop_last());
        assert((a + b).drop_last() =~= a + b.drop_last());
    }
}

proof fn lemma_lines_at(kind: Listed, items: Seq<Json>, i: int)
    requires
        0 <= i < items.len(),
    ensures
        lines(kind, items) == lines(kind, items.take(i)) + item_text(kind, items[i]) + lines(
            kind,
            items.skip(i + 1),
        ),
{
    let one = seq![items[i]];
    assert(items =~= items.take(i) + one + items.skip(i + 1));
    lemma_lines_append(kind, items.take(i) + one, items.skip(i + 1));
    lemma_lines_append(kind, items.take(i), one);
    assert(one.drop_last() =~= Seq::<Json>::empty());
    assert(one.last() == items[i]);
    assert(lines(kind, Seq::<Json>::empty()) == Seq::<char>::empty());
    assert(lines(kind, one) =~= item_text(kind, items[i]));
}

/// The part of a listed issue with its first and last sighting.
pub open spec fn seen_text(j: Json) -> Seq<char> {
    "\n  première fois: "@ + str_or(j, "firstSeen"@, "—"@) + " | dernière fois: "@ + str_or(
        j,
        "lastSeen"@,
        "—"@,
    )
}

/// A listed issue up to its last sighting, before its line break.
pub open spec fn issue_upto_seen(j: Json) -> Seq<char> {
    "• ["@ + str_or(j, "id"@, "—"@) + "] "@ + str_or(j, "title"@, "—"@) + "\n  statut: "@ + str_or(
        j,
        "status"@,
        "—"@,
    ) + " | projet: "@ + str_or(j.at("project"@), "slug"@, "—"@) + " | occurrences: "@ + str_or(
        j,
        "count"@,
        "0"@,
    ) + " | assigné: "@ + assigned_of(j) + "\n  première fois: "@ + str_or(j, "firstSeen"@, "—"@)
        + " | dernière fois: "@ + str_or(j, "lastSeen"@, "—"@)
}

proof fn lemma_issue_text(j: Json)
    ensures
        item_text(Listed::Issue, j) == issue_upto_seen(j) + "\n"@,
        occurs(seen_text(j), issue_upto_seen(j)),
        occurs(seen_text(j), item_text(Listed::Issue, j)),
        has_non_ws(seen_text(j)),
{
    let x = "• ["@ + str_or(j, "id"@, "—"@) + "] "@ + str_or(j, "title"@, "—"@) + "\n  statut: "@
        + str_or(j, "status"@, "—"@) + " | projet: "@ + str_or(j.at("project"@), "slug"@, "—"@)
        + " | occurrences: "@ + str_or(j, "count"@, "0"@) + " | assigné: "@ + assigned_of(j);
    let a = "\n  première fois: "@;
    let b = str_or(j, "firstSeen"@, "—"@);
    let c = " | dernière fois: "@;
    let d = str_or(j, "lastSeen"@, "—"@);
    lemma_occurs_tail4(x, a, b, c, d);
    lemma_occurs_append(seen_text(j), issue_upto_seen(j), "\n"@);
    reveal_strlit("\n  première fois: ");
    assert(a[3] == 'p');
    assert(seen_text(j)[3] == a[3]);
}

proof fn lemma_list_issues_outcome(cfg: SentryConfig, args: Json, r: Json, org: Seq<char>)
    requires
        args.at("org_slug"@).str_of() == Some(org),
    ensures
        handle_view(cfg, "sentry_list_issues"@, args, seq![r]) == StepView::Done(
            Ok(listing(Listed::Issue, r, " issue(s) :\n"@, "Aucune issue dans l'organisation "@ + org + "."@)),
        ),
{
    reveal_strlit("sentry_list_issues");
    reveal_strlit("sentry_find_organizations");
    assert("sentry_find_organizations"@.len() == 25);
    reveal_strlit("sentry_find_projects");
    assert("sentry_find_projects"@.len() == 20);
    reveal_strlit("sentry_find_teams");
    assert("sentry_find_teams"@.len() == 17);
    reveal_strlit("sentry_find_releases");
    assert("sentry_find_releases"@.len() == 20);
    reveal_strlit("sentry_find_dsns");
    assert("sentry_find_dsns"@.len() == 16);
    assert("sentry_list_issues"@.len() == 18);
}

proof fn lemma_issue_listing_shows_seen(r: Json, empty: Seq<char>, i: int)
    requires
        0 <= i < items_of(r).len(),
        i + 1 < items_of(r).len() || (str_or(items_of(r)[i], "lastSeen"@, "—"@).len() > 0
            && !is_white_space(str_or(items_of(r)[i], "lastSeen"@, "—"@).last())),
    ensures
        occurs(seen_text(items_of(r)[i]), listing(Listed::Issue, r, " issue(s) :\n"@, empty)),
{
    let items = items_of(r);
    let j = items[i];
    let n = seen_text(j);
    let h = dec_nat(items.len()) + " issue(s) :\n"@;
    let before = lines(Listed::Issue, items.take(i));
    let after = lines(Listed::Issue, items.skip(i + 1));
    let l = issue_upto_seen(j);
    lemma_lines_at(Listed::Issue, items, i);
    lemma_issue_text(j);
    lemma_regroup(h, before, l, "\n"@, after);
    let x = h + before + l;
    let s = "\n"@ + after;
    assert(h + lines(Listed::Issue, items) == x + s);
    if i + 1 < items.len() {
        let rest = items.skip(i + 1);
        let k = rest[0];
        lemma_lines_at(Listed::Issue, rest, 0);
        lemma_issue_text(k);
        let m = seen_text(k);
        lemma_occurs_prepend(m, lines(Listed::Issue, rest.take(0)), item_text(Listed::Issue, k));
        lemma_occurs_append(
            m,
            lines(Listed::Issue, rest.take(0)) + item_text(Listed::Issue, k),
            lines(Listed::Issue, rest.skip(1)),
        );
        lemma_occurs_prepend(m, "\n"@, after);
        lemma_non_ws_occurs(m, s);
    } else {
        assert(x.last() == l.last());
    }
    lemma_trim_end_ws_concat(x, s);
    lemma_occurs_prepend(n, h + before, l);
    lemma_occurs_append(n, x, trim_end_ws_spec(s));
}

/// Every issue that `sentry_list_issues` lists shows its `firstSeen` member after
/// `première fois: ` and its `lastSeen` member after `dernière fois: `. The listing drops its
/// trailing white space, so the last issue keeps its whole `lastSeen` only when it ends in
/// another character.
pub proof fn lemma_issues_show_first_and_last_seen(cfg: SentryConfig, args: Json, r: Json, i: int)
    requires
        args.at("org_slug"@).str_of() is Some,
        0 <= i < items_of(r).len(),
        i + 1 < items_of(r).len() || (str_or(items_of(r)[i], "lastSeen"@, "—"@).len() > 0
            && !is_white_space(str_or(items_of(r)[i], "lastSeen"@, "—"@).last())),
    ensures
        handle_view(cfg, "sentry_list_issues"@, args, seq![r]) matches StepView::Done(Ok(t)) && exists|
            p: Seq<char>,
            s: Seq<char>,
        |
            t == p + ("\n  première fois: "@ + str_or(items_of(r)[i], "firstSeen"@, "—"@)
                + " | dernière fois: "@ + str_or(items_of(r)[i], "lastSeen"@, "—"@)) + s,
{
    let org = args.at("org_slug"@).str_of().unwrap();
    lemma_list_issues_outcome(cfg, args, r, org);
    lemma_issue_listing_shows_seen(r, "Aucune issue dans l'organisation "@ + org + "."@, i);
}

/// The part of a listed tag value with its first and last sighting.
pub open spec fn tag_seen_text(j: Json) -> Seq<char> {
    " occurrences (première: "@ + str_or(j, "firstSeen"@, "—"@) + ", dernière: "@ + str_or(
        j,
        "lastSeen"@,
        "—"@,
    ) + ")"@
}

/// A listed tag value, before its line break.
pub open spec fn tag_upto_close(j: Json) -> Seq<char> {
    "• "@ + str_or(j, "value"@, "—"@) + " — "@ + u64_text_or(j, "count"@, "0"@)
        + " occurrences (première: "@ + str_or(j, "firstSeen"@, "—"@) + ", dernière: "@ + str_or(
        j,
        "lastSeen"@,
        "—"@,
    ) + ")"@
}

proof fn lemma_tag_value_listing_shows_seen(r: Json, header: Seq<char>, empty: Seq<char>, i: int)
    requires
        0 <= i < items_of(r).len(),
    ensures
        occurs(tag_seen_text(items_of(r)[i]), listing(Listed::TagValue, r, header, empty)),
{
    let items = items_of(r);
    let j = items[i];
    let n = tag_seen_text(j);
    let h = dec_nat(items.len()) + header;
    let before = lines(Listed::TagValue, items.take(i));
    let after = lines(Listed::TagValue, items.skip(i + 1));
    let l = tag_upto_close(j);
    lemma_lines_at(Listed::TagValue, items, i);
    let p0 = "• "@ + str_or(j, "value"@, "—"@) + " — "@ + u64_text_or(j, "count"@, "0"@)
        + " occurrences (première: "@ + str_or(j, "firstSeen"@, "—"@) + ", dernière: "@ + str_or(
        j,
        "lastSeen"@,
        "—"@,
    );
    reveal_strlit(")\n");
    reveal_strlit("\n");
    reveal_strlit(")");
    assert(")\n"@ =~= ")"@ + "\n"@);
    assert(item_text(Listed::TagValue, j) == p0 + ")\n"@);
    assert(p0 + ")\n"@ =~= p0 + ")"@ + "\n"@);
    assert(item_text(Listed::TagValue, j) == l + "\n"@);
    lemma_occurs_tail5(
        "• "@ + str_or(j, "value"@, "—"@) + " — "@ + u64_text_or(j, "count"@, "0"@),
        " occurrences (première: "@,
        str_or(j, "firstSeen"@, "—"@),
        ", dernière: "@,
        str_or(j, "lastSeen"@, "—"@),
        ")"@,
    );
    lemma_regroup(h, before, l, "\n"@, after);
    let x = h + before + l;
    let s = "\n"@ + after;
    assert(h + lines(Listed::TagValue, items) == x + s);
    assert(x.last() == l.last());
    assert(l.last() == ')');
    lemma_trim_end_ws_concat(x, s);
    lemma_occurs_prepend(n, h + before, l);
    lemma_occurs_append(n, x, trim_end_ws_spec(s));
}

/// Every value that `sentry_get_issue_tag_values` lists shows its `firstSeen` member after
/// `première: ` and its `lastSeen` member after `dernière: `.
pub proof fn lemma_tag_values_show_first_and_last_seen(cfg: SentryConfig, args: Json, r: Json, i: int)
    requires
        args.at("issue_id"@).str_of() is Some,
        args.at("tag"@).str_of() is Some,
        0 <= i < items_of(r).len(),
    ensures
        handle_view(cfg, "sentry_get_issue_tag_values"@, args, seq![r]) matches StepView::Done(Ok(t))
            && exists|p: Seq<char>, s: Seq<char>|
            t == p + (" occurrences (première: "@ + str_or(items_of(r)[i], "firstSeen"@, "—"@)
                + ", dernière: "@ + str_or(items_of(r)[i], "lastSeen"@, "—"@) + ")"@) + s,
{
    reveal_strlit("sentry_get_issue_tag_values");
    reveal_strlit("sentry_find_organizations");
    assert("sentry_find_organizations"@.len() == 25);
    reveal_strlit("sentry_find_projects");
    assert("sentry_find_projects"@.len() == 20);
    reveal_strlit("sentry_find_teams");
    assert("sentry_find_teams"@.len() == 17);
    reveal_strlit("sentry_find_releases");
    assert("sentry_find_releases"@.len() == 20);
    reveal_strlit("sentry_find_dsns");
    assert("sentry_find_dsns"@.len() == 16);
    reveal_strlit("sentry_list_issues");
    assert("sentry_list_issues"@.len() == 18);
    reveal_strlit("sentry_get_issue");
    assert("sentry_get_issue"@.len() == 16);
    reveal_strlit("sentry_list_issue_events");
    assert("sentry_list_issue_events"@.len() == 24);
    assert("sentry_get_issue_tag_values"@.len() == 27);
    let id = args.at("issue_id"@).str_of().unwrap();
    let tag = args.at("tag"@).str_of().unwrap();
    lemma_tag_value_listing_shows_seen(
        r,
        " valeur(s) pour le tag '"@ + tag + "' :\n"@,
        "Aucune valeur pour le tag '"@ + tag + "' de l'issue "@ + id + "."@,
        i,
    );
}

/// The part of a query after the limit, for one optional parameter.
pub open spec fn param_text(lead: Seq<char>, v: Option<Seq<char>>) -> Seq<char> {
    match v {
        Some(x) => lead + x,
        None => seq![],
    }
}

proof fn lemma_with_part_query(parts: Seq<Seq<char>>, lead: Seq<char>, v: Option<Seq<char>>)
    requires
        parts.len() > 0,
    ensures
        with_part(parts, lead, v).len() > 0,
        "?"@ + join_spec(with_part(parts, lead, v), "&"@) == "?"@ + join_spec(parts, "&"@) + param_text(
            "&"@ + lead,
            v,
        ),
{
    match v {
        Some(x) => {
            lemma_join_push(parts, "&"@, lead + x);
            assert("?"@ + (join_spec(parts, "&"@) + "&"@ + (lead + x)) =~= "?"@ + join_spec(parts, "&"@) + (
            "&"@ + lead + x));
        },
        None => {
            assert("?"@ + join_spec(parts, "&"@) + Seq::<char>::empty() =~= "?"@ + join_spec(parts, "&"@));
        },
    }
}

proof fn lemma_issue_query(args: Json)
    ensures
        query_of(issue_params(args)) == "?limit="@ + dec_nat(limit_of(args, 25)) + param_text(
            "&project="@,
            args.at("project_slug"@).str_of(),
        ) + param_text("&query="@, enc_opt(args.at("query"@).str_of())) + param_text(
            "&cursor="@,
            args.at("cursor"@).str_of(),
        ),
{
    let p0 = seq!["limit="@ + dec_nat(limit_of(args, 25))];
    let p1 = with_part(p0, "project="@, args.at("project_slug"@).str_of());
    let p2 = with_part(p1, "query="@, enc_opt(args.at("query"@).str_of()));
    let p3 = with_part(p2, "cursor="@, args.at("cursor"@).str_of());
    reveal_strlit("&");
    reveal_strlit("?");
    reveal_strlit("limit=");
    reveal_strlit("?limit=");
    reveal_strlit("project=");
    reveal_strlit("&project=");
    reveal_strlit("query=");
    reveal_strlit("&query=");
    reveal_strlit("cursor=");
    reveal_strlit("&cursor=");
    assert("&"@ + "project="@ =~= "&project="@);
    assert("&"@ + "query="@ =~= "&query="@);
    assert("&"@ + "cursor="@ =~= "&cursor="@);
    assert(join_spec(p0, "&"@) == "limit="@ + dec_nat(limit_of(args, 25)));
    assert("?"@ + join_spec(p0, "&"@) =~= "?limit="@ + dec_nat(limit_of(args, 25)));
    lemma_with_part_query(p0, "project="@, args.at("project_slug"@).str_of());
    lemma_with_part_query(p1, "query="@, enc_opt(args.at("query"@).str_of()));
    lemma_with_part_query(p2, "cursor="@, args.at("cursor"@).str_of());
}

proof fn lemma_list_issues_dispatch(cfg: SentryConfig, args: Json, org: Seq<char>)
    requires
        args.at("org_slug"@).str_of() == Some(org),
    ensures
        handle_view(cfg, "sentry_list_issues"@, args, seq![]) == send_view(
            Method::Get,
            api_of(cfg, "organizations/"@ + org + "/issues"@) + query_of(issue_params(args)),
            None,
        ),
{
    reveal_strlit("sentry_list_issues");
    reveal_strlit("sentry_find_organizations");
    assert("sentry_find_organizations"@.len() == 25);
    reveal_strlit("sentry_find_projects");
    assert("sentry_find_projects"@.len() == 20);
    reveal_strlit("sentry_find_teams");
    assert("sentry_find_teams"@.len() == 17);
    reveal_strlit("sentry_find_releases");
    assert("sentry_find_releases"@.len() == 20);
    reveal_strlit("sentry_find_dsns");
    assert("sentry_find_dsns"@.len() == 16);
    assert("sentry_list_issues"@.len() == 18);
}

/// `sentry_list_issues` reads the issues of the organization named by `org_slug`, `limit`
/// of them (25 by default, at most 100), narrowed to the project named by `project_slug`, to
/// the `query` argument (its delimiters escaped) and from the `cursor` argument, each when
/// given.
pub proof fn lemma_list_issues_request(cfg: SentryConfig, args: Json, org: Seq<char>)
    requires
        args.at("org_slug"@).str_of() == Some(org),
    ensures
        handle_view(cfg, "sentry_list_issues"@, args, seq![]) == send_view(
            Method::Get,
            api_of(cfg, "organizations/"@ + org + "/issues"@) + "?limit="@ + dec_nat(limit_of(args, 25))
                + match args.at("project_slug"@).str_of() {
                Some(p) => "&project="@ + p,
                None => seq![],
            } + match args.at("query"@).str_of() {
                Some(q) => "&query="@ + delimiter_escape_chars(q),
                None => seq![],
            } + match args.at("cursor"@).str_of() {
                Some(c) => "&cursor="@ + c,
                None => seq![],
            },
            None,
        ),
{
    lemma_list_issues_dispatch(cfg, args, org);
    lemma_issue_query(args);
    let api = api_of(cfg, "organizations/"@ + org + "/issues"@);
    let l0 = "?limit="@ + dec_nat(limit_of(args, 25));
    let e1 = param_text("&project="@, args.at("project_slug"@).str_of());
    let e2 = param_text("&query="@, enc_opt(args.at("query"@).str_of()));
    let e3 = param_text("&cursor="@, args.at("cursor"@).str_of());
    assert(api + (l0 + e1 + e2 + e3) =~= api + "?limit="@ + dec_nat(limit_of(args, 25)) + e1 + e2 + e3);
}

} // verus!
