//! Supabase connector (Management API v1).
use vstd::prelude::*;
use crate::connectors::catalog::{build_catalog, catalog_text, requires_properties, schema_view, texts, SchemaNames};
use vstd::utf8::encode_utf8;
use crate::fmt::{byte_len, byte_prefix, byte_prefix_spec, array_len_or_zero, cut, cut_exec, cut_ok, get_array_len_text, get_str_or, str_or};
use crate::http::{
    fail_view, fallible_view, no_content_view, ok_view, send, send_fallible, send_no_content, send_text,
    send_view, text_view, Method, Step, StepView,
};
use crate::json::{
    get_array, get_bool, get_str, get_u64, json_text, push_quoted, quoted, to_json_string, write_json, Json,
};
use crate::text::{
    dec_nat, owned, push_chars, push_str, push_u64, str_chars, str_eq, trim_end_ws, trim_end_ws_spec,
    trim_start_char, trim_start_spec,
};

verus! {

/// Supabase credentials (`~/.osmozzz/supabase.toml`).
pub struct SupabaseConfig {
    pub access_token: String,
    pub project_id: Option<String>,
}

/// The project a call is about: a non-empty `project_id` argument, else the configured one
/// when not empty, else none.
pub open spec fn resolved_project(args: Json, configured: Option<Seq<char>>) -> Option<Seq<char>> {
    match args.at("project_id"@).str_of() {
        Some(p) if p.len() > 0 => Some(p),
        _ => match configured {
            Some(c) if c.len() > 0 => Some(c),
            _ => None,
        },
    }
}

impl SupabaseConfig {
    /// The configured project id as text, when one is set.
    pub open spec fn project_view(&self) -> Option<Seq<char>> {
        match self.project_id {
            Some(p) => Some(p@),
            None => None,
        }
    }

    /// The Management API URL of `path`, whatever slashes it starts with.
    pub fn mgmt(&self, path: &str) -> (r: String)
        ensures
            r@ == "https://api.supabase.com/v1/"@ + trim_start_spec(path@, '/'),
    {
        Self::mgmt_of(path)
    }

    /// The Management API URL of `path`, whatever slashes it starts with.
    pub fn mgmt_of(path: &str) -> (r: String)
        ensures
            r@ == "https://api.supabase.com/v1/"@ + trim_start_spec(path@, '/'),
    {
        let mut out = owned("https://api.supabase.com/v1/");
        push_chars(&mut out, &trim_start_char(&str_chars(path), '/'));
        out
    }

    /// Resolves the project id from the arguments or the configuration.
    pub fn resolve_project<'a>(&'a self, args: &'a Json) -> (r: Result<&'a str, String>)
        ensures
            r matches Ok(p) ==> resolved_project(*args, self.project_view()) == Some(p@),
            r is Err <==> resolved_project(*args, self.project_view()) is None,
            r matches Err(e) ==> e@
                == "project_id requis — fournir en argument ou configurer dans supabase.toml"@,
    {
        if let Some(pid) = get_str(args, "project_id") {
            if !pid.is_empty() {
                return Ok(pid);
            }
        }
        match &self.project_id {
            Some(p) => {
                if !p.as_str().is_empty() {
                    return Ok(p.as_str());
                }
            },
            None => {},
        }
        Err(owned("project_id requis — fournir en argument ou configurer dans supabase.toml"))
    }
}


// ─── Tool calls ──────────────────────────────────────────────────────────────

/// The Management API URL of `path` (see [`SupabaseConfig::mgmt`]).
pub open spec fn mgmt_url(path: Seq<char>) -> Seq<char> {
    "https://api.supabase.com/v1/"@ + trim_start_spec(path, '/')
}

/// The error when no project is given or configured.
pub open spec fn project_error() -> Seq<char> {
    "project_id requis — fournir en argument ou configurer dans supabase.toml"@
}

/// A tool that makes one request: the request, then the outcome rendered from its response.
pub open spec fn one_call(req: StepView, rs: Seq<Json>, text: spec_fn(Json) -> Seq<char>) -> StepView {
    if rs.len() == 0 {
        req
    } else {
        ok_view(text(rs[0]))
    }
}

/// The error for a missing argument.
pub open spec fn required_text(key: Seq<char>) -> Seq<char> {
    "Paramètre '"@ + key + "' requis"@
}

fn required(key: &str) -> (s: Step)
    ensures
        s@ == fail_view(required_text(key@)),
{
    let mut e = owned("Paramètre '");
    push_str(&mut e, key);
    push_str(&mut e, "' requis");
    Step::Done(Err(e))
}

fn ok_text(t: String) -> (s: Step)
    ensures
        s@ == ok_view(t@),
{
    Step::Done(Ok(t))
}

fn concat(a: &str, b: &str) -> (r: String)
    ensures
        r@ == a@ + b@,
{
    let mut r = owned(a);
    push_str(&mut r, b);
    r
}

fn concat3(a: &str, b: &str, c: &str) -> (r: String)
    ensures
        r@ == a@ + b@ + c@,
{
    let mut r = owned(a);
    push_str(&mut r, b);
    push_str(&mut r, c);
    r
}

/// `lead` and the value, or nothing.
pub open spec fn opt_suffix(lead: Seq<char>, v: Option<Seq<char>>) -> Seq<char> {
    match v {
        Some(x) => lead + x,
        None => seq![],
    }
}

fn push_opt(out: &mut String, lead: &str, v: Option<&str>)
    ensures
        final(out)@ == old(out)@ + opt_suffix(
            lead@,
            match v {
                Some(x) => Some(x@),
                None => None,
            },
        ),
{
    match v {
        Some(x) => {
            push_str(out, lead);
            push_str(out, x);
        },
        None => {},
    }
}

/// A boolean member, `d` when it is not one.
pub open spec fn flag_or(j: Json, key: Seq<char>, d: bool) -> bool {
    match j.at(key).bool_of() {
        Some(b) => b,
        None => d,
    }
}

fn get_flag_or(j: &Json, key: &str, d: bool) -> (b: bool)
    ensures
        b == flag_or(*j, key@, d),
{
    match get_bool(j, key) {
        Some(b) => b,
        None => d,
    }
}

/// The timestamp of a log entry: its `timestamp`, else its message, else `—`.
pub open spec fn log_time(e: Json) -> Seq<char> {
    match e.at("timestamp"@).str_of() {
        Some(t) => t,
        None => str_or(e, "event_message"@, "—"@),
    }
}

/// The message of a log entry: its `event_message`, else its `message`, else `(vide)`.
pub open spec fn log_message(e: Json) -> Seq<char> {
    match e.at("event_message"@).str_of() {
        Some(m) => m,
        None => str_or(e, "message"@, "(vide)"@),
    }
}

/// The kinds of listed items.
#[derive(Clone, Copy)]
pub enum Listed {
    Project,
    Organization,
    Table,
    Extension,
    Migration,
    Key,
    Advisor,
    Function,
    Branch,
    Bucket,
    LogEntry,
}

/// One listed item, with its line break.
pub open spec fn item_text(kind: Listed, j: Json) -> Seq<char> {
    let id = str_or(j, "id"@, "—"@);
    let name = str_or(j, "name"@, "—"@);
    match kind {
        Listed::Project => "• ["@ + id + "] "@ + name + " — région: "@ + str_or(j, "region"@, "—"@) + " — statut: "@
            + str_or(j, "status"@, "—"@) + " — org: "@ + str_or(j, "organization_id"@, "—"@) + "\n"@,
        Listed::Organization => "• ["@ + id + "] "@ + name + " — billing: "@ + str_or(j, "billing_email"@, "—"@)
            + "\n"@,
        Listed::Table => "• "@ + str_or(j, "schema"@, "public"@) + "."@ + name + " ("@ + dec_nat(
            array_len_or_zero(j, "columns"@),
        ) + " colonnes)\n"@,
        Listed::Extension => "• "@ + name + " ["@ + (if j.at("installed_version"@) is Null {
            "inactive"@
        } else {
            "active"@
        }) + "] — installée: "@ + str_or(j, "installed_version"@, "non installée"@) + " — défaut: "@ + str_or(
            j,
            "default_version"@,
            "—"@,
        ) + "\n"@,
        Listed::Migration => "• ["@ + str_or(j, "version"@, "—"@) + "] "@ + name + "\n"@,
        Listed::Key => "• "@ + name + " : "@ + str_or(j, "api_key"@, "—"@) + "\n"@,
        Listed::Advisor => {
            let detail = str_or(j, "description"@, ""@);
            "• ["@ + str_or(j, "level"@, "info"@) + "] "@ + name + " — "@ + str_or(j, "title"@, "—"@) + (if detail.len()
                > 0 {
                "\n  "@ + cut(detail, 120)
            } else {
                seq![]
            }) + "\n"@
        },
        Listed::Function => "• "@ + str_or(j, "slug"@, "—"@) + " ["@ + str_or(j, "status"@, "—"@) + "] — mis à jour: "@
            + str_or(j, "updated_at"@, "—"@) + "\n"@,
        Listed::Branch => "• ["@ + id + "] "@ + name + " ["@ + str_or(j, "status"@, "—"@) + "] — git: "@ + str_or(
            j,
            "git_branch"@,
            "—"@,
        ) + "\n"@,
        Listed::Bucket => "• "@ + name + " — "@ + (if flag_or(j, "public"@, false) {
            "public"@
        } else {
            "privé"@
        }) + " — "@ + match j.at("file_size_limit"@).u64_of() {
            Some(s) => dec_nat(s as nat) + " bytes max"@,
            None => "illimité"@,
        } + "\n"@,
        Listed::LogEntry => "["@ + log_time(j) + "] "@ + cut(log_message(j), 200) + "\n"@,
    }
}

/// An item can be listed: the texts cut for their preview end on a character.
pub open spec fn item_ok(kind: Listed, j: Json) -> bool {
    &&& kind == Listed::Advisor ==> cut_ok(str_or(j, "description"@, ""@), 120)
    &&& kind == Listed::LogEntry ==> cut_ok(log_message(j), 200)
}

fn format_item(kind: Listed, j: &Json) -> (r: String)
    requires
        item_ok(kind, *j),
    ensures
        r@ == item_text(kind, *j),
{
    let id = get_str_or(j, "id", "—");
    let name = get_str_or(j, "name", "—");
    let mut out = String::new();
    match kind {
        Listed::Project => {
            push_str(&mut out, "• [");
            push_str(&mut out, id);
            push_str(&mut out, "] ");
            push_str(&mut out, name);
            push_str(&mut out, " — région: ");
            push_str(&mut out, get_str_or(j, "region", "—"));
            push_str(&mut out, " — statut: ");
            push_str(&mut out, get_str_or(j, "status", "—"));
            push_str(&mut out, " — org: ");
            push_str(&mut out, get_str_or(j, "organization_id", "—"));
            push_str(&mut out, "\n");
            assert(out@ =~= item_text(kind, *j));
        },
        Listed::Organization => {
            push_str(&mut out, "• [");
            push_str(&mut out, id);
            push_str(&mut out, "] ");
            push_str(&mut out, name);
            push_str(&mut out, " — billing: ");
            push_str(&mut out, get_str_or(j, "billing_email", "—"));
            push_str(&mut out, "\n");
            assert(out@ =~= item_text(kind, *j));
        },
        Listed::Table => {
            push_str(&mut out, "• ");
            push_str(&mut out, get_str_or(j, "schema", "public"));
            push_str(&mut out, ".");
            push_str(&mut out, name);
            push_str(&mut out, " (");
            push_str(&mut out, get_array_len_text(j, "columns").as_str());
            push_str(&mut out, " colonnes)\n");
            assert(out@ =~= item_text(kind, *j));
        },
        Listed::Extension => {
            let installed = match j.get("installed_version") {
                Some(v) => match v {
                    Json::Null => false,
                    _ => true,
                },
                None => false,
            };
            push_str(&mut out, "• ");
            push_str(&mut out, name);
            push_str(&mut out, " [");
            push_str(&mut out, if installed { "active" } else { "inactive" });
            push_str(&mut out, "] — installée: ");
            push_str(&mut out, get_str_or(j, "installed_version", "non installée"));
            push_str(&mut out, " — défaut: ");
            push_str(&mut out, get_str_or(j, "default_version", "—"));
            push_str(&mut out, "\n");
            assert(out@ =~= item_text(kind, *j));
        },
        Listed::Migration => {
            push_str(&mut out, "• [");
            push_str(&mut out, get_str_or(j, "version", "—"));
            push_str(&mut out, "] ");
            push_str(&mut out, name);
            push_str(&mut out, "\n");
            assert(out@ =~= item_text(kind, *j));
        },
        Listed::Key => {
            push_str(&mut out, "• ");
            push_str(&mut out, name);
            push_str(&mut out, " : ");
            push_str(&mut out, get_str_or(j, "api_key", "—"));
            push_str(&mut out, "\n");
            assert(out@ =~= item_text(kind, *j));
        },
        Listed::Advisor => {
            let detail = get_str_or(j, "description", "");
            push_str(&mut out, "• [");
            push_str(&mut out, get_str_or(j, "level", "info"));
            push_str(&mut out, "] ");
            push_str(&mut out, name);
            push_str(&mut out, " — ");
            push_str(&mut out, get_str_or(j, "title", "—"));
            if !detail.is_empty() {
                push_str(&mut out, "\n  ");
                push_str(&mut out, cut_exec(detail, 120));
            }
            push_str(&mut out, "\n");
            assert(out@ =~= item_text(kind, *j));
        },
        Listed::Function => {
            push_str(&mut out, "• ");
            push_str(&mut out, get_str_or(j, "slug", "—"));
            push_str(&mut out, " [");
            push_str(&mut out, get_str_or(j, "status", "—"));
            push_str(&mut out, "] — mis à jour: ");
            push_str(&mut out, get_str_or(j, "updated_at", "—"));
            push_str(&mut out, "\n");
            assert(out@ =~= item_text(kind, *j));
        },
        Listed::Branch => {
            push_str(&mut out, "• [");
            push_str(&mut out, id);
            push_str(&mut out, "] ");
            push_str(&mut out, name);
            push_str(&mut out, " [");
            push_str(&mut out, get_str_or(j, "status", "—"));
            push_str(&mut out, "] — git: ");
            push_str(&mut out, get_str_or(j, "git_branch", "—"));
            push_str(&mut out, "\n");
            assert(out@ =~= item_text(kind, *j));
        },
        Listed::Bucket => {
            push_str(&mut out, "• ");
            push_str(&mut out, name);
            push_str(&mut out, " — ");
            push_str(&mut out, if get_flag_or(j, "public", false) { "public" } else { "privé" });
            push_str(&mut out, " — ");
            match get_u64(j, "file_size_limit") {
                Some(s) => {
                    push_u64(&mut out, s);
                    push_str(&mut out, " bytes max");
                },
                None => push_str(&mut out, "illimité"),
            }
            push_str(&mut out, "\n");
            assert(out@ =~= item_text(kind, *j));
        },
        Listed::LogEntry => {
            let ts = match get_str(j, "timestamp") {
                Some(t) => t,
                None => get_str_or(j, "event_message", "—"),
            };
            let msg = match get_str(j, "event_message") {
                Some(m) => m,
                None => get_str_or(j, "message", "(vide)"),
            };
            push_str(&mut out, "[");
            push_str(&mut out, ts);
            push_str(&mut out, "] ");
            push_str(&mut out, cut_exec(msg, 200));
            push_str(&mut out, "\n");
            assert(out@ =~= item_text(kind, *j));
        },
    }
    out
}

/// The items' texts, one after the other.
pub open spec fn lines(kind: Listed, items: Seq<Json>) -> Seq<char>
    decreases items.len(),
{
    if items.len() == 0 {
        seq![]
    } else {
        lines(kind, items.drop_last()) + item_text(kind, items.last())
    }
}

/// Every item can be listed.
pub open spec fn all_ok(kind: Listed, items: Seq<Json>) -> bool {
    forall|i: int| 0 <= i < items.len() ==> #[trigger] item_ok(kind, items[i])
}

/// The items of a list response, which is an array (none when it is not).
pub open spec fn items_of(r: Json) -> Seq<Json> {
    match r.array_of() {
        Some(a) => a,
        None => seq![],
    }
}

/// Items listed: `empty` when there are none, else `head`, the items and `tail`, without
/// trailing white space.
pub open spec fn listed(kind: Listed, items: Seq<Json>, head: Seq<char>, tail: Seq<char>, empty: Seq<char>) -> Seq<char> {
    if items.len() == 0 {
        empty
    } else {
        trim_end_ws_spec(head + lines(kind, items) + tail)
    }
}

fn listed_exec(kind: Listed, items: &Vec<Json>, head: &str, tail: &str, empty: &str) -> (t: String)
    requires
        all_ok(kind, items@),
    ensures
        t@ == listed(kind, items@, head@, tail@, empty@),
{
    let n = items.len();
    if n == 0 {
        return owned(empty);
    }
    let mut out = owned(head);
    for i in 0..n
        invariant
            n == items@.len(),
            all_ok(kind, items@),
            out@ == head@ + lines(kind, items@.take(i as int)),
    {
        assert(items@.take(i + 1).drop_last() == items@.take(i as int));
        assert(items@.take(i + 1).last() == items@[i as int]);
        assert(item_ok(kind, items@[i as int]));
        push_str(&mut out, format_item(kind, &items[i]).as_str());
    }
    assert(items@.take(n as int) == items@);
    push_str(&mut out, tail);
    trim_end_ws(out.as_str())
}

/// A list response with its count before `header`.
pub open spec fn listing(kind: Listed, r: Json, header: Seq<char>, empty: Seq<char>) -> Seq<char> {
    listed(kind, items_of(r), dec_nat(items_of(r).len()) + header, seq![], empty)
}

fn listing_exec(kind: Listed, r: &Json, header: &str, empty: &str) -> (t: String)
    requires
        all_ok(kind, items_of(*r)),
    ensures
        t@ == listing(kind, *r, header@, empty@),
{
    let none: Vec<Json> = Vec::new();
    let items = match r.as_array() {
        Some(a) => a,
        None => &none,
    };
    assert(items@ =~= items_of(*r));
    let mut head = String::new();
    push_u64(&mut head, items.len() as u64);
    push_str(&mut head, header);
    let t = listed_exec(kind, items, head.as_str(), "", empty);
    assert(""@ =~= Seq::<char>::empty()) by {
        reveal_strlit("");
    }
    t
}


/// A `GET` of a Management API path.
pub open spec fn get_view(path: Seq<char>) -> StepView {
    send_view(Method::Get, mgmt_url(path), None)
}

/// A tool about the resolved project.
pub open spec fn project_tool(cfg: SupabaseConfig, args: Json, f: spec_fn(Seq<char>) -> StepView) -> StepView {
    match resolved_project(args, cfg.project_view()) {
        None => fail_view(project_error()),
        Some(pid) => f(pid),
    }
}

/// `supabase_get_project`.
pub open spec fn project_text(pid: Seq<char>, r: Json) -> Seq<char> {
    let id = str_or(r, "id"@, pid);
    "Projet "@ + id + "\nNom          : "@ + str_or(r, "name"@, "—"@) + "\nRégion       : "@ + str_or(r, "region"@, "—"@)
        + "\nStatut       : "@ + str_or(r, "status"@, "—"@) + "\nOrganisation : "@ + str_or(
        r,
        "organization_id"@,
        "—"@,
    ) + "\nPlan         : "@ + str_or(r, "subscription_id"@, "—"@) + "\nURL          : https://"@ + id
        + ".supabase.co"@
}

/// The body of `supabase_create_project`, members in name order.
pub open spec fn create_project_body(args: Json, org: Seq<char>, name: Seq<char>, pass: Seq<char>) -> Seq<char> {
    "{\"db_pass\":"@ + quoted(pass) + ",\"name\":"@ + quoted(name) + ",\"organization_id\":"@ + quoted(org)
        + match args.at("region"@).str_of() {
        Some(r) => ",\"region\":"@ + quoted(r),
        None => seq![],
    } + "}"@
}

pub open spec fn create_project_view(args: Json, rs: Seq<Json>) -> StepView {
    match args.at("org_id"@).str_of() {
        None => fail_view(required_text("org_id"@)),
        Some(org) => match args.at("name"@).str_of() {
            None => fail_view(required_text("name"@)),
            Some(name) => match args.at("db_pass"@).str_of() {
                None => fail_view(required_text("db_pass"@)),
                Some(pass) => one_call(
                    send_view(Method::Post, mgmt_url("projects"@), Some(create_project_body(args, org, name, pass))),
                    rs,
                    |r: Json|
                        "Projet créé.\nID     : "@ + str_or(r, "id"@, "—"@) + "\nNom    : "@ + name + "\nStatut : "@
                            + str_or(r, "status"@, "—"@) + "\nURL    : https://"@ + str_or(r, "id"@, "—"@)
                            + ".supabase.co"@,
                ),
            },
        },
    }
}

/// A project or branch action answered with its status.
pub open spec fn action_view(path: Seq<char>, rs: Seq<Json>, lead: Seq<char>, d: Seq<char>) -> StepView {
    one_call(
        no_content_view(Method::Post, mgmt_url(path), None),
        rs,
        |r: Json| lead + "\nStatut : "@ + str_or(r, "status"@, d),
    )
}

/// The rows of an SQL result, numbered from 0, the first `k` of them.
pub open spec fn row_lines(rows: Seq<Json>, k: nat) -> Seq<char>
    decreases k,
{
    if k == 0 {
        seq![]
    } else {
        row_lines(rows, (k - 1) as nat) + "  ["@ + dec_nat((k - 1) as nat) + "] "@ + json_text(rows[k - 1])
            + "\n"@
    }
}

/// The outcome of `supabase_execute_sql`: an error message, or the first 50 rows.
pub open spec fn sql_outcome(query: Seq<char>, r: Json) -> StepView {
    match r.at("message"@).str_of() {
        Some(e) => fail_view("Erreur SQL : "@ + e),
        None => {
            let rows = items_of(r);
            if rows.len() == 0 {
                ok_view("Requête exécutée avec succès (0 ligne retournée).\nSQL : "@ + query)
            } else {
                ok_view(
                    trim_end_ws_spec(
                        dec_nat(rows.len()) + " ligne(s) :\n"@ + row_lines(
                            rows,
                            if rows.len() > 50 {
                                50
                            } else {
                                rows.len()
                            },
                        ) + if rows.len() > 50 {
                            "  … ("@ + dec_nat((rows.len() - 50) as nat) + " lignes supplémentaires tronquées)\n"@
                        } else {
                            seq![]
                        },
                    ),
                )
            }
        },
    }
}

/// `supabase_get_edge_function`.
pub open spec fn function_text(pid: Seq<char>, slug: Seq<char>, r: Json) -> Seq<char> {
    "Edge Function "@ + slug + "\nID           : "@ + str_or(r, "id"@, "—"@) + "\nNom          : "@ + str_or(
        r,
        "name"@,
        slug,
    ) + "\nStatut       : "@ + str_or(r, "status"@, "—"@) + "\nVerify JWT   : "@ + json_text(
        Json::Bool(flag_or(r, "verify_jwt"@, true)),
    ) + "\nCréée le     : "@ + str_or(r, "created_at"@, "—"@) + "\nMise à jour  : "@ + str_or(
        r,
        "updated_at"@,
        "—"@,
    ) + "\nURL          : https://"@ + pid + ".supabase.co/functions/v1/"@ + slug
}

/// The body of `supabase_deploy_edge_function`, members in name order.
pub open spec fn deploy_body(args: Json, name: Seq<char>, code: Seq<char>) -> Seq<char> {
    "{\"body\":"@ + quoted(code) + ",\"name\":"@ + quoted(name) + ",\"slug\":"@ + quoted(name) + ",\"verify_jwt\":"@
        + json_text(Json::Bool(flag_or(args, "verify_jwt"@, true))) + "}"@
}

/// The reply to a request whose outcome is only tried: the element of a one-element array
/// (none when the request failed).
pub open spec fn tried_reply(r: Json) -> Option<Json> {
    match r.array_of() {
        Some(a) => if a.len() == 1 {
            Some(a[0])
        } else {
            None
        },
        None => None,
    }
}

/// The update of a function failed: no reply, or one with an error message.
pub open spec fn update_failed(r: Json) -> bool {
    match tried_reply(r) {
        Some(reply) => reply.at("message"@) is Str,
        None => true,
    }
}

/// A deployed function.
pub open spec fn deployed_text(pid: Seq<char>, name: Seq<char>, r: Json) -> Seq<char> {
    let slug = str_or(r, "slug"@, name);
    "Edge Function déployée.\nSlug   : "@ + slug + "\nStatut : "@ + str_or(r, "status"@, "déployée"@)
        + "\nURL    : https://"@ + pid + ".supabase.co/functions/v1/"@ + slug
}

/// `supabase_deploy_edge_function`: an update of the function, then its creation when the
/// update failed.
pub open spec fn deploy_view(cfg: SupabaseConfig, args: Json, rs: Seq<Json>) -> StepView {
    match resolved_project(args, cfg.project_view()) {
        None => fail_view(project_error()),
        Some(pid) => match args.at("name"@).str_of() {
            None => fail_view(required_text("name"@)),
            Some(name) => match args.at("body_code"@).str_of() {
                None => fail_view(required_text("body_code"@)),
                Some(code) => if rs.len() == 0 {
                    fallible_view(
                        Method::Put,
                        mgmt_url("projects/"@ + pid + "/functions/"@ + name),
                        deploy_body(args, name, code),
                    )
                } else if !update_failed(rs[0]) {
                    ok_view(deployed_text(pid, name, tried_reply(rs[0]).unwrap()))
                } else if rs.len() == 1 {
                    send_view(
                        Method::Post,
                        mgmt_url("projects/"@ + pid + "/functions"@),
                        Some(deploy_body(args, name, code)),
                    )
                } else {
                    ok_view(deployed_text(pid, name, rs[1]))
                },
            },
        },
    }
}

/// The text of a response read as text.
pub open spec fn text_of(r: Json) -> Seq<char> {
    match r.str_of() {
        Some(t) => t,
        None => seq![],
    }
}

/// Generated types, cut after 2000 bytes with the count of the bytes left out.
pub open spec fn types_preview(t: Seq<char>) -> Seq<char> {
    let n = encode_utf8(t).len();
    if n > 2000 {
        byte_prefix_spec(t, 2000) + "\n\n… ("@ + dec_nat((n - 2000) as nat)
            + " caractères supplémentaires tronqués pour l'affichage)"@
    } else {
        t
    }
}

/// The entries of a log response: its `data` array, else the response itself as an array.
pub open spec fn log_entries(r: Json) -> Seq<Json> {
    match r.at("data"@).array_of() {
        Some(a) => a,
        None => items_of(r),
    }
}

/// A log limit: 100 by default, at most 500.
pub open spec fn log_limit(args: Json) -> nat {
    let n: nat = match args.at("limit"@).u64_of() {
        Some(n) => n as nat,
        None => 100,
    };
    if n > 500 {
        500
    } else {
        n
    }
}

pub open spec fn logs_view(cfg: SupabaseConfig, args: Json, rs: Seq<Json>) -> StepView {
    match resolved_project(args, cfg.project_view()) {
        None => fail_view(project_error()),
        Some(pid) => match args.at("service"@).str_of() {
            None => fail_view("Paramètre 'service' requis (api | postgres | edge-functions | storage)"@),
            Some(service) => one_call(
                send_view(
                    Method::Get,
                    mgmt_url("projects/"@ + pid + "/logs?service="@ + service + "&limit="@ + dec_nat(log_limit(args)))
                        + opt_suffix("&cursor="@, args.at("cursor"@).str_of()),
                    None,
                ),
                rs,
                |r: Json|
                    listed(
                        Listed::LogEntry,
                        log_entries(r),
                        dec_nat(log_entries(r).len()) + " entrée(s) de log ["@ + service + "] pour "@ + pid + " :\n"@,
                        opt_suffix("\nCurseur suivant : "@, r.at("next_cursor"@).str_of()),
                        "Aucun log "@ + service + " dans le projet "@ + pid + "."@,
                    ),
            ),
        },
    }
}

/// The body of `supabase_create_branch`, members in name order.
pub open spec fn branch_body(args: Json, name: Seq<char>) -> Seq<char> {
    "{\"branch_name\":"@ + quoted(name) + match args.at("git_branch"@).str_of() {
        Some(g) => ",\"git_branch\":"@ + quoted(g),
        None => seq![],
    } + "}"@
}

/// The body of `supabase_reset_branch`.
pub open spec fn reset_body(args: Json) -> Seq<char> {
    "{"@ + match args.at("migration_version"@).str_of() {
        Some(v) => "\"migration_version\":"@ + quoted(v),
        None => seq![],
    } + "}"@
}

/// A tool about a branch.
pub open spec fn branch_tool(args: Json, f: spec_fn(Seq<char>) -> StepView) -> StepView {
    match args.at("branch_id"@).str_of() {
        None => fail_view(required_text("branch_id"@)),
        Some(id) => f(id),
    }
}

/// `supabase_confirm_cost`.
pub open spec fn confirm_view(args: Json) -> StepView {
    match args.at("org_id"@).str_of() {
        None => fail_view(required_text("org_id"@)),
        Some(org) => match args.at("confirm"@).bool_of() {
            None => fail_view(required_text("confirm"@)),
            Some(c) => if !c {
                ok_view("Coût refusé. L'opération n'a pas été effectuée."@)
            } else {
                ok_view(
                    "Coût confirmé pour l'organisation "@ + org
                        + ".\nVous pouvez maintenant procéder à l'opération payante."@,
                )
            },
        },
    }
}


pub open spec fn get_project_view(cfg: SupabaseConfig, args: Json, rs: Seq<Json>) -> StepView {
    project_tool(cfg, args, |pid: Seq<char>| one_call(get_view("projects/"@ + pid), rs, |r: Json| project_text(pid, r)))
}

pub open spec fn pause_view(cfg: SupabaseConfig, args: Json, rs: Seq<Json>) -> StepView {
    project_tool(
        cfg,
        args,
        |pid: Seq<char>|
            action_view("projects/"@ + pid + "/pause"@, rs, "Projet "@ + pid + " mis en pause."@, "pause en cours"@),
    )
}

pub open spec fn restore_view(cfg: SupabaseConfig, args: Json, rs: Seq<Json>) -> StepView {
    project_tool(
        cfg,
        args,
        |pid: Seq<char>|
            action_view(
                "projects/"@ + pid + "/restore"@,
                rs,
                "Projet "@ + pid + " restauré."@,
                "restauration en cours"@,
            ),
    )
}

pub open spec fn get_org_view(args: Json, rs: Seq<Json>) -> StepView {
    match args.at("org_id"@).str_of() {
        None => fail_view(required_text("org_id"@)),
        Some(org) => one_call(
            get_view("organizations/"@ + org),
            rs,
            |r: Json|
                "Organisation "@ + str_or(r, "id"@, org) + "\nNom           : "@ + str_or(r, "name"@, "—"@)
                    + "\nEmail billing : "@ + str_or(r, "billing_email"@, "—"@),
        ),
    }
}

pub open spec fn tables_view(cfg: SupabaseConfig, args: Json, rs: Seq<Json>) -> StepView {
    project_tool(
        cfg,
        args,
        |pid: Seq<char>|
            one_call(
                send_view(
                    Method::Get,
                    mgmt_url("projects/"@ + pid + "/database/tables"@) + opt_suffix(
                        "?included_schemas="@,
                        args.at("schemas"@).str_of(),
                    ),
                    None,
                ),
                rs,
                |r: Json|
                    listing(
                        Listed::Table,
                        r,
                        " table(s) dans "@ + pid + " :\n"@,
                        "Aucune table trouvée dans le projet "@ + pid + "."@,
                    ),
            ),
    )
}

/// A listing of a project resource at `projects/<pid>/<sub>`.
pub open spec fn project_listing(
    cfg: SupabaseConfig,
    args: Json,
    rs: Seq<Json>,
    sub: Seq<char>,
    kind: Listed,
    header: Seq<char>,
    empty: Seq<char>,
) -> StepView {
    project_tool(
        cfg,
        args,
        |pid: Seq<char>|
            one_call(
                get_view("projects/"@ + pid + sub),
                rs,
                |r: Json| listing(kind, r, header, empty + pid + "."@),
            ),
    )
}

pub open spec fn apply_view(cfg: SupabaseConfig, args: Json, rs: Seq<Json>) -> StepView {
    project_tool(
        cfg,
        args,
        |pid: Seq<char>|
            match args.at("name"@).str_of() {
                None => fail_view(required_text("name"@)),
                Some(name) => match args.at("query"@).str_of() {
                    None => fail_view(required_text("query"@)),
                    Some(q) => one_call(
                        send_view(
                            Method::Post,
                            mgmt_url("projects/"@ + pid + "/database/migrations"@),
                            Some("{\"name\":"@ + quoted(name) + ",\"query\":"@ + quoted(q) + "}"@),
                        ),
                        rs,
                        |r: Json|
                            "Migration appliquée.\nNom     : "@ + name + "\nVersion : "@ + str_or(r, "version"@, "—"@)
                                + "\nProjet  : "@ + pid,
                    ),
                },
            },
    )
}

pub open spec fn sql_view(cfg: SupabaseConfig, args: Json, rs: Seq<Json>) -> StepView {
    project_tool(
        cfg,
        args,
        |pid: Seq<char>|
            match args.at("query"@).str_of() {
                None => fail_view(required_text("query"@)),
                Some(q) => if rs.len() == 0 {
                    send_view(
                        Method::Post,
                        mgmt_url("projects/"@ + pid + "/database/query"@),
                        Some("{\"query\":"@ + quoted(q) + "}"@),
                    )
                } else {
                    sql_outcome(q, rs[0])
                },
            },
    )
}

pub open spec fn keys_view(cfg: SupabaseConfig, args: Json, rs: Seq<Json>) -> StepView {
    project_tool(
        cfg,
        args,
        |pid: Seq<char>|
            one_call(
                get_view("projects/"@ + pid + "/api-keys"@),
                rs,
                |r: Json|
                    listed(
                        Listed::Key,
                        items_of(r),
                        "Clés API du projet "@ + pid + " :\n"@,
                        seq![],
                        "Aucune clé API trouvée pour le projet "@ + pid + "."@,
                    ),
            ),
    )
}

pub open spec fn advisors_view(cfg: SupabaseConfig, args: Json, rs: Seq<Json>) -> StepView {
    project_tool(
        cfg,
        args,
        |pid: Seq<char>|
            {
                let t = str_or(args, "advisor_type"@, "security"@);
                one_call(
                    get_view("projects/"@ + pid + "/advisors/"@ + t),
                    rs,
                    |r: Json|
                        listing(
                            Listed::Advisor,
                            r,
                            " recommandation(s) "@ + t + " pour "@ + pid + " :\n"@,
                            "Aucune recommandation "@ + t + " pour le projet "@ + pid + "."@,
                        ),
                )
            },
    )
}

pub open spec fn function_view(cfg: SupabaseConfig, args: Json, rs: Seq<Json>) -> StepView {
    project_tool(
        cfg,
        args,
        |pid: Seq<char>|
            match args.at("function_slug"@).str_of() {
                None => fail_view(required_text("function_slug"@)),
                Some(slug) => one_call(
                    get_view("projects/"@ + pid + "/functions/"@ + slug),
                    rs,
                    |r: Json| function_text(pid, slug, r),
                ),
            },
    )
}

pub open spec fn types_view(cfg: SupabaseConfig, args: Json, rs: Seq<Json>) -> StepView {
    project_tool(
        cfg,
        args,
        |pid: Seq<char>|
            one_call(
                text_view(
                    mgmt_url("projects/"@ + pid + "/types/typescript"@) + opt_suffix(
                        "?included_schemas="@,
                        args.at("schemas"@).str_of(),
                    ),
                ),
                rs,
                |r: Json| "Types TypeScript pour le projet "@ + pid + " :\n\n"@ + types_preview(text_of(r)),
            ),
    )
}

pub open spec fn create_branch_view(cfg: SupabaseConfig, args: Json, rs: Seq<Json>) -> StepView {
    project_tool(
        cfg,
        args,
        |pid: Seq<char>|
            match args.at("branch_name"@).str_of() {
                None => fail_view(required_text("branch_name"@)),
                Some(name) => one_call(
                    send_view(Method::Post, mgmt_url("projects/"@ + pid + "/branches"@), Some(branch_body(args, name))),
                    rs,
                    |r: Json|
                        "Branch créée.\nID      : "@ + str_or(r, "id"@, "—"@) + "\nNom     : "@ + name + "\nStatut  : "@
                            + str_or(r, "status"@, "—"@) + "\nProjet  : "@ + pid,
                ),
            },
    )
}

pub open spec fn delete_branch_view(args: Json, rs: Seq<Json>) -> StepView {
    branch_tool(
        args,
        |id: Seq<char>|
            one_call(
                no_content_view(Method::Delete, mgmt_url("branches/"@ + id), None),
                rs,
                |r: Json| "Branch "@ + id + " supprimée."@,
            ),
    )
}

pub open spec fn reset_view(args: Json, rs: Seq<Json>) -> StepView {
    branch_tool(
        args,
        |id: Seq<char>|
            one_call(
                send_view(Method::Post, mgmt_url("branches/"@ + id + "/reset"@), Some(reset_body(args))),
                rs,
                |r: Json| "Branch "@ + id + " réinitialisée.\nStatut : "@ + str_or(r, "status"@, "réinitialisation en cours"@),
            ),
    )
}

pub open spec fn buckets_view(cfg: SupabaseConfig, args: Json, rs: Seq<Json>) -> StepView {
    project_tool(
        cfg,
        args,
        |pid: Seq<char>|
            one_call(
                send_view(Method::Get, "https://"@ + pid + ".supabase.co/storage/v1/bucket"@, None),
                rs,
                |r: Json|
                    listing(
                        Listed::Bucket,
                        r,
                        " bucket(s) :\n"@,
                        "Aucun bucket Storage dans le projet "@ + pid + "."@,
                    ),
            ),
    )
}

pub open spec fn storage_view(cfg: SupabaseConfig, args: Json, rs: Seq<Json>) -> StepView {
    project_tool(
        cfg,
        args,
        |pid: Seq<char>|
            one_call(
                get_view("projects/"@ + pid + "/config/storage"@),
                rs,
                |r: Json|
                    "Configuration Storage du projet "@ + pid + "\nTaille max fichier : "@ + dec_nat(
                        match r.at("fileSizeLimit"@).u64_of() {
                            Some(n) => (n / 1000000) as nat,
                            None => 0,
                        },
                    ) + " MB\nImage proxy URL    : "@ + str_or(r, "storageImgproxyUrl"@, "—"@),
            ),
    )
}


fn get_step(path: &str) -> (s: Step)
    ensures
        s@ == get_view(path@),
{
    send(Method::Get, SupabaseConfig::mgmt_of(path), None)
}

fn plain_listing(kind: Listed, r: &Json, header: &str, empty: &str) -> (t: String)
    requires
        kind != Listed::Advisor,
        kind != Listed::LogEntry,
    ensures
        t@ == listing(kind, *r, header@, empty@),
{
    assert(all_ok(kind, items_of(*r)));
    listing_exec(kind, r, header, empty)
}

fn project_list(
    cfg: &SupabaseConfig,
    args: &Json,
    rs: &Vec<Json>,
    sub: &str,
    kind: Listed,
    header: &str,
    empty: &str,
) -> (s: Step)
    requires
        kind != Listed::Advisor,
        kind != Listed::LogEntry,
    ensures
        s@ == project_listing(*cfg, *args, rs@, sub@, kind, header@, empty@),
{
    let pid = match cfg.resolve_project(args) {
        Ok(p) => p,
        Err(e) => return Step::Done(Err(e)),
    };
    if rs.len() == 0 {
        return get_step(concat3("projects/", pid, sub).as_str());
    }
    let e = concat3(empty, pid, ".");
    ok_text(plain_listing(kind, &rs[0], header, e.as_str()))
}

fn get_project(cfg: &SupabaseConfig, args: &Json, rs: &Vec<Json>) -> (s: Step)
    ensures
        s@ == get_project_view(*cfg, *args, rs@),
{
    let pid = match cfg.resolve_project(args) {
        Ok(p) => p,
        Err(e) => return Step::Done(Err(e)),
    };
    if rs.len() == 0 {
        return get_step(concat("projects/", pid).as_str());
    }
    let r = &rs[0];
    let id = get_str_or(r, "id", pid);
    let mut out = owned("Projet ");
    push_str(&mut out, id);
    push_str(&mut out, "\nNom          : ");
    push_str(&mut out, get_str_or(r, "name", "—"));
    push_str(&mut out, "\nRégion       : ");
    push_str(&mut out, get_str_or(r, "region", "—"));
    push_str(&mut out, "\nStatut       : ");
    push_str(&mut out, get_str_or(r, "status", "—"));
    push_str(&mut out, "\nOrganisation : ");
    push_str(&mut out, get_str_or(r, "organization_id", "—"));
    push_str(&mut out, "\nPlan         : ");
    push_str(&mut out, get_str_or(r, "subscription_id", "—"));
    push_str(&mut out, "\nURL          : https://");
    push_str(&mut out, id);
    push_str(&mut out, ".supabase.co");
    ok_text(out)
}

fn create_project(args: &Json, rs: &Vec<Json>) -> (s: Step)
    ensures
        s@ == create_project_view(*args, rs@),
{
    let org = match get_str(args, "org_id") {
        None => return required("org_id"),
        Some(x) => x,
    };
    let name = match get_str(args, "name") {
        None => return required("name"),
        Some(x) => x,
    };
    let pass = match get_str(args, "db_pass") {
        None => return required("db_pass"),
        Some(x) => x,
    };
    if rs.len() == 0 {
        let mut body = owned("{\"db_pass\":");
        push_quoted(&mut body, pass);
        push_str(&mut body, ",\"name\":");
        push_quoted(&mut body, name);
        push_str(&mut body, ",\"organization_id\":");
        push_quoted(&mut body, org);
        match get_str(args, "region") {
            Some(r) => {
                push_str(&mut body, ",\"region\":");
                push_quoted(&mut body, r);
            },
            None => {},
        }
        push_str(&mut body, "}");
        assert(body@ =~= create_project_body(*args, org@, name@, pass@));
        return send(Method::Post, SupabaseConfig::mgmt_of("projects"), Some(body));
    }
    let r = &rs[0];
    let id = get_str_or(r, "id", "—");
    let mut out = owned("Projet créé.\nID     : ");
    push_str(&mut out, id);
    push_str(&mut out, "\nNom    : ");
    push_str(&mut out, name);
    push_str(&mut out, "\nStatut : ");
    push_str(&mut out, get_str_or(r, "status", "—"));
    push_str(&mut out, "\nURL    : https://");
    push_str(&mut out, id);
    push_str(&mut out, ".supabase.co");
    ok_text(out)
}

fn action(path: &str, rs: &Vec<Json>, lead: String, d: &str) -> (s: Step)
    ensures
        s@ == action_view(path@, rs@, lead@, d@),
{
    if rs.len() == 0 {
        return send_no_content(Method::Post, SupabaseConfig::mgmt_of(path), None);
    }
    let mut out = lead;
    push_str(&mut out, "\nStatut : ");
    push_str(&mut out, get_str_or(&rs[0], "status", d));
    ok_text(out)
}

fn project_action(cfg: &SupabaseConfig, args: &Json, rs: &Vec<Json>, pause: bool) -> (s: Step)
    ensures
        pause ==> s@ == pause_view(*cfg, *args, rs@),
        !pause ==> s@ == restore_view(*cfg, *args, rs@),
{
    let pid = match cfg.resolve_project(args) {
        Ok(p) => p,
        Err(e) => return Step::Done(Err(e)),
    };
    if pause {
        action(
            concat3("projects/", pid, "/pause").as_str(),
            rs,
            concat3("Projet ", pid, " mis en pause."),
            "pause en cours",
        )
    } else {
        action(
            concat3("projects/", pid, "/restore").as_str(),
            rs,
            concat3("Projet ", pid, " restauré."),
            "restauration en cours",
        )
    }
}

fn get_org(args: &Json, rs: &Vec<Json>) -> (s: Step)
    ensures
        s@ == get_org_view(*args, rs@),
{
    let org = match get_str(args, "org_id") {
        None => return required("org_id"),
        Some(x) => x,
    };
    if rs.len() == 0 {
        return get_step(concat("organizations/", org).as_str());
    }
    let r = &rs[0];
    let mut out = owned("Organisation ");
    push_str(&mut out, get_str_or(r, "id", org));
    push_str(&mut out, "\nNom           : ");
    push_str(&mut out, get_str_or(r, "name", "—"));
    push_str(&mut out, "\nEmail billing : ");
    push_str(&mut out, get_str_or(r, "billing_email", "—"));
    ok_text(out)
}

fn tables(cfg: &SupabaseConfig, args: &Json, rs: &Vec<Json>) -> (s: Step)
    ensures
        s@ == tables_view(*cfg, *args, rs@),
{
    let pid = match cfg.resolve_project(args) {
        Ok(p) => p,
        Err(e) => return Step::Done(Err(e)),
    };
    if rs.len() == 0 {
        let mut url = SupabaseConfig::mgmt_of(concat3("projects/", pid, "/database/tables").as_str());
        push_opt(&mut url, "?included_schemas=", get_str(args, "schemas"));
        return send(Method::Get, url, None);
    }
    let header = concat3(" table(s) dans ", pid, " :\n");
    let empty = concat3("Aucune table trouvée dans le projet ", pid, ".");
    ok_text(plain_listing(Listed::Table, &rs[0], header.as_str(), empty.as_str()))
}

fn apply_migration(cfg: &SupabaseConfig, args: &Json, rs: &Vec<Json>) -> (s: Step)
    ensures
        s@ == apply_view(*cfg, *args, rs@),
{
    let pid = match cfg.resolve_project(args) {
        Ok(p) => p,
        Err(e) => return Step::Done(Err(e)),
    };
    let name = match get_str(args, "name") {
        None => return required("name"),
        Some(x) => x,
    };
    let q = match get_str(args, "query") {
        None => return required("query"),
        Some(x) => x,
    };
    if rs.len() == 0 {
        let mut body = owned("{\"name\":");
        push_quoted(&mut body, name);
        push_str(&mut body, ",\"query\":");
        push_quoted(&mut body, q);
        push_str(&mut body, "}");
        return send(
            Method::Post,
            SupabaseConfig::mgmt_of(concat3("projects/", pid, "/database/migrations").as_str()),
            Some(body),
        );
    }
    let mut out = owned("Migration appliquée.\nNom     : ");
    push_str(&mut out, name);
    push_str(&mut out, "\nVersion : ");
    push_str(&mut out, get_str_or(&rs[0], "version", "—"));
    push_str(&mut out, "\nProjet  : ");
    push_str(&mut out, pid);
    ok_text(out)
}

fn sql_outcome_exec(query: &str, r: &Json) -> (s: Step)
    ensures
        s@ == sql_outcome(query@, *r),
{
    match get_str(r, "message") {
        Some(e) => return Step::Done(Err(concat("Erreur SQL : ", e))),
        None => {},
    }
    let none: Vec<Json> = Vec::new();
    let rows = match r.as_array() {
        Some(a) => a,
        None => &none,
    };
    assert(rows@ =~= items_of(*r));
    let n = rows.len();
    if n == 0 {
        return ok_text(concat("Requête exécutée avec succès (0 ligne retournée).\nSQL : ", query));
    }
    let k = if n > 50 { 50 } else { n };
    let mut out = String::new();
    push_u64(&mut out, n as u64);
    push_str(&mut out, " ligne(s) :\n");
    let ghost head = out@;
    for i in 0..k
        invariant
            k <= n,
            n == rows@.len(),
            out@ == head + row_lines(rows@, i as nat),
    {
        push_str(&mut out, "  [");
        push_u64(&mut out, i as u64);
        push_str(&mut out, "] ");
        write_json(&mut out, &rows[i]);
        push_str(&mut out, "\n");
    }
    if n > 50 {
        push_str(&mut out, "  … (");
        push_u64(&mut out, (n - 50) as u64);
        push_str(&mut out, " lignes supplémentaires tronquées)\n");
    }
    assert(out@ =~= dec_nat(rows@.len()) + " ligne(s) :\n"@ + row_lines(
        rows@,
        if rows@.len() > 50 {
            50
        } else {
            rows@.len()
        },
    ) + if rows@.len() > 50 {
        "  … ("@ + dec_nat((rows@.len() - 50) as nat) + " lignes supplémentaires tronquées)\n"@
    } else {
        seq![]
    });
    ok_text(trim_end_ws(out.as_str()))
}

fn execute_sql(cfg: &SupabaseConfig, args: &Json, rs: &Vec<Json>) -> (s: Step)
    ensures
        s@ == sql_view(*cfg, *args, rs@),
{
    let pid = match cfg.resolve_project(args) {
        Ok(p) => p,
        Err(e) => return Step::Done(Err(e)),
    };
    let q = match get_str(args, "query") {
        None => return required("query"),
        Some(x) => x,
    };
    if rs.len() == 0 {
        let mut body = owned("{\"query\":");
        push_quoted(&mut body, q);
        push_str(&mut body, "}");
        return send(
            Method::Post,
            SupabaseConfig::mgmt_of(concat3("projects/", pid, "/database/query").as_str()),
            Some(body),
        );
    }
    sql_outcome_exec(q, &rs[0])
}

fn keys(cfg: &SupabaseConfig, args: &Json, rs: &Vec<Json>) -> (s: Step)
    ensures
        s@ == keys_view(*cfg, *args, rs@),
{
    let pid = match cfg.resolve_project(args) {
        Ok(p) => p,
        Err(e) => return Step::Done(Err(e)),
    };
    if rs.len() == 0 {
        return get_step(concat3("projects/", pid, "/api-keys").as_str());
    }
    let none: Vec<Json> = Vec::new();
    let items = match rs[0].as_array() {
        Some(a) => a,
        None => &none,
    };
    assert(items@ =~= items_of(rs@[0]));
    assert(all_ok(Listed::Key, items@));
    let head = concat3("Clés API du projet ", pid, " :\n");
    let empty = concat3("Aucune clé API trouvée pour le projet ", pid, ".");
    let t = listed_exec(Listed::Key, items, head.as_str(), "", empty.as_str());
    assert(""@ =~= Seq::<char>::empty()) by {
        reveal_strlit("");
    }
    ok_text(t)
}

fn advisors(cfg: &SupabaseConfig, args: &Json, rs: &Vec<Json>) -> (s: Step)
    requires
        rs@.len() >= 1 ==> all_ok(Listed::Advisor, items_of(rs@[0])),
    ensures
        s@ == advisors_view(*cfg, *args, rs@),
{
    let pid = match cfg.resolve_project(args) {
        Ok(p) => p,
        Err(e) => return Step::Done(Err(e)),
    };
    let t = get_str_or(args, "advisor_type", "security");
    if rs.len() == 0 {
        let mut path = concat3("projects/", pid, "/advisors/");
        push_str(&mut path, t);
        return get_step(path.as_str());
    }
    let mut header = concat3(" recommandation(s) ", t, " pour ");
    push_str(&mut header, pid);
    push_str(&mut header, " :\n");
    let mut empty = concat3("Aucune recommandation ", t, " pour le projet ");
    push_str(&mut empty, pid);
    push_str(&mut empty, ".");
    ok_text(listing_exec(Listed::Advisor, &rs[0], header.as_str(), empty.as_str()))
}


fn get_function(cfg: &SupabaseConfig, args: &Json, rs: &Vec<Json>) -> (s: Step)
    ensures
        s@ == function_view(*cfg, *args, rs@),
{
    let pid = match cfg.resolve_project(args) {
        Ok(p) => p,
        Err(e) => return Step::Done(Err(e)),
    };
    let slug = match get_str(args, "function_slug") {
        None => return required("function_slug"),
        Some(x) => x,
    };
    if rs.len() == 0 {
        let mut path = concat3("projects/", pid, "/functions/");
        push_str(&mut path, slug);
        return get_step(path.as_str());
    }
    let r = &rs[0];
    let mut out = owned("Edge Function ");
    push_str(&mut out, slug);
    push_str(&mut out, "\nID           : ");
    push_str(&mut out, get_str_or(r, "id", "—"));
    push_str(&mut out, "\nNom          : ");
    push_str(&mut out, get_str_or(r, "name", slug));
    push_str(&mut out, "\nStatut       : ");
    push_str(&mut out, get_str_or(r, "status", "—"));
    push_str(&mut out, "\nVerify JWT   : ");
    write_json(&mut out, &Json::Bool(get_flag_or(r, "verify_jwt", true)));
    push_str(&mut out, "\nCréée le     : ");
    push_str(&mut out, get_str_or(r, "created_at", "—"));
    push_str(&mut out, "\nMise à jour  : ");
    push_str(&mut out, get_str_or(r, "updated_at", "—"));
    push_str(&mut out, "\nURL          : https://");
    push_str(&mut out, pid);
    push_str(&mut out, ".supabase.co/functions/v1/");
    push_str(&mut out, slug);
    assert(out@ =~= function_text(pid@, slug@, rs@[0]));
    ok_text(out)
}

fn deploy_body_exec(args: &Json, name: &str, code: &str) -> (b: String)
    ensures
        b@ == deploy_body(*args, name@, code@),
{
    let mut body = owned("{\"body\":");
    push_quoted(&mut body, code);
    push_str(&mut body, ",\"name\":");
    push_quoted(&mut body, name);
    push_str(&mut body, ",\"slug\":");
    push_quoted(&mut body, name);
    push_str(&mut body, ",\"verify_jwt\":");
    write_json(&mut body, &Json::Bool(get_flag_or(args, "verify_jwt", true)));
    push_str(&mut body, "}");
    assert(body@ =~= deploy_body(*args, name@, code@));
    body
}

fn deployed(pid: &str, name: &str, r: &Json) -> (t: String)
    ensures
        t@ == deployed_text(pid@, name@, *r),
{
    let slug = get_str_or(r, "slug", name);
    let mut out = owned("Edge Function déployée.\nSlug   : ");
    push_str(&mut out, slug);
    push_str(&mut out, "\nStatut : ");
    push_str(&mut out, get_str_or(r, "status", "déployée"));
    push_str(&mut out, "\nURL    : https://");
    push_str(&mut out, pid);
    push_str(&mut out, ".supabase.co/functions/v1/");
    push_str(&mut out, slug);
    out
}

fn deploy(cfg: &SupabaseConfig, args: &Json, rs: &Vec<Json>) -> (s: Step)
    ensures
        s@ == deploy_view(*cfg, *args, rs@),
{
    let pid = match cfg.resolve_project(args) {
        Ok(p) => p,
        Err(e) => return Step::Done(Err(e)),
    };
    let name = match get_str(args, "name") {
        None => return required("name"),
        Some(x) => x,
    };
    let code = match get_str(args, "body_code") {
        None => return required("body_code"),
        Some(x) => x,
    };
    if rs.len() == 0 {
        let mut path = concat3("projects/", pid, "/functions/");
        push_str(&mut path, name);
        return send_fallible(Method::Put, SupabaseConfig::mgmt_of(path.as_str()), deploy_body_exec(args, name, code));
    }
    let tried = match rs[0].as_array() {
        Some(a) => if a.len() == 1 {
            Some(&a[0])
        } else {
            None
        },
        None => None,
    };
    match tried {
        Some(reply) => match reply.get("message") {
            Some(Json::Str(_)) => {},
            _ => return ok_text(deployed(pid, name, reply)),
        },
        None => {},
    }
    if rs.len() == 1 {
        return send(
            Method::Post,
            SupabaseConfig::mgmt_of(concat3("projects/", pid, "/functions").as_str()),
            Some(deploy_body_exec(args, name, code)),
        );
    }
    ok_text(deployed(pid, name, &rs[1]))
}

fn types(cfg: &SupabaseConfig, args: &Json, rs: &Vec<Json>) -> (s: Step)
    requires
        rs@.len() >= 1 ==> cut_ok(text_of(rs@[0]), 2000),
    ensures
        s@ == types_view(*cfg, *args, rs@),
{
    let pid = match cfg.resolve_project(args) {
        Ok(p) => p,
        Err(e) => return Step::Done(Err(e)),
    };
    if rs.len() == 0 {
        let mut url = SupabaseConfig::mgmt_of(concat3("projects/", pid, "/types/typescript").as_str());
        push_opt(&mut url, "?included_schemas=", get_str(args, "schemas"));
        return send_text(url);
    }
    let t: &str = match rs[0].as_str() {
        Some(x) => x,
        None => "",
    };
    assert(t@ == text_of(rs@[0])) by {
        reveal_strlit("");
    }
    let mut out = concat3("Types TypeScript pour le projet ", pid, " :\n\n");
    let n = byte_len(t);
    if n > 2000 {
        push_str(&mut out, byte_prefix(t, 2000));
        push_str(&mut out, "\n\n… (");
        push_u64(&mut out, (n - 2000) as u64);
        push_str(&mut out, " caractères supplémentaires tronqués pour l'affichage)");
    } else {
        push_str(&mut out, t);
    }
    assert(out@ =~= "Types TypeScript pour le projet "@ + pid@ + " :\n\n"@ + types_preview(text_of(rs@[0])));
    ok_text(out)
}

fn logs(cfg: &SupabaseConfig, args: &Json, rs: &Vec<Json>) -> (s: Step)
    requires
        rs@.len() >= 1 ==> all_ok(Listed::LogEntry, log_entries(rs@[0])),
    ensures
        s@ == logs_view(*cfg, *args, rs@),
{
    let pid = match cfg.resolve_project(args) {
        Ok(p) => p,
        Err(e) => return Step::Done(Err(e)),
    };
    let service = match get_str(args, "service") {
        None => return Step::Done(Err(owned("Paramètre 'service' requis (api | postgres | edge-functions | storage)"))),
        Some(x) => x,
    };
    if rs.len() == 0 {
        let limit = match get_u64(args, "limit") {
            Some(n) => if n > 500 { 500 } else { n },
            None => 100,
        };
        let mut path = concat3("projects/", pid, "/logs?service=");
        push_str(&mut path, service);
        push_str(&mut path, "&limit=");
        push_u64(&mut path, limit);
        let mut url = SupabaseConfig::mgmt_of(path.as_str());
        push_opt(&mut url, "&cursor=", get_str(args, "cursor"));
        return send(Method::Get, url, None);
    }
    let r = &rs[0];
    let none: Vec<Json> = Vec::new();
    let entries = match get_array(r, "data") {
        Some(a) => a,
        None => match r.as_array() {
            Some(a) => a,
            None => &none,
        },
    };
    assert(entries@ =~= log_entries(*r));
    let mut head = String::new();
    push_u64(&mut head, entries.len() as u64);
    push_str(&mut head, " entrée(s) de log [");
    push_str(&mut head, service);
    push_str(&mut head, "] pour ");
    push_str(&mut head, pid);
    push_str(&mut head, " :\n");
    let mut tail = String::new();
    push_opt(&mut tail, "\nCurseur suivant : ", get_str(r, "next_cursor"));
    let mut empty = concat3("Aucun log ", service, " dans le projet ");
    push_str(&mut empty, pid);
    push_str(&mut empty, ".");
    assert(tail@ =~= opt_suffix("\nCurseur suivant : "@, r.at("next_cursor"@).str_of()));
    ok_text(listed_exec(Listed::LogEntry, entries, head.as_str(), tail.as_str(), empty.as_str()))
}

fn create_branch(cfg: &SupabaseConfig, args: &Json, rs: &Vec<Json>) -> (s: Step)
    ensures
        s@ == create_branch_view(*cfg, *args, rs@),
{
    let pid = match cfg.resolve_project(args) {
        Ok(p) => p,
        Err(e) => return Step::Done(Err(e)),
    };
    let name = match get_str(args, "branch_name") {
        None => return required("branch_name"),
        Some(x) => x,
    };
    if rs.len() == 0 {
        let mut body = owned("{\"branch_name\":");
        push_quoted(&mut body, name);
        match get_str(args, "git_branch") {
            Some(g) => {
                push_str(&mut body, ",\"git_branch\":");
                push_quoted(&mut body, g);
            },
            None => {},
        }
        push_str(&mut body, "}");
        assert(body@ =~= branch_body(*args, name@));
        return send(
            Method::Post,
            SupabaseConfig::mgmt_of(concat3("projects/", pid, "/branches").as_str()),
            Some(body),
        );
    }
    let r = &rs[0];
    let mut out = owned("Branch créée.\nID      : ");
    push_str(&mut out, get_str_or(r, "id", "—"));
    push_str(&mut out, "\nNom     : ");
    push_str(&mut out, name);
    push_str(&mut out, "\nStatut  : ");
    push_str(&mut out, get_str_or(r, "status", "—"));
    push_str(&mut out, "\nProjet  : ");
    push_str(&mut out, pid);
    ok_text(out)
}

fn delete_branch(args: &Json, rs: &Vec<Json>) -> (s: Step)
    ensures
        s@ == delete_branch_view(*args, rs@),
{
    let id = match get_str(args, "branch_id") {
        None => return required("branch_id"),
        Some(x) => x,
    };
    if rs.len() == 0 {
        return send_no_content(Method::Delete, SupabaseConfig::mgmt_of(concat("branches/", id).as_str()), None);
    }
    ok_text(concat3("Branch ", id, " supprimée."))
}

fn branch_action(args: &Json, rs: &Vec<Json>, merge: bool) -> (s: Step)
    ensures
        merge ==> s@ == branch_tool(
            *args,
            |id: Seq<char>|
                action_view("branches/"@ + id + "/merge"@, rs@, "Branch "@ + id + " fusionnée."@, "fusion en cours"@),
        ),
        !merge ==> s@ == branch_tool(
            *args,
            |id: Seq<char>|
                action_view("branches/"@ + id + "/rebase"@, rs@, "Branch "@ + id + " rebasée."@, "rebase en cours"@),
        ),
{
    let id = match get_str(args, "branch_id") {
        None => return required("branch_id"),
        Some(x) => x,
    };
    if merge {
        action(concat3("branches/", id, "/merge").as_str(), rs, concat3("Branch ", id, " fusionnée."), "fusion en cours")
    } else {
        action(concat3("branches/", id, "/rebase").as_str(), rs, concat3("Branch ", id, " rebasée."), "rebase en cours")
    }
}

fn reset_branch(args: &Json, rs: &Vec<Json>) -> (s: Step)
    ensures
        s@ == reset_view(*args, rs@),
{
    let id = match get_str(args, "branch_id") {
        None => return required("branch_id"),
        Some(x) => x,
    };
    if rs.len() == 0 {
        let mut body = owned("{");
        match get_str(args, "migration_version") {
            Some(v) => {
                push_str(&mut body, "\"migration_version\":");
                push_quoted(&mut body, v);
            },
            None => {},
        }
        push_str(&mut body, "}");
        assert(body@ =~= reset_body(*args));
        return send(Method::Post, SupabaseConfig::mgmt_of(concat3("branches/", id, "/reset").as_str()), Some(body));
    }
    let mut out = concat3("Branch ", id, " réinitialisée.\nStatut : ");
    push_str(&mut out, get_str_or(&rs[0], "status", "réinitialisation en cours"));
    ok_text(out)
}

fn buckets(cfg: &SupabaseConfig, args: &Json, rs: &Vec<Json>) -> (s: Step)
    ensures
        s@ == buckets_view(*cfg, *args, rs@),
{
    let pid = match cfg.resolve_project(args) {
        Ok(p) => p,
        Err(e) => return Step::Done(Err(e)),
    };
    if rs.len() == 0 {
        return send(Method::Get, concat3("https://", pid, ".supabase.co/storage/v1/bucket"), None);
    }
    let empty = concat3("Aucun bucket Storage dans le projet ", pid, ".");
    ok_text(plain_listing(Listed::Bucket, &rs[0], " bucket(s) :\n", empty.as_str()))
}

fn storage_config(cfg: &SupabaseConfig, args: &Json, rs: &Vec<Json>) -> (s: Step)
    ensures
        s@ == storage_view(*cfg, *args, rs@),
{
    let pid = match cfg.resolve_project(args) {
        Ok(p) => p,
        Err(e) => return Step::Done(Err(e)),
    };
    if rs.len() == 0 {
        return get_step(concat3("projects/", pid, "/config/storage").as_str());
    }
    let r = &rs[0];
    let mb = match get_u64(r, "fileSizeLimit") {
        Some(n) => n / 1000000,
        None => 0,
    };
    let mut out = concat3("Configuration Storage du projet ", pid, "\nTaille max fichier : ");
    push_u64(&mut out, mb);
    push_str(&mut out, " MB\nImage proxy URL    : ");
    push_str(&mut out, get_str_or(r, "storageImgproxyUrl", "—"));
    ok_text(out)
}

fn confirm_cost(args: &Json) -> (s: Step)
    ensures
        s@ == confirm_view(*args),
{
    let org = match get_str(args, "org_id") {
        None => return required("org_id"),
        Some(x) => x,
    };
    let c = match get_bool(args, "confirm") {
        None => return required("confirm"),
        Some(b) => b,
    };
    if !c {
        return ok_text(owned("Coût refusé. L'opération n'a pas été effectuée."));
    }
    ok_text(concat3(
        "Coût confirmé pour l'organisation ",
        org,
        ".\nVous pouvez maintenant procéder à l'opération payante.",
    ))
}


/// The project and organization tools.
pub open spec fn project_group(cfg: SupabaseConfig, name: Seq<char>, args: Json, rs: Seq<Json>) -> StepView {
    if name == "supabase_list_projects"@ {
        one_call(
            get_view("projects"@),
            rs,
            |r: Json| listing(Listed::Project, r, " projet(s) :\n"@, "Aucun projet Supabase trouvé."@),
        )
    } else if name == "supabase_get_project"@ {
        get_project_view(cfg, args, rs)
    } else if name == "supabase_create_project"@ {
        create_project_view(args, rs)
    } else if name == "supabase_pause_project"@ {
        pause_view(cfg, args, rs)
    } else if name == "supabase_restore_project"@ {
        restore_view(cfg, args, rs)
    } else if name == "supabase_list_organizations"@ {
        one_call(
            get_view("organizations"@),
            rs,
            |r: Json| listing(Listed::Organization, r, " organisation(s) :\n"@, "Aucune organisation Supabase trouvée."@),
        )
    } else if name == "supabase_get_organization"@ {
        get_org_view(args, rs)
    } else {
        project_tool(
            cfg,
            args,
            |pid: Seq<char>| ok_view("URL du projet "@ + pid + " :\nhttps://"@ + pid + ".supabase.co"@),
        )
    }
}

/// The database tools.
pub open spec fn database_group(cfg: SupabaseConfig, name: Seq<char>, args: Json, rs: Seq<Json>) -> StepView {
    if name == "supabase_list_tables"@ {
        tables_view(cfg, args, rs)
    } else if name == "supabase_list_extensions"@ {
        project_listing(
            cfg,
            args,
            rs,
            "/database/extensions"@,
            Listed::Extension,
            " extension(s) :\n"@,
            "Aucune extension trouvée dans le projet "@,
        )
    } else if name == "supabase_list_migrations"@ {
        project_listing(
            cfg,
            args,
            rs,
            "/database/migrations"@,
            Listed::Migration,
            " migration(s) :\n"@,
            "Aucune migration dans le projet "@,
        )
    } else if name == "supabase_apply_migration"@ {
        apply_view(cfg, args, rs)
    } else if name == "supabase_execute_sql"@ {
        sql_view(cfg, args, rs)
    } else if name == "supabase_get_publishable_keys"@ {
        keys_view(cfg, args, rs)
    } else {
        advisors_view(cfg, args, rs)
    }
}

/// The edge function, type and log tools.
pub open spec fn function_group(cfg: SupabaseConfig, name: Seq<char>, args: Json, rs: Seq<Json>) -> StepView {
    if name == "supabase_list_edge_functions"@ {
        project_listing(
            cfg,
            args,
            rs,
            "/functions"@,
            Listed::Function,
            " Edge Function(s) :\n"@,
            "Aucune Edge Function dans le projet "@,
        )
    } else if name == "supabase_get_edge_function"@ {
        function_view(cfg, args, rs)
    } else if name == "supabase_deploy_edge_function"@ {
        deploy_view(cfg, args, rs)
    } else if name == "supabase_generate_typescript_types"@ {
        types_view(cfg, args, rs)
    } else {
        logs_view(cfg, args, rs)
    }
}

/// The branch, storage and cost tools.
pub open spec fn branch_group(cfg: SupabaseConfig, name: Seq<char>, args: Json, rs: Seq<Json>) -> StepView {
    if name == "supabase_list_branches"@ {
        project_listing(
            cfg,
            args,
            rs,
            "/branches"@,
            Listed::Branch,
            " branch(es) :\n"@,
            "Aucune Preview Branch dans le projet "@,
        )
    } else if name == "supabase_create_branch"@ {
        create_branch_view(cfg, args, rs)
    } else if name == "supabase_delete_branch"@ {
        delete_branch_view(args, rs)
    } else if name == "supabase_merge_branch"@ {
        branch_tool(
            args,
            |id: Seq<char>|
                action_view("branches/"@ + id + "/merge"@, rs, "Branch "@ + id + " fusionnée."@, "fusion en cours"@),
        )
    } else if name == "supabase_reset_branch"@ {
        reset_view(args, rs)
    } else if name == "supabase_rebase_branch"@ {
        branch_tool(
            args,
            |id: Seq<char>|
                action_view("branches/"@ + id + "/rebase"@, rs, "Branch "@ + id + " rebasée."@, "rebase en cours"@),
        )
    } else if name == "supabase_list_storage_buckets"@ {
        buckets_view(cfg, args, rs)
    } else if name == "supabase_get_storage_config"@ {
        storage_view(cfg, args, rs)
    } else {
        confirm_view(args)
    }
}

pub open spec fn is_project_tool(name: Seq<char>) -> bool {
    name == "supabase_list_projects"@ || name == "supabase_get_project"@ || name == "supabase_create_project"@
        || name == "supabase_pause_project"@ || name == "supabase_restore_project"@ || name
        == "supabase_list_organizations"@ || name == "supabase_get_organization"@ || name
        == "supabase_get_project_url"@
}

pub open spec fn is_database_tool(name: Seq<char>) -> bool {
    name == "supabase_list_tables"@ || name == "supabase_list_extensions"@ || name == "supabase_list_migrations"@
        || name == "supabase_apply_migration"@ || name == "supabase_execute_sql"@ || name
        == "supabase_get_publishable_keys"@ || name == "supabase_get_advisors"@
}

pub open spec fn is_function_tool(name: Seq<char>) -> bool {
    name == "supabase_list_edge_functions"@ || name == "supabase_get_edge_function"@ || name
        == "supabase_deploy_edge_function"@ || name == "supabase_generate_typescript_types"@ || name
        == "supabase_get_logs"@
}

pub open spec fn is_branch_tool(name: Seq<char>) -> bool {
    name == "supabase_list_branches"@ || name == "supabase_create_branch"@ || name == "supabase_delete_branch"@
        || name == "supabase_merge_branch"@ || name == "supabase_reset_branch"@ || name
        == "supabase_rebase_branch"@ || name == "supabase_list_storage_buckets"@ || name
        == "supabase_get_storage_config"@ || name == "supabase_confirm_cost"@
}

/// What a call of Supabase tool `name` with `args` does next, given the responses so far.
pub open spec fn handle_view(cfg: SupabaseConfig, name: Seq<char>, args: Json, rs: Seq<Json>) -> StepView {
    if is_project_tool(name) {
        project_group(cfg, name, args, rs)
    } else if is_database_tool(name) {
        database_group(cfg, name, args, rs)
    } else if is_function_tool(name) {
        function_group(cfg, name, args, rs)
    } else if is_branch_tool(name) {
        branch_group(cfg, name, args, rs)
    } else {
        fail_view("Tool Supabase inconnu : "@ + name)
    }
}

/// What the texts cut for display need of a response: the cuts fall between characters.
pub open spec fn handle_ok(name: Seq<char>, rs: Seq<Json>) -> bool {
    &&& name == "supabase_get_advisors"@ && rs.len() >= 1 ==> all_ok(Listed::Advisor, items_of(rs[0]))
    &&& name == "supabase_get_logs"@ && rs.len() >= 1 ==> all_ok(Listed::LogEntry, log_entries(rs[0]))
    &&& name == "supabase_generate_typescript_types"@ && rs.len() >= 1 ==> cut_ok(text_of(rs[0]), 2000)
}

fn project_tools(cfg: &SupabaseConfig, name: &str, args: &Json, rs: &Vec<Json>) -> (s: Step)
    ensures
        s@ == project_group(*cfg, name@, *args, rs@),
{
    if str_eq(name, "supabase_list_projects") {
        if rs.len() == 0 {
            return get_step("projects");
        }
        ok_text(plain_listing(Listed::Project, &rs[0], " projet(s) :\n", "Aucun projet Supabase trouvé."))
    } else if str_eq(name, "supabase_get_project") {
        get_project(cfg, args, rs)
    } else if str_eq(name, "supabase_create_project") {
        create_project(args, rs)
    } else if str_eq(name, "supabase_pause_project") {
        project_action(cfg, args, rs, true)
    } else if str_eq(name, "supabase_restore_project") {
        project_action(cfg, args, rs, false)
    } else if str_eq(name, "supabase_list_organizations") {
        if rs.len() == 0 {
            return get_step("organizations");
        }
        ok_text(
            plain_listing(Listed::Organization, &rs[0], " organisation(s) :\n", "Aucune organisation Supabase trouvée."),
        )
    } else if str_eq(name, "supabase_get_organization") {
        get_org(args, rs)
    } else {
        let pid = match cfg.resolve_project(args) {
            Ok(p) => p,
            Err(e) => return Step::Done(Err(e)),
        };
        let mut out = concat3("URL du projet ", pid, " :\nhttps://");
        push_str(&mut out, pid);
        push_str(&mut out, ".supabase.co");
        ok_text(out)
    }
}

fn database_tools(cfg: &SupabaseConfig, name: &str, args: &Json, rs: &Vec<Json>) -> (s: Step)
    requires
        is_database_tool(name@),
        name@ == "supabase_get_advisors"@ && rs@.len() >= 1 ==> all_ok(Listed::Advisor, items_of(rs@[0])),
    ensures
        s@ == database_group(*cfg, name@, *args, rs@),
{
    if str_eq(name, "supabase_list_tables") {
        tables(cfg, args, rs)
    } else if str_eq(name, "supabase_list_extensions") {
        project_list(
            cfg,
            args,
            rs,
            "/database/extensions",
            Listed::Extension,
            " extension(s) :\n",
            "Aucune extension trouvée dans le projet ",
        )
    } else if str_eq(name, "supabase_list_migrations") {
        project_list(
            cfg,
            args,
            rs,
            "/database/migrations",
            Listed::Migration,
            " migration(s) :\n",
            "Aucune migration dans le projet ",
        )
    } else if str_eq(name, "supabase_apply_migration") {
        apply_migration(cfg, args, rs)
    } else if str_eq(name, "supabase_execute_sql") {
        execute_sql(cfg, args, rs)
    } else if str_eq(name, "supabase_get_publishable_keys") {
        keys(cfg, args, rs)
    } else {
        advisors(cfg, args, rs)
    }
}

fn function_tools(cfg: &SupabaseConfig, name: &str, args: &Json, rs: &Vec<Json>) -> (s: Step)
    requires
        is_function_tool(name@),
        name@ == "supabase_get_logs"@ && rs@.len() >= 1 ==> all_ok(Listed::LogEntry, log_entries(rs@[0])),
        name@ == "supabase_generate_typescript_types"@ && rs@.len() >= 1 ==> cut_ok(text_of(rs@[0]), 2000),
    ensures
        s@ == function_group(*cfg, name@, *args, rs@),
{
    if str_eq(name, "supabase_list_edge_functions") {
        project_list(
            cfg,
            args,
            rs,
            "/functions",
            Listed::Function,
            " Edge Function(s) :\n",
            "Aucune Edge Function dans le projet ",
        )
    } else if str_eq(name, "supabase_get_edge_function") {
        get_function(cfg, args, rs)
    } else if str_eq(name, "supabase_deploy_edge_function") {
        deploy(cfg, args, rs)
    } else if str_eq(name, "supabase_generate_typescript_types") {
        types(cfg, args, rs)
    } else {
        logs(cfg, args, rs)
    }
}

fn branch_tools(cfg: &SupabaseConfig, name: &str, args: &Json, rs: &Vec<Json>) -> (s: Step)
    ensures
        s@ == branch_group(*cfg, name@, *args, rs@),
{
    if str_eq(name, "supabase_list_branches") {
        project_list(
            cfg,
            args,
            rs,
            "/branches",
            Listed::Branch,
            " branch(es) :\n",
            "Aucune Preview Branch dans le projet ",
        )
    } else if str_eq(name, "supabase_create_branch") {
        create_branch(cfg, args, rs)
    } else if str_eq(name, "supabase_delete_branch") {
        delete_branch(args, rs)
    } else if str_eq(name, "supabase_merge_branch") {
        branch_action(args, rs, true)
    } else if str_eq(name, "supabase_reset_branch") {
        reset_branch(args, rs)
    } else if str_eq(name, "supabase_rebase_branch") {
        branch_action(args, rs, false)
    } else if str_eq(name, "supabase_list_storage_buckets") {
        buckets(cfg, args, rs)
    } else if str_eq(name, "supabase_get_storage_config") {
        storage_config(cfg, args, rs)
    } else {
        confirm_cost(args)
    }
}

fn item_is_ok(kind: Listed, j: &Json) -> (r: bool)
    ensures
        r == item_ok(kind, *j),
{
    match kind {
        Listed::Advisor => crate::fmt::can_cut(get_str_or(j, "description", ""), 120),
        Listed::LogEntry => {
            let m = match get_str(j, "event_message") {
                Some(m) => m,
                None => get_str_or(j, "message", "(vide)"),
            };
            crate::fmt::can_cut(m, 200)
        },
        _ => true,
    }
}

fn all_items_ok(kind: Listed, items: Option<&Vec<Json>>) -> (r: bool)
    ensures
        r == all_ok(
            kind,
            match items {
                Some(a) => a@,
                None => seq![],
            },
        ),
{
    let a = match items {
        Some(a) => a,
        None => return true,
    };
    let mut i: usize = 0;
    while i < a.len()
        invariant
            i <= a@.len(),
            items == Some(a),
            forall|k: int| 0 <= k < i ==> #[trigger] item_ok(kind, a@[k]),
        decreases a.len() - i,
    {
        if !item_is_ok(kind, &a[i]) {
            assert(!item_ok(kind, a@[i as int]));
            return false;
        }
        i = i + 1;
    }
    true
}

/// Whether a call of `name` can take `responses` without panicking (see [`handle_ok`]).
pub fn can_handle(name: &str, responses: &Vec<Json>) -> (r: bool)
    ensures
        r == handle_ok(name@, responses@),
{
    proof {
        reveal_strlit("supabase_get_advisors");
        reveal_strlit("supabase_get_logs");
        reveal_strlit("supabase_generate_typescript_types");
        assert("supabase_get_advisors"@.len() == 21);
        assert("supabase_get_logs"@.len() == 17);
        assert("supabase_generate_typescript_types"@.len() == 34);
    }
    if responses.len() == 0 {
        return true;
    }
    let r = &responses[0];
    if str_eq(name, "supabase_get_advisors") {
        all_items_ok(Listed::Advisor, r.as_array())
    } else if str_eq(name, "supabase_get_logs") {
        let entries = match get_array(r, "data") {
            Some(a) => Some(a),
            None => r.as_array(),
        };
        all_items_ok(Listed::LogEntry, entries)
    } else if str_eq(name, "supabase_generate_typescript_types") {
        let text = match r.as_str() {
            Some(t) => t,
            None => "",
        };
        proof {
            reveal_strlit("");
        }
        crate::fmt::can_cut(text, 2000)
    } else {
        true
    }
}

/// Runs one step of the Supabase tool `name` called with `args`: `responses` holds the parsed
/// responses to the requests made so far. `supabase_get_cost`, which renders costs given as
/// floating-point numbers, is not handled here.
pub fn handle(cfg: &SupabaseConfig, name: &str, args: &Json, responses: &Vec<Json>) -> (s: Step)
    requires
        name@ != "supabase_get_cost"@,
        handle_ok(name@, responses@),
    ensures
        s@ == handle_view(*cfg, name@, *args, responses@),
{
    let rs = responses;
    if str_eq(name, "supabase_list_projects") || str_eq(name, "supabase_get_project") || str_eq(
        name,
        "supabase_create_project",
    ) || str_eq(name, "supabase_pause_project") || str_eq(name, "supabase_restore_project") || str_eq(
        name,
        "supabase_list_organizations",
    ) || str_eq(name, "supabase_get_organization") || str_eq(name, "supabase_get_project_url") {
        project_tools(cfg, name, args, rs)
    } else if str_eq(name, "supabase_list_tables") || str_eq(name, "supabase_list_extensions") || str_eq(
        name,
        "supabase_list_migrations",
    ) || str_eq(name, "supabase_apply_migration") || str_eq(name, "supabase_execute_sql") || str_eq(
        name,
        "supabase_get_publishable_keys",
    ) || str_eq(name, "supabase_get_advisors") {
        database_tools(cfg, name, args, rs)
    } else if str_eq(name, "supabase_list_edge_functions") || str_eq(name, "supabase_get_edge_function")
        || str_eq(name, "supabase_deploy_edge_function") || str_eq(name, "supabase_generate_typescript_types")
        || str_eq(name, "supabase_get_logs") {
        function_tools(cfg, name, args, rs)
    } else if str_eq(name, "supabase_list_branches") || str_eq(name, "supabase_create_branch") || str_eq(
        name,
        "supabase_delete_branch",
    ) || str_eq(name, "supabase_merge_branch") || str_eq(name, "supabase_reset_branch") || str_eq(
        name,
        "supabase_rebase_branch",
    ) || str_eq(name, "supabase_list_storage_buckets") || str_eq(name, "supabase_get_storage_config")
        || str_eq(name, "supabase_confirm_cost") {
        branch_tools(cfg, name, args, rs)
    } else {
        Step::Done(Err(concat("Tool Supabase inconnu : ", name)))
    }
}

/// What every step of a tool keeps: one response ends the call, but for the deployment of a
/// function, whose failed update is followed by its creation; every request is authenticated.
pub open spec fn step_ok(name: Seq<char>, v: StepView, rs: Seq<Json>) -> bool {
    &&& rs.len() >= 2 ==> v is Done
    &&& rs.len() >= 1 && name != "supabase_deploy_edge_function"@ ==> v is Done
    &&& v matches StepView::Send(req) ==> req.authenticated
}

proof fn lemma_project_steps(cfg: SupabaseConfig, name: Seq<char>, args: Json, rs: Seq<Json>)
    ensures
        step_ok(name, project_group(cfg, name, args, rs), rs),
{
}

proof fn lemma_database_steps(cfg: SupabaseConfig, name: Seq<char>, args: Json, rs: Seq<Json>)
    ensures
        step_ok(name, database_group(cfg, name, args, rs), rs),
{
}

proof fn lemma_function_steps(cfg: SupabaseConfig, name: Seq<char>, args: Json, rs: Seq<Json>)
    ensures
        step_ok(name, function_group(cfg, name, args, rs), rs),
{
}

proof fn lemma_branch_steps(cfg: SupabaseConfig, name: Seq<char>, args: Json, rs: Seq<Json>)
    ensures
        step_ok(name, branch_group(cfg, name, args, rs), rs),
{
}

/// Every Supabase tool ends once its response has come (two for a deployment whose update
/// failed), and every request it makes is authenticated.
pub proof fn lemma_handle_ends(cfg: SupabaseConfig, name: Seq<char>, args: Json, rs: Seq<Json>)
    ensures
        step_ok(name, handle_view(cfg, name, args, rs), rs),
{
    lemma_project_steps(cfg, name, args, rs);
    lemma_database_steps(cfg, name, args, rs);
    lemma_function_steps(cfg, name, args, rs);
    lemma_branch_steps(cfg, name, args, rs);
}

/// A project given as an argument wins over the configured one, and without either the call
/// fails with the same message, whatever the tool that needs one.
pub proof fn lemma_project_resolution(args: Json, configured: Option<Seq<char>>)
    ensures
        (args.at("project_id"@).str_of() matches Some(p) && p.len() > 0) ==> resolved_project(args, configured)
            == args.at("project_id"@).str_of(),
        resolved_project(args, configured) matches Some(p) ==> p.len() > 0,
{
}

/// The Supabase tools offered to MCP clients: name, description and input schema of each, as a
/// The catalog's tools, in its order: for each, the JSON text of its members before its name
/// (its description and input schema).
pub const TOOL_HEADS: [&'static str; 30] = [
    r#"{"description":"SUPABASE 📋 — Liste tous les projets Supabase de l'organisation. Retourne id, name, region, status et organisation_id.","inputSchema":{"properties":{},"type":"object"},"name":"#,
    r#"{"description":"SUPABASE 📋 — Récupère le détail complet d'un projet Supabase : nom, région, statut, URL, plan. Utiliser supabase_list_projects pour obtenir un project_id.","inputSchema":{"properties":{"project_id":{"description":"ID (ref) du projet (optionnel si configuré dans supabase.toml)","type":"string"}},"type":"object"},"name":"#,
    r#"{"description":"SUPABASE ➕ — Crée un nouveau projet Supabase dans une organisation. Retourne le projet créé avec son id et son URL.","inputSchema":{"properties":{"db_pass":{"description":"Mot de passe de la base de données (min 16 caractères)","type":"string"},"name":{"description":"Nom du projet","type":"string"},"org_id":{"description":"ID de l'organisation Supabase","type":"string"},"region":{"description":"Région AWS (ex: eu-west-1, us-east-1 — optionnel)","type":"string"}},"required":["org_id","name","db_pass"],"type":"object"},"name":"#,
    r#"{"description":"SUPABASE ⏸ — Met en pause un projet Supabase (arrête les ressources de calcul, les données sont conservées). Retourne le statut mis à jour.","inputSchema":{"properties":{"project_id":{"description":"ID (ref) du projet (optionnel si configuré dans supabase.toml)","type":"string"}},"type":"object"},"name":"#,
    r#"{"description":"SUPABASE ▶️ — Restaure (réactive) un projet Supabase qui était en pause. Retourne le statut mis à jour.","inputSchema":{"properties":{"project_id":{"description":"ID (ref) du projet (optionnel si configuré dans supabase.toml)","type":"string"}},"type":"object"},"name":"#,
    r#"{"description":"SUPABASE 🏢 — Liste toutes les organisations Supabase accessibles avec le token. Retourne id, name et plan.","inputSchema":{"properties":{},"type":"object"},"name":"#,
    r#"{"description":"SUPABASE 🏢 — Récupère le détail d'une organisation Supabase : nom, plan, membres. Utiliser supabase_list_organizations pour obtenir un org_id.","inputSchema":{"properties":{"org_id":{"description":"Slug / ID de l'organisation","type":"string"}},"required":["org_id"],"type":"object"},"name":"#,
    r#"{"description":"SUPABASE 🗄 — Liste toutes les tables d'un projet Supabase avec leur schéma, colonnes et clés étrangères.","inputSchema":{"properties":{"project_id":{"description":"ID (ref) du projet (optionnel si configuré dans supabase.toml)","type":"string"},"schemas":{"description":"Filtrer par schéma(s) séparés par virgule (ex: public,auth — optionnel)","type":"string"}},"type":"object"},"name":"#,
    r#"{"description":"SUPABASE 🔌 — Liste toutes les extensions PostgreSQL disponibles et leur statut d'activation dans un projet Supabase.","inputSchema":{"properties":{"project_id":{"description":"ID (ref) du projet (optionnel si configuré dans supabase.toml)","type":"string"}},"type":"object"},"name":"#,
    r#"{"description":"SUPABASE 📜 — Liste l'historique des migrations de schéma appliquées sur un projet Supabase (name, version, exécutées à quelle date).","inputSchema":{"properties":{"project_id":{"description":"ID (ref) du projet (optionnel si configuré dans supabase.toml)","type":"string"}},"type":"object"},"name":"#,
    r#"{"description":"SUPABASE 🔄 — Applique une migration SQL sur un projet Supabase (DDL uniquement : CREATE TABLE, ALTER TABLE, etc.). Retourne le résultat de la migration.","inputSchema":{"properties":{"name":{"description":"Nom de la migration (ex: create_users_table)","type":"string"},"project_id":{"description":"ID (ref) du projet (optionnel si configuré dans supabase.toml)","type":"string"},"query":{"description":"SQL DDL de la migration","type":"string"}},"required":["name","query"],"type":"object"},"name":"#,
    r#"{"description":"SUPABASE 💾 — Exécute une requête SQL arbitraire (SELECT, INSERT, UPDATE, DELETE) sur un projet Supabase et retourne les résultats. ATTENTION : les modifications sont irréversibles.","inputSchema":{"properties":{"project_id":{"description":"ID (ref) du projet (optionnel si configuré dans supabase.toml)","type":"string"},"query":{"description":"Requête SQL à exécuter","type":"string"}},"required":["query"],"type":"object"},"name":"#,
    r#"{"description":"SUPABASE 🔗 — Retourne l'URL publique d'un projet Supabase (https://{ref}.supabase.co). À utiliser pour construire les appels REST/Realtime/Storage.","inputSchema":{"properties":{"project_id":{"description":"ID (ref) du projet (optionnel si configuré dans supabase.toml)","type":"string"}},"type":"object"},"name":"#,
    r#"{"description":"SUPABASE 🔑 — Récupère les clés API publiques d'un projet Supabase : anon key et service role key. À utiliser pour configurer le client supabase-js.","inputSchema":{"properties":{"project_id":{"description":"ID (ref) du projet (optionnel si configuré dans supabase.toml)","type":"string"}},"type":"object"},"name":"#,
    r#"{"description":"SUPABASE 🔍 — Récupère les recommandations de sécurité ou de performance pour un projet Supabase (security advisor ou performance advisor).","inputSchema":{"properties":{"advisor_type":{"description":"Type d'advisor : security ou performance (défaut: security)","enum":["security","performance"],"type":"string"},"project_id":{"description":"ID (ref) du projet (optionnel si configuré dans supabase.toml)","type":"string"}},"type":"object"},"name":"#,
    r#"{"description":"SUPABASE ⚡ — Liste toutes les Edge Functions déployées sur un projet Supabase avec leur slug, statut et date de déploiement.","inputSchema":{"properties":{"project_id":{"description":"ID (ref) du projet (optionnel si configuré dans supabase.toml)","type":"string"}},"type":"object"},"name":"#,
    r#"{"description":"SUPABASE ⚡ — Récupère le détail d'une Edge Function Supabase : slug, statut, configuration verify_jwt. Utiliser supabase_list_edge_functions pour la liste.","inputSchema":{"properties":{"function_slug":{"description":"Slug de la Edge Function","type":"string"},"project_id":{"description":"ID (ref) du projet (optionnel si configuré dans supabase.toml)","type":"string"}},"required":["function_slug"],"type":"object"},"name":"#,
    r#"{"description":"SUPABASE ⚡ — Déploie ou met à jour une Edge Function Supabase en fournissant son code source (TypeScript/JavaScript). La fonction est disponible immédiatement après déploiement.","inputSchema":{"properties":{"body_code":{"description":"Code source TypeScript/JavaScript de la fonction","type":"string"},"name":{"description":"Nom (slug) de la fonction (ex: hello-world)","type":"string"},"project_id":{"description":"ID (ref) du projet (optionnel si configuré dans supabase.toml)","type":"string"},"verify_jwt":{"description":"Vérifier le JWT Supabase à chaque appel (défaut: true)","type":"boolean"}},"required":["name","body_code"],"type":"object"},"name":"#,
    r#"{"description":"SUPABASE 📝 — Génère les types TypeScript correspondant au schéma de base de données d'un projet Supabase. Retourne le fichier .ts prêt à copier dans le projet.","inputSchema":{"properties":{"project_id":{"description":"ID (ref) du projet (optionnel si configuré dans supabase.toml)","type":"string"},"schemas":{"description":"Schéma(s) à inclure séparés par virgule (ex: public — optionnel)","type":"string"}},"type":"object"},"name":"#,
    r#"{"description":"SUPABASE 📊 — Récupère les logs d'un service d'un projet Supabase (api, postgres, edge-functions, storage). Retourne les entrées les plus récentes.","inputSchema":{"properties":{"cursor":{"description":"Curseur de pagination pour les logs suivants (optionnel)","type":"string"},"limit":{"default":100,"description":"Nombre de lignes de logs (défaut: 100, max: 500)","maximum":500,"minimum":1,"type":"integer"},"project_id":{"description":"ID (ref) du projet (optionnel si configuré dans supabase.toml)","type":"string"},"service":{"description":"Service à inspecter : api | postgres | edge-functions | storage","enum":["api","postgres","edge-functions","storage"],"type":"string"}},"required":["service"],"type":"object"},"name":"#,
    r#"{"description":"SUPABASE 💰 — Récupère l'utilisation et le coût de facturation actuels d'une organisation Supabase (compute, storage, bandwidth).","inputSchema":{"properties":{"org_id":{"description":"Slug / ID de l'organisation","type":"string"}},"required":["org_id"],"type":"object"},"name":"#,
    r#"{"description":"SUPABASE 🌿 — Liste toutes les branches de base de données d'un projet Supabase (Preview Branches). Retourne id, name, statut et git_branch associée.","inputSchema":{"properties":{"project_id":{"description":"ID (ref) du projet (optionnel si configuré dans supabase.toml)","type":"string"}},"type":"object"},"name":"#,
    r#"{"description":"SUPABASE 🌿 — Crée une nouvelle Preview Branch de base de données sur un projet Supabase (associée à une branche git optionnelle).","inputSchema":{"properties":{"branch_name":{"description":"Nom de la branch Supabase","type":"string"},"git_branch":{"description":"Nom de la branche git associée (optionnel)","type":"string"},"project_id":{"description":"ID (ref) du projet (optionnel si configuré dans supabase.toml)","type":"string"}},"required":["branch_name"],"type":"object"},"name":"#,
    r#"{"description":"SUPABASE 🌿 — Supprime définitivement une Preview Branch Supabase. Les données de la branch sont perdues. Utiliser supabase_list_branches pour obtenir un branch_id.","inputSchema":{"properties":{"branch_id":{"description":"ID de la branch Supabase à supprimer","type":"string"},"project_id":{"description":"ID (ref) du projet (optionnel si configuré dans supabase.toml)","type":"string"}},"required":["branch_id"],"type":"object"},"name":"#,
    r#"{"description":"SUPABASE 🌿 — Fusionne les migrations d'une Preview Branch Supabase vers le projet principal (production). Irréversible.","inputSchema":{"properties":{"branch_id":{"description":"ID de la branch à fusionner","type":"string"},"project_id":{"description":"ID (ref) du projet (optionnel si configuré dans supabase.toml)","type":"string"}},"required":["branch_id"],"type":"object"},"name":"#,
    r#"{"description":"SUPABASE 🌿 — Réinitialise une Preview Branch Supabase à une version de migration précise ou depuis le début. Toutes les données de la branch sont supprimées.","inputSchema":{"properties":{"branch_id":{"description":"ID de la branch à réinitialiser","type":"string"},"migration_version":{"description":"Version de migration cible (optionnel — défaut: depuis le début)","type":"string"},"project_id":{"description":"ID (ref) du projet (optionnel si configuré dans supabase.toml)","type":"string"}},"required":["branch_id"],"type":"object"},"name":"#,
    r#"{"description":"SUPABASE 🌿 — Rebase une Preview Branch Supabase sur le projet principal (rejoue les migrations de production puis celles de la branch).","inputSchema":{"properties":{"branch_id":{"description":"ID de la branch à rebaser","type":"string"},"project_id":{"description":"ID (ref) du projet (optionnel si configuré dans supabase.toml)","type":"string"}},"required":["branch_id"],"type":"object"},"name":"#,
    r#"{"description":"SUPABASE 🪣 — Liste tous les buckets Storage d'un projet Supabase (nom, visibilité publique/privée, taille max des fichiers).","inputSchema":{"properties":{"project_id":{"description":"ID (ref) du projet (optionnel si configuré dans supabase.toml)","type":"string"}},"type":"object"},"name":"#,
    r#"{"description":"SUPABASE 🪣 — Récupère la configuration globale du Storage d'un projet Supabase (limites de taille, options de fichiers).","inputSchema":{"properties":{"project_id":{"description":"ID (ref) du projet (optionnel si configuré dans supabase.toml)","type":"string"}},"type":"object"},"name":"#,
    r#"{"description":"SUPABASE 💰 — Confirme le consentement à un coût additionnel avant d'exécuter une opération payante Supabase (ex: création de projet, upgrade de plan).","inputSchema":{"properties":{"confirm":{"description":"true pour confirmer le coût","type":"boolean"},"message":{"description":"Message de confirmation (optionnel)","type":"string"},"org_id":{"description":"ID de l'organisation","type":"string"}},"required":["org_id","confirm"],"type":"object"},"name":"#
];

/// The names of the catalog's tools, in its order (those of [`catalog_names`]).
pub const TOOL_NAMES: [&'static str; 30] = [
    "supabase_list_projects",
    "supabase_get_project",
    "supabase_create_project",
    "supabase_pause_project",
    "supabase_restore_project",
    "supabase_list_organizations",
    "supabase_get_organization",
    "supabase_list_tables",
    "supabase_list_extensions",
    "supabase_list_migrations",
    "supabase_apply_migration",
    "supabase_execute_sql",
    "supabase_get_project_url",
    "supabase_get_publishable_keys",
    "supabase_get_advisors",
    "supabase_list_edge_functions",
    "supabase_get_edge_function",
    "supabase_deploy_edge_function",
    "supabase_generate_typescript_types",
    "supabase_get_logs",
    "supabase_get_cost",
    "supabase_list_branches",
    "supabase_create_branch",
    "supabase_delete_branch",
    "supabase_merge_branch",
    "supabase_reset_branch",
    "supabase_rebase_branch",
    "supabase_list_storage_buckets",
    "supabase_get_storage_config",
    "supabase_confirm_cost"
];

/// The Supabase tools offered to MCP clients, as a JSON array: one entry per tool of
/// [`catalog_names`], in order, each with its description and input schema (from
/// [`TOOL_HEADS`]) and its name.
pub fn tools() -> (r: String)
    ensures
        r@ == catalog_text(texts(TOOL_HEADS@), catalog_names()),
{
    assert(texts(TOOL_NAMES@) =~= catalog_names());
    build_catalog(&TOOL_HEADS, &TOOL_NAMES)
}

/// The names of the tools in the catalog, in its order.
pub open spec fn catalog_names() -> Seq<Seq<char>> {
    seq![
        "supabase_list_projects"@,
        "supabase_get_project"@,
        "supabase_create_project"@,
        "supabase_pause_project"@,
        "supabase_restore_project"@,
        "supabase_list_organizations"@,
        "supabase_get_organization"@,
        "supabase_list_tables"@,
        "supabase_list_extensions"@,
        "supabase_list_migrations"@,
        "supabase_apply_migration"@,
        "supabase_execute_sql"@,
        "supabase_get_project_url"@,
        "supabase_get_publishable_keys"@,
        "supabase_get_advisors"@,
        "supabase_list_edge_functions"@,
        "supabase_get_edge_function"@,
        "supabase_deploy_edge_function"@,
        "supabase_generate_typescript_types"@,
        "supabase_get_logs"@,
        "supabase_get_cost"@,
        "supabase_list_branches"@,
        "supabase_create_branch"@,
        "supabase_delete_branch"@,
        "supabase_merge_branch"@,
        "supabase_reset_branch"@,
        "supabase_rebase_branch"@,
        "supabase_list_storage_buckets"@,
        "supabase_get_storage_config"@,
        "supabase_confirm_cost"@
    ]
}

/// The names of the tools in the catalog, in its order (see [`catalog_names`]).
pub fn tool_names() -> (r: Vec<&'static str>)
    ensures
        r@.map_values(|s: &'static str| s@) == catalog_names(),
{
    let r = vec![
        "supabase_list_projects",
        "supabase_get_project",
        "supabase_create_project",
        "supabase_pause_project",
        "supabase_restore_project",
        "supabase_list_organizations",
        "supabase_get_organization",
        "supabase_list_tables",
        "supabase_list_extensions",
        "supabase_list_migrations",
        "supabase_apply_migration",
        "supabase_execute_sql",
        "supabase_get_project_url",
        "supabase_get_publishable_keys",
        "supabase_get_advisors",
        "supabase_list_edge_functions",
        "supabase_get_edge_function",
        "supabase_deploy_edge_function",
        "supabase_generate_typescript_types",
        "supabase_get_logs",
        "supabase_get_cost",
        "supabase_list_branches",
        "supabase_create_branch",
        "supabase_delete_branch",
        "supabase_merge_branch",
        "supabase_reset_branch",
        "supabase_rebase_branch",
        "supabase_list_storage_buckets",
        "supabase_get_storage_config",
        "supabase_confirm_cost"
    ];
    assert(r@.map_values(|s: &'static str| s@) =~= catalog_names());
    r
}

/// A tool name that [`tools`] does not serve (one outside [`catalog_names`]) gets the
/// unknown-tool error, without a request.
pub proof fn lemma_unknown_tool(cfg: SupabaseConfig, name: Seq<char>, args: Json, rs: Seq<Json>)
    requires
        !catalog_names().contains(name),
    ensures
        handle_view(cfg, name, args, rs) == fail_view("Tool Supabase inconnu : "@ + name),
{
    assert(catalog_names()[0] == "supabase_list_projects"@);
    assert(catalog_names()[1] == "supabase_get_project"@);
    assert(catalog_names()[2] == "supabase_create_project"@);
    assert(catalog_names()[3] == "supabase_pause_project"@);
    assert(catalog_names()[4] == "supabase_restore_project"@);
    assert(catalog_names()[5] == "supabase_list_organizations"@);
    assert(catalog_names()[6] == "supabase_get_organization"@);
    assert(catalog_names()[7] == "supabase_list_tables"@);
    assert(catalog_names()[8] == "supabase_list_extensions"@);
    assert(catalog_names()[9] == "supabase_list_migrations"@);
    assert(catalog_names()[10] == "supabase_apply_migration"@);
    assert(catalog_names()[11] == "supabase_execute_sql"@);
    assert(catalog_names()[12] == "supabase_get_project_url"@);
    assert(catalog_names()[13] == "supabase_get_publishable_keys"@);
    assert(catalog_names()[14] == "supabase_get_advisors"@);
    assert(catalog_names()[15] == "supabase_list_edge_functions"@);
    assert(catalog_names()[16] == "supabase_get_edge_function"@);
    assert(catalog_names()[17] == "supabase_deploy_edge_function"@);
    assert(catalog_names()[18] == "supabase_generate_typescript_types"@);
    assert(catalog_names()[19] == "supabase_get_logs"@);
    assert(catalog_names()[20] == "supabase_get_cost"@);
    assert(catalog_names()[21] == "supabase_list_branches"@);
    assert(catalog_names()[22] == "supabase_create_branch"@);
    assert(catalog_names()[23] == "supabase_delete_branch"@);
    assert(catalog_names()[24] == "supabase_merge_branch"@);
    assert(catalog_names()[25] == "supabase_reset_branch"@);
    assert(catalog_names()[26] == "supabase_rebase_branch"@);
    assert(catalog_names()[27] == "supabase_list_storage_buckets"@);
    assert(catalog_names()[28] == "supabase_get_storage_config"@);
    assert(catalog_names()[29] == "supabase_confirm_cost"@);
}

/// Every tool that [`tools`] serves (those of [`catalog_names`]) and that this module runs is
/// handled: its first step is never the unknown-tool error.
pub proof fn lemma_catalog_handled(cfg: SupabaseConfig, name: Seq<char>, args: Json)
    requires
        catalog_names().contains(name),
        name != "supabase_get_cost"@,
    ensures
        handle_view(cfg, name, args, seq![]) != fail_view("Tool Supabase inconnu : "@ + name),
{
    reveal_strlit("project_id requis — fournir en argument ou configurer dans supabase.toml");
    reveal_strlit("Erreur SQL : ");
    reveal_strlit("Paramètre '");
    reveal_strlit("Paramètre 'service' requis (api | postgres | edge-functions | storage)");
    reveal_strlit("Tool Supabase inconnu : ");
    assert(("Tool Supabase inconnu : "@ + name)[0] == 'T');
    assert(catalog_names()[0] == "supabase_list_projects"@);
    assert(catalog_names()[1] == "supabase_get_project"@);
    assert(catalog_names()[2] == "supabase_create_project"@);
    assert(catalog_names()[3] == "supabase_pause_project"@);
    assert(catalog_names()[4] == "supabase_restore_project"@);
    assert(catalog_names()[5] == "supabase_list_organizations"@);
    assert(catalog_names()[6] == "supabase_get_organization"@);
    assert(catalog_names()[7] == "supabase_list_tables"@);
    assert(catalog_names()[8] == "supabase_list_extensions"@);
    assert(catalog_names()[9] == "supabase_list_migrations"@);
    assert(catalog_names()[10] == "supabase_apply_migration"@);
    assert(catalog_names()[11] == "supabase_execute_sql"@);
    assert(catalog_names()[12] == "supabase_get_project_url"@);
    assert(catalog_names()[13] == "supabase_get_publishable_keys"@);
    assert(catalog_names()[14] == "supabase_get_advisors"@);
    assert(catalog_names()[15] == "supabase_list_edge_functions"@);
    assert(catalog_names()[16] == "supabase_get_edge_function"@);
    assert(catalog_names()[17] == "supabase_deploy_edge_function"@);
    assert(catalog_names()[18] == "supabase_generate_typescript_types"@);
    assert(catalog_names()[19] == "supabase_get_logs"@);
    assert(catalog_names()[20] == "supabase_get_cost"@);
    assert(catalog_names()[21] == "supabase_list_branches"@);
    assert(catalog_names()[22] == "supabase_create_branch"@);
    assert(catalog_names()[23] == "supabase_delete_branch"@);
    assert(catalog_names()[24] == "supabase_merge_branch"@);
    assert(catalog_names()[25] == "supabase_reset_branch"@);
    assert(catalog_names()[26] == "supabase_rebase_branch"@);
    assert(catalog_names()[27] == "supabase_list_storage_buckets"@);
    assert(catalog_names()[28] == "supabase_get_storage_config"@);
    assert(catalog_names()[29] == "supabase_confirm_cost"@);
}

/// The names of each catalog tool's input properties and of those it requires, in catalog
/// order (properties by name).
pub open spec fn catalog_schemas() -> Seq<(Seq<char>, Seq<Seq<char>>, Seq<Seq<char>>)> {
    seq![
        ("supabase_list_projects"@, seq![], seq![]),
        ("supabase_get_project"@, seq!["project_id"@], seq![]),
        ("supabase_create_project"@, seq!["db_pass"@, "name"@, "org_id"@, "region"@], seq!["org_id"@, "name"@, "db_pass"@]),
        ("supabase_pause_project"@, seq!["project_id"@], seq![]),
        ("supabase_restore_project"@, seq!["project_id"@], seq![]),
        ("supabase_list_organizations"@, seq![], seq![]),
        ("supabase_get_organization"@, seq!["org_id"@], seq!["org_id"@]),
        ("supabase_list_tables"@, seq!["project_id"@, "schemas"@], seq![]),
        ("supabase_list_extensions"@, seq!["project_id"@], seq![]),
        ("supabase_list_migrations"@, seq!["project_id"@], seq![]),
        ("supabase_apply_migration"@, seq!["name"@, "project_id"@, "query"@], seq!["name"@, "query"@]),
        ("supabase_execute_sql"@, seq!["project_id"@, "query"@], seq!["query"@]),
        ("supabase_get_project_url"@, seq!["project_id"@], seq![]),
        ("supabase_get_publishable_keys"@, seq!["project_id"@], seq![]),
        ("supabase_get_advisors"@, seq!["advisor_type"@, "project_id"@], seq![]),
        ("supabase_list_edge_functions"@, seq!["project_id"@], seq![]),
        ("supabase_get_edge_function"@, seq!["function_slug"@, "project_id"@], seq!["function_slug"@]),
        ("supabase_deploy_edge_function"@, seq!["body_code"@, "name"@, "project_id"@, "verify_jwt"@], seq!["name"@, "body_code"@]),
        ("supabase_generate_typescript_types"@, seq!["project_id"@, "schemas"@], seq![]),
        ("supabase_get_logs"@, seq!["cursor"@, "limit"@, "project_id"@, "service"@], seq!["service"@]),
        ("supabase_get_cost"@, seq!["org_id"@], seq!["org_id"@]),
        ("supabase_list_branches"@, seq!["project_id"@], seq![]),
        ("supabase_create_branch"@, seq!["branch_name"@, "git_branch"@, "project_id"@], seq!["branch_name"@]),
        ("supabase_delete_branch"@, seq!["branch_id"@, "project_id"@], seq!["branch_id"@]),
        ("supabase_merge_branch"@, seq!["branch_id"@, "project_id"@], seq!["branch_id"@]),
        ("supabase_reset_branch"@, seq!["branch_id"@, "migration_version"@, "project_id"@], seq!["branch_id"@]),
        ("supabase_rebase_branch"@, seq!["branch_id"@, "project_id"@], seq!["branch_id"@]),
        ("supabase_list_storage_buckets"@, seq!["project_id"@], seq![]),
        ("supabase_get_storage_config"@, seq!["project_id"@], seq![]),
        ("supabase_confirm_cost"@, seq!["confirm"@, "message"@, "org_id"@], seq!["org_id"@, "confirm"@])
    ]
}

/// The names of each catalog tool's input properties and required inputs (see
/// [`catalog_schemas`]).
pub fn tool_schemas() -> (r: Vec<SchemaNames>)
    ensures
        r@.map_values(|e: SchemaNames| schema_view(e)) == catalog_schemas(),
{
    let r: Vec<SchemaNames> = vec![
        ("supabase_list_projects", vec![], vec![]),
        ("supabase_get_project", vec!["project_id"], vec![]),
        ("supabase_create_project", vec!["db_pass", "name", "org_id", "region"], vec!["org_id", "name", "db_pass"]),
        ("supabase_pause_project", vec!["project_id"], vec![]),
        ("supabase_restore_project", vec!["project_id"], vec![]),
        ("supabase_list_organizations", vec![], vec![]),
        ("supabase_get_organization", vec!["org_id"], vec!["org_id"]),
        ("supabase_list_tables", vec!["project_id", "schemas"], vec![]),
        ("supabase_list_extensions", vec!["project_id"], vec![]),
        ("supabase_list_migrations", vec!["project_id"], vec![]),
        ("supabase_apply_migration", vec!["name", "project_id", "query"], vec!["name", "query"]),
        ("supabase_execute_sql", vec!["project_id", "query"], vec!["query"]),
        ("supabase_get_project_url", vec!["project_id"], vec![]),
        ("supabase_get_publishable_keys", vec!["project_id"], vec![]),
        ("supabase_get_advisors", vec!["advisor_type", "project_id"], vec![]),
        ("supabase_list_edge_functions", vec!["project_id"], vec![]),
        ("supabase_get_edge_function", vec!["function_slug", "project_id"], vec!["function_slug"]),
        ("supabase_deploy_edge_function", vec!["body_code", "name", "project_id", "verify_jwt"], vec!["name", "body_code"]),
        ("supabase_generate_typescript_types", vec!["project_id", "schemas"], vec![]),
        ("supabase_get_logs", vec!["cursor", "limit", "project_id", "service"], vec!["service"]),
        ("supabase_get_cost", vec!["org_id"], vec!["org_id"]),
        ("supabase_list_branches", vec!["project_id"], vec![]),
        ("supabase_create_branch", vec!["branch_name", "git_branch", "project_id"], vec!["branch_name"]),
        ("supabase_delete_branch", vec!["branch_id", "project_id"], vec!["branch_id"]),
        ("supabase_merge_branch", vec!["branch_id", "project_id"], vec!["branch_id"]),
        ("supabase_reset_branch", vec!["branch_id", "migration_version", "project_id"], vec!["branch_id"]),
        ("supabase_rebase_branch", vec!["branch_id", "project_id"], vec!["branch_id"]),
        ("supabase_list_storage_buckets", vec!["project_id"], vec![]),
        ("supabase_get_storage_config", vec!["project_id"], vec![]),
        ("supabase_confirm_cost", vec!["confirm", "message", "org_id"], vec!["org_id", "confirm"])
    ];
    assert(r@[0].1@.map_values(|s: &'static str| s@) =~= catalog_schemas()[0].1);
    assert(r@[0].2@.map_values(|s: &'static str| s@) =~= catalog_schemas()[0].2);
    assert(r@[1].1@.map_values(|s: &'static str| s@) =~= catalog_schemas()[1].1);
    assert(r@[1].2@.map_values(|s: &'static str| s@) =~= catalog_schemas()[1].2);
    assert(r@[2].1@.map_values(|s: &'static str| s@) =~= catalog_schemas()[2].1);
    assert(r@[2].2@.map_values(|s: &'static str| s@) =~= catalog_schemas()[2].2);
    assert(r@[3].1@.map_values(|s: &'static str| s@) =~= catalog_schemas()[3].1);
    assert(r@[3].2@.map_values(|s: &'static str| s@) =~= catalog_schemas()[3].2);
    assert(r@[4].1@.map_values(|s: &'static str| s@) =~= catalog_schemas()[4].1);
    assert(r@[4].2@.map_values(|s: &'static str| s@) =~= catalog_schemas()[4].2);
    assert(r@[5].1@.map_values(|s: &'static str| s@) =~= catalog_schemas()[5].1);
    assert(r@[5].2@.map_values(|s: &'static str| s@) =~= catalog_schemas()[5].2);
    assert(r@[6].1@.map_values(|s: &'static str| s@) =~= catalog_schemas()[6].1);
    assert(r@[6].2@.map_values(|s: &'static str| s@) =~= catalog_schemas()[6].2);
    assert(r@[7].1@.map_values(|s: &'static str| s@) =~= catalog_schemas()[7].1);
    assert(r@[7].2@.map_values(|s: &'static str| s@) =~= catalog_schemas()[7].2);
    assert(r@[8].1@.map_values(|s: &'static str| s@) =~= catalog_schemas()[8].1);
    assert(r@[8].2@.map_values(|s: &'static str| s@) =~= catalog_schemas()[8].2);
    assert(r@[9].1@.map_values(|s: &'static str| s@) =~= catalog_schemas()[9].1);
    assert(r@[9].2@.map_values(|s: &'static str| s@) =~= catalog_schemas()[9].2);
    assert(r@[10].1@.map_values(|s: &'static str| s@) =~= catalog_schemas()[10].1);
    assert(r@[10].2@.map_values(|s: &'static str| s@) =~= catalog_schemas()[10].2);
    assert(r@[11].1@.map_values(|s: &'static str| s@) =~= catalog_schemas()[11].1);
    assert(r@[11].2@.map_values(|s: &'static str| s@) =~= catalog_schemas()[11].2);
    assert(r@[12].1@.map_values(|s: &'static str| s@) =~= catalog_schemas()[12].1);
    assert(r@[12].2@.map_values(|s: &'static str| s@) =~= catalog_schemas()[12].2);
    assert(r@[13].1@.map_values(|s: &'static str| s@) =~= catalog_schemas()[13].1);
    assert(r@[13].2@.map_values(|s: &'static str| s@) =~= catalog_schemas()[13].2);
    assert(r@[14].1@.map_values(|s: &'static str| s@) =~= catalog_schemas()[14].1);
    assert(r@[14].2@.map_values(|s: &'static str| s@) =~= catalog_schemas()[14].2);
    assert(r@[15].1@.map_values(|s: &'static str| s@) =~= catalog_schemas()[15].1);
    assert(r@[15].2@.map_values(|s: &'static str| s@) =~= catalog_schemas()[15].2);
    assert(r@[16].1@.map_values(|s: &'static str| s@) =~= catalog_schemas()[16].1);
    assert(r@[16].2@.map_values(|s: &'static str| s@) =~= catalog_schemas()[16].2);
    assert(r@[17].1@.map_values(|s: &'static str| s@) =~= catalog_schemas()[17].1);
    assert(r@[17].2@.map_values(|s: &'static str| s@) =~= catalog_schemas()[17].2);
    assert(r@[18].1@.map_values(|s: &'static str| s@) =~= catalog_schemas()[18].1);
    assert(r@[18].2@.map_values(|s: &'static str| s@) =~= catalog_schemas()[18].2);
    assert(r@[19].1@.map_values(|s: &'static str| s@) =~= catalog_schemas()[19].1);
    assert(r@[19].2@.map_values(|s: &'static str| s@) =~= catalog_schemas()[19].2);
    assert(r@[20].1@.map_values(|s: &'static str| s@) =~= catalog_schemas()[20].1);
    assert(r@[20].2@.map_values(|s: &'static str| s@) =~= catalog_schemas()[20].2);
    assert(r@[21].1@.map_values(|s: &'static str| s@) =~= catalog_schemas()[21].1);
    assert(r@[21].2@.map_values(|s: &'static str| s@) =~= catalog_schemas()[21].2);
    assert(r@[22].1@.map_values(|s: &'static str| s@) =~= catalog_schemas()[22].1);
    assert(r@[22].2@.map_values(|s: &'static str| s@) =~= catalog_schemas()[22].2);
    assert(r@[23].1@.map_values(|s: &'static str| s@) =~= catalog_schemas()[23].1);
    assert(r@[23].2@.map_values(|s: &'static str| s@) =~= catalog_schemas()[23].2);
    assert(r@[24].1@.map_values(|s: &'static str| s@) =~= catalog_schemas()[24].1);
    assert(r@[24].2@.map_values(|s: &'static str| s@) =~= catalog_schemas()[24].2);
    assert(r@[25].1@.map_values(|s: &'static str| s@) =~= catalog_schemas()[25].1);
    assert(r@[25].2@.map_values(|s: &'static str| s@) =~= catalog_schemas()[25].2);
    assert(r@[26].1@.map_values(|s: &'static str| s@) =~= catalog_schemas()[26].1);
    assert(r@[26].2@.map_values(|s: &'static str| s@) =~= catalog_schemas()[26].2);
    assert(r@[27].1@.map_values(|s: &'static str| s@) =~= catalog_schemas()[27].1);
    assert(r@[27].2@.map_values(|s: &'static str| s@) =~= catalog_schemas()[27].2);
    assert(r@[28].1@.map_values(|s: &'static str| s@) =~= catalog_schemas()[28].1);
    assert(r@[28].2@.map_values(|s: &'static str| s@) =~= catalog_schemas()[28].2);
    assert(r@[29].1@.map_values(|s: &'static str| s@) =~= catalog_schemas()[29].1);
    assert(r@[29].2@.map_values(|s: &'static str| s@) =~= catalog_schemas()[29].2);
    assert(r@.map_values(|e: SchemaNames| schema_view(e)) =~= catalog_schemas());
    r
}

/// Every tool of the catalog requires only inputs that are among its properties.
pub proof fn lemma_required_are_properties(i: int)
    requires
        0 <= i < catalog_schemas().len(),
    ensures
        requires_properties(catalog_schemas()[i]),
{
    if i == 2 {
        assert(catalog_schemas()[2].1[2] == catalog_schemas()[2].2[0]);
        assert(catalog_schemas()[2].1[1] == catalog_schemas()[2].2[1]);
        assert(catalog_schemas()[2].1[0] == catalog_schemas()[2].2[2]);
    }
    if i == 6 {
        assert(catalog_schemas()[6].1[0] == catalog_schemas()[6].2[0]);
    }
    if i == 10 {
        assert(catalog_schemas()[10].1[0] == catalog_schemas()[10].2[0]);
        assert(catalog_schemas()[10].1[2] == catalog_schemas()[10].2[1]);
    }
    if i == 11 {
        assert(catalog_schemas()[11].1[1] == catalog_schemas()[11].2[0]);
    }
    if i == 16 {
        assert(catalog_schemas()[16].1[0] == catalog_schemas()[16].2[0]);
    }
    if i == 17 {
        assert(catalog_schemas()[17].1[1] == catalog_schemas()[17].2[0]);
        assert(catalog_schemas()[17].1[0] == catalog_schemas()[17].2[1]);
    }
    if i == 19 {
        assert(catalog_schemas()[19].1[3] == catalog_schemas()[19].2[0]);
    }
    if i == 20 {
        assert(catalog_schemas()[20].1[0] == catalog_schemas()[20].2[0]);
    }
    if i == 22 {
        assert(catalog_schemas()[22].1[0] == catalog_schemas()[22].2[0]);
    }
    if i == 23 {
        assert(catalog_schemas()[23].1[0] == catalog_schemas()[23].2[0]);
    }
    if i == 24 {
        assert(catalog_schemas()[24].1[0] == catalog_schemas()[24].2[0]);
    }
    if i == 25 {
        assert(catalog_schemas()[25].1[0] == catalog_schemas()[25].2[0]);
    }
    if i == 26 {
        assert(catalog_schemas()[26].1[0] == catalog_schemas()[26].2[0]);
    }
    if i == 29 {
        assert(catalog_schemas()[29].1[2] == catalog_schemas()[29].2[0]);
        assert(catalog_schemas()[29].1[0] == catalog_schemas()[29].2[1]);
    }
}

/// `supabase_execute_sql` posts the `query` argument, and nothing else, to the query endpoint
/// of the project named by `project_id`.
pub proof fn lemma_execute_sql_request(cfg: SupabaseConfig, args: Json, pid: Seq<char>, q: Seq<char>)
    requires
        args.at("project_id"@).str_of() == Some(pid),
        pid.len() > 0,
        args.at("query"@).str_of() == Some(q),
    ensures
        handle_view(cfg, "supabase_execute_sql"@, args, seq![]) == send_view(
            Method::Post,
            "https://api.supabase.com/v1/projects/"@ + pid + "/database/query"@,
            Some("{\"query\":"@ + quoted(q) + "}"@),
        ),
{
    reveal_strlit("supabase_execute_sql");
    reveal_strlit("supabase_list_projects");
    assert("supabase_list_projects"@.len() == 22);
    reveal_strlit("supabase_get_project");
    assert("supabase_execute_sql"@[9] != "supabase_get_project"@[9]);
    reveal_strlit("supabase_create_project");
    assert("supabase_create_project"@.len() == 23);
    reveal_strlit("supabase_pause_project");
    assert("supabase_pause_project"@.len() == 22);
    reveal_strlit("supabase_restore_project");
    assert("supabase_restore_project"@.len() == 24);
    reveal_strlit("supabase_list_organizations");
    assert("supabase_list_organizations"@.len() == 27);
    reveal_strlit("supabase_get_organization");
    assert("supabase_get_organization"@.len() == 25);
    reveal_strlit("supabase_get_project_url");
    assert("supabase_get_project_url"@.len() == 24);
    reveal_strlit("supabase_list_tables");
    assert("supabase_execute_sql"@[9] != "supabase_list_tables"@[9]);
    reveal_strlit("supabase_list_extensions");
    assert("supabase_list_extensions"@.len() == 24);
    reveal_strlit("supabase_list_migrations");
    assert("supabase_list_migrations"@.len() == 24);
    reveal_strlit("supabase_apply_migration");
    assert("supabase_apply_migration"@.len() == 24);
    assert("supabase_execute_sql"@.len() == 20);
    let path = "projects/"@ + pid + "/database/query"@;
    reveal_strlit("projects/");
    reveal_strlit("https://api.supabase.com/v1/");
    reveal_strlit("https://api.supabase.com/v1/projects/");
    assert(path[0] == 'p');
    assert(trim_start_spec(path, '/') == path);
    assert(mgmt_url(path) =~= "https://api.supabase.com/v1/projects/"@ + pid + "/database/query"@);
}

} // verus!
