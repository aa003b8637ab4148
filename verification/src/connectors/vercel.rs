//! Vercel connector (REST API).
use vstd::prelude::*;
use crate::connectors::catalog::{build_catalog, catalog_text, requires_properties, schema_view, texts, SchemaNames};
use crate::fmt::{get_nested_str_or, get_str_or, join_spec, join_strs, str_or, views};
use crate::http::{fail_view, ok_view, send, send_status, send_view, status_view, Method, Step, StepView};
use crate::json::{get_array, get_bool, get_i64, get_str, get_u64, json_text, push_quoted, quoted, Json};
use crate::text::{contains_char, dec_int, dec_nat, i64_to_string, owned, push_str, push_u64, str_chars, str_eq};
use crate::timefmt::{utc_from_timestamp_minute, utc_from_timestamp_text};

verus! {

/// Vercel credentials (`~/.osmozzz/vercel.toml`).
pub struct VercelConfig {
    pub token: String,
    pub team_id: Option<String>,
}

/// `url` scoped to the team `team_id` when one is set and not empty.
pub open spec fn with_team_spec(url: Seq<char>, team_id: Option<Seq<char>>) -> Seq<char> {
    match team_id {
        Some(tid) => if tid.len() > 0 {
            if url.contains('?') {
                url + "&teamId="@ + tid
            } else {
                url + "?teamId="@ + tid
            }
        } else {
            url
        },
        None => url,
    }
}

impl VercelConfig {
    /// The team id as text, when one is set.
    pub open spec fn team_view(&self) -> Option<Seq<char>> {
        match self.team_id {
            Some(t) => Some(t@),
            None => None,
        }
    }

    /// Appends `?teamId=…` (or `&teamId=…` when the URL has a query) if a team is set.
    pub fn with_team(&self, url: &str) -> (r: String)
        ensures
            r@ == with_team_spec(url@, self.team_view()),
    {
        match &self.team_id {
            Some(tid) => {
                if tid.as_str().is_empty() {
                    owned(url)
                } else {
                    let mut out = owned(url);
                    if contains_char(&str_chars(url), '?') {
                        push_str(&mut out, "&teamId=");
                    } else {
                        push_str(&mut out, "?teamId=");
                    }
                    push_str(&mut out, tid.as_str());
                    out
                }
            },
            None => owned(url),
        }
    }
}

/// The label of a deployment state.
pub open spec fn state_label(s: Seq<char>) -> Seq<char> {
    if s == "READY"@ {
        "✅ READY"@
    } else if s == "ERROR"@ {
        "❌ ERROR"@
    } else if s == "BUILDING"@ {
        "⏳ BUILDING"@
    } else if s == "QUEUED"@ {
        "⏳ QUEUED"@
    } else if s == "CANCELED"@ {
        "❌ CANCELED"@
    } else {
        s
    }
}

/// Decorates a deployment state with an icon; unknown states are kept as they are.
pub fn fmt_state<'a>(state: &'a str) -> (r: &'a str)
    ensures
        r@ == state_label(state@),
{
    if str_eq(state, "READY") {
        "✅ READY"
    } else if str_eq(state, "ERROR") {
        "❌ ERROR"
    } else if str_eq(state, "BUILDING") {
        "⏳ BUILDING"
    } else if str_eq(state, "QUEUED") {
        "⏳ QUEUED"
    } else if str_eq(state, "CANCELED") {
        "❌ CANCELED"
    } else {
        state
    }
}

/// Integer division truncating toward zero, as Rust's `/` on integers.
pub open spec fn trunc_div(a: int, b: int) -> int {
    if a >= 0 {
        a / b
    } else {
        -((-a) / b)
    }
}

/// The rendering of a millisecond timestamp: its minute when chrono can place it, else the
/// number of milliseconds, and `—` when there is none.
pub open spec fn ts_text(ms: Option<i64>) -> Seq<char> {
    match ms {
        Some(ms) => match utc_from_timestamp_text(trunc_div(ms as int, 1000)) {
            Some(t) => t,
            None => dec_int(ms as int),
        },
        None => "—"@,
    }
}

/// Renders a millisecond Unix timestamp as `YYYY-MM-DD HH:MM UTC`.
pub fn fmt_ts(ms: Option<i64>) -> (r: String)
    ensures
        r@ == ts_text(ms),
{
    match ms {
        Some(ms) => {
            let secs: i64 = if ms >= 0 {
                ms / 1000
            } else {
                let m: i128 = -(ms as i128);
                -((m / 1000) as i64)
            };
            match utc_from_timestamp_minute(secs) {
                Some(t) => t,
                None => i64_to_string(ms),
            }
        },
        None => owned("—"),
    }
}

/// Renders a JSON millisecond timestamp (see [`fmt_ts`]).
pub fn fmt_ts_val(v: &Json) -> (r: String)
    ensures
        r@ == ts_text(v.i64_of()),
{
    fmt_ts(v.as_i64())
}


// ─── Tool calls ──────────────────────────────────────────────────────────────

/// A tool that makes one request: the request, then the text rendered from its response.
pub open spec fn one_call(req: StepView, rs: Seq<Json>, text: spec_fn(Json) -> Seq<char>) -> StepView {
    if rs.len() == 0 {
        req
    } else {
        ok_view(text(rs[0]))
    }
}

/// An authenticated `GET` of `url` scoped to the configured team.
pub open spec fn team_get(cfg: VercelConfig, url: Seq<char>) -> StepView {
    send_view(Method::Get, with_team_spec(url, cfg.team_view()), None)
}

fn team_get_step(cfg: &VercelConfig, url: &str) -> (s: Step)
    ensures
        s@ == team_get(*cfg, url@),
{
    send(Method::Get, cfg.with_team(url), None)
}

/// The error for a missing argument.
pub open spec fn missing_text(key: Seq<char>) -> Seq<char> {
    "Missing param: "@ + key
}

fn missing(key: &str) -> (s: Step)
    ensures
        s@ == fail_view(missing_text(key@)),
{
    Step::Done(Err(concat("Missing param: ", key)))
}

fn concat(a: &str, b: &str) -> (r: String)
    ensures
        r@ == a@ + b@,
{
    let mut r = owned(a);
    push_str(&mut r, b);
    r
}

/// The kinds of listed items.
#[derive(Clone, Copy)]
pub enum Listed {
    Project,
    Deployment,
    Domain,
    Env,
    Team,
    Member,
    Event,
}

/// The state of the latest deployment of a project, `—` when there is none.
pub open spec fn latest_state(p: Json) -> Seq<char> {
    match p.at("latestDeployments"@).array_of() {
        Some(a) => if a.len() > 0 {
            str_or(a[0], "readyState"@, "—"@)
        } else {
            "—"@
        },
        None => "—"@,
    }
}

fn get_latest_state(p: &Json) -> (r: &str)
    ensures
        r@ == latest_state(*p),
{
    match get_array(p, "latestDeployments") {
        Some(a) => if a.len() > 0 {
            get_str_or(&a[0], "readyState", "—")
        } else {
            "—"
        },
        None => "—",
    }
}

/// The string items of an array member, joined by `, `; `—` when the member is not an array.
pub open spec fn targets_text(e: Json) -> Seq<char> {
    match e.at("target"@).array_of() {
        Some(a) => join_spec(strings_of(a), ", "@),
        None => "—"@,
    }
}

/// The texts of the string items, in order.
pub open spec fn strings_of(items: Seq<Json>) -> Seq<Seq<char>>
    decreases items.len(),
{
    if items.len() == 0 {
        seq![]
    } else {
        match items.last().str_of() {
            Some(s) => strings_of(items.drop_last()).push(s),
            None => strings_of(items.drop_last()),
        }
    }
}

fn get_targets(e: &Json) -> (r: String)
    ensures
        r@ == targets_text(*e),
{
    match get_array(e, "target") {
        Some(items) => {
            let mut parts: Vec<&str> = Vec::new();
            let n = items.len();
            for i in 0..n
                invariant
                    n == items@.len(),
                    views(parts@) == strings_of(items@.take(i as int)),
            {
                assert(items@.take(i + 1).drop_last() == items@.take(i as int));
                assert(items@.take(i + 1).last() == items@[i as int]);
                match items[i].as_str() {
                    Some(s) => {
                        parts.push(s);
                        assert(views(parts@) == views(parts@.drop_last()).push(s@));
                    },
                    None => {},
                }
            }
            assert(items@.take(n as int) == items@);
            join_strs(&parts, ", ")
        },
        None => owned("—"),
    }
}

/// The message of a build event: its payload text, else its text, else its message.
pub open spec fn event_message(e: Json) -> Seq<char> {
    match e.at("payload"@).at("text"@).str_of() {
        Some(t) => t,
        None => match e.at("text"@).str_of() {
            Some(t) => t,
            None => str_or(e, "message"@, ""@),
        },
    }
}

fn get_event_message(e: &Json) -> (r: &str)
    ensures
        r@ == event_message(*e),
{
    let payload_text = match e.get("payload") {
        Some(p) => get_str(p, "text"),
        None => None,
    };
    match payload_text {
        Some(t) => t,
        None => match get_str(e, "text") {
            Some(t) => t,
            None => get_str_or(e, "message", ""),
        },
    }
}

/// One listed item.
pub open spec fn item_text(kind: Listed, j: Json) -> Seq<char> {
    match kind {
        Listed::Project => "🚀 "@ + str_or(j, "name"@, "?"@) + "\n  id="@ + str_or(j, "id"@, "?"@)
            + " · framework="@ + str_or(j, "framework"@, "—"@) + " · dernier deploy="@ + state_label(
            latest_state(j),
        ),
        Listed::Deployment => state_label(str_or(j, "state"@, "?"@)) + " ["@ + str_or(
            j,
            "target"@,
            "preview"@,
        ) + "] "@ + str_or(j, "url"@, "—"@) + "\n  id="@ + str_or(j, "uid"@, "?"@) + " · "@ + ts_text(
            j.at("createdAt"@).i64_of(),
        ),
        Listed::Domain => (if flag(j, "configured"@) {
            "✅"@
        } else {
            "❌"@
        }) + " "@ + str_or(j, "name"@, "?"@) + "\n  SSL="@ + str_or(j.at("ssl"@), "state"@, "—"@),
        Listed::Env => str_or(j, "key"@, "?"@) + "  ["@ + str_or(j, "type"@, "?"@) + "] → "@
            + targets_text(j),
        Listed::Team => str_or(j, "name"@, "?"@) + " (@"@ + str_or(j, "slug"@, "?"@) + ")\n  id="@
            + str_or(j, "id"@, "?"@),
        Listed::Member => str_or(j, "username"@, "?"@) + " ("@ + str_or(j, "email"@, "—"@)
            + ")\n  rôle="@ + str_or(j, "role"@, "—"@) + " · uid="@ + str_or(j, "uid"@, "?"@),
        Listed::Event => "["@ + str_or(j, "type"@, "log"@) + "] "@ + event_message(j),
    }
}

/// Member `key` of `j` as a boolean, `false` when it is not one.
pub open spec fn flag(j: Json, key: Seq<char>) -> bool {
    match j.at(key).bool_of() {
        Some(b) => b,
        None => false,
    }
}

fn get_flag(j: &Json, key: &str) -> (b: bool)
    ensures
        b == flag(*j, key@),
{
    match get_bool(j, key) {
        Some(b) => b,
        None => false,
    }
}

fn project_text(j: &Json) -> (r: String)
    ensures
        r@ == item_text(Listed::Project, *j),
{
    let mut out = owned("🚀 ");
    push_str(&mut out, get_str_or(j, "name", "?"));
    push_str(&mut out, "\n  id=");
    push_str(&mut out, get_str_or(j, "id", "?"));
    push_str(&mut out, " · framework=");
    push_str(&mut out, get_str_or(j, "framework", "—"));
    push_str(&mut out, " · dernier deploy=");
    push_str(&mut out, fmt_state(get_latest_state(j)));
    out
}

fn deployment_text(j: &Json) -> (r: String)
    ensures
        r@ == item_text(Listed::Deployment, *j),
{
    let mut out = owned(fmt_state(get_str_or(j, "state", "?")));
    push_str(&mut out, " [");
    push_str(&mut out, get_str_or(j, "target", "preview"));
    push_str(&mut out, "] ");
    push_str(&mut out, get_str_or(j, "url", "—"));
    push_str(&mut out, "\n  id=");
    push_str(&mut out, get_str_or(j, "uid", "?"));
    push_str(&mut out, " · ");
    push_str(&mut out, fmt_ts(get_i64(j, "createdAt")).as_str());
    out
}

fn domain_text(j: &Json) -> (r: String)
    ensures
        r@ == item_text(Listed::Domain, *j),
{
    let mut out = if get_flag(j, "configured") {
        owned("✅")
    } else {
        owned("❌")
    };
    push_str(&mut out, " ");
    push_str(&mut out, get_str_or(j, "name", "?"));
    push_str(&mut out, "\n  SSL=");
    push_str(&mut out, get_nested_str_or(j, "ssl", "state", "—"));
    out
}

fn other_text(kind: Listed, j: &Json) -> (r: String)
    requires
        kind != Listed::Project && kind != Listed::Deployment && kind != Listed::Domain,
    ensures
        r@ == item_text(kind, *j),
{
    match kind {
        Listed::Env => {
            let mut out = owned(get_str_or(j, "key", "?"));
            push_str(&mut out, "  [");
            push_str(&mut out, get_str_or(j, "type", "?"));
            push_str(&mut out, "] → ");
            push_str(&mut out, get_targets(j).as_str());
            out
        },
        Listed::Team => {
            let mut out = owned(get_str_or(j, "name", "?"));
            push_str(&mut out, " (@");
            push_str(&mut out, get_str_or(j, "slug", "?"));
            push_str(&mut out, ")\n  id=");
            push_str(&mut out, get_str_or(j, "id", "?"));
            out
        },
        Listed::Member => {
            let mut out = owned(get_str_or(j, "username", "?"));
            push_str(&mut out, " (");
            push_str(&mut out, get_str_or(j, "email", "—"));
            push_str(&mut out, ")\n  rôle=");
            push_str(&mut out, get_str_or(j, "role", "—"));
            push_str(&mut out, " · uid=");
            push_str(&mut out, get_str_or(j, "uid", "?"));
            out
        },
        _ => {
            let mut out = owned("[");
            push_str(&mut out, get_str_or(j, "type", "log"));
            push_str(&mut out, "] ");
            push_str(&mut out, get_event_message(j));
            out
        },
    }
}

fn format_item(kind: Listed, j: &Json) -> (r: String)
    ensures
        r@ == item_text(kind, *j),
{
    match kind {
        Listed::Project => project_text(j),
        Listed::Deployment => deployment_text(j),
        Listed::Domain => domain_text(j),
        _ => other_text(kind, j),
    }
}

/// The items' texts joined by `sep`.
pub open spec fn joined(kind: Listed, items: Seq<Json>, sep: Seq<char>) -> Seq<char>
    decreases items.len(),
{
    if items.len() == 0 {
        seq![]
    } else if items.len() == 1 {
        item_text(kind, items[0])
    } else {
        joined(kind, items.drop_last(), sep) + sep + item_text(kind, items.last())
    }
}

fn join_items(kind: Listed, items: &Vec<Json>, sep: &str) -> (r: String)
    ensures
        r@ == joined(kind, items@, sep@),
{
    let mut out = String::new();
    let n = items.len();
    for i in 0..n
        invariant
            n == items@.len(),
            out@ == joined(kind, items@.take(i as int), sep@),
    {
        assert(items@.take(i + 1).drop_last() == items@.take(i as int));
        assert(items@.take(i + 1).last() == items@[i as int]);
        if i > 0 {
            push_str(&mut out, sep);
        } else {
            assert(out@ == Seq::<char>::empty());
        }
        push_str(&mut out, format_item(kind, &items[i]).as_str());
    }
    assert(items@.take(n as int) == items@);
    out
}

/// The array member `key` of a response, empty when it is not an array.
pub open spec fn items_of(r: Json, key: Seq<char>) -> Seq<Json> {
    match r.at(key).array_of() {
        Some(a) => a,
        None => seq![],
    }
}

/// A list response: `empty` when member `key` has no item, else the items joined by `sep`.
pub open spec fn listing(kind: Listed, r: Json, key: Seq<char>, sep: Seq<char>, empty: Seq<char>) -> Seq<char> {
    let items = items_of(r, key);
    if items.len() == 0 {
        empty
    } else {
        joined(kind, items, sep)
    }
}

fn listing_exec(kind: Listed, r: &Json, key: &str, sep: &str, empty: &str) -> (t: String)
    ensures
        t@ == listing(kind, *r, key@, sep@, empty@),
{
    match get_array(r, key) {
        Some(items) => if items.len() == 0 {
            owned(empty)
        } else {
            join_items(kind, items, sep)
        },
        None => owned(empty),
    }
}


/// A tool that lists one member of a response fetched with a team-scoped `GET`.
pub open spec fn list_view(
    cfg: VercelConfig,
    rs: Seq<Json>,
    url: Seq<char>,
    kind: Listed,
    key: Seq<char>,
    sep: Seq<char>,
    empty: Seq<char>,
) -> StepView {
    one_call(team_get(cfg, url), rs, |r: Json| listing(kind, r, key, sep, empty))
}

fn list_tool(
    cfg: &VercelConfig,
    rs: &Vec<Json>,
    url: &str,
    kind: Listed,
    key: &str,
    sep: &str,
    empty: &str,
) -> (s: Step)
    ensures
        s@ == list_view(*cfg, rs@, url@, kind, key@, sep@, empty@),
{
    if rs.len() == 0 {
        team_get_step(cfg, url)
    } else {
        Step::Done(Ok(listing_exec(kind, &rs[0], key, sep, empty)))
    }
}

/// One of the latest deployments of a project, on its own line.
pub open spec fn recent_line(d: Json) -> Seq<char> {
    "\n  "@ + state_label(str_or(d, "readyState"@, "?"@)) + " ["@ + str_or(d, "target"@, "preview"@)
        + "] "@ + str_or(d, "url"@, "—"@) + " — "@ + str_or(d, "uid"@, "?"@) + " ("@ + ts_text(
        d.at("createdAt"@).i64_of(),
    ) + ")"@
}

/// The lines of the given deployments.
pub open spec fn recent_lines(ds: Seq<Json>) -> Seq<char>
    decreases ds.len(),
{
    if ds.len() == 0 {
        seq![]
    } else {
        recent_lines(ds.drop_last()) + recent_line(ds.last())
    }
}

/// `vercel_get_project`: the project and its five latest deployments.
pub open spec fn project_detail(r: Json) -> Seq<char> {
    let ds = items_of(r, "latestDeployments"@);
    "🚀 "@ + str_or(r, "name"@, "?"@) + "\n  id="@ + str_or(r, "id"@, "?"@) + " · framework="@ + str_or(
        r,
        "framework"@,
        "—"@,
    ) + " · repo="@ + str_or(r.at("link"@), "repo"@, "—"@) + "\n\nDerniers déploiements:"@
        + recent_lines(if ds.len() > 5 { ds.take(5) } else { ds })
}

fn recent_line_exec(d: &Json) -> (r: String)
    ensures
        r@ == recent_line(*d),
{
    let mut out = owned("\n  ");
    push_str(&mut out, fmt_state(get_str_or(d, "readyState", "?")));
    push_str(&mut out, " [");
    push_str(&mut out, get_str_or(d, "target", "preview"));
    push_str(&mut out, "] ");
    push_str(&mut out, get_str_or(d, "url", "—"));
    push_str(&mut out, " — ");
    push_str(&mut out, get_str_or(d, "uid", "?"));
    push_str(&mut out, " (");
    push_str(&mut out, fmt_ts(get_i64(d, "createdAt")).as_str());
    push_str(&mut out, ")");
    out
}

fn project_detail_exec(r: &Json) -> (t: String)
    ensures
        t@ == project_detail(*r),
{
    let mut out = owned("🚀 ");
    push_str(&mut out, get_str_or(r, "name", "?"));
    push_str(&mut out, "\n  id=");
    push_str(&mut out, get_str_or(r, "id", "?"));
    push_str(&mut out, " · framework=");
    push_str(&mut out, get_str_or(r, "framework", "—"));
    push_str(&mut out, " · repo=");
    push_str(&mut out, get_nested_str_or(r, "link", "repo", "—"));
    push_str(&mut out, "\n\nDerniers déploiements:");
    let ghost head = out@;
    let ghost ds = items_of(*r, "latestDeployments"@);
    match get_array(r, "latestDeployments") {
        Some(items) => {
            let n = if items.len() > 5 {
                5
            } else {
                items.len()
            };
            assert(items@ == ds);
            for i in 0..n
                invariant
                    n <= items@.len(),
                    out@ == head + recent_lines(items@.take(i as int)),
            {
                assert(items@.take(i + 1).drop_last() == items@.take(i as int));
                assert(items@.take(i + 1).last() == items@[i as int]);
                push_str(&mut out, recent_line_exec(&items[i]).as_str());
            }
            assert(items@.take(n as int) == if ds.len() > 5 { ds.take(5) } else { ds });
        },
        None => {
            assert(recent_lines(ds) == Seq::<char>::empty());
            assert(out@ == head + recent_lines(ds));
        },
    }
    out
}

pub open spec fn get_project_view(cfg: VercelConfig, args: Json, rs: Seq<Json>) -> StepView {
    match args.at("project_id"@).str_of() {
        None => fail_view(missing_text("project_id"@)),
        Some(pid) => one_call(
            team_get(cfg, "https://api.vercel.com/v9/projects/"@ + pid),
            rs,
            |r: Json| project_detail(r),
        ),
    }
}

fn get_project(cfg: &VercelConfig, args: &Json, rs: &Vec<Json>) -> (s: Step)
    ensures
        s@ == get_project_view(*cfg, *args, rs@),
{
    match get_str(args, "project_id") {
        None => missing("project_id"),
        Some(pid) => if rs.len() == 0 {
            team_get_step(cfg, concat("https://api.vercel.com/v9/projects/", pid).as_str())
        } else {
            Step::Done(Ok(project_detail_exec(&rs[0])))
        },
    }
}

/// The `limit` argument, 10 by default.
pub open spec fn limit_of(args: Json) -> nat {
    match args.at("limit"@).u64_of() {
        Some(n) => n as nat,
        None => 10,
    }
}

/// `vercel_list_deployments`.
pub open spec fn list_deployments_view(cfg: VercelConfig, args: Json, rs: Seq<Json>) -> StepView {
    list_view(
        cfg,
        rs,
        "https://api.vercel.com/v6/deployments?limit="@ + dec_nat(limit_of(args)) + match args.at(
            "project_id"@,
        ).str_of() {
            Some(pid) => "&projectId="@ + pid,
            None => seq![],
        },
        Listed::Deployment,
        "deployments"@,
        "\n\n"@,
        "Aucun déploiement trouvé."@,
    )
}

fn list_deployments(cfg: &VercelConfig, args: &Json, rs: &Vec<Json>) -> (s: Step)
    ensures
        s@ == list_deployments_view(*cfg, *args, rs@),
{
    let limit = match get_u64(args, "limit") {
        Some(n) => n,
        None => 10,
    };
    let mut url = owned("https://api.vercel.com/v6/deployments?limit=");
    push_u64(&mut url, limit);
    match get_str(args, "project_id") {
        Some(pid) => {
            push_str(&mut url, "&projectId=");
            push_str(&mut url, pid);
        },
        None => {},
    }
    assert(url@ == "https://api.vercel.com/v6/deployments?limit="@ + dec_nat(limit_of(*args))
        + match args.at("project_id"@).str_of() {
        Some(pid) => "&projectId="@ + pid,
        None => seq![],
    });
    list_tool(cfg, rs, url.as_str(), Listed::Deployment, "deployments", "\n\n", "Aucun déploiement trouvé.")
}

/// `vercel_get_deployment`.
pub open spec fn deployment_detail(id: Seq<char>, r: Json) -> Seq<char> {
    let head = state_label(str_or(r, "readyState"@, "?"@)) + " ["@ + str_or(r, "target"@, "preview"@)
        + "] "@ + str_or(r, "url"@, "—"@) + "\n  id="@ + id + " · créé="@ + ts_text(
        r.at("createdAt"@).i64_of(),
    ) + " · prêt="@ + ts_text(r.at("ready"@).i64_of()) + "\n"@;
    match r.at("errorMessage"@).str_of() {
        Some(e) => if e.len() > 0 {
            head + "  ❌ Erreur: "@ + e + "\n"@
        } else {
            head
        },
        None => head,
    }
}

pub open spec fn get_deployment_view(cfg: VercelConfig, args: Json, rs: Seq<Json>) -> StepView {
    match args.at("deployment_id"@).str_of() {
        None => fail_view(missing_text("deployment_id"@)),
        Some(id) => one_call(
            team_get(cfg, "https://api.vercel.com/v13/deployments/"@ + id),
            rs,
            |r: Json| deployment_detail(id, r),
        ),
    }
}

fn get_deployment(cfg: &VercelConfig, args: &Json, rs: &Vec<Json>) -> (s: Step)
    ensures
        s@ == get_deployment_view(*cfg, *args, rs@),
{
    let id = match get_str(args, "deployment_id") {
        None => return missing("deployment_id"),
        Some(x) => x,
    };
    if rs.len() == 0 {
        return team_get_step(cfg, concat("https://api.vercel.com/v13/deployments/", id).as_str());
    }
    let r = &rs[0];
    let mut out = owned(fmt_state(get_str_or(r, "readyState", "?")));
    push_str(&mut out, " [");
    push_str(&mut out, get_str_or(r, "target", "preview"));
    push_str(&mut out, "] ");
    push_str(&mut out, get_str_or(r, "url", "—"));
    push_str(&mut out, "\n  id=");
    push_str(&mut out, id);
    push_str(&mut out, " · créé=");
    push_str(&mut out, fmt_ts(get_i64(r, "createdAt")).as_str());
    push_str(&mut out, " · prêt=");
    push_str(&mut out, fmt_ts(get_i64(r, "ready")).as_str());
    push_str(&mut out, "\n");
    match get_str(r, "errorMessage") {
        Some(e) => if !e.is_empty() {
            push_str(&mut out, "  ❌ Erreur: ");
            push_str(&mut out, e);
            push_str(&mut out, "\n");
        },
        None => {},
    }
    Step::Done(Ok(out))
}

/// `vercel_list_env`: variable names and targets, never their values.
pub open spec fn list_env_view(cfg: VercelConfig, args: Json, rs: Seq<Json>) -> StepView {
    match args.at("project_id"@).str_of() {
        None => fail_view(missing_text("project_id"@)),
        Some(pid) => list_view(
            cfg,
            rs,
            "https://api.vercel.com/v9/projects/"@ + pid + "/env"@,
            Listed::Env,
            "envs"@,
            "\n"@,
            "Aucune variable d'environnement."@,
        ),
    }
}

fn list_env(cfg: &VercelConfig, args: &Json, rs: &Vec<Json>) -> (s: Step)
    ensures
        s@ == list_env_view(*cfg, *args, rs@),
{
    match get_str(args, "project_id") {
        None => missing("project_id"),
        Some(pid) => {
            let mut url = concat("https://api.vercel.com/v9/projects/", pid);
            push_str(&mut url, "/env");
            list_tool(cfg, rs, url.as_str(), Listed::Env, "envs", "\n", "Aucune variable d'environnement.")
        },
    }
}

/// `vercel_cancel_deployment`.
pub open spec fn cancel_view(cfg: VercelConfig, args: Json, rs: Seq<Json>) -> StepView {
    match args.at("deployment_id"@).str_of() {
        None => fail_view(missing_text("deployment_id"@)),
        Some(id) => one_call(
            send_view(
                Method::Patch,
                with_team_spec(
                    "https://api.vercel.com/v12/deployments/"@ + id + "/cancel"@,
                    cfg.team_view(),
                ),
                Some("{}"@),
            ),
            rs,
            |r: Json|
                "✅ Déploiement "@ + id + " annulé. État: "@ + state_label(
                    str_or(r, "readyState"@, "?"@),
                ),
        ),
    }
}

fn cancel_deployment(cfg: &VercelConfig, args: &Json, rs: &Vec<Json>) -> (s: Step)
    ensures
        s@ == cancel_view(*cfg, *args, rs@),
{
    let id = match get_str(args, "deployment_id") {
        None => return missing("deployment_id"),
        Some(x) => x,
    };
    if rs.len() == 0 {
        let mut url = concat("https://api.vercel.com/v12/deployments/", id);
        push_str(&mut url, "/cancel");
        return send(Method::Patch, cfg.with_team(url.as_str()), Some(owned("{}")));
    }
    let mut out = owned("✅ Déploiement ");
    push_str(&mut out, id);
    push_str(&mut out, " annulé. État: ");
    push_str(&mut out, fmt_state(get_str_or(&rs[0], "readyState", "?")));
    Step::Done(Ok(out))
}

/// `vercel_list_teams`: the token goes in the query too, and no team scope is added.
pub open spec fn list_teams_view(cfg: VercelConfig, rs: Seq<Json>) -> StepView {
    one_call(
        send_view(Method::Get, "https://api.vercel.com/v2/teams?limit=20&accessToken="@ + cfg.token@, None),
        rs,
        |r: Json|
            listing(
                Listed::Team,
                r,
                "teams"@,
                "\n\n"@,
                "Aucune équipe trouvée (compte personnel uniquement)."@,
            ),
    )
}

fn list_teams(cfg: &VercelConfig, rs: &Vec<Json>) -> (s: Step)
    ensures
        s@ == list_teams_view(*cfg, rs@),
{
    if rs.len() == 0 {
        return send(
            Method::Get,
            concat("https://api.vercel.com/v2/teams?limit=20&accessToken=", cfg.token.as_str()),
            None,
        );
    }
    Step::Done(
        Ok(
            listing_exec(
                Listed::Team,
                &rs[0],
                "teams",
                "\n\n",
                "Aucune équipe trouvée (compte personnel uniquement).",
            ),
        ),
    )
}

/// `vercel_check_alias`.
pub open spec fn check_alias_view(cfg: VercelConfig, args: Json, rs: Seq<Json>) -> StepView {
    match args.at("alias"@).str_of() {
        None => fail_view(missing_text("alias"@)),
        Some(alias) => one_call(
            team_get(cfg, "https://api.vercel.com/v4/aliases/"@ + alias),
            rs,
            |r: Json|
                "Alias: "@ + alias + "\n  → déploiement="@ + str_or(r, "deploymentId"@, "?"@)
                    + "\n  url="@ + str_or(r.at("deployment"@), "url"@, "—"@) + "\n  créé="@ + ts_text(
                    r.at("createdAt"@).i64_of(),
                ),
        ),
    }
}

fn check_alias(cfg: &VercelConfig, args: &Json, rs: &Vec<Json>) -> (s: Step)
    ensures
        s@ == check_alias_view(*cfg, *args, rs@),
{
    let alias = match get_str(args, "alias") {
        None => return missing("alias"),
        Some(x) => x,
    };
    if rs.len() == 0 {
        return team_get_step(cfg, concat("https://api.vercel.com/v4/aliases/", alias).as_str());
    }
    let r = &rs[0];
    let mut out = owned("Alias: ");
    push_str(&mut out, alias);
    push_str(&mut out, "\n  → déploiement=");
    push_str(&mut out, get_str_or(r, "deploymentId", "?"));
    push_str(&mut out, "\n  url=");
    push_str(&mut out, get_nested_str_or(r, "deployment", "url", "—"));
    push_str(&mut out, "\n  créé=");
    push_str(&mut out, fmt_ts(get_i64(r, "createdAt")).as_str());
    Step::Done(Ok(out))
}

/// The events of a build log response: the response itself when it is an array, else its
/// `events` member.
pub open spec fn events_of(r: Json) -> Seq<Json> {
    match r.array_of() {
        Some(a) => a,
        None => items_of(r, "events"@),
    }
}

/// `vercel_get_build_logs`.
pub open spec fn build_logs_view(cfg: VercelConfig, args: Json, rs: Seq<Json>) -> StepView {
    match args.at("deployment_id"@).str_of() {
        None => fail_view(missing_text("deployment_id"@)),
        Some(id) => one_call(
            team_get(
                cfg,
                "https://api.vercel.com/v2/deployments/"@ + id + "/events?builds=1&limit=100"@,
            ),
            rs,
            |r: Json|
                if events_of(r).len() == 0 {
                    "Aucun log de build disponible."@
                } else {
                    joined(Listed::Event, events_of(r), "\n"@)
                },
        ),
    }
}

fn build_logs(cfg: &VercelConfig, args: &Json, rs: &Vec<Json>) -> (s: Step)
    ensures
        s@ == build_logs_view(*cfg, *args, rs@),
{
    let id = match get_str(args, "deployment_id") {
        None => return missing("deployment_id"),
        Some(x) => x,
    };
    if rs.len() == 0 {
        let mut url = concat("https://api.vercel.com/v2/deployments/", id);
        push_str(&mut url, "/events?builds=1&limit=100");
        return team_get_step(cfg, url.as_str());
    }
    let r = &rs[0];
    let events = match r.as_array() {
        Some(a) => a,
        None => match get_array(r, "events") {
            Some(a) => a,
            None => return Step::Done(Ok(owned("Aucun log de build disponible."))),
        },
    };
    if events.len() == 0 {
        Step::Done(Ok(owned("Aucun log de build disponible.")))
    } else {
        Step::Done(Ok(join_items(Listed::Event, events, "\n")))
    }
}


/// `vercel_redeploy`: fetch the deployment for its name, then redeploy it to production.
pub open spec fn redeploy_view(cfg: VercelConfig, args: Json, rs: Seq<Json>) -> StepView {
    match args.at("deployment_id"@).str_of() {
        None => fail_view(missing_text("deployment_id"@)),
        Some(id) => if rs.len() == 0 {
            team_get(cfg, "https://api.vercel.com/v13/deployments/"@ + id)
        } else {
            let name = str_or(rs[0], "name"@, ""@);
            if name.len() == 0 {
                fail_view("Impossible de récupérer le nom du déploiement "@ + id)
            } else {
                one_call(
                    send_view(
                        Method::Post,
                        with_team_spec(
                            "https://api.vercel.com/v13/deployments/"@ + id + "/redeploy"@,
                            cfg.team_view(),
                        ),
                        Some("{\"name\":"@ + quoted(name) + ",\"target\":\"production\"}"@),
                    ),
                    rs.drop_first(),
                    |r: Json|
                        "✅ Redeploy lancé pour "@ + name + "\n  nouveau id="@ + str_or(r, "id"@, "?"@)
                            + "\n  url="@ + str_or(r, "url"@, "—"@) + "\n  état="@ + state_label(
                            str_or(r, "readyState"@, "?"@),
                        ),
                )
            }
        },
    }
}

fn redeploy(cfg: &VercelConfig, args: &Json, rs: &Vec<Json>) -> (s: Step)
    ensures
        s@ == redeploy_view(*cfg, *args, rs@),
{
    let id = match get_str(args, "deployment_id") {
        None => return missing("deployment_id"),
        Some(x) => x,
    };
    if rs.len() == 0 {
        return team_get_step(cfg, concat("https://api.vercel.com/v13/deployments/", id).as_str());
    }
    let name = get_str_or(&rs[0], "name", "");
    if name.is_empty() {
        return Step::Done(Err(concat("Impossible de récupérer le nom du déploiement ", id)));
    }
    if rs.len() == 1 {
        let mut url = concat("https://api.vercel.com/v13/deployments/", id);
        push_str(&mut url, "/redeploy");
        let mut body = owned("{\"name\":");
        push_quoted(&mut body, name);
        push_str(&mut body, ",\"target\":\"production\"}");
        return send(Method::Post, cfg.with_team(url.as_str()), Some(body));
    }
    let r = &rs[1];
    assert(rs@.drop_first()[0] == rs@[1]);
    let mut out = owned("✅ Redeploy lancé pour ");
    push_str(&mut out, name);
    push_str(&mut out, "\n  nouveau id=");
    push_str(&mut out, get_str_or(r, "id", "?"));
    push_str(&mut out, "\n  url=");
    push_str(&mut out, get_str_or(r, "url", "—"));
    push_str(&mut out, "\n  état=");
    push_str(&mut out, fmt_state(get_str_or(r, "readyState", "?")));
    Step::Done(Ok(out))
}

/// The outcome of a deletion from the status it was answered with
/// (`{"success": .., "status": ..}`): `ok` on success, else `err` and the status.
pub open spec fn deleted_view(r: Json, ok: Seq<char>, err: Seq<char>) -> StepView {
    if flag(r, "success"@) {
        ok_view(ok)
    } else {
        fail_view(err + str_or(r, "status"@, ""@) + ")"@)
    }
}

/// `vercel_delete_project`.
pub open spec fn delete_project_view(cfg: VercelConfig, args: Json, rs: Seq<Json>) -> StepView {
    match args.at("project_id"@).str_of() {
        None => fail_view(missing_text("project_id"@)),
        Some(pid) => if rs.len() == 0 {
            status_view(
                Method::Delete,
                with_team_spec("https://api.vercel.com/v9/projects/"@ + pid, cfg.team_view()),
            )
        } else {
            deleted_view(
                rs[0],
                "✅ Projet "@ + pid + " supprimé définitivement."@,
                "Échec de la suppression du projet "@ + pid + " (HTTP "@,
            )
        },
    }
}

fn deleted(r: &Json, ok: String, err: String) -> (s: Step)
    ensures
        s@ == deleted_view(*r, ok@, err@),
{
    if get_flag(r, "success") {
        Step::Done(Ok(ok))
    } else {
        let mut e = err;
        push_str(&mut e, get_str_or(r, "status", ""));
        push_str(&mut e, ")");
        Step::Done(Err(e))
    }
}

fn delete_project(cfg: &VercelConfig, args: &Json, rs: &Vec<Json>) -> (s: Step)
    ensures
        s@ == delete_project_view(*cfg, *args, rs@),
{
    let pid = match get_str(args, "project_id") {
        None => return missing("project_id"),
        Some(x) => x,
    };
    if rs.len() == 0 {
        return send_status(
            Method::Delete,
            cfg.with_team(concat("https://api.vercel.com/v9/projects/", pid).as_str()),
        );
    }
    let mut ok = concat("✅ Projet ", pid);
    push_str(&mut ok, " supprimé définitivement.");
    let mut err = concat("Échec de la suppression du projet ", pid);
    push_str(&mut err, " (HTTP ");
    deleted(&rs[0], ok, err)
}

/// `vercel_add_domain_to_project`.
pub open spec fn add_domain_view(cfg: VercelConfig, args: Json, rs: Seq<Json>) -> StepView {
    match args.at("project_id"@).str_of() {
        None => fail_view(missing_text("project_id"@)),
        Some(pid) => match args.at("domain"@).str_of() {
            None => fail_view(missing_text("domain"@)),
            Some(domain) => one_call(
                send_view(
                    Method::Post,
                    with_team_spec(
                        "https://api.vercel.com/v9/projects/"@ + pid + "/domains"@,
                        cfg.team_view(),
                    ),
                    Some("{\"name\":"@ + quoted(domain) + "}"@),
                ),
                rs,
                |r: Json|
                    "Domaine ajouté au projet "@ + pid + "\n  domaine="@ + str_or(r, "name"@, domain)
                        + "\n  vérifié="@ + if flag(r, "verified"@) {
                        "✅"@
                    } else {
                        "⏳ (vérification en attente)"@
                    },
            ),
        },
    }
}

fn add_domain(cfg: &VercelConfig, args: &Json, rs: &Vec<Json>) -> (s: Step)
    ensures
        s@ == add_domain_view(*cfg, *args, rs@),
{
    let pid = match get_str(args, "project_id") {
        None => return missing("project_id"),
        Some(x) => x,
    };
    let domain = match get_str(args, "domain") {
        None => return missing("domain"),
        Some(x) => x,
    };
    if rs.len() == 0 {
        let mut url = concat("https://api.vercel.com/v9/projects/", pid);
        push_str(&mut url, "/domains");
        let mut body = owned("{\"name\":");
        push_quoted(&mut body, domain);
        push_str(&mut body, "}");
        return send(Method::Post, cfg.with_team(url.as_str()), Some(body));
    }
    let r = &rs[0];
    let mut out = concat("Domaine ajouté au projet ", pid);
    push_str(&mut out, "\n  domaine=");
    push_str(&mut out, get_str_or(r, "name", domain));
    push_str(&mut out, "\n  vérifié=");
    if get_flag(r, "verified") {
        push_str(&mut out, "✅");
    } else {
        push_str(&mut out, "⏳ (vérification en attente)");
    }
    Step::Done(Ok(out))
}

/// `vercel_remove_domain_from_project`.
pub open spec fn remove_domain_view(cfg: VercelConfig, args: Json, rs: Seq<Json>) -> StepView {
    match args.at("project_id"@).str_of() {
        None => fail_view(missing_text("project_id"@)),
        Some(pid) => match args.at("domain"@).str_of() {
            None => fail_view(missing_text("domain"@)),
            Some(domain) => if rs.len() == 0 {
                status_view(
                    Method::Delete,
                    with_team_spec(
                        "https://api.vercel.com/v9/projects/"@ + pid + "/domains/"@ + domain,
                        cfg.team_view(),
                    ),
                )
            } else {
                deleted_view(
                    rs[0],
                    "✅ Domaine "@ + domain + " retiré du projet "@ + pid + "."@,
                    "Échec du retrait du domaine "@ + domain + " (HTTP "@,
                )
            },
        },
    }
}

fn remove_domain(cfg: &VercelConfig, args: &Json, rs: &Vec<Json>) -> (s: Step)
    ensures
        s@ == remove_domain_view(*cfg, *args, rs@),
{
    let pid = match get_str(args, "project_id") {
        None => return missing("project_id"),
        Some(x) => x,
    };
    let domain = match get_str(args, "domain") {
        None => return missing("domain"),
        Some(x) => x,
    };
    if rs.len() == 0 {
        let mut url = concat("https://api.vercel.com/v9/projects/", pid);
        push_str(&mut url, "/domains/");
        push_str(&mut url, domain);
        return send_status(Method::Delete, cfg.with_team(url.as_str()));
    }
    let mut ok = concat("✅ Domaine ", domain);
    push_str(&mut ok, " retiré du projet ");
    push_str(&mut ok, pid);
    push_str(&mut ok, ".");
    let mut err = concat("Échec du retrait du domaine ", domain);
    push_str(&mut err, " (HTTP ");
    deleted(&rs[0], ok, err)
}

/// What a call of Vercel tool `name` with `args` does next, given the responses so far.
pub open spec fn handle_view(cfg: VercelConfig, name: Seq<char>, args: Json, rs: Seq<Json>) -> StepView {
    if name == "vercel_list_projects"@ {
        list_view(
            cfg,
            rs,
            "https://api.vercel.com/v9/projects?limit=20"@,
            Listed::Project,
            "projects"@,
            "\n\n"@,
            "Aucun projet trouvé."@,
        )
    } else if name == "vercel_get_project"@ {
        get_project_view(cfg, args, rs)
    } else if name == "vercel_list_deployments"@ {
        list_deployments_view(cfg, args, rs)
    } else if name == "vercel_get_deployment"@ {
        get_deployment_view(cfg, args, rs)
    } else if name == "vercel_list_domains"@ {
        list_view(
            cfg,
            rs,
            "https://api.vercel.com/v5/domains?limit=20"@,
            Listed::Domain,
            "domains"@,
            "\n\n"@,
            "Aucun domaine trouvé."@,
        )
    } else if name == "vercel_list_env"@ {
        list_env_view(cfg, args, rs)
    } else if name == "vercel_cancel_deployment"@ {
        cancel_view(cfg, args, rs)
    } else if name == "vercel_list_teams"@ {
        list_teams_view(cfg, rs)
    } else if name == "vercel_check_alias"@ {
        check_alias_view(cfg, args, rs)
    } else if name == "vercel_get_build_logs"@ {
        build_logs_view(cfg, args, rs)
    } else if name == "vercel_redeploy"@ {
        redeploy_view(cfg, args, rs)
    } else if name == "vercel_delete_project"@ {
        delete_project_view(cfg, args, rs)
    } else if name == "vercel_add_domain_to_project"@ {
        add_domain_view(cfg, args, rs)
    } else if name == "vercel_remove_domain_from_project"@ {
        remove_domain_view(cfg, args, rs)
    } else if name == "vercel_get_project_members"@ {
        match args.at("project_id"@).str_of() {
            None => fail_view(missing_text("project_id"@)),
            Some(pid) => list_view(
                cfg,
                rs,
                "https://api.vercel.com/v9/projects/"@ + pid + "/members?limit=20"@,
                Listed::Member,
                "members"@,
                "\n\n"@,
                "Aucun membre trouvé pour ce projet."@,
            ),
        }
    } else {
        fail_view("Unknown vercel tool: "@ + name)
    }
}

/// Runs one step of the Vercel tool `name` called with `args`: `responses` holds the parsed
/// responses to the requests made so far.
pub fn handle(cfg: &VercelConfig, name: &str, args: &Json, responses: &Vec<Json>) -> (s: Step)
    ensures
        s@ == handle_view(*cfg, name@, *args, responses@),
{
    let rs = responses;
    if str_eq(name, "vercel_list_projects") {
        list_tool(
            cfg,
            rs,
            "https://api.vercel.com/v9/projects?limit=20",
            Listed::Project,
            "projects",
            "\n\n",
            "Aucun projet trouvé.",
        )
    } else if str_eq(name, "vercel_get_project") {
        get_project(cfg, args, rs)
    } else if str_eq(name, "vercel_list_deployments") {
        list_deployments(cfg, args, rs)
    } else if str_eq(name, "vercel_get_deployment") {
        get_deployment(cfg, args, rs)
    } else if str_eq(name, "vercel_list_domains") {
        list_tool(
            cfg,
            rs,
            "https://api.vercel.com/v5/domains?limit=20",
            Listed::Domain,
            "domains",
            "\n\n",
            "Aucun domaine trouvé.",
        )
    } else if str_eq(name, "vercel_list_env") {
        list_env(cfg, args, rs)
    } else if str_eq(name, "vercel_cancel_deployment") {
        cancel_deployment(cfg, args, rs)
    } else if str_eq(name, "vercel_list_teams") {
        list_teams(cfg, rs)
    } else if str_eq(name, "vercel_check_alias") {
        check_alias(cfg, args, rs)
    } else if str_eq(name, "vercel_get_build_logs") {
        build_logs(cfg, args, rs)
    } else if str_eq(name, "vercel_redeploy") {
        redeploy(cfg, args, rs)
    } else if str_eq(name, "vercel_delete_project") {
        delete_project(cfg, args, rs)
    } else if str_eq(name, "vercel_add_domain_to_project") {
        add_domain(cfg, args, rs)
    } else if str_eq(name, "vercel_remove_domain_from_project") {
        remove_domain(cfg, args, rs)
    } else if str_eq(name, "vercel_get_project_members") {
        match get_str(args, "project_id") {
            None => missing("project_id"),
            Some(pid) => {
                let mut url = concat("https://api.vercel.com/v9/projects/", pid);
                push_str(&mut url, "/members?limit=20");
                list_tool(
                    cfg,
                    rs,
                    url.as_str(),
                    Listed::Member,
                    "members",
                    "\n\n",
                    "Aucun membre trouvé pour ce projet.",
                )
            },
        }
    } else {
        Step::Done(Err(concat("Unknown vercel tool: ", name)))
    }
}

/// No Vercel tool makes more than two requests, and only `vercel_redeploy` makes two.
pub proof fn lemma_handle_ends(cfg: VercelConfig, name: Seq<char>, args: Json, rs: Seq<Json>)
    ensures
        rs.len() >= 2 ==> handle_view(cfg, name, args, rs) is Done,
        rs.len() >= 1 && name != "vercel_redeploy"@ ==> handle_view(cfg, name, args, rs) is Done,
{
}

/// Every request carries the token, and all but the team listing are scoped to the configured
/// team.
pub proof fn lemma_requests_scoped(cfg: VercelConfig, name: Seq<char>, args: Json, rs: Seq<Json>)
    ensures
        handle_view(cfg, name, args, rs) matches StepView::Send(req) ==> req.authenticated && (
        name != "vercel_list_teams"@ ==> exists|u: Seq<char>|
            req.url == with_team_spec(u, cfg.team_view())),
{
}

/// Whether two listed environment variables show alike: same `key`, `type` and `target`.
pub open spec fn env_shown_alike(a: Json, b: Json) -> bool {
    &&& a.at("key"@) == b.at("key"@)
    &&& a.at("type"@) == b.at("type"@)
    &&& a.at("target"@) == b.at("target"@)
}

proof fn lemma_joined_alike(a: Seq<Json>, b: Seq<Json>, sep: Seq<char>)
    requires
        a.len() == b.len(),
        forall|i: int| 0 <= i < a.len() ==> #[trigger] env_shown_alike(a[i], b[i]),
    ensures
        joined(Listed::Env, a, sep) == joined(Listed::Env, b, sep),
    decreases a.len(),
{
    if a.len() > 1 {
        assert(env_shown_alike(a.last(), b.last()));
        assert forall|i: int| 0 <= i < a.drop_last().len() implies #[trigger] env_shown_alike(
            a.drop_last()[i],
            b.drop_last()[i],
        ) by {
            assert(env_shown_alike(a[i], b[i]));
        }
        lemma_joined_alike(a.drop_last(), b.drop_last(), sep);
    } else if a.len() == 1 {
        assert(env_shown_alike(a[0], b[0]));
    }
}

/// `vercel_list_env` shows the names, types and targets of the variables, never their values:
/// two responses whose entries agree one by one on `key`, `type` and `target` give the same
/// outcome, whatever else the entries hold.
pub proof fn lemma_env_values_hidden(cfg: VercelConfig, args: Json, r1: Json, r2: Json)
    requires
        items_of(r1, "envs"@).len() == items_of(r2, "envs"@).len(),
        forall|i: int|
            0 <= i < items_of(r1, "envs"@).len() ==> #[trigger] env_shown_alike(
                items_of(r1, "envs"@)[i],
                items_of(r2, "envs"@)[i],
            ),
    ensures
        handle_view(cfg, "vercel_list_env"@, args, seq![r1]) == handle_view(
            cfg,
            "vercel_list_env"@,
            args,
            seq![r2],
        ),
{
    reveal_strlit("vercel_list_env");
    reveal_strlit("vercel_list_projects");
    reveal_strlit("vercel_get_project");
    reveal_strlit("vercel_list_deployments");
    reveal_strlit("vercel_get_deployment");
    reveal_strlit("vercel_list_domains");
    assert("vercel_list_env"@.len() == 15);
    assert("vercel_list_projects"@.len() == 20);
    assert("vercel_get_project"@.len() == 18);
    assert("vercel_list_deployments"@.len() == 23);
    assert("vercel_get_deployment"@.len() == 21);
    assert("vercel_list_domains"@.len() == 19);
    lemma_joined_alike(items_of(r1, "envs"@), items_of(r2, "envs"@), "\n"@);
}

/// The Vercel tools offered to MCP clients: name, description and input schema of each, as a
/// The catalog's tools, in its order: for each, the JSON text of its members before its name
/// (its description and input schema).
pub const TOOL_HEADS: [&'static str; 15] = [
    r#"{"description":"VERCEL — Liste tous les projets avec leur nom, id, framework et statut du dernier déploiement.","inputSchema":{"properties":{},"type":"object"},"name":"#,
    r#"{"description":"VERCEL — Récupère le détail complet d'un projet (framework, repo lié, derniers déploiements).","inputSchema":{"properties":{"project_id":{"description":"ID ou nom du projet Vercel","type":"string"}},"required":["project_id"],"type":"object"},"name":"#,
    r#"{"description":"VERCEL — Liste les déploiements récents. Filtrable par projet. Retourne id, url, état, date, cible (production/preview).","inputSchema":{"properties":{"limit":{"default":10,"maximum":100,"minimum":1,"type":"integer"},"project_id":{"description":"Filtrer par projet (optionnel)","type":"string"}},"type":"object"},"name":"#,
    r#"{"description":"VERCEL — Récupère le statut détaillé d'un déploiement spécifique (url, état, erreur éventuelle).","inputSchema":{"properties":{"deployment_id":{"description":"ID du déploiement (ex: dpl_xxx)","type":"string"}},"required":["deployment_id"],"type":"object"},"name":"#,
    r#"{"description":"VERCEL — Liste les domaines associés au compte avec leur état de configuration et SSL.","inputSchema":{"properties":{},"type":"object"},"name":"#,
    r#"{"description":"VERCEL — Liste les NOMS des variables d'environnement d'un projet (jamais les valeurs — sécurité). Indique le type (encrypted/plain) et les cibles (production/preview/development).","inputSchema":{"properties":{"project_id":{"description":"ID ou nom du projet","type":"string"}},"required":["project_id"],"type":"object"},"name":"#,
    r#"{"description":"VERCEL — Annule un déploiement en cours (état BUILDING ou QUEUED).","inputSchema":{"properties":{"deployment_id":{"description":"ID du déploiement à annuler","type":"string"}},"required":["deployment_id"],"type":"object"},"name":"#,
    r#"{"description":"VERCEL — Liste les équipes auxquelles l'utilisateur appartient avec leurs IDs.","inputSchema":{"properties":{},"type":"object"},"name":"#,
    r#"{"description":"VERCEL — Vérifie vers quel déploiement pointe un alias (ex: myapp.vercel.app).","inputSchema":{"properties":{"alias":{"description":"Alias à vérifier (ex: myapp.vercel.app)","type":"string"}},"required":["alias"],"type":"object"},"name":"#,
    r#"{"description":"VERCEL — Récupère les logs de build d'un déploiement (events de type build). Retourne chaque ligne formatée \"[type] message\".","inputSchema":{"properties":{"deployment_id":{"description":"ID du déploiement (ex: dpl_xxx)","type":"string"}},"required":["deployment_id"],"type":"object"},"name":"#,
    r#"{"description":"VERCEL — Redéploie un déploiement existant en production. Récupère automatiquement le nom du projet depuis l'ID du déploiement, puis déclenche un redeploy.","inputSchema":{"properties":{"deployment_id":{"description":"ID du déploiement à redéployer (ex: dpl_xxx)","type":"string"}},"required":["deployment_id"],"type":"object"},"name":"#,
    r#"{"description":"VERCEL — Supprime définitivement un projet Vercel et tous ses déploiements. Action irréversible.","inputSchema":{"properties":{"project_id":{"description":"ID ou nom du projet à supprimer","type":"string"}},"required":["project_id"],"type":"object"},"name":"#,
    r#"{"description":"VERCEL — Ajoute un domaine personnalisé à un projet Vercel.","inputSchema":{"properties":{"domain":{"description":"Nom de domaine à ajouter (ex: monsite.com)","type":"string"},"project_id":{"description":"ID ou nom du projet","type":"string"}},"required":["project_id","domain"],"type":"object"},"name":"#,
    r#"{"description":"VERCEL — Retire un domaine d'un projet Vercel.","inputSchema":{"properties":{"domain":{"description":"Nom de domaine à retirer (ex: monsite.com)","type":"string"},"project_id":{"description":"ID ou nom du projet","type":"string"}},"required":["project_id","domain"],"type":"object"},"name":"#,
    r#"{"description":"VERCEL — Liste les membres d'un projet avec leur username, email, rôle et uid.","inputSchema":{"properties":{"project_id":{"description":"ID ou nom du projet","type":"string"}},"required":["project_id"],"type":"object"},"name":"#
];

/// The names of the catalog's tools, in its order (those of [`catalog_names`]).
pub const TOOL_NAMES: [&'static str; 15] = [
    "vercel_list_projects",
    "vercel_get_project",
    "vercel_list_deployments",
    "vercel_get_deployment",
    "vercel_list_domains",
    "vercel_list_env",
    "vercel_cancel_deployment",
    "vercel_list_teams",
    "vercel_check_alias",
    "vercel_get_build_logs",
    "vercel_redeploy",
    "vercel_delete_project",
    "vercel_add_domain_to_project",
    "vercel_remove_domain_from_project",
    "vercel_get_project_members"
];

/// The Vercel tools offered to MCP clients, as a JSON array: one entry per tool of
/// [`catalog_names`], in order, each with its description and input schema (from
/// [`TOOL_HEADS`]) and its name.
pub fn tools() -> (r: String)
    ensures
        r@ == catalog_text(texts(TOOL_HEADS@), catalog_names()),
{
    assert(texts(TOOL_NAMES@) =~= catalog_names());
    build_catalog(&TOOL_HEADS, &TOOL_NAMES)
}

/// The names of the tools in the catalog, in its order.
pub open spec fn catalog_names() -> Seq<Seq<char>> {
    seq![
        "vercel_list_projects"@,
        "vercel_get_project"@,
        "vercel_list_deployments"@,
        "vercel_get_deployment"@,
        "vercel_list_domains"@,
        "vercel_list_env"@,
        "vercel_cancel_deployment"@,
        "vercel_list_teams"@,
        "vercel_check_alias"@,
        "vercel_get_build_logs"@,
        "vercel_redeploy"@,
        "vercel_delete_project"@,
        "vercel_add_domain_to_project"@,
        "vercel_remove_domain_from_project"@,
        "vercel_get_project_members"@
    ]
}

/// The names of the tools in the catalog, in its order (see [`catalog_names`]).
pub fn tool_names() -> (r: Vec<&'static str>)
    ensures
        r@.map_values(|s: &'static str| s@) == catalog_names(),
{
    let r = vec![
        "vercel_list_projects",
        "vercel_get_project",
        "vercel_list_deployments",
        "vercel_get_deployment",
        "vercel_list_domains",
        "vercel_list_env",
        "vercel_cancel_deployment",
        "vercel_list_teams",
        "vercel_check_alias",
        "vercel_get_build_logs",
        "vercel_redeploy",
        "vercel_delete_project",
        "vercel_add_domain_to_project",
        "vercel_remove_domain_from_project",
        "vercel_get_project_members"
    ];
    assert(r@.map_values(|s: &'static str| s@) =~= catalog_names());
    r
}

/// A tool name that [`tools`] does not serve (one outside [`catalog_names`]) gets the
/// unknown-tool error, without a request.
pub proof fn lemma_unknown_tool(cfg: VercelConfig, name: Seq<char>, args: Json, rs: Seq<Json>)
    requires
        !catalog_names().contains(name),
    ensures
        handle_view(cfg, name, args, rs) == fail_view("Unknown vercel tool: "@ + name),
{
    assert(catalog_names()[0] == "vercel_list_projects"@);
    assert(catalog_names()[1] == "vercel_get_project"@);
    assert(catalog_names()[2] == "vercel_list_deployments"@);
    assert(catalog_names()[3] == "vercel_get_deployment"@);
    assert(catalog_names()[4] == "vercel_list_domains"@);
    assert(catalog_names()[5] == "vercel_list_env"@);
    assert(catalog_names()[6] == "vercel_cancel_deployment"@);
    assert(catalog_names()[7] == "vercel_list_teams"@);
    assert(catalog_names()[8] == "vercel_check_alias"@);
    assert(catalog_names()[9] == "vercel_get_build_logs"@);
    assert(catalog_names()[10] == "vercel_redeploy"@);
    assert(catalog_names()[11] == "vercel_delete_project"@);
    assert(catalog_names()[12] == "vercel_add_domain_to_project"@);
    assert(catalog_names()[13] == "vercel_remove_domain_from_project"@);
    assert(catalog_names()[14] == "vercel_get_project_members"@);
}

/// Every tool that [`tools`] serves (those of [`catalog_names`]) and that this module runs is
/// handled: its first step is never the unknown-tool error.
pub proof fn lemma_catalog_handled(cfg: VercelConfig, name: Seq<char>, args: Json)
    requires
        catalog_names().contains(name),
    ensures
        handle_view(cfg, name, args, seq![]) != fail_view("Unknown vercel tool: "@ + name),
{
    reveal_strlit("Impossible de récupérer le nom du déploiement ");
    reveal_strlit("Missing param: ");
    reveal_strlit("Unknown vercel tool: ");
    assert(("Unknown vercel tool: "@ + name)[0] == 'U');
    assert(catalog_names()[0] == "vercel_list_projects"@);
    assert(catalog_names()[1] == "vercel_get_project"@);
    assert(catalog_names()[2] == "vercel_list_deployments"@);
    assert(catalog_names()[3] == "vercel_get_deployment"@);
    assert(catalog_names()[4] == "vercel_list_domains"@);
    assert(catalog_names()[5] == "vercel_list_env"@);
    assert(catalog_names()[6] == "vercel_cancel_deployment"@);
    assert(catalog_names()[7] == "vercel_list_teams"@);
    assert(catalog_names()[8] == "vercel_check_alias"@);
    assert(catalog_names()[9] == "vercel_get_build_logs"@);
    assert(catalog_names()[10] == "vercel_redeploy"@);
    assert(catalog_names()[11] == "vercel_delete_project"@);
    assert(catalog_names()[12] == "vercel_add_domain_to_project"@);
    assert(catalog_names()[13] == "vercel_remove_domain_from_project"@);
    assert(catalog_names()[14] == "vercel_get_project_members"@);
}

/// The names of each catalog tool's input properties and of those it requires, in catalog
/// order (properties by name).
pub open spec fn catalog_schemas() -> Seq<(Seq<char>, Seq<Seq<char>>, Seq<Seq<char>>)> {
    seq![
        ("vercel_list_projects"@, seq![], seq![]),
        ("vercel_get_project"@, seq!["project_id"@], seq!["project_id"@]),
        ("vercel_list_deployments"@, seq!["limit"@, "project_id"@], seq![]),
        ("vercel_get_deployment"@, seq!["deployment_id"@], seq!["deployment_id"@]),
        ("vercel_list_domains"@, seq![], seq![]),
        ("vercel_list_env"@, seq!["project_id"@], seq!["project_id"@]),
        ("vercel_cancel_deployment"@, seq!["deployment_id"@], seq!["deployment_id"@]),
        ("vercel_list_teams"@, seq![], seq![]),
        ("vercel_check_alias"@, seq!["alias"@], seq!["alias"@]),
        ("vercel_get_build_logs"@, seq!["deployment_id"@], seq!["deployment_id"@]),
        ("vercel_redeploy"@, seq!["deployment_id"@], seq!["deployment_id"@]),
        ("vercel_delete_project"@, seq!["project_id"@], seq!["project_id"@]),
        ("vercel_add_domain_to_project"@, seq!["domain"@, "project_id"@], seq!["project_id"@, "domain"@]),
        ("vercel_remove_domain_from_project"@, seq!["domain"@, "project_id"@], seq!["project_id"@, "domain"@]),
        ("vercel_get_project_members"@, seq!["project_id"@], seq!["project_id"@])
    ]
}

/// The names of each catalog tool's input properties and required inputs (see
/// [`catalog_schemas`]).
pub fn tool_schemas() -> (r: Vec<SchemaNames>)
    ensures
        r@.map_values(|e: SchemaNames| schema_view(e)) == catalog_schemas(),
{
    let r: Vec<SchemaNames> = vec![
        ("vercel_list_projects", vec![], vec![]),
        ("vercel_get_project", vec!["project_id"], vec!["project_id"]),
        ("vercel_list_deployments", vec!["limit", "project_id"], vec![]),
        ("vercel_get_deployment", vec!["deployment_id"], vec!["deployment_id"]),
        ("vercel_list_domains", vec![], vec![]),
        ("vercel_list_env", vec!["project_id"], vec!["project_id"]),
        ("vercel_cancel_deployment", vec!["deployment_id"], vec!["deployment_id"]),
        ("vercel_list_teams", vec![], vec![]),
        ("vercel_check_alias", vec!["alias"], vec!["alias"]),
        ("vercel_get_build_logs", vec!["deployment_id"], vec!["deployment_id"]),
        ("vercel_redeploy", vec!["deployment_id"], vec!["deployment_id"]),
        ("vercel_delete_project", vec!["project_id"], vec!["project_id"]),
        ("vercel_add_domain_to_project", vec!["domain", "project_id"], vec!["project_id", "domain"]),
        ("vercel_remove_domain_from_project", vec!["domain", "project_id"], vec!["project_id", "domain"]),
        ("vercel_get_project_members", vec!["project_id"], vec!["project_id"])
    ];
    assert(r@[0].1@.map_values(|s: &'static str| s@) =~= catalog_schemas()[0].1);
    assert(r@[0].2@.map_values(|s: &'static str| s@) =~= catalog_schemas()[0].2);
    assert(r@[1].1@.map_values(|s: &'static str| s@) =~= catalog_schemas()[1].1);
    assert(r@[1].2@.map_values(|s: &'static str| s@) =~= catalog_schemas()[1].2);
    assert(r@[2].1@.map_values(|s: &'static str| s@) =~= catalog_schemas()[2].1);
    assert(r@[2].2@.map_values(|s: &'static str| s@) =~= catalog_schemas()[2].2);
    assert(r@[3].1@.map_values(|s: &'static str| s@) =~= catalog_schemas()[3].1);
    assert(r@[3].2@.map_values(|s: &'static str| s@) =~= catalog_schemas()[3].2);
    assert(r@[4].1@.map_values(|s: &'static str| s@) =~= catalog_schemas()[4].1);
    assert(r@[4].2@.map_values(|s: &'static str| s@) =~= catalog_schemas()[4].2);
    assert(r@[5].1@.map_values(|s: &'static str| s@) =~= catalog_schemas()[5].1);
    assert(r@[5].2@.map_values(|s: &'static str| s@) =~= catalog_schemas()[5].2);
    assert(r@[6].1@.map_values(|s: &'static str| s@) =~= catalog_schemas()[6].1);
    assert(r@[6].2@.map_values(|s: &'static str| s@) =~= catalog_schemas()[6].2);
    assert(r@[7].1@.map_values(|s: &'static str| s@) =~= catalog_schemas()[7].1);
    assert(r@[7].2@.map_values(|s: &'static str| s@) =~= catalog_schemas()[7].2);
    assert(r@[8].1@.map_values(|s: &'static str| s@) =~= catalog_schemas()[8].1);
    assert(r@[8].2@.map_values(|s: &'static str| s@) =~= catalog_schemas()[8].2);
    assert(r@[9].1@.map_values(|s: &'static str| s@) =~= catalog_schemas()[9].1);
    assert(r@[9].2@.map_values(|s: &'static str| s@) =~= catalog_schemas()[9].2);
    assert(r@[10].1@.map_values(|s: &'static str| s@) =~= catalog_schemas()[10].1);
    assert(r@[10].2@.map_values(|s: &'static str| s@) =~= catalog_schemas()[10].2);
    assert(r@[11].1@.map_values(|s: &'static str| s@) =~= catalog_schemas()[11].1);
    assert(r@[11].2@.map_values(|s: &'static str| s@) =~= catalog_schemas()[11].2);
    assert(r@[12].1@.map_values(|s: &'static str| s@) =~= catalog_schemas()[12].1);
    assert(r@[12].2@.map_values(|s: &'static str| s@) =~= catalog_schemas()[12].2);
    assert(r@[13].1@.map_values(|s: &'static str| s@) =~= catalog_schemas()[13].1);
    assert(r@[13].2@.map_values(|s: &'static str| s@) =~= catalog_schemas()[13].2);
    assert(r@[14].1@.map_values(|s: &'static str| s@) =~= catalog_schemas()[14].1);
    assert(r@[14].2@.map_values(|s: &'static str| s@) =~= catalog_schemas()[14].2);
    assert(r@.map_values(|e: SchemaNames| schema_view(e)) =~= catalog_schemas());
    r
}

/// Every tool of the catalog requires only inputs that are among its properties.
pub proof fn lemma_required_are_properties(i: int)
    requires
        0 <= i < catalog_schemas().len(),
    ensures
        requires_properties(catalog_schemas()[i]),
{
    if i == 1 {
        assert(catalog_schemas()[1].1[0] == catalog_schemas()[1].2[0]);
    }
    if i == 3 {
        assert(catalog_schemas()[3].1[0] == catalog_schemas()[3].2[0]);
    }
    if i == 5 {
        assert(catalog_schemas()[5].1[0] == catalog_schemas()[5].2[0]);
    }
    if i == 6 {
        assert(catalog_schemas()[6].1[0] == catalog_schemas()[6].2[0]);
    }
    if i == 8 {
        assert(catalog_schemas()[8].1[0] == catalog_schemas()[8].2[0]);
    }
    if i == 9 {
        assert(catalog_schemas()[9].1[0] == catalog_schemas()[9].2[0]);
    }
    if i == 10 {
        assert(catalog_schemas()[10].1[0] == catalog_schemas()[10].2[0]);
    }
    if i == 11 {
        assert(catalog_schemas()[11].1[0] == catalog_schemas()[11].2[0]);
    }
    if i == 12 {
        assert(catalog_schemas()[12].1[1] == catalog_schemas()[12].2[0]);
        assert(catalog_schemas()[12].1[0] == catalog_schemas()[12].2[1]);
    }
    if i == 13 {
        assert(catalog_schemas()[13].1[1] == catalog_schemas()[13].2[0]);
        assert(catalog_schemas()[13].1[0] == catalog_schemas()[13].2[1]);
    }
    if i == 14 {
        assert(catalog_schemas()[14].1[0] == catalog_schemas()[14].2[0]);
    }
}

/// `vercel_list_deployments` asks for `limit` deployments (ten by default), of the project
/// named by `project_id` when given, within the configured team.
pub proof fn lemma_list_deployments_request(cfg: VercelConfig, args: Json)
    ensures
        handle_view(cfg, "vercel_list_deployments"@, args, seq![]) == send_view(
            Method::Get,
            with_team_spec(
                "https://api.vercel.com/v6/deployments?limit="@ + dec_nat(
                    match args.at("limit"@).u64_of() {
                        Some(n) => n as nat,
                        None => 10,
                    },
                ) + match args.at("project_id"@).str_of() {
                    Some(pid) => "&projectId="@ + pid,
                    None => seq![],
                },
                cfg.team_view(),
            ),
            None,
        ),
{
    reveal_strlit("vercel_list_deployments");
    reveal_strlit("vercel_list_projects");
    assert("vercel_list_projects"@.len() == 20);
    reveal_strlit("vercel_get_project");
    assert("vercel_get_project"@.len() == 18);
    assert("vercel_list_deployments"@.len() == 23);
}

/// `vercel_redeploy` first reads the deployment named by `deployment_id`, then posts a
/// production redeploy of it under the name that the first response gives.
pub proof fn lemma_redeploy_requests(cfg: VercelConfig, args: Json, id: Seq<char>, r: Json)
    requires
        args.at("deployment_id"@).str_of() == Some(id),
        str_or(r, "name"@, ""@).len() > 0,
    ensures
        handle_view(cfg, "vercel_redeploy"@, args, seq![]) == send_view(
            Method::Get,
            with_team_spec("https://api.vercel.com/v13/deployments/"@ + id, cfg.team_view()),
            None,
        ),
        handle_view(cfg, "vercel_redeploy"@, args, seq![r]) == send_view(
            Method::Post,
            with_team_spec("https://api.vercel.com/v13/deployments/"@ + id + "/redeploy"@, cfg.team_view()),
            Some("{\"name\":"@ + quoted(str_or(r, "name"@, ""@)) + ",\"target\":\"production\"}"@),
        ),
{
    reveal_strlit("vercel_redeploy");
    reveal_strlit("vercel_list_projects");
    assert("vercel_list_projects"@.len() == 20);
    reveal_strlit("vercel_get_project");
    assert("vercel_get_project"@.len() == 18);
    reveal_strlit("vercel_list_deployments");
    assert("vercel_list_deployments"@.len() == 23);
    reveal_strlit("vercel_get_deployment");
    assert("vercel_get_deployment"@.len() == 21);
    reveal_strlit("vercel_list_domains");
    assert("vercel_list_domains"@.len() == 19);
    reveal_strlit("vercel_list_env");
    assert("vercel_redeploy"@[7] != "vercel_list_env"@[7]);
    reveal_strlit("vercel_cancel_deployment");
    assert("vercel_cancel_deployment"@.len() == 24);
    reveal_strlit("vercel_list_teams");
    assert("vercel_list_teams"@.len() == 17);
    reveal_strlit("vercel_check_alias");
    assert("vercel_check_alias"@.len() == 18);
    reveal_strlit("vercel_get_build_logs");
    assert("vercel_get_build_logs"@.len() == 21);
    assert("vercel_redeploy"@.len() == 15);
    assert(seq![r].drop_first() =~= Seq::<Json>::empty());
}

} // verus!
