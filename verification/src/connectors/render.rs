//! Render connector (REST API v1).
use vstd::prelude::*;
use crate::connectors::catalog::{build_catalog, catalog_text, requires_properties, schema_view, texts, SchemaNames};
use crate::fmt::{get_nested_str_or, get_str_or, str_or};
use crate::http::{fail_view, ok_view, send, send_status, send_view, status_view, Method, Step, StepView};
use crate::json::{get_bool, get_str, get_u64, push_quoted, quoted, Json};
use crate::text::{dec_nat, owned, push_chars, push_str, push_u64, str_chars, str_eq, trim_start_char, trim_start_spec};

verus! {

/// Render credentials (`~/.osmozzz/render.toml`).
pub struct RenderConfig {
    pub token: String,
}

impl RenderConfig {
    /// The API URL of `path`, whatever slashes it starts with.
    pub fn api(&self, path: &str) -> (r: String)
        ensures
            r@ == "https://api.render.com/v1/"@ + trim_start_spec(path@, '/'),
    {
        let mut out = owned("https://api.render.com/v1/");
        push_chars(&mut out, &trim_start_char(&str_chars(path), '/'));
        out
    }
}

/// The label of a service type.
pub open spec fn service_type_label(t: Seq<char>) -> Seq<char> {
    if t == "web_service"@ {
        "Web Service"@
    } else if t == "static_site"@ {
        "Static Site"@
    } else if t == "private_service"@ {
        "Private Service"@
    } else if t == "background_worker"@ {
        "Background Worker"@
    } else if t == "cron_job"@ {
        "Cron Job"@
    } else {
        t
    }
}

/// Names a service type; unknown types are kept as they are.
pub fn fmt_service_type<'a>(t: &'a str) -> (r: &'a str)
    ensures
        r@ == service_type_label(t@),
{
    if str_eq(t, "web_service") {
        "Web Service"
    } else if str_eq(t, "static_site") {
        "Static Site"
    } else if str_eq(t, "private_service") {
        "Private Service"
    } else if str_eq(t, "background_worker") {
        "Background Worker"
    } else if str_eq(t, "cron_job") {
        "Cron Job"
    } else {
        t
    }
}

/// The label of a service status.
pub open spec fn service_status_label(s: Seq<char>) -> Seq<char> {
    if s == "live"@ {
        "✅ live"@
    } else if s == "suspended"@ {
        "⏸️ suspended"@
    } else if s == "not_deployed"@ {
        "⚪ not_deployed"@
    } else {
        s
    }
}

/// Decorates a service status with an icon; unknown statuses are kept as they are.
pub fn fmt_service_status<'a>(s: &'a str) -> (r: &'a str)
    ensures
        r@ == service_status_label(s@),
{
    if str_eq(s, "live") {
        "✅ live"
    } else if str_eq(s, "suspended") {
        "⏸️ suspended"
    } else if str_eq(s, "not_deployed") {
        "⚪ not_deployed"
    } else {
        s
    }
}

/// The label of a deploy status.
pub open spec fn deploy_status_label(s: Seq<char>) -> Seq<char> {
    if s == "live"@ {
        "✅ live"@
    } else if s == "build_failed"@ {
        "❌ build_failed"@
    } else if s == "update_failed"@ {
        "❌ update_failed"@
    } else if s == "canceled"@ {
        "🚫 canceled"@
    } else if s == "deactivated"@ {
        "⏸️ deactivated"@
    } else {
        s
    }
}

/// Decorates a deploy status with an icon; unknown statuses are kept as they are.
pub fn fmt_deploy_status<'a>(s: &'a str) -> (r: &'a str)
    ensures
        r@ == deploy_status_label(s@),
{
    if str_eq(s, "live") {
        "✅ live"
    } else if str_eq(s, "build_failed") {
        "❌ build_failed"
    } else if str_eq(s, "update_failed") {
        "❌ update_failed"
    } else if str_eq(s, "canceled") {
        "🚫 canceled"
    } else if str_eq(s, "deactivated") {
        "⏸️ deactivated"
    } else {
        s
    }
}

/// The service object of a response: its `service` member when it has one, else itself.
pub open spec fn service_of(v: Json) -> Json {
    match v.spec_get("service"@) {
        Some(s) => s,
        None => v,
    }
}

/// Extracts the service object from either a bare object or a `{ "service": ... }` wrapper.
pub fn svc(v: &Json) -> (r: &Json)
    ensures
        *r == service_of(*v),
{
    match v.get("service") {
        Some(s) => s,
        None => v,
    }
}


// ─── Tool calls ──────────────────────────────────────────────────────────────

/// The object of a response wrapped as `{ key: ... }`, or the response itself when bare.
pub open spec fn unwrapped(v: Json, key: Seq<char>) -> Json {
    match v.spec_get(key) {
        Some(s) => s,
        None => v,
    }
}

fn unwrap_ref<'a>(v: &'a Json, key: &str) -> (r: &'a Json)
    ensures
        *r == unwrapped(*v, key@),
{
    match v.get(key) {
        Some(s) => s,
        None => v,
    }
}

/// The API URL of `path` (see [`RenderConfig::api`]).
pub open spec fn api_url(path: Seq<char>) -> Seq<char> {
    "https://api.render.com/v1/"@ + trim_start_spec(path, '/')
}

/// A tool that makes one request: the request, then the text rendered from its response.
pub open spec fn one_call(req: StepView, rs: Seq<Json>, text: spec_fn(Json) -> Seq<char>) -> StepView {
    if rs.len() == 0 {
        req
    } else {
        ok_view(text(rs[0]))
    }
}

/// The error for a missing argument.
pub open spec fn missing_text(key: Seq<char>) -> Seq<char> {
    "Missing param: "@ + key
}

fn missing(key: &str) -> (s: Step)
    ensures
        s@ == fail_view(missing_text(key@)),
{
    Step::Done(Err(concat("Missing param: ", key)))
}

fn concat(a: &str, b: &str) -> (r: String)
    ensures
        r@ == a@ + b@,
{
    let mut r = owned(a);
    push_str(&mut r, b);
    r
}

/// The text of the first of two members of `j` that is a string, else `d`.
pub open spec fn first_str(j: Json, k0: Seq<char>, k1: Seq<char>, d: Seq<char>) -> Seq<char> {
    match j.at(k0).str_of() {
        Some(s) => s,
        None => str_or(j, k1, d),
    }
}

fn get_first_str<'a>(j: &'a Json, k0: &str, k1: &str, d: &'a str) -> (r: &'a str)
    ensures
        r@ == first_str(*j, k0@, k1@, d@),
{
    match get_str(j, k0) {
        Some(s) => s,
        None => get_str_or(j, k1, d),
    }
}

/// The status of a service: that of its details, else its own, else `unknown`.
pub open spec fn service_status(s: Json) -> Seq<char> {
    match s.at("serviceDetails"@).at("status"@).str_of() {
        Some(t) => t,
        None => str_or(s, "status"@, "unknown"@),
    }
}

fn get_service_status(s: &Json) -> (r: &str)
    ensures
        r@ == service_status(*s),
{
    let detail = match s.get("serviceDetails") {
        Some(d) => get_str(d, "status"),
        None => None,
    };
    match detail {
        Some(t) => t,
        None => get_str_or(s, "status", "unknown"),
    }
}

/// The kinds of listed items.
#[derive(Clone, Copy)]
pub enum Listed {
    Service,
    Deploy,
    EnvKey,
    Log,
    Domain,
}

/// One listed item.
pub open spec fn item_text(kind: Listed, item: Json) -> Seq<char> {
    match kind {
        Listed::Service => {
            let s = service_of(item);
            "🎨 "@ + str_or(s, "name"@, "?"@) + " ("@ + service_type_label(str_or(s, "type"@, ""@))
                + ")\n  id="@ + str_or(s, "id"@, "?"@) + " · "@ + service_status_label(
                service_status(s),
            ) + "\n  url="@ + str_or(s.at("serviceDetails"@), "url"@, "—"@)
        },
        Listed::Deploy => {
            let d = unwrapped(item, "deploy"@);
            deploy_status_label(str_or(d, "status"@, "?"@)) + "\n  id="@ + str_or(d, "id"@, "?"@)
                + " · créé="@ + str_or(d, "createdAt"@, "—"@) + "\n  commit=["@ + str_or(
                d.at("commit"@),
                "createdAt"@,
                "—"@,
            ) + "] "@ + str_or(d.at("commit"@), "message"@, "—"@)
        },
        Listed::EnvKey => str_or(unwrapped(item, "envVar"@), "key"@, "?"@),
        Listed::Log => {
            let e = unwrapped(item, "log"@);
            "["@ + str_or(e, "timestamp"@, "—"@) + "] "@ + str_or(e, "message"@, "—"@)
        },
        Listed::Domain => {
            let cd = unwrapped(item, "customDomain"@);
            let status = first_str(cd, "verificationStatus"@, "status"@, "unknown"@);
            (if status == "verified"@ {
                "✅"@
            } else {
                "⚠️"@
            }) + " "@ + first_str(cd, "name"@, "domain"@, "?"@) + "\n  id="@ + str_or(cd, "id"@, "?"@)
                + " · statut="@ + status
        },
    }
}

fn service_item(item: &Json) -> (r: String)
    ensures
        r@ == item_text(Listed::Service, *item),
{
    let s = svc(item);
    let mut out = owned("🎨 ");
    push_str(&mut out, get_str_or(s, "name", "?"));
    push_str(&mut out, " (");
    push_str(&mut out, fmt_service_type(get_str_or(s, "type", "")));
    push_str(&mut out, ")\n  id=");
    push_str(&mut out, get_str_or(s, "id", "?"));
    push_str(&mut out, " · ");
    push_str(&mut out, fmt_service_status(get_service_status(s)));
    push_str(&mut out, "\n  url=");
    push_str(&mut out, get_nested_str_or(s, "serviceDetails", "url", "—"));
    out
}

fn deploy_item(item: &Json) -> (r: String)
    ensures
        r@ == item_text(Listed::Deploy, *item),
{
    let d = unwrap_ref(item, "deploy");
    let mut out = owned(fmt_deploy_status(get_str_or(d, "status", "?")));
    push_str(&mut out, "\n  id=");
    push_str(&mut out, get_str_or(d, "id", "?"));
    push_str(&mut out, " · créé=");
    push_str(&mut out, get_str_or(d, "createdAt", "—"));
    push_str(&mut out, "\n  commit=[");
    push_str(&mut out, get_nested_str_or(d, "commit", "createdAt", "—"));
    push_str(&mut out, "] ");
    push_str(&mut out, get_nested_str_or(d, "commit", "message", "—"));
    out
}

fn domain_item(item: &Json) -> (r: String)
    ensures
        r@ == item_text(Listed::Domain, *item),
{
    let cd = unwrap_ref(item, "customDomain");
    let status = get_first_str(cd, "verificationStatus", "status", "unknown");
    let mut out = if str_eq(status, "verified") {
        owned("✅")
    } else {
        owned("⚠️")
    };
    push_str(&mut out, " ");
    push_str(&mut out, get_first_str(cd, "name", "domain", "?"));
    push_str(&mut out, "\n  id=");
    push_str(&mut out, get_str_or(cd, "id", "?"));
    push_str(&mut out, " · statut=");
    push_str(&mut out, status);
    out
}

fn format_item(kind: Listed, item: &Json) -> (r: String)
    ensures
        r@ == item_text(kind, *item),
{
    match kind {
        Listed::Service => service_item(item),
        Listed::Deploy => deploy_item(item),
        Listed::EnvKey => owned(get_str_or(unwrap_ref(item, "envVar"), "key", "?")),
        Listed::Log => {
            let e = unwrap_ref(item, "log");
            let mut out = owned("[");
            push_str(&mut out, get_str_or(e, "timestamp", "—"));
            push_str(&mut out, "] ");
            push_str(&mut out, get_str_or(e, "message", "—"));
            out
        },
        Listed::Domain => domain_item(item),
    }
}

/// The items' texts joined by `sep`.
pub open spec fn joined(kind: Listed, items: Seq<Json>, sep: Seq<char>) -> Seq<char>
    decreases items.len(),
{
    if items.len() == 0 {
        seq![]
    } else if items.len() == 1 {
        item_text(kind, items[0])
    } else {
        joined(kind, items.drop_last(), sep) + sep + item_text(kind, items.last())
    }
}

fn join_items(kind: Listed, items: &Vec<Json>, sep: &str) -> (r: String)
    ensures
        r@ == joined(kind, items@, sep@),
{
    let mut out = String::new();
    let n = items.len();
    for i in 0..n
        invariant
            n == items@.len(),
            out@ == joined(kind, items@.take(i as int), sep@),
    {
        assert(items@.take(i + 1).drop_last() == items@.take(i as int));
        assert(items@.take(i + 1).last() == items@[i as int]);
        if i > 0 {
            push_str(&mut out, sep);
        } else {
            assert(out@ == Seq::<char>::empty());
        }
        push_str(&mut out, format_item(kind, &items[i]).as_str());
    }
    assert(items@.take(n as int) == items@);
    out
}

/// The items of a response that is an array (none otherwise).
pub open spec fn items_of(r: Json) -> Seq<Json> {
    match r.array_of() {
        Some(a) => a,
        None => seq![],
    }
}

/// A list response: `empty` when it has no item, else `head(count)` and the items joined.
pub open spec fn listing(kind: Listed, r: Json, sep: Seq<char>, empty: Seq<char>, head: Seq<char>) -> Seq<char> {
    let items = items_of(r);
    if items.len() == 0 {
        empty
    } else {
        head + joined(kind, items, sep)
    }
}

fn listing_exec(kind: Listed, r: &Json, sep: &str, empty: &str, head: &str) -> (t: String)
    ensures
        t@ == listing(kind, *r, sep@, empty@, head@),
{
    match r.as_array() {
        Some(items) => if items.len() == 0 {
            owned(empty)
        } else {
            let mut out = owned(head);
            push_str(&mut out, join_items(kind, items, sep).as_str());
            out
        },
        None => owned(empty),
    }
}


fn item_count(r: &Json) -> (n: u64)
    ensures
        n == items_of(*r).len(),
{
    match r.as_array() {
        Some(a) => a.len() as u64,
        None => 0,
    }
}

/// `render_get_service`.
pub open spec fn service_detail(id: Seq<char>, r: Json) -> Seq<char> {
    let s = service_of(r);
    let details = s.at("serviceDetails"@);
    let branch = match s.at("branch"@).str_of() {
        Some(b) => b,
        None => str_or(details, "branch"@, "—"@),
    };
    let repo = match s.at("repo"@).str_of() {
        Some(b) => b,
        None => first_str(details, "repoURL"@, "repo"@, "—"@),
    };
    "🎨 "@ + str_or(s, "name"@, "?"@) + " ("@ + service_type_label(str_or(s, "type"@, ""@)) + ")\n  id="@
        + id + " · "@ + service_status_label(service_status(s)) + "\n  url="@ + str_or(
        details,
        "url"@,
        "—"@,
    ) + "\n  env="@ + str_or(details, "env"@, "—"@) + " · autoDeploy="@ + str_or(
        s,
        "autoDeploy"@,
        "—"@,
    ) + "\n  branch="@ + branch + "\n  repo="@ + repo + "\n  créé="@ + str_or(s, "createdAt"@, "—"@)
        + " · mis à jour="@ + str_or(s, "updatedAt"@, "—"@)
}

fn service_detail_exec(id: &str, r: &Json) -> (t: String)
    ensures
        t@ == service_detail(id@, *r),
{
    let s = svc(r);
    let branch = match get_str(s, "branch") {
        Some(b) => b,
        None => get_nested_str_or(s, "serviceDetails", "branch", "—"),
    };
    let repo = match get_str(s, "repo") {
        Some(b) => b,
        None => match s.get("serviceDetails") {
            Some(d) => get_first_str(d, "repoURL", "repo", "—"),
            None => "—",
        },
    };
    let mut out = owned("🎨 ");
    push_str(&mut out, get_str_or(s, "name", "?"));
    push_str(&mut out, " (");
    push_str(&mut out, fmt_service_type(get_str_or(s, "type", "")));
    push_str(&mut out, ")\n  id=");
    push_str(&mut out, id);
    push_str(&mut out, " · ");
    push_str(&mut out, fmt_service_status(get_service_status(s)));
    push_str(&mut out, "\n  url=");
    push_str(&mut out, get_nested_str_or(s, "serviceDetails", "url", "—"));
    push_str(&mut out, "\n  env=");
    push_str(&mut out, get_nested_str_or(s, "serviceDetails", "env", "—"));
    push_str(&mut out, " · autoDeploy=");
    push_str(&mut out, get_str_or(s, "autoDeploy", "—"));
    push_str(&mut out, "\n  branch=");
    push_str(&mut out, branch);
    push_str(&mut out, "\n  repo=");
    push_str(&mut out, repo);
    push_str(&mut out, "\n  créé=");
    push_str(&mut out, get_str_or(s, "createdAt", "—"));
    push_str(&mut out, " · mis à jour=");
    push_str(&mut out, get_str_or(s, "updatedAt", "—"));
    out
}

/// `render_get_deploy`.
pub open spec fn deploy_detail(r: Json) -> Seq<char> {
    let d = unwrapped(r, "deploy"@);
    let c = d.at("commit"@);
    "🎨 Deploy "@ + deploy_status_label(str_or(d, "status"@, "?"@)) + "\n  id="@ + str_or(d, "id"@, "?"@)
        + "\n  créé="@ + str_or(d, "createdAt"@, "—"@) + " · mis à jour="@ + str_or(
        d,
        "updatedAt"@,
        "—"@,
    ) + "\n  commit id="@ + str_or(c, "id"@, "—"@) + "\n  commit date="@ + str_or(
        c,
        "createdAt"@,
        "—"@,
    ) + "\n  commit msg="@ + str_or(c, "message"@, "—"@)
}

fn deploy_detail_exec(r: &Json) -> (t: String)
    ensures
        t@ == deploy_detail(*r),
{
    let d = unwrap_ref(r, "deploy");
    let mut out = owned("🎨 Deploy ");
    push_str(&mut out, fmt_deploy_status(get_str_or(d, "status", "?")));
    push_str(&mut out, "\n  id=");
    push_str(&mut out, get_str_or(d, "id", "?"));
    push_str(&mut out, "\n  créé=");
    push_str(&mut out, get_str_or(d, "createdAt", "—"));
    push_str(&mut out, " · mis à jour=");
    push_str(&mut out, get_str_or(d, "updatedAt", "—"));
    push_str(&mut out, "\n  commit id=");
    push_str(&mut out, get_nested_str_or(d, "commit", "id", "—"));
    push_str(&mut out, "\n  commit date=");
    push_str(&mut out, get_nested_str_or(d, "commit", "createdAt", "—"));
    push_str(&mut out, "\n  commit msg=");
    push_str(&mut out, get_nested_str_or(d, "commit", "message", "—"));
    out
}

/// A `limit` argument with a default, and a cap when `cap` is positive.
pub open spec fn limit_of(args: Json, default: nat, cap: nat) -> nat {
    let l: nat = match args.at("limit"@).u64_of() {
        Some(n) => n as nat,
        None => default,
    };
    if cap > 0 && l > cap {
        cap
    } else {
        l
    }
}

fn get_limit(args: &Json, default: u64, cap: u64) -> (n: u64)
    ensures
        n == limit_of(*args, default as nat, cap as nat),
{
    let l = match get_u64(args, "limit") {
        Some(n) => n,
        None => default,
    };
    if cap > 0 && l > cap {
        cap
    } else {
        l
    }
}

/// A boolean as `Display` writes it.
pub open spec fn bool_text(b: bool) -> Seq<char> {
    if b {
        "true"@
    } else {
        "false"@
    }
}

/// What a call of Render tool `name` with `args` does next, given the responses so far.
pub open spec fn handle_view(name: Seq<char>, args: Json, rs: Seq<Json>) -> StepView {
    if name == "render_list_services"@ {
        one_call(
            send_view(Method::Get, api_url("services?limit=20"@), None),
            rs,
            |r: Json| listing(Listed::Service, r, "\n\n"@, "Aucun service trouvé."@, ""@),
        )
    } else {
        match args.at("service_id"@).str_of() {
            None => if name == "render_get_service"@ || name == "render_list_deploys"@ || name
                == "render_get_deploy"@ || name == "render_trigger_deploy"@ || name
                == "render_list_env_vars"@ || name == "render_put_env_var"@ || name
                == "render_suspend_service"@ || name == "render_resume_service"@ || name
                == "render_get_logs"@ || name == "render_list_custom_domains"@ || name
                == "render_add_custom_domain"@ || name == "render_delete_custom_domain"@ || name
                == "render_scale_service"@ {
                fail_view(missing_text("service_id"@))
            } else {
                fail_view("Unknown render tool: "@ + name)
            },
            Some(sid) => service_tool_view(name, sid, args, rs),
        }
    }
}

/// The tools on one service, once its id is known.
pub open spec fn service_tool_view(name: Seq<char>, sid: Seq<char>, args: Json, rs: Seq<Json>) -> StepView {
    let base = "services/"@ + sid;
    if name == "render_get_service"@ {
        one_call(send_view(Method::Get, api_url(base), None), rs, |r: Json| service_detail(sid, r))
    } else if name == "render_list_deploys"@ {
        one_call(
            send_view(
                Method::Get,
                api_url(base + "/deploys?limit="@ + dec_nat(limit_of(args, 10, 0))),
                None,
            ),
            rs,
            |r: Json| listing(Listed::Deploy, r, "\n\n"@, "Aucun déploiement trouvé."@, ""@),
        )
    } else if name == "render_get_deploy"@ {
        match args.at("deploy_id"@).str_of() {
            None => fail_view(missing_text("deploy_id"@)),
            Some(did) => one_call(
                send_view(Method::Get, api_url(base + "/deploys/"@ + did), None),
                rs,
                |r: Json| deploy_detail(r),
            ),
        }
    } else if name == "render_trigger_deploy"@ {
        let clear = match args.at("clear_cache"@).bool_of() {
            Some(b) => b,
            None => false,
        };
        one_call(
            send_view(
                Method::Post,
                api_url(base + "/deploys"@),
                Some(
                    "{\"clearCache\":"@ + (if clear {
                        "\"clear\""@
                    } else {
                        "\"do_not_clear\""@
                    }) + "}"@,
                ),
            ),
            rs,
            |r: Json|
                "✅ Déploiement déclenché.\n  deploy_id="@ + str_or(unwrapped(r, "deploy"@), "id"@, "?"@)
                    + "\n  clear_cache="@ + bool_text(clear),
        )
    } else if name == "render_list_env_vars"@ {
        one_call(
            send_view(Method::Get, api_url(base + "/env-vars"@), None),
            rs,
            |r: Json|
                listing(
                    Listed::EnvKey,
                    r,
                    "\n"@,
                    "Aucune variable d'environnement trouvée."@,
                    "Variables d'environnement ("@ + dec_nat(items_of(r).len())
                        + ") — noms uniquement (valeurs masquées) :\n"@,
                ),
        )
    } else if name == "render_put_env_var"@ {
        match args.at("key"@).str_of() {
            None => fail_view(missing_text("key"@)),
            Some(k) => match args.at("value"@).str_of() {
                None => fail_view(missing_text("value"@)),
                Some(v) => one_call(
                    send_view(
                        Method::Put,
                        api_url(base + "/env-vars"@),
                        Some("[{\"key\":"@ + quoted(k) + ",\"value\":"@ + quoted(v) + "}]"@),
                    ),
                    rs,
                    |r: Json| "✅ Variable "@ + k + " définie sur le service "@ + sid + "."@,
                ),
            },
        }
    } else if name == "render_suspend_service"@ {
        one_call(
            send_view(Method::Post, api_url(base + "/suspend"@), None),
            rs,
            |r: Json| "⏸️ Service "@ + sid + " suspendu."@,
        )
    } else if name == "render_resume_service"@ {
        one_call(
            send_view(Method::Post, api_url(base + "/resume"@), None),
            rs,
            |r: Json| "✅ Service "@ + sid + " repris."@,
        )
    } else if name == "render_get_logs"@ {
        one_call(
            send_view(
                Method::Get,
                api_url(base + "/logs?limit="@ + dec_nat(limit_of(args, 100, 500))),
                None,
            ),
            rs,
            |r: Json|
                listing(
                    Listed::Log,
                    r,
                    "\n"@,
                    "Aucun log disponible."@,
                    "Logs du service "@ + sid + " ("@ + dec_nat(items_of(r).len()) + " entrées) :\n"@,
                ),
        )
    } else if name == "render_list_custom_domains"@ {
        one_call(
            send_view(Method::Get, api_url(base + "/custom-domains"@), None),
            rs,
            |r: Json|
                listing(
                    Listed::Domain,
                    r,
                    "\n\n"@,
                    "Aucun domaine personnalisé configuré."@,
                    "Domaines personnalisés du service "@ + sid + " :\n\n"@,
                ),
        )
    } else if name == "render_add_custom_domain"@ {
        match args.at("domain"@).str_of() {
            None => fail_view(missing_text("domain"@)),
            Some(domain) => one_call(
                send_view(
                    Method::Post,
                    api_url(base + "/custom-domains"@),
                    Some("{\"name\":"@ + quoted(domain) + "}"@),
                ),
                rs,
                |r: Json|
                    "✅ Domaine "@ + domain + " ajouté au service "@ + sid + ".\n  id="@ + str_or(
                        unwrapped(r, "customDomain"@),
                        "id"@,
                        "?"@,
                    ) + " · statut="@ + first_str(
                        unwrapped(r, "customDomain"@),
                        "verificationStatus"@,
                        "status"@,
                        "pending"@,
                    ),
            ),
        }
    } else if name == "render_delete_custom_domain"@ {
        match args.at("custom_domain_id"@).str_of() {
            None => fail_view(missing_text("custom_domain_id"@)),
            Some(cdid) => if rs.len() == 0 {
                status_view(Method::Delete, api_url(base + "/custom-domains/"@ + cdid))
            } else if rs[0].at("success"@).bool_of() == Some(true) {
                ok_view(
                    "✅ Domaine personnalisé "@ + cdid + " supprimé du service "@ + sid + "."@,
                )
            } else {
                fail_view("Render API error: HTTP "@ + str_or(rs[0], "status"@, ""@))
            },
        }
    } else if name == "render_scale_service"@ {
        match args.at("num_instances"@).u64_of() {
            None => fail_view(missing_text("num_instances"@)),
            Some(n) => if n < 1 || n > 10 {
                fail_view("num_instances doit être compris entre 1 et 10."@)
            } else {
                one_call(
                    send_view(
                        Method::Post,
                        api_url(base + "/scale"@),
                        Some("{\"numInstances\":"@ + dec_nat(n as nat) + "}"@),
                    ),
                    rs,
                    |r: Json|
                        "✅ Service "@ + sid + " mis à l'échelle : "@ + dec_nat(n as nat)
                            + " instance(s)."@,
                )
            },
        }
    } else {
        fail_view("Unknown render tool: "@ + name)
    }
}

fn listed_tool(kind: Listed, r: &Json, sep: &str, empty: &str, head: &str) -> (s: Step)
    ensures
        s@ == ok_view(listing(kind, *r, sep@, empty@, head@)),
{
    Step::Done(Ok(listing_exec(kind, r, sep, empty, head)))
}

fn service_path(sid: &str, tail: &str) -> (r: String)
    ensures
        r@ == "services/"@ + sid@ + tail@,
{
    let mut p = owned("services/");
    push_str(&mut p, sid);
    push_str(&mut p, tail);
    p
}

fn get_step(cfg: &RenderConfig, path: &str) -> (s: Step)
    ensures
        s@ == send_view(Method::Get, api_url(path@), None),
{
    send(Method::Get, cfg.api(path), None)
}

fn ok_text(t: String) -> (s: Step)
    ensures
        s@ == ok_view(t@),
{
    Step::Done(Ok(t))
}

fn service_tool(cfg: &RenderConfig, name: &str, sid: &str, args: &Json, rs: &Vec<Json>) -> (s: Step)
    ensures
        s@ == service_tool_view(name@, sid@, *args, rs@),
{
    let first = rs.len() == 0;
    if str_eq(name, "render_get_service") {
        if first {
            get_step(cfg, concat("services/", sid).as_str())
        } else {
            ok_text(service_detail_exec(sid, &rs[0]))
        }
    } else if str_eq(name, "render_list_deploys") {
        if first {
            let mut p = service_path(sid, "/deploys?limit=");
            push_u64(&mut p, get_limit(args, 10, 0));
            get_step(cfg, p.as_str())
        } else {
            listed_tool(Listed::Deploy, &rs[0], "\n\n", "Aucun déploiement trouvé.", "")
        }
    } else if str_eq(name, "render_get_deploy") {
        match get_str(args, "deploy_id") {
            None => missing("deploy_id"),
            Some(did) => if first {
                let mut p = service_path(sid, "/deploys/");
                push_str(&mut p, did);
                get_step(cfg, p.as_str())
            } else {
                ok_text(deploy_detail_exec(&rs[0]))
            },
        }
    } else if str_eq(name, "render_trigger_deploy") {
        let clear = match get_bool(args, "clear_cache") {
            Some(b) => b,
            None => false,
        };
        if first {
            let mut body = owned("{\"clearCache\":");
            push_str(&mut body, if clear { "\"clear\"" } else { "\"do_not_clear\"" });
            push_str(&mut body, "}");
            send(Method::Post, cfg.api(service_path(sid, "/deploys").as_str()), Some(body))
        } else {
            let mut out = owned("✅ Déploiement déclenché.\n  deploy_id=");
            push_str(&mut out, get_str_or(unwrap_ref(&rs[0], "deploy"), "id", "?"));
            push_str(&mut out, "\n  clear_cache=");
            push_str(&mut out, if clear { "true" } else { "false" });
            ok_text(out)
        }
    } else if str_eq(name, "render_list_env_vars") {
        if first {
            get_step(cfg, service_path(sid, "/env-vars").as_str())
        } else {
            let mut head = owned("Variables d'environnement (");
            push_u64(&mut head, item_count(&rs[0]));
            push_str(&mut head, ") — noms uniquement (valeurs masquées) :\n");
            listed_tool(
                Listed::EnvKey,
                &rs[0],
                "\n",
                "Aucune variable d'environnement trouvée.",
                head.as_str(),
            )
        }
    } else if str_eq(name, "render_put_env_var") {
        let k = match get_str(args, "key") {
            None => return missing("key"),
            Some(k) => k,
        };
        let v = match get_str(args, "value") {
            None => return missing("value"),
            Some(v) => v,
        };
        if first {
            let mut body = owned("[{\"key\":");
            push_quoted(&mut body, k);
            push_str(&mut body, ",\"value\":");
            push_quoted(&mut body, v);
            push_str(&mut body, "}]");
            send(Method::Put, cfg.api(service_path(sid, "/env-vars").as_str()), Some(body))
        } else {
            let mut out = owned("✅ Variable ");
            push_str(&mut out, k);
            push_str(&mut out, " définie sur le service ");
            push_str(&mut out, sid);
            push_str(&mut out, ".");
            ok_text(out)
        }
    } else if str_eq(name, "render_suspend_service") {
        if first {
            send(Method::Post, cfg.api(service_path(sid, "/suspend").as_str()), None)
        } else {
            let mut out = owned("⏸️ Service ");
            push_str(&mut out, sid);
            push_str(&mut out, " suspendu.");
            ok_text(out)
        }
    } else if str_eq(name, "render_resume_service") {
        if first {
            send(Method::Post, cfg.api(service_path(sid, "/resume").as_str()), None)
        } else {
            let mut out = owned("✅ Service ");
            push_str(&mut out, sid);
            push_str(&mut out, " repris.");
            ok_text(out)
        }
    } else if str_eq(name, "render_get_logs") {
        if first {
            let mut p = service_path(sid, "/logs?limit=");
            push_u64(&mut p, get_limit(args, 100, 500));
            get_step(cfg, p.as_str())
        } else {
            let mut head = owned("Logs du service ");
            push_str(&mut head, sid);
            push_str(&mut head, " (");
            push_u64(&mut head, item_count(&rs[0]));
            push_str(&mut head, " entrées) :\n");
            listed_tool(Listed::Log, &rs[0], "\n", "Aucun log disponible.", head.as_str())
        }
    } else if str_eq(name, "render_list_custom_domains") {
        if first {
            get_step(cfg, service_path(sid, "/custom-domains").as_str())
        } else {
            let mut head = owned("Domaines personnalisés du service ");
            push_str(&mut head, sid);
            push_str(&mut head, " :\n\n");
            listed_tool(
                Listed::Domain,
                &rs[0],
                "\n\n",
                "Aucun domaine personnalisé configuré.",
                head.as_str(),
            )
        }
    } else if str_eq(name, "render_add_custom_domain") {
        let domain = match get_str(args, "domain") {
            None => return missing("domain"),
            Some(d) => d,
        };
        if first {
            let mut body = owned("{\"name\":");
            push_quoted(&mut body, domain);
            push_str(&mut body, "}");
            send(Method::Post, cfg.api(service_path(sid, "/custom-domains").as_str()), Some(body))
        } else {
            let cd = unwrap_ref(&rs[0], "customDomain");
            let mut out = owned("✅ Domaine ");
            push_str(&mut out, domain);
            push_str(&mut out, " ajouté au service ");
            push_str(&mut out, sid);
            push_str(&mut out, ".\n  id=");
            push_str(&mut out, get_str_or(cd, "id", "?"));
            push_str(&mut out, " · statut=");
            push_str(&mut out, get_first_str(cd, "verificationStatus", "status", "pending"));
            ok_text(out)
        }
    } else if str_eq(name, "render_delete_custom_domain") {
        let cdid = match get_str(args, "custom_domain_id") {
            None => return missing("custom_domain_id"),
            Some(c) => c,
        };
        if first {
            let mut p = service_path(sid, "/custom-domains/");
            push_str(&mut p, cdid);
            send_status(Method::Delete, cfg.api(p.as_str()))
        } else {
            match get_bool(&rs[0], "success") {
                Some(true) => {
                    let mut out = owned("✅ Domaine personnalisé ");
                    push_str(&mut out, cdid);
                    push_str(&mut out, " supprimé du service ");
                    push_str(&mut out, sid);
                    push_str(&mut out, ".");
                    ok_text(out)
                },
                _ => Step::Done(
                    Err(concat("Render API error: HTTP ", get_str_or(&rs[0], "status", ""))),
                ),
            }
        }
    } else if str_eq(name, "render_scale_service") {
        match get_u64(args, "num_instances") {
            None => missing("num_instances"),
            Some(n) => if n < 1 || n > 10 {
                Step::Done(Err(owned("num_instances doit être compris entre 1 et 10.")))
            } else if first {
                let mut body = owned("{\"numInstances\":");
                push_u64(&mut body, n);
                push_str(&mut body, "}");
                send(Method::Post, cfg.api(service_path(sid, "/scale").as_str()), Some(body))
            } else {
                let mut out = owned("✅ Service ");
                push_str(&mut out, sid);
                push_str(&mut out, " mis à l'échelle : ");
                push_u64(&mut out, n);
                push_str(&mut out, " instance(s).");
                ok_text(out)
            },
        }
    } else {
        Step::Done(Err(concat("Unknown render tool: ", name)))
    }
}

/// Runs one step of the Render tool `name` called with `args`: `responses` holds the parsed
/// responses to the requests made so far (each tool makes one).
pub fn handle(cfg: &RenderConfig, name: &str, args: &Json, responses: &Vec<Json>) -> (s: Step)
    ensures
        s@ == handle_view(name@, *args, responses@),
{
    let rs = responses;
    if str_eq(name, "render_list_services") {
        if rs.len() == 0 {
            get_step(cfg, "services?limit=20")
        } else {
            listed_tool(Listed::Service, &rs[0], "\n\n", "Aucun service trouvé.", "")
        }
    } else {
        match get_str(args, "service_id") {
            None => {
                if str_eq(name, "render_get_service") || str_eq(name, "render_list_deploys")
                    || str_eq(name, "render_get_deploy") || str_eq(name, "render_trigger_deploy")
                    || str_eq(name, "render_list_env_vars") || str_eq(name, "render_put_env_var")
                    || str_eq(name, "render_suspend_service") || str_eq(
                    name,
                    "render_resume_service",
                ) || str_eq(name, "render_get_logs") || str_eq(name, "render_list_custom_domains")
                    || str_eq(name, "render_add_custom_domain") || str_eq(
                    name,
                    "render_delete_custom_domain",
                ) || str_eq(name, "render_scale_service") {
                    missing("service_id")
                } else {
                    Step::Done(Err(concat("Unknown render tool: ", name)))
                }
            },
            Some(sid) => service_tool(cfg, name, sid, args, rs),
        }
    }
}

/// Every Render tool makes at most one request: once its response is in, the call has its
/// outcome.
pub proof fn lemma_handle_ends(name: Seq<char>, args: Json, rs: Seq<Json>)
    requires
        rs.len() >= 1,
    ensures
        handle_view(name, args, rs) is Done,
{
}

/// Every request a Render tool makes goes to the API under `https://api.render.com/v1/` with
/// the token.
pub proof fn lemma_requests_on_api(name: Seq<char>, args: Json, rs: Seq<Json>)
    ensures
        handle_view(name, args, rs) matches StepView::Send(req) ==> req.authenticated && exists|
            p: Seq<char>,
        | req.url == api_url(p),
{
}

/// The name a listed environment variable shows: `key` of the entry (or of its `envVar`).
pub open spec fn env_key(item: Json) -> Seq<char> {
    str_or(unwrapped(item, "envVar"@), "key"@, "?"@)
}

proof fn lemma_joined_keys(a: Seq<Json>, b: Seq<Json>, sep: Seq<char>)
    requires
        a.len() == b.len(),
        forall|i: int| 0 <= i < a.len() ==> #[trigger] env_key(a[i]) == env_key(b[i]),
    ensures
        joined(Listed::EnvKey, a, sep) == joined(Listed::EnvKey, b, sep),
    decreases a.len(),
{
    if a.len() > 1 {
        assert(env_key(a.last()) == env_key(b.last()));
        assert forall|i: int| 0 <= i < a.drop_last().len() implies #[trigger] env_key(a.drop_last()[i])
            == env_key(b.drop_last()[i]) by {
            assert(env_key(a[i]) == env_key(b[i]));
        }
        lemma_joined_keys(a.drop_last(), b.drop_last(), sep);
    } else if a.len() == 1 {
        assert(env_key(a[0]) == env_key(b[0]));
    }
}

/// `render_list_env_vars` shows the names of the variables, never their values: two responses
/// whose entries show the same names, one by one, give the same outcome, whatever else the
/// entries hold.
pub proof fn lemma_env_values_hidden(args: Json, r1: Json, r2: Json)
    requires
        items_of(r1).len() == items_of(r2).len(),
        forall|i: int| 0 <= i < items_of(r1).len() ==> #[trigger] env_key(items_of(r1)[i]) == env_key(
            items_of(r2)[i],
        ),
    ensures
        handle_view("render_list_env_vars"@, args, seq![r1]) == handle_view(
            "render_list_env_vars"@,
            args,
            seq![r2],
        ),
{
    reveal_strlit("render_list_env_vars");
    reveal_strlit("render_list_services");
    reveal_strlit("render_get_service");
    reveal_strlit("render_list_deploys");
    reveal_strlit("render_get_deploy");
    reveal_strlit("render_trigger_deploy");
    assert("render_list_env_vars"@[12] != "render_list_services"@[12]);
    assert("render_get_service"@.len() == 18);
    assert("render_list_deploys"@.len() == 19);
    assert("render_get_deploy"@.len() == 17);
    assert("render_trigger_deploy"@.len() == 21);
    assert("render_list_env_vars"@.len() == 20);
    lemma_joined_keys(items_of(r1), items_of(r2), "\n"@);
}

/// The Render tools offered to MCP clients: name, description and input schema of each, as a
/// The catalog's tools, in its order: for each, the JSON text of its members before its name
/// (its description and input schema).
pub const TOOL_HEADS: [&'static str; 14] = [
    r#"{"description":"RENDER 🎨 — Liste tous les services du compte avec id, nom, type (Web Service/Static Site/…), statut (live/suspended/not_deployed) et URL. Point de départ pour toutes les opérations Render.","inputSchema":{"properties":{},"type":"object"},"name":"#,
    r#"{"description":"RENDER 🎨 — Récupère le détail complet d'un service : URL, environnement, autoDeploy, branche, dépôt Git. Enchaîner avec render_list_deploys pour l'historique des déploiements.","inputSchema":{"properties":{"service_id":{"description":"ID du service Render (obtenu via render_list_services)","type":"string"}},"required":["service_id"],"type":"object"},"name":"#,
    r#"{"description":"RENDER 🎨 — Liste les déploiements récents d'un service avec statut, message de commit et dates. Retourne les 10 derniers par défaut.","inputSchema":{"properties":{"limit":{"default":10,"maximum":50,"minimum":1,"type":"integer"},"service_id":{"description":"ID du service Render","type":"string"}},"required":["service_id"],"type":"object"},"name":"#,
    r#"{"description":"RENDER 🎨 — Récupère le détail complet d'un déploiement : timing, statut, informations de commit. Utiliser render_list_deploys pour obtenir le deploy_id.","inputSchema":{"properties":{"deploy_id":{"description":"ID du déploiement (obtenu via render_list_deploys)","type":"string"},"service_id":{"description":"ID du service Render","type":"string"}},"required":["service_id","deploy_id"],"type":"object"},"name":"#,
    r#"{"description":"RENDER 🎨 — Déclenche un nouveau déploiement pour un service. Optionnel : vider le cache de build avec clear_cache=true.","inputSchema":{"properties":{"clear_cache":{"default":false,"description":"Vider le cache de build (défaut: false)","type":"boolean"},"service_id":{"description":"ID du service Render","type":"string"}},"required":["service_id"],"type":"object"},"name":"#,
    r#"{"description":"RENDER 🎨 — Liste les NOMS des variables d'environnement d'un service (jamais les valeurs — sécurité). Utile pour vérifier qu'une variable est bien configurée.","inputSchema":{"properties":{"service_id":{"description":"ID du service Render","type":"string"}},"required":["service_id"],"type":"object"},"name":"#,
    r#"{"description":"RENDER 🎨 — Ajoute ou met à jour une variable d'environnement sur un service Render. Déclenche un redéploiement automatique si autoDeploy est activé.","inputSchema":{"properties":{"key":{"description":"Nom de la variable d'environnement","type":"string"},"service_id":{"description":"ID du service Render","type":"string"},"value":{"description":"Valeur de la variable","type":"string"}},"required":["service_id","key","value"],"type":"object"},"name":"#,
    r#"{"description":"RENDER 🎨 — Suspend un service Render (arrête le service, stoppe la facturation compute). Le service peut être repris avec render_resume_service.","inputSchema":{"properties":{"service_id":{"description":"ID du service Render","type":"string"}},"required":["service_id"],"type":"object"},"name":"#,
    r#"{"description":"RENDER 🎨 — Reprend un service Render précédemment suspendu (redéploiement depuis le dernier build).","inputSchema":{"properties":{"service_id":{"description":"ID du service Render","type":"string"}},"required":["service_id"],"type":"object"},"name":"#,
    r#"{"description":"RENDER 🎨 — Récupère les logs récents d'un service (stdout/stderr). Retourne les entrées avec timestamp et message. Utile pour diagnostiquer des erreurs de déploiement ou de runtime.","inputSchema":{"properties":{"limit":{"default":100,"description":"Nombre de lignes de log à retourner (défaut: 100, max: 500)","maximum":500,"minimum":1,"type":"integer"},"service_id":{"description":"ID du service Render","type":"string"}},"required":["service_id"],"type":"object"},"name":"#,
    r#"{"description":"RENDER 🎨 — Liste les domaines personnalisés d'un service avec leur id, nom de domaine et statut de vérification (verified/unverified).","inputSchema":{"properties":{"service_id":{"description":"ID du service Render","type":"string"}},"required":["service_id"],"type":"object"},"name":"#,
    r#"{"description":"RENDER 🎨 — Ajoute un domaine personnalisé à un service Render. Le domaine doit pointer vers Render via DNS pour être vérifié.","inputSchema":{"properties":{"domain":{"description":"Nom de domaine à ajouter (ex: www.monsite.com)","type":"string"},"service_id":{"description":"ID du service Render","type":"string"}},"required":["service_id","domain"],"type":"object"},"name":"#,
    r#"{"description":"RENDER 🎨 — Supprime un domaine personnalisé d'un service Render. Utiliser render_list_custom_domains pour obtenir le custom_domain_id.","inputSchema":{"properties":{"custom_domain_id":{"description":"ID du domaine personnalisé (obtenu via render_list_custom_domains)","type":"string"},"service_id":{"description":"ID du service Render","type":"string"}},"required":["service_id","custom_domain_id"],"type":"object"},"name":"#,
    r#"{"description":"RENDER 🎨 — Met à l'échelle un service Render en ajustant le nombre d'instances (1 à 10). Utile pour gérer la charge ou réduire les coûts.","inputSchema":{"properties":{"num_instances":{"description":"Nombre d'instances souhaité (1 à 10)","maximum":10,"minimum":1,"type":"integer"},"service_id":{"description":"ID du service Render","type":"string"}},"required":["service_id","num_instances"],"type":"object"},"name":"#
];

/// The names of the catalog's tools, in its order (those of [`catalog_names`]).
pub const TOOL_NAMES: [&'static str; 14] = [
    "render_list_services",
    "render_get_service",
    "render_list_deploys",
    "render_get_deploy",
    "render_trigger_deploy",
    "render_list_env_vars",
    "render_put_env_var",
    "render_suspend_service",
    "render_resume_service",
    "render_get_logs",
    "render_list_custom_domains",
    "render_add_custom_domain",
    "render_delete_custom_domain",
    "render_scale_service"
];

/// The Render tools offered to MCP clients, as a JSON array: one entry per tool of
/// [`catalog_names`], in order, each with its description and input schema (from
/// [`TOOL_HEADS`]) and its name.
pub fn tools() -> (r: String)
    ensures
        r@ == catalog_text(texts(TOOL_HEADS@), catalog_names()),
{
    assert(texts(TOOL_NAMES@) =~= catalog_names());
    build_catalog(&TOOL_HEADS, &TOOL_NAMES)
}

/// The names of the tools in the catalog, in its order.
pub open spec fn catalog_names() -> Seq<Seq<char>> {
    seq![
        "render_list_services"@,
        "render_get_service"@,
        "render_list_deploys"@,
        "render_get_deploy"@,
        "render_trigger_deploy"@,
        "render_list_env_vars"@,
        "render_put_env_var"@,
        "render_suspend_service"@,
        "render_resume_service"@,
        "render_get_logs"@,
        "render_list_custom_domains"@,
        "render_add_custom_domain"@,
        "render_delete_custom_domain"@,
        "render_scale_service"@
    ]
}

/// The names of the tools in the catalog, in its order (see [`catalog_names`]).
pub fn tool_names() -> (r: Vec<&'static str>)
    ensures
        r@.map_values(|s: &'static str| s@) == catalog_names(),
{
    let r = vec![
        "render_list_services",
        "render_get_service",
        "render_list_deploys",
        "render_get_deploy",
        "render_trigger_deploy",
        "render_list_env_vars",
        "render_put_env_var",
        "render_suspend_service",
        "render_resume_service",
        "render_get_logs",
        "render_list_custom_domains",
        "render_add_custom_domain",
        "render_delete_custom_domain",
        "render_scale_service"
    ];
    assert(r@.map_values(|s: &'static str| s@) =~= catalog_names());
    r
}

/// A tool name that [`tools`] does not serve (one outside [`catalog_names`]) gets the
/// unknown-tool error, without a request.
pub proof fn lemma_unknown_tool(name: Seq<char>, args: Json, rs: Seq<Json>)
    requires
        !catalog_names().contains(name),
    ensures
        handle_view(name, args, rs) == fail_view("Unknown render tool: "@ + name),
{
    assert(catalog_names()[0] == "render_list_services"@);
    assert(catalog_names()[1] == "render_get_service"@);
    assert(catalog_names()[2] == "render_list_deploys"@);
    assert(catalog_names()[3] == "render_get_deploy"@);
    assert(catalog_names()[4] == "render_trigger_deploy"@);
    assert(catalog_names()[5] == "render_list_env_vars"@);
    assert(catalog_names()[6] == "render_put_env_var"@);
    assert(catalog_names()[7] == "render_suspend_service"@);
    assert(catalog_names()[8] == "render_resume_service"@);
    assert(catalog_names()[9] == "render_get_logs"@);
    assert(catalog_names()[10] == "render_list_custom_domains"@);
    assert(catalog_names()[11] == "render_add_custom_domain"@);
    assert(catalog_names()[12] == "render_delete_custom_domain"@);
    assert(catalog_names()[13] == "render_scale_service"@);
}

/// Every tool that [`tools`] serves (those of [`catalog_names`]) and that this module runs is
/// handled: its first step is never the unknown-tool error.
pub proof fn lemma_catalog_handled(name: Seq<char>, args: Json)
    requires
        catalog_names().contains(name),
    ensures
        handle_view(name, args, seq![]) != fail_view("Unknown render tool: "@ + name),
{
    reveal_strlit("Missing param: ");
    reveal_strlit("Render API error: HTTP ");
    reveal_strlit("num_instances doit être compris entre 1 et 10.");
    reveal_strlit("Unknown render tool: ");
    assert(("Unknown render tool: "@ + name)[0] == 'U');
    assert(catalog_names()[0] == "render_list_services"@);
    assert(catalog_names()[1] == "render_get_service"@);
    assert(catalog_names()[2] == "render_list_deploys"@);
    assert(catalog_names()[3] == "render_get_deploy"@);
    assert(catalog_names()[4] == "render_trigger_deploy"@);
    assert(catalog_names()[5] == "render_list_env_vars"@);
    assert(catalog_names()[6] == "render_put_env_var"@);
    assert(catalog_names()[7] == "render_suspend_service"@);
    assert(catalog_names()[8] == "render_resume_service"@);
    assert(catalog_names()[9] == "render_get_logs"@);
    assert(catalog_names()[10] == "render_list_custom_domains"@);
    assert(catalog_names()[11] == "render_add_custom_domain"@);
    assert(catalog_names()[12] == "render_delete_custom_domain"@);
    assert(catalog_names()[13] == "render_scale_service"@);
}

/// The names of each catalog tool's input properties and of those it requires, in catalog
/// order (properties by name).
pub open spec fn catalog_schemas() -> Seq<(Seq<char>, Seq<Seq<char>>, Seq<Seq<char>>)> {
    seq![
        ("render_list_services"@, seq![], seq![]),
        ("render_get_service"@, seq!["service_id"@], seq!["service_id"@]),
        ("render_list_deploys"@, seq!["limit"@, "service_id"@], seq!["service_id"@]),
        ("render_get_deploy"@, seq!["deploy_id"@, "service_id"@], seq!["service_id"@, "deploy_id"@]),
        ("render_trigger_deploy"@, seq!["clear_cache"@, "service_id"@], seq!["service_id"@]),
        ("render_list_env_vars"@, seq!["service_id"@], seq!["service_id"@]),
        ("render_put_env_var"@, seq!["key"@, "service_id"@, "value"@], seq!["service_id"@, "key"@, "value"@]),
        ("render_suspend_service"@, seq!["service_id"@], seq!["service_id"@]),
        ("render_resume_service"@, seq!["service_id"@], seq!["service_id"@]),
        ("render_get_logs"@, seq!["limit"@, "service_id"@], seq!["service_id"@]),
        ("render_list_custom_domains"@, seq!["service_id"@], seq!["service_id"@]),
        ("render_add_custom_domain"@, seq!["domain"@, "service_id"@], seq!["service_id"@, "domain"@]),
        ("render_delete_custom_domain"@, seq!["custom_domain_id"@, "service_id"@], seq!["service_id"@, "custom_domain_id"@]),
        ("render_scale_service"@, seq!["num_instances"@, "service_id"@], seq!["service_id"@, "num_instances"@])
    ]
}

/// The names of each catalog tool's input properties and required inputs (see
/// [`catalog_schemas`]).
pub fn tool_schemas() -> (r: Vec<SchemaNames>)
    ensures
        r@.map_values(|e: SchemaNames| schema_view(e)) == catalog_schemas(),
{
    let r: Vec<SchemaNames> = vec![
        ("render_list_services", vec![], vec![]),
        ("render_get_service", vec!["service_id"], vec!["service_id"]),
        ("render_list_deploys", vec!["limit", "service_id"], vec!["service_id"]),
        ("render_get_deploy", vec!["deploy_id", "service_id"], vec!["service_id", "deploy_id"]),
        ("render_trigger_deploy", vec!["clear_cache", "service_id"], vec!["service_id"]),
        ("render_list_env_vars", vec!["service_id"], vec!["service_id"]),
        ("render_put_env_var", vec!["key", "service_id", "value"], vec!["service_id", "key", "value"]),
        ("render_suspend_service", vec!["service_id"], vec!["service_id"]),
        ("render_resume_service", vec!["service_id"], vec!["service_id"]),
        ("render_get_logs", vec!["limit", "service_id"], vec!["service_id"]),
        ("render_list_custom_domains", vec!["service_id"], vec!["service_id"]),
        ("render_add_custom_domain", vec!["domain", "service_id"], vec!["service_id", "domain"]),
        ("render_delete_custom_domain", vec!["custom_domain_id", "service_id"], vec!["service_id", "custom_domain_id"]),
        ("render_scale_service", vec!["num_instances", "service_id"], vec!["service_id", "num_instances"])
    ];
    assert(r@[0].1@.map_values(|s: &'static str| s@) =~= catalog_schemas()[0].1);
    assert(r@[0].2@.map_values(|s: &'static str| s@) =~= catalog_schemas()[0].2);
    assert(r@[1].1@.map_values(|s: &'static str| s@) =~= catalog_schemas()[1].1);
    assert(r@[1].2@.map_values(|s: &'static str| s@) =~= catalog_schemas()[1].2);
    assert(r@[2].1@.map_values(|s: &'static str| s@) =~= catalog_schemas()[2].1);
    assert(r@[2].2@.map_values(|s: &'static str| s@) =~= catalog_schemas()[2].2);
    assert(r@[3].1@.map_values(|s: &'static str| s@) =~= catalog_schemas()[3].1);
    assert(r@[3].2@.map_values(|s: &'static str| s@) =~= catalog_schemas()[3].2);
    assert(r@[4].1@.map_values(|s: &'static str| s@) =~= catalog_schemas()[4].1);
    assert(r@[4].2@.map_values(|s: &'static str| s@) =~= catalog_schemas()[4].2);
    assert(r@[5].1@.map_values(|s: &'static str| s@) =~= catalog_schemas()[5].1);
    assert(r@[5].2@.map_values(|s: &'static str| s@) =~= catalog_schemas()[5].2);
    assert(r@[6].1@.map_values(|s: &'static str| s@) =~= catalog_schemas()[6].1);
    assert(r@[6].2@.map_values(|s: &'static str| s@) =~= catalog_schemas()[6].2);
    assert(r@[7].1@.map_values(|s: &'static str| s@) =~= catalog_schemas()[7].1);
    assert(r@[7].2@.map_values(|s: &'static str| s@) =~= catalog_schemas()[7].2);
    assert(r@[8].1@.map_values(|s: &'static str| s@) =~= catalog_schemas()[8].1);
    assert(r@[8].2@.map_values(|s: &'static str| s@) =~= catalog_schemas()[8].2);
    assert(r@[9].1@.map_values(|s: &'static str| s@) =~= catalog_schemas()[9].1);
    assert(r@[9].2@.map_values(|s: &'static str| s@) =~= catalog_schemas()[9].2);
    assert(r@[10].1@.map_values(|s: &'static str| s@) =~= catalog_schemas()[10].1);
    assert(r@[10].2@.map_values(|s: &'static str| s@) =~= catalog_schemas()[10].2);
    assert(r@[11].1@.map_values(|s: &'static str| s@) =~= catalog_schemas()[11].1);
    assert(r@[11].2@.map_values(|s: &'static str| s@) =~= catalog_schemas()[11].2);
    assert(r@[12].1@.map_values(|s: &'static str| s@) =~= catalog_schemas()[12].1);
    assert(r@[12].2@.map_values(|s: &'static str| s@) =~= catalog_schemas()[12].2);
    assert(r@[13].1@.map_values(|s: &'static str| s@) =~= catalog_schemas()[13].1);
    assert(r@[13].2@.map_values(|s: &'static str| s@) =~= catalog_schemas()[13].2);
    assert(r@.map_values(|e: SchemaNames| schema_view(e)) =~= catalog_schemas());
    r
}

/// Every tool of the catalog requires only inputs that are among its properties.
pub proof fn lemma_required_are_properties(i: int)
    requires
        0 <= i < catalog_schemas().len(),
    ensures
        requires_properties(catalog_schemas()[i]),
{
    if i == 1 {
        assert(catalog_schemas()[1].1[0] == catalog_schemas()[1].2[0]);
    }
    if i == 2 {
        assert(catalog_schemas()[2].1[1] == catalog_schemas()[2].2[0]);
    }
    if i == 3 {
        assert(catalog_schemas()[3].1[1] == catalog_schemas()[3].2[0]);
        assert(catalog_schemas()[3].1[0] == catalog_schemas()[3].2[1]);
    }
    if i == 4 {
        assert(catalog_schemas()[4].1[1] == catalog_schemas()[4].2[0]);
    }
    if i == 5 {
        assert(catalog_schemas()[5].1[0] == catalog_schemas()[5].2[0]);
    }
    if i == 6 {
        assert(catalog_schemas()[6].1[1] == catalog_schemas()[6].2[0]);
        assert(catalog_schemas()[6].1[0] == catalog_schemas()[6].2[1]);
        assert(catalog_schemas()[6].1[2] == catalog_schemas()[6].2[2]);
    }
    if i == 7 {
        assert(catalog_schemas()[7].1[0] == catalog_schemas()[7].2[0]);
    }
    if i == 8 {
        assert(catalog_schemas()[8].1[0] == catalog_schemas()[8].2[0]);
    }
    if i == 9 {
        assert(catalog_schemas()[9].1[1] == catalog_schemas()[9].2[0]);
    }
    if i == 10 {
        assert(catalog_schemas()[10].1[0] == catalog_schemas()[10].2[0]);
    }
    if i == 11 {
        assert(catalog_schemas()[11].1[1] == catalog_schemas()[11].2[0]);
        assert(catalog_schemas()[11].1[0] == catalog_schemas()[11].2[1]);
    }
    if i == 12 {
        assert(catalog_schemas()[12].1[1] == catalog_schemas()[12].2[0]);
        assert(catalog_schemas()[12].1[0] == catalog_schemas()[12].2[1]);
    }
    if i == 13 {
        assert(catalog_schemas()[13].1[1] == catalog_schemas()[13].2[0]);
        assert(catalog_schemas()[13].1[0] == catalog_schemas()[13].2[1]);
    }
}

proof fn lemma_service_url(sid: Seq<char>, rest: Seq<char>)
    ensures
        api_url("services/"@ + sid + rest) == "https://api.render.com/v1/services/"@ + sid + rest,
{
    reveal_strlit("services/");
    reveal_strlit("https://api.render.com/v1/");
    reveal_strlit("https://api.render.com/v1/services/");
    assert(("services/"@ + sid + rest)[0] == 's');
    assert(trim_start_spec("services/"@ + sid + rest, '/') == "services/"@ + sid + rest);
    assert("https://api.render.com/v1/"@ + ("services/"@ + sid + rest) =~= "https://api.render.com/v1/services/"@
        + sid + rest);
}

/// `render_trigger_deploy` posts a deploy of the service named by `service_id` that clears
/// the build cache exactly when the `clear_cache` argument is `true`.
pub proof fn lemma_trigger_deploy_request(args: Json, sid: Seq<char>)
    requires
        args.at("service_id"@).str_of() == Some(sid),
    ensures
        handle_view("render_trigger_deploy"@, args, seq![]) == send_view(
            Method::Post,
            "https://api.render.com/v1/services/"@ + sid + "/deploys"@,
            Some(
                if args.at("clear_cache"@).bool_of() == Some(true) {
                    "{\"clearCache\":\"clear\"}"@
                } else {
                    "{\"clearCache\":\"do_not_clear\"}"@
                },
            ),
        ),
{
    reveal_strlit("render_trigger_deploy");
    reveal_strlit("render_list_services");
    assert("render_list_services"@.len() == 20);
    reveal_strlit("render_get_service");
    assert("render_get_service"@.len() == 18);
    reveal_strlit("render_list_deploys");
    assert("render_list_deploys"@.len() == 19);
    reveal_strlit("render_get_deploy");
    assert("render_get_deploy"@.len() == 17);
    assert("render_trigger_deploy"@.len() == 21);
    lemma_service_url(sid, "/deploys"@);
    reveal_strlit("{\"clearCache\":");
    reveal_strlit("\"clear\"");
    reveal_strlit("\"do_not_clear\"");
    reveal_strlit("}");
    reveal_strlit("{\"clearCache\":\"clear\"}");
    reveal_strlit("{\"clearCache\":\"do_not_clear\"}");
    assert("{\"clearCache\":"@ + "\"clear\""@ + "}"@ =~= "{\"clearCache\":\"clear\"}"@);
    assert("{\"clearCache\":"@ + "\"do_not_clear\""@ + "}"@ =~= "{\"clearCache\":\"do_not_clear\"}"@);
}

/// `render_put_env_var` puts on the service named by `service_id` the one variable whose key
/// is the `key` argument and whose value is the `value` argument.
pub proof fn lemma_put_env_var_request(args: Json, sid: Seq<char>, k: Seq<char>, v: Seq<char>)
    requires
        args.at("service_id"@).str_of() == Some(sid),
        args.at("key"@).str_of() == Some(k),
        args.at("value"@).str_of() == Some(v),
    ensures
        handle_view("render_put_env_var"@, args, seq![]) == send_view(
            Method::Put,
            "https://api.render.com/v1/services/"@ + sid + "/env-vars"@,
            Some("[{\"key\":"@ + quoted(k) + ",\"value\":"@ + quoted(v) + "}]"@),
        ),
{
    reveal_strlit("render_put_env_var");
    reveal_strlit("render_list_services");
    assert("render_list_services"@.len() == 20);
    reveal_strlit("render_get_service");
    assert("render_put_env_var"@[7] != "render_get_service"@[7]);
    reveal_strlit("render_list_deploys");
    assert("render_list_deploys"@.len() == 19);
    reveal_strlit("render_get_deploy");
    assert("render_get_deploy"@.len() == 17);
    reveal_strlit("render_trigger_deploy");
    assert("render_trigger_deploy"@.len() == 21);
    reveal_strlit("render_list_env_vars");
    assert("render_list_env_vars"@.len() == 20);
    assert("render_put_env_var"@.len() == 18);
    lemma_service_url(sid, "/env-vars"@);
}

} // verus!
