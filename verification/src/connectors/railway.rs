//! Railway connector (GraphQL API).
use vstd::prelude::*;
use crate::connectors::catalog::{build_catalog, catalog_text, requires_properties, schema_view, texts, SchemaNames};
use crate::fmt::{get_nested_str_or, get_str_or, join_spec, join_strs, str_or, views};
use crate::http::{fail_view, ok_view, send, send_view, Method, Step, StepView};
use crate::json::{get_array, get_i64, get_str, json_text, push_quoted, quoted, to_json_string, Json};
use crate::text::{dec_int, dec_nat, owned, push_i64, push_str, push_u64, str_eq};
use crate::timefmt::{rfc3339_minute, rfc3339_minute_text};

verus! {

/// Railway credentials (`~/.osmozzz/railway.toml`).
pub struct RailwayConfig {
    pub token: String,
}

/// The label shown for a deployment status.
pub open spec fn deploy_status_label(s: Seq<char>) -> Seq<char> {
    if s == "SUCCESS"@ {
        "✅ SUCCESS"@
    } else if s == "FAILED"@ {
        "❌ FAILED"@
    } else if s == "CRASHED"@ {
        "❌ CRASHED"@
    } else if s == "DEPLOYING"@ {
        "⏳ DEPLOYING"@
    } else if s == "BUILDING"@ {
        "⏳ BUILDING"@
    } else if s == "REMOVED"@ {
        "🗑 REMOVED"@
    } else if s == "REMOVING"@ {
        "🗑 REMOVING"@
    } else if s == "SLEEPING"@ {
        "💤 SLEEPING"@
    } else {
        s
    }
}

/// Decorates a deployment status with an icon; unknown statuses are kept as they are.
pub fn fmt_deploy_status<'a>(status: &'a str) -> (r: &'a str)
    ensures
        r@ == deploy_status_label(status@),
{
    if str_eq(status, "SUCCESS") {
        "✅ SUCCESS"
    } else if str_eq(status, "FAILED") {
        "❌ FAILED"
    } else if str_eq(status, "CRASHED") {
        "❌ CRASHED"
    } else if str_eq(status, "DEPLOYING") {
        "⏳ DEPLOYING"
    } else if str_eq(status, "BUILDING") {
        "⏳ BUILDING"
    } else if str_eq(status, "REMOVED") {
        "🗑 REMOVED"
    } else if str_eq(status, "REMOVING") {
        "🗑 REMOVING"
    } else if str_eq(status, "SLEEPING") {
        "💤 SLEEPING"
    } else {
        status
    }
}

/// The rendering of an ISO 8601 timestamp: `—` for empty or `?`, the minute it names when it
/// parses, else the text itself.
pub open spec fn ts_text(s: Seq<char>) -> Seq<char> {
    if s.len() == 0 || s == "?"@ {
        "—"@
    } else {
        match rfc3339_minute_text(s) {
            Some(t) => t,
            None => s,
        }
    }
}

/// Renders an ISO 8601 timestamp as `YYYY-MM-DD HH:MM UTC`.
pub fn fmt_ts(s: &str) -> (r: String)
    ensures
        r@ == ts_text(s@),
{
    if s.is_empty() || str_eq(s, "?") {
        return owned("—");
    }
    match rfc3339_minute(s) {
        Some(t) => t,
        None => owned(s),
    }
}

/// Renders a JSON timestamp value: a string is rendered by [`fmt_ts`], anything else as `—`.
pub fn fmt_ts_val(v: &Json) -> (r: String)
    ensures
        r@ == ts_text(
            match v.str_of() {
                Some(s) => s,
                None => seq![],
            },
        ),
{
    match v.as_str() {
        Some(s) => fmt_ts(s),
        None => {
            proof {
                reveal_strlit("");
            }
            fmt_ts("")
        },
    }
}


// ─── Tool calls ──────────────────────────────────────────────────────────────
/// The GraphQL documents the tools send.
#[derive(Clone, Copy)]
pub enum Query {
    ListProjects,
    GetProject,
    ListServices,
    ListDeployments,
    GetLogs,
    GetVariables,
    TriggerDeploy,
    ListEnvironments,
    GetService,
    BuildLogs,
    RestartDeployment,
    CreateProject,
    DeleteProject,
}

/// The text of a GraphQL document.
pub open spec fn query_text(q: Query) -> Seq<char> {
    match q {
        Query::ListProjects => "query { me { projects { edges { node { id name description createdAt } } } } }"@,
        Query::GetProject => "query($id: String!) { project(id: $id) { id name description services { edges { node { id name } } } environments { edges { node { id name } } } } }"@,
        Query::ListServices => "query($projectId: String!) { project(id: $projectId) { services { edges { node { id name serviceInstances { edges { node { serviceId environmentId startCommand } } } } } } } }"@,
        Query::ListDeployments => "query($projectId: String!, $serviceId: String) { deployments(projectId: $projectId, serviceId: $serviceId, first: 10) { edges { node { id status createdAt meta { image } } } } }"@,
        Query::GetLogs => "query($deploymentId: String!) { deploymentLogs(deploymentId: $deploymentId) { timestamp message } }"@,
        Query::GetVariables => "query($projectId: String!, $environmentId: String!, $serviceId: String!) { variables(projectId: $projectId, environmentId: $environmentId, serviceId: $serviceId) }"@,
        Query::TriggerDeploy => "mutation($serviceId: String!, $environmentId: String!) { serviceInstanceRedeploy(serviceId: $serviceId, environmentId: $environmentId) }"@,
        Query::ListEnvironments => "query($projectId: String!) { project(id: $projectId) { environments { edges { node { id name } } } } }"@,
        Query::GetService => "query($id: String!) { service(id: $id) { id name templateServiceId templateThreadSlug } }"@,
        Query::BuildLogs => "query($deploymentId: String!, $limit: Int) { buildLogs(deploymentId: $deploymentId, limit: $limit) { timestamp message severity } }"@,
        Query::RestartDeployment => "mutation($id: String!) { deploymentRestart(id: $id) }"@,
        Query::CreateProject => "mutation($name: String!, $description: String) { projectCreate(input: { name: $name, description: $description }) { id name } }"@,
        Query::DeleteProject => "mutation($id: String!) { projectDelete(id: $id) }"@,
    }
}

fn query_str(q: Query) -> (r: &'static str)
    ensures
        r@ == query_text(q),
{
    match q {
        Query::ListProjects => "query { me { projects { edges { node { id name description createdAt } } } } }",
        Query::GetProject => "query($id: String!) { project(id: $id) { id name description services { edges { node { id name } } } environments { edges { node { id name } } } } }",
        Query::ListServices => "query($projectId: String!) { project(id: $projectId) { services { edges { node { id name serviceInstances { edges { node { serviceId environmentId startCommand } } } } } } } }",
        Query::ListDeployments => "query($projectId: String!, $serviceId: String) { deployments(projectId: $projectId, serviceId: $serviceId, first: 10) { edges { node { id status createdAt meta { image } } } } }",
        Query::GetLogs => "query($deploymentId: String!) { deploymentLogs(deploymentId: $deploymentId) { timestamp message } }",
        Query::GetVariables => "query($projectId: String!, $environmentId: String!, $serviceId: String!) { variables(projectId: $projectId, environmentId: $environmentId, serviceId: $serviceId) }",
        Query::TriggerDeploy => "mutation($serviceId: String!, $environmentId: String!) { serviceInstanceRedeploy(serviceId: $serviceId, environmentId: $environmentId) }",
        Query::ListEnvironments => "query($projectId: String!) { project(id: $projectId) { environments { edges { node { id name } } } } }",
        Query::GetService => "query($id: String!) { service(id: $id) { id name templateServiceId templateThreadSlug } }",
        Query::BuildLogs => "query($deploymentId: String!, $limit: Int) { buildLogs(deploymentId: $deploymentId, limit: $limit) { timestamp message severity } }",
        Query::RestartDeployment => "mutation($id: String!) { deploymentRestart(id: $id) }",
        Query::CreateProject => "mutation($name: String!, $description: String) { projectCreate(input: { name: $name, description: $description }) { id name } }",
        Query::DeleteProject => "mutation($id: String!) { projectDelete(id: $id) }",
    }
}

/// The JSON body of a GraphQL request: the document and the variables (JSON text).
pub open spec fn gql_body(q: Query, vars: Seq<char>) -> Seq<char> {
    "{\"query\":"@ + quoted(query_text(q)) + ",\"variables\":"@ + vars + "}"@
}

/// The request of a GraphQL call.
pub open spec fn gql_view(q: Query, vars: Seq<char>) -> StepView {
    send_view(Method::Post, "https://backboard.railway.app/graphql/v2"@, Some(gql_body(q, vars)))
}

fn gql_step(q: Query, vars: &str) -> (s: Step)
    ensures
        s@ == gql_view(q, vars@),
{
    let mut body = owned("{\"query\":");
    push_quoted(&mut body, query_str(q));
    push_str(&mut body, ",\"variables\":");
    push_str(&mut body, vars);
    push_str(&mut body, "}");
    send(Method::Post, owned("https://backboard.railway.app/graphql/v2"), Some(body))
}

/// The outcome of a GraphQL response: its `errors` member as JSON text when it has one, else
/// `text` rendered from its `data`.
pub open spec fn gql_reply(resp: Json, text: Seq<char>) -> StepView {
    match resp.spec_get("errors"@) {
        Some(e) => fail_view(json_text(e)),
        None => ok_view(text),
    }
}

fn gql_done(resp: &Json, text: String) -> (s: Step)
    ensures
        s@ == gql_reply(*resp, text@),
{
    match resp.get("errors") {
        Some(e) => Step::Done(Err(to_json_string(e))),
        None => Step::Done(Ok(text)),
    }
}

/// A tool that makes one GraphQL call and renders its data.
pub open spec fn gql_call(q: Query, vars: Seq<char>, rs: Seq<Json>, text: spec_fn(Json) -> Seq<char>) -> StepView {
    if rs.len() == 0 {
        gql_view(q, vars)
    } else {
        gql_reply(rs[0], text(rs[0].at("data"@)))
    }
}

fn at_ref<'a>(v: &'a Json, key: &str, null: &'a Json) -> (r: &'a Json)
    requires
        *null == Json::Null,
    ensures
        *r == v.at(key@),
{
    match v.get(key) {
        Some(x) => x,
        None => null,
    }
}

/// The error for a missing argument.
pub open spec fn missing_text(key: Seq<char>) -> Seq<char> {
    "Missing param: "@ + key
}

fn missing(key: &str) -> (s: Step)
    ensures
        s@ == fail_view(missing_text(key@)),
{
    let mut e = owned("Missing param: ");
    push_str(&mut e, key);
    Step::Done(Err(e))
}

/// Variables of one string: `{"key":"value"}`.
pub open spec fn var1(key: Seq<char>, v: Seq<char>) -> Seq<char> {
    "{"@ + quoted(key) + ":"@ + quoted(v) + "}"@
}

fn var1_exec(key: &str, v: &str) -> (r: String)
    ensures
        r@ == var1(key@, v@),
{
    let mut r = owned("{");
    push_quoted(&mut r, key);
    push_str(&mut r, ":");
    push_quoted(&mut r, v);
    push_str(&mut r, "}");
    r
}

/// An optional string as JSON: its literal, or `null`.
pub open spec fn opt_json(o: Option<Seq<char>>) -> Seq<char> {
    match o {
        Some(s) => quoted(s),
        None => "null"@,
    }
}

fn push_opt_json(out: &mut String, o: Option<&str>)
    ensures
        final(out)@ == old(out)@ + opt_json(
            match o {
                Some(s) => Some(s@),
                None => None,
            },
        ),
{
    match o {
        Some(s) => push_quoted(out, s),
        None => push_str(out, "null"),
    }
}

/// The array at `data.k0.k1.k2`, empty when there is none.
pub open spec fn edges_at(data: Json, k0: Seq<char>, k1: Seq<char>, k2: Seq<char>) -> Seq<Json> {
    match data.at(k0).at(k1).at(k2).array_of() {
        Some(a) => a,
        None => seq![],
    }
}

/// The array at `v.k0.k1`, empty when there is none.
pub open spec fn edges2(v: Json, k0: Seq<char>, k1: Seq<char>) -> Seq<Json> {
    match v.at(k0).at(k1).array_of() {
        Some(a) => a,
        None => seq![],
    }
}

/// The rendering of a timestamp member value (a non-string as the empty text).
pub open spec fn ts_val(v: Json) -> Seq<char> {
    ts_text(
        match v.str_of() {
            Some(s) => s,
            None => seq![],
        },
    )
}

/// The kinds of listed items.
#[derive(Clone, Copy)]
pub enum Listed {
    Project,
    Named,
    Service,
    Deployment,
    Log,
    Environment,
    BuildLog,
}

/// The instances of a service, one line each.
pub open spec fn instance_line(ie: Json) -> Seq<char> {
    "    env="@ + str_or(ie.at("node"@), "environmentId"@, "?"@) + " · cmd="@ + str_or(
        ie.at("node"@),
        "startCommand"@,
        "—"@,
    )
}

/// The instance lines joined by line breaks.
pub open spec fn instances_text(items: Seq<Json>) -> Seq<char>
    decreases items.len(),
{
    if items.len() == 0 {
        seq![]
    } else if items.len() == 1 {
        instance_line(items[0])
    } else {
        instances_text(items.drop_last()) + "\n"@ + instance_line(items.last())
    }
}

/// One listed item (an edge with its `node`, or a log entry).
pub open spec fn item_text(kind: Listed, e: Json) -> Seq<char> {
    let n = e.at("node"@);
    match kind {
        Listed::Project => "🚂 "@ + str_or(n, "name"@, "?"@) + "\n  id="@ + str_or(n, "id"@, "?"@)
            + " · créé="@ + ts_val(n.at("createdAt"@)) + "\n  "@ + str_or(n, "description"@, "—"@),
        Listed::Named => "  • "@ + str_or(n, "name"@, "?"@) + " (id="@ + str_or(n, "id"@, "?"@)
            + ")"@,
        Listed::Service => {
            let head = "🚂 "@ + str_or(n, "name"@, "?"@) + "\n  id="@ + str_or(n, "id"@, "?"@);
            let insts = match n.at("serviceInstances"@).at("edges"@).array_of() {
                Some(a) => a,
                None => seq![],
            };
            if insts.len() == 0 {
                head
            } else {
                head + "\n"@ + instances_text(insts)
            }
        },
        Listed::Deployment => deploy_status_label(str_or(n, "status"@, "?"@)) + "\n  id="@ + str_or(
            n,
            "id"@,
            "?"@,
        ) + " · "@ + ts_val(n.at("createdAt"@)) + " · image="@ + str_or(n.at("meta"@), "image"@, "—"@),
        Listed::Log => "["@ + ts_text(str_or(e, "timestamp"@, ""@)) + "] "@ + str_or(e, "message"@, ""@),
        Listed::Environment => "🚂 "@ + str_or(n, "name"@, "?"@) + "  id="@ + str_or(n, "id"@, "?"@),
        Listed::BuildLog => "["@ + str_or(e, "severity"@, "INFO"@) + "] ["@ + ts_text(
            str_or(e, "timestamp"@, ""@),
        ) + "] "@ + str_or(e, "message"@, ""@),
    }
}

fn service_item(e: &Json) -> (r: String)
    ensures
        r@ == item_text(Listed::Service, *e),
{
    let null = Json::Null;
    let n = at_ref(e, "node", &null);
    let mut out = owned("🚂 ");
    push_str(&mut out, get_str_or(n, "name", "?"));
    push_str(&mut out, "\n  id=");
    push_str(&mut out, get_str_or(n, "id", "?"));
    let inst = at_ref(n, "serviceInstances", &null);
    match get_array(inst, "edges") {
        Some(items) => {
            let k = items.len();
            if k > 0 {
                push_str(&mut out, "\n");
                let ghost head = out@;
                for i in 0..k
                    invariant
                        k == items@.len(),
                        k > 0,
                        null == Json::Null,
                        out@ == head + instances_text(items@.take(i as int)),
                {
                    assert(items@.take(i + 1).drop_last() == items@.take(i as int));
                    assert(items@.take(i + 1).last() == items@[i as int]);
                    if i > 0 {
                        push_str(&mut out, "\n");
                    } else {
                        assert(items@.take(1)[0] == items@[0]);
                    }
                    let node = at_ref(&items[i], "node", &null);
                    push_str(&mut out, "    env=");
                    push_str(&mut out, get_str_or(node, "environmentId", "?"));
                    push_str(&mut out, " · cmd=");
                    push_str(&mut out, get_str_or(node, "startCommand", "—"));
                }
                assert(items@.take(k as int) == items@);
            }
        },
        None => {},
    }
    out
}

fn format_item(kind: Listed, e: &Json) -> (r: String)
    ensures
        r@ == item_text(kind, *e),
{
    let null = Json::Null;
    let n = at_ref(e, "node", &null);
    match kind {
        Listed::Project => {
            let mut out = owned("🚂 ");
            push_str(&mut out, get_str_or(n, "name", "?"));
            push_str(&mut out, "\n  id=");
            push_str(&mut out, get_str_or(n, "id", "?"));
            push_str(&mut out, " · créé=");
            push_str(&mut out, fmt_ts_val(at_ref(n, "createdAt", &null)).as_str());
            push_str(&mut out, "\n  ");
            push_str(&mut out, get_str_or(n, "description", "—"));
            out
        },
        Listed::Named => {
            let mut out = owned("  • ");
            push_str(&mut out, get_str_or(n, "name", "?"));
            push_str(&mut out, " (id=");
            push_str(&mut out, get_str_or(n, "id", "?"));
            push_str(&mut out, ")");
            out
        },
        Listed::Service => service_item(e),
        Listed::Deployment => {
            let mut out = owned(fmt_deploy_status(get_str_or(n, "status", "?")));
            push_str(&mut out, "\n  id=");
            push_str(&mut out, get_str_or(n, "id", "?"));
            push_str(&mut out, " · ");
            push_str(&mut out, fmt_ts_val(at_ref(n, "createdAt", &null)).as_str());
            push_str(&mut out, " · image=");
            push_str(&mut out, get_nested_str_or(n, "meta", "image", "—"));
            out
        },
        Listed::Log => {
            let mut out = owned("[");
            push_str(&mut out, fmt_ts(get_str_or(e, "timestamp", "")).as_str());
            push_str(&mut out, "] ");
            push_str(&mut out, get_str_or(e, "message", ""));
            out
        },
        Listed::Environment => {
            let mut out = owned("🚂 ");
            push_str(&mut out, get_str_or(n, "name", "?"));
            push_str(&mut out, "  id=");
            push_str(&mut out, get_str_or(n, "id", "?"));
            out
        },
        Listed::BuildLog => {
            let mut out = owned("[");
            push_str(&mut out, get_str_or(e, "severity", "INFO"));
            push_str(&mut out, "] [");
            push_str(&mut out, fmt_ts(get_str_or(e, "timestamp", "")).as_str());
            push_str(&mut out, "] ");
            push_str(&mut out, get_str_or(e, "message", ""));
            out
        },
    }
}

/// The items' texts joined by `sep`.
pub open spec fn joined(kind: Listed, items: Seq<Json>, sep: Seq<char>) -> Seq<char>
    decreases items.len(),
{
    if items.len() == 0 {
        seq![]
    } else if items.len() == 1 {
        item_text(kind, items[0])
    } else {
        joined(kind, items.drop_last(), sep) + sep + item_text(kind, items.last())
    }
}

fn join_items(kind: Listed, items: &Vec<Json>, sep: &str) -> (r: String)
    ensures
        r@ == joined(kind, items@, sep@),
{
    let mut out = String::new();
    let n = items.len();
    for i in 0..n
        invariant
            n == items@.len(),
            out@ == joined(kind, items@.take(i as int), sep@),
    {
        assert(items@.take(i + 1).drop_last() == items@.take(i as int));
        assert(items@.take(i + 1).last() == items@[i as int]);
        if i > 0 {
            push_str(&mut out, sep);
        } else {
            assert(out@ == Seq::<char>::empty());
        }
        push_str(&mut out, format_item(kind, &items[i]).as_str());
    }
    assert(items@.take(n as int) == items@);
    out
}

/// An array rendered: `empty` when it has no item, else the items joined by `sep`.
pub open spec fn listing(kind: Listed, items: Seq<Json>, sep: Seq<char>, empty: Seq<char>) -> Seq<char> {
    if items.len() == 0 {
        empty
    } else {
        joined(kind, items, sep)
    }
}

fn listing_exec(kind: Listed, arr: Option<&Vec<Json>>, sep: &str, empty: &str) -> (t: String)
    ensures
        t@ == listing(
            kind,
            match arr {
                Some(a) => a@,
                None => seq![],
            },
            sep@,
            empty@,
        ),
{
    match arr {
        Some(items) => if items.len() == 0 {
            owned(empty)
        } else {
            join_items(kind, items, sep)
        },
        None => owned(empty),
    }
}


/// `railway_get_project`: the project with its services and environments.
pub open spec fn project_detail(pid: Seq<char>, data: Json) -> Seq<char> {
    let p = data.at("project"@);
    let svcs = edges2(p, "services"@, "edges"@);
    let envs = edges2(p, "environments"@, "edges"@);
    "🚂 "@ + str_or(p, "name"@, "?"@) + "\n  id="@ + pid + "\n  "@ + str_or(p, "description"@, "—"@)
        + "\n\nServices ("@ + dec_nat(svcs.len()) + "):\n"@ + joined(Listed::Named, svcs, "\n"@)
        + "\n\nEnvironnements ("@ + dec_nat(envs.len()) + "):\n"@ + joined(Listed::Named, envs, "\n"@)
}

fn edges_ref<'a>(v: &'a Json, k0: &str, k1: &str) -> (r: Option<&'a Vec<Json>>)
    ensures
        r matches Some(a) ==> v.at(k0@).at(k1@).array_of() == Some(a@),
        r is None ==> v.at(k0@).at(k1@).array_of() is None,
{
    match v.get(k0) {
        Some(x) => get_array(x, k1),
        None => None,
    }
}

fn count_and_join(arr: Option<&Vec<Json>>, out: &mut String)
    ensures
        final(out)@ == old(out)@ + dec_nat(
            match arr {
                Some(a) => a@.len(),
                None => 0,
            },
        ) + "):\n"@ + joined(
            Listed::Named,
            match arr {
                Some(a) => a@,
                None => seq![],
            },
            "\n"@,
        ),
{
    match arr {
        Some(a) => {
            push_u64(out, a.len() as u64);
            push_str(out, "):\n");
            push_str(out, join_items(Listed::Named, a, "\n").as_str());
        },
        None => {
            push_u64(out, 0);
            push_str(out, "):\n");
            push_str(out, join_items(Listed::Named, &Vec::new(), "\n").as_str());
        },
    }
}

fn project_detail_exec(pid: &str, data: &Json) -> (t: String)
    ensures
        t@ == project_detail(pid@, *data),
{
    let null = Json::Null;
    let p = at_ref(data, "project", &null);
    let mut out = owned("🚂 ");
    push_str(&mut out, get_str_or(p, "name", "?"));
    push_str(&mut out, "\n  id=");
    push_str(&mut out, pid);
    push_str(&mut out, "\n  ");
    push_str(&mut out, get_str_or(p, "description", "—"));
    push_str(&mut out, "\n\nServices (");
    let svcs = edges_ref(p, "services", "edges");
    count_and_join(svcs, &mut out);
    push_str(&mut out, "\n\nEnvironnements (");
    let envs = edges_ref(p, "environments", "edges");
    count_and_join(envs, &mut out);
    out
}

/// `railway_get_variables`: the names of the variables, never their values.
pub open spec fn variables_text(data: Json) -> Seq<char> {
    match data.at("variables"@) {
        Json::Object(fields) => if fields@.len() > 0 {
            "Variables ("@ + dec_nat(fields@.len()) + ") — noms uniquement (valeurs masquées) :\n"@
                + join_spec(fields@.map_values(|f: (String, Json)| f.0@), "\n"@)
        } else {
            "Aucune variable trouvée."@
        },
        _ => "Aucune variable trouvée."@,
    }
}

fn variables_exec(data: &Json) -> (t: String)
    ensures
        t@ == variables_text(*data),
{
    let null = Json::Null;
    match at_ref(data, "variables", &null) {
        Json::Object(fields) => {
            let n = fields.len();
            if n == 0 {
                return owned("Aucune variable trouvée.");
            }
            let mut keys: Vec<&str> = Vec::new();
            for i in 0..n
                invariant
                    n == fields@.len(),
                    views(keys@) == fields@.take(i as int).map_values(|f: (String, Json)| f.0@),
            {
                keys.push(fields[i].0.as_str());
                assert(views(keys@) == views(keys@.drop_last()).push(fields@[i as int].0@));
                assert(fields@.take(i + 1).map_values(|f: (String, Json)| f.0@) == fields@.take(
                    i as int,
                ).map_values(|f: (String, Json)| f.0@).push(fields@[i as int].0@));
            }
            assert(fields@.take(n as int) == fields@);
            let mut out = owned("Variables (");
            push_u64(&mut out, n as u64);
            push_str(&mut out, ") — noms uniquement (valeurs masquées) :\n");
            push_str(&mut out, join_strs(&keys, "\n").as_str());
            out
        },
        _ => owned("Aucune variable trouvée."),
    }
}

/// `railway_get_service`.
pub open spec fn service_detail(data: Json) -> Seq<char> {
    let s = data.at("service"@);
    "🚂 "@ + str_or(s, "name"@, "?"@) + "\n  id="@ + str_or(s, "id"@, "?"@) + "\n  templateServiceId="@
        + str_or(s, "templateServiceId"@, "—"@) + "\n  templateThreadSlug="@ + str_or(
        s,
        "templateThreadSlug"@,
        "—"@,
    )
}

fn service_detail_exec(data: &Json) -> (t: String)
    ensures
        t@ == service_detail(*data),
{
    let null = Json::Null;
    let s = at_ref(data, "service", &null);
    let mut out = owned("🚂 ");
    push_str(&mut out, get_str_or(s, "name", "?"));
    push_str(&mut out, "\n  id=");
    push_str(&mut out, get_str_or(s, "id", "?"));
    push_str(&mut out, "\n  templateServiceId=");
    push_str(&mut out, get_str_or(s, "templateServiceId", "—"));
    push_str(&mut out, "\n  templateThreadSlug=");
    push_str(&mut out, get_str_or(s, "templateThreadSlug", "—"));
    out
}

/// The `limit` argument of `railway_build_logs`, 50 by default.
pub open spec fn build_limit(args: Json) -> int {
    match args.at("limit"@).i64_of() {
        Some(n) => n as int,
        None => 50,
    }
}

/// What a call of Railway tool `name` with `args` does next, given the responses so far.
/// `railway_get_usage` is not among these tools: it renders floating-point amounts.
pub open spec fn handle_view(name: Seq<char>, args: Json, rs: Seq<Json>) -> StepView {
    if name == "railway_list_projects"@ {
        gql_call(
            Query::ListProjects,
            "{}"@,
            rs,
            |d: Json|
                listing(
                    Listed::Project,
                    edges_at(d, "me"@, "projects"@, "edges"@),
                    "\n\n"@,
                    "Aucun projet trouvé."@,
                ),
        )
    } else if name == "railway_get_project"@ {
        match args.at("project_id"@).str_of() {
            None => fail_view(missing_text("project_id"@)),
            Some(pid) => gql_call(Query::GetProject, var1("id"@, pid), rs, |d: Json| project_detail(pid, d)),
        }
    } else if name == "railway_list_services"@ {
        match args.at("project_id"@).str_of() {
            None => fail_view(missing_text("project_id"@)),
            Some(pid) => gql_call(
                Query::ListServices,
                var1("projectId"@, pid),
                rs,
                |d: Json|
                    listing(
                        Listed::Service,
                        edges_at(d, "project"@, "services"@, "edges"@),
                        "\n\n"@,
                        "Aucun service trouvé."@,
                    ),
            ),
        }
    } else if name == "railway_list_deployments"@ {
        match args.at("project_id"@).str_of() {
            None => fail_view(missing_text("project_id"@)),
            Some(pid) => gql_call(
                Query::ListDeployments,
                "{\"projectId\":"@ + quoted(pid) + ",\"serviceId\":"@ + opt_json(
                    args.at("service_id"@).str_of(),
                ) + "}"@,
                rs,
                |d: Json|
                    listing(
                        Listed::Deployment,
                        edges2(d, "deployments"@, "edges"@),
                        "\n\n"@,
                        "Aucun déploiement trouvé."@,
                    ),
            ),
        }
    } else if name == "railway_get_logs"@ {
        match args.at("deployment_id"@).str_of() {
            None => fail_view(missing_text("deployment_id"@)),
            Some(id) => gql_call(
                Query::GetLogs,
                var1("deploymentId"@, id),
                rs,
                |d: Json|
                    listing(
                        Listed::Log,
                        match d.at("deploymentLogs"@).array_of() {
                            Some(a) => a,
                            None => seq![],
                        },
                        "\n"@,
                        "Aucun log disponible."@,
                    ),
            ),
        }
    } else if name == "railway_get_variables"@ {
        match args.at("project_id"@).str_of() {
            None => fail_view(missing_text("project_id"@)),
            Some(pid) => match args.at("environment_id"@).str_of() {
                None => fail_view(missing_text("environment_id"@)),
                Some(eid) => match args.at("service_id"@).str_of() {
                    None => fail_view(missing_text("service_id"@)),
                    Some(sid) => gql_call(
                        Query::GetVariables,
                        "{\"environmentId\":"@ + quoted(eid) + ",\"projectId\":"@ + quoted(pid)
                            + ",\"serviceId\":"@ + quoted(sid) + "}"@,
                        rs,
                        |d: Json| variables_text(d),
                    ),
                },
            },
        }
    } else if name == "railway_trigger_deploy"@ {
        match args.at("service_id"@).str_of() {
            None => fail_view(missing_text("service_id"@)),
            Some(sid) => match args.at("environment_id"@).str_of() {
                None => fail_view(missing_text("environment_id"@)),
                Some(eid) => gql_call(
                    Query::TriggerDeploy,
                    "{\"environmentId\":"@ + quoted(eid) + ",\"serviceId\":"@ + quoted(sid) + "}"@,
                    rs,
                    |d: Json|
                        "✅ Redéploiement déclenché pour le service "@ + sid + " (env="@ + eid + ")."@,
                ),
            },
        }
    } else if name == "railway_list_environments"@ {
        match args.at("project_id"@).str_of() {
            None => fail_view(missing_text("project_id"@)),
            Some(pid) => gql_call(
                Query::ListEnvironments,
                var1("projectId"@, pid),
                rs,
                |d: Json|
                    listing(
                        Listed::Environment,
                        edges_at(d, "project"@, "environments"@, "edges"@),
                        "\n"@,
                        "Aucun environnement trouvé."@,
                    ),
            ),
        }
    } else if name == "railway_get_service"@ {
        match args.at("service_id"@).str_of() {
            None => fail_view(missing_text("service_id"@)),
            Some(sid) => gql_call(Query::GetService, var1("id"@, sid), rs, |d: Json| service_detail(d)),
        }
    } else if name == "railway_build_logs"@ {
        match args.at("deployment_id"@).str_of() {
            None => fail_view(missing_text("deployment_id"@)),
            Some(id) => gql_call(
                Query::BuildLogs,
                "{\"deploymentId\":"@ + quoted(id) + ",\"limit\":"@ + dec_int(build_limit(args)) + "}"@,
                rs,
                |d: Json|
                    listing(
                        Listed::BuildLog,
                        match d.at("buildLogs"@).array_of() {
                            Some(a) => a,
                            None => seq![],
                        },
                        "\n"@,
                        "Aucun log de build disponible."@,
                    ),
            ),
        }
    } else if name == "railway_restart_deployment"@ {
        match args.at("deployment_id"@).str_of() {
            None => fail_view(missing_text("deployment_id"@)),
            Some(id) => gql_call(
                Query::RestartDeployment,
                var1("id"@, id),
                rs,
                |d: Json| "✅ Déploiement "@ + id + " redémarré avec succès."@,
            ),
        }
    } else if name == "railway_create_project"@ {
        match args.at("name"@).str_of() {
            None => fail_view(missing_text("name"@)),
            Some(n) => gql_call(
                Query::CreateProject,
                "{\"description\":"@ + opt_json(args.at("description"@).str_of()) + ",\"name\":"@
                    + quoted(n) + "}"@,
                rs,
                |d: Json|
                    "✅ Projet créé : "@ + str_or(d.at("projectCreate"@), "name"@, "?"@) + "\n  id="@
                        + str_or(d.at("projectCreate"@), "id"@, "?"@),
            ),
        }
    } else if name == "railway_delete_project"@ {
        match args.at("project_id"@).str_of() {
            None => fail_view(missing_text("project_id"@)),
            Some(pid) => gql_call(
                Query::DeleteProject,
                var1("id"@, pid),
                rs,
                |d: Json| "✅ Projet "@ + pid + " supprimé définitivement."@,
            ),
        }
    } else {
        fail_view("Unknown railway tool: "@ + name)
    }
}

fn data_listing(
    resp: &Json,
    k0: &str,
    k1: &str,
    k2: &str,
    depth: u8,
    kind: Listed,
    sep: &str,
    empty: &str,
) -> (t: String)
    requires
        1 <= depth <= 3,
    ensures
        t@ == listing(
            kind,
            if depth == 3 {
                edges_at(resp.at("data"@), k0@, k1@, k2@)
            } else if depth == 2 {
                edges2(resp.at("data"@), k0@, k1@)
            } else {
                match resp.at("data"@).at(k0@).array_of() {
                    Some(a) => a,
                    None => seq![],
                }
            },
            sep@,
            empty@,
        ),
{
    let null = Json::Null;
    let d = at_ref(resp, "data", &null);
    let arr = if depth == 3 {
        match d.get(k0) {
            Some(x) => edges_ref(x, k1, k2),
            None => None,
        }
    } else if depth == 2 {
        edges_ref(d, k0, k1)
    } else {
        get_array(d, k0)
    };
    listing_exec(kind, arr, sep, empty)
}

fn data_of<'a>(resp: &'a Json, null: &'a Json) -> (d: &'a Json)
    requires
        *null == Json::Null,
    ensures
        *d == resp.at("data"@),
{
    at_ref(resp, "data", null)
}

/// Runs one step of the Railway tool `name` called with `args`: `responses` holds the parsed
/// responses to the requests made so far (each tool makes one GraphQL call).
pub fn handle(cfg: &RailwayConfig, name: &str, args: &Json, responses: &Vec<Json>) -> (s: Step)
    requires
        name@ != "railway_get_usage"@,
    ensures
        s@ == handle_view(name@, *args, responses@),
{
    let rs = responses;
    let first = rs.len() == 0;
    let null = Json::Null;
    if str_eq(name, "railway_list_projects") {
        if first {
            return gql_step(Query::ListProjects, "{}");
        }
        let t = data_listing(&rs[0], "me", "projects", "edges", 3, Listed::Project, "\n\n", "Aucun projet trouvé.");
        gql_done(&rs[0], t)
    } else if str_eq(name, "railway_get_project") {
        match get_str(args, "project_id") {
            None => missing("project_id"),
            Some(pid) => if first {
                gql_step(Query::GetProject, var1_exec("id", pid).as_str())
            } else {
                gql_done(&rs[0], project_detail_exec(pid, data_of(&rs[0], &null)))
            },
        }
    } else if str_eq(name, "railway_list_services") {
        match get_str(args, "project_id") {
            None => missing("project_id"),
            Some(pid) => if first {
                gql_step(Query::ListServices, var1_exec("projectId", pid).as_str())
            } else {
                let t = data_listing(&rs[0], "project", "services", "edges", 3, Listed::Service, "\n\n", "Aucun service trouvé.");
                gql_done(&rs[0], t)
            },
        }
    } else if str_eq(name, "railway_list_deployments") {
        match get_str(args, "project_id") {
            None => missing("project_id"),
            Some(pid) => if first {
                let mut vars = owned("{\"projectId\":");
                push_quoted(&mut vars, pid);
                push_str(&mut vars, ",\"serviceId\":");
                push_opt_json(&mut vars, get_str(args, "service_id"));
                push_str(&mut vars, "}");
                gql_step(Query::ListDeployments, vars.as_str())
            } else {
                let t = data_listing(&rs[0], "deployments", "edges", "", 2, Listed::Deployment, "\n\n", "Aucun déploiement trouvé.");
                gql_done(&rs[0], t)
            },
        }
    } else if str_eq(name, "railway_get_logs") {
        match get_str(args, "deployment_id") {
            None => missing("deployment_id"),
            Some(id) => if first {
                gql_step(Query::GetLogs, var1_exec("deploymentId", id).as_str())
            } else {
                let t = data_listing(&rs[0], "deploymentLogs", "", "", 1, Listed::Log, "\n", "Aucun log disponible.");
                gql_done(&rs[0], t)
            },
        }
    } else if str_eq(name, "railway_get_variables") {
        let pid = match get_str(args, "project_id") {
            None => return missing("project_id"),
            Some(x) => x,
        };
        let eid = match get_str(args, "environment_id") {
            None => return missing("environment_id"),
            Some(x) => x,
        };
        let sid = match get_str(args, "service_id") {
            None => return missing("service_id"),
            Some(x) => x,
        };
        if first {
            let mut vars = owned("{\"environmentId\":");
            push_quoted(&mut vars, eid);
            push_str(&mut vars, ",\"projectId\":");
            push_quoted(&mut vars, pid);
            push_str(&mut vars, ",\"serviceId\":");
            push_quoted(&mut vars, sid);
            push_str(&mut vars, "}");
            gql_step(Query::GetVariables, vars.as_str())
        } else {
            gql_done(&rs[0], variables_exec(data_of(&rs[0], &null)))
        }
    } else if str_eq(name, "railway_trigger_deploy") {
        let sid = match get_str(args, "service_id") {
            None => return missing("service_id"),
            Some(x) => x,
        };
        let eid = match get_str(args, "environment_id") {
            None => return missing("environment_id"),
            Some(x) => x,
        };
        if first {
            let mut vars = owned("{\"environmentId\":");
            push_quoted(&mut vars, eid);
            push_str(&mut vars, ",\"serviceId\":");
            push_quoted(&mut vars, sid);
            push_str(&mut vars, "}");
            gql_step(Query::TriggerDeploy, vars.as_str())
        } else {
            let mut out = owned("✅ Redéploiement déclenché pour le service ");
            push_str(&mut out, sid);
            push_str(&mut out, " (env=");
            push_str(&mut out, eid);
            push_str(&mut out, ").");
            gql_done(&rs[0], out)
        }
    } else if str_eq(name, "railway_list_environments") {
        match get_str(args, "project_id") {
            None => missing("project_id"),
            Some(pid) => if first {
                gql_step(Query::ListEnvironments, var1_exec("projectId", pid).as_str())
            } else {
                let t = data_listing(&rs[0], "project", "environments", "edges", 3, Listed::Environment, "\n", "Aucun environnement trouvé.");
                gql_done(&rs[0], t)
            },
        }
    } else if str_eq(name, "railway_get_service") {
        match get_str(args, "service_id") {
            None => missing("service_id"),
            Some(sid) => if first {
                gql_step(Query::GetService, var1_exec("id", sid).as_str())
            } else {
                gql_done(&rs[0], service_detail_exec(data_of(&rs[0], &null)))
            },
        }
    } else if str_eq(name, "railway_build_logs") {
        match get_str(args, "deployment_id") {
            None => missing("deployment_id"),
            Some(id) => if first {
                let limit = match get_i64(args, "limit") {
                    Some(n) => n,
                    None => 50,
                };
                let mut vars = owned("{\"deploymentId\":");
                push_quoted(&mut vars, id);
                push_str(&mut vars, ",\"limit\":");
                push_i64(&mut vars, limit);
                push_str(&mut vars, "}");
                gql_step(Query::BuildLogs, vars.as_str())
            } else {
                let t = data_listing(&rs[0], "buildLogs", "", "", 1, Listed::BuildLog, "\n", "Aucun log de build disponible.");
                gql_done(&rs[0], t)
            },
        }
    } else if str_eq(name, "railway_restart_deployment") {
        match get_str(args, "deployment_id") {
            None => missing("deployment_id"),
            Some(id) => if first {
                gql_step(Query::RestartDeployment, var1_exec("id", id).as_str())
            } else {
                let mut out = owned("✅ Déploiement ");
                push_str(&mut out, id);
                push_str(&mut out, " redémarré avec succès.");
                gql_done(&rs[0], out)
            },
        }
    } else if str_eq(name, "railway_create_project") {
        match get_str(args, "name") {
            None => missing("name"),
            Some(n) => if first {
                let mut vars = owned("{\"description\":");
                push_opt_json(&mut vars, get_str(args, "description"));
                push_str(&mut vars, ",\"name\":");
                push_quoted(&mut vars, n);
                push_str(&mut vars, "}");
                gql_step(Query::CreateProject, vars.as_str())
            } else {
                let d = data_of(&rs[0], &null);
                let mut out = owned("✅ Projet créé : ");
                push_str(&mut out, get_nested_str_or(d, "projectCreate", "name", "?"));
                push_str(&mut out, "\n  id=");
                push_str(&mut out, get_nested_str_or(d, "projectCreate", "id", "?"));
                gql_done(&rs[0], out)
            },
        }
    } else if str_eq(name, "railway_delete_project") {
        match get_str(args, "project_id") {
            None => missing("project_id"),
            Some(pid) => if first {
                gql_step(Query::DeleteProject, var1_exec("id", pid).as_str())
            } else {
                let mut out = owned("✅ Projet ");
                push_str(&mut out, pid);
                push_str(&mut out, " supprimé définitivement.");
                gql_done(&rs[0], out)
            },
        }
    } else {
        let mut e = owned("Unknown railway tool: ");
        push_str(&mut e, name);
        Step::Done(Err(e))
    }
}

/// Every Railway tool makes one GraphQL call at most: once its response is in, the call has
/// its outcome; and a response with `errors` fails the call with them.
pub proof fn lemma_handle_ends(name: Seq<char>, args: Json, rs: Seq<Json>)
    requires
        rs.len() >= 1,
    ensures
        handle_view(name, args, rs) is Done,
        handle_view(name, args, seq![]) is Send ==> (rs[0].spec_get("errors"@) matches Some(e)
            ==> handle_view(name, args, rs) == fail_view(json_text(e))),
{
}

/// The names of the variables in the `variables` object of a reply's data, in order (none when
/// it is not an object).
pub open spec fn variable_names(data: Json) -> Option<Seq<Seq<char>>> {
    match data.at("variables"@) {
        Json::Object(fields) => Some(fields@.map_values(|f: (String, Json)| f.0@)),
        _ => None,
    }
}

/// `railway_get_variables` shows the names of the variables, never their values: two replies
/// with the same `errors` member whose variables have the same names, in the same order, give
/// the same outcome, whatever values the variables hold.
pub proof fn lemma_variable_values_hidden(args: Json, r1: Json, r2: Json)
    requires
        r1.spec_get("errors"@) == r2.spec_get("errors"@),
        variable_names(r1.at("data"@)) == variable_names(r2.at("data"@)),
    ensures
        handle_view("railway_get_variables"@, args, seq![r1]) == handle_view(
            "railway_get_variables"@,
            args,
            seq![r2],
        ),
{
    reveal_strlit("railway_get_variables");
    reveal_strlit("railway_list_projects");
    reveal_strlit("railway_get_project");
    reveal_strlit("railway_list_services");
    reveal_strlit("railway_list_deployments");
    reveal_strlit("railway_get_logs");
    assert("railway_get_variables"@[8] != "railway_list_projects"@[8]);
    assert("railway_get_variables"@[8] != "railway_list_services"@[8]);
    assert("railway_get_project"@.len() == 19);
    assert("railway_list_deployments"@.len() == 24);
    assert("railway_get_logs"@.len() == 16);
    assert("railway_get_variables"@.len() == 21);
    let d1 = r1.at("data"@);
    let d2 = r2.at("data"@);
    match (d1.at("variables"@), d2.at("variables"@)) {
        (Json::Object(f1), Json::Object(f2)) => {
            assert(f1@.map_values(|f: (String, Json)| f.0@) == f2@.map_values(|f: (String, Json)| f.0@));
            assert(f1@.len() == f2@.len());
        },
        _ => {},
    }
    assert(variables_text(d1) == variables_text(d2));
}

/// The Railway tools offered to MCP clients: name, description and input schema of each, as a
/// The catalog's tools, in its order: for each, the JSON text of its members before its name
/// (its description and input schema).
pub const TOOL_HEADS: [&'static str; 14] = [
    r#"{"description":"RAILWAY 🚂 — Liste tous les projets du compte avec nom, id, description et date de création.","inputSchema":{"properties":{},"type":"object"},"name":"#,
    r#"{"description":"RAILWAY 🚂 — Récupère le détail d'un projet : services et environnements disponibles.","inputSchema":{"properties":{"project_id":{"description":"ID du projet Railway","type":"string"}},"required":["project_id"],"type":"object"},"name":"#,
    r#"{"description":"RAILWAY 🚂 — Liste les services d'un projet avec leur commande de démarrage par environnement.","inputSchema":{"properties":{"project_id":{"description":"ID du projet Railway","type":"string"}},"required":["project_id"],"type":"object"},"name":"#,
    r#"{"description":"RAILWAY 🚂 — Liste les déploiements récents d'un projet (filtrable par service). Retourne statut, image, date.","inputSchema":{"properties":{"project_id":{"description":"ID du projet Railway","type":"string"},"service_id":{"description":"Filtrer par service (optionnel)","type":"string"}},"required":["project_id"],"type":"object"},"name":"#,
    r#"{"description":"RAILWAY 🚂 — Récupère les logs d'un déploiement (timestamp + message).","inputSchema":{"properties":{"deployment_id":{"description":"ID du déploiement","type":"string"}},"required":["deployment_id"],"type":"object"},"name":"#,
    r#"{"description":"RAILWAY 🚂 — Liste les NOMS des variables d'environnement d'un service (jamais les valeurs — sécurité).","inputSchema":{"properties":{"environment_id":{"type":"string"},"project_id":{"type":"string"},"service_id":{"type":"string"}},"required":["project_id","environment_id","service_id"],"type":"object"},"name":"#,
    r#"{"description":"RAILWAY 🚂 — Déclenche un redéploiement d'un service dans un environnement.","inputSchema":{"properties":{"environment_id":{"description":"ID de l'environnement","type":"string"},"service_id":{"description":"ID du service","type":"string"}},"required":["service_id","environment_id"],"type":"object"},"name":"#,
    r#"{"description":"RAILWAY 🚂 — Liste les environnements d'un projet (ex: production, staging).","inputSchema":{"properties":{"project_id":{"description":"ID du projet","type":"string"}},"required":["project_id"],"type":"object"},"name":"#,
    r#"{"description":"RAILWAY 🚂 — Récupère le détail d'un service : id, nom, templateServiceId et templateThreadSlug.","inputSchema":{"properties":{"service_id":{"description":"ID du service Railway","type":"string"}},"required":["service_id"],"type":"object"},"name":"#,
    r#"{"description":"RAILWAY 🚂 — Récupère les logs de build d'un déploiement avec timestamp, message et sévérité. Format : [severity] [timestamp] message.","inputSchema":{"properties":{"deployment_id":{"description":"ID du déploiement","type":"string"},"limit":{"description":"Nombre maximum de lignes (défaut 50)","type":"integer"}},"required":["deployment_id"],"type":"object"},"name":"#,
    r#"{"description":"RAILWAY 🚂 — Redémarre un déploiement existant via son ID.","inputSchema":{"properties":{"deployment_id":{"description":"ID du déploiement à redémarrer","type":"string"}},"required":["deployment_id"],"type":"object"},"name":"#,
    r#"{"description":"RAILWAY 🚂 — Crée un nouveau projet Railway avec un nom et une description optionnelle. Retourne l'id et le nom du projet créé.","inputSchema":{"properties":{"description":{"description":"Description du projet (optionnel)","type":"string"},"name":{"description":"Nom du projet","type":"string"}},"required":["name"],"type":"object"},"name":"#,
    r#"{"description":"RAILWAY 🚂 — Supprime définitivement un projet Railway par son ID. Action irréversible.","inputSchema":{"properties":{"project_id":{"description":"ID du projet à supprimer","type":"string"}},"required":["project_id"],"type":"object"},"name":"#,
    r#"{"description":"RAILWAY 🚂 — Récupère l'utilisation et les coûts estimés d'un projet pour une période donnée (CPU, mémoire, coût en dollars). Par défaut : 30 derniers jours.","inputSchema":{"properties":{"end_date":{"description":"Date de fin YYYY-MM-DD (défaut : aujourd'hui)","type":"string"},"environment_id":{"description":"ID de l'environnement","type":"string"},"project_id":{"description":"ID du projet","type":"string"},"start_date":{"description":"Date de début YYYY-MM-DD (défaut : -30 jours)","type":"string"}},"required":["project_id","environment_id"],"type":"object"},"name":"#
];

/// The names of the catalog's tools, in its order (those of [`catalog_names`]).
pub const TOOL_NAMES: [&'static str; 14] = [
    "railway_list_projects",
    "railway_get_project",
    "railway_list_services",
    "railway_list_deployments",
    "railway_get_logs",
    "railway_get_variables",
    "railway_trigger_deploy",
    "railway_list_environments",
    "railway_get_service",
    "railway_build_logs",
    "railway_restart_deployment",
    "railway_create_project",
    "railway_delete_project",
    "railway_get_usage"
];

/// The Railway tools offered to MCP clients, as a JSON array: one entry per tool of
/// [`catalog_names`], in order, each with its description and input schema (from
/// [`TOOL_HEADS`]) and its name.
pub fn tools() -> (r: String)
    ensures
        r@ == catalog_text(texts(TOOL_HEADS@), catalog_names()),
{
    assert(texts(TOOL_NAMES@) =~= catalog_names());
    build_catalog(&TOOL_HEADS, &TOOL_NAMES)
}

/// The names of the tools in the catalog, in its order.
pub open spec fn catalog_names() -> Seq<Seq<char>> {
    seq![
        "railway_list_projects"@,
        "railway_get_project"@,
        "railway_list_services"@,
        "railway_list_deployments"@,
        "railway_get_logs"@,
        "railway_get_variables"@,
        "railway_trigger_deploy"@,
        "railway_list_environments"@,
        "railway_get_service"@,
        "railway_build_logs"@,
        "railway_restart_deployment"@,
        "railway_create_project"@,
        "railway_delete_project"@,
        "railway_get_usage"@
    ]
}

/// The names of the tools in the catalog, in its order (see [`catalog_names`]).
pub fn tool_names() -> (r: Vec<&'static str>)
    ensures
        r@.map_values(|s: &'static str| s@) == catalog_names(),
{
    let r = vec![
        "railway_list_projects",
        "railway_get_project",
        "railway_list_services",
        "railway_list_deployments",
        "railway_get_logs",
        "railway_get_variables",
        "railway_trigger_deploy",
        "railway_list_environments",
        "railway_get_service",
        "railway_build_logs",
        "railway_restart_deployment",
        "railway_create_project",
        "railway_delete_project",
        "railway_get_usage"
    ];
    assert(r@.map_values(|s: &'static str| s@) =~= catalog_names());
    r
}

/// A tool name that [`tools`] does not serve (one outside [`catalog_names`]) gets the
/// unknown-tool error, without a request.
pub proof fn lemma_unknown_tool(name: Seq<char>, args: Json, rs: Seq<Json>)
    requires
        !catalog_names().contains(name),
    ensures
        handle_view(name, args, rs) == fail_view("Unknown railway tool: "@ + name),
{
    assert(catalog_names()[0] == "railway_list_projects"@);
    assert(catalog_names()[1] == "railway_get_project"@);
    assert(catalog_names()[2] == "railway_list_services"@);
    assert(catalog_names()[3] == "railway_list_deployments"@);
    assert(catalog_names()[4] == "railway_get_logs"@);
    assert(catalog_names()[5] == "railway_get_variables"@);
    assert(catalog_names()[6] == "railway_trigger_deploy"@);
    assert(catalog_names()[7] == "railway_list_environments"@);
    assert(catalog_names()[8] == "railway_get_service"@);
    assert(catalog_names()[9] == "railway_build_logs"@);
    assert(catalog_names()[10] == "railway_restart_deployment"@);
    assert(catalog_names()[11] == "railway_create_project"@);
    assert(catalog_names()[12] == "railway_delete_project"@);
    assert(catalog_names()[13] == "railway_get_usage"@);
}

/// Every tool that [`tools`] serves (those of [`catalog_names`]) and that this module runs is
/// handled: its first step is never the unknown-tool error.
pub proof fn lemma_catalog_handled(name: Seq<char>, args: Json)
    requires
        catalog_names().contains(name),
        name != "railway_get_usage"@,
    ensures
        handle_view(name, args, seq![]) != fail_view("Unknown railway tool: "@ + name),
{
    reveal_strlit("Missing param: ");
    reveal_strlit("Unknown railway tool: ");
    assert(("Unknown railway tool: "@ + name)[0] == 'U');
    assert(catalog_names()[0] == "railway_list_projects"@);
    assert(catalog_names()[1] == "railway_get_project"@);
    assert(catalog_names()[2] == "railway_list_services"@);
    assert(catalog_names()[3] == "railway_list_deployments"@);
    assert(catalog_names()[4] == "railway_get_logs"@);
    assert(catalog_names()[5] == "railway_get_variables"@);
    assert(catalog_names()[6] == "railway_trigger_deploy"@);
    assert(catalog_names()[7] == "railway_list_environments"@);
    assert(catalog_names()[8] == "railway_get_service"@);
    assert(catalog_names()[9] == "railway_build_logs"@);
    assert(catalog_names()[10] == "railway_restart_deployment"@);
    assert(catalog_names()[11] == "railway_create_project"@);
    assert(catalog_names()[12] == "railway_delete_project"@);
    assert(catalog_names()[13] == "railway_get_usage"@);
}

/// The names of each catalog tool's input properties and of those it requires, in catalog
/// order (properties by name).
pub open spec fn catalog_schemas() -> Seq<(Seq<char>, Seq<Seq<char>>, Seq<Seq<char>>)> {
    seq![
        ("railway_list_projects"@, seq![], seq![]),
        ("railway_get_project"@, seq!["project_id"@], seq!["project_id"@]),
        ("railway_list_services"@, seq!["project_id"@], seq!["project_id"@]),
        ("railway_list_deployments"@, seq!["project_id"@, "service_id"@], seq!["project_id"@]),
        ("railway_get_logs"@, seq!["deployment_id"@], seq!["deployment_id"@]),
        ("railway_get_variables"@, seq!["environment_id"@, "project_id"@, "service_id"@], seq!["project_id"@, "environment_id"@, "service_id"@]),
        ("railway_trigger_deploy"@, seq!["environment_id"@, "service_id"@], seq!["service_id"@, "environment_id"@]),
        ("railway_list_environments"@, seq!["project_id"@], seq!["project_id"@]),
        ("railway_get_service"@, seq!["service_id"@], seq!["service_id"@]),
        ("railway_build_logs"@, seq!["deployment_id"@, "limit"@], seq!["deployment_id"@]),
        ("railway_restart_deployment"@, seq!["deployment_id"@], seq!["deployment_id"@]),
        ("railway_create_project"@, seq!["description"@, "name"@], seq!["name"@]),
        ("railway_delete_project"@, seq!["project_id"@], seq!["project_id"@]),
        ("railway_get_usage"@, seq!["end_date"@, "environment_id"@, "project_id"@, "start_date"@], seq!["project_id"@, "environment_id"@])
    ]
}

/// The names of each catalog tool's input properties and required inputs (see
/// [`catalog_schemas`]).
pub fn tool_schemas() -> (r: Vec<SchemaNames>)
    ensures
        r@.map_values(|e: SchemaNames| schema_view(e)) == catalog_schemas(),
{
    let r: Vec<SchemaNames> = vec![
        ("railway_list_projects", vec![], vec![]),
        ("railway_get_project", vec!["project_id"], vec!["project_id"]),
        ("railway_list_services", vec!["project_id"], vec!["project_id"]),
        ("railway_list_deployments", vec!["project_id", "service_id"], vec!["project_id"]),
        ("railway_get_logs", vec!["deployment_id"], vec!["deployment_id"]),
        ("railway_get_variables", vec!["environment_id", "project_id", "service_id"], vec!["project_id", "environment_id", "service_id"]),
        ("railway_trigger_deploy", vec!["environment_id", "service_id"], vec!["service_id", "environment_id"]),
        ("railway_list_environments", vec!["project_id"], vec!["project_id"]),
        ("railway_get_service", vec!["service_id"], vec!["service_id"]),
        ("railway_build_logs", vec!["deployment_id", "limit"], vec!["deployment_id"]),
        ("railway_restart_deployment", vec!["deployment_id"], vec!["deployment_id"]),
        ("railway_create_project", vec!["description", "name"], vec!["name"]),
        ("railway_delete_project", vec!["project_id"], vec!["project_id"]),
        ("railway_get_usage", vec!["end_date", "environment_id", "project_id", "start_date"], vec!["project_id", "environment_id"])
    ];
    assert(r@[0].1@.map_values(|s: &'static str| s@) =~= catalog_schemas()[0].1);
    assert(r@[0].2@.map_values(|s: &'static str| s@) =~= catalog_schemas()[0].2);
    assert(r@[1].1@.map_values(|s: &'static str| s@) =~= catalog_schemas()[1].1);
    assert(r@[1].2@.map_values(|s: &'static str| s@) =~= catalog_schemas()[1].2);
    assert(r@[2].1@.map_values(|s: &'static str| s@) =~= catalog_schemas()[2].1);
    assert(r@[2].2@.map_values(|s: &'static str| s@) =~= catalog_schemas()[2].2);
    assert(r@[3].1@.map_values(|s: &'static str| s@) =~= catalog_schemas()[3].1);
    assert(r@[3].2@.map_values(|s: &'static str| s@) =~= catalog_schemas()[3].2);
    assert(r@[4].1@.map_values(|s: &'static str| s@) =~= catalog_schemas()[4].1);
    assert(r@[4].2@.map_values(|s: &'static str| s@) =~= catalog_schemas()[4].2);
    assert(r@[5].1@.map_values(|s: &'static str| s@) =~= catalog_schemas()[5].1);
    assert(r@[5].2@.map_values(|s: &'static str| s@) =~= catalog_schemas()[5].2);
    assert(r@[6].1@.map_values(|s: &'static str| s@) =~= catalog_schemas()[6].1);
    assert(r@[6].2@.map_values(|s: &'static str| s@) =~= catalog_schemas()[6].2);
    assert(r@[7].1@.map_values(|s: &'static str| s@) =~= catalog_schemas()[7].1);
    assert(r@[7].2@.map_values(|s: &'static str| s@) =~= catalog_schemas()[7].2);
    assert(r@[8].1@.map_values(|s: &'static str| s@) =~= catalog_schemas()[8].1);
    assert(r@[8].2@.map_values(|s: &'static str| s@) =~= catalog_schemas()[8].2);
    assert(r@[9].1@.map_values(|s: &'static str| s@) =~= catalog_schemas()[9].1);
    assert(r@[9].2@.map_values(|s: &'static str| s@) =~= catalog_schemas()[9].2);
    assert(r@[10].1@.map_values(|s: &'static str| s@) =~= catalog_schemas()[10].1);
    assert(r@[10].2@.map_values(|s: &'static str| s@) =~= catalog_schemas()[10].2);
    assert(r@[11].1@.map_values(|s: &'static str| s@) =~= catalog_schemas()[11].1);
    assert(r@[11].2@.map_values(|s: &'static str| s@) =~= catalog_schemas()[11].2);
    assert(r@[12].1@.map_values(|s: &'static str| s@) =~= catalog_schemas()[12].1);
    assert(r@[12].2@.map_values(|s: &'static str| s@) =~= catalog_schemas()[12].2);
    assert(r@[13].1@.map_values(|s: &'static str| s@) =~= catalog_schemas()[13].1);
    assert(r@[13].2@.map_values(|s: &'static str| s@) =~= catalog_schemas()[13].2);
    assert(r@.map_values(|e: SchemaNames| schema_view(e)) =~= catalog_schemas());
    r
}

/// Every tool of the catalog requires only inputs that are among its properties.
pub proof fn lemma_required_are_properties(i: int)
    requires
        0 <= i < catalog_schemas().len(),
    ensures
        requires_properties(catalog_schemas()[i]),
{
    if i == 1 {
        assert(catalog_schemas()[1].1[0] == catalog_schemas()[1].2[0]);
    }
    if i == 2 {
        assert(catalog_schemas()[2].1[0] == catalog_schemas()[2].2[0]);
    }
    if i == 3 {
        assert(catalog_schemas()[3].1[0] == catalog_schemas()[3].2[0]);
    }
    if i == 4 {
        assert(catalog_schemas()[4].1[0] == catalog_schemas()[4].2[0]);
    }
    if i == 5 {
        assert(catalog_schemas()[5].1[1] == catalog_schemas()[5].2[0]);
        assert(catalog_schemas()[5].1[0] == catalog_schemas()[5].2[1]);
        assert(catalog_schemas()[5].1[2] == catalog_schemas()[5].2[2]);
    }
    if i == 6 {
        assert(catalog_schemas()[6].1[1] == catalog_schemas()[6].2[0]);
        assert(catalog_schemas()[6].1[0] == catalog_schemas()[6].2[1]);
    }
    if i == 7 {
        assert(catalog_schemas()[7].1[0] == catalog_schemas()[7].2[0]);
    }
    if i == 8 {
        assert(catalog_schemas()[8].1[0] == catalog_schemas()[8].2[0]);
    }
    if i == 9 {
        assert(catalog_schemas()[9].1[0] == catalog_schemas()[9].2[0]);
    }
    if i == 10 {
        assert(catalog_schemas()[10].1[0] == catalog_schemas()[10].2[0]);
    }
    if i == 11 {
        assert(catalog_schemas()[11].1[1] == catalog_schemas()[11].2[0]);
    }
    if i == 12 {
        assert(catalog_schemas()[12].1[0] == catalog_schemas()[12].2[0]);
    }
    if i == 13 {
        assert(catalog_schemas()[13].1[2] == catalog_schemas()[13].2[0]);
        assert(catalog_schemas()[13].1[1] == catalog_schemas()[13].2[1]);
    }
}

/// `railway_get_variables` asks the GraphQL API for the variables of the service named by
/// `service_id`, in the environment named by `environment_id` of the project named by
/// `project_id`, each argument under its own variable.
pub proof fn lemma_get_variables_request(args: Json, pid: Seq<char>, eid: Seq<char>, sid: Seq<char>)
    requires
        args.at("project_id"@).str_of() == Some(pid),
        args.at("environment_id"@).str_of() == Some(eid),
        args.at("service_id"@).str_of() == Some(sid),
    ensures
        handle_view("railway_get_variables"@, args, seq![]) == send_view(
            Method::Post,
            "https://backboard.railway.app/graphql/v2"@,
            Some(
                "{\"query\":"@ + quoted(query_text(Query::GetVariables)) + ",\"variables\":"@
                    + ("{\"environmentId\":"@ + quoted(eid) + ",\"projectId\":"@ + quoted(pid)
                    + ",\"serviceId\":"@ + quoted(sid) + "}"@) + "}"@,
            ),
        ),
{
    reveal_strlit("railway_get_variables");
    reveal_strlit("railway_list_projects");
    assert("railway_get_variables"@[8] != "railway_list_projects"@[8]);
    reveal_strlit("railway_get_project");
    assert("railway_get_project"@.len() == 19);
    reveal_strlit("railway_list_services");
    assert("railway_get_variables"@[8] != "railway_list_services"@[8]);
    reveal_strlit("railway_list_deployments");
    assert("railway_list_deployments"@.len() == 24);
    reveal_strlit("railway_get_logs");
    assert("railway_get_logs"@.len() == 16);
    assert("railway_get_variables"@.len() == 21);
}

} // verus!
