//! Proxies to third-party MCP servers run as subprocesses: what each one is started with,
//! and the JSON-RPC lines exchanged with it.
pub mod cloudflare;
pub mod github;
pub mod gitlab;
pub mod jira;
pub mod linear;
pub mod notion;
pub mod sentry;
pub mod slack;
pub mod supabase;

use vstd::prelude::*;
use crate::json::{get_str, json_text, quoted, to_json_string, Json};
use crate::text::{dec_nat, owned, push_str, push_u64};

verus! {

/// Ids of JSON-RPC requests, handed out in increasing order from 100 (wrapping at the end of
/// the `u64` range).
pub struct RequestCounter {
    pub next: u64,
}

impl RequestCounter {
    /// A counter whose first id is 100.
    pub fn new() -> (c: RequestCounter)
        ensures
            c.next == 100,
    {
        RequestCounter { next: 100 }
    }

    /// The next request id.
    pub fn next_id(&mut self) -> (id: u64)
        ensures
            id == old(self).next,
            final(self).next == following(old(self).next),
    {
        let id = self.next;
        self.next = if id == u64::MAX { 0 } else { id + 1 };
        id
    }
}

/// The id that follows `n`, wrapping at the end of the `u64` range.
pub open spec fn following(n: u64) -> u64 {
    if n == u64::MAX {
        0
    } else {
        (n + 1) as u64
    }
}

/// The id that a counter holding `next` hands out after `k` others.
pub open spec fn advanced(next: u64, k: nat) -> u64
    decreases k,
{
    if k == 0 {
        next
    } else {
        following(advanced(next, (k - 1) as nat))
    }
}

/// A new counter hands out 100, 101, 102, ...: its `k`-th id (from 0) is `100 + k` as long as
/// fewer than `u64::MAX - 100` ids were handed out, so no two of those ids are equal.
pub proof fn lemma_kth_id(j: nat, k: nat)
    requires
        j < k,
        k < u64::MAX - 100,
    ensures
        advanced(100, k) == 100 + k,
        advanced(100, j) == 100 + j,
        advanced(100, j) != advanced(100, k),
{
    lemma_ids_count_up(k);
    lemma_ids_count_up(j);
}

proof fn lemma_ids_count_up(k: nat)
    requires
        k < u64::MAX - 100,
    ensures
        advanced(100, k) == 100 + k,
    decreases k,
{
    if k > 0 {
        lemma_ids_count_up((k - 1) as nat);
    }
}

/// A subprocess MCP server started on first use: its name, npm package, environment and
/// extra arguments.
pub struct LazyProxy {
    pub name: String,
    pub package: String,
    pub env_vars: Vec<(String, String)>,
    pub extra_args: Vec<String>,
}

impl LazyProxy {
    /// A proxy without extra arguments.
    pub fn new(name: &str, package: &str, env_vars: Vec<(String, String)>) -> (p: LazyProxy)
        ensures
            p.name@ == name@,
            p.package@ == package@,
            p.env_vars == env_vars,
            p.extra_args@.len() == 0,
    {
        LazyProxy { name: owned(name), package: owned(package), env_vars, extra_args: Vec::new() }
    }

    /// A proxy with extra command-line arguments.
    pub fn new_with_args(
        name: &str,
        package: &str,
        env_vars: Vec<(String, String)>,
        extra_args: Vec<String>,
    ) -> (p: LazyProxy)
        ensures
            p.name@ == name@,
            p.package@ == package@,
            p.env_vars == env_vars,
            p.extra_args == extra_args,
    {
        LazyProxy { name: owned(name), package: owned(package), env_vars, extra_args }
    }
}

/// A JSON-RPC request line: the members in key order, then a newline.
pub open spec fn request_text(id: u64, method: Seq<char>, params: Seq<char>) -> Seq<char> {
    "{\"id\":"@ + dec_nat(id as nat) + ",\"jsonrpc\":\"2.0\",\"method\":"@ + quoted(method)
        + ",\"params\":"@ + params + "}\n"@
}

/// The line sent for a request with the given id, method and parameters.
pub fn request_line(id: u64, method: &str, params: &Json) -> (r: String)
    ensures
        r@ == request_text(id, method@, json_text(*params)),
{
    let mut out = owned("{\"id\":");
    push_u64(&mut out, id);
    push_str(&mut out, ",\"jsonrpc\":\"2.0\",\"method\":");
    crate::json::push_quoted(&mut out, method);
    push_str(&mut out, ",\"params\":");
    crate::json::write_json(&mut out, params);
    push_str(&mut out, "}\n");
    out
}

/// The parameters of the `initialize` request.
pub open spec fn initialize_params_text() -> Seq<char> {
    "{\"capabilities\":{},\"clientInfo\":{\"name\":\"osmozzz\",\"version\":\"1.0.0\"},\"protocolVersion\":\"2024-11-05\"}"@
}

/// The `initialize` request line.
pub fn initialize_line(id: u64) -> (r: String)
    ensures
        r@ == request_text(id, "initialize"@, initialize_params_text()),
{
    let mut out = owned("{\"id\":");
    push_u64(&mut out, id);
    push_str(&mut out, ",\"jsonrpc\":\"2.0\",\"method\":");
    crate::json::push_quoted(&mut out, "initialize");
    push_str(&mut out, ",\"params\":");
    push_str(
        &mut out,
        "{\"capabilities\":{},\"clientInfo\":{\"name\":\"osmozzz\",\"version\":\"1.0.0\"},\"protocolVersion\":\"2024-11-05\"}",
    );
    push_str(&mut out, "}\n");
    out
}

/// The `notifications/initialized` line, sent without an id.
pub fn initialized_notification_line() -> (r: String)
    ensures
        r@ == "{\"jsonrpc\":\"2.0\",\"method\":\"notifications/initialized\",\"params\":{}}\n"@,
{
    owned("{\"jsonrpc\":\"2.0\",\"method\":\"notifications/initialized\",\"params\":{}}\n")
}

/// The `tools/list` request line.
pub fn tools_list_line(id: u64) -> (r: String)
    ensures
        r@ == request_text(id, "tools/list"@, "{}"@),
{
    let mut out = owned("{\"id\":");
    push_u64(&mut out, id);
    push_str(&mut out, ",\"jsonrpc\":\"2.0\",\"method\":");
    crate::json::push_quoted(&mut out, "tools/list");
    push_str(&mut out, ",\"params\":");
    push_str(&mut out, "{}");
    push_str(&mut out, "}\n");
    out
}

/// The `tools/call` request line for a tool and its arguments.
pub fn tools_call_line(id: u64, tool_name: &str, arguments: &Json) -> (r: String)
    ensures
        r@ == request_text(
            id,
            "tools/call"@,
            "{\"arguments\":"@ + json_text(*arguments) + ",\"name\":"@ + quoted(tool_name@) + "}"@,
        ),
{
    let mut out = owned("{\"id\":");
    push_u64(&mut out, id);
    push_str(&mut out, ",\"jsonrpc\":\"2.0\",\"method\":");
    crate::json::push_quoted(&mut out, "tools/call");
    push_str(&mut out, ",\"params\":");
    push_str(&mut out, "{\"arguments\":");
    crate::json::write_json(&mut out, arguments);
    push_str(&mut out, ",\"name\":");
    crate::json::push_quoted(&mut out, tool_name);
    push_str(&mut out, "}");
    push_str(&mut out, "}\n");
    out
}

/// Whether a message read from the subprocess answers the request `expected_id`.
pub fn is_response_to(v: &Json, expected_id: u64) -> (r: bool)
    ensures
        r == (v.at("id"@).u64_of() == Some(expected_id)),
{
    match crate::json::get_u64(v, "id") {
        Some(id) => id == expected_id,
        None => false,
    }
}

/// The tools listed in a `tools/list` response: `result.tools` when it is an array.
pub fn tools_of(resp: &Json) -> (r: Option<&Vec<Json>>)
    ensures
        r matches Some(t) ==> resp.at("result"@).at("tools"@).array_of() == Some(t@),
        r is None ==> resp.at("result"@).at("tools"@).array_of() is None,
{
    match resp.get("result") {
        Some(result) => crate::json::get_array(result, "tools"),
        None => None,
    }
}

/// The names of the tools that have one, in order.
pub open spec fn tool_names_spec(tools: Seq<Json>) -> Seq<Seq<char>>
    decreases tools.len(),
{
    if tools.len() == 0 {
        seq![]
    } else {
        match tools.last().at("name"@).str_of() {
            Some(n) => tool_names_spec(tools.drop_last()).push(n),
            None => tool_names_spec(tools.drop_last()),
        }
    }
}

/// The names of the tools a subprocess exposes (tools without a string name are skipped).
pub fn tool_names(tools: &Vec<Json>) -> (r: Vec<String>)
    ensures
        r@.map_values(|s: String| s@) == tool_names_spec(tools@),
{
    let mut out: Vec<String> = Vec::new();
    let n = tools.len();
    for i in 0..n
        invariant
            n == tools@.len(),
            out@.map_values(|s: String| s@) == tool_names_spec(tools@.take(i as int)),
    {
        assert(tools@.take(i + 1).drop_last() == tools@.take(i as int));
        assert(tools@.take(i + 1).last() == tools@[i as int]);
        match get_str(&tools[i], "name") {
            Some(name) => {
                let ghost before = out@;
                out.push(owned(name));
                assert(out@.map_values(|s: String| s@) == before.map_values(|s: String| s@).push(
                    name@,
                ));
            },
            None => {},
        }
    }
    assert(tools@.take(n as int) == tools@);
    out
}

/// The text a successful tool call returns: `result.content[0].text`, or `default` when the
/// response has none.
pub open spec fn call_text(resp: Json, default: Seq<char>) -> Seq<char> {
    match resp.at("result"@).at("content"@).array_of() {
        Some(items) => if items.len() > 0 {
            match items[0].at("text"@).str_of() {
                Some(t) => t,
                None => default,
            }
        } else {
            default
        },
        None => default,
    }
}

/// The outcome of a `tools/call` answered by `resp` from the subprocess `name`: its `error`
/// member as an error when present, else the returned text.
pub open spec fn call_outcome(name: Seq<char>, resp: Json) -> Result<Seq<char>, Seq<char>> {
    match resp.spec_get("error"@) {
        Some(err) => Err("Erreur "@ + name + " MCP: "@ + json_text(err)),
        None => Ok(call_text(resp, "Action exécutée."@)),
    }
}

/// Reads the outcome of a tool call from the subprocess `name` out of its response.
pub fn tool_call_outcome(name: &str, resp: &Json) -> (r: Result<String, String>)
    ensures
        r is Ok <==> call_outcome(name@, *resp) is Ok,
        r matches Ok(t) ==> call_outcome(name@, *resp) == Ok::<Seq<char>, Seq<char>>(t@),
        r matches Err(e) ==> call_outcome(name@, *resp) == Err::<Seq<char>, Seq<char>>(e@),
{
    if let Some(err) = resp.get("error") {
        let mut out = owned("Erreur ");
        push_str(&mut out, name);
        push_str(&mut out, " MCP: ");
        push_str(&mut out, to_json_string(err).as_str());
        return Err(out);
    }
    let text: &str = match resp.get("result") {
        Some(result) => match crate::json::get_array(result, "content") {
            Some(items) => {
                if items.len() > 0 {
                    match get_str(&items[0], "text") {
                        Some(t) => t,
                        None => "Action exécutée.",
                    }
                } else {
                    "Action exécutée."
                }
            },
            None => "Action exécutée.",
        },
        None => "Action exécutée.",
    };
    Ok(owned(text))
}

/// The error when the subprocess `name` gave no answer.
pub fn unavailable_error(name: &str) -> (r: String)
    ensures
        r@ == "Subprocess "@ + name@ + " indisponible"@,
{
    let mut out = owned("Subprocess ");
    push_str(&mut out, name);
    push_str(&mut out, " indisponible");
    out
}

/// The error when the subprocess `name` could not be started.
pub fn start_failed_error(name: &str) -> (r: String)
    ensures
        r@ == "Impossible de démarrer le subprocess "@ + name@,
{
    let mut out = owned("Impossible de démarrer le subprocess ");
    push_str(&mut out, name);
    out
}

/// The stages of starting a subprocess server.
#[derive(Clone, Copy, PartialEq, Eq, Structural)]
pub enum Startup {
    /// Nothing sent yet.
    Spawned,
    /// `initialize` sent, its answer awaited.
    Initializing,
    /// The `initialized` notification sent.
    Notified,
    /// `tools/list` sent, its answer awaited.
    Listing,
}

/// What starting a server does next.
pub enum StartupStep {
    /// Send `line`; when `awaits` holds an id, wait for the answer to that request. Then go on
    /// at stage `next`.
    Send { line: String, awaits: Option<u64>, next: Startup },
    /// The server is started; its tools are those of the answer to `tools/list`, none when it
    /// did not answer.
    Ready,
    /// The server did not answer `initialize`, or could not be notified: it is not started.
    Failed,
}

/// A step of the start-up, with its line as a character sequence.
pub enum StartupView {
    Send { line: Seq<char>, awaits: Option<u64>, next: Startup },
    Ready,
    Failed,
}

impl View for StartupStep {
    type V = StartupView;

    open spec fn view(&self) -> StartupView {
        match self {
            StartupStep::Send { line, awaits, next } => StartupView::Send {
                line: line@,
                awaits: *awaits,
                next: *next,
            },
            StartupStep::Ready => StartupView::Ready,
            StartupStep::Failed => StartupView::Failed,
        }
    }
}

/// The start-up of a server: `initialize` and its answer, the `initialized` notification,
/// then `tools/list` and its answer. `ok` tells whether the last line sent went through: its
/// request was answered, or, for the notification, it could be written. `id` is the id a
/// request sent now takes. The start fails without an answer to `initialize` or when the notification
/// cannot be written; once `tools/list` is sent the server is ready, answered or not.
pub open spec fn startup_view(stage: Startup, ok: bool, id: u64) -> StartupView {
    match stage {
        Startup::Spawned => StartupView::Send {
            line: request_text(id, "initialize"@, initialize_params_text()),
            awaits: Some(id),
            next: Startup::Initializing,
        },
        Startup::Initializing => if ok {
            StartupView::Send {
                line: "{\"jsonrpc\":\"2.0\",\"method\":\"notifications/initialized\",\"params\":{}}\n"@,
                awaits: None,
                next: Startup::Notified,
            }
        } else {
            StartupView::Failed
        },
        Startup::Notified => if ok {
            StartupView::Send {
                line: request_text(id, "tools/list"@, "{}"@),
                awaits: Some(id),
                next: Startup::Listing,
            }
        } else {
            StartupView::Failed
        },
        Startup::Listing => StartupView::Ready,
    }
}

/// Whether the step of `stage` sends a request (and so takes an id).
pub open spec fn sends_request(stage: Startup, ok: bool) -> bool {
    stage == Startup::Spawned || (stage == Startup::Notified && ok)
}

/// The next step of starting a server (see [`startup_view`]), its request, if it sends one,
/// taking the next id of `ids`.
pub fn startup_step(stage: Startup, ok: bool, ids: &mut RequestCounter) -> (s: StartupStep)
    ensures
        s@ == startup_view(stage, ok, old(ids).next),
        final(ids).next == if sends_request(stage, ok) {
            following(old(ids).next)
        } else {
            old(ids).next
        },
{
    match stage {
        Startup::Spawned => {
            let id = ids.next_id();
            StartupStep::Send { line: initialize_line(id), awaits: Some(id), next: Startup::Initializing }
        },
        Startup::Initializing => if ok {
            StartupStep::Send { line: initialized_notification_line(), awaits: None, next: Startup::Notified }
        } else {
            StartupStep::Failed
        },
        Startup::Notified => if ok {
            let id = ids.next_id();
            StartupStep::Send { line: tools_list_line(id), awaits: Some(id), next: Startup::Listing }
        } else {
            StartupStep::Failed
        },
        Startup::Listing => StartupStep::Ready,
    }
}

/// The start-up always ends: from any stage, at most three lines are sent before the server is
/// ready or its start has failed.
pub proof fn lemma_startup_ends(ok: bool, id: u64)
    ensures
        startup_view(Startup::Listing, ok, id) is Ready,
        startup_view(Startup::Notified, ok, id) matches StartupView::Send { next, .. } ==> next
            == Startup::Listing,
        startup_view(Startup::Initializing, ok, id) matches StartupView::Send { next, .. } ==> next
            == Startup::Notified,
        startup_view(Startup::Spawned, ok, id) matches StartupView::Send { next, .. } ==> next
            == Startup::Initializing,
{
}

} // verus!
