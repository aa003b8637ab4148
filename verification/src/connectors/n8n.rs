//! n8n connector (REST API v1).
use vstd::prelude::*;
use crate::connectors::catalog::{build_catalog, catalog_text, requires_properties, schema_view, texts, SchemaNames};
use crate::fmt::{array_len_or_zero, display_at, get_array_len_text, get_str_or, join_spec, join_strs, str_or, views};
use crate::http::{fail_view, ok_view, send, send_view, Method, RequestView, Step, StepView};
use crate::json::{
    get_array, get_bool, get_i64, get_str, json_text, members_text, members_to_text, members_view,
    pretty_text, push_quoted, quoted, render_fields, rendered_fields, set_member, set_member_exec,
    to_json_string, to_json_string_pretty, write_json, Json,
};
use crate::text::{
    dec_int, dec_nat, eq_ignore_ascii_case, eq_ignore_ascii_case_spec, i64_to_string, owned,
    push_char, push_chars, push_str, str_chars, str_eq, trim_end_char, trim_end_spec, trim_end_ws,
    trim_end_ws_spec, trim_start_char, trim_start_spec, u64_to_string,
};

verus! {

/// n8n instance and API key (`~/.osmozzz/n8n.toml`).
pub struct N8nConfig {
    pub api_url: String,
    pub api_key: String,
}

impl N8nConfig {
    /// The API URL of `path`: the instance URL without trailing slashes, `/api/v1/`, and
    /// `path` without leading slashes.
    pub fn api(&self, path: &str) -> (r: String)
        ensures
            r@ == api_url(self.api_url@, path@),
    {
        let mut out = String::new();
        push_chars(&mut out, &trim_end_char(&str_chars(self.api_url.as_str()), '/'));
        push_str(&mut out, "/api/v1/");
        push_chars(&mut out, &trim_start_char(&str_chars(path), '/'));
        assert(Seq::<char>::empty() + trim_end_spec(self.api_url@, '/') == trim_end_spec(
            self.api_url@,
            '/',
        ));
        out
    }
}

/// The API URL of `path` on the instance at `base`.
pub open spec fn api_url(base: Seq<char>, path: Seq<char>) -> Seq<char> {
    trim_end_spec(base, '/') + "/api/v1/"@ + trim_start_spec(path, '/')
}

/// How an id is shown: a non-empty string as itself; an empty string or an integer that fits
/// `i64` as its JSON text; anything else as `—`.
pub open spec fn id_text(id: Json) -> Seq<char> {
    match id.str_of() {
        Some(s) => if s.len() > 0 {
            s
        } else {
            json_text(id)
        },
        None => match id.i64_of() {
            Some(_) => json_text(id),
            None => "—"@,
        },
    }
}

/// The rendering of an id member (see [`id_text`]).
pub fn fmt_id(v: &Json, key: &str) -> (r: String)
    ensures
        r@ == id_text(v.at(key@)),
{
    match v.get(key) {
        Some(id) => match id.as_str() {
            Some(s) => {
                if s.is_empty() {
                    to_json_string(id)
                } else {
                    owned(s)
                }
            },
            None => match id.as_i64() {
                Some(_) => to_json_string(id),
                None => owned("—"),
            },
        },
        None => owned("—"),
    }
}

/// The names of the tags that have one, in order.
pub open spec fn tag_names(items: Seq<Json>) -> Seq<Seq<char>>
    decreases items.len(),
{
    if items.len() == 0 {
        seq![]
    } else {
        match items.last().at("name"@).str_of() {
            Some(n) => tag_names(items.drop_last()).push(n),
            None => tag_names(items.drop_last()),
        }
    }
}

/// The tags line: names joined by `, `, or `—` when there is none.
pub open spec fn tags_text(v: Json) -> Seq<char> {
    let names = match v.at("tags"@).array_of() {
        Some(items) => tag_names(items),
        None => seq![],
    };
    if names.len() == 0 {
        "—"@
    } else {
        join_spec(names, ", "@)
    }
}

/// Renders the tags of a workflow.
pub fn fmt_tags(v: &Json) -> (r: String)
    ensures
        r@ == tags_text(*v),
{
    let mut names: Vec<&str> = Vec::new();
    match crate::json::get_array(v, "tags") {
        Some(items) => {
            let n = items.len();
            for i in 0..n
                invariant
                    n == items@.len(),
                    views(names@) == tag_names(items@.take(i as int)),
            {
                assert(items@.take(i + 1).drop_last() == items@.take(i as int));
                assert(items@.take(i + 1).last() == items@[i as int]);
                match get_str(&items[i], "name") {
                    Some(name) => {
                        names.push(name);
                        assert(views(names@) == views(names@.drop_last()).push(name@));
                    },
                    None => {},
                }
            }
            assert(items@.take(n as int) == items@);
        },
        None => {},
    }
    if names.len() == 0 {
        owned("—")
    } else {
        join_strs(&names, ", ")
    }
}

/// The status word of a workflow.
pub open spec fn active_text(v: Json) -> Seq<char> {
    if v.at("active"@).bool_of() == Some(true) {
        "actif"@
    } else {
        "inactif"@
    }
}

fn fmt_active(v: &Json) -> (r: &'static str)
    ensures
        r@ == active_text(*v),
{
    match get_bool(v, "active") {
        Some(true) => "actif",
        _ => "inactif",
    }
}

/// One workflow as three lines of text.
pub open spec fn workflow_text(w: Json) -> Seq<char> {
    "• ["@ + id_text(w.at("id"@)) + "] "@ + str_or(w, "name"@, "—"@) + "\n  Statut : "@
        + active_text(w) + " | Modifié : "@ + str_or(w, "updatedAt"@, "—"@) + "\n  Tags   : "@
        + tags_text(w)
}

/// Formats a workflow.
pub fn format_workflow(w: &Json) -> (r: String)
    ensures
        r@ == workflow_text(*w),
{
    let mut out = owned("• [");
    push_str(&mut out, fmt_id(w, "id").as_str());
    push_str(&mut out, "] ");
    push_str(&mut out, get_str_or(w, "name", "—"));
    push_str(&mut out, "\n  Statut : ");
    push_str(&mut out, fmt_active(w));
    push_str(&mut out, " | Modifié : ");
    push_str(&mut out, get_str_or(w, "updatedAt", "—"));
    push_str(&mut out, "\n  Tags   : ");
    push_str(&mut out, fmt_tags(w).as_str());
    out
}

/// One credential as two lines of text.
pub open spec fn credential_text(c: Json) -> Seq<char> {
    "• ["@ + json_text(c.at("id"@)) + "] "@ + str_or(c, "name"@, "—"@) + "\n  Type : "@ + str_or(
        c,
        "type"@,
        "—"@,
    ) + " | Créé : "@ + str_or(c, "createdAt"@, "—"@)
}

/// Formats a credential (name and type only).
pub fn format_credential(c: &Json) -> (r: String)
    ensures
        r@ == credential_text(*c),
{
    let mut out = owned("• [");
    push_str(&mut out, display_at(c, "id").as_str());
    push_str(&mut out, "] ");
    push_str(&mut out, get_str_or(c, "name", "—"));
    push_str(&mut out, "\n  Type : ");
    push_str(&mut out, get_str_or(c, "type", "—"));
    push_str(&mut out, " | Créé : ");
    push_str(&mut out, get_str_or(c, "createdAt", "—"));
    out
}

/// One variable as a line of text.
pub open spec fn variable_text(v: Json) -> Seq<char> {
    "• ["@ + json_text(v.at("id"@)) + "] "@ + str_or(v, "key"@, "—"@) + " = "@ + str_or(
        v,
        "value"@,
        "—"@,
    )
}

/// Formats a variable.
pub fn format_variable(v: &Json) -> (r: String)
    ensures
        r@ == variable_text(*v),
{
    let mut out = owned("• [");
    push_str(&mut out, display_at(v, "id").as_str());
    push_str(&mut out, "] ");
    push_str(&mut out, get_str_or(v, "key", "—"));
    push_str(&mut out, " = ");
    push_str(&mut out, get_str_or(v, "value", "—"));
    out
}

/// One execution as three lines of text.
pub open spec fn execution_text(e: Json) -> Seq<char> {
    "• ["@ + id_text(e.at("id"@)) + "] workflow:"@ + str_or(e, "workflowId"@, "—"@)
        + "\n  Statut : "@ + str_or(e, "status"@, "—"@) + " | Mode : "@ + str_or(e, "mode"@, "—"@)
        + "\n  Début  : "@ + str_or(e, "startedAt"@, "—"@) + " | Fin : "@ + str_or(
        e,
        "stoppedAt"@,
        "—"@,
    )
}

/// Formats an execution.
pub fn format_execution(e: &Json) -> (r: String)
    ensures
        r@ == execution_text(*e),
{
    let mut out = owned("• [");
    push_str(&mut out, fmt_id(e, "id").as_str());
    push_str(&mut out, "] workflow:");
    push_str(&mut out, get_str_or(e, "workflowId", "—"));
    push_str(&mut out, "\n  Statut : ");
    push_str(&mut out, get_str_or(e, "status", "—"));
    push_str(&mut out, " | Mode : ");
    push_str(&mut out, get_str_or(e, "mode", "—"));
    push_str(&mut out, "\n  Début  : ");
    push_str(&mut out, get_str_or(e, "startedAt", "—"));
    push_str(&mut out, " | Fin : ");
    push_str(&mut out, get_str_or(e, "stoppedAt", "—"));
    out
}


// ─── Tool calls ──────────────────────────────────────────────────────────────

/// The lists the tools render, one item per line group.
#[derive(Clone, Copy)]
pub enum ListKind {
    Workflow,
    Execution,
    Tag,
    Credential,
    Variable,
}

/// One tag as a line of text.
pub open spec fn tag_text(t: Json) -> Seq<char> {
    "• ["@ + json_text(t.at("id"@)) + "] "@ + str_or(t, "name"@, "—"@)
}

fn format_tag(t: &Json) -> (r: String)
    ensures
        r@ == tag_text(*t),
{
    let mut out = owned("• [");
    push_str(&mut out, display_at(t, "id").as_str());
    push_str(&mut out, "] ");
    push_str(&mut out, get_str_or(t, "name", "—"));
    out
}

/// The text of one listed item.
pub open spec fn item_text(kind: ListKind, j: Json) -> Seq<char> {
    match kind {
        ListKind::Workflow => workflow_text(j),
        ListKind::Execution => execution_text(j),
        ListKind::Tag => tag_text(j),
        ListKind::Credential => credential_text(j),
        ListKind::Variable => variable_text(j),
    }
}

fn format_item(kind: ListKind, j: &Json) -> (r: String)
    ensures
        r@ == item_text(kind, *j),
{
    match kind {
        ListKind::Workflow => format_workflow(j),
        ListKind::Execution => format_execution(j),
        ListKind::Tag => format_tag(j),
        ListKind::Credential => format_credential(j),
        ListKind::Variable => format_variable(j),
    }
}

/// Each item's text followed by a line break.
pub open spec fn lines_text(kind: ListKind, items: Seq<Json>) -> Seq<char>
    decreases items.len(),
{
    if items.len() == 0 {
        seq![]
    } else {
        lines_text(kind, items.drop_last()) + item_text(kind, items.last()) + seq!['\n']
    }
}

/// The items of the `data` member of a list response (none when it is not an array).
pub open spec fn data_items(resp: Json) -> Seq<Json> {
    match resp.at("data"@).array_of() {
        Some(a) => a,
        None => seq![],
    }
}

/// A list response rendered: `empty` when there is no item, else the count, `header` and the
/// items, without trailing white space.
pub open spec fn list_text(kind: ListKind, header: Seq<char>, empty: Seq<char>, resp: Json) -> Seq<
    char,
> {
    let items = data_items(resp);
    if items.len() == 0 {
        empty
    } else {
        trim_end_ws_spec(dec_nat(items.len()) + header + lines_text(kind, items))
    }
}

fn list_reply(kind: ListKind, header: &str, empty: &str, resp: &Json) -> (r: String)
    ensures
        r@ == list_text(kind, header@, empty@, *resp),
{
    match get_array(resp, "data") {
        Some(items) => {
            let n = items.len();
            if n == 0 {
                return owned(empty);
            }
            let mut out = u64_to_string(n as u64);
            push_str(&mut out, header);
            for i in 0..n
                invariant
                    n == items@.len(),
                    out@ == dec_nat(n as nat) + header@ + lines_text(kind, items@.take(i as int)),
            {
                assert(items@.take(i + 1).drop_last() == items@.take(i as int));
                assert(items@.take(i + 1).last() == items@[i as int]);
                let line = format_item(kind, &items[i]);
                push_str(&mut out, line.as_str());
                push_char(&mut out, '\n');
            }
            assert(items@.take(n as int) == items@);
            trim_end_ws(out.as_str())
        },
        None => owned(empty),
    }
}

/// The message an n8n response carries when the call failed.
pub open spec fn api_error(resp: Json) -> Option<Seq<char>> {
    resp.at("message"@).str_of()
}

/// The outcome of a call answered by `resp`: its message as the error, else `text`.
pub open spec fn reply_view(resp: Json, text: Seq<char>) -> StepView {
    match api_error(resp) {
        Some(m) => fail_view(m),
        None => ok_view(text),
    }
}

fn reply(resp: &Json, text: String) -> (s: Step)
    ensures
        s@ == reply_view(*resp, text@),
{
    match get_str(resp, "message") {
        Some(m) => Step::Done(Err(owned(m))),
        None => Step::Done(Ok(text)),
    }
}

/// A tool that makes one request: the request, then the outcome of its response.
pub open spec fn one_call(req: StepView, rs: Seq<Json>, text: spec_fn(Json) -> Seq<char>) -> StepView {
    if rs.len() == 0 {
        req
    } else {
        reply_view(rs[0], text(rs[0]))
    }
}

/// An authenticated `GET` without a body.
pub open spec fn get_view(url: Seq<char>) -> StepView {
    send_view(Method::Get, url, None)
}

/// The error for a missing or non-string argument.
pub open spec fn required_text(key: Seq<char>) -> Seq<char> {
    "Paramètre '"@ + key + "' requis"@
}

fn required(key: &str) -> (s: Step)
    ensures
        s@ == fail_view(required_text(key@)),
{
    let mut e = owned("Paramètre '");
    push_str(&mut e, key);
    push_str(&mut e, "' requis");
    Step::Done(Err(e))
}

fn concat(a: &str, b: &str) -> (r: String)
    ensures
        r@ == a@ + b@,
{
    let mut r = owned(a);
    push_str(&mut r, b);
    r
}

fn concat3(a: &str, b: &str, c: &str) -> (r: String)
    ensures
        r@ == a@ + b@ + c@,
{
    let mut r = owned(a);
    push_str(&mut r, b);
    push_str(&mut r, c);
    r
}

/// A tool that lists the items at `path`.
pub open spec fn list_view(
    base: Seq<char>,
    rs: Seq<Json>,
    path: Seq<char>,
    kind: ListKind,
    header: Seq<char>,
    empty: Seq<char>,
) -> StepView {
    one_call(get_view(api_url(base, path)), rs, |r: Json| list_text(kind, header, empty, r))
}

fn list_tool(
    cfg: &N8nConfig,
    rs: &Vec<Json>,
    path: &str,
    kind: ListKind,
    header: &str,
    empty: &str,
) -> (s: Step)
    ensures
        s@ == list_view(cfg.api_url@, rs@, path@, kind, header@, empty@),
{
    if rs.len() == 0 {
        send(Method::Get, cfg.api(path), None)
    } else {
        reply(&rs[0], list_reply(kind, header, empty, &rs[0]))
    }
}

/// A tool that deletes the object `path_prefix` + id.
pub open spec fn delete_view(
    base: Seq<char>,
    args: Json,
    rs: Seq<Json>,
    path_prefix: Seq<char>,
    subject: Seq<char>,
    tail: Seq<char>,
) -> StepView {
    match args.at("id"@).str_of() {
        None => fail_view(required_text("id"@)),
        Some(id) => one_call(
            send_view(Method::Delete, api_url(base, path_prefix + id), None),
            rs,
            |r: Json| subject + id + tail,
        ),
    }
}

fn delete_tool(
    cfg: &N8nConfig,
    args: &Json,
    rs: &Vec<Json>,
    path_prefix: &str,
    subject: &str,
    tail: &str,
) -> (s: Step)
    ensures
        s@ == delete_view(cfg.api_url@, *args, rs@, path_prefix@, subject@, tail@),
{
    match get_str(args, "id") {
        None => required("id"),
        Some(id) => {
            if rs.len() == 0 {
                send(Method::Delete, cfg.api(concat(path_prefix, id).as_str()), None)
            } else {
                reply(&rs[0], concat3(subject, id, tail))
            }
        },
    }
}


/// `n8n_get_workflow`: the summary of one workflow.
pub open spec fn workflow_detail_text(id: Seq<char>, r: Json) -> Seq<char> {
    "Workflow ["@ + id + "] "@ + str_or(r, "name"@, "—"@) + "\nStatut  : "@ + active_text(r)
        + "\nNœuds   : "@ + dec_nat(array_len_or_zero(r, "nodes"@)) + "\nTags    : "@ + tags_text(r)
        + "\nCréé    : "@ + str_or(r, "createdAt"@, "—"@) + "\nModifié : "@ + str_or(
        r,
        "updatedAt"@,
        "—"@,
    )
}

pub open spec fn get_workflow_view(base: Seq<char>, args: Json, rs: Seq<Json>) -> StepView {
    match args.at("id"@).str_of() {
        None => fail_view(required_text("id"@)),
        Some(id) => one_call(
            get_view(api_url(base, "/workflows/"@ + id)),
            rs,
            |r: Json| workflow_detail_text(id, r),
        ),
    }
}

fn get_workflow(cfg: &N8nConfig, args: &Json, rs: &Vec<Json>) -> (s: Step)
    ensures
        s@ == get_workflow_view(cfg.api_url@, *args, rs@),
{
    match get_str(args, "id") {
        None => required("id"),
        Some(id) => {
            if rs.len() == 0 {
                return send(Method::Get, cfg.api(concat("/workflows/", id).as_str()), None);
            }
            let r = &rs[0];
            let mut out = owned("Workflow [");
            push_str(&mut out, id);
            push_str(&mut out, "] ");
            push_str(&mut out, get_str_or(r, "name", "—"));
            push_str(&mut out, "\nStatut  : ");
            push_str(&mut out, fmt_active(r));
            push_str(&mut out, "\nNœuds   : ");
            push_str(&mut out, get_array_len_text(r, "nodes").as_str());
            push_str(&mut out, "\nTags    : ");
            push_str(&mut out, fmt_tags(r).as_str());
            push_str(&mut out, "\nCréé    : ");
            push_str(&mut out, get_str_or(r, "createdAt", "—"));
            push_str(&mut out, "\nModifié : ");
            push_str(&mut out, get_str_or(r, "updatedAt", "—"));
            reply(r, out)
        },
    }
}

/// The JSON body that sets `active`.
pub open spec fn active_body(active: bool) -> Seq<char> {
    "{\"active\":"@ + json_text(Json::Bool(active)) + "}"@
}

/// `n8n_activate_workflow` and `n8n_deactivate_workflow`.
pub open spec fn set_active_view(base: Seq<char>, args: Json, rs: Seq<Json>, active: bool) -> StepView {
    match args.at("id"@).str_of() {
        None => fail_view(required_text("id"@)),
        Some(id) => one_call(
            send_view(Method::Patch, api_url(base, "/workflows/"@ + id), Some(active_body(active))),
            rs,
            |r: Json|
                "Workflow '"@ + str_or(r, "name"@, id) + "' ("@ + id + if active {
                    ") activé avec succès."@
                } else {
                    ") désactivé avec succès."@
                },
        ),
    }
}

fn set_active(cfg: &N8nConfig, args: &Json, rs: &Vec<Json>, active: bool) -> (s: Step)
    ensures
        s@ == set_active_view(cfg.api_url@, *args, rs@, active),
{
    match get_str(args, "id") {
        None => required("id"),
        Some(id) => {
            if rs.len() == 0 {
                let body = concat3("{\"active\":", to_json_string(&Json::Bool(active)).as_str(), "}");
                return send(Method::Patch, cfg.api(concat("/workflows/", id).as_str()), Some(body));
            }
            let r = &rs[0];
            let mut out = owned("Workflow '");
            push_str(&mut out, get_str_or(r, "name", id));
            push_str(&mut out, "' (");
            push_str(&mut out, id);
            if active {
                push_str(&mut out, ") activé avec succès.");
            } else {
                push_str(&mut out, ") désactivé avec succès.");
            }
            reply(r, out)
        },
    }
}

/// The execution id a run response gives: a string as itself, an integer in decimal, else `—`.
pub open spec fn execution_id_text(r: Json) -> Seq<char> {
    match r.at("executionId"@).str_of() {
        Some(s) => s,
        None => match r.at("executionId"@).i64_of() {
            Some(n) => dec_int(n as int),
            None => "—"@,
        },
    }
}

/// `n8n_execute_workflow`.
pub open spec fn execute_view(base: Seq<char>, args: Json, rs: Seq<Json>) -> StepView {
    match args.at("id"@).str_of() {
        None => fail_view(required_text("id"@)),
        Some(id) => one_call(
            send_view(Method::Post, api_url(base, "/workflows/"@ + id + "/run"@), Some("{}"@)),
            rs,
            |r: Json|
                "Workflow "@ + id + " déclenché. Exécution ID : "@ + execution_id_text(r)
                    + "\nUtiliser n8n_get_execution avec cet ID pour suivre l'avancement."@,
        ),
    }
}

fn execute(cfg: &N8nConfig, args: &Json, rs: &Vec<Json>) -> (s: Step)
    ensures
        s@ == execute_view(cfg.api_url@, *args, rs@),
{
    match get_str(args, "id") {
        None => required("id"),
        Some(id) => {
            if rs.len() == 0 {
                return send(
                    Method::Post,
                    cfg.api(concat3("/workflows/", id, "/run").as_str()),
                    Some(owned("{}")),
                );
            }
            let r = &rs[0];
            let exec_id = match get_str(r, "executionId") {
                Some(x) => owned(x),
                None => match get_i64(r, "executionId") {
                    Some(n) => i64_to_string(n),
                    None => owned("—"),
                },
            };
            let mut out = owned("Workflow ");
            push_str(&mut out, id);
            push_str(&mut out, " déclenché. Exécution ID : ");
            push_str(&mut out, exec_id.as_str());
            push_str(&mut out, "\nUtiliser n8n_get_execution avec cet ID pour suivre l'avancement.");
            reply(r, out)
        },
    }
}

/// `n8n_list_executions` and `n8n_get_workflow_runs`: the executions of a workflow, filtered by
/// `query`.
pub open spec fn executions_view(
    base: Seq<char>,
    args: Json,
    rs: Seq<Json>,
    query: Seq<char>,
    header: Seq<char>,
    empty: Seq<char>,
    empty_end: Seq<char>,
) -> StepView {
    match args.at("workflow_id"@).str_of() {
        None => fail_view(required_text("workflow_id"@)),
        Some(w) => one_call(
            get_view(api_url(base, "/executions?workflowId="@ + w + query)),
            rs,
            |r: Json|
                list_text(ListKind::Execution, header + w + " :\n\n"@, empty + w + empty_end, r),
        ),
    }
}

fn executions(
    cfg: &N8nConfig,
    args: &Json,
    rs: &Vec<Json>,
    query: &str,
    header: &str,
    empty: &str,
    empty_end: &str,
) -> (s: Step)
    ensures
        s@ == executions_view(cfg.api_url@, *args, rs@, query@, header@, empty@, empty_end@),
{
    match get_str(args, "workflow_id") {
        None => required("workflow_id"),
        Some(w) => {
            if rs.len() == 0 {
                return send(
                    Method::Get,
                    cfg.api(concat3("/executions?workflowId=", w, query).as_str()),
                    None,
                );
            }
            let h = concat3(header, w, " :\n\n");
            let e = concat3(empty, w, empty_end);
            reply(&rs[0], list_reply(ListKind::Execution, h.as_str(), e.as_str(), &rs[0]))
        },
    }
}

/// The error object of an execution, when its data holds one.
pub open spec fn execution_error(r: Json) -> Json {
    r.at("data"@).at("resultData"@).at("error"@)
}

/// `n8n_get_execution`: the summary of one execution, with its error when it has one.
pub open spec fn execution_detail_text(id: Seq<char>, r: Json) -> Seq<char> {
    let head = "Exécution ["@ + id + "]\nWorkflow  : "@ + str_or(r, "workflowId"@, "—"@)
        + "\nStatut    : "@ + str_or(r, "status"@, "—"@) + "\nMode      : "@ + str_or(
        r,
        "mode"@,
        "—"@,
    ) + "\nDébut     : "@ + str_or(r, "startedAt"@, "—"@) + "\nFin       : "@ + str_or(
        r,
        "stoppedAt"@,
        "—"@,
    ) + "\n"@;
    let err = execution_error(r);
    trim_end_ws_spec(
        if err is Object {
            head + "\nErreur sur nœud '"@ + str_or(err, "node"@, "—"@) + "' : "@ + str_or(
                err,
                "message"@,
                "—"@,
            ) + "\n"@
        } else {
            head
        },
    )
}

pub open spec fn get_execution_view(base: Seq<char>, args: Json, rs: Seq<Json>) -> StepView {
    match args.at("id"@).str_of() {
        None => fail_view(required_text("id"@)),
        Some(id) => one_call(
            get_view(api_url(base, "/executions/"@ + id)),
            rs,
            |r: Json| execution_detail_text(id, r),
        ),
    }
}

fn error_object(r: &Json) -> (e: Option<&Json>)
    ensures
        e matches Some(x) ==> execution_error(*r) == *x && x is Object,
        e is None ==> !(execution_error(*r) is Object),
{
    match r.get("data") {
        Some(d) => match d.get("resultData") {
            Some(rd) => match rd.get("error") {
                Some(x) => if x.is_object() {
                    Some(x)
                } else {
                    None
                },
                None => None,
            },
            None => None,
        },
        None => None,
    }
}

fn get_execution(cfg: &N8nConfig, args: &Json, rs: &Vec<Json>) -> (s: Step)
    ensures
        s@ == get_execution_view(cfg.api_url@, *args, rs@),
{
    match get_str(args, "id") {
        None => required("id"),
        Some(id) => {
            if rs.len() == 0 {
                return send(Method::Get, cfg.api(concat("/executions/", id).as_str()), None);
            }
            let r = &rs[0];
            let mut out = owned("Exécution [");
            push_str(&mut out, id);
            push_str(&mut out, "]\nWorkflow  : ");
            push_str(&mut out, get_str_or(r, "workflowId", "—"));
            push_str(&mut out, "\nStatut    : ");
            push_str(&mut out, get_str_or(r, "status", "—"));
            push_str(&mut out, "\nMode      : ");
            push_str(&mut out, get_str_or(r, "mode", "—"));
            push_str(&mut out, "\nDébut     : ");
            push_str(&mut out, get_str_or(r, "startedAt", "—"));
            push_str(&mut out, "\nFin       : ");
            push_str(&mut out, get_str_or(r, "stoppedAt", "—"));
            push_str(&mut out, "\n");
            match error_object(r) {
                Some(err) => {
                    push_str(&mut out, "\nErreur sur nœud '");
                    push_str(&mut out, get_str_or(err, "node", "—"));
                    push_str(&mut out, "' : ");
                    push_str(&mut out, get_str_or(err, "message", "—"));
                    push_str(&mut out, "\n");
                },
                None => {},
            }
            reply(r, trim_end_ws(out.as_str()))
        },
    }
}

/// `n8n_stop_execution`.
pub open spec fn stop_execution_view(base: Seq<char>, args: Json, rs: Seq<Json>) -> StepView {
    match args.at("id"@).str_of() {
        None => fail_view(required_text("id"@)),
        Some(id) => one_call(
            send_view(Method::Post, api_url(base, "/executions/"@ + id + "/stop"@), Some("{}"@)),
            rs,
            |r: Json| "Exécution "@ + id + " arrêtée."@,
        ),
    }
}

fn stop_execution(cfg: &N8nConfig, args: &Json, rs: &Vec<Json>) -> (s: Step)
    ensures
        s@ == stop_execution_view(cfg.api_url@, *args, rs@),
{
    match get_str(args, "id") {
        None => required("id"),
        Some(id) => {
            if rs.len() == 0 {
                return send(
                    Method::Post,
                    cfg.api(concat3("/executions/", id, "/stop").as_str()),
                    Some(owned("{}")),
                );
            }
            reply(&rs[0], concat3("Exécution ", id, " arrêtée."))
        },
    }
}


/// The method a webhook call uses: `GET` when asked for (in any case), else `POST`.
pub open spec fn webhook_is_get(method: Seq<char>) -> bool {
    eq_ignore_ascii_case_spec(method, "GET"@)
}

/// The method argument of `n8n_trigger_webhook`, `POST` by default.
pub open spec fn webhook_method(args: Json) -> Seq<char> {
    match args.at("method"@).str_of() {
        Some(m) => m,
        None => "POST"@,
    }
}

/// The body of a webhook `POST`: the `body` argument when it is an object, else `{}`.
pub open spec fn webhook_body(args: Json) -> Seq<char> {
    if args.at("body"@) is Object {
        json_text(args.at("body"@))
    } else {
        "{}"@
    }
}

/// `n8n_trigger_webhook`: a call of the webhook URL itself, without the API key, where a
/// response that is not JSON counts as `{"status":"triggered"}`.
pub open spec fn webhook_view(args: Json, rs: Seq<Json>) -> StepView {
    match args.at("webhook_url"@).str_of() {
        None => fail_view(required_text("webhook_url"@)),
        Some(url) => {
            let method = webhook_method(args);
            let req = if webhook_is_get(method) {
                StepView::Send(
                    RequestView {
                        method: Method::Get,
                        url,
                        body: None,
                        form: false,
                        authenticated: false,
                        lenient: true,
                        status_only: false,
                        best_effort: false,
                        no_content: false,
                        raw_text: false,
                        bearer: None,
                    },
                )
            } else {
                StepView::Send(
                    RequestView {
                        method: Method::Post,
                        url,
                        body: Some(webhook_body(args)),
                        form: false,
                        authenticated: false,
                        lenient: true,
                        status_only: false,
                        best_effort: false,
                        no_content: false,
                        raw_text: false,
                        bearer: None,
                    },
                )
            };
            one_call(
                req,
                rs,
                |r: Json|
                    "Webhook déclenché ("@ + method + " "@ + url + ")\nRéponse : "@ + pretty_text(r, 0),
            )
        },
    }
}

fn trigger_webhook(args: &Json, rs: &Vec<Json>) -> (s: Step)
    ensures
        s@ == webhook_view(*args, rs@),
{
    match get_str(args, "webhook_url") {
        None => required("webhook_url"),
        Some(url) => {
            let method = get_str_or(args, "method", "POST");
            if rs.len() == 0 {
                if eq_ignore_ascii_case(method, "GET") {
                    return Step::Send(
                        crate::http::HttpRequest {
                            method: Method::Get,
                            url: owned(url),
                            body: None,
                            form: false,
                            authenticated: false,
                            lenient: true,
                            status_only: false,
                            best_effort: false,
                            no_content: false,
                            raw_text: false,
                            bearer: None,
                        },
                    );
                } else {
                    let body = match args.get("body") {
                        Some(b) => if b.is_object() {
                            to_json_string(b)
                        } else {
                            owned("{}")
                        },
                        None => owned("{}"),
                    };
                    return Step::Send(
                        crate::http::HttpRequest {
                            method: Method::Post,
                            url: owned(url),
                            body: Some(body),
                            form: false,
                            authenticated: false,
                            lenient: true,
                            status_only: false,
                            best_effort: false,
                            no_content: false,
                            raw_text: false,
                            bearer: None,
                        },
                    );
                }
            }
            let r = &rs[0];
            let mut out = owned("Webhook déclenché (");
            push_str(&mut out, method);
            push_str(&mut out, " ");
            push_str(&mut out, url);
            push_str(&mut out, ")\nRéponse : ");
            push_str(&mut out, to_json_string_pretty(r).as_str());
            reply(r, out)
        },
    }
}

/// The JSON text of the `nodes` argument when it is an array, else `[]`.
pub open spec fn nodes_text(args: Json) -> Seq<char> {
    match args.at("nodes"@).array_of() {
        Some(_) => json_text(args.at("nodes"@)),
        None => "[]"@,
    }
}

/// The `active` argument, `false` by default.
pub open spec fn active_arg(args: Json) -> bool {
    match args.at("active"@).bool_of() {
        Some(b) => b,
        None => false,
    }
}

/// The body of `n8n_create_workflow`, members in name order.
pub open spec fn create_workflow_body(args: Json, name: Seq<char>) -> Seq<char> {
    "{\"active\":"@ + json_text(Json::Bool(active_arg(args))) + ",\"connections\":{},\"name\":"@
        + quoted(name) + ",\"nodes\":"@ + nodes_text(args) + ",\"settings\":{}}"@
}

/// `n8n_create_workflow`.
pub open spec fn create_workflow_view(base: Seq<char>, args: Json, rs: Seq<Json>) -> StepView {
    match args.at("name"@).str_of() {
        None => fail_view(required_text("name"@)),
        Some(name) => one_call(
            send_view(Method::Post, api_url(base, "/workflows"@), Some(create_workflow_body(args, name))),
            rs,
            |r: Json|
                "Workflow '"@ + str_or(r, "name"@, name) + "' créé avec succès. ID : "@ + json_text(
                    r.at("id"@),
                ),
        ),
    }
}

fn push_nodes(out: &mut String, args: &Json)
    ensures
        final(out)@ == old(out)@ + nodes_text(*args),
{
    match args.get("nodes") {
        Some(nodes) => match nodes.as_array() {
            Some(_) => write_json(out, nodes),
            None => push_str(out, "[]"),
        },
        None => push_str(out, "[]"),
    }
}

fn create_workflow(cfg: &N8nConfig, args: &Json, rs: &Vec<Json>) -> (s: Step)
    ensures
        s@ == create_workflow_view(cfg.api_url@, *args, rs@),
{
    match get_str(args, "name") {
        None => required("name"),
        Some(name) => {
            if rs.len() == 0 {
                let active = match get_bool(args, "active") {
                    Some(b) => b,
                    None => false,
                };
                let mut body = owned("{\"active\":");
                push_str(&mut body, to_json_string(&Json::Bool(active)).as_str());
                push_str(&mut body, ",\"connections\":{},\"name\":");
                push_quoted(&mut body, name);
                push_str(&mut body, ",\"nodes\":");
                push_nodes(&mut body, args);
                push_str(&mut body, ",\"settings\":{}}");
                return send(Method::Post, cfg.api("/workflows"), Some(body));
            }
            let r = &rs[0];
            let mut out = owned("Workflow '");
            push_str(&mut out, get_str_or(r, "name", name));
            push_str(&mut out, "' créé avec succès. ID : ");
            push_str(&mut out, display_at(r, "id").as_str());
            reply(r, out)
        },
    }
}

/// Whether `n8n_update_workflow` was given anything to change.
pub open spec fn has_update(args: Json) -> bool {
    ||| args.at("name"@).str_of() is Some
    ||| args.at("nodes"@).array_of() is Some
    ||| args.at("active"@).bool_of() is Some
}

/// The members of the workflow that the changes start from: those of an object, none for
/// `null`.
pub open spec fn base_members(existing: Json) -> Seq<(Seq<char>, Seq<char>)> {
    match existing {
        Json::Object(fields) => rendered_fields(fields@),
        _ => seq![],
    }
}

/// The members with the requested changes applied: name, then nodes, then active.
pub open spec fn updated_members(existing: Json, args: Json) -> Seq<(Seq<char>, Seq<char>)> {
    let m0 = base_members(existing);
    let m1 = match args.at("name"@).str_of() {
        Some(n) => set_member(m0, "name"@, quoted(n)),
        None => m0,
    };
    let m2 = match args.at("nodes"@).array_of() {
        Some(_) => set_member(m1, "nodes"@, json_text(args.at("nodes"@))),
        None => m1,
    };
    match args.at("active"@).bool_of() {
        Some(b) => set_member(m2, "active"@, json_text(Json::Bool(b))),
        None => m2,
    }
}

/// The body sent back by `n8n_update_workflow`: the fetched workflow with the changes.
pub open spec fn merged_body(existing: Json, args: Json) -> Seq<char> {
    if has_update(args) {
        seq!['{'] + members_text(updated_members(existing, args)) + seq!['}']
    } else {
        json_text(existing)
    }
}

/// Changes can be applied to the fetched workflow: it is an object or `null`, or there is
/// nothing to change.
pub open spec fn mergeable(existing: Json, args: Json) -> bool {
    has_update(args) ==> (existing is Object || existing is Null)
}

/// `n8n_update_workflow`: fetch the workflow, then send it back with the changes.
pub open spec fn update_workflow_view(base: Seq<char>, args: Json, rs: Seq<Json>) -> StepView {
    match args.at("id"@).str_of() {
        None => fail_view(required_text("id"@)),
        Some(id) => {
            let url = api_url(base, "/workflows/"@ + id);
            if rs.len() == 0 {
                get_view(url)
            } else {
                match api_error(rs[0]) {
                    Some(m) => fail_view(m),
                    None => one_call(
                        send_view(Method::Put, url, Some(merged_body(rs[0], args))),
                        rs.drop_first(),
                        |r: Json|
                            "Workflow '"@ + str_or(r, "name"@, id) + "' ("@ + id
                                + ") mis à jour avec succès."@,
                    ),
                }
            }
        },
    }
}

fn merged(existing: &Json, args: &Json) -> (t: String)
    requires
        mergeable(*existing, *args),
    ensures
        t@ == merged_body(*existing, *args),
{
    let name = get_str(args, "name");
    let nodes = match args.get("nodes") {
        Some(n) => match n.as_array() {
            Some(_) => Some(n),
            None => None,
        },
        None => None,
    };
    let active = get_bool(args, "active");
    if name.is_none() && nodes.is_none() && active.is_none() {
        return to_json_string(existing);
    }
    let mut ms: Vec<(String, String)> = match existing {
        Json::Object(fields) => render_fields(fields),
        _ => Vec::new(),
    };
    let ghost m0 = members_view(ms@);
    assert(m0 == base_members(*existing));
    let ghost m1 = match args.at("name"@).str_of() {
        Some(n) => set_member(m0, "name"@, quoted(n)),
        None => m0,
    };
    let ghost m2 = match args.at("nodes"@).array_of() {
        Some(_) => set_member(m1, "nodes"@, json_text(args.at("nodes"@))),
        None => m1,
    };
    match name {
        Some(n) => {
            let mut q = String::new();
            push_quoted(&mut q, n);
            assert(q@ == quoted(n@));
            ms = set_member_exec(&ms, "name", q);
        },
        None => {},
    }
    assert(members_view(ms@) == m1);
    match nodes {
        Some(n) => {
            ms = set_member_exec(&ms, "nodes", to_json_string(n));
        },
        None => {},
    }
    assert(members_view(ms@) == m2);
    match active {
        Some(b) => {
            ms = set_member_exec(&ms, "active", to_json_string(&Json::Bool(b)));
        },
        None => {},
    }
    assert(members_view(ms@) == updated_members(*existing, *args));
    members_to_text(&ms)
}

fn update_workflow(cfg: &N8nConfig, args: &Json, rs: &Vec<Json>) -> (s: Step)
    requires
        args.at("id"@).str_of() is Some && rs@.len() >= 1 ==> mergeable(rs@[0], *args),
    ensures
        s@ == update_workflow_view(cfg.api_url@, *args, rs@),
{
    match get_str(args, "id") {
        None => required("id"),
        Some(id) => {
            let url = cfg.api(concat("/workflows/", id).as_str());
            if rs.len() == 0 {
                return send(Method::Get, url, None);
            }
            match get_str(&rs[0], "message") {
                Some(m) => Step::Done(Err(owned(m))),
                None => {
                    if rs.len() == 1 {
                        return send(Method::Put, url, Some(merged(&rs[0], args)));
                    }
                    let r = &rs[1];
                    let mut out = owned("Workflow '");
                    push_str(&mut out, get_str_or(r, "name", id));
                    push_str(&mut out, "' (");
                    push_str(&mut out, id);
                    push_str(&mut out, ") mis à jour avec succès.");
                    reply(r, out)
                },
            }
        },
    }
}


/// `n8n_create_credential`: name, type and an object of data.
pub open spec fn create_credential_view(base: Seq<char>, args: Json, rs: Seq<Json>) -> StepView {
    match args.at("name"@).str_of() {
        None => fail_view(required_text("name"@)),
        Some(name) => match args.at("type"@).str_of() {
            None => fail_view(required_text("type"@)),
            Some(t) => if !(args.at("data"@) is Object) {
                fail_view("Paramètre 'data' requis (objet JSON)"@)
            } else {
                one_call(
                    send_view(
                        Method::Post,
                        api_url(base, "/credentials"@),
                        Some(
                            "{\"data\":"@ + json_text(args.at("data"@)) + ",\"name\":"@ + quoted(name)
                                + ",\"type\":"@ + quoted(t) + "}"@,
                        ),
                    ),
                    rs,
                    |r: Json|
                        "Credential '"@ + name + "' (type: "@ + t + ") créé avec succès. ID : "@
                            + json_text(r.at("id"@)),
                )
            },
        },
    }
}

fn create_credential(cfg: &N8nConfig, args: &Json, rs: &Vec<Json>) -> (s: Step)
    ensures
        s@ == create_credential_view(cfg.api_url@, *args, rs@),
{
    let name = match get_str(args, "name") {
        None => return required("name"),
        Some(n) => n,
    };
    let t = match get_str(args, "type") {
        None => return required("type"),
        Some(t) => t,
    };
    let data = match args.get("data") {
        Some(d) => if d.is_object() {
            d
        } else {
            return Step::Done(Err(owned("Paramètre 'data' requis (objet JSON)")));
        },
        None => return Step::Done(Err(owned("Paramètre 'data' requis (objet JSON)"))),
    };
    if rs.len() == 0 {
        let mut body = owned("{\"data\":");
        write_json(&mut body, data);
        push_str(&mut body, ",\"name\":");
        push_quoted(&mut body, name);
        push_str(&mut body, ",\"type\":");
        push_quoted(&mut body, t);
        push_str(&mut body, "}");
        return send(Method::Post, cfg.api("/credentials"), Some(body));
    }
    let r = &rs[0];
    let mut out = owned("Credential '");
    push_str(&mut out, name);
    push_str(&mut out, "' (type: ");
    push_str(&mut out, t);
    push_str(&mut out, ") créé avec succès. ID : ");
    push_str(&mut out, display_at(r, "id").as_str());
    reply(r, out)
}

/// `n8n_create_variable`: a key and a value.
pub open spec fn create_variable_view(base: Seq<char>, args: Json, rs: Seq<Json>) -> StepView {
    match args.at("key"@).str_of() {
        None => fail_view(required_text("key"@)),
        Some(k) => match args.at("value"@).str_of() {
            None => fail_view(required_text("value"@)),
            Some(v) => one_call(
                send_view(
                    Method::Post,
                    api_url(base, "/variables"@),
                    Some("{\"key\":"@ + quoted(k) + ",\"value\":"@ + quoted(v) + "}"@),
                ),
                rs,
                |r: Json| "Variable '"@ + k + "' créée avec succès. ID : "@ + json_text(r.at("id"@)),
            ),
        },
    }
}

fn create_variable(cfg: &N8nConfig, args: &Json, rs: &Vec<Json>) -> (s: Step)
    ensures
        s@ == create_variable_view(cfg.api_url@, *args, rs@),
{
    let k = match get_str(args, "key") {
        None => return required("key"),
        Some(k) => k,
    };
    let v = match get_str(args, "value") {
        None => return required("value"),
        Some(v) => v,
    };
    if rs.len() == 0 {
        let mut body = owned("{\"key\":");
        push_quoted(&mut body, k);
        push_str(&mut body, ",\"value\":");
        push_quoted(&mut body, v);
        push_str(&mut body, "}");
        return send(Method::Post, cfg.api("/variables"), Some(body));
    }
    let r = &rs[0];
    let mut out = owned("Variable '");
    push_str(&mut out, k);
    push_str(&mut out, "' créée avec succès. ID : ");
    push_str(&mut out, display_at(r, "id").as_str());
    reply(r, out)
}

/// `n8n_create_tag`.
pub open spec fn create_tag_view(base: Seq<char>, args: Json, rs: Seq<Json>) -> StepView {
    match args.at("name"@).str_of() {
        None => fail_view(required_text("name"@)),
        Some(n) => one_call(
            send_view(Method::Post, api_url(base, "/tags"@), Some("{\"name\":"@ + quoted(n) + "}"@)),
            rs,
            |r: Json| "Tag '"@ + n + "' créé avec succès. ID : "@ + json_text(r.at("id"@)),
        ),
    }
}

fn create_tag(cfg: &N8nConfig, args: &Json, rs: &Vec<Json>) -> (s: Step)
    ensures
        s@ == create_tag_view(cfg.api_url@, *args, rs@),
{
    let n = match get_str(args, "name") {
        None => return required("name"),
        Some(n) => n,
    };
    if rs.len() == 0 {
        let mut body = owned("{\"name\":");
        push_quoted(&mut body, n);
        push_str(&mut body, "}");
        return send(Method::Post, cfg.api("/tags"), Some(body));
    }
    let r = &rs[0];
    let mut out = owned("Tag '");
    push_str(&mut out, n);
    push_str(&mut out, "' créé avec succès. ID : ");
    push_str(&mut out, display_at(r, "id").as_str());
    reply(r, out)
}

/// What a call of tool `name` with `args` does next, given the responses to the requests it
/// has made so far (`rs`, oldest first): another request, or the outcome.
pub open spec fn handle_view(base: Seq<char>, name: Seq<char>, args: Json, rs: Seq<Json>) -> StepView {
    if name == "n8n_list_workflows"@ {
        list_view(
            base,
            rs,
            "/workflows?limit=50"@,
            ListKind::Workflow,
            " workflow(s) :\n\n"@,
            "Aucun workflow trouvé."@,
        )
    } else if name == "n8n_get_workflow"@ {
        get_workflow_view(base, args, rs)
    } else if name == "n8n_activate_workflow"@ {
        set_active_view(base, args, rs, true)
    } else if name == "n8n_deactivate_workflow"@ {
        set_active_view(base, args, rs, false)
    } else if name == "n8n_execute_workflow"@ {
        execute_view(base, args, rs)
    } else if name == "n8n_delete_workflow"@ {
        delete_view(base, args, rs, "/workflows/"@, "Workflow "@, " supprimé définitivement."@)
    } else if name == "n8n_list_executions"@ {
        executions_view(
            base,
            args,
            rs,
            "&limit=20"@,
            " exécution(s) pour workflow "@,
            "Aucune exécution trouvée pour le workflow "@,
            "."@,
        )
    } else if name == "n8n_get_execution"@ {
        get_execution_view(base, args, rs)
    } else if name == "n8n_stop_execution"@ {
        stop_execution_view(base, args, rs)
    } else if name == "n8n_list_tags"@ {
        list_view(base, rs, "/tags"@, ListKind::Tag, " tag(s) :\n\n"@, "Aucun tag trouvé."@)
    } else if name == "n8n_get_workflow_runs"@ {
        executions_view(
            base,
            args,
            rs,
            "&limit=10&status=error"@,
            " exécution(s) en erreur pour workflow "@,
            "Aucune exécution en erreur pour le workflow "@,
            ". Tout va bien !"@,
        )
    } else if name == "n8n_trigger_webhook"@ {
        webhook_view(args, rs)
    } else if name == "n8n_create_workflow"@ {
        create_workflow_view(base, args, rs)
    } else if name == "n8n_update_workflow"@ {
        update_workflow_view(base, args, rs)
    } else if name == "n8n_list_credentials"@ {
        list_view(
            base,
            rs,
            "/credentials"@,
            ListKind::Credential,
            " credential(s) :\n\n"@,
            "Aucun credential trouvé."@,
        )
    } else if name == "n8n_create_credential"@ {
        create_credential_view(base, args, rs)
    } else if name == "n8n_delete_credential"@ {
        delete_view(base, args, rs, "/credentials/"@, "Credential "@, " supprimé définitivement."@)
    } else if name == "n8n_list_variables"@ {
        list_view(
            base,
            rs,
            "/variables"@,
            ListKind::Variable,
            " variable(s) :\n\n"@,
            "Aucune variable trouvée."@,
        )
    } else if name == "n8n_create_variable"@ {
        create_variable_view(base, args, rs)
    } else if name == "n8n_delete_variable"@ {
        delete_view(base, args, rs, "/variables/"@, "Variable "@, " supprimée définitivement."@)
    } else if name == "n8n_create_tag"@ {
        create_tag_view(base, args, rs)
    } else if name == "n8n_delete_tag"@ {
        delete_view(base, args, rs, "/tags/"@, "Tag "@, " supprimé."@)
    } else {
        fail_view("Tool n8n inconnu : "@ + name)
    }
}

/// The inputs on which a tool call runs without panicking: the workflow fetched by
/// `n8n_update_workflow` can take the requested changes.
pub open spec fn handle_ok(name: Seq<char>, args: Json, rs: Seq<Json>) -> bool {
    name == "n8n_update_workflow"@ && args.at("id"@).str_of() is Some && rs.len() >= 1
        ==> mergeable(rs[0], args)
}

/// Whether a call of `name` with `args` can take `responses` without panicking (see
/// [`handle_ok`]).
pub fn can_handle(name: &str, args: &Json, responses: &Vec<Json>) -> (r: bool)
    ensures
        r == handle_ok(name@, *args, responses@),
{
    if !str_eq(name, "n8n_update_workflow") || get_str(args, "id").is_none() || responses.len() == 0 {
        return true;
    }
    let changes = get_str(args, "name").is_some() || get_array(args, "nodes").is_some()
        || get_bool(args, "active").is_some();
    match &responses[0] {
        Json::Object(_) => true,
        Json::Null => true,
        _ => !changes,
    }
}

/// Runs one step of the n8n tool `name` called with `args`: `responses` holds the parsed
/// responses to the requests made so far. The caller sends each requested request, appends
/// its response and calls again, until the outcome.
pub fn handle(cfg: &N8nConfig, name: &str, args: &Json, responses: &Vec<Json>) -> (s: Step)
    requires
        handle_ok(name@, *args, responses@),
    ensures
        s@ == handle_view(cfg.api_url@, name@, *args, responses@),
{
    let rs = responses;
    if str_eq(name, "n8n_list_workflows") {
        list_tool(
            cfg,
            rs,
            "/workflows?limit=50",
            ListKind::Workflow,
            " workflow(s) :\n\n",
            "Aucun workflow trouvé.",
        )
    } else if str_eq(name, "n8n_get_workflow") {
        get_workflow(cfg, args, rs)
    } else if str_eq(name, "n8n_activate_workflow") {
        set_active(cfg, args, rs, true)
    } else if str_eq(name, "n8n_deactivate_workflow") {
        set_active(cfg, args, rs, false)
    } else if str_eq(name, "n8n_execute_workflow") {
        execute(cfg, args, rs)
    } else if str_eq(name, "n8n_delete_workflow") {
        delete_tool(cfg, args, rs, "/workflows/", "Workflow ", " supprimé définitivement.")
    } else if str_eq(name, "n8n_list_executions") {
        executions(
            cfg,
            args,
            rs,
            "&limit=20",
            " exécution(s) pour workflow ",
            "Aucune exécution trouvée pour le workflow ",
            ".",
        )
    } else if str_eq(name, "n8n_get_execution") {
        get_execution(cfg, args, rs)
    } else if str_eq(name, "n8n_stop_execution") {
        stop_execution(cfg, args, rs)
    } else if str_eq(name, "n8n_list_tags") {
        list_tool(cfg, rs, "/tags", ListKind::Tag, " tag(s) :\n\n", "Aucun tag trouvé.")
    } else if str_eq(name, "n8n_get_workflow_runs") {
        executions(
            cfg,
            args,
            rs,
            "&limit=10&status=error",
            " exécution(s) en erreur pour workflow ",
            "Aucune exécution en erreur pour le workflow ",
            ". Tout va bien !",
        )
    } else if str_eq(name, "n8n_trigger_webhook") {
        trigger_webhook(args, rs)
    } else if str_eq(name, "n8n_create_workflow") {
        create_workflow(cfg, args, rs)
    } else if str_eq(name, "n8n_update_workflow") {
        update_workflow(cfg, args, rs)
    } else if str_eq(name, "n8n_list_credentials") {
        list_tool(
            cfg,
            rs,
            "/credentials",
            ListKind::Credential,
            " credential(s) :\n\n",
            "Aucun credential trouvé.",
        )
    } else if str_eq(name, "n8n_create_credential") {
        create_credential(cfg, args, rs)
    } else if str_eq(name, "n8n_delete_credential") {
        delete_tool(cfg, args, rs, "/credentials/", "Credential ", " supprimé définitivement.")
    } else if str_eq(name, "n8n_list_variables") {
        list_tool(
            cfg,
            rs,
            "/variables",
            ListKind::Variable,
            " variable(s) :\n\n",
            "Aucune variable trouvée.",
        )
    } else if str_eq(name, "n8n_create_variable") {
        create_variable(cfg, args, rs)
    } else if str_eq(name, "n8n_delete_variable") {
        delete_tool(cfg, args, rs, "/variables/", "Variable ", " supprimée définitivement.")
    } else if str_eq(name, "n8n_create_tag") {
        create_tag(cfg, args, rs)
    } else if str_eq(name, "n8n_delete_tag") {
        delete_tool(cfg, args, rs, "/tags/", "Tag ", " supprimé.")
    } else {
        Step::Done(Err(concat("Tool n8n inconnu : ", name)))
    }
}


/// No n8n tool makes more than two requests, and only `n8n_update_workflow` makes two: once
/// that many responses are in, the call has its outcome.
pub proof fn lemma_handle_ends(base: Seq<char>, name: Seq<char>, args: Json, rs: Seq<Json>)
    ensures
        rs.len() >= 2 ==> handle_view(base, name, args, rs) is Done,
        rs.len() >= 1 && name != "n8n_update_workflow"@ ==> handle_view(base, name, args, rs) is Done,
{
}

/// A response that carries a `message` ends the call with that message as the error, whatever
/// the tool and whichever of its requests it answers.
pub proof fn lemma_message_is_error(
    base: Seq<char>,
    name: Seq<char>,
    args: Json,
    rs: Seq<Json>,
    resp: Json,
    m: Seq<char>,
)
    requires
        handle_view(base, name, args, rs) is Send,
        api_error(resp) == Some(m),
    ensures
        handle_view(base, name, args, rs.push(resp)) == fail_view(m),
{
    assert(rs.push(resp)[rs.len() as int] == resp);
    if rs.len() == 1 {
        assert(rs.push(resp).drop_first() == seq![resp]);
    }
}

/// Whether two listed credentials show alike: same `id`, `name`, `type` and `createdAt`.
pub open spec fn credential_shown_alike(a: Json, b: Json) -> bool {
    &&& a.at("id"@) == b.at("id"@)
    &&& a.at("name"@) == b.at("name"@)
    &&& a.at("type"@) == b.at("type"@)
    &&& a.at("createdAt"@) == b.at("createdAt"@)
}

proof fn lemma_credential_lines_alike(a: Seq<Json>, b: Seq<Json>)
    requires
        a.len() == b.len(),
        forall|i: int| 0 <= i < a.len() ==> #[trigger] credential_shown_alike(a[i], b[i]),
    ensures
        lines_text(ListKind::Credential, a) == lines_text(ListKind::Credential, b),
    decreases a.len(),
{
    if a.len() > 0 {
        assert(credential_shown_alike(a.last(), b.last()));
        assert forall|i: int| 0 <= i < a.drop_last().len() implies #[trigger] credential_shown_alike(
            a.drop_last()[i],
            b.drop_last()[i],
        ) by {
            assert(credential_shown_alike(a[i], b[i]));
        }
        lemma_credential_lines_alike(a.drop_last(), b.drop_last());
    }
}

/// `n8n_list_credentials` shows names and types, never the secrets: two responses with the
/// same `message` member whose credentials agree one by one on `id`, `name`, `type` and
/// `createdAt` give the same outcome, whatever else the credentials hold.
pub proof fn lemma_credential_values_hidden(base: Seq<char>, args: Json, r1: Json, r2: Json)
    requires
        r1.at("message"@) == r2.at("message"@),
        data_items(r1).len() == data_items(r2).len(),
        forall|i: int|
            0 <= i < data_items(r1).len() ==> #[trigger] credential_shown_alike(
                data_items(r1)[i],
                data_items(r2)[i],
            ),
    ensures
        handle_view(base, "n8n_list_credentials"@, args, seq![r1]) == handle_view(
            base,
            "n8n_list_credentials"@,
            args,
            seq![r2],
        ),
{
    reveal_strlit("n8n_list_credentials");
    reveal_strlit("n8n_list_workflows");
    reveal_strlit("n8n_get_workflow");
    reveal_strlit("n8n_activate_workflow");
    reveal_strlit("n8n_deactivate_workflow");
    reveal_strlit("n8n_execute_workflow");
    reveal_strlit("n8n_delete_workflow");
    reveal_strlit("n8n_list_executions");
    reveal_strlit("n8n_get_execution");
    reveal_strlit("n8n_stop_execution");
    reveal_strlit("n8n_list_tags");
    reveal_strlit("n8n_get_workflow_runs");
    reveal_strlit("n8n_trigger_webhook");
    reveal_strlit("n8n_create_workflow");
    reveal_strlit("n8n_update_workflow");
    assert("n8n_list_credentials"@.len() == 20);
    assert("n8n_list_workflows"@.len() == 18);
    assert("n8n_get_workflow"@.len() == 16);
    assert("n8n_activate_workflow"@.len() == 21);
    assert("n8n_deactivate_workflow"@.len() == 23);
    assert("n8n_execute_workflow"@[4] != "n8n_list_credentials"@[4]);
    assert("n8n_delete_workflow"@.len() == 19);
    assert("n8n_list_executions"@.len() == 19);
    assert("n8n_get_execution"@.len() == 17);
    assert("n8n_stop_execution"@.len() == 18);
    assert("n8n_list_tags"@.len() == 13);
    assert("n8n_get_workflow_runs"@.len() == 21);
    assert("n8n_trigger_webhook"@.len() == 19);
    assert("n8n_create_workflow"@.len() == 19);
    assert("n8n_update_workflow"@.len() == 19);
    lemma_credential_lines_alike(data_items(r1), data_items(r2));
}

/// The n8n tools offered to MCP clients: name, description and input schema of each, as a
/// The catalog's tools, in its order: for each, the JSON text of its members before its name
/// (its description and input schema).
pub const TOOL_HEADS: [&'static str; 22] = [
    r#"{"description":"N8N ⚙️ — Liste tous les workflows avec leur id, nom, statut actif/inactif et tags. Retourne jusqu'à 50 workflows. Utiliser n8n_get_workflow pour le détail complet.","inputSchema":{"properties":{},"type":"object"},"name":"#,
    r#"{"description":"N8N ⚙️ — Récupère le détail complet d'un workflow : nœuds, connexions, paramètres, déclencheurs. Utiliser n8n_list_workflows pour obtenir l'id.","inputSchema":{"properties":{"id":{"description":"ID du workflow","type":"string"}},"required":["id"],"type":"object"},"name":"#,
    r#"{"description":"N8N ⚙️ — Active un workflow (le met en production). Une fois actif, il se déclenche automatiquement selon son déclencheur (webhook, cron, etc.).","inputSchema":{"properties":{"id":{"description":"ID du workflow à activer","type":"string"}},"required":["id"],"type":"object"},"name":"#,
    r#"{"description":"N8N ⚙️ — Désactive un workflow (le met en pause). Il ne se déclenchera plus automatiquement jusqu'à sa réactivation.","inputSchema":{"properties":{"id":{"description":"ID du workflow à désactiver","type":"string"}},"required":["id"],"type":"object"},"name":"#,
    r#"{"description":"N8N ⚙️ — Déclenche l'exécution manuelle d'un workflow. Retourne l'ID d'exécution pour suivre son statut avec n8n_get_execution.","inputSchema":{"properties":{"id":{"description":"ID du workflow à exécuter","type":"string"}},"required":["id"],"type":"object"},"name":"#,
    r#"{"description":"N8N ⚙️ — Supprime définitivement un workflow. Action irréversible. Utiliser n8n_deactivate_workflow pour désactiver temporairement.","inputSchema":{"properties":{"id":{"description":"ID du workflow à supprimer","type":"string"}},"required":["id"],"type":"object"},"name":"#,
    r#"{"description":"N8N ⚙️ — Liste les exécutions d'un workflow avec statut (success/error/running), dates de début et fin. Retourne les 20 dernières exécutions.","inputSchema":{"properties":{"workflow_id":{"description":"ID du workflow dont on veut les exécutions","type":"string"}},"required":["workflow_id"],"type":"object"},"name":"#,
    r#"{"description":"N8N ⚙️ — Récupère le détail complet d'une exécution : données d'entrée/sortie de chaque nœud, erreurs éventuelles, durée. Utiliser n8n_list_executions pour obtenir l'id.","inputSchema":{"properties":{"id":{"description":"ID de l'exécution","type":"string"}},"required":["id"],"type":"object"},"name":"#,
    r#"{"description":"N8N ⚙️ — Arrête une exécution en cours. Utile si un workflow est bloqué ou tourne trop longtemps.","inputSchema":{"properties":{"id":{"description":"ID de l'exécution à arrêter","type":"string"}},"required":["id"],"type":"object"},"name":"#,
    r#"{"description":"N8N ⚙️ — Liste tous les tags disponibles dans l'instance n8n, avec leur id et nom. Utile pour filtrer les workflows par catégorie.","inputSchema":{"properties":{},"type":"object"},"name":"#,
    r#"{"description":"N8N ⚙️ — Récupère les 10 dernières exécutions en erreur d'un workflow spécifique. Pratique pour diagnostiquer rapidement les problèmes.","inputSchema":{"properties":{"workflow_id":{"description":"ID du workflow à inspecter","type":"string"}},"required":["workflow_id"],"type":"object"},"name":"#,
    r#"{"description":"N8N ⚙️ — Déclenche un workflow via son URL de webhook directement. Supporte GET et POST avec un corps JSON optionnel. Utiliser pour les workflows déclenchés par webhook.","inputSchema":{"properties":{"body":{"description":"Corps JSON à envoyer (optionnel, uniquement pour POST)","type":"object"},"method":{"default":"POST","description":"Méthode HTTP à utiliser (défaut: POST)","enum":["GET","POST"],"type":"string"},"webhook_url":{"description":"URL complète du webhook n8n (ex: http://localhost:5678/webhook/abc123)","type":"string"}},"required":["webhook_url"],"type":"object"},"name":"#,
    r#"{"description":"N8N ⚙️ — Crée un nouveau workflow vide ou avec des nœuds. Retourne l'ID du workflow créé. Utiliser n8n_update_workflow pour modifier ensuite.","inputSchema":{"properties":{"active":{"description":"Activer immédiatement le workflow (défaut: false)","type":"boolean"},"name":{"description":"Nom du workflow","type":"string"},"nodes":{"description":"Tableau JSON de nœuds n8n (optionnel, défaut: [])","type":"array"}},"required":["name"],"type":"object"},"name":"#,
    r#"{"description":"N8N ⚙️ — Met à jour un workflow existant (nom, nœuds, statut actif). Récupère d'abord le workflow via n8n_get_workflow puis fusionne les modifications avant PUT.","inputSchema":{"properties":{"active":{"description":"Changer le statut actif/inactif (optionnel)","type":"boolean"},"id":{"description":"ID du workflow à modifier","type":"string"},"name":{"description":"Nouveau nom (optionnel)","type":"string"},"nodes":{"description":"Nouveau tableau de nœuds JSON (optionnel)","type":"array"}},"required":["id"],"type":"object"},"name":"#,
    r#"{"description":"N8N ⚙️ — Liste tous les credentials configurés (noms et types uniquement, jamais les valeurs). Utile pour savoir quels credentials sont disponibles.","inputSchema":{"properties":{},"type":"object"},"name":"#,
    r#"{"description":"N8N ⚙️ — Crée un nouveau credential dans n8n. Le type doit correspondre au type n8n (ex: 'githubApi', 'slackApi'). Le champ data contient les paires clé/valeur du credential.","inputSchema":{"properties":{"data":{"description":"Objet JSON avec les champs du credential (ex: {\"accessToken\": \"xxx\"})","type":"object"},"name":{"description":"Nom du credential","type":"string"},"type":{"description":"Type n8n du credential (ex: githubApi, slackApi, httpBasicAuth)","type":"string"}},"required":["name","type","data"],"type":"object"},"name":"#,
    r#"{"description":"N8N ⚙️ — Supprime définitivement un credential. Action irréversible. Utiliser n8n_list_credentials pour obtenir l'id.","inputSchema":{"properties":{"id":{"description":"ID du credential à supprimer","type":"string"}},"required":["id"],"type":"object"},"name":"#,
    r#"{"description":"N8N ⚙️ — Liste toutes les variables d'environnement configurées dans l'instance n8n avec leur clé et valeur.","inputSchema":{"properties":{},"type":"object"},"name":"#,
    r#"{"description":"N8N ⚙️ — Crée une nouvelle variable d'environnement dans n8n. Les variables sont accessibles dans les workflows via $vars.KEY.","inputSchema":{"properties":{"key":{"description":"Clé de la variable (ex: API_BASE_URL)","type":"string"},"value":{"description":"Valeur de la variable","type":"string"}},"required":["key","value"],"type":"object"},"name":"#,
    r#"{"description":"N8N ⚙️ — Supprime une variable d'environnement. Utiliser n8n_list_variables pour obtenir l'id.","inputSchema":{"properties":{"id":{"description":"ID de la variable à supprimer","type":"string"}},"required":["id"],"type":"object"},"name":"#,
    r#"{"description":"N8N ⚙️ — Crée un nouveau tag pour organiser les workflows. Retourne l'ID du tag créé.","inputSchema":{"properties":{"name":{"description":"Nom du tag à créer","type":"string"}},"required":["name"],"type":"object"},"name":"#,
    r#"{"description":"N8N ⚙️ — Supprime un tag. Les workflows qui utilisaient ce tag ne sont pas supprimés. Utiliser n8n_list_tags pour obtenir l'id.","inputSchema":{"properties":{"id":{"description":"ID du tag à supprimer","type":"string"}},"required":["id"],"type":"object"},"name":"#
];

/// The names of the catalog's tools, in its order (those of [`catalog_names`]).
pub const TOOL_NAMES: [&'static str; 22] = [
    "n8n_list_workflows",
    "n8n_get_workflow",
    "n8n_activate_workflow",
    "n8n_deactivate_workflow",
    "n8n_execute_workflow",
    "n8n_delete_workflow",
    "n8n_list_executions",
    "n8n_get_execution",
    "n8n_stop_execution",
    "n8n_list_tags",
    "n8n_get_workflow_runs",
    "n8n_trigger_webhook",
    "n8n_create_workflow",
    "n8n_update_workflow",
    "n8n_list_credentials",
    "n8n_create_credential",
    "n8n_delete_credential",
    "n8n_list_variables",
    "n8n_create_variable",
    "n8n_delete_variable",
    "n8n_create_tag",
    "n8n_delete_tag"
];

/// The n8n tools offered to MCP clients, as a JSON array: one entry per tool of
/// [`catalog_names`], in order, each with its description and input schema (from
/// [`TOOL_HEADS`]) and its name.
pub fn tools() -> (r: String)
    ensures
        r@ == catalog_text(texts(TOOL_HEADS@), catalog_names()),
{
    assert(texts(TOOL_NAMES@) =~= catalog_names());
    build_catalog(&TOOL_HEADS, &TOOL_NAMES)
}

/// The names of the tools in the catalog, in its order.
pub open spec fn catalog_names() -> Seq<Seq<char>> {
    seq![
        "n8n_list_workflows"@,
        "n8n_get_workflow"@,
        "n8n_activate_workflow"@,
        "n8n_deactivate_workflow"@,
        "n8n_execute_workflow"@,
        "n8n_delete_workflow"@,
        "n8n_list_executions"@,
        "n8n_get_execution"@,
        "n8n_stop_execution"@,
        "n8n_list_tags"@,
        "n8n_get_workflow_runs"@,
        "n8n_trigger_webhook"@,
        "n8n_create_workflow"@,
        "n8n_update_workflow"@,
        "n8n_list_credentials"@,
        "n8n_create_credential"@,
        "n8n_delete_credential"@,
        "n8n_list_variables"@,
        "n8n_create_variable"@,
        "n8n_delete_variable"@,
        "n8n_create_tag"@,
        "n8n_delete_tag"@
    ]
}

/// The names of the tools in the catalog, in its order (see [`catalog_names`]).
pub fn tool_names() -> (r: Vec<&'static str>)
    ensures
        r@.map_values(|s: &'static str| s@) == catalog_names(),
{
    let r = vec![
        "n8n_list_workflows",
        "n8n_get_workflow",
        "n8n_activate_workflow",
        "n8n_deactivate_workflow",
        "n8n_execute_workflow",
        "n8n_delete_workflow",
        "n8n_list_executions",
        "n8n_get_execution",
        "n8n_stop_execution",
        "n8n_list_tags",
        "n8n_get_workflow_runs",
        "n8n_trigger_webhook",
        "n8n_create_workflow",
        "n8n_update_workflow",
        "n8n_list_credentials",
        "n8n_create_credential",
        "n8n_delete_credential",
        "n8n_list_variables",
        "n8n_create_variable",
        "n8n_delete_variable",
        "n8n_create_tag",
        "n8n_delete_tag"
    ];
    assert(r@.map_values(|s: &'static str| s@) =~= catalog_names());
    r
}

/// A tool name that [`tools`] does not serve (one outside [`catalog_names`]) gets the
/// unknown-tool error, without a request.
pub proof fn lemma_unknown_tool(base: Seq<char>, name: Seq<char>, args: Json, rs: Seq<Json>)
    requires
        !catalog_names().contains(name),
    ensures
        handle_view(base, name, args, rs) == fail_view("Tool n8n inconnu : "@ + name),
{
    assert(catalog_names()[0] == "n8n_list_workflows"@);
    assert(catalog_names()[1] == "n8n_get_workflow"@);
    assert(catalog_names()[2] == "n8n_activate_workflow"@);
    assert(catalog_names()[3] == "n8n_deactivate_workflow"@);
    assert(catalog_names()[4] == "n8n_execute_workflow"@);
    assert(catalog_names()[5] == "n8n_delete_workflow"@);
    assert(catalog_names()[6] == "n8n_list_executions"@);
    assert(catalog_names()[7] == "n8n_get_execution"@);
    assert(catalog_names()[8] == "n8n_stop_execution"@);
    assert(catalog_names()[9] == "n8n_list_tags"@);
    assert(catalog_names()[10] == "n8n_get_workflow_runs"@);
    assert(catalog_names()[11] == "n8n_trigger_webhook"@);
    assert(catalog_names()[12] == "n8n_create_workflow"@);
    assert(catalog_names()[13] == "n8n_update_workflow"@);
    assert(catalog_names()[14] == "n8n_list_credentials"@);
    assert(catalog_names()[15] == "n8n_create_credential"@);
    assert(catalog_names()[16] == "n8n_delete_credential"@);
    assert(catalog_names()[17] == "n8n_list_variables"@);
    assert(catalog_names()[18] == "n8n_create_variable"@);
    assert(catalog_names()[19] == "n8n_delete_variable"@);
    assert(catalog_names()[20] == "n8n_create_tag"@);
    assert(catalog_names()[21] == "n8n_delete_tag"@);
}

/// Every tool that [`tools`] serves (those of [`catalog_names`]) and that this module runs is
/// handled: its first step is never the unknown-tool error.
pub proof fn lemma_catalog_handled(base: Seq<char>, name: Seq<char>, args: Json)
    requires
        catalog_names().contains(name),
    ensures
        handle_view(base, name, args, seq![]) != fail_view("Tool n8n inconnu : "@ + name),
{
    reveal_strlit("Paramètre '");
    reveal_strlit("Paramètre 'data' requis (objet JSON)");
    reveal_strlit("Tool n8n inconnu : ");
    assert(("Tool n8n inconnu : "@ + name)[0] == 'T');
    assert(catalog_names()[0] == "n8n_list_workflows"@);
    assert(catalog_names()[1] == "n8n_get_workflow"@);
    assert(catalog_names()[2] == "n8n_activate_workflow"@);
    assert(catalog_names()[3] == "n8n_deactivate_workflow"@);
    assert(catalog_names()[4] == "n8n_execute_workflow"@);
    assert(catalog_names()[5] == "n8n_delete_workflow"@);
    assert(catalog_names()[6] == "n8n_list_executions"@);
    assert(catalog_names()[7] == "n8n_get_execution"@);
    assert(catalog_names()[8] == "n8n_stop_execution"@);
    assert(catalog_names()[9] == "n8n_list_tags"@);
    assert(catalog_names()[10] == "n8n_get_workflow_runs"@);
    assert(catalog_names()[11] == "n8n_trigger_webhook"@);
    assert(catalog_names()[12] == "n8n_create_workflow"@);
    assert(catalog_names()[13] == "n8n_update_workflow"@);
    assert(catalog_names()[14] == "n8n_list_credentials"@);
    assert(catalog_names()[15] == "n8n_create_credential"@);
    assert(catalog_names()[16] == "n8n_delete_credential"@);
    assert(catalog_names()[17] == "n8n_list_variables"@);
    assert(catalog_names()[18] == "n8n_create_variable"@);
    assert(catalog_names()[19] == "n8n_delete_variable"@);
    assert(catalog_names()[20] == "n8n_create_tag"@);
    assert(catalog_names()[21] == "n8n_delete_tag"@);
}

/// The names of each catalog tool's input properties and of those it requires, in catalog
/// order (properties by name).
pub open spec fn catalog_schemas() -> Seq<(Seq<char>, Seq<Seq<char>>, Seq<Seq<char>>)> {
    seq![
        ("n8n_list_workflows"@, seq![], seq![]),
        ("n8n_get_workflow"@, seq!["id"@], seq!["id"@]),
        ("n8n_activate_workflow"@, seq!["id"@], seq!["id"@]),
        ("n8n_deactivate_workflow"@, seq!["id"@], seq!["id"@]),
        ("n8n_execute_workflow"@, seq!["id"@], seq!["id"@]),
        ("n8n_delete_workflow"@, seq!["id"@], seq!["id"@]),
        ("n8n_list_executions"@, seq!["workflow_id"@], seq!["workflow_id"@]),
        ("n8n_get_execution"@, seq!["id"@], seq!["id"@]),
        ("n8n_stop_execution"@, seq!["id"@], seq!["id"@]),
        ("n8n_list_tags"@, seq![], seq![]),
        ("n8n_get_workflow_runs"@, seq!["workflow_id"@], seq!["workflow_id"@]),
        ("n8n_trigger_webhook"@, seq!["body"@, "method"@, "webhook_url"@], seq!["webhook_url"@]),
        ("n8n_create_workflow"@, seq!["active"@, "name"@, "nodes"@], seq!["name"@]),
        ("n8n_update_workflow"@, seq!["active"@, "id"@, "name"@, "nodes"@], seq!["id"@]),
        ("n8n_list_credentials"@, seq![], seq![]),
        ("n8n_create_credential"@, seq!["data"@, "name"@, "type"@], seq!["name"@, "type"@, "data"@]),
        ("n8n_delete_credential"@, seq!["id"@], seq!["id"@]),
        ("n8n_list_variables"@, seq![], seq![]),
        ("n8n_create_variable"@, seq!["key"@, "value"@], seq!["key"@, "value"@]),
        ("n8n_delete_variable"@, seq!["id"@], seq!["id"@]),
        ("n8n_create_tag"@, seq!["name"@], seq!["name"@]),
        ("n8n_delete_tag"@, seq!["id"@], seq!["id"@])
    ]
}

/// The names of each catalog tool's input properties and required inputs (see
/// [`catalog_schemas`]).
pub fn tool_schemas() -> (r: Vec<SchemaNames>)
    ensures
        r@.map_values(|e: SchemaNames| schema_view(e)) == catalog_schemas(),
{
    let r: Vec<SchemaNames> = vec![
        ("n8n_list_workflows", vec![], vec![]),
        ("n8n_get_workflow", vec!["id"], vec!["id"]),
        ("n8n_activate_workflow", vec!["id"], vec!["id"]),
        ("n8n_deactivate_workflow", vec!["id"], vec!["id"]),
        ("n8n_execute_workflow", vec!["id"], vec!["id"]),
        ("n8n_delete_workflow", vec!["id"], vec!["id"]),
        ("n8n_list_executions", vec!["workflow_id"], vec!["workflow_id"]),
        ("n8n_get_execution", vec!["id"], vec!["id"]),
        ("n8n_stop_execution", vec!["id"], vec!["id"]),
        ("n8n_list_tags", vec![], vec![]),
        ("n8n_get_workflow_runs", vec!["workflow_id"], vec!["workflow_id"]),
        ("n8n_trigger_webhook", vec!["body", "method", "webhook_url"], vec!["webhook_url"]),
        ("n8n_create_workflow", vec!["active", "name", "nodes"], vec!["name"]),
        ("n8n_update_workflow", vec!["active", "id", "name", "nodes"], vec!["id"]),
        ("n8n_list_credentials", vec![], vec![]),
        ("n8n_create_credential", vec!["data", "name", "type"], vec!["name", "type", "data"]),
        ("n8n_delete_credential", vec!["id"], vec!["id"]),
        ("n8n_list_variables", vec![], vec![]),
        ("n8n_create_variable", vec!["key", "value"], vec!["key", "value"]),
        ("n8n_delete_variable", vec!["id"], vec!["id"]),
        ("n8n_create_tag", vec!["name"], vec!["name"]),
        ("n8n_delete_tag", vec!["id"], vec!["id"])
    ];
    assert(r@[0].1@.map_values(|s: &'static str| s@) =~= catalog_schemas()[0].1);
    assert(r@[0].2@.map_values(|s: &'static str| s@) =~= catalog_schemas()[0].2);
    assert(r@[1].1@.map_values(|s: &'static str| s@) =~= catalog_schemas()[1].1);
    assert(r@[1].2@.map_values(|s: &'static str| s@) =~= catalog_schemas()[1].2);
    assert(r@[2].1@.map_values(|s: &'static str| s@) =~= catalog_schemas()[2].1);
    assert(r@[2].2@.map_values(|s: &'static str| s@) =~= catalog_schemas()[2].2);
    assert(r@[3].1@.map_values(|s: &'static str| s@) =~= catalog_schemas()[3].1);
    assert(r@[3].2@.map_values(|s: &'static str| s@) =~= catalog_schemas()[3].2);
    assert(r@[4].1@.map_values(|s: &'static str| s@) =~= catalog_schemas()[4].1);
    assert(r@[4].2@.map_values(|s: &'static str| s@) =~= catalog_schemas()[4].2);
    assert(r@[5].1@.map_values(|s: &'static str| s@) =~= catalog_schemas()[5].1);
    assert(r@[5].2@.map_values(|s: &'static str| s@) =~= catalog_schemas()[5].2);
    assert(r@[6].1@.map_values(|s: &'static str| s@) =~= catalog_schemas()[6].1);
    assert(r@[6].2@.map_values(|s: &'static str| s@) =~= catalog_schemas()[6].2);
    assert(r@[7].1@.map_values(|s: &'static str| s@) =~= catalog_schemas()[7].1);
    assert(r@[7].2@.map_values(|s: &'static str| s@) =~= catalog_schemas()[7].2);
    assert(r@[8].1@.map_values(|s: &'static str| s@) =~= catalog_schemas()[8].1);
    assert(r@[8].2@.map_values(|s: &'static str| s@) =~= catalog_schemas()[8].2);
    assert(r@[9].1@.map_values(|s: &'static str| s@) =~= catalog_schemas()[9].1);
    assert(r@[9].2@.map_values(|s: &'static str| s@) =~= catalog_schemas()[9].2);
    assert(r@[10].1@.map_values(|s: &'static str| s@) =~= catalog_schemas()[10].1);
    assert(r@[10].2@.map_values(|s: &'static str| s@) =~= catalog_schemas()[10].2);
    assert(r@[11].1@.map_values(|s: &'static str| s@) =~= catalog_schemas()[11].1);
    assert(r@[11].2@.map_values(|s: &'static str| s@) =~= catalog_schemas()[11].2);
    assert(r@[12].1@.map_values(|s: &'static str| s@) =~= catalog_schemas()[12].1);
    assert(r@[12].2@.map_values(|s: &'static str| s@) =~= catalog_schemas()[12].2);
    assert(r@[13].1@.map_values(|s: &'static str| s@) =~= catalog_schemas()[13].1);
    assert(r@[13].2@.map_values(|s: &'static str| s@) =~= catalog_schemas()[13].2);
    assert(r@[14].1@.map_values(|s: &'static str| s@) =~= catalog_schemas()[14].1);
    assert(r@[14].2@.map_values(|s: &'static str| s@) =~= catalog_schemas()[14].2);
    assert(r@[15].1@.map_values(|s: &'static str| s@) =~= catalog_schemas()[15].1);
    assert(r@[15].2@.map_values(|s: &'static str| s@) =~= catalog_schemas()[15].2);
    assert(r@[16].1@.map_values(|s: &'static str| s@) =~= catalog_schemas()[16].1);
    assert(r@[16].2@.map_values(|s: &'static str| s@) =~= catalog_schemas()[16].2);
    assert(r@[17].1@.map_values(|s: &'static str| s@) =~= catalog_schemas()[17].1);
    assert(r@[17].2@.map_values(|s: &'static str| s@) =~= catalog_schemas()[17].2);
    assert(r@[18].1@.map_values(|s: &'static str| s@) =~= catalog_schemas()[18].1);
    assert(r@[18].2@.map_values(|s: &'static str| s@) =~= catalog_schemas()[18].2);
    assert(r@[19].1@.map_values(|s: &'static str| s@) =~= catalog_schemas()[19].1);
    assert(r@[19].2@.map_values(|s: &'static str| s@) =~= catalog_schemas()[19].2);
    assert(r@[20].1@.map_values(|s: &'static str| s@) =~= catalog_schemas()[20].1);
    assert(r@[20].2@.map_values(|s: &'static str| s@) =~= catalog_schemas()[20].2);
    assert(r@[21].1@.map_values(|s: &'static str| s@) =~= catalog_schemas()[21].1);
    assert(r@[21].2@.map_values(|s: &'static str| s@) =~= catalog_schemas()[21].2);
    assert(r@.map_values(|e: SchemaNames| schema_view(e)) =~= catalog_schemas());
    r
}

/// Every tool of the catalog requires only inputs that are among its properties.
pub proof fn lemma_required_are_properties(i: int)
    requires
        0 <= i < catalog_schemas().len(),
    ensures
        requires_properties(catalog_schemas()[i]),
{
    if i == 1 {
        assert(catalog_schemas()[1].1[0] == catalog_schemas()[1].2[0]);
    }
    if i == 2 {
        assert(catalog_schemas()[2].1[0] == catalog_schemas()[2].2[0]);
    }
    if i == 3 {
        assert(catalog_schemas()[3].1[0] == catalog_schemas()[3].2[0]);
    }
    if i == 4 {
        assert(catalog_schemas()[4].1[0] == catalog_schemas()[4].2[0]);
    }
    if i == 5 {
        assert(catalog_schemas()[5].1[0] == catalog_schemas()[5].2[0]);
    }
    if i == 6 {
        assert(catalog_schemas()[6].1[0] == catalog_schemas()[6].2[0]);
    }
    if i == 7 {
        assert(catalog_schemas()[7].1[0] == catalog_schemas()[7].2[0]);
    }
    if i == 8 {
        assert(catalog_schemas()[8].1[0] == catalog_schemas()[8].2[0]);
    }
    if i == 10 {
        assert(catalog_schemas()[10].1[0] == catalog_schemas()[10].2[0]);
    }
    if i == 11 {
        assert(catalog_schemas()[11].1[2] == catalog_schemas()[11].2[0]);
    }
    if i == 12 {
        assert(catalog_schemas()[12].1[1] == catalog_schemas()[12].2[0]);
    }
    if i == 13 {
        assert(catalog_schemas()[13].1[1] == catalog_schemas()[13].2[0]);
    }
    if i == 15 {
        assert(catalog_schemas()[15].1[1] == catalog_schemas()[15].2[0]);
        assert(catalog_schemas()[15].1[2] == catalog_schemas()[15].2[1]);
        assert(catalog_schemas()[15].1[0] == catalog_schemas()[15].2[2]);
    }
    if i == 16 {
        assert(catalog_schemas()[16].1[0] == catalog_schemas()[16].2[0]);
    }
    if i == 18 {
        assert(catalog_schemas()[18].1[0] == catalog_schemas()[18].2[0]);
        assert(catalog_schemas()[18].1[1] == catalog_schemas()[18].2[1]);
    }
    if i == 19 {
        assert(catalog_schemas()[19].1[0] == catalog_schemas()[19].2[0]);
    }
    if i == 20 {
        assert(catalog_schemas()[20].1[0] == catalog_schemas()[20].2[0]);
    }
    if i == 21 {
        assert(catalog_schemas()[21].1[0] == catalog_schemas()[21].2[0]);
    }
}

proof fn lemma_api_path(base: Seq<char>, rest: Seq<char>)
    requires
        rest.len() > 0,
        rest[0] != '/',
    ensures
        api_url(base, "/"@ + rest) == trim_end_spec(base, '/') + "/api/v1/"@ + rest,
{
    reveal_strlit("/");
    assert(("/"@ + rest)[0] == '/');
    assert(("/"@ + rest).drop_first() =~= rest);
    assert(trim_start_spec(rest, '/') == rest);
    assert(trim_start_spec("/"@ + rest, '/') == trim_start_spec(rest, '/'));
}

/// `n8n_activate_workflow` and `n8n_deactivate_workflow` patch the workflow named by `id`,
/// the first with `{"active":true}`, the second with `{"active":false}`.
pub proof fn lemma_activation_requests(base: Seq<char>, args: Json, id: Seq<char>)
    requires
        args.at("id"@).str_of() == Some(id),
    ensures
        handle_view(base, "n8n_activate_workflow"@, args, seq![]) == send_view(
            Method::Patch,
            trim_end_spec(base, '/') + "/api/v1/workflows/"@ + id,
            Some("{\"active\":true}"@),
        ),
        handle_view(base, "n8n_deactivate_workflow"@, args, seq![]) == send_view(
            Method::Patch,
            trim_end_spec(base, '/') + "/api/v1/workflows/"@ + id,
            Some("{\"active\":false}"@),
        ),
{
    reveal_strlit("n8n_deactivate_workflow");
    reveal_strlit("n8n_list_workflows");
    assert("n8n_list_workflows"@.len() == 18);
    reveal_strlit("n8n_get_workflow");
    assert("n8n_get_workflow"@.len() == 16);
    reveal_strlit("n8n_activate_workflow");
    assert("n8n_activate_workflow"@.len() == 21);
    assert("n8n_deactivate_workflow"@.len() == 23);
    reveal_strlit("/workflows/");
    reveal_strlit("workflows/");
    reveal_strlit("/");
    reveal_strlit("/api/v1/");
    reveal_strlit("/api/v1/workflows/");
    assert("/workflows/"@ + id =~= "/"@ + ("workflows/"@ + id));
    lemma_api_path(base, "workflows/"@ + id);
    assert(trim_end_spec(base, '/') + "/api/v1/"@ + ("workflows/"@ + id) =~= trim_end_spec(base, '/')
        + "/api/v1/workflows/"@ + id);
    reveal_strlit("{\"active\":");
    reveal_strlit("}");
    reveal_strlit("{\"active\":true}");
    reveal_strlit("{\"active\":false}");
    assert(active_body(true) =~= "{\"active\":true}"@);
    assert(active_body(false) =~= "{\"active\":false}"@);
}

proof fn lemma_executions_url(base: Seq<char>, w: Seq<char>, q: Seq<char>)
    ensures
        api_url(base, "/executions?workflowId="@ + w + q) == trim_end_spec(base, '/')
            + "/api/v1/executions?workflowId="@ + w + q,
{
    reveal_strlit("/executions?workflowId=");
    reveal_strlit("executions?workflowId=");
    reveal_strlit("/");
    reveal_strlit("/api/v1/");
    reveal_strlit("/api/v1/executions?workflowId=");
    assert("/executions?workflowId="@ + w + q =~= "/"@ + ("executions?workflowId="@ + w + q));
    lemma_api_path(base, "executions?workflowId="@ + w + q);
    assert(trim_end_spec(base, '/') + "/api/v1/"@ + ("executions?workflowId="@ + w + q) =~= trim_end_spec(
        base,
        '/',
    ) + "/api/v1/executions?workflowId="@ + w + q);
}

#[verifier::rlimit(40)]
proof fn lemma_runs_query(base: Seq<char>, args: Json, w: Seq<char>)
    requires
        args.at("workflow_id"@).str_of() == Some(w),
    ensures
        handle_view(base, "n8n_get_workflow_runs"@, args, seq![]) == send_view(
            Method::Get,
            trim_end_spec(base, '/') + "/api/v1/executions?workflowId="@ + w + "&limit=10&status=error"@,
            None,
        ),
{
    reveal_strlit("n8n_get_workflow_runs");
    reveal_strlit("n8n_list_workflows");
    assert("n8n_list_workflows"@.len() == 18);
    reveal_strlit("n8n_get_workflow");
    assert("n8n_get_workflow"@.len() == 16);
    reveal_strlit("n8n_activate_workflow");
    assert("n8n_get_workflow_runs"@[4] != "n8n_activate_workflow"@[4]);
    reveal_strlit("n8n_deactivate_workflow");
    assert("n8n_deactivate_workflow"@.len() == 23);
    reveal_strlit("n8n_execute_workflow");
    assert("n8n_execute_workflow"@.len() == 20);
    reveal_strlit("n8n_delete_workflow");
    assert("n8n_delete_workflow"@.len() == 19);
    reveal_strlit("n8n_list_executions");
    assert("n8n_list_executions"@.len() == 19);
    reveal_strlit("n8n_get_execution");
    assert("n8n_get_execution"@.len() == 17);
    reveal_strlit("n8n_stop_execution");
    assert("n8n_stop_execution"@.len() == 18);
    reveal_strlit("n8n_list_tags");
    assert("n8n_list_tags"@.len() == 13);
    assert("n8n_get_workflow_runs"@.len() == 21);
    lemma_executions_url(base, w, "&limit=10&status=error"@);
}

#[verifier::rlimit(40)]
proof fn lemma_list_executions_query(base: Seq<char>, args: Json, w: Seq<char>)
    requires
        args.at("workflow_id"@).str_of() == Some(w),
    ensures
        handle_view(base, "n8n_list_executions"@, args, seq![]) == send_view(
            Method::Get,
            trim_end_spec(base, '/') + "/api/v1/executions?workflowId="@ + w + "&limit=20"@,
            None,
        ),
{
    reveal_strlit("n8n_list_executions");
    reveal_strlit("n8n_list_workflows");
    assert("n8n_list_workflows"@.len() == 18);
    reveal_strlit("n8n_get_workflow");
    assert("n8n_get_workflow"@.len() == 16);
    reveal_strlit("n8n_activate_workflow");
    assert("n8n_activate_workflow"@.len() == 21);
    reveal_strlit("n8n_deactivate_workflow");
    assert("n8n_deactivate_workflow"@.len() == 23);
    reveal_strlit("n8n_execute_workflow");
    assert("n8n_execute_workflow"@.len() == 20);
    reveal_strlit("n8n_delete_workflow");
    assert("n8n_list_executions"@[4] != "n8n_delete_workflow"@[4]);
    assert("n8n_list_executions"@.len() == 19);
    lemma_executions_url(base, w, "&limit=20"@);
}

/// `n8n_get_workflow_runs` asks for the last ten executions in error of the workflow named by
/// `workflow_id`, and `n8n_list_executions` for its last twenty executions of any status.
pub proof fn lemma_execution_queries(base: Seq<char>, args: Json, w: Seq<char>)
    requires
        args.at("workflow_id"@).str_of() == Some(w),
    ensures
        handle_view(base, "n8n_get_workflow_runs"@, args, seq![]) == send_view(
            Method::Get,
            trim_end_spec(base, '/') + "/api/v1/executions?workflowId="@ + w + "&limit=10&status=error"@,
            None,
        ),
        handle_view(base, "n8n_list_executions"@, args, seq![]) == send_view(
            Method::Get,
            trim_end_spec(base, '/') + "/api/v1/executions?workflowId="@ + w + "&limit=20"@,
            None,
        ),
{
    lemma_runs_query(base, args, w);
    lemma_list_executions_query(base, args, w);
}

} // verus!
