//! Resend connector (REST API).
use vstd::prelude::*;
use crate::connectors::catalog::{build_catalog, catalog_text, requires_properties, schema_view, texts, SchemaNames};
use crate::fmt::{get_str_or, join_spec, join_strs, str_or, views};
use crate::http::{best_effort_view, fail_view, ok_view, send, send_best_effort, send_view, Method, Step, StepView};
use crate::json::{get_array, get_str, push_quoted, quoted, Json};
use crate::text::{
    dec_nat, owned, push_char, push_chars, push_str, str_chars, str_eq, trim_end_ws, trim_end_ws_spec,
    trim_start_char, trim_start_spec, u64_to_string,
};

verus! {

/// Resend credentials (`~/.osmozzz/resend.toml`).
pub struct ResendConfig {
    pub api_key: String,
}

impl ResendConfig {
    /// The API URL of `path`, whatever slashes it starts with.
    pub fn api(&self, path: &str) -> (r: String)
        ensures
            r@ == "https://api.resend.com/"@ + trim_start_spec(path@, '/'),
    {
        let mut out = owned("https://api.resend.com/");
        push_chars(&mut out, &trim_start_char(&str_chars(path), '/'));
        out
    }
}


// ─── Tool calls ──────────────────────────────────────────────────────────────

/// The API URL of `path` (see [`ResendConfig::api`]).
pub open spec fn api_url(path: Seq<char>) -> Seq<char> {
    "https://api.resend.com/"@ + trim_start_spec(path, '/')
}

/// A tool that makes one request: the request, then the text rendered from its response.
pub open spec fn one_call(req: StepView, rs: Seq<Json>, text: spec_fn(Json) -> Seq<char>) -> StepView {
    if rs.len() == 0 {
        req
    } else {
        ok_view(text(rs[0]))
    }
}

/// The error for a missing argument.
pub open spec fn required_text(key: Seq<char>) -> Seq<char> {
    "Paramètre '"@ + key + "' requis"@
}

fn required(key: &str) -> (s: Step)
    ensures
        s@ == fail_view(required_text(key@)),
{
    let mut e = owned("Paramètre '");
    push_str(&mut e, key);
    push_str(&mut e, "' requis");
    Step::Done(Err(e))
}

fn concat(a: &str, b: &str) -> (r: String)
    ensures
        r@ == a@ + b@,
{
    let mut r = owned(a);
    push_str(&mut r, b);
    r
}

/// An optional member of a JSON object, written with its leading comma.
pub open spec fn opt_member(key: Seq<char>, v: Option<Seq<char>>) -> Seq<char> {
    match v {
        Some(t) => ","@ + quoted(key) + ":"@ + quoted(t),
        None => seq![],
    }
}

fn push_opt_member(out: &mut String, key: &str, v: Option<&str>)
    ensures
        final(out)@ == old(out)@ + opt_member(
            key@,
            match v {
                Some(t) => Some(t@),
                None => None,
            },
        ),
{
    match v {
        Some(t) => {
            push_str(out, ",");
            push_quoted(out, key);
            push_str(out, ":");
            push_quoted(out, t);
        },
        None => {},
    }
}

/// The kinds of listed items.
#[derive(Clone, Copy)]
pub enum Listed {
    Domain,
    ApiKey,
    Audience,
    Record,
    NewRecord,
}

/// One listed item, without its line break.
pub open spec fn item_text(kind: Listed, j: Json) -> Seq<char> {
    match kind {
        Listed::Domain => "• ["@ + str_or(j, "id"@, "—"@) + "] "@ + str_or(j, "name"@, "—"@)
            + " — statut: "@ + str_or(j, "status"@, "—"@) + " — région: "@ + str_or(
            j,
            "region"@,
            "—"@,
        ),
        Listed::ApiKey => "• ["@ + str_or(j, "id"@, "—"@) + "] "@ + str_or(j, "name"@, "—"@) + " — "@
            + str_or(j, "permission"@, "—"@) + " — créée: "@ + str_or(j, "created_at"@, "—"@),
        Listed::Audience => "• ["@ + str_or(j, "id"@, "—"@) + "] "@ + str_or(j, "name"@, "—"@)
            + " — créée: "@ + str_or(j, "created_at"@, "—"@),
        Listed::Record => "  ["@ + str_or(j, "status"@, "—"@) + "] "@ + str_or(j, "type"@, "—"@) + " "@
            + str_or(j, "name"@, "—"@) + " → "@ + str_or(j, "value"@, "—"@),
        Listed::NewRecord => "  "@ + str_or(j, "type"@, "—"@) + " "@ + str_or(j, "name"@, "—"@) + " → "@
            + str_or(j, "value"@, "—"@),
    }
}

fn format_item(kind: Listed, j: &Json) -> (r: String)
    ensures
        r@ == item_text(kind, *j),
{
    match kind {
        Listed::Domain => {
            let mut out = owned("• [");
            push_str(&mut out, get_str_or(j, "id", "—"));
            push_str(&mut out, "] ");
            push_str(&mut out, get_str_or(j, "name", "—"));
            push_str(&mut out, " — statut: ");
            push_str(&mut out, get_str_or(j, "status", "—"));
            push_str(&mut out, " — région: ");
            push_str(&mut out, get_str_or(j, "region", "—"));
            out
        },
        Listed::ApiKey => {
            let mut out = owned("• [");
            push_str(&mut out, get_str_or(j, "id", "—"));
            push_str(&mut out, "] ");
            push_str(&mut out, get_str_or(j, "name", "—"));
            push_str(&mut out, " — ");
            push_str(&mut out, get_str_or(j, "permission", "—"));
            push_str(&mut out, " — créée: ");
            push_str(&mut out, get_str_or(j, "created_at", "—"));
            out
        },
        Listed::Audience => {
            let mut out = owned("• [");
            push_str(&mut out, get_str_or(j, "id", "—"));
            push_str(&mut out, "] ");
            push_str(&mut out, get_str_or(j, "name", "—"));
            push_str(&mut out, " — créée: ");
            push_str(&mut out, get_str_or(j, "created_at", "—"));
            out
        },
        Listed::Record => {
            let mut out = owned("  [");
            push_str(&mut out, get_str_or(j, "status", "—"));
            push_str(&mut out, "] ");
            push_str(&mut out, get_str_or(j, "type", "—"));
            push_str(&mut out, " ");
            push_str(&mut out, get_str_or(j, "name", "—"));
            push_str(&mut out, " → ");
            push_str(&mut out, get_str_or(j, "value", "—"));
            out
        },
        Listed::NewRecord => {
            let mut out = owned("  ");
            push_str(&mut out, get_str_or(j, "type", "—"));
            push_str(&mut out, " ");
            push_str(&mut out, get_str_or(j, "name", "—"));
            push_str(&mut out, " → ");
            push_str(&mut out, get_str_or(j, "value", "—"));
            out
        },
    }
}

/// Each item's text followed by a line break.
pub open spec fn lines_text(kind: Listed, items: Seq<Json>) -> Seq<char>
    decreases items.len(),
{
    if items.len() == 0 {
        seq![]
    } else {
        lines_text(kind, items.drop_last()) + item_text(kind, items.last()) + seq!['\n']
    }
}

fn push_lines(out: &mut String, kind: Listed, items: &Vec<Json>)
    ensures
        final(out)@ == old(out)@ + lines_text(kind, items@),
{
    let n = items.len();
    for i in 0..n
        invariant
            n == items@.len(),
            out@ == old(out)@ + lines_text(kind, items@.take(i as int)),
    {
        assert(items@.take(i + 1).drop_last() == items@.take(i as int));
        assert(items@.take(i + 1).last() == items@[i as int]);
        push_str(out, format_item(kind, &items[i]).as_str());
        push_char(out, '\n');
    }
    assert(items@.take(n as int) == items@);
}

/// The items of a list response: its `data` array, else the response itself when it is an
/// array.
pub open spec fn list_items(r: Json) -> Seq<Json> {
    match r.at("data"@).array_of() {
        Some(a) => a,
        None => match r.array_of() {
            Some(a) => a,
            None => seq![],
        },
    }
}

/// A list response: `empty` when it has no item, else the count, `header` and the lines,
/// without trailing white space.
pub open spec fn listing(kind: Listed, r: Json, header: Seq<char>, empty: Seq<char>) -> Seq<char> {
    let items = list_items(r);
    if items.len() == 0 {
        empty
    } else {
        trim_end_ws_spec(dec_nat(items.len()) + header + lines_text(kind, items))
    }
}

fn listing_exec(kind: Listed, r: &Json, header: &str, empty: &str) -> (t: String)
    ensures
        t@ == listing(kind, *r, header@, empty@),
{
    let items = match get_array(r, "data") {
        Some(a) => a,
        None => match r.as_array() {
            Some(a) => a,
            None => return owned(empty),
        },
    };
    if items.len() == 0 {
        return owned(empty);
    }
    let mut out = u64_to_string(items.len() as u64);
    push_str(&mut out, header);
    push_lines(&mut out, kind, items);
    trim_end_ws(out.as_str())
}

/// The DNS records of a domain response, after `title`, when it has some.
pub open spec fn records_text(kind: Listed, r: Json, title: Seq<char>) -> Seq<char> {
    match r.at("records"@).array_of() {
        Some(a) => if a.len() > 0 {
            title + lines_text(kind, a)
        } else {
            seq![]
        },
        None => seq![],
    }
}

fn push_records(out: &mut String, kind: Listed, r: &Json, title: &str)
    ensures
        final(out)@ == old(out)@ + records_text(kind, *r, title@),
{
    match get_array(r, "records") {
        Some(a) => if a.len() > 0 {
            push_str(out, title);
            push_lines(out, kind, a);
        },
        None => {},
    }
}

/// The string items of an array member, joined by `, `; `—` when the member is not an array.
pub open spec fn recipients_text(r: Json) -> Seq<char> {
    match r.at("to"@).array_of() {
        Some(a) => join_spec(strings_of(a), ", "@),
        None => "—"@,
    }
}

/// The texts of the string items, in order.
pub open spec fn strings_of(items: Seq<Json>) -> Seq<Seq<char>>
    decreases items.len(),
{
    if items.len() == 0 {
        seq![]
    } else {
        match items.last().str_of() {
            Some(s) => strings_of(items.drop_last()).push(s),
            None => strings_of(items.drop_last()),
        }
    }
}

fn get_recipients(r: &Json) -> (t: String)
    ensures
        t@ == recipients_text(*r),
{
    match get_array(r, "to") {
        Some(items) => {
            let mut parts: Vec<&str> = Vec::new();
            let n = items.len();
            for i in 0..n
                invariant
                    n == items@.len(),
                    views(parts@) == strings_of(items@.take(i as int)),
            {
                assert(items@.take(i + 1).drop_last() == items@.take(i as int));
                assert(items@.take(i + 1).last() == items@[i as int]);
                match items[i].as_str() {
                    Some(s) => {
                        parts.push(s);
                        assert(views(parts@) == views(parts@.drop_last()).push(s@));
                    },
                    None => {},
                }
            }
            assert(items@.take(n as int) == items@);
            join_strs(&parts, ", ")
        },
        None => owned("—"),
    }
}


/// The body of `resend_send_email`, members in name order.
pub open spec fn email_body(from: Seq<char>, to: Seq<char>, subject: Seq<char>, args: Json) -> Seq<char> {
    "{\"from\":"@ + quoted(from) + opt_member("html"@, args.at("html"@).str_of()) + ",\"subject\":"@
        + quoted(subject) + opt_member("text"@, args.at("text"@).str_of()) + ",\"to\":["@ + quoted(to)
        + "]}"@
}

/// `resend_get_email`.
pub open spec fn email_detail(id: Seq<char>, r: Json) -> Seq<char> {
    "Email "@ + id + "\nDe      : "@ + str_or(r, "from"@, "—"@) + "\nÀ       : "@ + recipients_text(r)
        + "\nSujet   : "@ + str_or(r, "subject"@, "—"@) + "\nStatut  : "@ + str_or(
        r,
        "last_event"@,
        "—"@,
    ) + "\nCréé le : "@ + str_or(r, "created_at"@, "—"@)
}

/// `resend_get_domain`.
pub open spec fn domain_detail(id: Seq<char>, r: Json) -> Seq<char> {
    trim_end_ws_spec(
        "Domaine "@ + id + "\nNom    : "@ + str_or(r, "name"@, "—"@) + "\nStatut : "@ + str_or(
            r,
            "status"@,
            "—"@,
        ) + "\nRégion : "@ + str_or(r, "region"@, "—"@) + "\nCréé   : "@ + str_or(
            r,
            "created_at"@,
            "—"@,
        ) + "\n"@ + records_text(Listed::Record, r, "\nEnregistrements DNS :\n"@),
    )
}

/// `resend_create_domain`.
pub open spec fn new_domain_text(name: Seq<char>, region: Seq<char>, r: Json) -> Seq<char> {
    trim_end_ws_spec(
        "Domaine créé.\nID     : "@ + str_or(r, "id"@, "—"@) + "\nNom    : "@ + name + "\nRégion : "@
            + region + "\nStatut : "@ + str_or(r, "status"@, "—"@) + "\n"@ + records_text(
            Listed::NewRecord,
            r,
            "\nEnregistrements DNS à configurer :\n"@,
        ),
    )
}

/// What a call of Resend tool `name` with `args` does next, given the responses so far.
/// The domain tools.
pub open spec fn domain_view(name: Seq<char>, args: Json, rs: Seq<Json>) -> StepView {
    if name == "resend_get_domain"@ {
    match args.at("domain_id"@).str_of() {
        None => fail_view(required_text("domain_id"@)),
        Some(id) => one_call(
            send_view(Method::Get, api_url("/domains/"@ + id), None),
            rs,
            |r: Json| domain_detail(id, r),
        ),
    }
    } else if name == "resend_create_domain"@ {
    match args.at("name"@).str_of() {
        None => fail_view(required_text("name"@)),
        Some(n) => {
            let region = str_or(args, "region"@, "us-east-1"@);
            one_call(
                send_view(
                    Method::Post,
                    api_url("/domains"@),
                    Some("{\"name\":"@ + quoted(n) + ",\"region\":"@ + quoted(region) + "}"@),
                ),
                rs,
                |r: Json| new_domain_text(n, region, r),
            )
        },
    }
    } else if name == "resend_verify_domain"@ {
    match args.at("domain_id"@).str_of() {
        None => fail_view(required_text("domain_id"@)),
        Some(id) => one_call(
            send_view(Method::Post, api_url("/domains/"@ + id + "/verify"@), Some("{}"@)),
            rs,
            |r: Json|
                "Vérification déclenchée.\nID     : "@ + str_or(r, "id"@, id) + "\nNom    : "@
                    + str_or(r, "name"@, "—"@) + "\nStatut : "@ + str_or(r, "status"@, "—"@),
        ),
    }
    } else {
    match args.at("domain_id"@).str_of() {
        None => fail_view(required_text("domain_id"@)),
        Some(id) => one_call(
            send_view(Method::Delete, api_url("/domains/"@ + id), None),
            rs,
            |r: Json|
                "Domaine "@ + str_or(r, "id"@, id) + " supprimé ("@ + str_or(
                    r,
                    "object"@,
                    "deleted"@,
                ) + ")."@,
        ),
    }
    }
}

/// `resend_send_email`.
pub open spec fn send_email_view(args: Json, rs: Seq<Json>) -> StepView {
        match args.at("from"@).str_of() {
        None => fail_view(required_text("from"@)),
        Some(from) => match args.at("to"@).str_of() {
            None => fail_view(required_text("to"@)),
            Some(to) => match args.at("subject"@).str_of() {
                None => fail_view(required_text("subject"@)),
                Some(subject) => one_call(
                    send_view(
                        Method::Post,
                        api_url("/emails"@),
                        Some(email_body(from, to, subject, args)),
                    ),
                    rs,
                    |r: Json|
                        "Email envoyé.\nID : "@ + str_or(r, "id"@, "—"@) + "\nDe : "@ + from
                            + "\nÀ  : "@ + to + "\nSujet : "@ + subject,
                ),
            },
        },
    }
}

pub open spec fn handle_view(name: Seq<char>, args: Json, rs: Seq<Json>) -> StepView {
    if name == "resend_send_email"@ {
        send_email_view(args, rs)
    } else if name == "resend_get_email"@ {
        match args.at("email_id"@).str_of() {
            None => fail_view(required_text("email_id"@)),
            Some(id) => one_call(
                send_view(Method::Get, api_url("/emails/"@ + id), None),
                rs,
                |r: Json| email_detail(id, r),
            ),
        }
    } else if name == "resend_cancel_email"@ {
        match args.at("email_id"@).str_of() {
            None => fail_view(required_text("email_id"@)),
            Some(id) => one_call(
                send_view(Method::Post, api_url("/emails/"@ + id + "/cancel"@), Some("{}"@)),
                rs,
                |r: Json|
                    "Email "@ + str_or(r, "id"@, id) + " annulé. Statut : "@ + str_or(
                        r,
                        "object"@,
                        "cancelled"@,
                    ),
            ),
        }
    } else if name == "resend_list_domains"@ {
        one_call(
            send_view(Method::Get, api_url("/domains"@), None),
            rs,
            |r: Json| listing(Listed::Domain, r, " domaine(s) :\n"@, "Aucun domaine configuré."@),
        )
    } else if name == "resend_get_domain"@ || name == "resend_create_domain"@ || name
        == "resend_verify_domain"@ || name == "resend_delete_domain"@ {
        domain_view(name, args, rs)
    } else if name == "resend_list_api_keys"@ {
        one_call(
            send_view(Method::Get, api_url("/api-keys"@), None),
            rs,
            |r: Json| listing(Listed::ApiKey, r, " clé(s) API :\n"@, "Aucune clé API."@),
        )
    } else if name == "resend_create_api_key"@ {
        match args.at("name"@).str_of() {
            None => fail_view(required_text("name"@)),
            Some(n) => {
                let permission = str_or(args, "permission"@, "full_access"@);
                one_call(
                    send_view(
                        Method::Post,
                        api_url("/api-keys"@),
                        Some("{\"name\":"@ + quoted(n) + ",\"permission\":"@ + quoted(permission) + "}"@),
                    ),
                    rs,
                    |r: Json|
                        "Clé API créée.\nID         : "@ + str_or(r, "id"@, "—"@) + "\nNom        : "@ + n
                            + "\nPermission : "@ + permission + "\nToken      : "@ + str_or(
                            r,
                            "token"@,
                            "—"@,
                        ) + "\n\n⚠️  Sauvegardez ce token maintenant, il ne sera plus affiché."@,
                )
            },
        }
    } else if name == "resend_delete_api_key"@ {
        match args.at("api_key_id"@).str_of() {
            None => fail_view(required_text("api_key_id"@)),
            Some(id) => if rs.len() == 0 {
                best_effort_view(Method::Delete, api_url("/api-keys/"@ + id))
            } else {
                ok_view("Clé API "@ + id + " révoquée et supprimée."@)
            },
        }
    } else if name == "resend_list_audiences"@ {
        one_call(
            send_view(Method::Get, api_url("/audiences"@), None),
            rs,
            |r: Json| listing(Listed::Audience, r, " audience(s) :\n"@, "Aucune audience."@),
        )
    } else if name == "resend_create_audience"@ {
        match args.at("name"@).str_of() {
            None => fail_view(required_text("name"@)),
            Some(n) => one_call(
                send_view(Method::Post, api_url("/audiences"@), Some("{\"name\":"@ + quoted(n) + "}"@)),
                rs,
                |r: Json| "Audience créée.\nID  : "@ + str_or(r, "id"@, "—"@) + "\nNom : "@ + n,
            ),
        }
    } else if name == "resend_delete_audience"@ {
        match args.at("audience_id"@).str_of() {
            None => fail_view(required_text("audience_id"@)),
            Some(id) => one_call(
                send_view(Method::Delete, api_url("/audiences/"@ + id), None),
                rs,
                |r: Json|
                    "Audience "@ + str_or(r, "id"@, id) + " supprimée ("@ + str_or(
                        r,
                        "object"@,
                        "deleted"@,
                    ) + ")."@,
            ),
        }
    } else {
        fail_view("Tool Resend inconnu : "@ + name)
    }
}

fn get_step(cfg: &ResendConfig, path: &str) -> (s: Step)
    ensures
        s@ == send_view(Method::Get, api_url(path@), None),
{
    send(Method::Get, cfg.api(path), None)
}

fn post_step(cfg: &ResendConfig, path: &str, body: String) -> (s: Step)
    ensures
        s@ == send_view(Method::Post, api_url(path@), Some(body@)),
{
    send(Method::Post, cfg.api(path), Some(body))
}

fn ok_text(t: String) -> (s: Step)
    ensures
        s@ == ok_view(t@),
{
    Step::Done(Ok(t))
}

fn send_email(cfg: &ResendConfig, args: &Json, rs: &Vec<Json>) -> (s: Step)
    ensures
        s@ == send_email_view(*args, rs@),
{
    let from = match get_str(args, "from") {
        None => return required("from"),
        Some(x) => x,
    };
    let to = match get_str(args, "to") {
        None => return required("to"),
        Some(x) => x,
    };
    let subject = match get_str(args, "subject") {
        None => return required("subject"),
        Some(x) => x,
    };
    if rs.len() == 0 {
        let mut body = owned("{\"from\":");
        push_quoted(&mut body, from);
        push_opt_member(&mut body, "html", get_str(args, "html"));
        push_str(&mut body, ",\"subject\":");
        push_quoted(&mut body, subject);
        push_opt_member(&mut body, "text", get_str(args, "text"));
        push_str(&mut body, ",\"to\":[");
        push_quoted(&mut body, to);
        push_str(&mut body, "]}");
        return post_step(cfg, "/emails", body);
    }
    let mut out = owned("Email envoyé.\nID : ");
    push_str(&mut out, get_str_or(&rs[0], "id", "—"));
    push_str(&mut out, "\nDe : ");
    push_str(&mut out, from);
    push_str(&mut out, "\nÀ  : ");
    push_str(&mut out, to);
    push_str(&mut out, "\nSujet : ");
    push_str(&mut out, subject);
    ok_text(out)
}

fn domain_tools(cfg: &ResendConfig, name: &str, args: &Json, rs: &Vec<Json>) -> (s: Step)
    ensures
        s@ == domain_view(name@, *args, rs@),
{
    if str_eq(name, "resend_get_domain") {
        let id = match get_str(args, "domain_id") {
            None => return required("domain_id"),
            Some(x) => x,
        };
        if rs.len() == 0 {
            return get_step(cfg, concat("/domains/", id).as_str());
        }
        let r = &rs[0];
        let mut out = owned("Domaine ");
        push_str(&mut out, id);
        push_str(&mut out, "\nNom    : ");
        push_str(&mut out, get_str_or(r, "name", "—"));
        push_str(&mut out, "\nStatut : ");
        push_str(&mut out, get_str_or(r, "status", "—"));
        push_str(&mut out, "\nRégion : ");
        push_str(&mut out, get_str_or(r, "region", "—"));
        push_str(&mut out, "\nCréé   : ");
        push_str(&mut out, get_str_or(r, "created_at", "—"));
        push_str(&mut out, "\n");
        push_records(&mut out, Listed::Record, r, "\nEnregistrements DNS :\n");
        ok_text(trim_end_ws(out.as_str()))
    } else if str_eq(name, "resend_create_domain") {
        let n = match get_str(args, "name") {
            None => return required("name"),
            Some(x) => x,
        };
        let region = get_str_or(args, "region", "us-east-1");
        if rs.len() == 0 {
            let mut body = owned("{\"name\":");
            push_quoted(&mut body, n);
            push_str(&mut body, ",\"region\":");
            push_quoted(&mut body, region);
            push_str(&mut body, "}");
            return post_step(cfg, "/domains", body);
        }
        let r = &rs[0];
        let mut out = owned("Domaine créé.\nID     : ");
        push_str(&mut out, get_str_or(r, "id", "—"));
        push_str(&mut out, "\nNom    : ");
        push_str(&mut out, n);
        push_str(&mut out, "\nRégion : ");
        push_str(&mut out, region);
        push_str(&mut out, "\nStatut : ");
        push_str(&mut out, get_str_or(r, "status", "—"));
        push_str(&mut out, "\n");
        push_records(&mut out, Listed::NewRecord, r, "\nEnregistrements DNS à configurer :\n");
        ok_text(trim_end_ws(out.as_str()))
    } else {
        let id = match get_str(args, "domain_id") {
            None => return required("domain_id"),
            Some(x) => x,
        };
        let path = concat("/domains/", id);
        if str_eq(name, "resend_verify_domain") {
            if rs.len() == 0 {
                let mut p = path;
                push_str(&mut p, "/verify");
                return post_step(cfg, p.as_str(), owned("{}"));
            }
            let r = &rs[0];
            let mut out = owned("Vérification déclenchée.\nID     : ");
            push_str(&mut out, get_str_or(r, "id", id));
            push_str(&mut out, "\nNom    : ");
            push_str(&mut out, get_str_or(r, "name", "—"));
            push_str(&mut out, "\nStatut : ");
            push_str(&mut out, get_str_or(r, "status", "—"));
            ok_text(out)
        } else {
            if rs.len() == 0 {
                return send(Method::Delete, cfg.api(path.as_str()), None);
            }
            let r = &rs[0];
            let mut out = owned("Domaine ");
            push_str(&mut out, get_str_or(r, "id", id));
            push_str(&mut out, " supprimé (");
            push_str(&mut out, get_str_or(r, "object", "deleted"));
            push_str(&mut out, ").");
            ok_text(out)
        }
    }
}

/// Runs one step of the Resend tool `name` called with `args`: `responses` holds the parsed
/// responses to the requests made so far (each tool makes one).
pub fn handle(cfg: &ResendConfig, name: &str, args: &Json, responses: &Vec<Json>) -> (s: Step)
    ensures
        s@ == handle_view(name@, *args, responses@),
{
    let rs = responses;
    let first = rs.len() == 0;
    if str_eq(name, "resend_send_email") {
        send_email(cfg, args, rs)
    } else if str_eq(name, "resend_get_email") {
        match get_str(args, "email_id") {
            None => required("email_id"),
            Some(id) => if first {
                get_step(cfg, concat("/emails/", id).as_str())
            } else {
                let r = &rs[0];
                let mut out = owned("Email ");
                push_str(&mut out, id);
                push_str(&mut out, "\nDe      : ");
                push_str(&mut out, get_str_or(r, "from", "—"));
                push_str(&mut out, "\nÀ       : ");
                push_str(&mut out, get_recipients(r).as_str());
                push_str(&mut out, "\nSujet   : ");
                push_str(&mut out, get_str_or(r, "subject", "—"));
                push_str(&mut out, "\nStatut  : ");
                push_str(&mut out, get_str_or(r, "last_event", "—"));
                push_str(&mut out, "\nCréé le : ");
                push_str(&mut out, get_str_or(r, "created_at", "—"));
                ok_text(out)
            },
        }
    } else if str_eq(name, "resend_cancel_email") {
        match get_str(args, "email_id") {
            None => required("email_id"),
            Some(id) => if first {
                let mut p = concat("/emails/", id);
                push_str(&mut p, "/cancel");
                post_step(cfg, p.as_str(), owned("{}"))
            } else {
                let mut out = owned("Email ");
                push_str(&mut out, get_str_or(&rs[0], "id", id));
                push_str(&mut out, " annulé. Statut : ");
                push_str(&mut out, get_str_or(&rs[0], "object", "cancelled"));
                ok_text(out)
            },
        }
    } else if str_eq(name, "resend_list_domains") {
        if first {
            get_step(cfg, "/domains")
        } else {
            ok_text(listing_exec(Listed::Domain, &rs[0], " domaine(s) :\n", "Aucun domaine configuré."))
        }
    } else if str_eq(name, "resend_get_domain") || str_eq(name, "resend_create_domain") || str_eq(
        name,
        "resend_verify_domain",
    ) || str_eq(name, "resend_delete_domain") {
        domain_tools(cfg, name, args, rs)
    } else if str_eq(name, "resend_list_api_keys") {
        if first {
            get_step(cfg, "/api-keys")
        } else {
            ok_text(listing_exec(Listed::ApiKey, &rs[0], " clé(s) API :\n", "Aucune clé API."))
        }
    } else if str_eq(name, "resend_create_api_key") {
        match get_str(args, "name") {
            None => required("name"),
            Some(n) => {
                let permission = get_str_or(args, "permission", "full_access");
                if first {
                    let mut body = owned("{\"name\":");
                    push_quoted(&mut body, n);
                    push_str(&mut body, ",\"permission\":");
                    push_quoted(&mut body, permission);
                    push_str(&mut body, "}");
                    post_step(cfg, "/api-keys", body)
                } else {
                    let mut out = owned("Clé API créée.\nID         : ");
                    push_str(&mut out, get_str_or(&rs[0], "id", "—"));
                    push_str(&mut out, "\nNom        : ");
                    push_str(&mut out, n);
                    push_str(&mut out, "\nPermission : ");
                    push_str(&mut out, permission);
                    push_str(&mut out, "\nToken      : ");
                    push_str(&mut out, get_str_or(&rs[0], "token", "—"));
                    push_str(
                        &mut out,
                        "\n\n⚠️  Sauvegardez ce token maintenant, il ne sera plus affiché.",
                    );
                    ok_text(out)
                }
            },
        }
    } else if str_eq(name, "resend_delete_api_key") {
        match get_str(args, "api_key_id") {
            None => required("api_key_id"),
            Some(id) => if first {
                send_best_effort(Method::Delete, cfg.api(concat("/api-keys/", id).as_str()))
            } else {
                let mut out = owned("Clé API ");
                push_str(&mut out, id);
                push_str(&mut out, " révoquée et supprimée.");
                ok_text(out)
            },
        }
    } else if str_eq(name, "resend_list_audiences") {
        if first {
            get_step(cfg, "/audiences")
        } else {
            ok_text(listing_exec(Listed::Audience, &rs[0], " audience(s) :\n", "Aucune audience."))
        }
    } else if str_eq(name, "resend_create_audience") {
        match get_str(args, "name") {
            None => required("name"),
            Some(n) => if first {
                let mut body = owned("{\"name\":");
                push_quoted(&mut body, n);
                push_str(&mut body, "}");
                post_step(cfg, "/audiences", body)
            } else {
                let mut out = owned("Audience créée.\nID  : ");
                push_str(&mut out, get_str_or(&rs[0], "id", "—"));
                push_str(&mut out, "\nNom : ");
                push_str(&mut out, n);
                ok_text(out)
            },
        }
    } else if str_eq(name, "resend_delete_audience") {
        match get_str(args, "audience_id") {
            None => required("audience_id"),
            Some(id) => if first {
                send(Method::Delete, cfg.api(concat("/audiences/", id).as_str()), None)
            } else {
                let mut out = owned("Audience ");
                push_str(&mut out, get_str_or(&rs[0], "id", id));
                push_str(&mut out, " supprimée (");
                push_str(&mut out, get_str_or(&rs[0], "object", "deleted"));
                push_str(&mut out, ").");
                ok_text(out)
            },
        }
    } else {
        Step::Done(Err(concat("Tool Resend inconnu : ", name)))
    }
}

/// Every Resend tool makes at most one request: once its response is in, the call has its
/// outcome, and the revocation of an API key succeeds whatever its request gave.
pub proof fn lemma_handle_ends(name: Seq<char>, args: Json, rs: Seq<Json>)
    requires
        rs.len() >= 1,
    ensures
        handle_view(name, args, rs) is Done,
        name == "resend_delete_api_key"@ && args.at("api_key_id"@).str_of() is Some ==> handle_view(
            name,
            args,
            rs,
        ) is Done && handle_view(name, args, rs)->Done_0 is Ok,
{
    reveal_strlit("resend_delete_api_key");
    reveal_strlit("resend_send_email");
    reveal_strlit("resend_get_email");
    reveal_strlit("resend_cancel_email");
    reveal_strlit("resend_list_domains");
    reveal_strlit("resend_get_domain");
    reveal_strlit("resend_create_domain");
    reveal_strlit("resend_verify_domain");
    reveal_strlit("resend_delete_domain");
    reveal_strlit("resend_list_api_keys");
    reveal_strlit("resend_create_api_key");
    assert("resend_delete_api_key"@[7] != "resend_create_api_key"@[7]);
}

/// The Resend tools offered to MCP clients: name, description and input schema of each, as a
/// The catalog's tools, in its order: for each, the JSON text of its members before its name
/// (its description and input schema).
pub const TOOL_HEADS: [&'static str; 14] = [
    r#"{"description":"RESEND 📧 — Envoie un email transactionnel via Resend. Supporte le HTML et/ou le texte brut. Retourne l'id de l'email envoyé.","inputSchema":{"properties":{"from":{"description":"Adresse expéditeur (ex: hello@example.com ou 'Name <hello@example.com>')","type":"string"},"html":{"description":"Corps HTML de l'email (optionnel)","type":"string"},"subject":{"description":"Sujet de l'email","type":"string"},"text":{"description":"Corps texte brut de l'email (optionnel)","type":"string"},"to":{"description":"Adresse destinataire (ex: user@example.com)","type":"string"}},"required":["from","to","subject"],"type":"object"},"name":"#,
    r#"{"description":"RESEND 📧 — Récupère le détail d'un email envoyé via Resend : statut de livraison, destinataire, sujet, date. Utiliser resend_send_email pour obtenir l'email_id.","inputSchema":{"properties":{"email_id":{"description":"ID de l'email (ex: 49a3999c-0ce1-4ea6-ab68-e08835cf401e)","type":"string"}},"required":["email_id"],"type":"object"},"name":"#,
    r#"{"description":"RESEND 📧 — Annule un email schedulé qui n'a pas encore été envoyé. Retourne le statut de l'annulation.","inputSchema":{"properties":{"email_id":{"description":"ID de l'email à annuler","type":"string"}},"required":["email_id"],"type":"object"},"name":"#,
    r#"{"description":"RESEND 📧 — Liste tous les domaines configurés dans le compte Resend avec leur statut de vérification.","inputSchema":{"properties":{},"type":"object"},"name":"#,
    r#"{"description":"RESEND 📧 — Récupère les détails complets d'un domaine Resend : statut, enregistrements DNS à configurer, région. Utiliser resend_list_domains pour obtenir le domain_id.","inputSchema":{"properties":{"domain_id":{"description":"ID du domaine","type":"string"}},"required":["domain_id"],"type":"object"},"name":"#,
    r#"{"description":"RESEND 📧 — Ajoute un nouveau domaine d'envoi dans Resend. Retourne les enregistrements DNS à configurer pour la vérification.","inputSchema":{"properties":{"name":{"description":"Nom de domaine (ex: example.com)","type":"string"},"region":{"default":"us-east-1","description":"Région d'envoi : us-east-1, eu-west-1, sa-east-1 (défaut: us-east-1)","type":"string"}},"required":["name"],"type":"object"},"name":"#,
    r#"{"description":"RESEND 📧 — Déclenche la vérification DNS d'un domaine Resend. À utiliser après avoir configuré les enregistrements DNS.","inputSchema":{"properties":{"domain_id":{"description":"ID du domaine à vérifier","type":"string"}},"required":["domain_id"],"type":"object"},"name":"#,
    r#"{"description":"RESEND 📧 — Supprime définitivement un domaine du compte Resend. Action irréversible.","inputSchema":{"properties":{"domain_id":{"description":"ID du domaine à supprimer","type":"string"}},"required":["domain_id"],"type":"object"},"name":"#,
    r#"{"description":"RESEND 📧 — Liste toutes les clés API du compte Resend avec leur nom, permission et date de création.","inputSchema":{"properties":{},"type":"object"},"name":"#,
    r#"{"description":"RESEND 📧 — Crée une nouvelle clé API Resend. Attention : la clé secrète n'est visible qu'à la création. Retourne la clé générée.","inputSchema":{"properties":{"name":{"description":"Nom de la clé API","type":"string"},"permission":{"description":"Permission : full_access ou sending_access (défaut: full_access)","enum":["full_access","sending_access"],"type":"string"}},"required":["name"],"type":"object"},"name":"#,
    r#"{"description":"RESEND 📧 — Révoque et supprime définitivement une clé API Resend. Action irréversible.","inputSchema":{"properties":{"api_key_id":{"description":"ID de la clé API à supprimer","type":"string"}},"required":["api_key_id"],"type":"object"},"name":"#,
    r#"{"description":"RESEND 📧 — Liste toutes les audiences (listes de contacts) du compte Resend avec leur nom et nombre de contacts.","inputSchema":{"properties":{},"type":"object"},"name":"#,
    r#"{"description":"RESEND 📧 — Crée une nouvelle audience (liste de contacts) dans Resend. Retourne l'id de l'audience créée.","inputSchema":{"properties":{"name":{"description":"Nom de l'audience","type":"string"}},"required":["name"],"type":"object"},"name":"#,
    r#"{"description":"RESEND 📧 — Supprime définitivement une audience Resend et tous ses contacts. Action irréversible.","inputSchema":{"properties":{"audience_id":{"description":"ID de l'audience à supprimer","type":"string"}},"required":["audience_id"],"type":"object"},"name":"#
];

/// The names of the catalog's tools, in its order (those of [`catalog_names`]).
pub const TOOL_NAMES: [&'static str; 14] = [
    "resend_send_email",
    "resend_get_email",
    "resend_cancel_email",
    "resend_list_domains",
    "resend_get_domain",
    "resend_create_domain",
    "resend_verify_domain",
    "resend_delete_domain",
    "resend_list_api_keys",
    "resend_create_api_key",
    "resend_delete_api_key",
    "resend_list_audiences",
    "resend_create_audience",
    "resend_delete_audience"
];

/// The Resend tools offered to MCP clients, as a JSON array: one entry per tool of
/// [`catalog_names`], in order, each with its description and input schema (from
/// [`TOOL_HEADS`]) and its name.
pub fn tools() -> (r: String)
    ensures
        r@ == catalog_text(texts(TOOL_HEADS@), catalog_names()),
{
    assert(texts(TOOL_NAMES@) =~= catalog_names());
    build_catalog(&TOOL_HEADS, &TOOL_NAMES)
}

/// The names of the tools in the catalog, in its order.
pub open spec fn catalog_names() -> Seq<Seq<char>> {
    seq![
        "resend_send_email"@,
        "resend_get_email"@,
        "resend_cancel_email"@,
        "resend_list_domains"@,
        "resend_get_domain"@,
        "resend_create_domain"@,
        "resend_verify_domain"@,
        "resend_delete_domain"@,
        "resend_list_api_keys"@,
        "resend_create_api_key"@,
        "resend_delete_api_key"@,
        "resend_list_audiences"@,
        "resend_create_audience"@,
        "resend_delete_audience"@
    ]
}

/// The names of the tools in the catalog, in its order (see [`catalog_names`]).
pub fn tool_names() -> (r: Vec<&'static str>)
    ensures
        r@.map_values(|s: &'static str| s@) == catalog_names(),
{
    let r = vec![
        "resend_send_email",
        "resend_get_email",
        "resend_cancel_email",
        "resend_list_domains",
        "resend_get_domain",
        "resend_create_domain",
        "resend_verify_domain",
        "resend_delete_domain",
        "resend_list_api_keys",
        "resend_create_api_key",
        "resend_delete_api_key",
        "resend_list_audiences",
        "resend_create_audience",
        "resend_delete_audience"
    ];
    assert(r@.map_values(|s: &'static str| s@) =~= catalog_names());
    r
}

/// A tool name that [`tools`] does not serve (one outside [`catalog_names`]) gets the
/// unknown-tool error, without a request.
pub proof fn lemma_unknown_tool(name: Seq<char>, args: Json, rs: Seq<Json>)
    requires
        !catalog_names().contains(name),
    ensures
        handle_view(name, args, rs) == fail_view("Tool Resend inconnu : "@ + name),
{
    assert(catalog_names()[0] == "resend_send_email"@);
    assert(catalog_names()[1] == "resend_get_email"@);
    assert(catalog_names()[2] == "resend_cancel_email"@);
    assert(catalog_names()[3] == "resend_list_domains"@);
    assert(catalog_names()[4] == "resend_get_domain"@);
    assert(catalog_names()[5] == "resend_create_domain"@);
    assert(catalog_names()[6] == "resend_verify_domain"@);
    assert(catalog_names()[7] == "resend_delete_domain"@);
    assert(catalog_names()[8] == "resend_list_api_keys"@);
    assert(catalog_names()[9] == "resend_create_api_key"@);
    assert(catalog_names()[10] == "resend_delete_api_key"@);
    assert(catalog_names()[11] == "resend_list_audiences"@);
    assert(catalog_names()[12] == "resend_create_audience"@);
    assert(catalog_names()[13] == "resend_delete_audience"@);
}

/// Every tool that [`tools`] serves (those of [`catalog_names`]) and that this module runs is
/// handled: its first step is never the unknown-tool error.
pub proof fn lemma_catalog_handled(name: Seq<char>, args: Json)
    requires
        catalog_names().contains(name),
    ensures
        handle_view(name, args, seq![]) != fail_view("Tool Resend inconnu : "@ + name),
{
    reveal_strlit("Paramètre '");
    reveal_strlit("Tool Resend inconnu : ");
    assert(("Tool Resend inconnu : "@ + name)[0] == 'T');
    assert(catalog_names()[0] == "resend_send_email"@);
    assert(catalog_names()[1] == "resend_get_email"@);
    assert(catalog_names()[2] == "resend_cancel_email"@);
    assert(catalog_names()[3] == "resend_list_domains"@);
    assert(catalog_names()[4] == "resend_get_domain"@);
    assert(catalog_names()[5] == "resend_create_domain"@);
    assert(catalog_names()[6] == "resend_verify_domain"@);
    assert(catalog_names()[7] == "resend_delete_domain"@);
    assert(catalog_names()[8] == "resend_list_api_keys"@);
    assert(catalog_names()[9] == "resend_create_api_key"@);
    assert(catalog_names()[10] == "resend_delete_api_key"@);
    assert(catalog_names()[11] == "resend_list_audiences"@);
    assert(catalog_names()[12] == "resend_create_audience"@);
    assert(catalog_names()[13] == "resend_delete_audience"@);
}

/// The names of each catalog tool's input properties and of those it requires, in catalog
/// order (properties by name).
pub open spec fn catalog_schemas() -> Seq<(Seq<char>, Seq<Seq<char>>, Seq<Seq<char>>)> {
    seq![
        ("resend_send_email"@, seq!["from"@, "html"@, "subject"@, "text"@, "to"@], seq!["from"@, "to"@, "subject"@]),
        ("resend_get_email"@, seq!["email_id"@], seq!["email_id"@]),
        ("resend_cancel_email"@, seq!["email_id"@], seq!["email_id"@]),
        ("resend_list_domains"@, seq![], seq![]),
        ("resend_get_domain"@, seq!["domain_id"@], seq!["domain_id"@]),
        ("resend_create_domain"@, seq!["name"@, "region"@], seq!["name"@]),
        ("resend_verify_domain"@, seq!["domain_id"@], seq!["domain_id"@]),
        ("resend_delete_domain"@, seq!["domain_id"@], seq!["domain_id"@]),
        ("resend_list_api_keys"@, seq![], seq![]),
        ("resend_create_api_key"@, seq!["name"@, "permission"@], seq!["name"@]),
        ("resend_delete_api_key"@, seq!["api_key_id"@], seq!["api_key_id"@]),
        ("resend_list_audiences"@, seq![], seq![]),
        ("resend_create_audience"@, seq!["name"@], seq!["name"@]),
        ("resend_delete_audience"@, seq!["audience_id"@], seq!["audience_id"@])
    ]
}

/// The names of each catalog tool's input properties and required inputs (see
/// [`catalog_schemas`]).
pub fn tool_schemas() -> (r: Vec<SchemaNames>)
    ensures
        r@.map_values(|e: SchemaNames| schema_view(e)) == catalog_schemas(),
{
    let r: Vec<SchemaNames> = vec![
        ("resend_send_email", vec!["from", "html", "subject", "text", "to"], vec!["from", "to", "subject"]),
        ("resend_get_email", vec!["email_id"], vec!["email_id"]),
        ("resend_cancel_email", vec!["email_id"], vec!["email_id"]),
        ("resend_list_domains", vec![], vec![]),
        ("resend_get_domain", vec!["domain_id"], vec!["domain_id"]),
        ("resend_create_domain", vec!["name", "region"], vec!["name"]),
        ("resend_verify_domain", vec!["domain_id"], vec!["domain_id"]),
        ("resend_delete_domain", vec!["domain_id"], vec!["domain_id"]),
        ("resend_list_api_keys", vec![], vec![]),
        ("resend_create_api_key", vec!["name", "permission"], vec!["name"]),
        ("resend_delete_api_key", vec!["api_key_id"], vec!["api_key_id"]),
        ("resend_list_audiences", vec![], vec![]),
        ("resend_create_audience", vec!["name"], vec!["name"]),
        ("resend_delete_audience", vec!["audience_id"], vec!["audience_id"])
    ];
    assert(r@[0].1@.map_values(|s: &'static str| s@) =~= catalog_schemas()[0].1);
    assert(r@[0].2@.map_values(|s: &'static str| s@) =~= catalog_schemas()[0].2);
    assert(r@[1].1@.map_values(|s: &'static str| s@) =~= catalog_schemas()[1].1);
    assert(r@[1].2@.map_values(|s: &'static str| s@) =~= catalog_schemas()[1].2);
    assert(r@[2].1@.map_values(|s: &'static str| s@) =~= catalog_schemas()[2].1);
    assert(r@[2].2@.map_values(|s: &'static str| s@) =~= catalog_schemas()[2].2);
    assert(r@[3].1@.map_values(|s: &'static str| s@) =~= catalog_schemas()[3].1);
    assert(r@[3].2@.map_values(|s: &'static str| s@) =~= catalog_schemas()[3].2);
    assert(r@[4].1@.map_values(|s: &'static str| s@) =~= catalog_schemas()[4].1);
    assert(r@[4].2@.map_values(|s: &'static str| s@) =~= catalog_schemas()[4].2);
    assert(r@[5].1@.map_values(|s: &'static str| s@) =~= catalog_schemas()[5].1);
    assert(r@[5].2@.map_values(|s: &'static str| s@) =~= catalog_schemas()[5].2);
    assert(r@[6].1@.map_values(|s: &'static str| s@) =~= catalog_schemas()[6].1);
    assert(r@[6].2@.map_values(|s: &'static str| s@) =~= catalog_schemas()[6].2);
    assert(r@[7].1@.map_values(|s: &'static str| s@) =~= catalog_schemas()[7].1);
    assert(r@[7].2@.map_values(|s: &'static str| s@) =~= catalog_schemas()[7].2);
    assert(r@[8].1@.map_values(|s: &'static str| s@) =~= catalog_schemas()[8].1);
    assert(r@[8].2@.map_values(|s: &'static str| s@) =~= catalog_schemas()[8].2);
    assert(r@[9].1@.map_values(|s: &'static str| s@) =~= catalog_schemas()[9].1);
    assert(r@[9].2@.map_values(|s: &'static str| s@) =~= catalog_schemas()[9].2);
    assert(r@[10].1@.map_values(|s: &'static str| s@) =~= catalog_schemas()[10].1);
    assert(r@[10].2@.map_values(|s: &'static str| s@) =~= catalog_schemas()[10].2);
    assert(r@[11].1@.map_values(|s: &'static str| s@) =~= catalog_schemas()[11].1);
    assert(r@[11].2@.map_values(|s: &'static str| s@) =~= catalog_schemas()[11].2);
    assert(r@[12].1@.map_values(|s: &'static str| s@) =~= catalog_schemas()[12].1);
    assert(r@[12].2@.map_values(|s: &'static str| s@) =~= catalog_schemas()[12].2);
    assert(r@[13].1@.map_values(|s: &'static str| s@) =~= catalog_schemas()[13].1);
    assert(r@[13].2@.map_values(|s: &'static str| s@) =~= catalog_schemas()[13].2);
    assert(r@.map_values(|e: SchemaNames| schema_view(e)) =~= catalog_schemas());
    r
}

/// Every tool of the catalog requires only inputs that are among its properties.
pub proof fn lemma_required_are_properties(i: int)
    requires
        0 <= i < catalog_schemas().len(),
    ensures
        requires_properties(catalog_schemas()[i]),
{
    if i == 0 {
        assert(catalog_schemas()[0].1[0] == catalog_schemas()[0].2[0]);
        assert(catalog_schemas()[0].1[4] == catalog_schemas()[0].2[1]);
        assert(catalog_schemas()[0].1[2] == catalog_schemas()[0].2[2]);
    }
    if i == 1 {
        assert(catalog_schemas()[1].1[0] == catalog_schemas()[1].2[0]);
    }
    if i == 2 {
        assert(catalog_schemas()[2].1[0] == catalog_schemas()[2].2[0]);
    }
    if i == 4 {
        assert(catalog_schemas()[4].1[0] == catalog_schemas()[4].2[0]);
    }
    if i == 5 {
        assert(catalog_schemas()[5].1[0] == catalog_schemas()[5].2[0]);
    }
    if i == 6 {
        assert(catalog_schemas()[6].1[0] == catalog_schemas()[6].2[0]);
    }
    if i == 7 {
        assert(catalog_schemas()[7].1[0] == catalog_schemas()[7].2[0]);
    }
    if i == 9 {
        assert(catalog_schemas()[9].1[0] == catalog_schemas()[9].2[0]);
    }
    if i == 10 {
        assert(catalog_schemas()[10].1[0] == catalog_schemas()[10].2[0]);
    }
    if i == 12 {
        assert(catalog_schemas()[12].1[0] == catalog_schemas()[12].2[0]);
    }
    if i == 13 {
        assert(catalog_schemas()[13].1[0] == catalog_schemas()[13].2[0]);
    }
}

/// `resend_send_email` posts to `/emails` a body whose sender is the `from` argument, whose
/// subject is the `subject` argument and whose one recipient is the `to` argument, with the
/// `html` and `text` arguments when given.
pub proof fn lemma_send_email_request(args: Json, from: Seq<char>, to: Seq<char>, subject: Seq<char>)
    requires
        args.at("from"@).str_of() == Some(from),
        args.at("to"@).str_of() == Some(to),
        args.at("subject"@).str_of() == Some(subject),
    ensures
        handle_view("resend_send_email"@, args, seq![]) == send_view(
            Method::Post,
            "https://api.resend.com/emails"@,
            Some(
                "{\"from\":"@ + quoted(from) + match args.at("html"@).str_of() {
                    Some(h) => ","@ + quoted("html"@) + ":"@ + quoted(h),
                    None => seq![],
                } + ",\"subject\":"@ + quoted(subject) + match args.at("text"@).str_of() {
                    Some(t) => ","@ + quoted("text"@) + ":"@ + quoted(t),
                    None => seq![],
                } + ",\"to\":["@ + quoted(to) + "]}"@,
            ),
        ),
{
    reveal_strlit("/emails");
    reveal_strlit("emails");
    reveal_strlit("https://api.resend.com/");
    reveal_strlit("https://api.resend.com/emails");
    assert("/emails"@[0] == '/');
    assert("/emails"@.drop_first() =~= "emails"@);
    assert("emails"@[0] == 'e');
    assert(trim_start_spec("/emails"@, '/') == trim_start_spec("emails"@, '/'));
    assert(trim_start_spec("emails"@, '/') == "emails"@);
    assert(api_url("/emails"@) =~= "https://api.resend.com/emails"@);
}

} // verus!
