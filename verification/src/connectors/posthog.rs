//! PostHog connector (analytics and feature flags REST API).
use vstd::prelude::*;
use crate::connectors::catalog::{build_catalog, catalog_text, requires_properties, schema_view, texts, SchemaNames};
use vstd::string::StringSliceAdditionalSpecFns;
use crate::encoding::{encode_bytes, is_url_safe, percent_encode};
use vstd::utf8::encode_utf8;
use crate::fmt::{get_nested_str_or, get_str_or, join_spec, join_strs, str_or, views};
use crate::http::{fail_view, ok_view, send, send_status, send_view, status_view, Method, Step, StepView};
use crate::json::{get_array, get_bool, get_i64, get_str, json_text, push_quoted, quoted, to_json_string, write_json, Json};
use crate::text::{
    dec_int, dec_nat, i64_to_string, owned, push_chars, push_i64, push_str, push_u64, str_chars,
    str_eq, trim_end_char, trim_end_spec,
};

verus! {

/// PostHog credentials (`~/.osmozzz/posthog.toml`); `host` defaults to [`default_host`].
pub struct PosthogConfig {
    pub api_key: String,
    pub project_id: String,
    pub host: String,
}

/// The host used when the configuration names none.
pub fn default_host() -> (r: String)
    ensures
        r@ == "https://us.posthog.com"@,
{
    owned("https://us.posthog.com")
}

impl PosthogConfig {
    /// URL of a project-scoped endpoint: `path` is appended as given.
    pub fn project_api(&self, path: &str) -> (r: String)
        ensures
            r@ == trim_end_spec(self.host@, '/') + "/api/projects/"@ + self.project_id@ + path@,
    {
        let mut out = String::new();
        push_chars(&mut out, &trim_end_char(&str_chars(self.host.as_str()), '/'));
        push_str(&mut out, "/api/projects/");
        push_str(&mut out, self.project_id.as_str());
        push_str(&mut out, path);
        assert(Seq::<char>::empty() + trim_end_spec(self.host@, '/') == trim_end_spec(self.host@, '/'));
        out
    }

    /// URL of a global endpoint: `path` is appended as given.
    pub fn global_api(&self, path: &str) -> (r: String)
        ensures
            r@ == trim_end_spec(self.host@, '/') + path@,
    {
        let mut out = String::new();
        push_chars(&mut out, &trim_end_char(&str_chars(self.host.as_str()), '/'));
        push_str(&mut out, path);
        assert(Seq::<char>::empty() + trim_end_spec(self.host@, '/') == trim_end_spec(self.host@, '/'));
        out
    }
}

/// Percent-encodes a query value byte by byte, keeping only unreserved characters.
pub fn urlenc(s: &str) -> (r: String)
    ensures
        r@ == encode_bytes(s.spec_bytes(), false),
        forall|i: int| 0 <= i < r@.len() ==> is_url_safe(#[trigger] r@[i]),
{
    percent_encode(s, false)
}


// ─── Tool calls ──────────────────────────────────────────────────────────────

/// The URL of a project-scoped endpoint (see [`PosthogConfig::project_api`]).
pub open spec fn project_url(cfg: PosthogConfig, path: Seq<char>) -> Seq<char> {
    trim_end_spec(cfg.host@, '/') + "/api/projects/"@ + cfg.project_id@ + path
}

/// A tool that makes one request: the request, then the outcome rendered from its response.
pub open spec fn one_call(req: StepView, rs: Seq<Json>, done: spec_fn(Json) -> StepView) -> StepView {
    if rs.len() == 0 {
        req
    } else {
        done(rs[0])
    }
}

/// An authenticated `GET` of a project-scoped endpoint.
pub open spec fn project_get(cfg: PosthogConfig, path: Seq<char>) -> StepView {
    send_view(Method::Get, project_url(cfg, path), None)
}

fn project_get_step(cfg: &PosthogConfig, path: &str) -> (s: Step)
    ensures
        s@ == project_get(*cfg, path@),
{
    send(Method::Get, cfg.project_api(path), None)
}

fn fail(e: &str) -> (s: Step)
    ensures
        s@ == fail_view(e@),
{
    Step::Done(Err(owned(e)))
}

fn ok_text(t: String) -> (s: Step)
    ensures
        s@ == ok_view(t@),
{
    Step::Done(Ok(t))
}

fn concat(a: &str, b: &str) -> (r: String)
    ensures
        r@ == a@ + b@,
{
    let mut r = owned(a);
    push_str(&mut r, b);
    r
}

/// The decimal text of integer member `key`, `?` when it is not one.
pub open spec fn int_text(j: Json, key: Seq<char>) -> Seq<char> {
    match j.at(key).i64_of() {
        Some(n) => dec_int(n as int),
        None => "?"@,
    }
}

fn get_int_text(j: &Json, key: &str) -> (r: String)
    ensures
        r@ == int_text(*j, key@),
{
    match get_i64(j, key) {
        Some(n) => i64_to_string(n),
        None => owned("?"),
    }
}

/// Integer member `key`, `d` when it is not one.
pub open spec fn int_or(j: Json, key: Seq<char>, d: int) -> int {
    match j.at(key).i64_of() {
        Some(n) => n as int,
        None => d,
    }
}

fn get_int_or(j: &Json, key: &str, d: i64) -> (n: i64)
    ensures
        n as int == int_or(*j, key@, d as int),
{
    match get_i64(j, key) {
        Some(n) => n,
        None => d,
    }
}

/// The text of member `k0`, else of member `k1`, else `?`.
pub open spec fn id_or_uuid(j: Json) -> Seq<char> {
    match j.at("id"@).str_of() {
        Some(s) => s,
        None => str_or(j, "uuid"@, "?"@),
    }
}

fn get_id_or_uuid(j: &Json) -> (r: &str)
    ensures
        r@ == id_or_uuid(*j),
{
    match get_str(j, "id") {
        Some(s) => s,
        None => get_str_or(j, "uuid", "?"),
    }
}

/// The rollout of the first release group of a flag, as `N%`, else `?`.
pub open spec fn rollout_text(f: Json) -> Seq<char> {
    match f.at("filters"@).at("groups"@).array_of() {
        Some(g) => if g.len() > 0 {
            match g[0].at("rollout_percentage"@).i64_of() {
                Some(p) => dec_int(p as int) + "%"@,
                None => "?"@,
            }
        } else {
            "?"@
        },
        None => "?"@,
    }
}

fn get_rollout(f: &Json) -> (r: String)
    ensures
        r@ == rollout_text(*f),
{
    let groups = match f.get("filters") {
        Some(x) => get_array(x, "groups"),
        None => None,
    };
    match groups {
        Some(g) => if g.len() > 0 {
            match get_i64(&g[0], "rollout_percentage") {
                Some(p) => {
                    let mut r = i64_to_string(p);
                    push_str(&mut r, "%");
                    r
                },
                None => owned("?"),
            }
        } else {
            owned("?")
        },
        None => owned("?"),
    }
}

/// The string items of `items`, in order.
pub open spec fn strings_of(items: Seq<Json>) -> Seq<Seq<char>>
    decreases items.len(),
{
    if items.len() == 0 {
        seq![]
    } else {
        match items.last().str_of() {
            Some(s) => strings_of(items.drop_last()).push(s),
            None => strings_of(items.drop_last()),
        }
    }
}

fn collect_strings<'a>(items: &'a Vec<Json>) -> (r: Vec<&'a str>)
    ensures
        views(r@) == strings_of(items@),
{
    let mut parts: Vec<&str> = Vec::new();
    let n = items.len();
    for i in 0..n
        invariant
            n == items@.len(),
            views(parts@) == strings_of(items@.take(i as int)),
    {
        assert(items@.take(i + 1).drop_last() == items@.take(i as int));
        assert(items@.take(i + 1).last() == items@[i as int]);
        match items[i].as_str() {
            Some(s) => {
                parts.push(s);
                assert(views(parts@) == views(parts@.drop_last()).push(s@));
            },
            None => {},
        }
    }
    assert(items@.take(n as int) == items@);
    parts
}

/// The distinct ids of a person joined by `, ` (the first two when `capped`), empty when it
/// has none.
pub open spec fn ids_text(p: Json, capped: bool) -> Seq<char> {
    match p.at("distinct_ids"@).array_of() {
        Some(a) => {
            let s = strings_of(a);
            join_spec(if capped && s.len() > 2 { s.take(2) } else { s }, ", "@)
        },
        None => seq![],
    }
}

fn get_ids(p: &Json, capped: bool) -> (r: String)
    ensures
        r@ == ids_text(*p, capped),
{
    match get_array(p, "distinct_ids") {
        Some(a) => {
            let all = collect_strings(a);
            if capped && all.len() > 2 {
                let mut two: Vec<&str> = Vec::new();
                two.push(all[0]);
                two.push(all[1]);
                assert(views(two@) == views(all@).take(2));
                join_strs(&two, ", ")
            } else {
                join_strs(&all, ", ")
            }
        },
        None => String::new(),
    }
}

/// The kinds of listed items.
#[derive(Clone, Copy)]
pub enum Listed {
    Event,
    EventDefinition,
    Person,
    FoundPerson,
    Flag,
    Insight,
    Cohort,
    Dashboard,
    Project,
}

/// `text` preceded by `sep` when it is not empty.
pub open spec fn when_some(sep: Seq<char>, text: Seq<char>) -> Seq<char> {
    if text.len() > 0 {
        sep + text
    } else {
        seq![]
    }
}

/// One listed item, with its line break.
pub open spec fn item_text(kind: Listed, j: Json) -> Seq<char> {
    match kind {
        Listed::Event => "• ["@ + id_or_uuid(j) + "] "@ + str_or(j, "event"@, "?"@) + " | user: "@
            + str_or(j, "distinct_id"@, "?"@) + " | "@ + str_or(j, "timestamp"@, "?"@) + "\n"@,
        Listed::EventDefinition => "• "@ + str_or(j, "name"@, "?"@) + " | uses (30d): "@ + dec_int(
            int_or(j, "query_usage_30_day"@, 0),
        ) + " | last seen: "@ + str_or(j, "last_seen_at"@, "?"@) + "\n"@,
        Listed::Person => "• ["@ + id_or_uuid(j) + "] "@ + str_or(j, "name"@, "(unnamed)"@) + when_some(
            " — "@,
            str_or(j.at("properties"@), "email"@, ""@),
        ) + when_some(" | ids: "@, ids_text(j, true)) + "\n"@,
        Listed::FoundPerson => "• ["@ + id_or_uuid(j) + "] "@ + str_or(j, "name"@, "(unnamed)"@)
            + when_some(" — "@, str_or(j.at("properties"@), "email"@, ""@)) + "\n"@,
        Listed::Flag => "• ["@ + int_text(j, "id"@) + "] "@ + str_or(j, "key"@, "?"@) + " ("@ + str_or(
            j,
            "name"@,
            "(unnamed)"@,
        ) + ") — "@ + (if flag(j, "active"@) {
            "ENABLED"@
        } else {
            "DISABLED"@
        }) + " | rollout: "@ + rollout_text(j) + "\n"@,
        Listed::Insight => "• ["@ + int_text(j, "id"@) + "] "@ + str_or(j, "name"@, "(unnamed)"@)
            + " | type: "@ + str_or(j.at("filters"@), "insight"@, "?"@) + " | last refresh: "@ + str_or(
            j,
            "last_refresh"@,
            "(never)"@,
        ) + "\n"@,
        Listed::Cohort => "• ["@ + int_text(j, "id"@) + "] "@ + str_or(j, "name"@, "(unnamed)"@) + " | "@
            + dec_int(int_or(j, "count"@, 0)) + " persons | last calc: "@ + str_or(
            j,
            "last_calculation"@,
            "(never)"@,
        ) + "\n"@,
        Listed::Dashboard => "• ["@ + int_text(j, "id"@) + "] "@ + str_or(j, "name"@, "(unnamed)"@)
            + " | created: "@ + str_or(j, "created_at"@, "?"@) + when_some(
            " | "@,
            str_or(j, "description"@, ""@),
        ) + "\n"@,
        Listed::Project => "• ["@ + int_text(j, "id"@) + "] "@ + str_or(j, "name"@, "(unnamed)"@)
            + " | created: "@ + str_or(j, "created_at"@, "?"@) + "\n"@,
    }
}

/// Member `key` of `j` as a boolean, `false` when it is not one.
pub open spec fn flag(j: Json, key: Seq<char>) -> bool {
    match j.at(key).bool_of() {
        Some(b) => b,
        None => false,
    }
}

fn push_when_some(out: &mut String, sep: &str, text: &str)
    ensures
        final(out)@ == old(out)@ + when_some(sep@, text@),
{
    if !text.is_empty() {
        push_str(out, sep);
        push_str(out, text);
    }
}

fn person_item(j: &Json, found: bool) -> (r: String)
    ensures
        r@ == item_text(if found { Listed::FoundPerson } else { Listed::Person }, *j),
{
    let mut out = owned("• [");
    push_str(&mut out, get_id_or_uuid(j));
    push_str(&mut out, "] ");
    push_str(&mut out, get_str_or(j, "name", "(unnamed)"));
    push_when_some(&mut out, " — ", get_nested_str_or(j, "properties", "email", ""));
    if !found {
        push_when_some(&mut out, " | ids: ", get_ids(j, true).as_str());
    }
    push_str(&mut out, "\n");
    out
}

fn numbered_item(kind: Listed, j: &Json) -> (r: String)
    requires
        kind == Listed::Flag || kind == Listed::Insight || kind == Listed::Cohort || kind
            == Listed::Dashboard || kind == Listed::Project,
    ensures
        r@ == item_text(kind, *j),
{
    let mut out = owned("• [");
    push_str(&mut out, get_int_text(j, "id").as_str());
    push_str(&mut out, "] ");
    match kind {
        Listed::Flag => {
            push_str(&mut out, get_str_or(j, "key", "?"));
            push_str(&mut out, " (");
            push_str(&mut out, get_str_or(j, "name", "(unnamed)"));
            push_str(&mut out, ") — ");
            let active = match get_bool(j, "active") {
                Some(b) => b,
                None => false,
            };
            push_str(&mut out, if active { "ENABLED" } else { "DISABLED" });
            push_str(&mut out, " | rollout: ");
            push_str(&mut out, get_rollout(j).as_str());
        },
        Listed::Insight => {
            push_str(&mut out, get_str_or(j, "name", "(unnamed)"));
            push_str(&mut out, " | type: ");
            push_str(&mut out, get_nested_str_or(j, "filters", "insight", "?"));
            push_str(&mut out, " | last refresh: ");
            push_str(&mut out, get_str_or(j, "last_refresh", "(never)"));
        },
        Listed::Cohort => {
            push_str(&mut out, get_str_or(j, "name", "(unnamed)"));
            push_str(&mut out, " | ");
            push_i64(&mut out, get_int_or(j, "count", 0));
            push_str(&mut out, " persons | last calc: ");
            push_str(&mut out, get_str_or(j, "last_calculation", "(never)"));
        },
        Listed::Dashboard => {
            push_str(&mut out, get_str_or(j, "name", "(unnamed)"));
            push_str(&mut out, " | created: ");
            push_str(&mut out, get_str_or(j, "created_at", "?"));
            push_when_some(&mut out, " | ", get_str_or(j, "description", ""));
        },
        _ => {
            push_str(&mut out, get_str_or(j, "name", "(unnamed)"));
            push_str(&mut out, " | created: ");
            push_str(&mut out, get_str_or(j, "created_at", "?"));
        },
    }
    push_str(&mut out, "\n");
    out
}

fn format_item(kind: Listed, j: &Json) -> (r: String)
    ensures
        r@ == item_text(kind, *j),
{
    match kind {
        Listed::Event => {
            let mut out = owned("• [");
            push_str(&mut out, get_id_or_uuid(j));
            push_str(&mut out, "] ");
            push_str(&mut out, get_str_or(j, "event", "?"));
            push_str(&mut out, " | user: ");
            push_str(&mut out, get_str_or(j, "distinct_id", "?"));
            push_str(&mut out, " | ");
            push_str(&mut out, get_str_or(j, "timestamp", "?"));
            push_str(&mut out, "\n");
            out
        },
        Listed::EventDefinition => {
            let mut out = owned("• ");
            push_str(&mut out, get_str_or(j, "name", "?"));
            push_str(&mut out, " | uses (30d): ");
            push_i64(&mut out, get_int_or(j, "query_usage_30_day", 0));
            push_str(&mut out, " | last seen: ");
            push_str(&mut out, get_str_or(j, "last_seen_at", "?"));
            push_str(&mut out, "\n");
            out
        },
        Listed::Person => person_item(j, false),
        Listed::FoundPerson => person_item(j, true),
        _ => numbered_item(kind, j),
    }
}

/// The items' texts, one after the other.
pub open spec fn lines(kind: Listed, items: Seq<Json>) -> Seq<char>
    decreases items.len(),
{
    if items.len() == 0 {
        seq![]
    } else {
        lines(kind, items.drop_last()) + item_text(kind, items.last())
    }
}

/// A list: `empty` when there is no item, else `title`, the count, `tail` and the items.
pub open spec fn listing(kind: Listed, items: Seq<Json>, title: Seq<char>, tail: Seq<char>, empty: Seq<char>) -> Seq<char> {
    if items.len() == 0 {
        empty
    } else {
        title + dec_nat(items.len()) + tail + lines(kind, items)
    }
}

fn listing_exec(kind: Listed, items: &Vec<Json>, title: &str, tail: &str, empty: &str) -> (t: String)
    ensures
        t@ == listing(kind, items@, title@, tail@, empty@),
{
    let n = items.len();
    if n == 0 {
        return owned(empty);
    }
    let mut out = owned(title);
    push_u64(&mut out, n as u64);
    push_str(&mut out, tail);
    let ghost head = out@;
    for i in 0..n
        invariant
            n == items@.len(),
            out@ == head + lines(kind, items@.take(i as int)),
    {
        assert(items@.take(i + 1).drop_last() == items@.take(i as int));
        assert(items@.take(i + 1).last() == items@[i as int]);
        push_str(&mut out, format_item(kind, &items[i]).as_str());
    }
    assert(items@.take(n as int) == items@);
    out
}

/// The `results` array of a list response, or the response itself when `bare` allows it and
/// it is an array; `None` when neither.
pub open spec fn results_of(r: Json, bare: bool) -> Option<Seq<Json>> {
    match r.at("results"@).array_of() {
        Some(a) => Some(a),
        None => if bare {
            r.array_of()
        } else {
            None
        },
    }
}

fn get_results<'a>(r: &'a Json, bare: bool) -> (o: Option<&'a Vec<Json>>)
    ensures
        o matches Some(a) ==> results_of(*r, bare) == Some(a@),
        o is None ==> results_of(*r, bare) is None,
{
    match get_array(r, "results") {
        Some(a) => Some(a),
        None => if bare {
            r.as_array()
        } else {
            None
        },
    }
}

/// The outcome of a list response.
pub open spec fn list_outcome(r: Json, bare: bool, kind: Listed, title: Seq<char>, tail: Seq<char>, empty: Seq<char>) -> StepView {
    match results_of(r, bare) {
        None => fail_view("Unexpected response format"@),
        Some(items) => ok_view(listing(kind, items, title, tail, empty)),
    }
}

fn list_done(r: &Json, bare: bool, kind: Listed, title: &str, tail: &str, empty: &str) -> (s: Step)
    ensures
        s@ == list_outcome(*r, bare, kind, title@, tail@, empty@),
{
    match get_results(r, bare) {
        None => fail("Unexpected response format"),
        Some(items) => ok_text(listing_exec(kind, items, title, tail, empty)),
    }
}


/// An `i64` argument `limit`, `d` by default, at most `cap` when given.
pub open spec fn limit_of(args: Json, d: int, cap: Option<int>) -> int {
    let l = match args.at("limit"@).i64_of() {
        Some(n) => n as int,
        None => d,
    };
    match cap {
        Some(c) => if l > c {
            c
        } else {
            l
        },
        None => l,
    }
}

fn get_limit(args: &Json, d: i64, cap: Option<i64>) -> (n: i64)
    ensures
        n as int == limit_of(
            *args,
            d as int,
            match cap {
                Some(c) => Some(c as int),
                None => None,
            },
        ),
{
    let l = match get_i64(args, "limit") {
        Some(n) => n,
        None => d,
    };
    match cap {
        Some(c) => if l > c {
            c
        } else {
            l
        },
        None => l,
    }
}

/// The body of `posthog_capture_event`, members in name order.
pub open spec fn capture_body(api_key: Seq<char>, event: Seq<char>, did: Seq<char>, args: Json) -> Seq<char> {
    "{\"api_key\":"@ + quoted(api_key) + ",\"distinct_id\":"@ + quoted(did) + ",\"event\":"@ + quoted(event)
        + ",\"properties\":"@ + match args.spec_get("properties"@) {
        Some(p) => json_text(p),
        None => "{}"@,
    } + "}"@
}

/// The rollout filter of a flag.
pub open spec fn rollout_filter(p: int) -> Seq<char> {
    "{\"groups\":[{\"rollout_percentage\":"@ + dec_int(p) + "}]}"@
}

fn push_rollout_filter(out: &mut String, p: i64)
    ensures
        final(out)@ == old(out)@ + rollout_filter(p as int),
{
    push_str(out, "{\"groups\":[{\"rollout_percentage\":");
    push_i64(out, p);
    push_str(out, "}]}");
}

/// The body of `posthog_update_feature_flag`: the given changes, in name order.
pub open spec fn flag_update_body(args: Json) -> Seq<char> {
    let a = args.at("active"@).bool_of();
    let f = args.at("rollout_percentage"@).i64_of();
    "{"@ + match a {
        Some(b) => "\"active\":"@ + json_text(Json::Bool(b)),
        None => seq![],
    } + (if a is Some && f is Some {
        ","@
    } else {
        seq![]
    }) + match f {
        Some(p) => "\"filters\":"@ + rollout_filter(p as int),
        None => seq![],
    } + "}"@
}

/// The event filters of a trend insight: one `{"id": name}` per string item.
pub open spec fn event_filters(names: Seq<Seq<char>>) -> Seq<char>
    decreases names.len(),
{
    if names.len() == 0 {
        seq![]
    } else if names.len() == 1 {
        "{\"id\":"@ + quoted(names[0]) + "}"@
    } else {
        event_filters(names.drop_last()) + ","@ + "{\"id\":"@ + quoted(names.last()) + "}"@
    }
}

fn push_event_filters(out: &mut String, names: &Vec<&str>)
    ensures
        final(out)@ == old(out)@ + event_filters(views(names@)),
{
    let n = names.len();
    for i in 0..n
        invariant
            n == names@.len(),
            out@ == old(out)@ + event_filters(views(names@.take(i as int))),
    {
        assert(views(names@.take(i + 1)).drop_last() == views(names@.take(i as int)));
        assert(views(names@.take(i + 1)).last() == names@[i as int]@);
        if i > 0 {
            push_str(out, ",");
        } else {
            assert(views(names@.take(1))[0] == names@[0]@);
        }
        push_str(out, "{\"id\":");
        push_quoted(out, names[i]);
        push_str(out, "}");
    }
    assert(names@.take(n as int) == names@);
}

/// The feature-flag tools that take an id or create a flag.
pub open spec fn flag_view(cfg: PosthogConfig, name: Seq<char>, args: Json, rs: Seq<Json>) -> StepView {
    if name == "posthog_get_feature_flag"@ {
        match args.at("id"@).str_of() {
            None => fail_view("Missing id"@),
            Some(id) => one_call(
                project_get(cfg, "/feature_flags/"@ + id),
                rs,
                |r: Json|
                    ok_view(
                        "Feature Flag ["@ + id + "]\nKey:      "@ + str_or(r, "key"@, "(none)"@)
                            + "\nName:     "@ + str_or(r, "name"@, "(none)"@) + "\nStatus:   "@ + (if flag(
                            r,
                            "active"@,
                        ) {
                            "ENABLED"@
                        } else {
                            "DISABLED"@
                        }) + "\nRollout:  "@ + rollout_text(r) + "\nCreated:  "@ + str_or(
                            r,
                            "created_at"@,
                            "(none)"@,
                        ),
                    ),
            ),
        }
    } else if name == "posthog_create_feature_flag"@ {
        match args.at("key"@).str_of() {
            None => fail_view("Missing key"@),
            Some(key) => match args.at("name"@).str_of() {
                None => fail_view("Missing name"@),
                Some(n) => one_call(
                    send_view(
                        Method::Post,
                        project_url(cfg, "/feature_flags"@),
                        Some(
                            "{\"filters\":"@ + rollout_filter(int_or(args, "rollout_percentage"@, 100))
                                + ",\"key\":"@ + quoted(key) + ",\"name\":"@ + quoted(n) + "}"@,
                        ),
                    ),
                    rs,
                    |r: Json|
                        ok_view(
                            "Feature flag \""@ + key + "\" created successfully. ID: "@ + int_text(
                                r,
                                "id"@,
                            ),
                        ),
                ),
            },
        }
    } else if name == "posthog_update_feature_flag"@ {
        match args.at("id"@).str_of() {
            None => fail_view("Missing id"@),
            Some(id) => one_call(
                send_view(
                    Method::Patch,
                    project_url(cfg, "/feature_flags/"@ + id),
                    Some(flag_update_body(args)),
                ),
                rs,
                |r: Json|
                    ok_view(
                        "Feature flag ["@ + match r.at("id"@).i64_of() {
                            Some(n) => dec_int(n as int),
                            None => id,
                        } + "] updated successfully."@,
                    ),
            ),
        }
    } else {
        match args.at("id"@).str_of() {
            None => fail_view("Missing id"@),
            Some(id) => match args.at("active"@).bool_of() {
                None => fail_view("Missing active (boolean)"@),
                Some(active) => one_call(
                    send_view(
                        Method::Patch,
                        project_url(cfg, "/feature_flags/"@ + id),
                        Some("{\"active\":"@ + json_text(Json::Bool(active)) + "}"@),
                    ),
                    rs,
                    |r: Json|
                        ok_view(
                            "Feature flag ["@ + match r.at("id"@).i64_of() {
                                Some(n) => dec_int(n as int),
                                None => id,
                            } + "] "@ + (if active {
                                "enabled"@
                            } else {
                                "disabled"@
                            }) + " successfully."@,
                        ),
                ),
            },
        }
    }
}

/// A tool that lists the results of a project-scoped `GET`.
pub open spec fn list_view(
    cfg: PosthogConfig,
    rs: Seq<Json>,
    path: Seq<char>,
    bare: bool,
    kind: Listed,
    title: Seq<char>,
    tail: Seq<char>,
    empty: Seq<char>,
) -> StepView {
    one_call(project_get(cfg, path), rs, |r: Json| list_outcome(r, bare, kind, title, tail, empty))
}

/// `posthog_capture_event`.
pub open spec fn capture_view(cfg: PosthogConfig, args: Json, rs: Seq<Json>) -> StepView {
    match args.at("event"@).str_of() {
        None => fail_view("Missing event"@),
        Some(ev) => match args.at("distinct_id"@).str_of() {
            None => fail_view("Missing distinct_id"@),
            Some(did) => one_call(
                send_view(
                    Method::Post,
                    trim_end_spec(cfg.host@, '/') + "/capture/"@,
                    Some(capture_body(cfg.api_key@, ev, did, args)),
                ),
                rs,
                |r: Json|
                    ok_view(
                        if int_or(r, "status"@, 0) == 1 {
                            "Event \""@ + ev + "\" captured successfully for distinct_id \""@ + did
                                + "\"."@
                        } else {
                            "Event \""@ + ev + "\" sent. Response: "@ + json_text(r)
                        },
                    ),
            ),
        },
    }
}

/// `posthog_query_events`.
pub open spec fn query_view(cfg: PosthogConfig, args: Json, rs: Seq<Json>) -> StepView {
    let limit = limit_of(args, 20, Some(100));
    let ev = args.at("event_name"@).str_of();
    one_call(
        project_get(
            cfg,
            match ev {
                Some(e) => "/events?event="@ + encode_bytes(encode_utf8(e), false) + "&limit="@
                    + dec_int(limit),
                None => "/events?limit="@ + dec_int(limit),
            },
        ),
        rs,
        |r: Json|
            list_outcome(
                r,
                false,
                Listed::Event,
                "PostHog Events"@ + match ev {
                    Some(e) => " (filter: "@ + e + ")"@,
                    None => seq![],
                } + " — "@,
                " returned:\n\n"@,
                "No events found."@,
            ),
    )
}

/// The tools on one person, and the search.
pub open spec fn person_view(cfg: PosthogConfig, name: Seq<char>, args: Json, rs: Seq<Json>) -> StepView {
    if name == "posthog_get_person"@ {
        match args.at("id"@).str_of() {
            None => fail_view("Missing id"@),
            Some(id) => one_call(
                project_get(cfg, "/persons/"@ + id),
                rs,
                |r: Json|
                    ok_view(
                        "Person ["@ + id + "]\nName:        "@ + str_or(r, "name"@, "(none)"@)
                            + "\nEmail:       "@ + str_or(r.at("properties"@), "email"@, "(none)"@)
                            + "\nDistinct IDs: "@ + ids_text(r, false) + "\nCreated:     "@ + str_or(
                            r,
                            "created_at"@,
                            "(none)"@,
                        ),
                    ),
            ),
        }
    } else if name == "posthog_search_persons"@ {
        match args.at("query"@).str_of() {
            None => fail_view("Missing query"@),
            Some(q) => one_call(
                project_get(cfg, "/persons?search="@ + encode_bytes(encode_utf8(q), false) + "&limit=20"@),
                rs,
                |r: Json|
                    list_outcome(
                        r,
                        false,
                        Listed::FoundPerson,
                        "Person search results for \""@ + q + "\" ("@,
                        " found):\n\n"@,
                        "No persons found for query: "@ + q,
                    ),
            ),
        }
    } else {
        match args.at("id"@).str_of() {
            None => fail_view("Missing id"@),
            Some(id) => one_call(
                status_view(Method::Delete, project_url(cfg, "/persons/"@ + id)),
                rs,
                |r: Json| ok_view("Person ["@ + id + "] deleted successfully."@),
            ),
        }
    }
}

/// The insight tools that read or create one.
pub open spec fn insight_view(cfg: PosthogConfig, name: Seq<char>, args: Json, rs: Seq<Json>) -> StepView {
    if name == "posthog_get_insight"@ {
        match args.at("id"@).str_of() {
            None => fail_view("Missing id"@),
            Some(id) => one_call(
                project_get(cfg, "/insights/"@ + id),
                rs,
                |r: Json|
                    ok_view(
                        "Insight ["@ + id + "]\nName:         "@ + str_or(r, "name"@, "(none)"@)
                            + "\nType:         "@ + str_or(r.at("filters"@), "insight"@, "(none)"@)
                            + "\nDescription:  "@ + str_or(r, "description"@, "(none)"@)
                            + "\nLast refresh: "@ + str_or(r, "last_refresh"@, "(never)"@)
                            + "\nCreated:      "@ + str_or(r, "created_at"@, "(none)"@),
                    ),
            ),
        }
    } else {
        match args.at("name"@).str_of() {
            None => fail_view("Missing name"@),
            Some(n) => match args.at("events"@).array_of() {
                None => fail_view("Missing events (array)"@),
                Some(events) => if strings_of(events).len() == 0 {
                    fail_view("events array must contain at least one event name"@)
                } else {
                    one_call(
                        send_view(
                            Method::Post,
                            project_url(cfg, "/insights"@),
                            Some(
                                "{\"filters\":{\"events\":["@ + event_filters(strings_of(events))
                                    + "],\"insight\":\"TRENDS\"},\"name\":"@ + quoted(n) + "}"@,
                            ),
                        ),
                        rs,
                        |r: Json|
                            ok_view(
                                "Trend insight \""@ + n + "\" created successfully. ID: "@ + int_text(
                                    r,
                                    "id"@,
                                ),
                            ),
                    )
                },
            },
        }
    }
}

/// What a call of PostHog tool `name` with `args` does next, given the responses so far.
pub open spec fn handle_view(cfg: PosthogConfig, name: Seq<char>, args: Json, rs: Seq<Json>) -> StepView {
    if name == "posthog_capture_event"@ {
        capture_view(cfg, args, rs)
    } else if name == "posthog_query_events"@ {
        query_view(cfg, args, rs)
    } else if name == "posthog_get_event_definitions"@ {
        list_view(cfg, rs, "/event_definitions?limit="@ + dec_int(limit_of(args, 50, None)), false, Listed::EventDefinition, "PostHog Event Definitions ("@, " found):\n\n"@, "No event definitions found."@)
    } else if name == "posthog_list_persons"@ {
        list_view(cfg, rs, "/persons?limit="@ + dec_int(limit_of(args, 20, None)), false, Listed::Person, "PostHog Persons ("@, " found):\n\n"@, "No persons found."@)
    } else if name == "posthog_get_person"@ || name == "posthog_search_persons"@ || name
        == "posthog_delete_person"@ {
        person_view(cfg, name, args, rs)
    } else if name == "posthog_list_feature_flags"@ {
        list_view(cfg, rs, "/feature_flags"@, true, Listed::Flag, "PostHog Feature Flags ("@, " found):\n\n"@, "No feature flags found."@)
    } else if name == "posthog_get_feature_flag"@ || name == "posthog_create_feature_flag"@ || name
        == "posthog_update_feature_flag"@ || name == "posthog_toggle_feature_flag"@ {
        flag_view(cfg, name, args, rs)
    } else if name == "posthog_list_insights"@ {
        list_view(cfg, rs, "/insights?limit="@ + dec_int(limit_of(args, 20, None)), false, Listed::Insight, "PostHog Insights ("@, " found):\n\n"@, "No insights found."@)
    } else if name == "posthog_get_insight"@ || name == "posthog_create_trend_insight"@ {
        insight_view(cfg, name, args, rs)
    } else if name == "posthog_list_cohorts"@ {
        list_view(cfg, rs, "/cohorts"@, false, Listed::Cohort, "PostHog Cohorts ("@, " found):\n\n"@, "No cohorts found."@)
    } else if name == "posthog_list_dashboards"@ {
        list_view(cfg, rs, "/dashboards"@, false, Listed::Dashboard, "PostHog Dashboards ("@, " found):\n\n"@, "No dashboards found."@)
    } else if name == "posthog_list_projects"@ {
        one_call(
            send_view(Method::Get, trim_end_spec(cfg.host@, '/') + "/api/projects/"@, None),
            rs,
            |r: Json|
                list_outcome(r, true, Listed::Project, "PostHog Projects ("@, " found):\n\n"@, "No projects found."@),
        )
    } else {
        fail_view("Unknown PostHog tool: "@ + name)
    }
}

fn list_tool(
    cfg: &PosthogConfig,
    rs: &Vec<Json>,
    path: &str,
    bare: bool,
    kind: Listed,
    title: &str,
    tail: &str,
    empty: &str,
) -> (s: Step)
    ensures
        s@ == one_call(
            project_get(*cfg, path@),
            rs@,
            |r: Json| list_outcome(r, bare, kind, title@, tail@, empty@),
        ),
{
    if rs.len() == 0 {
        project_get_step(cfg, path)
    } else {
        list_done(&rs[0], bare, kind, title, tail, empty)
    }
}

fn limited_path(prefix: &str, limit: i64) -> (r: String)
    ensures
        r@ == prefix@ + dec_int(limit as int),
{
    let mut p = owned(prefix);
    push_i64(&mut p, limit);
    p
}

fn id_or(r: &Json, id: &str) -> (t: String)
    ensures
        t@ == match r.at("id"@).i64_of() {
            Some(n) => dec_int(n as int),
            None => id@,
        },
{
    match get_i64(r, "id") {
        Some(n) => i64_to_string(n),
        None => owned(id),
    }
}

fn flag_tools(cfg: &PosthogConfig, name: &str, args: &Json, rs: &Vec<Json>) -> (s: Step)
    ensures
        s@ == flag_view(*cfg, name@, *args, rs@),
{
    let first = rs.len() == 0;
    if str_eq(name, "posthog_get_feature_flag") {
        let id = match get_str(args, "id") {
            None => return fail("Missing id"),
            Some(x) => x,
        };
        let path = concat("/feature_flags/", id);

        if first {
            return project_get_step(cfg, path.as_str());
        }
        let r = &rs[0];
        let active = match get_bool(r, "active") {
            Some(b) => b,
            None => false,
        };
        let mut out = owned("Feature Flag [");
        push_str(&mut out, id);
        push_str(&mut out, "]\nKey:      ");
        push_str(&mut out, get_str_or(r, "key", "(none)"));
        push_str(&mut out, "\nName:     ");
        push_str(&mut out, get_str_or(r, "name", "(none)"));
        push_str(&mut out, "\nStatus:   ");
        push_str(&mut out, if active { "ENABLED" } else { "DISABLED" });
        push_str(&mut out, "\nRollout:  ");
        push_str(&mut out, get_rollout(r).as_str());
        push_str(&mut out, "\nCreated:  ");
        push_str(&mut out, get_str_or(r, "created_at", "(none)"));
        ok_text(out)
    } else if str_eq(name, "posthog_create_feature_flag") {
        let key = match get_str(args, "key") {
            None => return fail("Missing key"),
            Some(x) => x,
        };
        let n = match get_str(args, "name") {
            None => return fail("Missing name"),
            Some(x) => x,
        };
        if first {
            let mut body = owned("{\"filters\":");
            push_rollout_filter(&mut body, get_int_or(args, "rollout_percentage", 100));
            push_str(&mut body, ",\"key\":");
            push_quoted(&mut body, key);
            push_str(&mut body, ",\"name\":");
            push_quoted(&mut body, n);
            push_str(&mut body, "}");
            return send(Method::Post, cfg.project_api("/feature_flags"), Some(body));
        }
        let mut out = owned("Feature flag \"");
        push_str(&mut out, key);
        push_str(&mut out, "\" created successfully. ID: ");
        push_str(&mut out, get_int_text(&rs[0], "id").as_str());
        return ok_text(out);
    } else {
        let id = match get_str(args, "id") {
            None => return fail("Missing id"),
            Some(x) => x,
        };
        let path = concat("/feature_flags/", id);
        if str_eq(name, "posthog_update_feature_flag") {
            if first {
                let mut body = owned("{");
                let a = get_bool(args, "active");
                let f = get_i64(args, "rollout_percentage");
                match a {
                    Some(b) => {
                        push_str(&mut body, "\"active\":");
                        push_str(&mut body, to_json_string(&Json::Bool(b)).as_str());
                    },
                    None => {},
                }
                match (a, f) {
                    (Some(_), Some(_)) => push_str(&mut body, ","),
                    _ => {},
                }
                match f {
                    Some(p) => {
                        push_str(&mut body, "\"filters\":");
                        push_rollout_filter(&mut body, p);
                    },
                    None => {},
                }
                push_str(&mut body, "}");
                assert(body@ =~= flag_update_body(*args));
                return send(Method::Patch, cfg.project_api(path.as_str()), Some(body));
            }
            let mut out = owned("Feature flag [");
            push_str(&mut out, id_or(&rs[0], id).as_str());
            push_str(&mut out, "] updated successfully.");
            ok_text(out)
        } else {
            let active = match get_bool(args, "active") {
                None => return fail("Missing active (boolean)"),
                Some(b) => b,
            };
            if first {
                let mut body = owned("{\"active\":");
                push_str(&mut body, to_json_string(&Json::Bool(active)).as_str());
                push_str(&mut body, "}");
                return send(Method::Patch, cfg.project_api(path.as_str()), Some(body));
            }
            let mut out = owned("Feature flag [");
            push_str(&mut out, id_or(&rs[0], id).as_str());
            push_str(&mut out, "] ");
            push_str(&mut out, if active { "enabled" } else { "disabled" });
            push_str(&mut out, " successfully.");
            ok_text(out)
        }
    }
}

fn person_tools(cfg: &PosthogConfig, name: &str, args: &Json, rs: &Vec<Json>) -> (s: Step)
    requires
        name@ == "posthog_get_person"@ || name@ == "posthog_search_persons"@ || name@
            == "posthog_delete_person"@,
    ensures
        s@ == person_view(*cfg, name@, *args, rs@),
{
    let first = rs.len() == 0;
    if str_eq(name, "posthog_get_person") {
        let id = match get_str(args, "id") {
            None => return fail("Missing id"),
            Some(x) => x,
        };
        if first {
            return project_get_step(cfg, concat("/persons/", id).as_str());
        }
        let r = &rs[0];
        let mut out = owned("Person [");
        push_str(&mut out, id);
        push_str(&mut out, "]\nName:        ");
        push_str(&mut out, get_str_or(r, "name", "(none)"));
        push_str(&mut out, "\nEmail:       ");
        push_str(&mut out, get_nested_str_or(r, "properties", "email", "(none)"));
        push_str(&mut out, "\nDistinct IDs: ");
        push_str(&mut out, get_ids(r, false).as_str());
        push_str(&mut out, "\nCreated:     ");
        push_str(&mut out, get_str_or(r, "created_at", "(none)"));
        ok_text(out)
    } else if str_eq(name, "posthog_search_persons") {
        let q = match get_str(args, "query") {
            None => return fail("Missing query"),
            Some(x) => x,
        };
        if first {
            let mut p = owned("/persons?search=");
            push_str(&mut p, urlenc(q).as_str());
            push_str(&mut p, "&limit=20");
            return project_get_step(cfg, p.as_str());
        }
        let mut title = owned("Person search results for \"");
        push_str(&mut title, q);
        push_str(&mut title, "\" (");
        let empty = concat("No persons found for query: ", q);
        list_done(&rs[0], false, Listed::FoundPerson, title.as_str(), " found):\n\n", empty.as_str())
    } else {
        let id = match get_str(args, "id") {
            None => return fail("Missing id"),
            Some(x) => x,
        };
        if first {
            return send_status(Method::Delete, cfg.project_api(concat("/persons/", id).as_str()));
        }
        let mut out = owned("Person [");
        push_str(&mut out, id);
        push_str(&mut out, "] deleted successfully.");
        ok_text(out)
    }
}

fn insight_tools(cfg: &PosthogConfig, name: &str, args: &Json, rs: &Vec<Json>) -> (s: Step)
    requires
        name@ == "posthog_get_insight"@ || name@ == "posthog_create_trend_insight"@,
    ensures
        s@ == insight_view(*cfg, name@, *args, rs@),
{
    let first = rs.len() == 0;
    if str_eq(name, "posthog_get_insight") {
        let id = match get_str(args, "id") {
            None => return fail("Missing id"),
            Some(x) => x,
        };
        if first {
            return project_get_step(cfg, concat("/insights/", id).as_str());
        }
        let r = &rs[0];
        let mut out = owned("Insight [");
        push_str(&mut out, id);
        push_str(&mut out, "]\nName:         ");
        push_str(&mut out, get_str_or(r, "name", "(none)"));
        push_str(&mut out, "\nType:         ");
        push_str(&mut out, get_nested_str_or(r, "filters", "insight", "(none)"));
        push_str(&mut out, "\nDescription:  ");
        push_str(&mut out, get_str_or(r, "description", "(none)"));
        push_str(&mut out, "\nLast refresh: ");
        push_str(&mut out, get_str_or(r, "last_refresh", "(never)"));
        push_str(&mut out, "\nCreated:      ");
        push_str(&mut out, get_str_or(r, "created_at", "(none)"));
        ok_text(out)
    } else {
        let n = match get_str(args, "name") {
            None => return fail("Missing name"),
            Some(x) => x,
        };
        let events = match get_array(args, "events") {
            None => return fail("Missing events (array)"),
            Some(e) => e,
        };
        let names = collect_strings(events);
        if names.len() == 0 {
            return fail("events array must contain at least one event name");
        }
        if first {
            let mut body = owned("{\"filters\":{\"events\":[");
            push_event_filters(&mut body, &names);
            push_str(&mut body, "],\"insight\":\"TRENDS\"},\"name\":");
            push_quoted(&mut body, n);
            push_str(&mut body, "}");
            return send(Method::Post, cfg.project_api("/insights"), Some(body));
        }
        let mut out = owned("Trend insight \"");
        push_str(&mut out, n);
        push_str(&mut out, "\" created successfully. ID: ");
        push_str(&mut out, get_int_text(&rs[0], "id").as_str());
        ok_text(out)
    }
}

fn capture_event(cfg: &PosthogConfig, args: &Json, rs: &Vec<Json>) -> (s: Step)
    ensures
        s@ == capture_view(*cfg, *args, rs@),
{
    let ev = match get_str(args, "event") {
        None => return fail("Missing event"),
        Some(x) => x,
    };
    let did = match get_str(args, "distinct_id") {
        None => return fail("Missing distinct_id"),
        Some(x) => x,
    };
    if rs.len() == 0 {
        let mut body = owned("{\"api_key\":");
        push_quoted(&mut body, cfg.api_key.as_str());
        push_str(&mut body, ",\"distinct_id\":");
        push_quoted(&mut body, did);
        push_str(&mut body, ",\"event\":");
        push_quoted(&mut body, ev);
        push_str(&mut body, ",\"properties\":");
        match args.get("properties") {
            Some(p) => write_json(&mut body, p),
            None => push_str(&mut body, "{}"),
        }
        push_str(&mut body, "}");
        return send(Method::Post, cfg.global_api("/capture/"), Some(body));
    }
    let r = &rs[0];
    if get_int_or(r, "status", 0) == 1 {
        let mut out = owned("Event \"");
        push_str(&mut out, ev);
        push_str(&mut out, "\" captured successfully for distinct_id \"");
        push_str(&mut out, did);
        push_str(&mut out, "\".");
        ok_text(out)
    } else {
        let mut out = owned("Event \"");
        push_str(&mut out, ev);
        push_str(&mut out, "\" sent. Response: ");
        push_str(&mut out, to_json_string(r).as_str());
        ok_text(out)
    }
}

fn query_events(cfg: &PosthogConfig, args: &Json, rs: &Vec<Json>) -> (s: Step)
    ensures
        s@ == query_view(*cfg, *args, rs@),
{
    let limit = get_limit(args, 20, Some(100));
    let ev = get_str(args, "event_name");
    if rs.len() == 0 {
        let mut p = String::new();
        match ev {
            Some(e) => {
                push_str(&mut p, "/events?event=");
                push_str(&mut p, urlenc(e).as_str());
                push_str(&mut p, "&limit=");
            },
            None => push_str(&mut p, "/events?limit="),
        }
        push_i64(&mut p, limit);
        assert(p@ =~= match args.at("event_name"@).str_of() {
            Some(e) => "/events?event="@ + encode_bytes(encode_utf8(e), false) + "&limit="@ + dec_int(
                limit as int,
            ),
            None => "/events?limit="@ + dec_int(limit as int),
        });
        return project_get_step(cfg, p.as_str());
    }
    let mut title = owned("PostHog Events");
    match ev {
        Some(e) => {
            push_str(&mut title, " (filter: ");
            push_str(&mut title, e);
            push_str(&mut title, ")");
        },
        None => {},
    }
    push_str(&mut title, " — ");
    assert(title@ =~= "PostHog Events"@ + match args.at("event_name"@).str_of() {
        Some(e) => " (filter: "@ + e + ")"@,
        None => seq![],
    } + " — "@);
    list_done(&rs[0], false, Listed::Event, title.as_str(), " returned:\n\n", "No events found.")
}

/// Runs one step of the PostHog tool `name` called with `args`: `responses` holds the parsed
/// responses to the requests made so far (each tool makes one).
pub fn handle(cfg: &PosthogConfig, name: &str, args: &Json, responses: &Vec<Json>) -> (s: Step)
    ensures
        s@ == handle_view(*cfg, name@, *args, responses@),
{
    let rs = responses;
    if str_eq(name, "posthog_capture_event") {
        capture_event(cfg, args, rs)
    } else if str_eq(name, "posthog_query_events") {
        query_events(cfg, args, rs)
    } else if str_eq(name, "posthog_get_event_definitions") {
        let p = limited_path("/event_definitions?limit=", get_limit(args, 50, None));
        list_tool(
            cfg,
            rs,
            p.as_str(),
            false,
            Listed::EventDefinition,
            "PostHog Event Definitions (",
            " found):\n\n",
            "No event definitions found.",
        )
    } else if str_eq(name, "posthog_list_persons") {
        let p = limited_path("/persons?limit=", get_limit(args, 20, None));
        list_tool(cfg, rs, p.as_str(), false, Listed::Person, "PostHog Persons (", " found):\n\n", "No persons found.")
    } else if str_eq(name, "posthog_get_person") || str_eq(name, "posthog_search_persons") || str_eq(
        name,
        "posthog_delete_person",
    ) {
        person_tools(cfg, name, args, rs)
    } else if str_eq(name, "posthog_list_feature_flags") {
        list_tool(
            cfg,
            rs,
            "/feature_flags",
            true,
            Listed::Flag,
            "PostHog Feature Flags (",
            " found):\n\n",
            "No feature flags found.",
        )
    } else if str_eq(name, "posthog_get_feature_flag") || str_eq(name, "posthog_create_feature_flag")
        || str_eq(name, "posthog_update_feature_flag") || str_eq(name, "posthog_toggle_feature_flag") {
        flag_tools(cfg, name, args, rs)
    } else if str_eq(name, "posthog_list_insights") {
        let p = limited_path("/insights?limit=", get_limit(args, 20, None));
        list_tool(cfg, rs, p.as_str(), false, Listed::Insight, "PostHog Insights (", " found):\n\n", "No insights found.")
    } else if str_eq(name, "posthog_get_insight") || str_eq(name, "posthog_create_trend_insight") {
        insight_tools(cfg, name, args, rs)
    } else if str_eq(name, "posthog_list_cohorts") {
        list_tool(cfg, rs, "/cohorts", false, Listed::Cohort, "PostHog Cohorts (", " found):\n\n", "No cohorts found.")
    } else if str_eq(name, "posthog_list_dashboards") {
        list_tool(
            cfg,
            rs,
            "/dashboards",
            false,
            Listed::Dashboard,
            "PostHog Dashboards (",
            " found):\n\n",
            "No dashboards found.",
        )
    } else if str_eq(name, "posthog_list_projects") {
        if rs.len() == 0 {
            send(Method::Get, cfg.global_api("/api/projects/"), None)
        } else {
            list_done(&rs[0], true, Listed::Project, "PostHog Projects (", " found):\n\n", "No projects found.")
        }
    } else {
        Step::Done(Err(concat("Unknown PostHog tool: ", name)))
    }
}

/// Every PostHog tool makes at most one request: once its response is in, the call has its
/// outcome.
pub proof fn lemma_handle_ends(cfg: PosthogConfig, name: Seq<char>, args: Json, rs: Seq<Json>)
    requires
        rs.len() >= 1,
    ensures
        handle_view(cfg, name, args, rs) is Done,
{
}

/// The PostHog tools offered to MCP clients: name, description and input schema of each, as a
/// The catalog's tools, in its order: for each, the JSON text of its members before its name
/// (its description and input schema).
pub const TOOL_HEADS: [&'static str; 18] = [
    r#"{"description":"Captures a custom event in PostHog for a given distinct_id. Use for tracking user actions or custom analytics events.","inputSchema":{"properties":{"distinct_id":{"description":"Unique identifier for the user or entity","type":"string"},"event":{"description":"Event name (e.g. 'user_signed_up')","type":"string"},"properties":{"description":"Additional event properties as key-value pairs (optional)","type":"object"}},"required":["event","distinct_id"],"type":"object"},"name":"#,
    r#"{"description":"Queries recent PostHog events, optionally filtered by event name. Returns up to limit events.","inputSchema":{"properties":{"event_name":{"description":"Filter by specific event name (optional)","type":"string"},"limit":{"description":"Max number of events to return (default 20, max 100)","type":"integer"}},"required":[],"type":"object"},"name":"#,
    r#"{"description":"Lists all PostHog event definitions (the event types that have been captured). Returns up to 50 by default.","inputSchema":{"properties":{"limit":{"description":"Max number of event definitions to return (default 50)","type":"integer"}},"required":[],"type":"object"},"name":"#,
    r#"{"description":"Lists PostHog persons (identified users) with their distinct IDs and properties.","inputSchema":{"properties":{"limit":{"description":"Max number of persons to return (default 20)","type":"integer"}},"required":[],"type":"object"},"name":"#,
    r#"{"description":"Gets full details of a PostHog person by their internal ID, including properties and distinct IDs.","inputSchema":{"properties":{"id":{"description":"PostHog internal person ID","type":"string"}},"required":["id"],"type":"object"},"name":"#,
    r#"{"description":"Searches PostHog persons by name, email, or distinct ID. Returns up to 20 matches.","inputSchema":{"properties":{"query":{"description":"Search query (name, email, or distinct ID)","type":"string"}},"required":["query"],"type":"object"},"name":"#,
    r#"{"description":"Permanently deletes a PostHog person by their internal ID.","inputSchema":{"properties":{"id":{"description":"PostHog internal person ID to delete","type":"string"}},"required":["id"],"type":"object"},"name":"#,
    r#"{"description":"Lists all PostHog feature flags with their key, name, active status, and rollout percentage.","inputSchema":{"properties":{},"required":[],"type":"object"},"name":"#,
    r#"{"description":"Gets full details of a PostHog feature flag by its numeric ID.","inputSchema":{"properties":{"id":{"description":"Feature flag numeric ID","type":"string"}},"required":["id"],"type":"object"},"name":"#,
    r#"{"description":"Creates a new PostHog feature flag with optional rollout percentage (0-100).","inputSchema":{"properties":{"key":{"description":"Unique flag key (e.g. 'new-dashboard')","type":"string"},"name":{"description":"Human-readable flag name","type":"string"},"rollout_percentage":{"description":"Rollout percentage 0-100 (default 100)","type":"integer"}},"required":["key","name"],"type":"object"},"name":"#,
    r#"{"description":"Updates a PostHog feature flag's active state and/or rollout percentage.","inputSchema":{"properties":{"active":{"description":"Whether the flag is active (optional)","type":"boolean"},"id":{"description":"Feature flag numeric ID","type":"string"},"rollout_percentage":{"description":"New rollout percentage 0-100 (optional)","type":"integer"}},"required":["id"],"type":"object"},"name":"#,
    r#"{"description":"Toggles a PostHog feature flag on or off by ID.","inputSchema":{"properties":{"active":{"description":"True to enable the flag, false to disable it","type":"boolean"},"id":{"description":"Feature flag numeric ID","type":"string"}},"required":["id","active"],"type":"object"},"name":"#,
    r#"{"description":"Lists PostHog saved insights (charts/queries) with their name and type.","inputSchema":{"properties":{"limit":{"description":"Max number of insights to return (default 20)","type":"integer"}},"required":[],"type":"object"},"name":"#,
    r#"{"description":"Gets full details of a PostHog insight by its numeric ID, including filters and last refresh.","inputSchema":{"properties":{"id":{"description":"Insight numeric ID","type":"string"}},"required":["id"],"type":"object"},"name":"#,
    r#"{"description":"Creates a new TRENDS insight in PostHog tracking one or more events over time.","inputSchema":{"properties":{"events":{"description":"List of event names to track (e.g. [\"user_signed_up\", \"page_viewed\"])","items":{"type":"string"},"type":"array"},"name":{"description":"Insight name","type":"string"}},"required":["name","events"],"type":"object"},"name":"#,
    r#"{"description":"Lists all PostHog cohorts (saved user segments) with name, count, and last calculation date.","inputSchema":{"properties":{},"required":[],"type":"object"},"name":"#,
    r#"{"description":"Lists all PostHog dashboards with their name, description, and creation date.","inputSchema":{"properties":{},"required":[],"type":"object"},"name":"#,
    r#"{"description":"Lists all PostHog projects accessible with the configured API key.","inputSchema":{"properties":{},"required":[],"type":"object"},"name":"#
];

/// The names of the catalog's tools, in its order (those of [`catalog_names`]).
pub const TOOL_NAMES: [&'static str; 18] = [
    "posthog_capture_event",
    "posthog_query_events",
    "posthog_get_event_definitions",
    "posthog_list_persons",
    "posthog_get_person",
    "posthog_search_persons",
    "posthog_delete_person",
    "posthog_list_feature_flags",
    "posthog_get_feature_flag",
    "posthog_create_feature_flag",
    "posthog_update_feature_flag",
    "posthog_toggle_feature_flag",
    "posthog_list_insights",
    "posthog_get_insight",
    "posthog_create_trend_insight",
    "posthog_list_cohorts",
    "posthog_list_dashboards",
    "posthog_list_projects"
];

/// The PostHog tools offered to MCP clients, as a JSON array: one entry per tool of
/// [`catalog_names`], in order, each with its description and input schema (from
/// [`TOOL_HEADS`]) and its name.
pub fn tools() -> (r: String)
    ensures
        r@ == catalog_text(texts(TOOL_HEADS@), catalog_names()),
{
    assert(texts(TOOL_NAMES@) =~= catalog_names());
    build_catalog(&TOOL_HEADS, &TOOL_NAMES)
}

/// The names of the tools in the catalog, in its order.
pub open spec fn catalog_names() -> Seq<Seq<char>> {
    seq![
        "posthog_capture_event"@,
        "posthog_query_events"@,
        "posthog_get_event_definitions"@,
        "posthog_list_persons"@,
        "posthog_get_person"@,
        "posthog_search_persons"@,
        "posthog_delete_person"@,
        "posthog_list_feature_flags"@,
        "posthog_get_feature_flag"@,
        "posthog_create_feature_flag"@,
        "posthog_update_feature_flag"@,
        "posthog_toggle_feature_flag"@,
        "posthog_list_insights"@,
        "posthog_get_insight"@,
        "posthog_create_trend_insight"@,
        "posthog_list_cohorts"@,
        "posthog_list_dashboards"@,
        "posthog_list_projects"@
    ]
}

/// The names of the tools in the catalog, in its order (see [`catalog_names`]).
pub fn tool_names() -> (r: Vec<&'static str>)
    ensures
        r@.map_values(|s: &'static str| s@) == catalog_names(),
{
    let r = vec![
        "posthog_capture_event",
        "posthog_query_events",
        "posthog_get_event_definitions",
        "posthog_list_persons",
        "posthog_get_person",
        "posthog_search_persons",
        "posthog_delete_person",
        "posthog_list_feature_flags",
        "posthog_get_feature_flag",
        "posthog_create_feature_flag",
        "posthog_update_feature_flag",
        "posthog_toggle_feature_flag",
        "posthog_list_insights",
        "posthog_get_insight",
        "posthog_create_trend_insight",
        "posthog_list_cohorts",
        "posthog_list_dashboards",
        "posthog_list_projects"
    ];
    assert(r@.map_values(|s: &'static str| s@) =~= catalog_names());
    r
}

/// A tool name that [`tools`] does not serve (one outside [`catalog_names`]) gets the
/// unknown-tool error, without a request.
pub proof fn lemma_unknown_tool(cfg: PosthogConfig, name: Seq<char>, args: Json, rs: Seq<Json>)
    requires
        !catalog_names().contains(name),
    ensures
        handle_view(cfg, name, args, rs) == fail_view("Unknown PostHog tool: "@ + name),
{
    assert(catalog_names()[0] == "posthog_capture_event"@);
    assert(catalog_names()[1] == "posthog_query_events"@);
    assert(catalog_names()[2] == "posthog_get_event_definitions"@);
    assert(catalog_names()[3] == "posthog_list_persons"@);
    assert(catalog_names()[4] == "posthog_get_person"@);
    assert(catalog_names()[5] == "posthog_search_persons"@);
    assert(catalog_names()[6] == "posthog_delete_person"@);
    assert(catalog_names()[7] == "posthog_list_feature_flags"@);
    assert(catalog_names()[8] == "posthog_get_feature_flag"@);
    assert(catalog_names()[9] == "posthog_create_feature_flag"@);
    assert(catalog_names()[10] == "posthog_update_feature_flag"@);
    assert(catalog_names()[11] == "posthog_toggle_feature_flag"@);
    assert(catalog_names()[12] == "posthog_list_insights"@);
    assert(catalog_names()[13] == "posthog_get_insight"@);
    assert(catalog_names()[14] == "posthog_create_trend_insight"@);
    assert(catalog_names()[15] == "posthog_list_cohorts"@);
    assert(catalog_names()[16] == "posthog_list_dashboards"@);
    assert(catalog_names()[17] == "posthog_list_projects"@);
}

/// Every tool that [`tools`] serves (those of [`catalog_names`]) and that this module runs is
/// handled: its first step is never the unknown-tool error.
pub proof fn lemma_catalog_handled(cfg: PosthogConfig, name: Seq<char>, args: Json)
    requires
        catalog_names().contains(name),
    ensures
        handle_view(cfg, name, args, seq![]) != fail_view("Unknown PostHog tool: "@ + name),
{
    reveal_strlit("Feature flag \"");
    reveal_strlit("Missing active (boolean)");
    reveal_strlit("Missing distinct_id");
    reveal_strlit("Missing event");
    reveal_strlit("Missing events (array)");
    reveal_strlit("Missing id");
    reveal_strlit("Missing key");
    reveal_strlit("Missing name");
    reveal_strlit("Missing query");
    reveal_strlit("Unexpected response format");
    reveal_strlit("events array must contain at least one event name");
    reveal_strlit("Unknown PostHog tool: ");
    assert(("Unknown PostHog tool: "@ + name)[0] == 'U');
    assert(catalog_names()[0] == "posthog_capture_event"@);
    assert(catalog_names()[1] == "posthog_query_events"@);
    assert(catalog_names()[2] == "posthog_get_event_definitions"@);
    assert(catalog_names()[3] == "posthog_list_persons"@);
    assert(catalog_names()[4] == "posthog_get_person"@);
    assert(catalog_names()[5] == "posthog_search_persons"@);
    assert(catalog_names()[6] == "posthog_delete_person"@);
    assert(catalog_names()[7] == "posthog_list_feature_flags"@);
    assert(catalog_names()[8] == "posthog_get_feature_flag"@);
    assert(catalog_names()[9] == "posthog_create_feature_flag"@);
    assert(catalog_names()[10] == "posthog_update_feature_flag"@);
    assert(catalog_names()[11] == "posthog_toggle_feature_flag"@);
    assert(catalog_names()[12] == "posthog_list_insights"@);
    assert(catalog_names()[13] == "posthog_get_insight"@);
    assert(catalog_names()[14] == "posthog_create_trend_insight"@);
    assert(catalog_names()[15] == "posthog_list_cohorts"@);
    assert(catalog_names()[16] == "posthog_list_dashboards"@);
    assert(catalog_names()[17] == "posthog_list_projects"@);
}

/// The names of each catalog tool's input properties and of those it requires, in catalog
/// order (properties by name).
pub open spec fn catalog_schemas() -> Seq<(Seq<char>, Seq<Seq<char>>, Seq<Seq<char>>)> {
    seq![
        ("posthog_capture_event"@, seq!["distinct_id"@, "event"@, "properties"@], seq!["event"@, "distinct_id"@]),
        ("posthog_query_events"@, seq!["event_name"@, "limit"@], seq![]),
        ("posthog_get_event_definitions"@, seq!["limit"@], seq![]),
        ("posthog_list_persons"@, seq!["limit"@], seq![]),
        ("posthog_get_person"@, seq!["id"@], seq!["id"@]),
        ("posthog_search_persons"@, seq!["query"@], seq!["query"@]),
        ("posthog_delete_person"@, seq!["id"@], seq!["id"@]),
        ("posthog_list_feature_flags"@, seq![], seq![]),
        ("posthog_get_feature_flag"@, seq!["id"@], seq!["id"@]),
        ("posthog_create_feature_flag"@, seq!["key"@, "name"@, "rollout_percentage"@], seq!["key"@, "name"@]),
        ("posthog_update_feature_flag"@, seq!["active"@, "id"@, "rollout_percentage"@], seq!["id"@]),
        ("posthog_toggle_feature_flag"@, seq!["active"@, "id"@], seq!["id"@, "active"@]),
        ("posthog_list_insights"@, seq!["limit"@], seq![]),
        ("posthog_get_insight"@, seq!["id"@], seq!["id"@]),
        ("posthog_create_trend_insight"@, seq!["events"@, "name"@], seq!["name"@, "events"@]),
        ("posthog_list_cohorts"@, seq![], seq![]),
        ("posthog_list_dashboards"@, seq![], seq![]),
        ("posthog_list_projects"@, seq![], seq![])
    ]
}

/// The names of each catalog tool's input properties and required inputs (see
/// [`catalog_schemas`]).
pub fn tool_schemas() -> (r: Vec<SchemaNames>)
    ensures
        r@.map_values(|e: SchemaNames| schema_view(e)) == catalog_schemas(),
{
    let r: Vec<SchemaNames> = vec![
        ("posthog_capture_event", vec!["distinct_id", "event", "properties"], vec!["event", "distinct_id"]),
        ("posthog_query_events", vec!["event_name", "limit"], vec![]),
        ("posthog_get_event_definitions", vec!["limit"], vec![]),
        ("posthog_list_persons", vec!["limit"], vec![]),
        ("posthog_get_person", vec!["id"], vec!["id"]),
        ("posthog_search_persons", vec!["query"], vec!["query"]),
        ("posthog_delete_person", vec!["id"], vec!["id"]),
        ("posthog_list_feature_flags", vec![], vec![]),
        ("posthog_get_feature_flag", vec!["id"], vec!["id"]),
        ("posthog_create_feature_flag", vec!["key", "name", "rollout_percentage"], vec!["key", "name"]),
        ("posthog_update_feature_flag", vec!["active", "id", "rollout_percentage"], vec!["id"]),
        ("posthog_toggle_feature_flag", vec!["active", "id"], vec!["id", "active"]),
        ("posthog_list_insights", vec!["limit"], vec![]),
        ("posthog_get_insight", vec!["id"], vec!["id"]),
        ("posthog_create_trend_insight", vec!["events", "name"], vec!["name", "events"]),
        ("posthog_list_cohorts", vec![], vec![]),
        ("posthog_list_dashboards", vec![], vec![]),
        ("posthog_list_projects", vec![], vec![])
    ];
    assert(r@[0].1@.map_values(|s: &'static str| s@) =~= catalog_schemas()[0].1);
    assert(r@[0].2@.map_values(|s: &'static str| s@) =~= catalog_schemas()[0].2);
    assert(r@[1].1@.map_values(|s: &'static str| s@) =~= catalog_schemas()[1].1);
    assert(r@[1].2@.map_values(|s: &'static str| s@) =~= catalog_schemas()[1].2);
    assert(r@[2].1@.map_values(|s: &'static str| s@) =~= catalog_schemas()[2].1);
    assert(r@[2].2@.map_values(|s: &'static str| s@) =~= catalog_schemas()[2].2);
    assert(r@[3].1@.map_values(|s: &'static str| s@) =~= catalog_schemas()[3].1);
    assert(r@[3].2@.map_values(|s: &'static str| s@) =~= catalog_schemas()[3].2);
    assert(r@[4].1@.map_values(|s: &'static str| s@) =~= catalog_schemas()[4].1);
    assert(r@[4].2@.map_values(|s: &'static str| s@) =~= catalog_schemas()[4].2);
    assert(r@[5].1@.map_values(|s: &'static str| s@) =~= catalog_schemas()[5].1);
    assert(r@[5].2@.map_values(|s: &'static str| s@) =~= catalog_schemas()[5].2);
    assert(r@[6].1@.map_values(|s: &'static str| s@) =~= catalog_schemas()[6].1);
    assert(r@[6].2@.map_values(|s: &'static str| s@) =~= catalog_schemas()[6].2);
    assert(r@[7].1@.map_values(|s: &'static str| s@) =~= catalog_schemas()[7].1);
    assert(r@[7].2@.map_values(|s: &'static str| s@) =~= catalog_schemas()[7].2);
    assert(r@[8].1@.map_values(|s: &'static str| s@) =~= catalog_schemas()[8].1);
    assert(r@[8].2@.map_values(|s: &'static str| s@) =~= catalog_schemas()[8].2);
    assert(r@[9].1@.map_values(|s: &'static str| s@) =~= catalog_schemas()[9].1);
    assert(r@[9].2@.map_values(|s: &'static str| s@) =~= catalog_schemas()[9].2);
    assert(r@[10].1@.map_values(|s: &'static str| s@) =~= catalog_schemas()[10].1);
    assert(r@[10].2@.map_values(|s: &'static str| s@) =~= catalog_schemas()[10].2);
    assert(r@[11].1@.map_values(|s: &'static str| s@) =~= catalog_schemas()[11].1);
    assert(r@[11].2@.map_values(|s: &'static str| s@) =~= catalog_schemas()[11].2);
    assert(r@[12].1@.map_values(|s: &'static str| s@) =~= catalog_schemas()[12].1);
    assert(r@[12].2@.map_values(|s: &'static str| s@) =~= catalog_schemas()[12].2);
    assert(r@[13].1@.map_values(|s: &'static str| s@) =~= catalog_schemas()[13].1);
    assert(r@[13].2@.map_values(|s: &'static str| s@) =~= catalog_schemas()[13].2);
    assert(r@[14].1@.map_values(|s: &'static str| s@) =~= catalog_schemas()[14].1);
    assert(r@[14].2@.map_values(|s: &'static str| s@) =~= catalog_schemas()[14].2);
    assert(r@[15].1@.map_values(|s: &'static str| s@) =~= catalog_schemas()[15].1);
    assert(r@[15].2@.map_values(|s: &'static str| s@) =~= catalog_schemas()[15].2);
    assert(r@[16].1@.map_values(|s: &'static str| s@) =~= catalog_schemas()[16].1);
    assert(r@[16].2@.map_values(|s: &'static str| s@) =~= catalog_schemas()[16].2);
    assert(r@[17].1@.map_values(|s: &'static str| s@) =~= catalog_schemas()[17].1);
    assert(r@[17].2@.map_values(|s: &'static str| s@) =~= catalog_schemas()[17].2);
    assert(r@.map_values(|e: SchemaNames| schema_view(e)) =~= catalog_schemas());
    r
}

/// Every tool of the catalog requires only inputs that are among its properties.
pub proof fn lemma_required_are_properties(i: int)
    requires
        0 <= i < catalog_schemas().len(),
    ensures
        requires_properties(catalog_schemas()[i]),
{
    if i == 0 {
        assert(catalog_schemas()[0].1[1] == catalog_schemas()[0].2[0]);
        assert(catalog_schemas()[0].1[0] == catalog_schemas()[0].2[1]);
    }
    if i == 4 {
        assert(catalog_schemas()[4].1[0] == catalog_schemas()[4].2[0]);
    }
    if i == 5 {
        assert(catalog_schemas()[5].1[0] == catalog_schemas()[5].2[0]);
    }
    if i == 6 {
        assert(catalog_schemas()[6].1[0] == catalog_schemas()[6].2[0]);
    }
    if i == 8 {
        assert(catalog_schemas()[8].1[0] == catalog_schemas()[8].2[0]);
    }
    if i == 9 {
        assert(catalog_schemas()[9].1[0] == catalog_schemas()[9].2[0]);
        assert(catalog_schemas()[9].1[1] == catalog_schemas()[9].2[1]);
    }
    if i == 10 {
        assert(catalog_schemas()[10].1[1] == catalog_schemas()[10].2[0]);
    }
    if i == 11 {
        assert(catalog_schemas()[11].1[1] == catalog_schemas()[11].2[0]);
        assert(catalog_schemas()[11].1[0] == catalog_schemas()[11].2[1]);
    }
    if i == 13 {
        assert(catalog_schemas()[13].1[0] == catalog_schemas()[13].2[0]);
    }
    if i == 14 {
        assert(catalog_schemas()[14].1[1] == catalog_schemas()[14].2[0]);
        assert(catalog_schemas()[14].1[0] == catalog_schemas()[14].2[1]);
    }
}

/// `posthog_capture_event` posts to the host's `/capture/` the project key, the
/// `distinct_id` argument as the person, the `event` argument as the event's name and the
/// `properties` argument (an empty object when absent).
pub proof fn lemma_capture_request(cfg: PosthogConfig, args: Json, ev: Seq<char>, did: Seq<char>)
    requires
        args.at("event"@).str_of() == Some(ev),
        args.at("distinct_id"@).str_of() == Some(did),
    ensures
        handle_view(cfg, "posthog_capture_event"@, args, seq![]) == send_view(
            Method::Post,
            trim_end_spec(cfg.host@, '/') + "/capture/"@,
            Some(
                "{\"api_key\":"@ + quoted(cfg.api_key@) + ",\"distinct_id\":"@ + quoted(did) + ",\"event\":"@
                    + quoted(ev) + ",\"properties\":"@ + match args.spec_get("properties"@) {
                    Some(p) => json_text(p),
                    None => "{}"@,
                } + "}"@,
            ),
        ),
{
}

/// `posthog_query_events` reads the project's events, at most 100 (20 by default), only those
/// named by the `event_name` argument (URL-encoded) when it is given.
pub proof fn lemma_query_events_request(cfg: PosthogConfig, args: Json)
    ensures
        handle_view(cfg, "posthog_query_events"@, args, seq![]) == send_view(
            Method::Get,
            project_url(
                cfg,
                match args.at("event_name"@).str_of() {
                    Some(e) => "/events?event="@ + encode_bytes(encode_utf8(e), false) + "&limit="@ + dec_int(
                        limit_of(args, 20, Some(100)),
                    ),
                    None => "/events?limit="@ + dec_int(limit_of(args, 20, Some(100))),
                },
            ),
            None,
        ),
{
    reveal_strlit("posthog_query_events");
    reveal_strlit("posthog_capture_event");
    assert("posthog_capture_event"@.len() == 21);
    assert("posthog_query_events"@.len() == 20);
}

} // verus!
