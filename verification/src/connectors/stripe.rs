//! Stripe connector (REST API v1).
use vstd::prelude::*;
use crate::connectors::catalog::{build_catalog, catalog_text, requires_properties, schema_view, texts, SchemaNames};
use vstd::string::StringSliceAdditionalSpecFns;
use crate::encoding::{
    encode_bytes, form_body, form_body_spec, is_url_safe, pct_encode, pct_pair, pct_pair_exec, pct_text,
    percent_encode,
};
use crate::fmt::{
    array_len_or_zero, get_array_len_text, get_str_or, join_spec, join_strings, join_strs, lemma_join_holds, lemma_join_push, str_or,
    string_views, views,
};
use crate::http::{fail_view, form_view, ok_view, send, send_form, send_view, Method, Step, StepView};
use crate::json::{get_array, get_bool, get_str, get_u64, json_text, to_json_string, Json};
use crate::text::{
    dec_int, dec_nat, i64_to_string, owned, push_char, push_chars, push_i64, push_str, push_u64, str_chars, str_eq,
    trim_start_char, trim_start_spec, trim_ws, trim_ws_spec, u64_to_string,
};
use crate::occurs::{lemma_occurs_append, lemma_occurs_prepend, lemma_occurs_tail3, lemma_occurs_trans, occurs};
use crate::timefmt::{utc_timestamp_opt_minute, utc_timestamp_opt_text};

verus! {

/// Stripe credentials (`~/.osmozzz/stripe.toml`).
pub struct StripeConfig {
    pub secret_key: String,
}

impl StripeConfig {
    /// The API URL of `path`, whatever slashes it starts with.
    pub fn api(&self, path: &str) -> (r: String)
        ensures
            r@ == "https://api.stripe.com/v1/"@ + trim_start_spec(path@, '/'),
    {
        let mut out = owned("https://api.stripe.com/v1/");
        push_chars(&mut out, &trim_start_char(&str_chars(path), '/'));
        out
    }
}

/// Percent-encodes a form value byte by byte, keeping only unreserved characters.
pub fn urlencoding_simple(s: &str) -> (r: String)
    ensures
        r@ == encode_bytes(s.spec_bytes(), false),
        forall|i: int| 0 <= i < r@.len() ==> is_url_safe(#[trigger] r@[i]),
{
    percent_encode(s, false)
}

/// The form body of a POST request: each key and value encoded, pairs joined by `&`.
pub fn post_form_body(params: &[(&str, &str)]) -> (r: String)
    ensures
        r@ == form_body_spec(params@),
{
    form_body(params)
}

/// What std `str::to_uppercase` returns for `s`.
pub uninterp spec fn uppercase_text(s: Seq<char>) -> Seq<char>;

/// Calls std `str::to_uppercase`. Claimed: the result is `uppercase_text(s)`, a function of
/// `s` alone.
#[verifier::external_body]
fn to_uppercase(s: &str) -> (r: String)
    ensures
        r@ == uppercase_text(s@),
{
    s.to_uppercase()
}

/// The currency code in capitals, as amounts show it.
pub fn currency_code(currency: &str) -> (r: String)
    ensures
        r@ == uppercase_text(currency@),
{
    to_uppercase(currency)
}

/// Currencies whose amounts have no minor unit.
pub open spec fn is_zero_decimal_spec(cur: Seq<char>) -> bool {
    cur == "JPY"@ || cur == "KRW"@ || cur == "VND"@ || cur == "CLP"@ || cur == "GNF"@ || cur
        == "MGA"@ || cur == "PYG"@ || cur == "RWF"@ || cur == "UGX"@ || cur == "XAF"@ || cur
        == "XOF"@
}

/// Whether a (capitalised) currency has no minor unit, so that amounts are shown whole.
pub fn is_zero_decimal(cur: &str) -> (r: bool)
    ensures
        r == is_zero_decimal_spec(cur@),
{
    str_eq(cur, "JPY") || str_eq(cur, "KRW") || str_eq(cur, "VND") || str_eq(cur, "CLP")
        || str_eq(cur, "GNF") || str_eq(cur, "MGA") || str_eq(cur, "PYG") || str_eq(cur, "RWF")
        || str_eq(cur, "UGX") || str_eq(cur, "XAF") || str_eq(cur, "XOF")
}

/// An amount of a zero-decimal currency: the amount, a space, the currency.
pub fn fmt_whole_amount(amount: i64, cur: &str) -> (r: String)
    ensures
        r@ == dec_int(amount as int) + " "@ + cur@,
{
    let mut out = String::new();
    push_i64(&mut out, amount);
    push_str(&mut out, " ");
    push_str(&mut out, cur);
    assert(Seq::<char>::empty() + dec_int(amount as int) == dec_int(amount as int));
    out
}

/// The rendering of a Unix timestamp: its minute when chrono can place it, else the number.
pub open spec fn ts_text(ts: i64) -> Seq<char> {
    match utc_timestamp_opt_text(ts as int) {
        Some(t) => t,
        None => dec_int(ts as int),
    }
}

/// Renders a Unix timestamp as `YYYY-MM-DD HH:MM UTC`.
pub fn fmt_ts(ts: i64) -> (r: String)
    ensures
        r@ == ts_text(ts),
{
    match utc_timestamp_opt_minute(ts) {
        Some(t) => t,
        None => i64_to_string(ts),
    }
}

/// Renders a JSON timestamp: an integer by [`fmt_ts`], anything else as `—`.
pub fn fmt_ts_val(v: &Json) -> (r: String)
    ensures
        r@ == match v.i64_of() {
            Some(ts) => ts_text(ts),
            None => "—"@,
        },
{
    match v.as_i64() {
        Some(ts) => fmt_ts(ts),
        None => owned("—"),
    }
}


// ─── Tool calls ──────────────────────────────────────────────────────────────

/// The API URL of `path` (see [`StripeConfig::api`]).
pub open spec fn api_url(path: Seq<char>) -> Seq<char> {
    "https://api.stripe.com/v1/"@ + trim_start_spec(path, '/')
}

/// A tool that makes one request: the request, then the outcome rendered from its response.
pub open spec fn one_call(req: StepView, rs: Seq<Json>, text: spec_fn(Json) -> Seq<char>) -> StepView {
    if rs.len() == 0 {
        req
    } else {
        ok_view(text(rs[0]))
    }
}

/// The error for a missing argument.
pub open spec fn missing_text(key: Seq<char>) -> Seq<char> {
    "Missing param: "@ + key
}

fn missing(key: &str) -> (s: Step)
    ensures
        s@ == fail_view(missing_text(key@)),
{
    let mut e = owned("Missing param: ");
    push_str(&mut e, key);
    Step::Done(Err(e))
}

fn ok_text(t: String) -> (s: Step)
    ensures
        s@ == ok_view(t@),
{
    Step::Done(Ok(t))
}

fn concat(a: &str, b: &str) -> (r: String)
    ensures
        r@ == a@ + b@,
{
    let mut r = owned(a);
    push_str(&mut r, b);
    r
}

/// A timestamp member as [`fmt_ts_val`] renders it.
pub open spec fn ts_at(j: Json, key: Seq<char>) -> Seq<char> {
    match j.at(key).i64_of() {
        Some(ts) => ts_text(ts),
        None => "—"@,
    }
}

fn get_ts(j: &Json, key: &str) -> (r: String)
    ensures
        r@ == ts_at(*j, key@),
{
    match j.get(key) {
        Some(v) => fmt_ts_val(v),
        None => owned("—"),
    }
}

/// A string argument when it is given and not empty.
pub open spec fn filled(args: Json, key: Seq<char>) -> Option<Seq<char>> {
    match args.at(key).str_of() {
        Some(s) => if s.len() > 0 {
            Some(s)
        } else {
            None
        },
        None => None,
    }
}

fn get_filled<'a>(args: &'a Json, key: &str) -> (r: Option<&'a str>)
    ensures
        match r {
            Some(s) => filled(*args, key@) == Some(s@),
            None => filled(*args, key@) is None,
        },
{
    match get_str(args, key) {
        Some(s) => if s.is_empty() {
            None
        } else {
            Some(s)
        },
        None => None,
    }
}

/// A limit argument, `d` by default, at most 100.
pub open spec fn limit_of(args: Json, d: nat) -> nat {
    let n: nat = match args.at("limit"@).u64_of() {
        Some(n) => n as nat,
        None => d,
    };
    if n > 100 {
        100
    } else {
        n
    }
}

fn get_limit(args: &Json, d: u64) -> (n: u64)
    ensures
        n == limit_of(*args, d as nat),
{
    let n = match get_u64(args, "limit") {
        Some(n) => n,
        None => d,
    };
    if n > 100 {
        100
    } else {
        n
    }
}

/// A quantity argument: 1 by default, at least 1.
pub open spec fn quantity_of(args: Json) -> nat {
    match args.at("quantity"@).u64_of() {
        Some(n) => if n >= 1 {
            n as nat
        } else {
            1
        },
        None => 1,
    }
}

fn get_quantity(args: &Json) -> (n: u64)
    ensures
        n == quantity_of(*args),
{
    match get_u64(args, "quantity") {
        Some(n) => if n >= 1 {
            n
        } else {
            1
        },
        None => 1,
    }
}

/// `lead` and the value, or nothing.
pub open spec fn opt_suffix(lead: Seq<char>, v: Option<Seq<char>>) -> Seq<char> {
    match v {
        Some(x) => lead + x,
        None => seq![],
    }
}

/// The first element of an array value (`null` when there is none).
pub open spec fn elem0(v: Json) -> Json {
    match v.array_of() {
        Some(a) => if a.len() > 0 {
            a[0]
        } else {
            Json::Null
        },
        None => Json::Null,
    }
}

fn elem0_exec(v: &Json) -> (r: Option<&Json>)
    ensures
        match r {
            Some(e) => elem0(*v) == *e,
            None => elem0(*v) == Json::Null,
        },
{
    match v.as_array() {
        Some(a) => if a.len() > 0 {
            Some(&a[0])
        } else {
            None
        },
        None => None,
    }
}

/// The kinds of listed items.
#[derive(Clone, Copy)]
pub enum Listed {
    Customer,
    Subscription,
    Event,
    Webhook,
    Product,
}

/// The price of the first item of a subscription.
pub open spec fn sub_price(sub: Json) -> Json {
    elem0(sub.at("items"@).at("data"@)).at("price"@)
}

/// One listed item.
pub open spec fn item_text(kind: Listed, j: Json) -> Seq<char> {
    let id = str_or(j, "id"@, "?"@);
    match kind {
        Listed::Customer => "👤 "@ + str_or(j, "name"@, "—"@) + "\n  id="@ + id + " · email="@ + str_or(
            j,
            "email"@,
            "—"@,
        ) + "\n  tél="@ + str_or(j, "phone"@, "—"@) + " · créé="@ + ts_at(j, "created"@),
        Listed::Subscription => "🔄 "@ + id + "\n  client="@ + str_or(j, "customer"@, "—"@) + " · statut="@
            + str_or(j, "status"@, "?"@) + "\n  fin_période="@ + ts_at(j, "current_period_end"@) + "\n  prix="@
            + str_or(sub_price(j), "id"@, "—"@) + " · produit="@ + str_or(sub_price(j), "product"@, "—"@),
        Listed::Event => "⚡ "@ + str_or(j, "type"@, "?"@) + "\n  id="@ + id + " · "@ + ts_at(j, "created"@)
            + "\n  api_version="@ + str_or(j, "api_version"@, "—"@) + " · mode="@ + if match j.at(
            "livemode"@,
        ).bool_of() {
            Some(b) => b,
            None => false,
        } {
            "live"@
        } else {
            "test"@
        },
        Listed::Webhook => {
            let status = str_or(j, "status"@, "?"@);
            (if status == "enabled"@ {
                "✅"@
            } else {
                "❌"@
            }) + " "@ + str_or(j, "url"@, "—"@) + "\n  id="@ + id + " · statut="@ + status + "\n  événements="@
                + dec_nat(array_len_or_zero(j, "enabled_events"@)) + " · créé="@ + ts_at(j, "created"@)
        },
        Listed::Product => "📦 "@ + str_or(j, "name"@, "—"@) + "\n  id="@ + id + " · statut="@ + (if match j.at(
            "active"@,
        ).bool_of() {
            Some(b) => b,
            None => false,
        } {
            "actif"@
        } else {
            "inactif"@
        }) + "\n  description="@ + str_or(j, "description"@, "—"@) + "\n  créé="@ + ts_at(j, "created"@),
    }
}

fn format_item(kind: Listed, j: &Json) -> (r: String)
    ensures
        r@ == item_text(kind, *j),
{
    let id = get_str_or(j, "id", "?");
    let mut out = String::new();
    match kind {
        Listed::Customer => {
            push_str(&mut out, "👤 ");
            push_str(&mut out, get_str_or(j, "name", "—"));
            push_str(&mut out, "\n  id=");
            push_str(&mut out, id);
            push_str(&mut out, " · email=");
            push_str(&mut out, get_str_or(j, "email", "—"));
            push_str(&mut out, "\n  tél=");
            push_str(&mut out, get_str_or(j, "phone", "—"));
            push_str(&mut out, " · créé=");
            push_str(&mut out, get_ts(j, "created").as_str());
        },
        Listed::Subscription => {
            let null = Json::Null;
            let price = match j.get("items") {
                Some(items) => match items.get("data") {
                    Some(d) => match elem0_exec(d) {
                        Some(e) => match e.get("price") {
                            Some(p) => p,
                            None => &null,
                        },
                        None => &null,
                    },
                    None => &null,
                },
                None => &null,
            };
            assert(*price == sub_price(*j));
            push_str(&mut out, "🔄 ");
            push_str(&mut out, id);
            push_str(&mut out, "\n  client=");
            push_str(&mut out, get_str_or(j, "customer", "—"));
            push_str(&mut out, " · statut=");
            push_str(&mut out, get_str_or(j, "status", "?"));
            push_str(&mut out, "\n  fin_période=");
            push_str(&mut out, get_ts(j, "current_period_end").as_str());
            push_str(&mut out, "\n  prix=");
            push_str(&mut out, get_str_or(price, "id", "—"));
            push_str(&mut out, " · produit=");
            push_str(&mut out, get_str_or(price, "product", "—"));
        },
        Listed::Event => {
            let live = match get_bool(j, "livemode") {
                Some(b) => b,
                None => false,
            };
            push_str(&mut out, "⚡ ");
            push_str(&mut out, get_str_or(j, "type", "?"));
            push_str(&mut out, "\n  id=");
            push_str(&mut out, id);
            push_str(&mut out, " · ");
            push_str(&mut out, get_ts(j, "created").as_str());
            push_str(&mut out, "\n  api_version=");
            push_str(&mut out, get_str_or(j, "api_version", "—"));
            push_str(&mut out, " · mode=");
            push_str(&mut out, if live { "live" } else { "test" });
        },
        Listed::Webhook => {
            let status = get_str_or(j, "status", "?");
            push_str(&mut out, if str_eq(status, "enabled") { "✅" } else { "❌" });
            push_str(&mut out, " ");
            push_str(&mut out, get_str_or(j, "url", "—"));
            push_str(&mut out, "\n  id=");
            push_str(&mut out, id);
            push_str(&mut out, " · statut=");
            push_str(&mut out, status);
            push_str(&mut out, "\n  événements=");
            push_str(&mut out, get_array_len_text(j, "enabled_events").as_str());
            push_str(&mut out, " · créé=");
            push_str(&mut out, get_ts(j, "created").as_str());
        },
        Listed::Product => {
            let active = match get_bool(j, "active") {
                Some(b) => b,
                None => false,
            };
            push_str(&mut out, "📦 ");
            push_str(&mut out, get_str_or(j, "name", "—"));
            push_str(&mut out, "\n  id=");
            push_str(&mut out, id);
            push_str(&mut out, " · statut=");
            push_str(&mut out, if active { "actif" } else { "inactif" });
            push_str(&mut out, "\n  description=");
            push_str(&mut out, get_str_or(j, "description", "—"));
            push_str(&mut out, "\n  créé=");
            push_str(&mut out, get_ts(j, "created").as_str());
        },
    }
    assert(out@ =~= item_text(kind, *j));
    out
}

/// The texts of the items.
pub open spec fn item_texts(kind: Listed, items: Seq<Json>) -> Seq<Seq<char>> {
    items.map_values(|j: Json| item_text(kind, j))
}

/// The items of a list response (`data`).
pub open spec fn items_of(r: Json) -> Seq<Json> {
    match r.at("data"@).array_of() {
        Some(a) => a,
        None => seq![],
    }
}

/// A list response: `empty` when it has no item, else `title`, the count and the items
/// separated by blank lines.
pub open spec fn listing(kind: Listed, r: Json, title: Seq<char>, empty: Seq<char>) -> Seq<char> {
    let items = items_of(r);
    if items.len() == 0 {
        empty
    } else {
        title + " ("@ + dec_nat(items.len()) + ") :\n\n"@ + join_spec(item_texts(kind, items), "\n\n"@)
    }
}

fn listing_exec(kind: Listed, r: &Json, title: &str, empty: &str) -> (t: String)
    ensures
        t@ == listing(kind, *r, title@, empty@),
{
    let items = match get_array(r, "data") {
        Some(a) => a,
        None => return owned(empty),
    };
    let n = items.len();
    if n == 0 {
        return owned(empty);
    }
    let mut parts: Vec<String> = Vec::new();
    for i in 0..n
        invariant
            n == items@.len(),
            string_views(parts@) == item_texts(kind, items@.take(i as int)),
    {
        let ghost before = parts@;
        parts.push(format_item(kind, &items[i]));
        assert(string_views(parts@) =~= string_views(before).push(item_text(kind, items@[i as int])));
        assert(item_texts(kind, items@.take(i + 1)) =~= item_texts(kind, items@.take(i as int)).push(
            item_text(kind, items@[i as int]),
        ));
    }
    assert(items@.take(n as int) == items@);
    let mut out = owned(title);
    push_str(&mut out, " (");
    push_u64(&mut out, n as u64);
    push_str(&mut out, ") :\n\n");
    push_str(&mut out, join_strings(&parts, "\n\n").as_str());
    out
}

/// `pairs` with the pair `key=value` appended when there is a value.
pub open spec fn with_pair(pairs: Seq<Seq<char>>, key: Seq<char>, v: Option<Seq<char>>) -> Seq<Seq<char>> {
    match v {
        Some(x) => pairs.push(pct_pair(key, x)),
        None => pairs,
    }
}

fn push_pair(pairs: &mut Vec<String>, key: &str, v: Option<&str>)
    ensures
        string_views(final(pairs)@) == with_pair(
            string_views(old(pairs)@),
            key@,
            match v {
                Some(x) => Some(x@),
                None => None,
            },
        ),
{
    match v {
        Some(x) => {
            let ghost before = pairs@;
            pairs.push(pct_pair_exec(key, x));
            assert(string_views(pairs@) =~= string_views(before).push(pct_pair(key@, x@)));
        },
        None => {},
    }
}

/// A form body of pairs.
pub open spec fn form_of(pairs: Seq<Seq<char>>) -> Seq<char> {
    join_spec(pairs, "&"@)
}

/// A `POST` of a form to an API path.
pub open spec fn post_view(path: Seq<char>, pairs: Seq<Seq<char>>) -> StepView {
    form_view(api_url(path), form_of(pairs))
}

fn post_step(cfg: &StripeConfig, path: &str, pairs: &Vec<String>) -> (s: Step)
    ensures
        s@ == post_view(path@, string_views(pairs@)),
{
    send_form(cfg.api(path), join_strings(pairs, "&"))
}

/// A `GET` of an API URL.
pub open spec fn get_view(url: Seq<char>) -> StepView {
    send_view(Method::Get, url, None)
}


/// One event of the list given to `stripe_create_webhook`, as a form pair when it is not
/// blank once trimmed.
pub open spec fn event_piece(cur: Seq<char>) -> Seq<char> {
    let t = trim_ws_spec(cur);
    if t.len() > 0 {
        "&enabled_events[]="@ + pct_text(t)
    } else {
        seq![]
    }
}

/// Reading a comma-separated list: the pairs of the events read, and the event being read.
pub open spec fn scan_events(s: Seq<char>) -> (Seq<char>, Seq<char>)
    decreases s.len(),
{
    if s.len() == 0 {
        (seq![], seq![])
    } else {
        let (b, cur) = scan_events(s.drop_last());
        if s.last() == ',' {
            (b + event_piece(cur), seq![])
        } else {
            (b, cur.push(s.last()))
        }
    }
}

/// The form pairs of the events of a comma-separated list, blank ones left out.
pub open spec fn events_form(s: Seq<char>) -> Seq<char> {
    scan_events(s).0 + event_piece(scan_events(s).1)
}

fn event_piece_exec(cur: &String) -> (r: String)
    ensures
        r@ == event_piece(cur@),
{
    let t = trim_ws(cur.as_str());
    if t.as_str().is_empty() {
        String::new()
    } else {
        concat("&enabled_events[]=", pct_encode(t.as_str()).as_str())
    }
}

fn events_form_exec(s: &str) -> (r: String)
    ensures
        r@ == events_form(s@),
{
    let cs = str_chars(s);
    let n = cs.len();
    let mut body = String::new();
    let mut cur = String::new();
    for i in 0..n
        invariant
            n == cs@.len(),
            cs@ == s@,
            (body@, cur@) == scan_events(cs@.take(i as int)),
    {
        assert(cs@.take(i + 1).drop_last() == cs@.take(i as int));
        assert(cs@.take(i + 1).last() == cs@[i as int]);
        if cs[i] == ',' {
            let piece = event_piece_exec(&cur);
            push_str(&mut body, piece.as_str());
            cur = String::new();
        } else {
            push_char(&mut cur, cs[i]);
        }
    }
    assert(cs@.take(n as int) == cs@);
    let last = event_piece_exec(&cur);
    push_str(&mut body, last.as_str());
    body
}


/// The URL of `stripe_list_customers`.
pub open spec fn customers_url(args: Json) -> Seq<char> {
    api_url("customers"@) + "?limit="@ + dec_nat(limit_of(args, 10)) + match filled(args, "email"@) {
        Some(e) => "&email="@ + pct_text(e),
        None => seq![],
    }
}

/// The URL of `stripe_list_subscriptions`: `all` (or an empty status) lists every status.
pub open spec fn subscriptions_url(args: Json) -> Seq<char> {
    let status = str_or(args, "status"@, "active"@);
    api_url("subscriptions"@) + "?limit="@ + dec_nat(limit_of(args, 10)) + match filled(args, "customer_id"@) {
        Some(c) => "&customer="@ + pct_text(c),
        None => seq![],
    } + if status != "all"@ && status.len() > 0 {
        "&status="@ + pct_text(status)
    } else {
        seq![]
    }
}

/// The URL of `stripe_list_events`; `now` is the current Unix time.
pub open spec fn events_url(args: Json, now: i64) -> Seq<char> {
    api_url("events"@) + "?limit="@ + dec_nat(limit_of(args, 20)) + match filled(args, "event_type"@) {
        Some(t) => "&type="@ + pct_text(t),
        None => seq![],
    } + match args.at("since_hours"@).i64_of() {
        Some(h) => "&created[gte]="@ + dec_int(now - h * 3600),
        None => seq![],
    }
}

/// The time arithmetic of `stripe_list_events` stays within `i64`.
pub open spec fn events_time_ok(args: Json, now: i64) -> bool {
    args.at("since_hours"@).i64_of() matches Some(h) ==> i64::MIN <= now - h * 3600 <= i64::MAX && i64::MIN
        <= h * 3600 <= i64::MAX
}

/// The names of members.
pub open spec fn field_names(fs: Seq<(String, Json)>) -> Seq<Seq<char>> {
    fs.map_values(|f: (String, Json)| f.0@)
}

/// The members of an object, their first eight names joined with `, `.
pub open spec fn field_summary(v: Json) -> Seq<char> {
    match v {
        Json::Object(fields) => join_spec(
            field_names(fields@.take(if fields@.len() > 8 {
                8
            } else {
                fields@.len() as int
            })),
            ", "@,
        ),
        _ => "—"@,
    }
}

/// `stripe_get_event`.
pub open spec fn event_text(id: Seq<char>, ev: Json) -> Seq<char> {
    "STRIPE 💳 — Événement "@ + id + "\n  type="@ + str_or(ev, "type"@, "?"@) + "\n  créé="@ + ts_at(ev, "created"@)
        + "\n  api_version="@ + str_or(ev, "api_version"@, "—"@) + " · mode="@ + (if match ev.at(
        "livemode"@,
    ).bool_of() {
        Some(b) => b,
        None => false,
    } {
        "live"@
    } else {
        "test"@
    }) + "\n  données (champs) : "@ + field_summary(ev.at("data"@).at("object"@))
}

/// The subscribed events of a webhook, one line each.
pub open spec fn event_lines(es: Seq<Json>) -> Seq<Seq<char>> {
    es.map_values(|e: Json| "  • "@ + match e.str_of() {
        Some(s) => s,
        None => "?"@,
    })
}

/// `stripe_get_webhook`.
pub open spec fn webhook_text(id: Seq<char>, wh: Json) -> Seq<char> {
    let es = match wh.at("enabled_events"@).array_of() {
        Some(a) => a,
        None => seq![],
    };
    "STRIPE 💳 — Webhook "@ + id + "\n  url="@ + str_or(wh, "url"@, "—"@) + "\n  statut="@ + str_or(wh, "status"@, "?"@)
        + "\n  api_version="@ + str_or(wh, "api_version"@, "—"@) + "\n  créé="@ + ts_at(wh, "created"@)
        + "\n\nÉvénements abonnés ("@ + dec_nat(es.len()) + ") :\n"@ + if es.len() == 0 {
        "  (aucun)"@
    } else {
        join_spec(event_lines(es), "\n"@)
    }
}

/// The optional customer fields of a form, when given and not empty.
pub open spec fn customer_pairs(start: Seq<Seq<char>>, args: Json) -> Seq<Seq<char>> {
    with_pair(
        with_pair(with_pair(start, "name"@, filled(args, "name"@)), "phone"@, filled(args, "phone"@)),
        "description"@,
        filled(args, "description"@),
    )
}

/// The form of `stripe_create_checkout_session`.
pub open spec fn checkout_pairs(args: Json, price: Seq<char>, success: Seq<char>) -> Seq<Seq<char>> {
    seq![
        pct_pair("line_items[0][price]"@, price),
        pct_pair("line_items[0][quantity]"@, dec_nat(quantity_of(args))),
        pct_pair("success_url"@, success),
        pct_pair("cancel_url"@, str_or(args, "cancel_url"@, success)),
        pct_pair("mode"@, str_or(args, "mode"@, "payment"@)),
    ]
}

pub open spec fn list_customers_view(args: Json, rs: Seq<Json>) -> StepView {
        one_call(
            get_view(customers_url(args)),
            rs,
            |r: Json| listing(Listed::Customer, r, "STRIPE 💳 — Clients"@, "STRIPE 💳 — Aucun client trouvé."@),
        )
    }

pub open spec fn create_customer_view(args: Json, rs: Seq<Json>) -> StepView {
        match args.at("email"@).str_of() {
            None => fail_view(missing_text("email"@)),
            Some(email) => one_call(
                post_view("customers"@, customer_pairs(seq![pct_pair("email"@, email)], args)),
                rs,
                |r: Json|
                    "STRIPE 💳 — ✅ Client créé.\n  id="@ + str_or(r, "id"@, "?"@) + " · email="@ + email + " · créé="@
                        + ts_at(r, "created"@),
            ),
        }
    }

pub open spec fn list_subscriptions_view(args: Json, rs: Seq<Json>) -> StepView {
        one_call(
            get_view(subscriptions_url(args)),
            rs,
            |r: Json|
                listing(Listed::Subscription, r, "STRIPE 💳 — Abonnements"@, "STRIPE 💳 — Aucun abonnement trouvé."@),
        )
    }

pub open spec fn list_events_view(args: Json, now: i64, rs: Seq<Json>) -> StepView {
        one_call(
            get_view(events_url(args, now)),
            rs,
            |r: Json| listing(Listed::Event, r, "STRIPE 💳 — Événements"@, "STRIPE 💳 — Aucun événement trouvé."@),
        )
    }

pub open spec fn get_event_view(args: Json, rs: Seq<Json>) -> StepView {
        match args.at("event_id"@).str_of() {
            None => fail_view(missing_text("event_id"@)),
            Some(id) => one_call(get_view(api_url("events/"@ + id)), rs, |r: Json| event_text(id, r)),
        }
    }

pub open spec fn list_webhooks_view(args: Json, rs: Seq<Json>) -> StepView {
        one_call(
            get_view(api_url("webhook_endpoints"@)),
            rs,
            |r: Json| listing(Listed::Webhook, r, "STRIPE 💳 — Webhooks"@, "STRIPE 💳 — Aucun webhook configuré."@),
        )
    }

pub open spec fn get_webhook_view(args: Json, rs: Seq<Json>) -> StepView {
        match args.at("webhook_id"@).str_of() {
            None => fail_view(missing_text("webhook_id"@)),
            Some(id) => one_call(get_view(api_url("webhook_endpoints/"@ + id)), rs, |r: Json| webhook_text(id, r)),
        }
    }

pub open spec fn create_webhook_view(args: Json, rs: Seq<Json>) -> StepView {
        match args.at("url"@).str_of() {
            None => fail_view(missing_text("url"@)),
            Some(u) => match args.at("events"@).str_of() {
                None => fail_view(missing_text("events"@)),
                Some(es) => one_call(
                    form_view(api_url("webhook_endpoints"@), "url="@ + pct_text(u) + events_form(es)),
                    rs,
                    |r: Json|
                        "STRIPE 💳 — ✅ Webhook créé.\n  id="@ + str_or(r, "id"@, "?"@) + " · url="@ + u + "\n  statut="@
                            + str_or(r, "status"@, "?"@) + " · événements="@ + dec_nat(
                            array_len_or_zero(r, "enabled_events"@),
                        ),
                ),
            },
        }
    }

pub open spec fn search_customers_view(args: Json, rs: Seq<Json>) -> StepView {
        match args.at("query"@).str_of() {
            None => fail_view(missing_text("query"@)),
            Some(q) => one_call(
                get_view(
                    api_url("customers/search"@) + "?query="@ + pct_text(q) + "&limit="@ + dec_nat(limit_of(args, 10)),
                ),
                rs,
                |r: Json| listing(Listed::Customer, r, "STRIPE 💳 — Clients trouvés"@, "STRIPE 💳 — Aucun client trouvé."@),
            ),
        }
    }

pub open spec fn update_customer_view(args: Json, rs: Seq<Json>) -> StepView {
        match args.at("customer_id"@).str_of() {
            None => fail_view(missing_text("customer_id"@)),
            Some(id) => one_call(
                post_view("customers/"@ + id, customer_pairs(with_pair(seq![], "email"@, filled(args, "email"@)), args)),
                rs,
                |r: Json| "STRIPE 💳 — ✅ Client mis à jour.\n  id="@ + str_or(r, "id"@, "?"@),
            ),
        }
    }

pub open spec fn list_products_view(args: Json, rs: Seq<Json>) -> StepView {
        one_call(
            get_view(
                api_url("products"@) + "?limit="@ + dec_nat(limit_of(args, 20)) + "&active="@ + json_text(
                    Json::Bool(
                        match args.at("active"@).bool_of() {
                            Some(b) => b,
                            None => true,
                        },
                    ),
                ),
            ),
            rs,
            |r: Json| listing(Listed::Product, r, "STRIPE 💳 — Produits"@, "STRIPE 💳 — Aucun produit trouvé."@),
        )
    }

pub open spec fn create_product_view(args: Json, rs: Seq<Json>) -> StepView {
        match args.at("name"@).str_of() {
            None => fail_view(missing_text("name"@)),
            Some(n) => one_call(
                post_view(
                    "products"@,
                    with_pair(seq![pct_pair("name"@, n)], "description"@, filled(args, "description"@)),
                ),
                rs,
                |r: Json|
                    "STRIPE 💳 — ✅ Produit créé.\n  id="@ + str_or(r, "id"@, "?"@) + " · nom="@ + str_or(r, "name"@, "?"@),
            ),
        }
    }

pub open spec fn create_subscription_view(args: Json, rs: Seq<Json>) -> StepView {
        match args.at("customer_id"@).str_of() {
            None => fail_view(missing_text("customer_id"@)),
            Some(c) => match args.at("price_id"@).str_of() {
                None => fail_view(missing_text("price_id"@)),
                Some(p) => one_call(
                    post_view(
                        "subscriptions"@,
                        with_pair(
                            seq![pct_pair("customer"@, c), pct_pair("items[0][price]"@, p)],
                            "trial_period_days"@,
                            match args.at("trial_days"@).i64_of() {
                                Some(d) => Some(dec_int(d as int)),
                                None => None,
                            },
                        ),
                    ),
                    rs,
                    |r: Json|
                        "STRIPE 💳 — ✅ Abonnement créé.\n  id="@ + str_or(r, "id"@, "?"@) + " · statut="@ + str_or(
                            r,
                            "status"@,
                            "?"@,
                        ) + "\n  fin_période="@ + ts_at(r, "current_period_end"@),
                ),
            },
        }
    }

pub open spec fn create_payment_link_view(args: Json, rs: Seq<Json>) -> StepView {
        match args.at("price_id"@).str_of() {
            None => fail_view(missing_text("price_id"@)),
            Some(p) => one_call(
                post_view(
                    "payment_links"@,
                    seq![
                        pct_pair("line_items[0][price]"@, p),
                        pct_pair("line_items[0][quantity]"@, dec_nat(quantity_of(args))),
                    ],
                ),
                rs,
                |r: Json|
                    "STRIPE 💳 — ✅ Lien de paiement créé."@ + "\n  id="@ + str_or(r, "id"@, "?"@) + "\n  url="@ + str_or(
                        r,
                        "url"@,
                        "?"@,
                    ),
            ),
        }
    }

pub open spec fn create_checkout_session_view(args: Json, rs: Seq<Json>) -> StepView {
        match args.at("price_id"@).str_of() {
            None => fail_view(missing_text("price_id"@)),
            Some(p) => match args.at("success_url"@).str_of() {
                None => fail_view(missing_text("success_url"@)),
                Some(su) => one_call(
                    post_view("checkout/sessions"@, checkout_pairs(args, p, su)),
                    rs,
                    |r: Json|
                        "STRIPE 💳 — ✅ Session Checkout créée."@ + "\n  id="@ + str_or(r, "id"@, "?"@) + "\n  url="@ + str_or(
                            r,
                            "url"@,
                            "?"@,
                        ),
                ),
            },
        }
    }

/// What a call of Stripe tool `name` with `args` does next, given the responses so far;
/// `now` is the current Unix time.
pub open spec fn handle_view(name: Seq<char>, args: Json, now: i64, rs: Seq<Json>) -> StepView {
    if name == "stripe_list_customers"@ {
        list_customers_view(args, rs)
    } else if name == "stripe_create_customer"@ {
        create_customer_view(args, rs)
    } else if name == "stripe_list_subscriptions"@ {
        list_subscriptions_view(args, rs)
    } else if name == "stripe_list_events"@ {
        list_events_view(args, now, rs)
    } else if name == "stripe_get_event"@ {
        get_event_view(args, rs)
    } else if name == "stripe_list_webhooks"@ {
        list_webhooks_view(args, rs)
    } else if name == "stripe_get_webhook"@ {
        get_webhook_view(args, rs)
    } else if name == "stripe_create_webhook"@ {
        create_webhook_view(args, rs)
    } else if name == "stripe_search_customers"@ {
        search_customers_view(args, rs)
    } else if name == "stripe_update_customer"@ {
        update_customer_view(args, rs)
    } else if name == "stripe_list_products"@ {
        list_products_view(args, rs)
    } else if name == "stripe_create_product"@ {
        create_product_view(args, rs)
    } else if name == "stripe_create_subscription"@ {
        create_subscription_view(args, rs)
    } else if name == "stripe_create_payment_link"@ {
        create_payment_link_view(args, rs)
    } else if name == "stripe_create_checkout_session"@ {
        create_checkout_session_view(args, rs)
    } else {
        fail_view("Unknown stripe tool: "@ + name)
    }
}

/// The tools whose results show amounts, which the library does not render (amounts are
/// shown through floating-point division), or a response in its debug form.
pub open spec fn rendered_elsewhere(name: Seq<char>) -> bool {
    name == "stripe_get_balance"@ || name == "stripe_get_customer"@ || name == "stripe_list_payment_intents"@
        || name == "stripe_get_payment_intent"@ || name == "stripe_get_subscription"@ || name
        == "stripe_list_invoices"@ || name == "stripe_get_invoice"@ || name == "stripe_delete_webhook"@
        || name == "stripe_list_payouts"@ || name == "stripe_get_payout"@ || name == "stripe_list_prices"@
        || name == "stripe_create_price"@
}


fn get_step(url: String) -> (s: Step)
    ensures
        s@ == get_view(url@),
{
    send(Method::Get, url, None)
}

fn push_filled(out: &mut String, lead: &str, args: &Json, key: &str)
    ensures
        final(out)@ == old(out)@ + match filled(*args, key@) {
            Some(v) => lead@ + pct_text(v),
            None => seq![],
        },
{
    match get_filled(args, key) {
        Some(v) => {
            push_str(out, lead);
            push_str(out, pct_encode(v).as_str());
        },
        None => {},
    }
}

fn list_customers(cfg: &StripeConfig, args: &Json, rs: &Vec<Json>) -> (s: Step)
    ensures
        s@ == list_customers_view(*args, rs@),
{
    if rs.len() == 0 {
        let mut url = cfg.api("customers");
        push_str(&mut url, "?limit=");
        push_u64(&mut url, get_limit(args, 10));
        push_filled(&mut url, "&email=", args, "email");
        return get_step(url);
    }
    ok_text(listing_exec(Listed::Customer, &rs[0], "STRIPE 💳 — Clients", "STRIPE 💳 — Aucun client trouvé."))
}

fn customer_pairs_exec(pairs: &mut Vec<String>, args: &Json)
    ensures
        string_views(final(pairs)@) == customer_pairs(string_views(old(pairs)@), *args),
{
    push_pair(pairs, "name", get_filled(args, "name"));
    push_pair(pairs, "phone", get_filled(args, "phone"));
    push_pair(pairs, "description", get_filled(args, "description"));
}

fn create_customer(cfg: &StripeConfig, args: &Json, rs: &Vec<Json>) -> (s: Step)
    ensures
        s@ == create_customer_view(*args, rs@),
{
    let email = match get_str(args, "email") {
        None => return missing("email"),
        Some(x) => x,
    };
    if rs.len() == 0 {
        let mut pairs: Vec<String> = Vec::new();
        pairs.push(pct_pair_exec("email", email));
        assert(string_views(pairs@) =~= seq![pct_pair("email"@, email@)]);
        customer_pairs_exec(&mut pairs, args);
        return post_step(cfg, "customers", &pairs);
    }
    let r = &rs[0];
    let mut out = owned("STRIPE 💳 — ✅ Client créé.\n  id=");
    push_str(&mut out, get_str_or(r, "id", "?"));
    push_str(&mut out, " · email=");
    push_str(&mut out, email);
    push_str(&mut out, " · créé=");
    push_str(&mut out, get_ts(r, "created").as_str());
    ok_text(out)
}

fn list_subscriptions(cfg: &StripeConfig, args: &Json, rs: &Vec<Json>) -> (s: Step)
    ensures
        s@ == list_subscriptions_view(*args, rs@),
{
    if rs.len() == 0 {
        let status = get_str_or(args, "status", "active");
        let mut url = cfg.api("subscriptions");
        push_str(&mut url, "?limit=");
        push_u64(&mut url, get_limit(args, 10));
        push_filled(&mut url, "&customer=", args, "customer_id");
        if !str_eq(status, "all") && !status.is_empty() {
            push_str(&mut url, "&status=");
            push_str(&mut url, pct_encode(status).as_str());
        }
        assert(url@ =~= subscriptions_url(*args));
        return get_step(url);
    }
    ok_text(
        listing_exec(Listed::Subscription, &rs[0], "STRIPE 💳 — Abonnements", "STRIPE 💳 — Aucun abonnement trouvé."),
    )
}

fn list_events(cfg: &StripeConfig, args: &Json, now: i64, rs: &Vec<Json>) -> (s: Step)
    requires
        events_time_ok(*args, now),
    ensures
        s@ == list_events_view(*args, now, rs@),
{
    if rs.len() == 0 {
        let mut url = cfg.api("events");
        push_str(&mut url, "?limit=");
        push_u64(&mut url, get_limit(args, 20));
        push_filled(&mut url, "&type=", args, "event_type");
        match args.get("since_hours") {
            Some(v) => match v.as_i64() {
                Some(h) => {
                    push_str(&mut url, "&created[gte]=");
                    push_i64(&mut url, now - h * 3600);
                },
                None => {},
            },
            None => {},
        }
        assert(url@ =~= events_url(*args, now));
        return get_step(url);
    }
    ok_text(listing_exec(Listed::Event, &rs[0], "STRIPE 💳 — Événements", "STRIPE 💳 — Aucun événement trouvé."))
}

fn field_summary_exec(v: &Json) -> (t: String)
    ensures
        t@ == field_summary(*v),
{
    match v {
        Json::Object(fields) => {
            let k = if fields.len() > 8 { 8 } else { fields.len() };
            let mut names: Vec<&str> = Vec::new();
            for i in 0..k
                invariant
                    k <= fields@.len(),
                    views(names@) == field_names(fields@.take(i as int)),
            {
                let ghost before = names@;
                names.push(fields[i].0.as_str());
                assert(views(names@) =~= views(before).push(fields@[i as int].0@));
                assert(field_names(fields@.take(i + 1)) =~= field_names(fields@.take(i as int)).push(
                    fields@[i as int].0@,
                ));
            }
            join_strs(&names, ", ")
        },
        _ => owned("—"),
    }
}

fn get_event(cfg: &StripeConfig, args: &Json, rs: &Vec<Json>) -> (s: Step)
    ensures
        s@ == get_event_view(*args, rs@),
{
    let id = match get_str(args, "event_id") {
        None => return missing("event_id"),
        Some(x) => x,
    };
    if rs.len() == 0 {
        return get_step(cfg.api(concat("events/", id).as_str()));
    }
    let ev = &rs[0];
    let null = Json::Null;
    let obj = match ev.get("data") {
        Some(d) => match d.get("object") {
            Some(o) => o,
            None => &null,
        },
        None => &null,
    };
    let live = match get_bool(ev, "livemode") {
        Some(b) => b,
        None => false,
    };
    let mut out = owned("STRIPE 💳 — Événement ");
    push_str(&mut out, id);
    push_str(&mut out, "\n  type=");
    push_str(&mut out, get_str_or(ev, "type", "?"));
    push_str(&mut out, "\n  créé=");
    push_str(&mut out, get_ts(ev, "created").as_str());
    push_str(&mut out, "\n  api_version=");
    push_str(&mut out, get_str_or(ev, "api_version", "—"));
    push_str(&mut out, " · mode=");
    push_str(&mut out, if live { "live" } else { "test" });
    push_str(&mut out, "\n  données (champs) : ");
    push_str(&mut out, field_summary_exec(obj).as_str());
    assert(out@ =~= event_text(id@, *ev));
    ok_text(out)
}

fn webhook_exec(id: &str, wh: &Json) -> (t: String)
    ensures
        t@ == webhook_text(id@, *wh),
{
    let none: Vec<Json> = Vec::new();
    let es = match get_array(wh, "enabled_events") {
        Some(a) => a,
        None => &none,
    };
    let mut lines: Vec<String> = Vec::new();
    let n = es.len();
    for i in 0..n
        invariant
            n == es@.len(),
            string_views(lines@) == event_lines(es@.take(i as int)),
    {
        let ghost before = lines@;
        let mut l = owned("  • ");
        push_str(&mut l, match es[i].as_str() {
            Some(s) => s,
            None => "?",
        });
        let ghost lv = l@;
        lines.push(l);
        assert(string_views(lines@) =~= string_views(before).push(lv));
        assert(event_lines(es@.take(i + 1)) =~= event_lines(es@.take(i as int)).push(lv));
    }
    assert(es@.take(n as int) == es@);
    let mut out = owned("STRIPE 💳 — Webhook ");
    push_str(&mut out, id);
    push_str(&mut out, "\n  url=");
    push_str(&mut out, get_str_or(wh, "url", "—"));
    push_str(&mut out, "\n  statut=");
    push_str(&mut out, get_str_or(wh, "status", "?"));
    push_str(&mut out, "\n  api_version=");
    push_str(&mut out, get_str_or(wh, "api_version", "—"));
    push_str(&mut out, "\n  créé=");
    push_str(&mut out, get_ts(wh, "created").as_str());
    push_str(&mut out, "\n\nÉvénements abonnés (");
    push_u64(&mut out, n as u64);
    push_str(&mut out, ") :\n");
    if n == 0 {
        push_str(&mut out, "  (aucun)");
    } else {
        push_str(&mut out, join_strings(&lines, "\n").as_str());
    }
    assert(out@ =~= webhook_text(id@, *wh));
    out
}

fn get_webhook(cfg: &StripeConfig, args: &Json, rs: &Vec<Json>) -> (s: Step)
    ensures
        s@ == get_webhook_view(*args, rs@),
{
    let id = match get_str(args, "webhook_id") {
        None => return missing("webhook_id"),
        Some(x) => x,
    };
    if rs.len() == 0 {
        return get_step(cfg.api(concat("webhook_endpoints/", id).as_str()));
    }
    ok_text(webhook_exec(id, &rs[0]))
}

fn create_webhook(cfg: &StripeConfig, args: &Json, rs: &Vec<Json>) -> (s: Step)
    ensures
        s@ == create_webhook_view(*args, rs@),
{
    let u = match get_str(args, "url") {
        None => return missing("url"),
        Some(x) => x,
    };
    let es = match get_str(args, "events") {
        None => return missing("events"),
        Some(x) => x,
    };
    if rs.len() == 0 {
        let mut body = concat("url=", pct_encode(u).as_str());
        push_str(&mut body, events_form_exec(es).as_str());
        return send_form(cfg.api("webhook_endpoints"), body);
    }
    let r = &rs[0];
    let mut out = owned("STRIPE 💳 — ✅ Webhook créé.\n  id=");
    push_str(&mut out, get_str_or(r, "id", "?"));
    push_str(&mut out, " · url=");
    push_str(&mut out, u);
    push_str(&mut out, "\n  statut=");
    push_str(&mut out, get_str_or(r, "status", "?"));
    push_str(&mut out, " · événements=");
    push_str(&mut out, get_array_len_text(r, "enabled_events").as_str());
    ok_text(out)
}


fn list_webhooks(cfg: &StripeConfig, rs: &Vec<Json>) -> (s: Step)
    ensures
        forall|args: Json| s@ == #[trigger] list_webhooks_view(args, rs@),
{
    if rs.len() == 0 {
        return get_step(cfg.api("webhook_endpoints"));
    }
    ok_text(listing_exec(Listed::Webhook, &rs[0], "STRIPE 💳 — Webhooks", "STRIPE 💳 — Aucun webhook configuré."))
}

fn search_customers(cfg: &StripeConfig, args: &Json, rs: &Vec<Json>) -> (s: Step)
    ensures
        s@ == search_customers_view(*args, rs@),
{
    let q = match get_str(args, "query") {
        None => return missing("query"),
        Some(x) => x,
    };
    if rs.len() == 0 {
        let mut url = cfg.api("customers/search");
        push_str(&mut url, "?query=");
        push_str(&mut url, pct_encode(q).as_str());
        push_str(&mut url, "&limit=");
        push_u64(&mut url, get_limit(args, 10));
        return get_step(url);
    }
    ok_text(listing_exec(Listed::Customer, &rs[0], "STRIPE 💳 — Clients trouvés", "STRIPE 💳 — Aucun client trouvé."))
}

fn update_customer(cfg: &StripeConfig, args: &Json, rs: &Vec<Json>) -> (s: Step)
    ensures
        s@ == update_customer_view(*args, rs@),
{
    let id = match get_str(args, "customer_id") {
        None => return missing("customer_id"),
        Some(x) => x,
    };
    if rs.len() == 0 {
        let mut pairs: Vec<String> = Vec::new();
        assert(string_views(pairs@) =~= Seq::<Seq<char>>::empty());
        push_pair(&mut pairs, "email", get_filled(args, "email"));
        customer_pairs_exec(&mut pairs, args);
        return post_step(cfg, concat("customers/", id).as_str(), &pairs);
    }
    ok_text(concat("STRIPE 💳 — ✅ Client mis à jour.\n  id=", get_str_or(&rs[0], "id", "?")))
}

fn list_products(cfg: &StripeConfig, args: &Json, rs: &Vec<Json>) -> (s: Step)
    ensures
        s@ == list_products_view(*args, rs@),
{
    if rs.len() == 0 {
        let active = match get_bool(args, "active") {
            Some(b) => b,
            None => true,
        };
        let mut url = cfg.api("products");
        push_str(&mut url, "?limit=");
        push_u64(&mut url, get_limit(args, 20));
        push_str(&mut url, "&active=");
        push_str(&mut url, to_json_string(&Json::Bool(active)).as_str());
        return get_step(url);
    }
    ok_text(listing_exec(Listed::Product, &rs[0], "STRIPE 💳 — Produits", "STRIPE 💳 — Aucun produit trouvé."))
}

fn create_product(cfg: &StripeConfig, args: &Json, rs: &Vec<Json>) -> (s: Step)
    ensures
        s@ == create_product_view(*args, rs@),
{
    let n = match get_str(args, "name") {
        None => return missing("name"),
        Some(x) => x,
    };
    if rs.len() == 0 {
        let mut pairs: Vec<String> = Vec::new();
        pairs.push(pct_pair_exec("name", n));
        assert(string_views(pairs@) =~= seq![pct_pair("name"@, n@)]);
        push_pair(&mut pairs, "description", get_filled(args, "description"));
        return post_step(cfg, "products", &pairs);
    }
    let r = &rs[0];
    let mut out = owned("STRIPE 💳 — ✅ Produit créé.\n  id=");
    push_str(&mut out, get_str_or(r, "id", "?"));
    push_str(&mut out, " · nom=");
    push_str(&mut out, get_str_or(r, "name", "?"));
    ok_text(out)
}

fn create_subscription(cfg: &StripeConfig, args: &Json, rs: &Vec<Json>) -> (s: Step)
    ensures
        s@ == create_subscription_view(*args, rs@),
{
    let c = match get_str(args, "customer_id") {
        None => return missing("customer_id"),
        Some(x) => x,
    };
    let p = match get_str(args, "price_id") {
        None => return missing("price_id"),
        Some(x) => x,
    };
    if rs.len() == 0 {
        let mut pairs: Vec<String> = Vec::new();
        pairs.push(pct_pair_exec("customer", c));
        pairs.push(pct_pair_exec("items[0][price]", p));
        assert(string_views(pairs@) =~= seq![pct_pair("customer"@, c@), pct_pair("items[0][price]"@, p@)]);
        let trial = match args.get("trial_days") {
            Some(v) => match v.as_i64() {
                Some(d) => Some(i64_to_string(d)),
                None => None,
            },
            None => None,
        };
        match trial {
            Some(t) => push_pair(&mut pairs, "trial_period_days", Some(t.as_str())),
            None => push_pair(&mut pairs, "trial_period_days", None),
        }
        return post_step(cfg, "subscriptions", &pairs);
    }
    let r = &rs[0];
    let mut out = owned("STRIPE 💳 — ✅ Abonnement créé.\n  id=");
    push_str(&mut out, get_str_or(r, "id", "?"));
    push_str(&mut out, " · statut=");
    push_str(&mut out, get_str_or(r, "status", "?"));
    push_str(&mut out, "\n  fin_période=");
    push_str(&mut out, get_ts(r, "current_period_end").as_str());
    ok_text(out)
}

fn id_and_url(lead: &str, r: &Json) -> (t: String)
    ensures
        t@ == lead@ + "\n  id="@ + str_or(*r, "id"@, "?"@) + "\n  url="@ + str_or(*r, "url"@, "?"@),
{
    let mut out = owned(lead);
    push_str(&mut out, "\n  id=");
    push_str(&mut out, get_str_or(r, "id", "?"));
    push_str(&mut out, "\n  url=");
    push_str(&mut out, get_str_or(r, "url", "?"));
    out
}

fn create_payment_link(cfg: &StripeConfig, args: &Json, rs: &Vec<Json>) -> (s: Step)
    ensures
        s@ == create_payment_link_view(*args, rs@),
{
    let p = match get_str(args, "price_id") {
        None => return missing("price_id"),
        Some(x) => x,
    };
    if rs.len() == 0 {
        let q = u64_to_string(get_quantity(args));
        let mut pairs: Vec<String> = Vec::new();
        pairs.push(pct_pair_exec("line_items[0][price]", p));
        pairs.push(pct_pair_exec("line_items[0][quantity]", q.as_str()));
        assert(string_views(pairs@) =~= seq![
            pct_pair("line_items[0][price]"@, p@),
            pct_pair("line_items[0][quantity]"@, dec_nat(quantity_of(*args))),
        ]);
        return post_step(cfg, "payment_links", &pairs);
    }
    ok_text(id_and_url("STRIPE 💳 — ✅ Lien de paiement créé.", &rs[0]))
}

fn create_checkout_session(cfg: &StripeConfig, args: &Json, rs: &Vec<Json>) -> (s: Step)
    ensures
        s@ == create_checkout_session_view(*args, rs@),
{
    let p = match get_str(args, "price_id") {
        None => return missing("price_id"),
        Some(x) => x,
    };
    let su = match get_str(args, "success_url") {
        None => return missing("success_url"),
        Some(x) => x,
    };
    if rs.len() == 0 {
        let q = u64_to_string(get_quantity(args));
        let mut pairs: Vec<String> = Vec::new();
        pairs.push(pct_pair_exec("line_items[0][price]", p));
        pairs.push(pct_pair_exec("line_items[0][quantity]", q.as_str()));
        pairs.push(pct_pair_exec("success_url", su));
        pairs.push(pct_pair_exec("cancel_url", get_str_or(args, "cancel_url", su)));
        pairs.push(pct_pair_exec("mode", get_str_or(args, "mode", "payment")));
        assert(string_views(pairs@) =~= checkout_pairs(*args, p@, su@));
        return post_step(cfg, "checkout/sessions", &pairs);
    }
    ok_text(id_and_url("STRIPE 💳 — ✅ Session Checkout créée.", &rs[0]))
}

/// Runs one step of the Stripe tool `name` called with `args`: `responses` holds the parsed
/// responses to the requests made so far, and `now` is the current Unix time. The tools that
/// show amounts, and `stripe_delete_webhook`, are not handled here.
pub fn handle(cfg: &StripeConfig, name: &str, args: &Json, now: i64, responses: &Vec<Json>) -> (s: Step)
    requires
        !rendered_elsewhere(name@),
        name@ == "stripe_list_events"@ ==> events_time_ok(*args, now),
    ensures
        s@ == handle_view(name@, *args, now, responses@),
{
    let rs = responses;
    if str_eq(name, "stripe_list_customers") {
        list_customers(cfg, args, rs)
    } else if str_eq(name, "stripe_create_customer") {
        create_customer(cfg, args, rs)
    } else if str_eq(name, "stripe_list_subscriptions") {
        list_subscriptions(cfg, args, rs)
    } else if str_eq(name, "stripe_list_events") {
        list_events(cfg, args, now, rs)
    } else if str_eq(name, "stripe_get_event") {
        get_event(cfg, args, rs)
    } else if str_eq(name, "stripe_list_webhooks") {
        list_webhooks(cfg, rs)
    } else if str_eq(name, "stripe_get_webhook") {
        get_webhook(cfg, args, rs)
    } else if str_eq(name, "stripe_create_webhook") {
        create_webhook(cfg, args, rs)
    } else if str_eq(name, "stripe_search_customers") {
        search_customers(cfg, args, rs)
    } else if str_eq(name, "stripe_update_customer") {
        update_customer(cfg, args, rs)
    } else if str_eq(name, "stripe_list_products") {
        list_products(cfg, args, rs)
    } else if str_eq(name, "stripe_create_product") {
        create_product(cfg, args, rs)
    } else if str_eq(name, "stripe_create_subscription") {
        create_subscription(cfg, args, rs)
    } else if str_eq(name, "stripe_create_payment_link") {
        create_payment_link(cfg, args, rs)
    } else if str_eq(name, "stripe_create_checkout_session") {
        create_checkout_session(cfg, args, rs)
    } else {
        Step::Done(Err(concat("Unknown stripe tool: ", name)))
    }
}

/// Every Stripe tool makes at most one request, authenticated, to the Stripe API: once a
/// response has come, the call is done.
pub proof fn lemma_handle_ends(name: Seq<char>, args: Json, now: i64, rs: Seq<Json>)
    ensures
        rs.len() >= 1 ==> handle_view(name, args, now, rs) is Done,
        handle_view(name, args, now, rs) matches StepView::Send(req) ==> req.authenticated,
{
}

/// The Stripe tools offered to MCP clients: name, description and input schema of each, as a
/// The catalog's tools, in its order: for each, the JSON text of its members before its name
/// (its description and input schema).
pub const TOOL_HEADS: [&'static str; 27] = [
    r#"{"description":"STRIPE 💳 — Affiche le solde du compte Stripe : montants disponibles et en attente par devise. Point de départ pour vérifier l'état financier du compte.","inputSchema":{"properties":{},"type":"object"},"name":"#,
    r#"{"description":"STRIPE 💳 — Liste les clients Stripe avec id, nom, email, date de création et téléphone. Filtrage optionnel par email. Retourne les 10 derniers par défaut (max 100).","inputSchema":{"properties":{"email":{"description":"Filtrer par adresse email exacte (optionnel)","type":"string"},"limit":{"default":10,"description":"Nombre de clients à retourner (défaut: 10)","maximum":100,"minimum":1,"type":"integer"}},"type":"object"},"name":"#,
    r#"{"description":"STRIPE 💳 — Récupère le détail complet d'un client Stripe : nom, email, téléphone, devise, solde, adresse, source de paiement par défaut. Utiliser stripe_list_customers pour obtenir le customer_id.","inputSchema":{"properties":{"customer_id":{"description":"ID du client Stripe (ex: cus_xxx)","type":"string"}},"required":["customer_id"],"type":"object"},"name":"#,
    r#"{"description":"STRIPE 💳 — Crée un nouveau client Stripe. Seul l'email est obligatoire. Retourne l'id du client créé.","inputSchema":{"properties":{"description":{"description":"Description interne (optionnel)","type":"string"},"email":{"description":"Adresse email du client (obligatoire)","type":"string"},"name":{"description":"Nom complet du client (optionnel)","type":"string"},"phone":{"description":"Numéro de téléphone (optionnel)","type":"string"}},"required":["email"],"type":"object"},"name":"#,
    r#"{"description":"STRIPE 💳 — Liste les PaymentIntents avec id, montant+devise, statut, date et description. Filtrage optionnel par client. Retourne les 10 derniers par défaut.","inputSchema":{"properties":{"customer_id":{"description":"Filtrer par ID client Stripe (optionnel)","type":"string"},"limit":{"default":10,"description":"Nombre de PaymentIntents à retourner (défaut: 10)","maximum":100,"minimum":1,"type":"integer"}},"type":"object"},"name":"#,
    r#"{"description":"STRIPE 💳 — Récupère le détail complet d'un PaymentIntent : montant, devise, statut, client, description, méthode de paiement, date, dernière erreur. Utiliser stripe_list_payment_intents pour obtenir l'id.","inputSchema":{"properties":{"payment_intent_id":{"description":"ID du PaymentIntent (ex: pi_xxx)","type":"string"}},"required":["payment_intent_id"],"type":"object"},"name":"#,
    r#"{"description":"STRIPE 💳 — Liste les abonnements avec id, client, statut, fin de période en cours et plan/prix. Filtrage optionnel par client et statut (active/canceled/past_due/all).","inputSchema":{"properties":{"customer_id":{"description":"Filtrer par ID client (optionnel)","type":"string"},"limit":{"default":10,"description":"Nombre d'abonnements à retourner (défaut: 10)","maximum":100,"minimum":1,"type":"integer"},"status":{"description":"Filtrer par statut : active, canceled, past_due, trialing, all (défaut: active)","type":"string"}},"type":"object"},"name":"#,
    r#"{"description":"STRIPE 💳 — Récupère le détail complet d'un abonnement : articles (produits/prix), dates d'essai, annulation en fin de période. Utiliser stripe_list_subscriptions pour obtenir l'id.","inputSchema":{"properties":{"subscription_id":{"description":"ID de l'abonnement Stripe (ex: sub_xxx)","type":"string"}},"required":["subscription_id"],"type":"object"},"name":"#,
    r#"{"description":"STRIPE 💳 — Liste les factures avec id, client, montant dû+devise, statut et date d'échéance. Filtrage optionnel par client et statut (draft/open/paid/uncollectible/void).","inputSchema":{"properties":{"customer_id":{"description":"Filtrer par ID client (optionnel)","type":"string"},"limit":{"default":10,"description":"Nombre de factures à retourner (défaut: 10)","maximum":100,"minimum":1,"type":"integer"},"status":{"description":"Filtrer par statut : draft, open, paid, uncollectible, void (optionnel)","type":"string"}},"type":"object"},"name":"#,
    r#"{"description":"STRIPE 💳 — Récupère le détail complet d'une facture : lignes, sous-total, taxe, total, statut, client, date d'échéance et lien vers la facture hébergée. Utiliser stripe_list_invoices pour obtenir l'id.","inputSchema":{"properties":{"invoice_id":{"description":"ID de la facture Stripe (ex: in_xxx)","type":"string"}},"required":["invoice_id"],"type":"object"},"name":"#,
    r#"{"description":"STRIPE 💳 — Liste les événements Stripe (webhook events) avec id, type, date, version API et mode live/test. Filtrage optionnel par type et par nombre d'heures (since_hours).","inputSchema":{"properties":{"event_type":{"description":"Filtrer par type d'événement (ex: payment_intent.succeeded) — optionnel","type":"string"},"limit":{"default":20,"description":"Nombre d'événements à retourner (défaut: 20)","maximum":100,"minimum":1,"type":"integer"},"since_hours":{"description":"Retourner uniquement les événements des N dernières heures (optionnel)","type":"integer"}},"type":"object"},"name":"#,
    r#"{"description":"STRIPE 💳 — Récupère le détail complet d'un événement Stripe : type, date, résumé des données. Utiliser stripe_list_events pour obtenir l'event_id.","inputSchema":{"properties":{"event_id":{"description":"ID de l'événement Stripe (ex: evt_xxx)","type":"string"}},"required":["event_id"],"type":"object"},"name":"#,
    r#"{"description":"STRIPE 💳 — Liste les endpoints webhook Stripe configurés avec id, URL, statut (enabled/disabled) et événements abonnés.","inputSchema":{"properties":{},"type":"object"},"name":"#,
    r#"{"description":"STRIPE 💳 — Récupère le détail complet d'un webhook Stripe : URL, statut, liste complète des événements abonnés. Utiliser stripe_list_webhooks pour obtenir le webhook_id.","inputSchema":{"properties":{"webhook_id":{"description":"ID du webhook endpoint (ex: we_xxx)","type":"string"}},"required":["webhook_id"],"type":"object"},"name":"#,
    r#"{"description":"STRIPE 💳 — Crée un nouvel endpoint webhook Stripe. Les événements doivent être fournis sous forme de liste séparée par des virgules (ex: payment_intent.succeeded,customer.created).","inputSchema":{"properties":{"events":{"description":"Liste des événements séparés par des virgules (ex: payment_intent.succeeded,customer.created)","type":"string"},"url":{"description":"URL HTTPS du endpoint webhook (ex: https://monsite.com/stripe/webhook)","type":"string"}},"required":["url","events"],"type":"object"},"name":"#,
    r#"{"description":"STRIPE 💳 — Supprime un endpoint webhook Stripe. Utiliser stripe_list_webhooks pour obtenir le webhook_id.","inputSchema":{"properties":{"webhook_id":{"description":"ID du webhook endpoint à supprimer (ex: we_xxx)","type":"string"}},"required":["webhook_id"],"type":"object"},"name":"#,
    r#"{"description":"STRIPE 💳 — Liste les virements (payouts) vers le compte bancaire avec id, montant+devise, statut, date d'arrivée et description. Filtrage optionnel par statut (paid/pending/in_transit/canceled/failed).","inputSchema":{"properties":{"limit":{"default":10,"description":"Nombre de virements à retourner (défaut: 10)","maximum":100,"minimum":1,"type":"integer"},"status":{"description":"Filtrer par statut : paid, pending, in_transit, canceled, failed (optionnel)","type":"string"}},"type":"object"},"name":"#,
    r#"{"description":"STRIPE 💳 — Récupère le détail complet d'un virement Stripe : montant, devise, statut, date d'arrivée, description, méthode et type de source. Utiliser stripe_list_payouts pour obtenir le payout_id.","inputSchema":{"properties":{"payout_id":{"description":"ID du virement Stripe (ex: po_xxx)","type":"string"}},"required":["payout_id"],"type":"object"},"name":"#,
    r#"{"description":"STRIPE 💳 — Recherche des clients Stripe par requête Stripe Search (ex: email:'test@example.com' ou name:'Jean'). Retourne id, nom, email, téléphone et date de création.","inputSchema":{"properties":{"limit":{"default":10,"description":"Nombre de résultats (défaut: 10)","maximum":100,"minimum":1,"type":"integer"},"query":{"description":"Requête Stripe Search (ex: email:'test@example.com', name:'Jean')","type":"string"}},"required":["query"],"type":"object"},"name":"#,
    r#"{"description":"STRIPE 💳 — Met à jour les informations d'un client Stripe existant. Seul customer_id est obligatoire ; seuls les champs fournis sont modifiés.","inputSchema":{"properties":{"customer_id":{"description":"ID du client Stripe à modifier (ex: cus_xxx)","type":"string"},"description":{"description":"Nouvelle description interne (optionnel)","type":"string"},"email":{"description":"Nouvelle adresse email (optionnel)","type":"string"},"name":{"description":"Nouveau nom complet (optionnel)","type":"string"},"phone":{"description":"Nouveau numéro de téléphone (optionnel)","type":"string"}},"required":["customer_id"],"type":"object"},"name":"#,
    r#"{"description":"STRIPE 💳 — Liste les produits Stripe avec id, nom, description et statut actif/inactif. Filtrage optionnel par statut actif.","inputSchema":{"properties":{"active":{"default":true,"description":"Filtrer les produits actifs uniquement (défaut: true)","type":"boolean"},"limit":{"default":20,"description":"Nombre de produits à retourner (défaut: 20)","maximum":100,"minimum":1,"type":"integer"}},"type":"object"},"name":"#,
    r#"{"description":"STRIPE 💳 — Crée un nouveau produit Stripe. Retourne l'id et le nom du produit créé.","inputSchema":{"properties":{"description":{"description":"Description du produit (optionnel)","type":"string"},"name":{"description":"Nom du produit (obligatoire)","type":"string"}},"required":["name"],"type":"object"},"name":"#,
    r#"{"description":"STRIPE 💳 — Liste les prix Stripe avec id, produit, montant+devise, type (recurring/one_time) et intervalle si récurrent. Filtrage optionnel par produit.","inputSchema":{"properties":{"limit":{"default":20,"description":"Nombre de prix à retourner (défaut: 20)","maximum":100,"minimum":1,"type":"integer"},"product_id":{"description":"Filtrer par ID produit (optionnel)","type":"string"}},"type":"object"},"name":"#,
    r#"{"description":"STRIPE 💳 — Crée un nouveau prix Stripe pour un produit. Si interval est fourni (month/year/week/day), crée un prix récurrent ; sinon crée un prix one_time.","inputSchema":{"properties":{"amount":{"description":"Montant en centimes (ex: 1000 = 10.00)","type":"integer"},"currency":{"description":"Code devise ISO (ex: eur, usd)","type":"string"},"interval":{"description":"Intervalle de récurrence (optionnel — si absent, prix one_time)","enum":["month","year","week","day"],"type":"string"},"product_id":{"description":"ID du produit Stripe (ex: prod_xxx)","type":"string"}},"required":["product_id","amount","currency"],"type":"object"},"name":"#,
    r#"{"description":"STRIPE 💳 — Crée un abonnement Stripe pour un client avec un prix donné. Optionnellement avec une période d'essai.","inputSchema":{"properties":{"customer_id":{"description":"ID du client Stripe (ex: cus_xxx)","type":"string"},"price_id":{"description":"ID du prix Stripe (ex: price_xxx)","type":"string"},"trial_days":{"description":"Nombre de jours d'essai gratuit (optionnel)","type":"integer"}},"required":["customer_id","price_id"],"type":"object"},"name":"#,
    r#"{"description":"STRIPE 💳 — Crée un lien de paiement Stripe pour un prix donné. Retourne l'id et l'URL du lien de paiement.","inputSchema":{"properties":{"price_id":{"description":"ID du prix Stripe (ex: price_xxx)","type":"string"},"quantity":{"default":1,"description":"Quantité (défaut: 1)","minimum":1,"type":"integer"}},"required":["price_id"],"type":"object"},"name":"#,
    r#"{"description":"STRIPE 💳 — Crée une session Checkout Stripe et retourne l'URL vers laquelle rediriger l'utilisateur pour le paiement. Modes : payment (paiement unique), subscription (abonnement), setup (enregistrement CB).","inputSchema":{"properties":{"cancel_url":{"description":"URL de redirection en cas d'annulation (optionnel — défaut: même que success_url)","type":"string"},"mode":{"default":"payment","description":"Mode de la session (défaut: payment)","enum":["payment","subscription","setup"],"type":"string"},"price_id":{"description":"ID du prix Stripe (ex: price_xxx)","type":"string"},"quantity":{"default":1,"description":"Quantité (défaut: 1)","minimum":1,"type":"integer"},"success_url":{"description":"URL de redirection après paiement réussi","type":"string"}},"required":["price_id","success_url"],"type":"object"},"name":"#
];

/// The names of the catalog's tools, in its order (those of [`catalog_names`]).
pub const TOOL_NAMES: [&'static str; 27] = [
    "stripe_get_balance",
    "stripe_list_customers",
    "stripe_get_customer",
    "stripe_create_customer",
    "stripe_list_payment_intents",
    "stripe_get_payment_intent",
    "stripe_list_subscriptions",
    "stripe_get_subscription",
    "stripe_list_invoices",
    "stripe_get_invoice",
    "stripe_list_events",
    "stripe_get_event",
    "stripe_list_webhooks",
    "stripe_get_webhook",
    "stripe_create_webhook",
    "stripe_delete_webhook",
    "stripe_list_payouts",
    "stripe_get_payout",
    "stripe_search_customers",
    "stripe_update_customer",
    "stripe_list_products",
    "stripe_create_product",
    "stripe_list_prices",
    "stripe_create_price",
    "stripe_create_subscription",
    "stripe_create_payment_link",
    "stripe_create_checkout_session"
];

/// The Stripe tools offered to MCP clients, as a JSON array: one entry per tool of
/// [`catalog_names`], in order, each with its description and input schema (from
/// [`TOOL_HEADS`]) and its name.
pub fn tools() -> (r: String)
    ensures
        r@ == catalog_text(texts(TOOL_HEADS@), catalog_names()),
{
    assert(texts(TOOL_NAMES@) =~= catalog_names());
    build_catalog(&TOOL_HEADS, &TOOL_NAMES)
}

/// The names of the tools in the catalog, in its order.
pub open spec fn catalog_names() -> Seq<Seq<char>> {
    seq![
        "stripe_get_balance"@,
        "stripe_list_customers"@,
        "stripe_get_customer"@,
        "stripe_create_customer"@,
        "stripe_list_payment_intents"@,
        "stripe_get_payment_intent"@,
        "stripe_list_subscriptions"@,
        "stripe_get_subscription"@,
        "stripe_list_invoices"@,
        "stripe_get_invoice"@,
        "stripe_list_events"@,
        "stripe_get_event"@,
        "stripe_list_webhooks"@,
        "stripe_get_webhook"@,
        "stripe_create_webhook"@,
        "stripe_delete_webhook"@,
        "stripe_list_payouts"@,
        "stripe_get_payout"@,
        "stripe_search_customers"@,
        "stripe_update_customer"@,
        "stripe_list_products"@,
        "stripe_create_product"@,
        "stripe_list_prices"@,
        "stripe_create_price"@,
        "stripe_create_subscription"@,
        "stripe_create_payment_link"@,
        "stripe_create_checkout_session"@
    ]
}

/// The names of the tools in the catalog, in its order (see [`catalog_names`]).
pub fn tool_names() -> (r: Vec<&'static str>)
    ensures
        r@.map_values(|s: &'static str| s@) == catalog_names(),
{
    let r = vec![
        "stripe_get_balance",
        "stripe_list_customers",
        "stripe_get_customer",
        "stripe_create_customer",
        "stripe_list_payment_intents",
        "stripe_get_payment_intent",
        "stripe_list_subscriptions",
        "stripe_get_subscription",
        "stripe_list_invoices",
        "stripe_get_invoice",
        "stripe_list_events",
        "stripe_get_event",
        "stripe_list_webhooks",
        "stripe_get_webhook",
        "stripe_create_webhook",
        "stripe_delete_webhook",
        "stripe_list_payouts",
        "stripe_get_payout",
        "stripe_search_customers",
        "stripe_update_customer",
        "stripe_list_products",
        "stripe_create_product",
        "stripe_list_prices",
        "stripe_create_price",
        "stripe_create_subscription",
        "stripe_create_payment_link",
        "stripe_create_checkout_session"
    ];
    assert(r@.map_values(|s: &'static str| s@) =~= catalog_names());
    r
}

/// A tool name that [`tools`] does not serve (one outside [`catalog_names`]) gets the
/// unknown-tool error, without a request.
pub proof fn lemma_unknown_tool(name: Seq<char>, args: Json, now: i64, rs: Seq<Json>)
    requires
        !catalog_names().contains(name),
    ensures
        handle_view(name, args, now, rs) == fail_view("Unknown stripe tool: "@ + name),
{
    assert(catalog_names()[0] == "stripe_get_balance"@);
    assert(catalog_names()[1] == "stripe_list_customers"@);
    assert(catalog_names()[2] == "stripe_get_customer"@);
    assert(catalog_names()[3] == "stripe_create_customer"@);
    assert(catalog_names()[4] == "stripe_list_payment_intents"@);
    assert(catalog_names()[5] == "stripe_get_payment_intent"@);
    assert(catalog_names()[6] == "stripe_list_subscriptions"@);
    assert(catalog_names()[7] == "stripe_get_subscription"@);
    assert(catalog_names()[8] == "stripe_list_invoices"@);
    assert(catalog_names()[9] == "stripe_get_invoice"@);
    assert(catalog_names()[10] == "stripe_list_events"@);
    assert(catalog_names()[11] == "stripe_get_event"@);
    assert(catalog_names()[12] == "stripe_list_webhooks"@);
    assert(catalog_names()[13] == "stripe_get_webhook"@);
    assert(catalog_names()[14] == "stripe_create_webhook"@);
    assert(catalog_names()[15] == "stripe_delete_webhook"@);
    assert(catalog_names()[16] == "stripe_list_payouts"@);
    assert(catalog_names()[17] == "stripe_get_payout"@);
    assert(catalog_names()[18] == "stripe_search_customers"@);
    assert(catalog_names()[19] == "stripe_update_customer"@);
    assert(catalog_names()[20] == "stripe_list_products"@);
    assert(catalog_names()[21] == "stripe_create_product"@);
    assert(catalog_names()[22] == "stripe_list_prices"@);
    assert(catalog_names()[23] == "stripe_create_price"@);
    assert(catalog_names()[24] == "stripe_create_subscription"@);
    assert(catalog_names()[25] == "stripe_create_payment_link"@);
    assert(catalog_names()[26] == "stripe_create_checkout_session"@);
}

/// Every tool that [`tools`] serves (those of [`catalog_names`]) and that this module runs is
/// handled: its first step is never the unknown-tool error.
pub proof fn lemma_catalog_handled(name: Seq<char>, args: Json, now: i64)
    requires
        catalog_names().contains(name),
        !rendered_elsewhere(name),
    ensures
        handle_view(name, args, now, seq![]) != fail_view("Unknown stripe tool: "@ + name),
{
    reveal_strlit("Missing param: ");
    reveal_strlit("Unknown stripe tool: ");
    assert(("Unknown stripe tool: "@ + name)[0] == 'U');
    assert(catalog_names()[0] == "stripe_get_balance"@);
    assert(catalog_names()[1] == "stripe_list_customers"@);
    assert(catalog_names()[2] == "stripe_get_customer"@);
    assert(catalog_names()[3] == "stripe_create_customer"@);
    assert(catalog_names()[4] == "stripe_list_payment_intents"@);
    assert(catalog_names()[5] == "stripe_get_payment_intent"@);
    assert(catalog_names()[6] == "stripe_list_subscriptions"@);
    assert(catalog_names()[7] == "stripe_get_subscription"@);
    assert(catalog_names()[8] == "stripe_list_invoices"@);
    assert(catalog_names()[9] == "stripe_get_invoice"@);
    assert(catalog_names()[10] == "stripe_list_events"@);
    assert(catalog_names()[11] == "stripe_get_event"@);
    assert(catalog_names()[12] == "stripe_list_webhooks"@);
    assert(catalog_names()[13] == "stripe_get_webhook"@);
    assert(catalog_names()[14] == "stripe_create_webhook"@);
    assert(catalog_names()[15] == "stripe_delete_webhook"@);
    assert(catalog_names()[16] == "stripe_list_payouts"@);
    assert(catalog_names()[17] == "stripe_get_payout"@);
    assert(catalog_names()[18] == "stripe_search_customers"@);
    assert(catalog_names()[19] == "stripe_update_customer"@);
    assert(catalog_names()[20] == "stripe_list_products"@);
    assert(catalog_names()[21] == "stripe_create_product"@);
    assert(catalog_names()[22] == "stripe_list_prices"@);
    assert(catalog_names()[23] == "stripe_create_price"@);
    assert(catalog_names()[24] == "stripe_create_subscription"@);
    assert(catalog_names()[25] == "stripe_create_payment_link"@);
    assert(catalog_names()[26] == "stripe_create_checkout_session"@);
}

/// The names of each catalog tool's input properties and of those it requires, in catalog
/// order (properties by name).
pub open spec fn catalog_schemas() -> Seq<(Seq<char>, Seq<Seq<char>>, Seq<Seq<char>>)> {
    seq![
        ("stripe_get_balance"@, seq![], seq![]),
        ("stripe_list_customers"@, seq!["email"@, "limit"@], seq![]),
        ("stripe_get_customer"@, seq!["customer_id"@], seq!["customer_id"@]),
        ("stripe_create_customer"@, seq!["description"@, "email"@, "name"@, "phone"@], seq!["email"@]),
        ("stripe_list_payment_intents"@, seq!["customer_id"@, "limit"@], seq![]),
        ("stripe_get_payment_intent"@, seq!["payment_intent_id"@], seq!["payment_intent_id"@]),
        ("stripe_list_subscriptions"@, seq!["customer_id"@, "limit"@, "status"@], seq![]),
        ("stripe_get_subscription"@, seq!["subscription_id"@], seq!["subscription_id"@]),
        ("stripe_list_invoices"@, seq!["customer_id"@, "limit"@, "status"@], seq![]),
        ("stripe_get_invoice"@, seq!["invoice_id"@], seq!["invoice_id"@]),
        ("stripe_list_events"@, seq!["event_type"@, "limit"@, "since_hours"@], seq![]),
        ("stripe_get_event"@, seq!["event_id"@], seq!["event_id"@]),
        ("stripe_list_webhooks"@, seq![], seq![]),
        ("stripe_get_webhook"@, seq!["webhook_id"@], seq!["webhook_id"@]),
        ("stripe_create_webhook"@, seq!["events"@, "url"@], seq!["url"@, "events"@]),
        ("stripe_delete_webhook"@, seq!["webhook_id"@], seq!["webhook_id"@]),
        ("stripe_list_payouts"@, seq!["limit"@, "status"@], seq![]),
        ("stripe_get_payout"@, seq!["payout_id"@], seq!["payout_id"@]),
        ("stripe_search_customers"@, seq!["limit"@, "query"@], seq!["query"@]),
        ("stripe_update_customer"@, seq!["customer_id"@, "description"@, "email"@, "name"@, "phone"@], seq!["customer_id"@]),
        ("stripe_list_products"@, seq!["active"@, "limit"@], seq![]),
        ("stripe_create_product"@, seq!["description"@, "name"@], seq!["name"@]),
        ("stripe_list_prices"@, seq!["limit"@, "product_id"@], seq![]),
        ("stripe_create_price"@, seq!["amount"@, "currency"@, "interval"@, "product_id"@], seq!["product_id"@, "amount"@, "currency"@]),
        ("stripe_create_subscription"@, seq!["customer_id"@, "price_id"@, "trial_days"@], seq!["customer_id"@, "price_id"@]),
        ("stripe_create_payment_link"@, seq!["price_id"@, "quantity"@], seq!["price_id"@]),
        ("stripe_create_checkout_session"@, seq!["cancel_url"@, "mode"@, "price_id"@, "quantity"@, "success_url"@], seq!["price_id"@, "success_url"@])
    ]
}

/// The names of each catalog tool's input properties and required inputs (see
/// [`catalog_schemas`]).
pub fn tool_schemas() -> (r: Vec<SchemaNames>)
    ensures
        r@.map_values(|e: SchemaNames| schema_view(e)) == catalog_schemas(),
{
    let r: Vec<SchemaNames> = vec![
        ("stripe_get_balance", vec![], vec![]),
        ("stripe_list_customers", vec!["email", "limit"], vec![]),
        ("stripe_get_customer", vec!["customer_id"], vec!["customer_id"]),
        ("stripe_create_customer", vec!["description", "email", "name", "phone"], vec!["email"]),
        ("stripe_list_payment_intents", vec!["customer_id", "limit"], vec![]),
        ("stripe_get_payment_intent", vec!["payment_intent_id"], vec!["payment_intent_id"]),
        ("stripe_list_subscriptions", vec!["customer_id", "limit", "status"], vec![]),
        ("stripe_get_subscription", vec!["subscription_id"], vec!["subscription_id"]),
        ("stripe_list_invoices", vec!["customer_id", "limit", "status"], vec![]),
        ("stripe_get_invoice", vec!["invoice_id"], vec!["invoice_id"]),
        ("stripe_list_events", vec!["event_type", "limit", "since_hours"], vec![]),
        ("stripe_get_event", vec!["event_id"], vec!["event_id"]),
        ("stripe_list_webhooks", vec![], vec![]),
        ("stripe_get_webhook", vec!["webhook_id"], vec!["webhook_id"]),
        ("stripe_create_webhook", vec!["events", "url"], vec!["url", "events"]),
        ("stripe_delete_webhook", vec!["webhook_id"], vec!["webhook_id"]),
        ("stripe_list_payouts", vec!["limit", "status"], vec![]),
        ("stripe_get_payout", vec!["payout_id"], vec!["payout_id"]),
        ("stripe_search_customers", vec!["limit", "query"], vec!["query"]),
        ("stripe_update_customer", vec!["customer_id", "description", "email", "name", "phone"], vec!["customer_id"]),
        ("stripe_list_products", vec!["active", "limit"], vec![]),
        ("stripe_create_product", vec!["description", "name"], vec!["name"]),
        ("stripe_list_prices", vec!["limit", "product_id"], vec![]),
        ("stripe_create_price", vec!["amount", "currency", "interval", "product_id"], vec!["product_id", "amount", "currency"]),
        ("stripe_create_subscription", vec!["customer_id", "price_id", "trial_days"], vec!["customer_id", "price_id"]),
        ("stripe_create_payment_link", vec!["price_id", "quantity"], vec!["price_id"]),
        ("stripe_create_checkout_session", vec!["cancel_url", "mode", "price_id", "quantity", "success_url"], vec!["price_id", "success_url"])
    ];
    assert(r@[0].1@.map_values(|s: &'static str| s@) =~= catalog_schemas()[0].1);
    assert(r@[0].2@.map_values(|s: &'static str| s@) =~= catalog_schemas()[0].2);
    assert(r@[1].1@.map_values(|s: &'static str| s@) =~= catalog_schemas()[1].1);
    assert(r@[1].2@.map_values(|s: &'static str| s@) =~= catalog_schemas()[1].2);
    assert(r@[2].1@.map_values(|s: &'static str| s@) =~= catalog_schemas()[2].1);
    assert(r@[2].2@.map_values(|s: &'static str| s@) =~= catalog_schemas()[2].2);
    assert(r@[3].1@.map_values(|s: &'static str| s@) =~= catalog_schemas()[3].1);
    assert(r@[3].2@.map_values(|s: &'static str| s@) =~= catalog_schemas()[3].2);
    assert(r@[4].1@.map_values(|s: &'static str| s@) =~= catalog_schemas()[4].1);
    assert(r@[4].2@.map_values(|s: &'static str| s@) =~= catalog_schemas()[4].2);
    assert(r@[5].1@.map_values(|s: &'static str| s@) =~= catalog_schemas()[5].1);
    assert(r@[5].2@.map_values(|s: &'static str| s@) =~= catalog_schemas()[5].2);
    assert(r@[6].1@.map_values(|s: &'static str| s@) =~= catalog_schemas()[6].1);
    assert(r@[6].2@.map_values(|s: &'static str| s@) =~= catalog_schemas()[6].2);
    assert(r@[7].1@.map_values(|s: &'static str| s@) =~= catalog_schemas()[7].1);
    assert(r@[7].2@.map_values(|s: &'static str| s@) =~= catalog_schemas()[7].2);
    assert(r@[8].1@.map_values(|s: &'static str| s@) =~= catalog_schemas()[8].1);
    assert(r@[8].2@.map_values(|s: &'static str| s@) =~= catalog_schemas()[8].2);
    assert(r@[9].1@.map_values(|s: &'static str| s@) =~= catalog_schemas()[9].1);
    assert(r@[9].2@.map_values(|s: &'static str| s@) =~= catalog_schemas()[9].2);
    assert(r@[10].1@.map_values(|s: &'static str| s@) =~= catalog_schemas()[10].1);
    assert(r@[10].2@.map_values(|s: &'static str| s@) =~= catalog_schemas()[10].2);
    assert(r@[11].1@.map_values(|s: &'static str| s@) =~= catalog_schemas()[11].1);
    assert(r@[11].2@.map_values(|s: &'static str| s@) =~= catalog_schemas()[11].2);
    assert(r@[12].1@.map_values(|s: &'static str| s@) =~= catalog_schemas()[12].1);
    assert(r@[12].2@.map_values(|s: &'static str| s@) =~= catalog_schemas()[12].2);
    assert(r@[13].1@.map_values(|s: &'static str| s@) =~= catalog_schemas()[13].1);
    assert(r@[13].2@.map_values(|s: &'static str| s@) =~= catalog_schemas()[13].2);
    assert(r@[14].1@.map_values(|s: &'static str| s@) =~= catalog_schemas()[14].1);
    assert(r@[14].2@.map_values(|s: &'static str| s@) =~= catalog_schemas()[14].2);
    assert(r@[15].1@.map_values(|s: &'static str| s@) =~= catalog_schemas()[15].1);
    assert(r@[15].2@.map_values(|s: &'static str| s@) =~= catalog_schemas()[15].2);
    assert(r@[16].1@.map_values(|s: &'static str| s@) =~= catalog_schemas()[16].1);
    assert(r@[16].2@.map_values(|s: &'static str| s@) =~= catalog_schemas()[16].2);
    assert(r@[17].1@.map_values(|s: &'static str| s@) =~= catalog_schemas()[17].1);
    assert(r@[17].2@.map_values(|s: &'static str| s@) =~= catalog_schemas()[17].2);
    assert(r@[18].1@.map_values(|s: &'static str| s@) =~= catalog_schemas()[18].1);
    assert(r@[18].2@.map_values(|s: &'static str| s@) =~= catalog_schemas()[18].2);
    assert(r@[19].1@.map_values(|s: &'static str| s@) =~= catalog_schemas()[19].1);
    assert(r@[19].2@.map_values(|s: &'static str| s@) =~= catalog_schemas()[19].2);
    assert(r@[20].1@.map_values(|s: &'static str| s@) =~= catalog_schemas()[20].1);
    assert(r@[20].2@.map_values(|s: &'static str| s@) =~= catalog_schemas()[20].2);
    assert(r@[21].1@.map_values(|s: &'static str| s@) =~= catalog_schemas()[21].1);
    assert(r@[21].2@.map_values(|s: &'static str| s@) =~= catalog_schemas()[21].2);
    assert(r@[22].1@.map_values(|s: &'static str| s@) =~= catalog_schemas()[22].1);
    assert(r@[22].2@.map_values(|s: &'static str| s@) =~= catalog_schemas()[22].2);
    assert(r@[23].1@.map_values(|s: &'static str| s@) =~= catalog_schemas()[23].1);
    assert(r@[23].2@.map_values(|s: &'static str| s@) =~= catalog_schemas()[23].2);
    assert(r@[24].1@.map_values(|s: &'static str| s@) =~= catalog_schemas()[24].1);
    assert(r@[24].2@.map_values(|s: &'static str| s@) =~= catalog_schemas()[24].2);
    assert(r@[25].1@.map_values(|s: &'static str| s@) =~= catalog_schemas()[25].1);
    assert(r@[25].2@.map_values(|s: &'static str| s@) =~= catalog_schemas()[25].2);
    assert(r@[26].1@.map_values(|s: &'static str| s@) =~= catalog_schemas()[26].1);
    assert(r@[26].2@.map_values(|s: &'static str| s@) =~= catalog_schemas()[26].2);
    assert(r@.map_values(|e: SchemaNames| schema_view(e)) =~= catalog_schemas());
    r
}

/// Every tool of the catalog requires only inputs that are among its properties.
pub proof fn lemma_required_are_properties(i: int)
    requires
        0 <= i < catalog_schemas().len(),
    ensures
        requires_properties(catalog_schemas()[i]),
{
    if i == 2 {
        assert(catalog_schemas()[2].1[0] == catalog_schemas()[2].2[0]);
    }
    if i == 3 {
        assert(catalog_schemas()[3].1[1] == catalog_schemas()[3].2[0]);
    }
    if i == 5 {
        assert(catalog_schemas()[5].1[0] == catalog_schemas()[5].2[0]);
    }
    if i == 7 {
        assert(catalog_schemas()[7].1[0] == catalog_schemas()[7].2[0]);
    }
    if i == 9 {
        assert(catalog_schemas()[9].1[0] == catalog_schemas()[9].2[0]);
    }
    if i == 11 {
        assert(catalog_schemas()[11].1[0] == catalog_schemas()[11].2[0]);
    }
    if i == 13 {
        assert(catalog_schemas()[13].1[0] == catalog_schemas()[13].2[0]);
    }
    if i == 14 {
        assert(catalog_schemas()[14].1[1] == catalog_schemas()[14].2[0]);
        assert(catalog_schemas()[14].1[0] == catalog_schemas()[14].2[1]);
    }
    if i == 15 {
        assert(catalog_schemas()[15].1[0] == catalog_schemas()[15].2[0]);
    }
    if i == 17 {
        assert(catalog_schemas()[17].1[0] == catalog_schemas()[17].2[0]);
    }
    if i == 18 {
        assert(catalog_schemas()[18].1[1] == catalog_schemas()[18].2[0]);
    }
    if i == 19 {
        assert(catalog_schemas()[19].1[0] == catalog_schemas()[19].2[0]);
    }
    if i == 21 {
        assert(catalog_schemas()[21].1[1] == catalog_schemas()[21].2[0]);
    }
    if i == 23 {
        assert(catalog_schemas()[23].1[3] == catalog_schemas()[23].2[0]);
        assert(catalog_schemas()[23].1[0] == catalog_schemas()[23].2[1]);
        assert(catalog_schemas()[23].1[1] == catalog_schemas()[23].2[2]);
    }
    if i == 24 {
        assert(catalog_schemas()[24].1[0] == catalog_schemas()[24].2[0]);
        assert(catalog_schemas()[24].1[1] == catalog_schemas()[24].2[1]);
    }
    if i == 25 {
        assert(catalog_schemas()[25].1[0] == catalog_schemas()[25].2[0]);
    }
    if i == 26 {
        assert(catalog_schemas()[26].1[2] == catalog_schemas()[26].2[0]);
        assert(catalog_schemas()[26].1[4] == catalog_schemas()[26].2[1]);
    }
}

/// `stripe_list_products` asks for the products whose `active` flag is the `active` argument
/// when that is a boolean, and for the active ones when it is absent or not a boolean.
#[verifier::spinoff_prover]
#[verifier::rlimit(40)]
pub proof fn lemma_list_products_active_filter(args: Json, now: i64)
    ensures
        handle_view("stripe_list_products"@, args, now, seq![]) == send_view(
            Method::Get,
            "https://api.stripe.com/v1/products?limit="@ + dec_nat(limit_of(args, 20)) + "&active="@ + (
            if args.at("active"@).bool_of() == Some(false) {
                "false"@
            } else {
                "true"@
            }),
            None,
        ),
{
    reveal_strlit("stripe_list_products");
    reveal_strlit("stripe_list_customers");
    assert("stripe_list_customers"@.len() == 21);
    reveal_strlit("stripe_create_customer");
    assert("stripe_create_customer"@.len() == 22);
    reveal_strlit("stripe_list_subscriptions");
    assert("stripe_list_subscriptions"@.len() == 25);
    reveal_strlit("stripe_list_events");
    assert("stripe_list_events"@.len() == 18);
    reveal_strlit("stripe_get_event");
    assert("stripe_get_event"@.len() == 16);
    reveal_strlit("stripe_list_webhooks");
    assert("stripe_list_products"@[12] != "stripe_list_webhooks"@[12]);
    reveal_strlit("stripe_get_webhook");
    assert("stripe_get_webhook"@.len() == 18);
    reveal_strlit("stripe_create_webhook");
    assert("stripe_create_webhook"@.len() == 21);
    reveal_strlit("stripe_search_customers");
    assert("stripe_search_customers"@.len() == 23);
    reveal_strlit("stripe_update_customer");
    assert("stripe_update_customer"@.len() == 22);
    assert("stripe_list_products"@.len() == 20);
    reveal_strlit("products");
    assert("products"@[0] == 'p');
    assert(trim_start_spec("products"@, '/') == "products"@);
    reveal_strlit("true");
    reveal_strlit("false");
    assert(json_text(Json::Bool(true)) =~= "true"@);
    assert(json_text(Json::Bool(false)) =~= "false"@);
    reveal_strlit("https://api.stripe.com/v1/");
    reveal_strlit("https://api.stripe.com/v1/products?limit=");
    reveal_strlit("?limit=");
    assert(api_url("products"@) + "?limit="@ =~= "https://api.stripe.com/v1/products?limit="@);
}

/// `stripe_list_subscriptions` filters on the customer when `customer_id` is given and not
/// empty, and on the `status` argument unless it is `all` or empty; without a `status` it asks
/// for the active subscriptions.
pub proof fn lemma_list_subscriptions_filters(args: Json, now: i64)
    ensures
        handle_view("stripe_list_subscriptions"@, args, now, seq![]) == send_view(
            Method::Get,
            "https://api.stripe.com/v1/subscriptions?limit="@ + dec_nat(limit_of(args, 10)) + match args.at(
                "customer_id"@,
            ).str_of() {
                Some(c) => if c.len() > 0 {
                    "&customer="@ + pct_text(c)
                } else {
                    seq![]
                },
                None => seq![],
            } + match args.at("status"@).str_of() {
                Some(st) => if st != "all"@ && st.len() > 0 {
                    "&status="@ + pct_text(st)
                } else {
                    seq![]
                },
                None => "&status="@ + pct_text("active"@),
            },
            None,
        ),
{
    reveal_strlit("stripe_list_subscriptions");
    reveal_strlit("stripe_list_customers");
    assert("stripe_list_customers"@.len() == 21);
    reveal_strlit("stripe_create_customer");
    assert("stripe_create_customer"@.len() == 22);
    assert("stripe_list_subscriptions"@.len() == 25);
    reveal_strlit("subscriptions");
    assert("subscriptions"@[0] == 's');
    assert(trim_start_spec("subscriptions"@, '/') == "subscriptions"@);
    reveal_strlit("active");
    reveal_strlit("all");
    assert("active"@.len() == 6);
    assert("active"@ != "all"@);
    reveal_strlit("https://api.stripe.com/v1/");
    reveal_strlit("https://api.stripe.com/v1/subscriptions?limit=");
    reveal_strlit("?limit=");
    assert(api_url("subscriptions"@) + "?limit="@ =~= "https://api.stripe.com/v1/subscriptions?limit="@);
}

/// `stripe_list_events` filters on the `event_type` argument when it is given and not empty,
/// and, given `since_hours`, asks for the events created at most that many hours before `now`.
pub proof fn lemma_list_events_filters(args: Json, now: i64)
    ensures
        handle_view("stripe_list_events"@, args, now, seq![]) == send_view(
            Method::Get,
            "https://api.stripe.com/v1/events?limit="@ + dec_nat(limit_of(args, 20)) + match args.at(
                "event_type"@,
            ).str_of() {
                Some(t) => if t.len() > 0 {
                    "&type="@ + pct_text(t)
                } else {
                    seq![]
                },
                None => seq![],
            } + match args.at("since_hours"@).i64_of() {
                Some(h) => "&created[gte]="@ + dec_int(now - h * 3600),
                None => seq![],
            },
            None,
        ),
{
    reveal_strlit("stripe_list_events");
    reveal_strlit("stripe_list_customers");
    assert("stripe_list_customers"@.len() == 21);
    reveal_strlit("stripe_create_customer");
    assert("stripe_create_customer"@.len() == 22);
    reveal_strlit("stripe_list_subscriptions");
    assert("stripe_list_subscriptions"@.len() == 25);
    assert("stripe_list_events"@.len() == 18);
    reveal_strlit("events");
    assert("events"@[0] == 'e');
    assert(trim_start_spec("events"@, '/') == "events"@);
    reveal_strlit("https://api.stripe.com/v1/");
    reveal_strlit("https://api.stripe.com/v1/events?limit=");
    reveal_strlit("?limit=");
    assert(api_url("events"@) + "?limit="@ =~= "https://api.stripe.com/v1/events?limit="@);
}

/// The state part of a listed product: `actif` exactly when its `active` member is `true`.
pub open spec fn product_state_text(j: Json) -> Seq<char> {
    " · statut="@ + (if j.at("active"@).bool_of() == Some(true) {
        "actif"@
    } else {
        "inactif"@
    }) + "\n  description="@
}

proof fn lemma_product_text(j: Json)
    ensures
        occurs(product_state_text(j), item_text(Listed::Product, j)),
{
    let st = if j.at("active"@).bool_of() == Some(true) {
        "actif"@
    } else {
        "inactif"@
    };
    let x = "📦 "@ + str_or(j, "name"@, "—"@) + "\n  id="@ + str_or(j, "id"@, "?"@);
    let a = " · statut="@;
    let c = "\n  description="@;
    let n = a + st + c;
    lemma_occurs_tail3(x, a, st, c);
    lemma_occurs_append(n, x + a + st + c, str_or(j, "description"@, "—"@));
    lemma_occurs_append(n, x + a + st + c + str_or(j, "description"@, "—"@), "\n  créé="@);
    lemma_occurs_append(
        n,
        x + a + st + c + str_or(j, "description"@, "—"@) + "\n  créé="@,
        ts_at(j, "created"@),
    );
    assert(item_text(Listed::Product, j) == x + a + st + c + str_or(j, "description"@, "—"@) + "\n  créé="@
        + ts_at(j, "created"@));
}

/// Every product that `stripe_list_products` lists shows `statut=actif` when its `active`
/// member is `true` and `statut=inactif` otherwise.
pub proof fn lemma_products_show_their_state(args: Json, now: i64, r: Json, i: int)
    requires
        0 <= i < items_of(r).len(),
    ensures
        handle_view("stripe_list_products"@, args, now, seq![r]) matches StepView::Done(Ok(t)) && (
        items_of(r)[i].at("active"@).bool_of() == Some(true) ==> exists|p: Seq<char>, s: Seq<char>|
            t == p + (" · statut="@ + "actif"@ + "\n  description="@) + s) && (items_of(r)[i].at(
            "active"@,
        ).bool_of() != Some(true) ==> exists|p: Seq<char>, s: Seq<char>|
            t == p + (" · statut="@ + "inactif"@ + "\n  description="@) + s),
{
    reveal_strlit("stripe_list_products");
    reveal_strlit("stripe_list_customers");
    assert("stripe_list_customers"@.len() == 21);
    reveal_strlit("stripe_create_customer");
    assert("stripe_create_customer"@.len() == 22);
    reveal_strlit("stripe_list_subscriptions");
    assert("stripe_list_subscriptions"@.len() == 25);
    reveal_strlit("stripe_list_events");
    assert("stripe_list_events"@.len() == 18);
    reveal_strlit("stripe_get_event");
    assert("stripe_get_event"@.len() == 16);
    reveal_strlit("stripe_list_webhooks");
    assert("stripe_list_products"@[12] != "stripe_list_webhooks"@[12]);
    reveal_strlit("stripe_get_webhook");
    assert("stripe_get_webhook"@.len() == 18);
    reveal_strlit("stripe_create_webhook");
    assert("stripe_create_webhook"@.len() == 21);
    reveal_strlit("stripe_search_customers");
    assert("stripe_search_customers"@.len() == 23);
    reveal_strlit("stripe_update_customer");
    assert("stripe_update_customer"@.len() == 22);
    assert("stripe_list_products"@.len() == 20);
    let items = items_of(r);
    let j = items[i];
    let parts = item_texts(Listed::Product, items);
    lemma_product_text(j);
    assert(parts[i] == item_text(Listed::Product, j));
    lemma_join_holds(parts, "\n\n"@, i);
    lemma_occurs_trans(product_state_text(j), parts[i], join_spec(parts, "\n\n"@));
    lemma_occurs_prepend(
        product_state_text(j),
        "STRIPE 💳 — Produits"@ + " ("@ + dec_nat(items.len()) + ") :\n\n"@,
        join_spec(parts, "\n\n"@),
    );
}

/// One optional pair of a form after its first pair.
pub open spec fn more_pair(key: Seq<char>, v: Option<Seq<char>>) -> Seq<char> {
    match v {
        Some(x) => "&"@ + pct_pair(key, x),
        None => seq![],
    }
}

proof fn lemma_with_pair_form(pairs: Seq<Seq<char>>, key: Seq<char>, v: Option<Seq<char>>)
    requires
        pairs.len() > 0,
    ensures
        with_pair(pairs, key, v).len() > 0,
        form_of(with_pair(pairs, key, v)) == form_of(pairs) + more_pair(key, v),
{
    match v {
        Some(x) => {
            lemma_join_push(pairs, "&"@, pct_pair(key, x));
            assert(join_spec(pairs, "&"@) + "&"@ + pct_pair(key, x) =~= join_spec(pairs, "&"@) + ("&"@ + pct_pair(
                key,
                x,
            )));
        },
        None => {
            assert(form_of(pairs) + Seq::<char>::empty() =~= form_of(pairs));
        },
    }
}

/// `stripe_create_customer` posts to `customers` a form with the `email` argument first, then
/// the `name`, `phone` and `description` arguments, each when given and not empty.
pub proof fn lemma_create_customer_request(args: Json, now: i64, email: Seq<char>)
    requires
        args.at("email"@).str_of() == Some(email),
    ensures
        handle_view("stripe_create_customer"@, args, now, seq![]) == form_view(
            "https://api.stripe.com/v1/customers"@,
            pct_pair("email"@, email) + more_pair("name"@, filled(args, "name"@)) + more_pair(
                "phone"@,
                filled(args, "phone"@),
            ) + more_pair("description"@, filled(args, "description"@)),
        ),
{
    reveal_strlit("stripe_create_customer");
    reveal_strlit("stripe_list_customers");
    assert("stripe_list_customers"@.len() == 21);
    assert("stripe_create_customer"@.len() == 22);
    reveal_strlit("customers");
    reveal_strlit("https://api.stripe.com/v1/");
    reveal_strlit("https://api.stripe.com/v1/customers");
    assert("customers"@[0] == 'c');
    assert(trim_start_spec("customers"@, '/') == "customers"@);
    assert(api_url("customers"@) =~= "https://api.stripe.com/v1/customers"@);
    let p0 = seq![pct_pair("email"@, email)];
    let p1 = with_pair(p0, "name"@, filled(args, "name"@));
    let p2 = with_pair(p1, "phone"@, filled(args, "phone"@));
    assert(form_of(p0) == pct_pair("email"@, email));
    lemma_with_pair_form(p0, "name"@, filled(args, "name"@));
    lemma_with_pair_form(p1, "phone"@, filled(args, "phone"@));
    lemma_with_pair_form(p2, "description"@, filled(args, "description"@));
}

} // verus!
