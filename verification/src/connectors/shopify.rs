//! Shopify connector (REST Admin API 2024-01).
use vstd::prelude::*;
use crate::connectors::catalog::{build_catalog, catalog_text, requires_properties, schema_view, texts, SchemaNames};
use vstd::string::StringSliceAdditionalSpecFns;
use crate::encoding::{encode_bytes, is_url_safe, pct_encode, pct_text, percent_encode};
use crate::fmt::{
    array_len_or_zero, get_array_len_text, get_i64_text_or_zero, get_nested_str_or, get_str_or,
    get_u64_text_or, i64_text_or_zero, join_spec, join_strings, str_or, string_views, u64_text_or,
};
use crate::http::{fail_view, ok_view, send, send_status_text, send_view, status_text_view, Method, Step, StepView};
use crate::json::{get_array, get_bool, get_i64, get_str, get_u64, json_text, push_quoted, quoted, write_json, Json};
use crate::occurs::{
    lemma_occurs_append, lemma_occurs_between, lemma_occurs_prepend, lemma_occurs_tail4, lemma_occurs_tail6,
    lemma_regroup_line, lemma_split_tail2, lemma_split_tail3, lemma_split_tail4, occurs,
};
use crate::text::{
    dec_int, has_non_ws, lemma_non_ws_occurs, lemma_trim_end_ws_concat, dec_nat, owned, push_chars, push_i64, push_str, push_u64, str_chars, str_eq, trim_end_ws,
    trim_end_ws_spec, trim_start_char, trim_start_spec, trim_ws, trim_ws_spec, u64_to_string,
};

verus! {

/// Shopify credentials (`~/.osmozzz/shopify.toml`).
pub struct ShopifyConfig {
    pub shop_domain: String,
    pub access_token: String,
}

impl ShopifyConfig {
    /// The Admin API URL of `path` on the shop's domain.
    pub fn api(&self, path: &str) -> (r: String)
        ensures
            r@ == "https://"@ + self.shop_domain@ + "/admin/api/2024-01/"@ + trim_start_spec(path@, '/'),
    {
        let mut out = owned("https://");
        push_str(&mut out, self.shop_domain.as_str());
        push_str(&mut out, "/admin/api/2024-01/");
        push_chars(&mut out, &trim_start_char(&str_chars(path), '/'));
        out
    }
}

/// One order as two lines of text.
pub open spec fn order_text(o: Json) -> Seq<char> {
    let id = u64_text_or(o, "id"@, "—"@);
    let number = match o.at("order_number"@).u64_of() {
        Some(n) => "#"@ + dec_nat(n as nat),
        None => "—"@,
    };
    "• ["@ + id + "] "@ + number + " | "@ + str_or(o, "email"@, "—"@) + "\n  Paiement : "@
        + str_or(o, "financial_status"@, "—"@) + " | Livraison : "@ + str_or(
        o,
        "fulfillment_status"@,
        "unfulfilled"@,
    ) + " | Total : "@ + str_or(o, "total_price"@, "—"@) + " "@ + str_or(o, "currency"@, seq![])
        + "\n  "@ + dec_nat(array_len_or_zero(o, "line_items"@)) + " article(s) | Créé : "@
        + str_or(o, "created_at"@, "—"@)
}

/// Formats an order.
pub fn format_order(o: &Json) -> (r: String)
    ensures
        r@ == order_text(*o),
{
    proof {
        reveal_strlit("");
    }
    let mut out = owned("• [");
    push_str(&mut out, get_u64_text_or(o, "id", "—").as_str());
    push_str(&mut out, "] ");
    match get_u64(o, "order_number") {
        Some(n) => {
            push_str(&mut out, "#");
            push_u64(&mut out, n);
        },
        None => push_str(&mut out, "—"),
    }
    push_str(&mut out, " | ");
    push_str(&mut out, get_str_or(o, "email", "—"));
    push_str(&mut out, "\n  Paiement : ");
    push_str(&mut out, get_str_or(o, "financial_status", "—"));
    push_str(&mut out, " | Livraison : ");
    push_str(&mut out, get_str_or(o, "fulfillment_status", "unfulfilled"));
    push_str(&mut out, " | Total : ");
    push_str(&mut out, get_str_or(o, "total_price", "—"));
    push_str(&mut out, " ");
    push_str(&mut out, get_str_or(o, "currency", ""));
    push_str(&mut out, "\n  ");
    push_str(&mut out, get_array_len_text(o, "line_items").as_str());
    push_str(&mut out, " article(s) | Créé : ");
    push_str(&mut out, get_str_or(o, "created_at", "—"));
    out
}

/// One product as two lines of text, given the rendering of its price range.
pub open spec fn product_text(p: Json, price_range: Seq<char>) -> Seq<char> {
    "• ["@ + u64_text_or(p, "id"@, "—"@) + "] "@ + str_or(p, "title"@, "—"@) + "\n  Statut : "@
        + str_or(p, "status"@, "—"@) + " | Vendeur : "@ + str_or(p, "vendor"@, "—"@) + " | "@
        + dec_nat(array_len_or_zero(p, "variants"@)) + " variante(s) | Prix : "@ + price_range
}

/// Formats a product. The price range is rendered from the variants' decimal prices by the
/// caller.
pub fn format_product(p: &Json, price_range: &str) -> (r: String)
    ensures
        r@ == product_text(*p, price_range@),
{
    let mut out = owned("• [");
    push_str(&mut out, get_u64_text_or(p, "id", "—").as_str());
    push_str(&mut out, "] ");
    push_str(&mut out, get_str_or(p, "title", "—"));
    push_str(&mut out, "\n  Statut : ");
    push_str(&mut out, get_str_or(p, "status", "—"));
    push_str(&mut out, " | Vendeur : ");
    push_str(&mut out, get_str_or(p, "vendor", "—"));
    push_str(&mut out, " | ");
    push_str(&mut out, get_array_len_text(p, "variants").as_str());
    push_str(&mut out, " variante(s) | Prix : ");
    push_str(&mut out, price_range);
    out
}

/// One variant as a line of text.
pub open spec fn variant_text(v: Json) -> Seq<char> {
    let inv = match v.at("inventory_quantity"@).i64_of() {
        Some(n) => crate::text::dec_int(n as int),
        None => crate::text::dec_int(0),
    };
    "• ["@ + u64_text_or(v, "id"@, "—"@) + "] "@ + str_or(v, "title"@, "Default"@) + " | Prix : "@
        + str_or(v, "price"@, "—"@) + " | SKU : "@ + str_or(v, "sku"@, "—"@) + " | Stock : "@ + inv
}

/// Formats a product variant.
pub fn format_variant(v: &Json) -> (r: String)
    ensures
        r@ == variant_text(*v),
{
    let mut out = owned("• [");
    push_str(&mut out, get_u64_text_or(v, "id", "—").as_str());
    push_str(&mut out, "] ");
    push_str(&mut out, get_str_or(v, "title", "Default"));
    push_str(&mut out, " | Prix : ");
    push_str(&mut out, get_str_or(v, "price", "—"));
    push_str(&mut out, " | SKU : ");
    push_str(&mut out, get_str_or(v, "sku", "—"));
    push_str(&mut out, " | Stock : ");
    push_str(&mut out, crate::fmt::get_i64_text_or_zero(v, "inventory_quantity").as_str());
    out
}

/// One draft order as a line of text.
pub open spec fn draft_order_text(d: Json) -> Seq<char> {
    "• ["@ + u64_text_or(d, "id"@, "—"@) + "] "@ + str_or(d, "name"@, "—"@) + " | Statut : "@
        + str_or(d, "status"@, "—"@) + " | Total : "@ + str_or(d, "total_price"@, "—"@)
        + " | Client : "@ + str_or(d.at("customer"@), "email"@, "—"@)
}

/// Formats a draft order.
pub fn format_draft_order(d: &Json) -> (r: String)
    ensures
        r@ == draft_order_text(*d),
{
    let mut out = owned("• [");
    push_str(&mut out, get_u64_text_or(d, "id", "—").as_str());
    push_str(&mut out, "] ");
    push_str(&mut out, get_str_or(d, "name", "—"));
    push_str(&mut out, " | Statut : ");
    push_str(&mut out, get_str_or(d, "status", "—"));
    push_str(&mut out, " | Total : ");
    push_str(&mut out, get_str_or(d, "total_price", "—"));
    push_str(&mut out, " | Client : ");
    push_str(&mut out, get_nested_str_or(d, "customer", "email", "—"));
    out
}

/// One customer as two lines of text.
pub open spec fn customer_text(c: Json) -> Seq<char> {
    let orders = match c.at("orders_count"@).u64_of() {
        Some(n) => dec_nat(n as nat),
        None => dec_nat(0),
    };
    "• ["@ + u64_text_or(c, "id"@, "—"@) + "] "@ + str_or(c, "first_name"@, seq![]) + " "@ + str_or(
        c,
        "last_name"@,
        seq![],
    ) + " | "@ + str_or(c, "email"@, "—"@) + "\n  Commandes : "@ + orders + " | Total dépensé : "@
        + str_or(c, "total_spent"@, "0.00"@)
}

/// Formats a customer.
pub fn format_customer(c: &Json) -> (r: String)
    ensures
        r@ == customer_text(*c),
{
    proof {
        reveal_strlit("");
    }
    let mut out = owned("• [");
    push_str(&mut out, get_u64_text_or(c, "id", "—").as_str());
    push_str(&mut out, "] ");
    push_str(&mut out, get_str_or(c, "first_name", ""));
    push_str(&mut out, " ");
    push_str(&mut out, get_str_or(c, "last_name", ""));
    push_str(&mut out, " | ");
    push_str(&mut out, get_str_or(c, "email", "—"));
    push_str(&mut out, "\n  Commandes : ");
    let orders = match get_u64(c, "orders_count") {
        Some(n) => u64_to_string(n),
        None => u64_to_string(0),
    };
    push_str(&mut out, orders.as_str());
    push_str(&mut out, " | Total dépensé : ");
    push_str(&mut out, get_str_or(c, "total_spent", "0.00"));
    out
}

/// Percent-encodes a query value: unreserved characters kept, every other character written
/// as the percent-encoding of its UTF-8 bytes.
pub fn urlencoding(s: &str) -> (r: String)
    ensures
        r@ == encode_bytes(s.spec_bytes(), false),
        forall|i: int| 0 <= i < r@.len() ==> is_url_safe(#[trigger] r@[i]),
{
    percent_encode(s, false)
}


// ─── Tool calls ──────────────────────────────────────────────────────────────

/// The Admin API URL of `path` (see [`ShopifyConfig::api`]).
pub open spec fn api_url(cfg: ShopifyConfig, path: Seq<char>) -> Seq<char> {
    "https://"@ + cfg.shop_domain@ + "/admin/api/2024-01/"@ + trim_start_spec(path, '/')
}

/// The error a response reports in its `errors` member, if any.
pub open spec fn api_error(r: Json) -> Option<Seq<char>> {
    match r.spec_get("errors"@) {
        Some(e) => Some("Shopify API error: "@ + json_text(e)),
        None => None,
    }
}

/// A tool that makes one request: the request, then the response's error or the outcome
/// rendered from it.
pub open spec fn one_call(req: StepView, rs: Seq<Json>, text: spec_fn(Json) -> Seq<char>) -> StepView {
    if rs.len() == 0 {
        req
    } else {
        match api_error(rs[0]) {
            Some(e) => fail_view(e),
            None => ok_view(text(rs[0])),
        }
    }
}

fn api_error_exec(r: &Json) -> (e: Option<String>)
    ensures
        match e {
            Some(t) => api_error(*r) == Some(t@),
            None => api_error(*r) is None,
        },
{
    match r.get("errors") {
        Some(x) => {
            let mut t = owned("Shopify API error: ");
            write_json(&mut t, x);
            Some(t)
        },
        None => None,
    }
}

/// The error for a missing argument.
pub open spec fn required_text(key: Seq<char>) -> Seq<char> {
    "Paramètre '"@ + key + "' requis"@
}

fn required(key: &str) -> (s: Step)
    ensures
        s@ == fail_view(required_text(key@)),
{
    let mut e = owned("Paramètre '");
    push_str(&mut e, key);
    push_str(&mut e, "' requis");
    Step::Done(Err(e))
}

fn concat3(a: &str, b: &str, c: &str) -> (r: String)
    ensures
        r@ == a@ + b@ + c@,
{
    let mut r = owned(a);
    push_str(&mut r, b);
    push_str(&mut r, c);
    r
}

/// The outcome of a response: its error, or `text`.
fn outcome(r: &Json, text: String) -> (s: Step)
    ensures
        s@ == match api_error(*r) {
            Some(e) => fail_view(e),
            None => ok_view(text@),
        },
{
    match api_error_exec(r) {
        Some(e) => Step::Done(Err(e)),
        None => Step::Done(Ok(text)),
    }
}

/// A count argument, `d` by default.
pub open spec fn count_arg(args: Json, key: Seq<char>, d: nat) -> nat {
    match args.at(key).u64_of() {
        Some(n) => n as nat,
        None => d,
    }
}

fn get_count(args: &Json, key: &str, d: u64) -> (n: u64)
    ensures
        n == count_arg(*args, key@, d as nat),
{
    match get_u64(args, key) {
        Some(n) => n,
        None => d,
    }
}

/// A boolean member, `d` when it is not one.
pub open spec fn flag_or(j: Json, key: Seq<char>, d: bool) -> bool {
    match j.at(key).bool_of() {
        Some(b) => b,
        None => d,
    }
}

fn get_flag_or(j: &Json, key: &str, d: bool) -> (b: bool)
    ensures
        b == flag_or(*j, key@, d),
{
    match get_bool(j, key) {
        Some(b) => b,
        None => d,
    }
}

/// The member `key` of `r` (`null` when missing), by reference.
fn member<'a>(r: &'a Json, key: &str, null: &'a Json) -> (m: &'a Json)
    requires
        *null == Json::Null,
    ensures
        *m == r.at(key@),
{
    match r.get(key) {
        Some(x) => x,
        None => null,
    }
}

/// `members` with `"key":value` appended when there is a value.
pub open spec fn with_member(members: Seq<Seq<char>>, key: Seq<char>, v: Option<Seq<char>>) -> Seq<Seq<char>> {
    match v {
        Some(x) => members.push(quoted(key) + ":"@ + x),
        None => members,
    }
}

fn push_member(members: &mut Vec<String>, key: &str, v: Option<String>)
    ensures
        string_views(final(members)@) == with_member(
            string_views(old(members)@),
            key@,
            match v {
                Some(t) => Some(t@),
                None => None,
            },
        ),
{
    match v {
        Some(x) => {
            let ghost before = members@;
            let mut m = String::new();
            push_quoted(&mut m, key);
            push_str(&mut m, ":");
            push_str(&mut m, x.as_str());
            members.push(m);
            assert(string_views(members@) =~= string_views(before).push(quoted(key@) + ":"@ + x@));
        },
        None => {},
    }
}

/// A string argument as a member value.
pub open spec fn str_value(args: Json, key: Seq<char>) -> Option<Seq<char>> {
    match args.at(key).str_of() {
        Some(s) => Some(quoted(s)),
        None => None,
    }
}

fn str_value_exec(args: &Json, key: &str) -> (r: Option<String>)
    ensures
        match r {
            Some(t) => str_value(*args, key@) == Some(t@),
            None => str_value(*args, key@) is None,
        },
{
    match get_str(args, key) {
        Some(s) => {
            let mut t = String::new();
            push_quoted(&mut t, s);
            assert(t@ =~= quoted(s@));
            Some(t)
        },
        None => None,
    }
}

fn quoted_exec(s: &str) -> (t: String)
    ensures
        t@ == quoted(s@),
{
    let mut t = String::new();
    push_quoted(&mut t, s);
    assert(t@ =~= quoted(s@));
    t
}

/// A JSON object `{"outer":{members}}`.
pub open spec fn wrapped(outer: Seq<char>, members: Seq<Seq<char>>) -> Seq<char> {
    "{"@ + quoted(outer) + ":{"@ + join_spec(members, ","@) + "}}"@
}

fn wrapped_exec(outer: &str, members: &Vec<String>) -> (t: String)
    ensures
        t@ == wrapped(outer@, string_views(members@)),
{
    let mut t = owned("{");
    push_quoted(&mut t, outer);
    push_str(&mut t, ":{");
    push_str(&mut t, join_strings(members, ",").as_str());
    push_str(&mut t, "}}");
    t
}


/// The kinds of listed items.
#[derive(Clone, Copy)]
pub enum Listed {
    Order,
    Variant,
    DraftOrder,
    Customer,
    Collection,
    SmartCollection,
    Webhook,
    PriceRule,
    Location,
    Transaction,
}

/// How a price rule's discount reads.
pub open spec fn discount_text(r: Json) -> Seq<char> {
    let value = str_or(r, "value"@, "—"@);
    let t = str_or(r, "value_type"@, "—"@);
    if t == "percentage"@ {
        value + "%"@
    } else if t == "fixed_amount"@ {
        value + " (montant fixe)"@
    } else {
        value + " ("@ + t + ")"@
    }
}

/// How a price rule's use reads.
pub open spec fn usage_text(r: Json) -> Seq<char> {
    let used = u64_text_or(r, "usage_count"@, "0"@);
    match r.at("usage_limit"@).u64_of() {
        Some(l) => used + "/"@ + dec_nat(l as nat) + " utilisations"@,
        None => used + " utilisations (illimité)"@,
    }
}

/// One listed item, without its line break.
pub open spec fn item_text(kind: Listed, j: Json) -> Seq<char> {
    let id = u64_text_or(j, "id"@, "0"@);
    match kind {
        Listed::Order => order_text(j),
        Listed::Variant => variant_text(j),
        Listed::DraftOrder => draft_order_text(j),
        Listed::Customer => customer_text(j),
        Listed::Collection => "• ["@ + id + "] "@ + str_or(j, "title"@, "—"@) + " (handle: "@ + str_or(
            j,
            "handle"@,
            "—"@,
        ) + ") — "@ + u64_text_or(j, "products_count"@, "0"@) + " produit(s)"@,
        Listed::SmartCollection => "• ["@ + id + "] "@ + str_or(j, "title"@, "—"@) + " (handle: "@ + str_or(
            j,
            "handle"@,
            "—"@,
        ) + ") — "@ + u64_text_or(j, "products_count"@, "0"@) + " produit(s) | "@ + dec_nat(
            array_len_or_zero(j, "rules"@),
        ) + " règle(s)"@,
        Listed::Webhook => "• ["@ + id + "] "@ + str_or(j, "topic"@, "—"@) + "\n  URL : "@ + str_or(
            j,
            "address"@,
            "—"@,
        ) + "\n  Format : "@ + str_or(j, "format"@, "json"@) + " | Créé : "@ + str_or(j, "created_at"@, "—"@),
        Listed::PriceRule => "• ["@ + id + "] "@ + str_or(j, "title"@, "—"@) + "\n  Remise : "@ + discount_text(j)
            + " | "@ + usage_text(j) + "\n  Valide : "@ + str_or(j, "starts_at"@, "—"@) + " → "@ + str_or(
            j,
            "ends_at"@,
            "aucune"@,
        ),
        Listed::Location => "• ["@ + id + "] "@ + str_or(j, "name"@, "—"@) + " — "@ + str_or(j, "address1"@, "—"@)
            + ", "@ + str_or(j, "city"@, "—"@) + ", "@ + str_or(j, "country"@, "—"@),
        Listed::Transaction => "• ["@ + id + "] "@ + str_or(j, "kind"@, "—"@) + " | Statut : "@ + str_or(
            j,
            "status"@,
            "—"@,
        ) + " | Montant : "@ + str_or(j, "amount"@, "—"@) + " | Passerelle : "@ + str_or(j, "gateway"@, "—"@)
            + " | "@ + str_or(j, "created_at"@, "—"@),
    }
}

fn discount_exec(j: &Json) -> (r: String)
    ensures
        r@ == discount_text(*j),
{
    let value = get_str_or(j, "value", "—");
    let t = get_str_or(j, "value_type", "—");
    let mut out = owned(value);
    if str_eq(t, "percentage") {
        push_str(&mut out, "%");
    } else if str_eq(t, "fixed_amount") {
        push_str(&mut out, " (montant fixe)");
    } else {
        push_str(&mut out, " (");
        push_str(&mut out, t);
        push_str(&mut out, ")");
    }
    out
}

fn usage_exec(j: &Json) -> (r: String)
    ensures
        r@ == usage_text(*j),
{
    let mut out = get_u64_text_or(j, "usage_count", "0");
    match get_u64(j, "usage_limit") {
        Some(l) => {
            push_str(&mut out, "/");
            push_u64(&mut out, l);
            push_str(&mut out, " utilisations");
        },
        None => push_str(&mut out, " utilisations (illimité)"),
    }
    out
}

fn price_rule_exec(j: &Json) -> (r: String)
    ensures
        r@ == item_text(Listed::PriceRule, *j),
{
    let mut out = owned("• [");
    push_str(&mut out, get_u64_text_or(j, "id", "0").as_str());
    push_str(&mut out, "] ");
    push_str(&mut out, get_str_or(j, "title", "—"));
    push_str(&mut out, "\n  Remise : ");
    push_str(&mut out, discount_exec(j).as_str());
    push_str(&mut out, " | ");
    push_str(&mut out, usage_exec(j).as_str());
    push_str(&mut out, "\n  Valide : ");
    push_str(&mut out, get_str_or(j, "starts_at", "—"));
    push_str(&mut out, " → ");
    push_str(&mut out, get_str_or(j, "ends_at", "aucune"));
    out
}

#[verifier::rlimit(30)]
fn format_item(kind: Listed, j: &Json) -> (r: String)
    ensures
        r@ == item_text(kind, *j),
{
    match kind {
        Listed::Order => format_order(j),
        Listed::Variant => format_variant(j),
        Listed::DraftOrder => format_draft_order(j),
        Listed::Customer => format_customer(j),
        Listed::Collection => {
            let mut out = owned("• [");
            push_str(&mut out, get_u64_text_or(j, "id", "0").as_str());
            push_str(&mut out, "] ");
            push_str(&mut out, get_str_or(j, "title", "—"));
            push_str(&mut out, " (handle: ");
            push_str(&mut out, get_str_or(j, "handle", "—"));
            push_str(&mut out, ") — ");
            push_str(&mut out, get_u64_text_or(j, "products_count", "0").as_str());
            push_str(&mut out, " produit(s)");
            out
        },
        Listed::SmartCollection => {
            let mut out = owned("• [");
            push_str(&mut out, get_u64_text_or(j, "id", "0").as_str());
            push_str(&mut out, "] ");
            push_str(&mut out, get_str_or(j, "title", "—"));
            push_str(&mut out, " (handle: ");
            push_str(&mut out, get_str_or(j, "handle", "—"));
            push_str(&mut out, ") — ");
            push_str(&mut out, get_u64_text_or(j, "products_count", "0").as_str());
            push_str(&mut out, " produit(s) | ");
            push_str(&mut out, get_array_len_text(j, "rules").as_str());
            push_str(&mut out, " règle(s)");
            out
        },
        Listed::Webhook => {
            let mut out = owned("• [");
            push_str(&mut out, get_u64_text_or(j, "id", "0").as_str());
            push_str(&mut out, "] ");
            push_str(&mut out, get_str_or(j, "topic", "—"));
            push_str(&mut out, "\n  URL : ");
            push_str(&mut out, get_str_or(j, "address", "—"));
            push_str(&mut out, "\n  Format : ");
            push_str(&mut out, get_str_or(j, "format", "json"));
            push_str(&mut out, " | Créé : ");
            push_str(&mut out, get_str_or(j, "created_at", "—"));
            out
        },
        Listed::PriceRule => price_rule_exec(j),
        Listed::Location => {
            let mut out = owned("• [");
            push_str(&mut out, get_u64_text_or(j, "id", "0").as_str());
            push_str(&mut out, "] ");
            push_str(&mut out, get_str_or(j, "name", "—"));
            push_str(&mut out, " — ");
            push_str(&mut out, get_str_or(j, "address1", "—"));
            push_str(&mut out, ", ");
            push_str(&mut out, get_str_or(j, "city", "—"));
            push_str(&mut out, ", ");
            push_str(&mut out, get_str_or(j, "country", "—"));
            out
        },
        Listed::Transaction => {
            let mut out = owned("• [");
            push_str(&mut out, get_u64_text_or(j, "id", "0").as_str());
            push_str(&mut out, "] ");
            push_str(&mut out, get_str_or(j, "kind", "—"));
            push_str(&mut out, " | Statut : ");
            push_str(&mut out, get_str_or(j, "status", "—"));
            push_str(&mut out, " | Montant : ");
            push_str(&mut out, get_str_or(j, "amount", "—"));
            push_str(&mut out, " | Passerelle : ");
            push_str(&mut out, get_str_or(j, "gateway", "—"));
            push_str(&mut out, " | ");
            push_str(&mut out, get_str_or(j, "created_at", "—"));
            out
        },
    }
}

/// The items' texts, each followed by a line break.
pub open spec fn lines(kind: Listed, items: Seq<Json>) -> Seq<char>
    decreases items.len(),
{
    if items.len() == 0 {
        seq![]
    } else {
        lines(kind, items.drop_last()) + item_text(kind, items.last()) + "\n"@
    }
}

/// The array member `key` of a response (none when it is not an array).
pub open spec fn items_at(r: Json, key: Seq<char>) -> Seq<Json> {
    match r.at(key).array_of() {
        Some(a) => a,
        None => seq![],
    }
}

/// A list response: `empty` when it has no item, else the count, `header` and the items,
/// without trailing white space.
pub open spec fn listing(kind: Listed, r: Json, key: Seq<char>, header: Seq<char>, empty: Seq<char>) -> Seq<char> {
    let items = items_at(r, key);
    if items.len() == 0 {
        empty
    } else {
        trim_end_ws_spec(dec_nat(items.len()) + header + lines(kind, items))
    }
}

fn listing_exec(kind: Listed, r: &Json, key: &str, header: &str, empty: &str) -> (t: String)
    ensures
        t@ == listing(kind, *r, key@, header@, empty@),
{
    let items = match get_array(r, key) {
        Some(a) => a,
        None => return owned(empty),
    };
    let n = items.len();
    if n == 0 {
        return owned(empty);
    }
    let mut out = String::new();
    push_u64(&mut out, n as u64);
    push_str(&mut out, header);
    let ghost head = out@;
    for i in 0..n
        invariant
            n == items@.len(),
            out@ == head + lines(kind, items@.take(i as int)),
    {
        assert(items@.take(i + 1).drop_last() == items@.take(i as int));
        assert(items@.take(i + 1).last() == items@[i as int]);
        push_str(&mut out, format_item(kind, &items[i]).as_str());
        push_str(&mut out, "\n");
    }
    assert(items@.take(n as int) == items@);
    trim_end_ws(out.as_str())
}

/// A listing tool: one `GET`, then the list of the response's `key` array.
pub open spec fn list_view(
    cfg: ShopifyConfig,
    rs: Seq<Json>,
    path: Seq<char>,
    kind: Listed,
    key: Seq<char>,
    header: Seq<char>,
    empty: Seq<char>,
) -> StepView {
    one_call(
        send_view(Method::Get, api_url(cfg, path), None),
        rs,
        |r: Json| listing(kind, r, key, header, empty),
    )
}

fn list_tool(
    cfg: &ShopifyConfig,
    rs: &Vec<Json>,
    path: &str,
    kind: Listed,
    key: &str,
    header: &str,
    empty: &str,
) -> (s: Step)
    ensures
        s@ == list_view(*cfg, rs@, path@, kind, key@, header@, empty@),
{
    if rs.len() == 0 {
        return send(Method::Get, cfg.api(path), None);
    }
    outcome(&rs[0], listing_exec(kind, &rs[0], key, header, empty))
}


/// `shopify_get_shop`.
pub open spec fn shop_text(s: Json) -> Seq<char> {
    "🛍️ "@ + str_or(s, "name"@, "—"@) + "\nEmail       : "@ + str_or(s, "email"@, "—"@) + "\nDomaine     : "@
        + str_or(s, "domain"@, "—"@) + "\nMyShopify   : "@ + str_or(s, "myshopify_domain"@, "—"@)
        + "\nPlan        : "@ + str_or(s, "plan_display_name"@, "—"@) + "\nDevise      : "@ + str_or(
        s,
        "currency"@,
        "—"@,
    ) + "\nTimezone    : "@ + str_or(s, "iana_timezone"@, "—"@) + "\nPays        : "@ + str_or(
        s,
        "country_name"@,
        "—"@,
    ) + "\nCréé le     : "@ + str_or(s, "created_at"@, "—"@)
}

fn shop_exec(s: &Json) -> (t: String)
    ensures
        t@ == shop_text(*s),
{
    let mut out = owned("🛍️ ");
    push_str(&mut out, get_str_or(s, "name", "—"));
    push_str(&mut out, "\nEmail       : ");
    push_str(&mut out, get_str_or(s, "email", "—"));
    push_str(&mut out, "\nDomaine     : ");
    push_str(&mut out, get_str_or(s, "domain", "—"));
    push_str(&mut out, "\nMyShopify   : ");
    push_str(&mut out, get_str_or(s, "myshopify_domain", "—"));
    push_str(&mut out, "\nPlan        : ");
    push_str(&mut out, get_str_or(s, "plan_display_name", "—"));
    push_str(&mut out, "\nDevise      : ");
    push_str(&mut out, get_str_or(s, "currency", "—"));
    push_str(&mut out, "\nTimezone    : ");
    push_str(&mut out, get_str_or(s, "iana_timezone", "—"));
    push_str(&mut out, "\nPays        : ");
    push_str(&mut out, get_str_or(s, "country_name", "—"));
    push_str(&mut out, "\nCréé le     : ");
    push_str(&mut out, get_str_or(s, "created_at", "—"));
    out
}

/// The lines of an order's items.
pub open spec fn order_item_lines(items: Seq<Json>, cur: Seq<char>) -> Seq<char>
    decreases items.len(),
{
    if items.len() == 0 {
        seq![]
    } else {
        let it = items.last();
        order_item_lines(items.drop_last(), cur) + "  • "@ + str_or(it, "title"@, "—"@) + " × "@ + u64_text_or(
            it,
            "quantity"@,
            "1"@,
        ) + " — "@ + str_or(it, "price"@, "—"@) + " "@ + cur + "\n"@
    }
}

/// The shipping address of an order.
pub open spec fn shipping_text(a: Json) -> Seq<char> {
    if a is Object {
        str_or(a, "first_name"@, ""@) + " "@ + str_or(a, "last_name"@, ""@) + ", "@ + str_or(a, "address1"@, "—"@)
            + ", "@ + str_or(a, "city"@, "—"@) + " "@ + str_or(a, "country"@, "—"@)
    } else {
        "—"@
    }
}

/// The head of `shopify_get_order`: number, state, amounts, address and date.
pub open spec fn order_head(id: Seq<char>, o: Json) -> Seq<char> {
    let cur = str_or(o, "currency"@, ""@);
    "📦 Commande "@ + match o.at("order_number"@).u64_of() {
        Some(n) => "#"@ + dec_nat(n as nat),
        None => "—"@,
    } + " (ID: "@ + id + ")\nEmail           : "@ + str_or(o, "email"@, "—"@) + "\nPaiement        : "@ + str_or(
        o,
        "financial_status"@,
        "—"@,
    ) + "\nLivraison       : "@ + str_or(o, "fulfillment_status"@, "unfulfilled"@) + "\nSous-total      : "@
        + str_or(o, "subtotal_price"@, "—"@) + " "@ + cur + "\nTaxes           : "@ + str_or(o, "total_tax"@, "0.00"@)
        + " "@ + cur + "\nTotal           : "@ + str_or(o, "total_price"@, "—"@) + " "@ + cur
        + "\nAdresse         : "@ + shipping_text(o.at("shipping_address"@)) + "\nDate            : "@ + str_or(
        o,
        "created_at"@,
        "—"@,
    ) + "\n"@
}

/// The note and items of an order.
pub open spec fn order_tail(o: Json) -> Seq<char> {
    let cur = str_or(o, "currency"@, ""@);
    let note = str_or(o, "note"@, ""@);
    (if note.len() > 0 {
        "Note            : "@ + note + "\n"@
    } else {
        seq![]
    }) + match o.at("line_items"@).array_of() {
        Some(items) => "\n"@ + dec_nat(items.len()) + " article(s) :\n"@ + order_item_lines(items, cur),
        None => seq![],
    }
}

/// `shopify_get_order`.
pub open spec fn order_detail(id: Seq<char>, o: Json) -> Seq<char> {
    trim_end_ws_spec(order_head(id, o) + order_tail(o))
}

fn shipping_exec(a: &Json) -> (t: String)
    ensures
        t@ == shipping_text(*a),
{
    if !a.is_object() {
        return owned("—");
    }
    let mut out = owned(get_str_or(a, "first_name", ""));
    push_str(&mut out, " ");
    push_str(&mut out, get_str_or(a, "last_name", ""));
    push_str(&mut out, ", ");
    push_str(&mut out, get_str_or(a, "address1", "—"));
    push_str(&mut out, ", ");
    push_str(&mut out, get_str_or(a, "city", "—"));
    push_str(&mut out, " ");
    push_str(&mut out, get_str_or(a, "country", "—"));
    out
}

fn order_items_exec(items: &Vec<Json>, cur: &str) -> (t: String)
    ensures
        t@ == order_item_lines(items@, cur@),
{
    let mut out = String::new();
    let n = items.len();
    for i in 0..n
        invariant
            n == items@.len(),
            out@ == order_item_lines(items@.take(i as int), cur@),
    {
        assert(items@.take(i + 1).drop_last() == items@.take(i as int));
        assert(items@.take(i + 1).last() == items@[i as int]);
        let it = &items[i];
        push_str(&mut out, "  • ");
        push_str(&mut out, get_str_or(it, "title", "—"));
        push_str(&mut out, " × ");
        push_str(&mut out, get_u64_text_or(it, "quantity", "1").as_str());
        push_str(&mut out, " — ");
        push_str(&mut out, get_str_or(it, "price", "—"));
        push_str(&mut out, " ");
        push_str(&mut out, cur);
        push_str(&mut out, "\n");
    }
    assert(items@.take(n as int) == items@);
    out
}

#[verifier::rlimit(40)]
fn order_head_exec(id: &str, o: &Json) -> (t: String)
    ensures
        t@ == order_head(id@, *o),
{
    let null = Json::Null;
    let cur = get_str_or(o, "currency", "");
    let mut out = owned("📦 Commande ");
    match get_u64(o, "order_number") {
        Some(n) => {
            push_str(&mut out, "#");
            push_u64(&mut out, n);
        },
        None => push_str(&mut out, "—"),
    }
    push_str(&mut out, " (ID: ");
    push_str(&mut out, id);
    push_str(&mut out, ")\nEmail           : ");
    push_str(&mut out, get_str_or(o, "email", "—"));
    push_str(&mut out, "\nPaiement        : ");
    push_str(&mut out, get_str_or(o, "financial_status", "—"));
    push_str(&mut out, "\nLivraison       : ");
    push_str(&mut out, get_str_or(o, "fulfillment_status", "unfulfilled"));
    push_str(&mut out, "\nSous-total      : ");
    push_str(&mut out, get_str_or(o, "subtotal_price", "—"));
    push_str(&mut out, " ");
    push_str(&mut out, cur);
    push_str(&mut out, "\nTaxes           : ");
    push_str(&mut out, get_str_or(o, "total_tax", "0.00"));
    push_str(&mut out, " ");
    push_str(&mut out, cur);
    push_str(&mut out, "\nTotal           : ");
    push_str(&mut out, get_str_or(o, "total_price", "—"));
    push_str(&mut out, " ");
    push_str(&mut out, cur);
    push_str(&mut out, "\nAdresse         : ");
    push_str(&mut out, shipping_exec(member(o, "shipping_address", &null)).as_str());
    push_str(&mut out, "\nDate            : ");
    push_str(&mut out, get_str_or(o, "created_at", "—"));
    push_str(&mut out, "\n");
    out
}

fn order_tail_exec(o: &Json) -> (t: String)
    ensures
        t@ == order_tail(*o),
{
    let cur = get_str_or(o, "currency", "");
    let note = get_str_or(o, "note", "");
    let mut out = String::new();
    if !note.is_empty() {
        push_str(&mut out, "Note            : ");
        push_str(&mut out, note);
        push_str(&mut out, "\n");
    }
    match get_array(o, "line_items") {
        Some(items) => {
            push_str(&mut out, "\n");
            push_u64(&mut out, items.len() as u64);
            push_str(&mut out, " article(s) :\n");
            push_str(&mut out, order_items_exec(items, cur).as_str());
        },
        None => {},
    }
    assert(out@ =~= order_tail(*o));
    out
}

fn order_detail_exec(id: &str, o: &Json) -> (t: String)
    ensures
        t@ == order_detail(id@, *o),
{
    let mut out = order_head_exec(id, o);
    push_str(&mut out, order_tail_exec(o).as_str());
    trim_end_ws(out.as_str())
}


/// The lines of a product's variants.
pub open spec fn variant_lines(vs: Seq<Json>) -> Seq<char>
    decreases vs.len(),
{
    if vs.len() == 0 {
        seq![]
    } else {
        let v = vs.last();
        variant_lines(vs.drop_last()) + "  • "@ + str_or(v, "title"@, "Default"@) + " — "@ + str_or(v, "price"@, "—"@)
            + " | SKU: "@ + str_or(v, "sku"@, "—"@) + " | Stock: "@ + i64_text_or_zero(v, "inventory_quantity"@) + "\n"@
    }
}

/// The head of `shopify_get_product`.
pub open spec fn product_head(id: Seq<char>, p: Json) -> Seq<char> {
    "🛍️ "@ + str_or(p, "title"@, "—"@) + " (ID: "@ + id + ")\nStatut     : "@ + str_or(p, "status"@, "—"@)
        + "\nVendeur    : "@ + str_or(p, "vendor"@, "—"@) + "\nType       : "@ + str_or(p, "product_type"@, "—"@)
        + "\nTags       : "@ + str_or(p, "tags"@, "—"@) + "\nCréé       : "@ + str_or(p, "created_at"@, "—"@)
        + "\nMis à jour : "@ + str_or(p, "updated_at"@, "—"@) + "\n"@
}

/// `shopify_get_product`.
pub open spec fn product_detail(id: Seq<char>, p: Json) -> Seq<char> {
    trim_end_ws_spec(
        product_head(id, p) + match p.at("variants"@).array_of() {
            Some(vs) => "\n"@ + dec_nat(vs.len()) + " variante(s) :\n"@ + variant_lines(vs),
            None => seq![],
        },
    )
}

fn variant_lines_exec(vs: &Vec<Json>) -> (t: String)
    ensures
        t@ == variant_lines(vs@),
{
    let mut out = String::new();
    let n = vs.len();
    for i in 0..n
        invariant
            n == vs@.len(),
            out@ == variant_lines(vs@.take(i as int)),
    {
        assert(vs@.take(i + 1).drop_last() == vs@.take(i as int));
        assert(vs@.take(i + 1).last() == vs@[i as int]);
        let v = &vs[i];
        push_str(&mut out, "  • ");
        push_str(&mut out, get_str_or(v, "title", "Default"));
        push_str(&mut out, " — ");
        push_str(&mut out, get_str_or(v, "price", "—"));
        push_str(&mut out, " | SKU: ");
        push_str(&mut out, get_str_or(v, "sku", "—"));
        push_str(&mut out, " | Stock: ");
        push_str(&mut out, get_i64_text_or_zero(v, "inventory_quantity").as_str());
        push_str(&mut out, "\n");
    }
    assert(vs@.take(n as int) == vs@);
    out
}

fn product_detail_exec(id: &str, p: &Json) -> (t: String)
    ensures
        t@ == product_detail(id@, *p),
{
    let mut out = owned("🛍️ ");
    push_str(&mut out, get_str_or(p, "title", "—"));
    push_str(&mut out, " (ID: ");
    push_str(&mut out, id);
    push_str(&mut out, ")\nStatut     : ");
    push_str(&mut out, get_str_or(p, "status", "—"));
    push_str(&mut out, "\nVendeur    : ");
    push_str(&mut out, get_str_or(p, "vendor", "—"));
    push_str(&mut out, "\nType       : ");
    push_str(&mut out, get_str_or(p, "product_type", "—"));
    push_str(&mut out, "\nTags       : ");
    push_str(&mut out, get_str_or(p, "tags", "—"));
    push_str(&mut out, "\nCréé       : ");
    push_str(&mut out, get_str_or(p, "created_at", "—"));
    push_str(&mut out, "\nMis à jour : ");
    push_str(&mut out, get_str_or(p, "updated_at", "—"));
    push_str(&mut out, "\n");
    assert(out@ =~= product_head(id@, *p));
    match get_array(p, "variants") {
        Some(vs) => {
            push_str(&mut out, "\n");
            push_u64(&mut out, vs.len() as u64);
            push_str(&mut out, " variante(s) :\n");
            push_str(&mut out, variant_lines_exec(vs).as_str());
        },
        None => {},
    }
    assert(out@ =~= product_head(id@, *p) + match p.at("variants"@).array_of() {
        Some(vs) => "\n"@ + dec_nat(vs.len()) + " variante(s) :\n"@ + variant_lines(vs),
        None => seq![],
    });
    trim_end_ws(out.as_str())
}

/// The lines of a customer's addresses.
pub open spec fn address_lines(addrs: Seq<Json>) -> Seq<char>
    decreases addrs.len(),
{
    if addrs.len() == 0 {
        seq![]
    } else {
        let a = addrs.last();
        address_lines(addrs.drop_last()) + "  • "@ + str_or(a, "address1"@, "—"@) + ", "@ + str_or(a, "city"@, "—"@)
            + ", "@ + str_or(a, "country"@, "—"@) + (if flag_or(a, "default"@, false) {
            " [par défaut]"@
        } else {
            ""@
        }) + "\n"@
    }
}

/// The head of `shopify_get_customer`.
pub open spec fn customer_head(id: Seq<char>, c: Json) -> Seq<char> {
    "👤 "@ + str_or(c, "first_name"@, ""@) + " "@ + str_or(c, "last_name"@, ""@) + " (ID: "@ + id
        + ")\nEmail        : "@ + str_or(c, "email"@, "—"@) + "\nTéléphone    : "@ + str_or(c, "phone"@, "—"@)
        + "\nCommandes    : "@ + u64_text_or(c, "orders_count"@, "0"@) + "\nTotal dépensé: "@ + str_or(
        c,
        "total_spent"@,
        "0.00"@,
    ) + "\nTags         : "@ + str_or(c, "tags"@, "—"@) + "\nNote         : "@ + str_or(c, "note"@, "—"@)
        + "\nEmail vérifié: "@ + json_text(Json::Bool(flag_or(c, "verified_email"@, false))) + "\nCréé le      : "@
        + str_or(c, "created_at"@, "—"@) + "\n"@
}

/// `shopify_get_customer`.
pub open spec fn customer_detail(id: Seq<char>, c: Json) -> Seq<char> {
    trim_end_ws_spec(
        customer_head(id, c) + match c.at("addresses"@).array_of() {
            Some(a) => if a.len() > 0 {
                "\nAdresses :\n"@ + address_lines(a)
            } else {
                seq![]
            },
            None => seq![],
        },
    )
}

fn address_lines_exec(addrs: &Vec<Json>) -> (t: String)
    ensures
        t@ == address_lines(addrs@),
{
    let mut out = String::new();
    let n = addrs.len();
    for i in 0..n
        invariant
            n == addrs@.len(),
            out@ == address_lines(addrs@.take(i as int)),
    {
        assert(addrs@.take(i + 1).drop_last() == addrs@.take(i as int));
        assert(addrs@.take(i + 1).last() == addrs@[i as int]);
        let a = &addrs[i];
        push_str(&mut out, "  • ");
        push_str(&mut out, get_str_or(a, "address1", "—"));
        push_str(&mut out, ", ");
        push_str(&mut out, get_str_or(a, "city", "—"));
        push_str(&mut out, ", ");
        push_str(&mut out, get_str_or(a, "country", "—"));
        push_str(&mut out, if get_flag_or(a, "default", false) { " [par défaut]" } else { "" });
        push_str(&mut out, "\n");
    }
    assert(addrs@.take(n as int) == addrs@);
    out
}

fn customer_detail_exec(id: &str, c: &Json) -> (t: String)
    ensures
        t@ == customer_detail(id@, *c),
{
    let mut out = owned("👤 ");
    push_str(&mut out, get_str_or(c, "first_name", ""));
    push_str(&mut out, " ");
    push_str(&mut out, get_str_or(c, "last_name", ""));
    push_str(&mut out, " (ID: ");
    push_str(&mut out, id);
    push_str(&mut out, ")\nEmail        : ");
    push_str(&mut out, get_str_or(c, "email", "—"));
    push_str(&mut out, "\nTéléphone    : ");
    push_str(&mut out, get_str_or(c, "phone", "—"));
    push_str(&mut out, "\nCommandes    : ");
    push_str(&mut out, get_u64_text_or(c, "orders_count", "0").as_str());
    push_str(&mut out, "\nTotal dépensé: ");
    push_str(&mut out, get_str_or(c, "total_spent", "0.00"));
    push_str(&mut out, "\nTags         : ");
    push_str(&mut out, get_str_or(c, "tags", "—"));
    push_str(&mut out, "\nNote         : ");
    push_str(&mut out, get_str_or(c, "note", "—"));
    push_str(&mut out, "\nEmail vérifié: ");
    write_json(&mut out, &Json::Bool(get_flag_or(c, "verified_email", false)));
    push_str(&mut out, "\nCréé le      : ");
    push_str(&mut out, get_str_or(c, "created_at", "—"));
    push_str(&mut out, "\n");
    assert(out@ =~= customer_head(id@, *c));
    match get_array(c, "addresses") {
        Some(a) => if a.len() > 0 {
            push_str(&mut out, "\nAdresses :\n");
            push_str(&mut out, address_lines_exec(a).as_str());
        },
        None => {},
    }
    assert(out@ =~= customer_head(id@, *c) + match c.at("addresses"@).array_of() {
        Some(a) => if a.len() > 0 {
            "\nAdresses :\n"@ + address_lines(a)
        } else {
            seq![]
        },
        None => seq![],
    });
    trim_end_ws(out.as_str())
}


/// A request to an Admin API path.
pub open spec fn req_view(cfg: ShopifyConfig, method: Method, path: Seq<char>, body: Option<Seq<char>>) -> StepView {
    send_view(method, api_url(cfg, path), body)
}

fn req_step(cfg: &ShopifyConfig, method: Method, path: &str, body: Option<String>) -> (s: Step)
    ensures
        s@ == req_view(
            *cfg,
            method,
            path@,
            match body {
                Some(b) => Some(b@),
                None => None,
            },
        ),
{
    send(method, cfg.api(path), body)
}

/// The reading tools on orders and products.
pub open spec fn order_view(cfg: ShopifyConfig, name: Seq<char>, args: Json, rs: Seq<Json>) -> StepView {
    if name == "shopify_get_shop"@ {
        one_call(req_view(cfg, Method::Get, "/shop.json"@, None), rs, |r: Json| shop_text(r.at("shop"@)))
    } else if name == "shopify_list_orders"@ {
        let status = str_or(args, "status"@, "any"@);
        list_view(
            cfg,
            rs,
            "/orders.json?limit="@ + dec_nat(count_arg(args, "limit"@, 50)) + "&status="@ + status,
            Listed::Order,
            "orders"@,
            " commande(s) [statut: "@ + status + "] :\n\n"@,
            "Aucune commande (statut: "@ + status + ")."@,
        )
    } else if name == "shopify_get_order"@ {
        match args.at("order_id"@).str_of() {
            None => fail_view(required_text("order_id"@)),
            Some(id) => one_call(
                req_view(cfg, Method::Get, "/orders/"@ + id + ".json"@, None),
                rs,
                |r: Json| order_detail(id, r.at("order"@)),
            ),
        }
    } else if name == "shopify_get_product"@ {
        match args.at("product_id"@).str_of() {
            None => fail_view(required_text("product_id"@)),
            Some(id) => one_call(
                req_view(cfg, Method::Get, "/products/"@ + id + ".json"@, None),
                rs,
                |r: Json| product_detail(id, r.at("product"@)),
            ),
        }
    } else if name == "shopify_get_customer"@ {
        match args.at("customer_id"@).str_of() {
            None => fail_view(required_text("customer_id"@)),
            Some(id) => one_call(
                req_view(cfg, Method::Get, "/customers/"@ + id + ".json"@, None),
                rs,
                |r: Json| customer_detail(id, r.at("customer"@)),
            ),
        }
    } else if name == "shopify_list_product_variants"@ {
        match args.at("product_id"@).str_of() {
            None => fail_view(required_text("product_id"@)),
            Some(id) => list_view(
                cfg,
                rs,
                "/products/"@ + id + "/variants.json"@,
                Listed::Variant,
                "variants"@,
                " variante(s) pour le produit "@ + id + " :\n\n"@,
                "Aucune variante pour le produit "@ + id + "."@,
            ),
        }
    } else if name == "shopify_list_transactions"@ {
        match args.at("order_id"@).str_of() {
            None => fail_view(required_text("order_id"@)),
            Some(id) => list_view(
                cfg,
                rs,
                "/orders/"@ + id + "/transactions.json"@,
                Listed::Transaction,
                "transactions"@,
                " transaction(s) pour la commande "@ + id + " :\n\n"@,
                "Aucune transaction pour la commande "@ + id + "."@,
            ),
        }
    } else {
        let status = str_or(args, "status"@, "open"@);
        list_view(
            cfg,
            rs,
            "/draft_orders.json?limit=50&status="@ + status,
            Listed::DraftOrder,
            "draft_orders"@,
            " commande(s) brouillon [statut: "@ + status + "] :\n\n"@,
            "Aucune commande brouillon (statut: "@ + status + ")."@,
        )
    }
}

fn get_id<'a>(args: &'a Json, key: &str) -> (r: Option<&'a str>)
    ensures
        match r {
            Some(s) => args.at(key@).str_of() == Some(s@),
            None => args.at(key@).str_of() is None,
        },
{
    get_str(args, key)
}

fn order_tools(cfg: &ShopifyConfig, name: &str, args: &Json, rs: &Vec<Json>) -> (s: Step)
    ensures
        s@ == order_view(*cfg, name@, *args, rs@),
{
    if str_eq(name, "shopify_get_shop") {
        if rs.len() == 0 {
            return req_step(cfg, Method::Get, "/shop.json", None);
        }
        let null = Json::Null;
        outcome(&rs[0], shop_exec(member(&rs[0], "shop", &null)))
    } else if str_eq(name, "shopify_list_orders") {
        let status = get_str_or(args, "status", "any");
        let mut path = owned("/orders.json?limit=");
        push_u64(&mut path, get_count(args, "limit", 50));
        push_str(&mut path, "&status=");
        push_str(&mut path, status);
        let header = concat3(" commande(s) [statut: ", status, "] :\n\n");
        let empty = concat3("Aucune commande (statut: ", status, ").");
        list_tool(cfg, rs, path.as_str(), Listed::Order, "orders", header.as_str(), empty.as_str())
    } else if str_eq(name, "shopify_get_order") {
        let id = match get_id(args, "order_id") {
            None => return required("order_id"),
            Some(x) => x,
        };
        if rs.len() == 0 {
            return req_step(cfg, Method::Get, concat3("/orders/", id, ".json").as_str(), None);
        }
        let null = Json::Null;
        outcome(&rs[0], order_detail_exec(id, member(&rs[0], "order", &null)))
    } else if str_eq(name, "shopify_get_product") {
        let id = match get_id(args, "product_id") {
            None => return required("product_id"),
            Some(x) => x,
        };
        if rs.len() == 0 {
            return req_step(cfg, Method::Get, concat3("/products/", id, ".json").as_str(), None);
        }
        let null = Json::Null;
        outcome(&rs[0], product_detail_exec(id, member(&rs[0], "product", &null)))
    } else if str_eq(name, "shopify_get_customer") {
        let id = match get_id(args, "customer_id") {
            None => return required("customer_id"),
            Some(x) => x,
        };
        if rs.len() == 0 {
            return req_step(cfg, Method::Get, concat3("/customers/", id, ".json").as_str(), None);
        }
        let null = Json::Null;
        outcome(&rs[0], customer_detail_exec(id, member(&rs[0], "customer", &null)))
    } else if str_eq(name, "shopify_list_product_variants") {
        let id = match get_id(args, "product_id") {
            None => return required("product_id"),
            Some(x) => x,
        };
        let header = concat3(" variante(s) pour le produit ", id, " :\n\n");
        let empty = concat3("Aucune variante pour le produit ", id, ".");
        list_tool(
            cfg,
            rs,
            concat3("/products/", id, "/variants.json").as_str(),
            Listed::Variant,
            "variants",
            header.as_str(),
            empty.as_str(),
        )
    } else if str_eq(name, "shopify_list_transactions") {
        let id = match get_id(args, "order_id") {
            None => return required("order_id"),
            Some(x) => x,
        };
        let header = concat3(" transaction(s) pour la commande ", id, " :\n\n");
        let empty = concat3("Aucune transaction pour la commande ", id, ".");
        list_tool(
            cfg,
            rs,
            concat3("/orders/", id, "/transactions.json").as_str(),
            Listed::Transaction,
            "transactions",
            header.as_str(),
            empty.as_str(),
        )
    } else {
        let status = get_str_or(args, "status", "open");
        let header = concat3(" commande(s) brouillon [statut: ", status, "] :\n\n");
        let empty = concat3("Aucune commande brouillon (statut: ", status, ").");
        let mut path = owned("/draft_orders.json?limit=50&status=");
        push_str(&mut path, status);
        list_tool(
            cfg,
            rs,
            path.as_str(),
            Listed::DraftOrder,
            "draft_orders",
            header.as_str(),
            empty.as_str(),
        )
    }
}


/// The listings of customers, collections, webhooks, price rules and locations.
pub open spec fn catalog_view(cfg: ShopifyConfig, name: Seq<char>, args: Json, rs: Seq<Json>) -> StepView {
    let limit = dec_nat(count_arg(args, "limit"@, 50));
    if name == "shopify_list_customers"@ {
        list_view(
            cfg,
            rs,
            "/customers.json?limit="@ + limit,
            Listed::Customer,
            "customers"@,
            " client(s) :\n\n"@,
            "Aucun client trouvé."@,
        )
    } else if name == "shopify_search_customers"@ {
        match args.at("query"@).str_of() {
            None => fail_view(required_text("query"@)),
            Some(q) => list_view(
                cfg,
                rs,
                "/customers/search.json?query="@ + pct_text(q) + "&limit="@ + limit,
                Listed::Customer,
                "customers"@,
                " client(s) pour « "@ + q + " » :\n\n"@,
                "Aucun client trouvé pour « "@ + q + " »."@,
            ),
        }
    } else if name == "shopify_list_collections"@ {
        list_view(
            cfg,
            rs,
            "/custom_collections.json?limit="@ + limit,
            Listed::Collection,
            "custom_collections"@,
            " collection(s) :\n\n"@,
            "Aucune collection trouvée."@,
        )
    } else if name == "shopify_list_webhooks"@ {
        list_view(
            cfg,
            rs,
            "/webhooks.json"@,
            Listed::Webhook,
            "webhooks"@,
            " webhook(s) :\n\n"@,
            "Aucun webhook configuré."@,
        )
    } else if name == "shopify_list_price_rules"@ {
        list_view(
            cfg,
            rs,
            "/price_rules.json?limit="@ + limit,
            Listed::PriceRule,
            "price_rules"@,
            " règle(s) de prix :\n\n"@,
            "Aucune règle de prix configurée."@,
        )
    } else if name == "shopify_list_locations"@ {
        list_view(
            cfg,
            rs,
            "/locations.json"@,
            Listed::Location,
            "locations"@,
            " emplacement(s) :\n\n"@,
            "Aucun emplacement (location) configuré."@,
        )
    } else {
        list_view(
            cfg,
            rs,
            "/smart_collections.json?limit="@ + limit,
            Listed::SmartCollection,
            "smart_collections"@,
            " collection(s) automatique(s) :\n\n"@,
            "Aucune collection automatique (smart collection) trouvée."@,
        )
    }
}

fn limit_path(lead: &str, args: &Json) -> (p: String)
    ensures
        p@ == lead@ + dec_nat(count_arg(*args, "limit"@, 50)),
{
    let mut p = owned(lead);
    push_u64(&mut p, get_count(args, "limit", 50));
    p
}

fn catalog_tools(cfg: &ShopifyConfig, name: &str, args: &Json, rs: &Vec<Json>) -> (s: Step)
    ensures
        s@ == catalog_view(*cfg, name@, *args, rs@),
{
    if str_eq(name, "shopify_list_customers") {
        list_tool(
            cfg,
            rs,
            limit_path("/customers.json?limit=", args).as_str(),
            Listed::Customer,
            "customers",
            " client(s) :\n\n",
            "Aucun client trouvé.",
        )
    } else if str_eq(name, "shopify_search_customers") {
        let q = match get_id(args, "query") {
            None => return required("query"),
            Some(x) => x,
        };
        let mut path = concat3("/customers/search.json?query=", pct_encode(q).as_str(), "&limit=");
        push_u64(&mut path, get_count(args, "limit", 50));
        let header = concat3(" client(s) pour « ", q, " » :\n\n");
        let empty = concat3("Aucun client trouvé pour « ", q, " ».");
        list_tool(cfg, rs, path.as_str(), Listed::Customer, "customers", header.as_str(), empty.as_str())
    } else if str_eq(name, "shopify_list_collections") {
        list_tool(
            cfg,
            rs,
            limit_path("/custom_collections.json?limit=", args).as_str(),
            Listed::Collection,
            "custom_collections",
            " collection(s) :\n\n",
            "Aucune collection trouvée.",
        )
    } else if str_eq(name, "shopify_list_webhooks") {
        list_tool(cfg, rs, "/webhooks.json", Listed::Webhook, "webhooks", " webhook(s) :\n\n", "Aucun webhook configuré.")
    } else if str_eq(name, "shopify_list_price_rules") {
        list_tool(
            cfg,
            rs,
            limit_path("/price_rules.json?limit=", args).as_str(),
            Listed::PriceRule,
            "price_rules",
            " règle(s) de prix :\n\n",
            "Aucune règle de prix configurée.",
        )
    } else if str_eq(name, "shopify_list_locations") {
        list_tool(
            cfg,
            rs,
            "/locations.json",
            Listed::Location,
            "locations",
            " emplacement(s) :\n\n",
            "Aucun emplacement (location) configuré.",
        )
    } else {
        list_tool(
            cfg,
            rs,
            limit_path("/smart_collections.json?limit=", args).as_str(),
            Listed::SmartCollection,
            "smart_collections",
            " collection(s) automatique(s) :\n\n",
            "Aucune collection automatique (smart collection) trouvée.",
        )
    }
}


/// A string argument as a member value when it is given and not empty.
pub open spec fn filled_value(args: Json, key: Seq<char>) -> Option<Seq<char>> {
    match args.at(key).str_of() {
        Some(s) => if s.len() > 0 {
            Some(quoted(s))
        } else {
            None
        },
        None => None,
    }
}

fn filled_value_exec(args: &Json, key: &str) -> (r: Option<String>)
    ensures
        match r {
            Some(t) => filled_value(*args, key@) == Some(t@),
            None => filled_value(*args, key@) is None,
        },
{
    match get_str(args, key) {
        Some(s) => if s.is_empty() {
            None
        } else {
            Some(quoted_exec(s))
        },
        None => None,
    }
}

/// A JSON object of member texts.
pub open spec fn object_of(members: Seq<Seq<char>>) -> Seq<char> {
    "{"@ + join_spec(members, ","@) + "}"@
}

/// The members of `shopify_create_product`, in name order.
pub open spec fn create_product_members(args: Json, title: Seq<char>) -> Seq<Seq<char>> {
    with_member(
        with_member(
            with_member(
                with_member(
                    with_member(
                        with_member(seq![], "body_html"@, str_value(args, "body_html"@)),
                        "product_type"@,
                        str_value(args, "product_type"@),
                    ),
                    "status"@,
                    Some(quoted(str_or(args, "status"@, "draft"@))),
                ),
                "tags"@,
                str_value(args, "tags"@),
            ),
            "title"@,
            Some(quoted(title)),
        ),
        "vendor"@,
        str_value(args, "vendor"@),
    )
}

/// The members of `shopify_update_product`, in name order.
pub open spec fn update_product_members(args: Json, id: Seq<char>) -> Seq<Seq<char>> {
    with_member(
        with_member(
            with_member(
                with_member(
                    with_member(
                        with_member(seq![], "body_html"@, str_value(args, "body_html"@)),
                        "id"@,
                        Some(quoted(id)),
                    ),
                    "product_type"@,
                    str_value(args, "product_type"@),
                ),
                "status"@,
                str_value(args, "status"@),
            ),
            "tags"@,
            str_value(args, "tags"@),
        ),
        "title"@,
        str_value(args, "title"@),
    )
}

/// The members of `shopify_update_product`, with the vendor last.
pub open spec fn update_product_all(args: Json, id: Seq<char>) -> Seq<Seq<char>> {
    with_member(update_product_members(args, id), "vendor"@, str_value(args, "vendor"@))
}

/// The members of a customer, in name order; `id` is set for an update.
pub open spec fn customer_members(args: Json, email: Option<Seq<char>>, id: Option<Seq<char>>) -> Seq<Seq<char>> {
    with_member(
        with_member(
            with_member(
                with_member(
                    with_member(
                        with_member(with_member(seq![], "email"@, email), "first_name"@, str_value(args, "first_name"@)),
                        "id"@,
                        id,
                    ),
                    "last_name"@,
                    str_value(args, "last_name"@),
                ),
                "note"@,
                str_value(args, "note"@),
            ),
            "phone"@,
            str_value(args, "phone"@),
        ),
        "tags"@,
        str_value(args, "tags"@),
    )
}

/// The members of `shopify_update_product_variant`, in name order.
pub open spec fn variant_members(args: Json, id: Seq<char>) -> Seq<Seq<char>> {
    with_member(
        with_member(
            with_member(with_member(seq![], "compare_at_price"@, str_value(args, "compare_at_price"@)), "id"@, Some(quoted(id))),
            "price"@,
            str_value(args, "price"@),
        ),
        "sku"@,
        str_value(args, "sku"@),
    )
}

/// The writing tools.
pub open spec fn write_view(cfg: ShopifyConfig, name: Seq<char>, args: Json, rs: Seq<Json>) -> StepView {
    if name == "shopify_cancel_order"@ {
        match args.at("order_id"@).str_of() {
            None => fail_view(required_text("order_id"@)),
            Some(id) => one_call(
                req_view(
                    cfg,
                    Method::Post,
                    "/orders/"@ + id + "/cancel.json"@,
                    Some(object_of(with_member(seq![], "reason"@, str_value(args, "reason"@)))),
                ),
                rs,
                |r: Json|
                    "Commande "@ + id + " annulée. Motif : "@ + str_or(r.at("order"@), "cancel_reason"@, "cancelled"@)
                        + "."@,
            ),
        }
    } else if name == "shopify_fulfill_order"@ {
        match args.at("order_id"@).str_of() {
            None => fail_view(required_text("order_id"@)),
            Some(id) => one_call(
                req_view(
                    cfg,
                    Method::Post,
                    "/orders/"@ + id + "/fulfillments.json"@,
                    Some(
                        wrapped(
                            "fulfillment"@,
                            with_member(
                                with_member(
                                    seq![quoted("notify_customer"@) + ":"@ + json_text(Json::Bool(flag_or(args, "notify_customer"@, true)))],
                                    "tracking_company"@,
                                    filled_value(args, "tracking_company"@),
                                ),
                                "tracking_number"@,
                                filled_value(args, "tracking_number"@),
                            ),
                        ),
                    ),
                ),
                rs,
                |r: Json|
                    "Commande "@ + id + " fulfillée. Statut : "@ + str_or(r.at("fulfillment"@), "status"@, "success"@)
                        + "."@,
            ),
        }
    } else if name == "shopify_create_product"@ {
        match args.at("title"@).str_of() {
            None => fail_view(required_text("title"@)),
            Some(t) => one_call(
                req_view(cfg, Method::Post, "/products.json"@, Some(wrapped("product"@, create_product_members(args, t)))),
                rs,
                |r: Json| "Produit '"@ + t + "' créé (ID: "@ + u64_text_or(r.at("product"@), "id"@, "0"@) + ")."@,
            ),
        }
    } else if name == "shopify_update_product"@ {
        match args.at("product_id"@).str_of() {
            None => fail_view(required_text("product_id"@)),
            Some(id) => one_call(
                req_view(
                    cfg,
                    Method::Put,
                    "/products/"@ + id + ".json"@,
                    Some(wrapped("product"@, update_product_all(args, id))),
                ),
                rs,
                |r: Json| "Produit "@ + id + " mis à jour."@,
            ),
        }
    } else if name == "shopify_create_customer"@ {
        match args.at("email"@).str_of() {
            None => fail_view(required_text("email"@)),
            Some(e) => one_call(
                req_view(
                    cfg,
                    Method::Post,
                    "/customers.json"@,
                    Some(wrapped("customer"@, customer_members(args, Some(quoted(e)), None))),
                ),
                rs,
                |r: Json| "Client '"@ + e + "' créé (ID: "@ + u64_text_or(r.at("customer"@), "id"@, "0"@) + ")."@,
            ),
        }
    } else if name == "shopify_update_customer"@ {
        match args.at("customer_id"@).str_of() {
            None => fail_view(required_text("customer_id"@)),
            Some(id) => one_call(
                req_view(
                    cfg,
                    Method::Put,
                    "/customers/"@ + id + ".json"@,
                    Some(wrapped("customer"@, customer_members(args, str_value(args, "email"@), Some(quoted(id))))),
                ),
                rs,
                |r: Json| "Client "@ + id + " mis à jour."@,
            ),
        }
    } else {
        write_more_view(cfg, name, args, rs)
    }
}

/// The remaining writing tools.
pub open spec fn write_more_view(cfg: ShopifyConfig, name: Seq<char>, args: Json, rs: Seq<Json>) -> StepView {
    if name == "shopify_create_webhook"@ {
        match args.at("topic"@).str_of() {
            None => fail_view(required_text("topic"@)),
            Some(topic) => match args.at("address"@).str_of() {
                None => fail_view(required_text("address"@)),
                Some(address) => one_call(
                    req_view(
                        cfg,
                        Method::Post,
                        "/webhooks.json"@,
                        Some(
                            wrapped(
                                "webhook"@,
                                seq![
                                    quoted("address"@) + ":"@ + quoted(address),
                                    quoted("format"@) + ":"@ + quoted(str_or(args, "format"@, "json"@)),
                                    quoted("topic"@) + ":"@ + quoted(topic),
                                ],
                            ),
                        ),
                    ),
                    rs,
                    |r: Json|
                        "Webhook créé (ID: "@ + u64_text_or(r.at("webhook"@), "id"@, "0"@) + ") pour le topic '"@ + topic
                            + "' → "@ + address + "."@,
                ),
            },
        }
    } else if name == "shopify_update_inventory"@ {
        match args.at("location_id"@).i64_of() {
            None => fail_view(required_text("location_id"@)),
            Some(l) => match args.at("inventory_item_id"@).i64_of() {
                None => fail_view(required_text("inventory_item_id"@)),
                Some(i) => match args.at("available"@).i64_of() {
                    None => fail_view(required_text("available"@)),
                    Some(a) => one_call(
                        req_view(
                            cfg,
                            Method::Post,
                            "/inventory_levels/set.json"@,
                            Some(
                                "{\"available\":"@ + dec_int(a as int) + ",\"inventory_item_id\":"@ + dec_int(i as int)
                                    + ",\"location_id\":"@ + dec_int(l as int) + "}"@,
                            ),
                        ),
                        rs,
                        |r: Json|
                            "Inventaire mis à jour — item "@ + dec_int(i as int) + " @ location "@ + dec_int(l as int)
                                + " : "@ + dec_int(
                                match r.at("inventory_level"@).at("available"@).i64_of() {
                                    Some(n) => n as int,
                                    None => a as int,
                                },
                            ) + " disponible(s)."@,
                    ),
                },
            },
        }
    } else if name == "shopify_update_product_variant"@ {
        match args.at("variant_id"@).str_of() {
            None => fail_view(required_text("variant_id"@)),
            Some(id) => one_call(
                req_view(cfg, Method::Put, "/variants/"@ + id + ".json"@, Some(wrapped("variant"@, variant_members(args, id)))),
                rs,
                |r: Json| "Variante "@ + id + " mise à jour."@,
            ),
        }
    } else if name == "shopify_complete_draft_order"@ {
        match args.at("id"@).str_of() {
            None => fail_view(required_text("id"@)),
            Some(id) => one_call(
                req_view(cfg, Method::Put, "/draft_orders/"@ + id + "/complete.json"@, Some("{}"@)),
                rs,
                |r: Json| "Commande brouillon "@ + id + " marquée comme complète/payée."@,
            ),
        }
    } else {
        match args.at("title"@).str_of() {
            None => fail_view(required_text("title"@)),
            Some(t) => one_call(
                req_view(
                    cfg,
                    Method::Post,
                    "/custom_collections.json"@,
                    Some(
                        wrapped(
                            "custom_collection"@,
                            with_member(with_member(seq![], "body_html"@, str_value(args, "body_html"@)), "title"@, Some(quoted(t))),
                        ),
                    ),
                ),
                rs,
                |r: Json| "Collection '"@ + t + "' créée (ID: "@ + u64_text_or(r.at("custom_collection"@), "id"@, "0"@) + ")."@,
            ),
        }
    }
}


fn empty_members() -> (ms: Vec<String>)
    ensures
        string_views(ms@) == Seq::<Seq<char>>::empty(),
{
    let ms: Vec<String> = Vec::new();
    assert(string_views(ms@) =~= Seq::<Seq<char>>::empty());
    ms
}

fn write_tools(cfg: &ShopifyConfig, name: &str, args: &Json, rs: &Vec<Json>) -> (s: Step)
    ensures
        s@ == write_view(*cfg, name@, *args, rs@),
{
    let null = Json::Null;
    if str_eq(name, "shopify_cancel_order") {
        let id = match get_id(args, "order_id") {
            None => return required("order_id"),
            Some(x) => x,
        };
        if rs.len() == 0 {
            let mut ms = empty_members();
            push_member(&mut ms, "reason", str_value_exec(args, "reason"));
            let body = concat3("{", join_strings(&ms, ",").as_str(), "}");
            return req_step(cfg, Method::Post, concat3("/orders/", id, "/cancel.json").as_str(), Some(body));
        }
        let mut out = concat3("Commande ", id, " annulée. Motif : ");
        push_str(&mut out, get_str_or(member(&rs[0], "order", &null), "cancel_reason", "cancelled"));
        push_str(&mut out, ".");
        outcome(&rs[0], out)
    } else if str_eq(name, "shopify_fulfill_order") {
        let id = match get_id(args, "order_id") {
            None => return required("order_id"),
            Some(x) => x,
        };
        if rs.len() == 0 {
            let mut first = String::new();
            push_quoted(&mut first, "notify_customer");
            push_str(&mut first, ":");
            write_json(&mut first, &Json::Bool(get_flag_or(args, "notify_customer", true)));
            let mut ms: Vec<String> = Vec::new();
            ms.push(first);
            assert(string_views(ms@) =~= seq![
                quoted("notify_customer"@) + ":"@ + json_text(Json::Bool(flag_or(*args, "notify_customer"@, true))),
            ]);
            push_member(&mut ms, "tracking_company", filled_value_exec(args, "tracking_company"));
            push_member(&mut ms, "tracking_number", filled_value_exec(args, "tracking_number"));
            return req_step(
                cfg,
                Method::Post,
                concat3("/orders/", id, "/fulfillments.json").as_str(),
                Some(wrapped_exec("fulfillment", &ms)),
            );
        }
        let mut out = concat3("Commande ", id, " fulfillée. Statut : ");
        push_str(&mut out, get_str_or(member(&rs[0], "fulfillment", &null), "status", "success"));
        push_str(&mut out, ".");
        outcome(&rs[0], out)
    } else if str_eq(name, "shopify_create_product") {
        let t = match get_id(args, "title") {
            None => return required("title"),
            Some(x) => x,
        };
        if rs.len() == 0 {
            let mut ms = empty_members();
            push_member(&mut ms, "body_html", str_value_exec(args, "body_html"));
            push_member(&mut ms, "product_type", str_value_exec(args, "product_type"));
            push_member(&mut ms, "status", Some(quoted_exec(get_str_or(args, "status", "draft"))));
            push_member(&mut ms, "tags", str_value_exec(args, "tags"));
            push_member(&mut ms, "title", Some(quoted_exec(t)));
            push_member(&mut ms, "vendor", str_value_exec(args, "vendor"));
            return req_step(cfg, Method::Post, "/products.json", Some(wrapped_exec("product", &ms)));
        }
        let mut out = concat3("Produit '", t, "' créé (ID: ");
        push_str(&mut out, get_u64_text_or(member(&rs[0], "product", &null), "id", "0").as_str());
        push_str(&mut out, ").");
        outcome(&rs[0], out)
    } else if str_eq(name, "shopify_update_product") {
        let id = match get_id(args, "product_id") {
            None => return required("product_id"),
            Some(x) => x,
        };
        if rs.len() == 0 {
            let mut ms = empty_members();
            push_member(&mut ms, "body_html", str_value_exec(args, "body_html"));
            push_member(&mut ms, "id", Some(quoted_exec(id)));
            push_member(&mut ms, "product_type", str_value_exec(args, "product_type"));
            push_member(&mut ms, "status", str_value_exec(args, "status"));
            push_member(&mut ms, "tags", str_value_exec(args, "tags"));
            push_member(&mut ms, "title", str_value_exec(args, "title"));
            push_member(&mut ms, "vendor", str_value_exec(args, "vendor"));
            return req_step(
                cfg,
                Method::Put,
                concat3("/products/", id, ".json").as_str(),
                Some(wrapped_exec("product", &ms)),
            );
        }
        outcome(&rs[0], concat3("Produit ", id, " mis à jour."))
    } else if str_eq(name, "shopify_create_customer") {
        let e = match get_id(args, "email") {
            None => return required("email"),
            Some(x) => x,
        };
        if rs.len() == 0 {
            let ms = customer_members_exec(args, Some(quoted_exec(e)), None);
            return req_step(cfg, Method::Post, "/customers.json", Some(wrapped_exec("customer", &ms)));
        }
        let mut out = concat3("Client '", e, "' créé (ID: ");
        push_str(&mut out, get_u64_text_or(member(&rs[0], "customer", &null), "id", "0").as_str());
        push_str(&mut out, ").");
        outcome(&rs[0], out)
    } else if str_eq(name, "shopify_update_customer") {
        let id = match get_id(args, "customer_id") {
            None => return required("customer_id"),
            Some(x) => x,
        };
        if rs.len() == 0 {
            let ms = customer_members_exec(args, str_value_exec(args, "email"), Some(quoted_exec(id)));
            return req_step(
                cfg,
                Method::Put,
                concat3("/customers/", id, ".json").as_str(),
                Some(wrapped_exec("customer", &ms)),
            );
        }
        outcome(&rs[0], concat3("Client ", id, " mis à jour."))
    } else {
        write_more_tools(cfg, name, args, rs)
    }
}

fn customer_members_exec(args: &Json, email: Option<String>, id: Option<String>) -> (ms: Vec<String>)
    ensures
        string_views(ms@) == customer_members(
            *args,
            match email {
                Some(t) => Some(t@),
                None => None,
            },
            match id {
                Some(t) => Some(t@),
                None => None,
            },
        ),
{
    let mut ms = empty_members();
    push_member(&mut ms, "email", email);
    push_member(&mut ms, "first_name", str_value_exec(args, "first_name"));
    push_member(&mut ms, "id", id);
    push_member(&mut ms, "last_name", str_value_exec(args, "last_name"));
    push_member(&mut ms, "note", str_value_exec(args, "note"));
    push_member(&mut ms, "phone", str_value_exec(args, "phone"));
    push_member(&mut ms, "tags", str_value_exec(args, "tags"));
    ms
}

fn write_more_tools(cfg: &ShopifyConfig, name: &str, args: &Json, rs: &Vec<Json>) -> (s: Step)
    ensures
        s@ == write_more_view(*cfg, name@, *args, rs@),
{
    let null = Json::Null;
    if str_eq(name, "shopify_create_webhook") {
        let topic = match get_id(args, "topic") {
            None => return required("topic"),
            Some(x) => x,
        };
        let address = match get_id(args, "address") {
            None => return required("address"),
            Some(x) => x,
        };
        if rs.len() == 0 {
            let mut a = String::new();
            push_quoted(&mut a, "address");
            push_str(&mut a, ":");
            push_quoted(&mut a, address);
            let mut f = String::new();
            push_quoted(&mut f, "format");
            push_str(&mut f, ":");
            push_quoted(&mut f, get_str_or(args, "format", "json"));
            let mut t = String::new();
            push_quoted(&mut t, "topic");
            push_str(&mut t, ":");
            push_quoted(&mut t, topic);
            let mut ms: Vec<String> = Vec::new();
            ms.push(a);
            ms.push(f);
            ms.push(t);
            assert(string_views(ms@) =~= seq![
                quoted("address"@) + ":"@ + quoted(address@),
                quoted("format"@) + ":"@ + quoted(str_or(*args, "format"@, "json"@)),
                quoted("topic"@) + ":"@ + quoted(topic@),
            ]);
            return req_step(cfg, Method::Post, "/webhooks.json", Some(wrapped_exec("webhook", &ms)));
        }
        let mut out = owned("Webhook créé (ID: ");
        push_str(&mut out, get_u64_text_or(member(&rs[0], "webhook", &null), "id", "0").as_str());
        push_str(&mut out, ") pour le topic '");
        push_str(&mut out, topic);
        push_str(&mut out, "' → ");
        push_str(&mut out, address);
        push_str(&mut out, ".");
        outcome(&rs[0], out)
    } else if str_eq(name, "shopify_update_inventory") {
        let l = match get_i64(args, "location_id") {
            None => return required("location_id"),
            Some(x) => x,
        };
        let i = match get_i64(args, "inventory_item_id") {
            None => return required("inventory_item_id"),
            Some(x) => x,
        };
        let a = match get_i64(args, "available") {
            None => return required("available"),
            Some(x) => x,
        };
        if rs.len() == 0 {
            let mut body = owned("{\"available\":");
            push_i64(&mut body, a);
            push_str(&mut body, ",\"inventory_item_id\":");
            push_i64(&mut body, i);
            push_str(&mut body, ",\"location_id\":");
            push_i64(&mut body, l);
            push_str(&mut body, "}");
            return req_step(cfg, Method::Post, "/inventory_levels/set.json", Some(body));
        }
        let ret = match member(&rs[0], "inventory_level", &null).get("available") {
            Some(v) => match v.as_i64() {
                Some(n) => n,
                None => a,
            },
            None => a,
        };
        let mut out = owned("Inventaire mis à jour — item ");
        push_i64(&mut out, i);
        push_str(&mut out, " @ location ");
        push_i64(&mut out, l);
        push_str(&mut out, " : ");
        push_i64(&mut out, ret);
        push_str(&mut out, " disponible(s).");
        outcome(&rs[0], out)
    } else if str_eq(name, "shopify_update_product_variant") {
        let id = match get_id(args, "variant_id") {
            None => return required("variant_id"),
            Some(x) => x,
        };
        if rs.len() == 0 {
            let mut ms = empty_members();
            push_member(&mut ms, "compare_at_price", str_value_exec(args, "compare_at_price"));
            push_member(&mut ms, "id", Some(quoted_exec(id)));
            push_member(&mut ms, "price", str_value_exec(args, "price"));
            push_member(&mut ms, "sku", str_value_exec(args, "sku"));
            return req_step(
                cfg,
                Method::Put,
                concat3("/variants/", id, ".json").as_str(),
                Some(wrapped_exec("variant", &ms)),
            );
        }
        outcome(&rs[0], concat3("Variante ", id, " mise à jour."))
    } else if str_eq(name, "shopify_complete_draft_order") {
        let id = match get_id(args, "id") {
            None => return required("id"),
            Some(x) => x,
        };
        if rs.len() == 0 {
            return req_step(
                cfg,
                Method::Put,
                concat3("/draft_orders/", id, "/complete.json").as_str(),
                Some(owned("{}")),
            );
        }
        outcome(&rs[0], concat3("Commande brouillon ", id, " marquée comme complète/payée."))
    } else {
        let t = match get_id(args, "title") {
            None => return required("title"),
            Some(x) => x,
        };
        if rs.len() == 0 {
            let mut ms = empty_members();
            push_member(&mut ms, "body_html", str_value_exec(args, "body_html"));
            push_member(&mut ms, "title", Some(quoted_exec(t)));
            return req_step(cfg, Method::Post, "/custom_collections.json", Some(wrapped_exec("custom_collection", &ms)));
        }
        let mut out = concat3("Collection '", t, "' créée (ID: ");
        push_str(&mut out, get_u64_text_or(member(&rs[0], "custom_collection", &null), "id", "0").as_str());
        push_str(&mut out, ").");
        outcome(&rs[0], out)
    }
}


/// The ids of the locations, in order, skipping those without one.
pub open spec fn location_ids(ls: Seq<Json>) -> Seq<Seq<char>>
    decreases ls.len(),
{
    if ls.len() == 0 {
        seq![]
    } else {
        location_ids(ls.drop_last()) + match ls.last().at("id"@).u64_of() {
            Some(n) => seq![dec_nat(n as nat)],
            None => seq![],
        }
    }
}

/// The name of location `id`: that of the last location with this id and a name, else `—`.
pub open spec fn loc_name(ls: Seq<Json>, id: u64) -> Seq<char>
    decreases ls.len(),
{
    if ls.len() == 0 {
        "—"@
    } else {
        let l = ls.last();
        match (l.at("id"@).u64_of(), l.at("name"@).str_of()) {
            (Some(i), Some(n)) => if i == id {
                n
            } else {
                loc_name(ls.drop_last(), id)
            },
            _ => loc_name(ls.drop_last(), id),
        }
    }
}

/// The id of a level's location (0 when missing).
pub open spec fn level_location(l: Json) -> u64 {
    match l.at("location_id"@).u64_of() {
        Some(n) => n,
        None => 0,
    }
}

/// The lines of inventory levels, with their locations' names.
pub open spec fn level_lines(levels: Seq<Json>, ls: Seq<Json>) -> Seq<char>
    decreases levels.len(),
{
    if levels.len() == 0 {
        seq![]
    } else {
        let l = levels.last();
        level_lines(levels.drop_last(), ls) + "• Item "@ + u64_text_or(l, "inventory_item_id"@, "0"@) + " | Location: "@
            + loc_name(ls, level_location(l)) + " ("@ + dec_nat(level_location(l) as nat) + ") | Disponible: "@
            + i64_text_or_zero(l, "available"@) + "\n"@
    }
}

/// `shopify_get_inventory_levels`: the locations, then their inventory levels.
pub open spec fn inventory_view(cfg: ShopifyConfig, args: Json, rs: Seq<Json>) -> StepView {
    if rs.len() == 0 {
        req_view(cfg, Method::Get, "/locations.json"@, None)
    } else {
        match api_error(rs[0]) {
            Some(e) => fail_view(e),
            None => {
                let locs = items_at(rs[0], "locations"@);
                if locs.len() == 0 {
                    ok_view("Aucun emplacement (location) configuré."@)
                } else if rs.len() == 1 {
                    req_view(
                        cfg,
                        Method::Get,
                        "/inventory_levels.json?location_ids="@ + join_spec(location_ids(locs), ","@) + "&limit="@
                            + dec_nat(count_arg(args, "limit"@, 50)),
                        None,
                    )
                } else {
                    match api_error(rs[1]) {
                        Some(e) => fail_view(e),
                        None => {
                            let levels = items_at(rs[1], "inventory_levels"@);
                            if levels.len() == 0 {
                                ok_view("Aucun niveau d'inventaire disponible."@)
                            } else {
                                ok_view(
                                    trim_end_ws_spec(
                                        dec_nat(levels.len()) + " entrée(s) d'inventaire :\n\n"@ + level_lines(levels, locs),
                                    ),
                                )
                            }
                        },
                    }
                }
            },
        }
    }
}

/// The body of `shopify_refund_order`.
pub open spec fn refund_body(note: Seq<char>, amount: Seq<char>, gateway: Seq<char>) -> Seq<char> {
    "{\"refund\":{"@ + (if note.len() > 0 {
        "\"note\":"@ + quoted(note) + ","@
    } else {
        seq![]
    }) + "\"refund_line_items\":[],\"transactions\":[{\"amount\":"@ + quoted(amount) + ",\"gateway\":"@ + quoted(gateway)
        + ",\"kind\":\"refund\"}]}}"@
}

/// `shopify_refund_order`: the order, for its gateway, then the refund.
pub open spec fn refund_view(cfg: ShopifyConfig, args: Json, rs: Seq<Json>) -> StepView {
    match args.at("order_id"@).str_of() {
        None => fail_view(required_text("order_id"@)),
        Some(id) => match args.at("amount"@).str_of() {
            None => fail_view(required_text("amount"@)),
            Some(amount) => if rs.len() == 0 {
                req_view(cfg, Method::Get, "/orders/"@ + id + ".json"@, None)
            } else {
                match api_error(rs[0]) {
                    Some(e) => fail_view(e),
                    None => if rs.len() == 1 {
                        req_view(
                            cfg,
                            Method::Post,
                            "/orders/"@ + id + "/refunds.json"@,
                            Some(
                                refund_body(
                                    str_or(args, "note"@, ""@),
                                    amount,
                                    str_or(rs[0].at("order"@), "gateway"@, "manual"@),
                                ),
                            ),
                        )
                    } else {
                        match api_error(rs[1]) {
                            Some(e) => fail_view(e),
                            None => ok_view(
                                "Remboursement créé (ID: "@ + u64_text_or(rs[1].at("refund"@), "id"@, "0"@) + ") — "@
                                    + amount + " remboursé sur la commande "@ + id + "."@,
                            ),
                        }
                    },
                }
            },
        },
    }
}

fn location_ids_exec(ls: &Vec<Json>) -> (t: String)
    ensures
        t@ == join_spec(location_ids(ls@), ","@),
{
    let mut ids: Vec<String> = Vec::new();
    let n = ls.len();
    assert(string_views(ids@) =~= Seq::<Seq<char>>::empty());
    for i in 0..n
        invariant
            n == ls@.len(),
            string_views(ids@) == location_ids(ls@.take(i as int)),
    {
        assert(ls@.take(i + 1).drop_last() == ls@.take(i as int));
        assert(ls@.take(i + 1).last() == ls@[i as int]);
        let ghost before = ids@;
        match get_u64(&ls[i], "id") {
            Some(v) => {
                ids.push(u64_to_string(v));
                assert(string_views(ids@) =~= string_views(before) + seq![dec_nat(v as nat)]);
            },
            None => {
                assert(location_ids(ls@.take(i + 1)) =~= location_ids(ls@.take(i as int)));
            },
        }
    }
    assert(ls@.take(n as int) == ls@);
    join_strings(&ids, ",")
}

fn loc_name_exec<'a>(ls: &'a Vec<Json>, id: u64) -> (t: &'a str)
    ensures
        t@ == loc_name(ls@, id),
{
    let mut i = ls.len();
    assert(ls@.take(i as int) =~= ls@);
    while i > 0
        invariant
            i <= ls@.len(),
            loc_name(ls@, id) == loc_name(ls@.take(i as int), id),
        decreases i,
    {
        assert(ls@.take(i as int).drop_last() == ls@.take(i - 1));
        assert(ls@.take(i as int).last() == ls@[i - 1]);
        let l = &ls[i - 1];
        match (get_u64(l, "id"), get_str(l, "name")) {
            (Some(x), Some(n)) => {
                if x == id {
                    return n;
                }
            },
            _ => {},
        }
        i = i - 1;
    }
    assert(ls@.take(0) =~= Seq::<Json>::empty());
    "—"
}

fn level_lines_exec(levels: &Vec<Json>, ls: &Vec<Json>) -> (t: String)
    ensures
        t@ == level_lines(levels@, ls@),
{
    let mut out = String::new();
    let n = levels.len();
    for i in 0..n
        invariant
            n == levels@.len(),
            out@ == level_lines(levels@.take(i as int), ls@),
    {
        assert(levels@.take(i + 1).drop_last() == levels@.take(i as int));
        assert(levels@.take(i + 1).last() == levels@[i as int]);
        let l = &levels[i];
        let loc = match get_u64(l, "location_id") {
            Some(v) => v,
            None => 0,
        };
        push_str(&mut out, "• Item ");
        push_str(&mut out, get_u64_text_or(l, "inventory_item_id", "0").as_str());
        push_str(&mut out, " | Location: ");
        push_str(&mut out, loc_name_exec(ls, loc));
        push_str(&mut out, " (");
        push_u64(&mut out, loc);
        push_str(&mut out, ") | Disponible: ");
        push_str(&mut out, get_i64_text_or_zero(l, "available").as_str());
        push_str(&mut out, "\n");
    }
    assert(levels@.take(n as int) == levels@);
    out
}

fn inventory(cfg: &ShopifyConfig, args: &Json, rs: &Vec<Json>) -> (s: Step)
    ensures
        s@ == inventory_view(*cfg, *args, rs@),
{
    if rs.len() == 0 {
        return req_step(cfg, Method::Get, "/locations.json", None);
    }
    match api_error_exec(&rs[0]) {
        Some(e) => return Step::Done(Err(e)),
        None => {},
    }
    let none: Vec<Json> = Vec::new();
    let locs = match get_array(&rs[0], "locations") {
        Some(a) => a,
        None => &none,
    };
    assert(locs@ =~= items_at(rs@[0], "locations"@));
    if locs.len() == 0 {
        return Step::Done(Ok(owned("Aucun emplacement (location) configuré.")));
    }
    if rs.len() == 1 {
        let mut path = concat3("/inventory_levels.json?location_ids=", location_ids_exec(locs).as_str(), "&limit=");
        push_u64(&mut path, get_count(args, "limit", 50));
        return req_step(cfg, Method::Get, path.as_str(), None);
    }
    match api_error_exec(&rs[1]) {
        Some(e) => return Step::Done(Err(e)),
        None => {},
    }
    let levels = match get_array(&rs[1], "inventory_levels") {
        Some(a) => a,
        None => &none,
    };
    assert(levels@ =~= items_at(rs@[1], "inventory_levels"@));
    if levels.len() == 0 {
        return Step::Done(Ok(owned("Aucun niveau d'inventaire disponible.")));
    }
    let mut out = String::new();
    push_u64(&mut out, levels.len() as u64);
    push_str(&mut out, " entrée(s) d'inventaire :\n\n");
    push_str(&mut out, level_lines_exec(levels, locs).as_str());
    Step::Done(Ok(trim_end_ws(out.as_str())))
}

fn refund(cfg: &ShopifyConfig, args: &Json, rs: &Vec<Json>) -> (s: Step)
    ensures
        s@ == refund_view(*cfg, *args, rs@),
{
    let id = match get_id(args, "order_id") {
        None => return required("order_id"),
        Some(x) => x,
    };
    let amount = match get_id(args, "amount") {
        None => return required("amount"),
        Some(x) => x,
    };
    if rs.len() == 0 {
        return req_step(cfg, Method::Get, concat3("/orders/", id, ".json").as_str(), None);
    }
    match api_error_exec(&rs[0]) {
        Some(e) => return Step::Done(Err(e)),
        None => {},
    }
    if rs.len() == 1 {
        let null = Json::Null;
        let note = get_str_or(args, "note", "");
        let gateway = get_str_or(member(&rs[0], "order", &null), "gateway", "manual");
        let mut body = owned("{\"refund\":{");
        if !note.is_empty() {
            push_str(&mut body, "\"note\":");
            push_quoted(&mut body, note);
            push_str(&mut body, ",");
        }
        push_str(&mut body, "\"refund_line_items\":[],\"transactions\":[{\"amount\":");
        push_quoted(&mut body, amount);
        push_str(&mut body, ",\"gateway\":");
        push_quoted(&mut body, gateway);
        push_str(&mut body, ",\"kind\":\"refund\"}]}}");
        assert(body@ =~= refund_body(note@, amount@, gateway@));
        return req_step(cfg, Method::Post, concat3("/orders/", id, "/refunds.json").as_str(), Some(body));
    }
    let null = Json::Null;
    let mut out = owned("Remboursement créé (ID: ");
    push_str(&mut out, get_u64_text_or(member(&rs[1], "refund", &null), "id", "0").as_str());
    push_str(&mut out, ") — ");
    push_str(&mut out, amount);
    push_str(&mut out, " remboursé sur la commande ");
    push_str(&mut out, id);
    push_str(&mut out, ".");
    outcome(&rs[1], out)
}


pub open spec fn is_order_tool(name: Seq<char>) -> bool {
    name == "shopify_get_shop"@ || name == "shopify_list_orders"@ || name == "shopify_get_order"@ || name
        == "shopify_get_product"@ || name == "shopify_get_customer"@ || name == "shopify_list_product_variants"@
        || name == "shopify_list_transactions"@ || name == "shopify_list_draft_orders"@
}

pub open spec fn is_catalog_tool(name: Seq<char>) -> bool {
    name == "shopify_list_customers"@ || name == "shopify_search_customers"@ || name == "shopify_list_collections"@
        || name == "shopify_list_webhooks"@ || name == "shopify_list_price_rules"@ || name
        == "shopify_list_locations"@ || name == "shopify_list_smart_collections"@
}

pub open spec fn is_write_tool(name: Seq<char>) -> bool {
    name == "shopify_cancel_order"@ || name == "shopify_fulfill_order"@ || name == "shopify_create_product"@
        || name == "shopify_update_product"@ || name == "shopify_create_customer"@ || name
        == "shopify_update_customer"@ || name == "shopify_create_webhook"@ || name == "shopify_update_inventory"@
        || name == "shopify_update_product_variant"@ || name == "shopify_complete_draft_order"@ || name
        == "shopify_create_collection"@
}

/// The tools that `handle` does not run: the product listing renders price ranges from
/// decimal prices, and the draft order, whose `line_items` argument is JSON text, runs through
/// [`create_draft_order`] once that text is parsed.
pub open spec fn done_elsewhere(name: Seq<char>) -> bool {
    name == "shopify_list_products"@ || name == "shopify_create_draft_order"@
}

/// The outcome of a product deletion.
pub open spec fn deleted_text(id: Seq<char>) -> Seq<char> {
    "Produit "@ + id + " supprimé."@
}

/// `shopify_delete_product`: the deletion, read for its status and text. A successful reply
/// that is blank, `{}` or JSON deletes; other text fails with the parser's message; a failed
/// status fails with the status and the text.
pub open spec fn delete_product_view(cfg: ShopifyConfig, args: Json, rs: Seq<Json>) -> StepView {
    match args.at("product_id"@).str_of() {
        None => fail_view(required_text("product_id"@)),
        Some(id) => if rs.len() == 0 {
            status_text_view(Method::Delete, api_url(cfg, "/products/"@ + id + ".json"@))
        } else {
            let r = rs[0];
            let text = str_or(r, "text"@, ""@);
            if flag_or(r, "success"@, false) {
                let t = trim_ws_spec(text);
                if t.len() == 0 || t == "{}"@ {
                    ok_view(deleted_text(id))
                } else {
                    match r.at("invalid_json"@).str_of() {
                        Some(e) => fail_view(e),
                        None => ok_view(deleted_text(id)),
                    }
                }
            } else {
                fail_view("Shopify DELETE error "@ + str_or(r, "status"@, ""@) + ": "@ + text)
            }
        },
    }
}

fn delete_product(cfg: &ShopifyConfig, args: &Json, rs: &Vec<Json>) -> (s: Step)
    ensures
        s@ == delete_product_view(*cfg, *args, rs@),
{
    let id = match get_str(args, "product_id") {
        None => return required("product_id"),
        Some(x) => x,
    };
    let mut path = owned("/products/");
    push_str(&mut path, id);
    push_str(&mut path, ".json");
    if rs.len() == 0 {
        return send_status_text(Method::Delete, cfg.api(path.as_str()));
    }
    let r = &rs[0];
    let text = get_str_or(r, "text", "");
    let mut ok = owned("Produit ");
    push_str(&mut ok, id);
    push_str(&mut ok, " supprimé.");
    if get_flag_or(r, "success", false) {
        let t = trim_ws(text);
        if t.as_str().is_empty() || str_eq(t.as_str(), "{}") {
            Step::Done(Ok(ok))
        } else {
            match get_str(r, "invalid_json") {
                Some(e) => Step::Done(Err(owned(e))),
                None => Step::Done(Ok(ok)),
            }
        }
    } else {
        let mut e = owned("Shopify DELETE error ");
        push_str(&mut e, get_str_or(r, "status", ""));
        push_str(&mut e, ": ");
        push_str(&mut e, text);
        Step::Done(Err(e))
    }
}

/// The members of a draft order, by name: the customer, the line items, the note.
pub open spec fn draft_members(args: Json, line_items: Json) -> Seq<Seq<char>> {
    let customer = match args.at("customer_id"@).str_of() {
        Some(c) => Some("{\"id\":"@ + quoted(c) + "}"@),
        None => None,
    };
    with_member(
        with_member(with_member(seq![], "customer"@, customer), "line_items"@, Some(json_text(line_items))),
        "note"@,
        str_value(args, "note"@),
    )
}

/// The outcome of a draft order's creation.
pub open spec fn draft_created_text(r: Json) -> Seq<char> {
    let d = r.at("draft_order"@);
    "Commande brouillon créée — "@ + str_or(d, "name"@, "—"@) + " (ID: "@ + match d.at("id"@).u64_of() {
        Some(n) => dec_nat(n as nat),
        None => "0"@,
    } + ")."@
}

/// `shopify_create_draft_order`, given its `line_items` argument read as JSON: the value, or
/// the JSON parser's message.
pub open spec fn draft_order_view(
    cfg: ShopifyConfig,
    args: Json,
    line_items: Result<Json, Seq<char>>,
    rs: Seq<Json>,
) -> StepView {
    match args.at("line_items"@).str_of() {
        None => fail_view(required_text("line_items"@)),
        Some(_) => match line_items {
            Err(e) => fail_view("Format JSON invalide pour line_items : "@ + e),
            Ok(li) => one_call(
                req_view(cfg, Method::Post, "/draft_orders.json"@, Some(wrapped("draft_order"@, draft_members(args, li)))),
                rs,
                |r: Json| draft_created_text(r),
            ),
        },
    }
}

/// Runs one step of `shopify_create_draft_order` called with `args`, its `line_items` text
/// read as JSON into `line_items` (the parsed value, or the parser's message).
pub fn create_draft_order(
    cfg: &ShopifyConfig,
    args: &Json,
    line_items: &Result<Json, String>,
    responses: &Vec<Json>,
) -> (s: Step)
    ensures
        s@ == draft_order_view(
            *cfg,
            *args,
            match line_items {
                Ok(j) => Ok(*j),
                Err(e) => Err(e@),
            },
            responses@,
        ),
{
    if get_str(args, "line_items").is_none() {
        return required("line_items");
    }
    let li = match line_items {
        Err(e) => {
            let mut m = owned("Format JSON invalide pour line_items : ");
            push_str(&mut m, e.as_str());
            return Step::Done(Err(m));
        },
        Ok(j) => j,
    };
    if responses.len() == 0 {
        let mut members: Vec<String> = Vec::new();
        assert(string_views(members@) =~= seq![]);
        let customer = match get_str(args, "customer_id") {
            Some(c) => {
                let mut v = owned("{\"id\":");
                push_quoted(&mut v, c);
                push_str(&mut v, "}");
                assert(v@ =~= "{\"id\":"@ + quoted(c@) + "}"@);
                Some(v)
            },
            None => None,
        };
        push_member(&mut members, "customer", customer);
        push_member(&mut members, "line_items", Some(crate::json::to_json_string(li)));
        push_member(&mut members, "note", str_value_exec(args, "note"));
        return req_step(cfg, Method::Post, "/draft_orders.json", Some(wrapped_exec("draft_order", &members)));
    }
    let r = &responses[0];
    let null = Json::Null;
    let d = member(r, "draft_order", &null);
    let mut out = owned("Commande brouillon créée — ");
    push_str(&mut out, get_str_or(d, "name", "—"));
    push_str(&mut out, " (ID: ");
    match get_u64(d, "id") {
        Some(n) => push_u64(&mut out, n),
        None => push_str(&mut out, "0"),
    }
    push_str(&mut out, ").");
    outcome(r, out)
}

/// What a call of Shopify tool `name` with `args` does next, given the responses so far.
pub open spec fn handle_view(cfg: ShopifyConfig, name: Seq<char>, args: Json, rs: Seq<Json>) -> StepView {
    if is_order_tool(name) {
        order_view(cfg, name, args, rs)
    } else if is_catalog_tool(name) {
        catalog_view(cfg, name, args, rs)
    } else if is_write_tool(name) {
        write_view(cfg, name, args, rs)
    } else if name == "shopify_get_inventory_levels"@ {
        inventory_view(cfg, args, rs)
    } else if name == "shopify_refund_order"@ {
        refund_view(cfg, args, rs)
    } else if name == "shopify_delete_product"@ {
        delete_product_view(cfg, args, rs)
    } else {
        fail_view("Tool Shopify inconnu : "@ + name)
    }
}

/// Runs one step of the Shopify tool `name` called with `args`: `responses` holds the parsed
/// responses to the requests made so far. The product listing and the draft order creation
/// are not handled here (see [`done_elsewhere`]).
pub fn handle(cfg: &ShopifyConfig, name: &str, args: &Json, responses: &Vec<Json>) -> (s: Step)
    requires
        !done_elsewhere(name@),
    ensures
        s@ == handle_view(*cfg, name@, *args, responses@),
{
    let rs = responses;
    if str_eq(name, "shopify_get_shop") || str_eq(name, "shopify_list_orders") || str_eq(name, "shopify_get_order")
        || str_eq(name, "shopify_get_product") || str_eq(name, "shopify_get_customer") || str_eq(
        name,
        "shopify_list_product_variants",
    ) || str_eq(name, "shopify_list_transactions") || str_eq(name, "shopify_list_draft_orders") {
        order_tools(cfg, name, args, rs)
    } else if str_eq(name, "shopify_list_customers") || str_eq(name, "shopify_search_customers") || str_eq(
        name,
        "shopify_list_collections",
    ) || str_eq(name, "shopify_list_webhooks") || str_eq(name, "shopify_list_price_rules") || str_eq(
        name,
        "shopify_list_locations",
    ) || str_eq(name, "shopify_list_smart_collections") {
        catalog_tools(cfg, name, args, rs)
    } else if str_eq(name, "shopify_cancel_order") || str_eq(name, "shopify_fulfill_order") || str_eq(
        name,
        "shopify_create_product",
    ) || str_eq(name, "shopify_update_product") || str_eq(name, "shopify_create_customer") || str_eq(
        name,
        "shopify_update_customer",
    ) || str_eq(name, "shopify_create_webhook") || str_eq(name, "shopify_update_inventory") || str_eq(
        name,
        "shopify_update_product_variant",
    ) || str_eq(name, "shopify_complete_draft_order") || str_eq(name, "shopify_create_collection") {
        write_tools(cfg, name, args, rs)
    } else if str_eq(name, "shopify_get_inventory_levels") {
        inventory(cfg, args, rs)
    } else if str_eq(name, "shopify_refund_order") {
        refund(cfg, args, rs)
    } else if str_eq(name, "shopify_delete_product") {
        delete_product(cfg, args, rs)
    } else {
        let mut e = owned("Tool Shopify inconnu : ");
        push_str(&mut e, name);
        Step::Done(Err(e))
    }
}

/// What every step of a tool keeps: one response ends the call but for the inventory levels
/// and the refund, which two end; every request goes to the shop's Admin API with the token.
pub open spec fn step_ok(cfg: ShopifyConfig, name: Seq<char>, v: StepView, rs: Seq<Json>) -> bool {
    &&& rs.len() >= 2 ==> v is Done
    &&& rs.len() >= 1 && name != "shopify_get_inventory_levels"@ && name != "shopify_refund_order"@ ==> v is Done
    &&& v matches StepView::Send(req) ==> req.authenticated && exists|p: Seq<char>| req.url == api_url(cfg, p)
}

proof fn lemma_order_steps(cfg: ShopifyConfig, name: Seq<char>, args: Json, rs: Seq<Json>)
    ensures
        step_ok(cfg, name, order_view(cfg, name, args, rs), rs),
{
}

proof fn lemma_catalog_steps(cfg: ShopifyConfig, name: Seq<char>, args: Json, rs: Seq<Json>)
    ensures
        step_ok(cfg, name, catalog_view(cfg, name, args, rs), rs),
{
}

proof fn lemma_write_steps(cfg: ShopifyConfig, name: Seq<char>, args: Json, rs: Seq<Json>)
    ensures
        step_ok(cfg, name, write_view(cfg, name, args, rs), rs),
{
}

proof fn lemma_two_step(cfg: ShopifyConfig, args: Json, rs: Seq<Json>)
    ensures
        step_ok(cfg, "shopify_get_inventory_levels"@, inventory_view(cfg, args, rs), rs),
        step_ok(cfg, "shopify_refund_order"@, refund_view(cfg, args, rs), rs),
{
}

/// Every Shopify tool ends once its responses have come, and sends its requests to the
/// shop's Admin API with the token.
pub proof fn lemma_handle_ends(cfg: ShopifyConfig, name: Seq<char>, args: Json, rs: Seq<Json>)
    ensures
        step_ok(cfg, name, handle_view(cfg, name, args, rs), rs),
{
    lemma_order_steps(cfg, name, args, rs);
    lemma_catalog_steps(cfg, name, args, rs);
    lemma_write_steps(cfg, name, args, rs);
    lemma_two_step(cfg, args, rs);
}


/// A response that reports `errors` ends a one-request tool with them, whatever it holds
/// besides.
pub proof fn lemma_errors_reported(req: StepView, rs: Seq<Json>, text: spec_fn(Json) -> Seq<char>)
    requires
        rs.len() >= 1,
        rs[0].spec_get("errors"@) is Some,
    ensures
        one_call(req, rs, text) == fail_view("Shopify API error: "@ + json_text(rs[0].spec_get("errors"@)->0)),
{
}

/// The Shopify tools offered to MCP clients: name, description and input schema of each, as a
/// The catalog's tools, in its order: for each, the JSON text of its members before its name
/// (its description and input schema).
pub const TOOL_HEADS: [&'static str; 31] = [
    r#"{"description":"SHOPIFY 🛍️ — Récupère les informations de la boutique : nom, email, domaine, plan Shopify, devise principale, fuseau horaire et adresse.","inputSchema":{"properties":{},"type":"object"},"name":"#,
    r#"{"description":"SHOPIFY 🛍️ — Liste les commandes de la boutique avec id, numéro, email client, statut paiement/livraison, total et date. Utiliser shopify_get_order pour le détail complet.","inputSchema":{"properties":{"limit":{"default":50,"description":"Nombre de commandes à retourner (défaut: 50, max: 250)","maximum":250,"minimum":1,"type":"integer"},"status":{"default":"any","description":"Filtrer par statut : open (en cours), closed (terminées), cancelled (annulées), any (toutes). Défaut : any.","enum":["open","closed","cancelled","any"],"type":"string"}},"type":"object"},"name":"#,
    r#"{"description":"SHOPIFY 🛍️ — Récupère le détail complet d'une commande : articles, adresses livraison/facturation, paiement, remises, notes et historique de livraison.","inputSchema":{"properties":{"order_id":{"description":"ID numérique de la commande","type":"string"}},"required":["order_id"],"type":"object"},"name":"#,
    r#"{"description":"SHOPIFY 🛍️ — Annule une commande avec un motif optionnel. La commande doit être dans un état annulable (non déjà expédiée ou remboursée).","inputSchema":{"properties":{"order_id":{"description":"ID numérique de la commande à annuler","type":"string"},"reason":{"description":"Motif d'annulation (optionnel) : customer, fraud, inventory, declined, other","enum":["customer","fraud","inventory","declined","other"],"type":"string"}},"required":["order_id"],"type":"object"},"name":"#,
    r#"{"description":"SHOPIFY 🛍️ — Marque une commande comme expédiée/livrée en créant un fulfillment. Optionnellement ajouter un numéro de suivi et le transporteur.","inputSchema":{"properties":{"notify_customer":{"default":true,"description":"Envoyer un email de notification au client (défaut: true)","type":"boolean"},"order_id":{"description":"ID numérique de la commande à fulfiller","type":"string"},"tracking_company":{"description":"Transporteur (ex: UPS, DHL, FedEx) — optionnel","type":"string"},"tracking_number":{"description":"Numéro de suivi (optionnel)","type":"string"}},"required":["order_id"],"type":"object"},"name":"#,
    r#"{"description":"SHOPIFY 🛍️ — Liste les produits de la boutique avec id, titre, statut, vendeur, nombre de variantes et gamme de prix. Utiliser shopify_get_product pour le détail.","inputSchema":{"properties":{"limit":{"default":50,"description":"Nombre de produits à retourner (défaut: 50)","maximum":250,"minimum":1,"type":"integer"},"status":{"description":"Filtrer par statut (optionnel) : active, archived, draft","enum":["active","archived","draft"],"type":"string"}},"type":"object"},"name":"#,
    r#"{"description":"SHOPIFY 🛍️ — Récupère le détail complet d'un produit : variantes, images, tags, options, prix, SKUs et inventaire.","inputSchema":{"properties":{"product_id":{"description":"ID numérique du produit","type":"string"}},"required":["product_id"],"type":"object"},"name":"#,
    r#"{"description":"SHOPIFY 🛍️ — Crée un nouveau produit dans la boutique avec titre, description HTML, vendeur, type et statut.","inputSchema":{"properties":{"body_html":{"description":"Description HTML du produit (optionnel)","type":"string"},"product_type":{"description":"Type de produit (optionnel)","type":"string"},"status":{"default":"draft","description":"Statut initial (défaut: draft)","enum":["active","draft","archived"],"type":"string"},"tags":{"description":"Tags séparés par des virgules (optionnel)","type":"string"},"title":{"description":"Titre du produit","type":"string"},"vendor":{"description":"Nom du vendeur/marque (optionnel)","type":"string"}},"required":["title"],"type":"object"},"name":"#,
    r#"{"description":"SHOPIFY 🛍️ — Met à jour un produit existant (titre, description, vendeur, type, statut, tags). Seuls les champs fournis sont modifiés.","inputSchema":{"properties":{"body_html":{"description":"Nouvelle description HTML (optionnel)","type":"string"},"product_id":{"description":"ID numérique du produit à modifier","type":"string"},"product_type":{"description":"Nouveau type (optionnel)","type":"string"},"status":{"description":"Nouveau statut (optionnel)","enum":["active","draft","archived"],"type":"string"},"tags":{"description":"Nouveaux tags (optionnel)","type":"string"},"title":{"description":"Nouveau titre (optionnel)","type":"string"},"vendor":{"description":"Nouveau vendeur (optionnel)","type":"string"}},"required":["product_id"],"type":"object"},"name":"#,
    r#"{"description":"SHOPIFY 🛍️ — Supprime définitivement un produit et toutes ses variantes. Action irréversible.","inputSchema":{"properties":{"product_id":{"description":"ID numérique du produit à supprimer","type":"string"}},"required":["product_id"],"type":"object"},"name":"#,
    r#"{"description":"SHOPIFY 🛍️ — Liste les clients de la boutique avec id, nom, email, nombre de commandes et total dépensé. Utiliser shopify_search_customers pour chercher par nom/email.","inputSchema":{"properties":{"limit":{"default":50,"description":"Nombre de clients à retourner (défaut: 50)","maximum":250,"minimum":1,"type":"integer"}},"type":"object"},"name":"#,
    r#"{"description":"SHOPIFY 🛍️ — Récupère le profil complet d'un client : coordonnées, adresses, historique commandes, tags et notes.","inputSchema":{"properties":{"customer_id":{"description":"ID numérique du client","type":"string"}},"required":["customer_id"],"type":"object"},"name":"#,
    r#"{"description":"SHOPIFY 🛍️ — Recherche des clients par nom, email ou téléphone. Retourne id, nom, email, commandes et total dépensé.","inputSchema":{"properties":{"limit":{"default":50,"description":"Nombre de résultats (défaut: 50)","maximum":250,"minimum":1,"type":"integer"},"query":{"description":"Terme de recherche (nom, email, téléphone)","type":"string"}},"required":["query"],"type":"object"},"name":"#,
    r#"{"description":"SHOPIFY 🛍️ — Crée un nouveau client dans la boutique avec prénom, nom, email et téléphone.","inputSchema":{"properties":{"email":{"description":"Adresse email","type":"string"},"first_name":{"description":"Prénom du client","type":"string"},"last_name":{"description":"Nom du client","type":"string"},"note":{"description":"Note interne (optionnel)","type":"string"},"phone":{"description":"Numéro de téléphone (optionnel, format E.164 ex: +33612345678)","type":"string"},"tags":{"description":"Tags séparés par virgule (optionnel)","type":"string"}},"required":["email"],"type":"object"},"name":"#,
    r#"{"description":"SHOPIFY 🛍️ — Met à jour un client existant (prénom, nom, email, téléphone, tags, note). Seuls les champs fournis sont modifiés.","inputSchema":{"properties":{"customer_id":{"description":"ID numérique du client à modifier","type":"string"},"email":{"description":"Nouvel email (optionnel)","type":"string"},"first_name":{"description":"Nouveau prénom (optionnel)","type":"string"},"last_name":{"description":"Nouveau nom (optionnel)","type":"string"},"note":{"description":"Nouvelle note (optionnel)","type":"string"},"phone":{"description":"Nouveau téléphone (optionnel)","type":"string"},"tags":{"description":"Nouveaux tags (optionnel)","type":"string"}},"required":["customer_id"],"type":"object"},"name":"#,
    r#"{"description":"SHOPIFY 🛍️ — Liste les collections personnalisées (custom collections) de la boutique avec id, titre, handle et nombre de produits.","inputSchema":{"properties":{"limit":{"default":50,"description":"Nombre de collections (défaut: 50)","maximum":250,"minimum":1,"type":"integer"}},"type":"object"},"name":"#,
    r#"{"description":"SHOPIFY 🛍️ — Récupère les niveaux d'inventaire pour tous les emplacements (locations) de la boutique. Retourne les quantités disponibles par location et variant.","inputSchema":{"properties":{"limit":{"default":50,"description":"Nombre d'entrées d'inventaire (défaut: 50)","maximum":250,"minimum":1,"type":"integer"}},"type":"object"},"name":"#,
    r#"{"description":"SHOPIFY 🛍️ — Liste tous les webhooks configurés sur la boutique : topic, URL de destination, format et date de création.","inputSchema":{"properties":{},"type":"object"},"name":"#,
    r#"{"description":"SHOPIFY 🛍️ — Crée un nouveau webhook pour recevoir des notifications d'événements Shopify (ex: orders/create, products/update) vers une URL externe.","inputSchema":{"properties":{"address":{"description":"URL HTTPS de destination qui recevra les notifications","type":"string"},"format":{"default":"json","description":"Format des données envoyées (défaut: json)","enum":["json","xml"],"type":"string"},"topic":{"description":"Événement à écouter (ex: orders/create, orders/updated, products/create, customers/create, app/uninstalled)","type":"string"}},"required":["topic","address"],"type":"object"},"name":"#,
    r#"{"description":"SHOPIFY 🛍️ — Liste les règles de prix (remises) configurées : titre, type de remise (pourcentage/montant fixe), valeur, conditions d'utilisation et dates de validité.","inputSchema":{"properties":{"limit":{"default":50,"description":"Nombre de règles de prix (défaut: 50)","maximum":250,"minimum":1,"type":"integer"}},"type":"object"},"name":"#,
    r#"{"description":"SHOPIFY 🛍️ — Liste les emplacements de fulfillment (locations) de la boutique : id, nom et adresse. Nécessaire pour la gestion d'inventaire (shopify_update_inventory).","inputSchema":{"properties":{},"type":"object"},"name":"#,
    r#"{"description":"SHOPIFY 🛍️ — Définit la quantité disponible d'un article d'inventaire dans un emplacement donné. Utiliser shopify_list_locations pour obtenir location_id et shopify_get_product pour inventory_item_id.","inputSchema":{"properties":{"available":{"description":"Quantité disponible à définir","type":"integer"},"inventory_item_id":{"description":"ID de l'article d'inventaire (inventory_item_id de la variante)","type":"integer"},"location_id":{"description":"ID numérique de l'emplacement (location)","type":"integer"}},"required":["location_id","inventory_item_id","available"],"type":"object"},"name":"#,
    r#"{"description":"SHOPIFY 🛍️ — Liste toutes les variantes d'un produit : id, titre, prix, SKU et quantité en stock.","inputSchema":{"properties":{"product_id":{"description":"ID numérique du produit","type":"string"}},"required":["product_id"],"type":"object"},"name":"#,
    r#"{"description":"SHOPIFY 🛍️ — Met à jour une variante de produit (prix, SKU, prix barré). Seuls les champs fournis sont modifiés.","inputSchema":{"properties":{"compare_at_price":{"description":"Prix barré (prix de référence) — optionnel","type":"string"},"price":{"description":"Nouveau prix (ex: \"29.99\") — optionnel","type":"string"},"sku":{"description":"Nouveau SKU — optionnel","type":"string"},"variant_id":{"description":"ID numérique de la variante","type":"string"}},"required":["variant_id"],"type":"object"},"name":"#,
    r#"{"description":"SHOPIFY 🛍️ — Crée un remboursement sur une commande avec le montant et une note optionnelle. Remboursement via la passerelle de paiement originale.","inputSchema":{"properties":{"amount":{"description":"Montant à rembourser (ex: \"15.00\")","type":"string"},"note":{"description":"Note interne expliquant le remboursement (optionnel)","type":"string"},"order_id":{"description":"ID numérique de la commande à rembourser","type":"string"}},"required":["order_id","amount"],"type":"object"},"name":"#,
    r#"{"description":"SHOPIFY 🛍️ — Liste les commandes brouillon (draft orders) : id, nom, statut, total et client. Utile pour les commandes créées manuellement ou en attente de paiement.","inputSchema":{"properties":{"status":{"default":"open","description":"Filtrer par statut : open (ouvertes), invoice_sent (facture envoyée), completed (complétées). Défaut : open.","enum":["open","invoice_sent","completed"],"type":"string"}},"type":"object"},"name":"#,
    r#"{"description":"SHOPIFY 🛍️ — Crée une commande brouillon avec des articles (variant_id + quantité), un client optionnel et une note.","inputSchema":{"properties":{"customer_id":{"description":"ID du client à associer (optionnel)","type":"string"},"line_items":{"description":"Tableau JSON d'articles, ex: [{\"variant_id\": 123, \"quantity\": 2}]","type":"string"},"note":{"description":"Note interne (optionnel)","type":"string"}},"required":["line_items"],"type":"object"},"name":"#,
    r#"{"description":"SHOPIFY 🛍️ — Marque une commande brouillon comme complète/payée, la convertissant en commande réelle.","inputSchema":{"properties":{"id":{"description":"ID numérique de la commande brouillon","type":"string"}},"required":["id"],"type":"object"},"name":"#,
    r#"{"description":"SHOPIFY 🛍️ — Liste les transactions de paiement d'une commande : id, type (authorization/capture/refund/sale), statut, montant et passerelle de paiement.","inputSchema":{"properties":{"order_id":{"description":"ID numérique de la commande","type":"string"}},"required":["order_id"],"type":"object"},"name":"#,
    r#"{"description":"SHOPIFY 🛍️ — Crée une collection personnalisée (custom collection) avec un titre et une description HTML optionnelle.","inputSchema":{"properties":{"body_html":{"description":"Description HTML de la collection (optionnel)","type":"string"},"title":{"description":"Titre de la collection","type":"string"}},"required":["title"],"type":"object"},"name":"#,
    r#"{"description":"SHOPIFY 🛍️ — Liste les collections automatiques (smart collections) qui regroupent les produits selon des règles définies : id, titre, handle, règles et nombre de produits.","inputSchema":{"properties":{"limit":{"default":50,"description":"Nombre de collections (défaut: 50)","maximum":250,"minimum":1,"type":"integer"}},"type":"object"},"name":"#
];

/// The names of the catalog's tools, in its order (those of [`catalog_names`]).
pub const TOOL_NAMES: [&'static str; 31] = [
    "shopify_get_shop",
    "shopify_list_orders",
    "shopify_get_order",
    "shopify_cancel_order",
    "shopify_fulfill_order",
    "shopify_list_products",
    "shopify_get_product",
    "shopify_create_product",
    "shopify_update_product",
    "shopify_delete_product",
    "shopify_list_customers",
    "shopify_get_customer",
    "shopify_search_customers",
    "shopify_create_customer",
    "shopify_update_customer",
    "shopify_list_collections",
    "shopify_get_inventory_levels",
    "shopify_list_webhooks",
    "shopify_create_webhook",
    "shopify_list_price_rules",
    "shopify_list_locations",
    "shopify_update_inventory",
    "shopify_list_product_variants",
    "shopify_update_product_variant",
    "shopify_refund_order",
    "shopify_list_draft_orders",
    "shopify_create_draft_order",
    "shopify_complete_draft_order",
    "shopify_list_transactions",
    "shopify_create_collection",
    "shopify_list_smart_collections"
];

/// The Shopify tools offered to MCP clients, as a JSON array: one entry per tool of
/// [`catalog_names`], in order, each with its description and input schema (from
/// [`TOOL_HEADS`]) and its name.
pub fn tools() -> (r: String)
    ensures
        r@ == catalog_text(texts(TOOL_HEADS@), catalog_names()),
{
    assert(texts(TOOL_NAMES@) =~= catalog_names());
    build_catalog(&TOOL_HEADS, &TOOL_NAMES)
}

/// The names of the tools in the catalog, in its order.
pub open spec fn catalog_names() -> Seq<Seq<char>> {
    seq![
        "shopify_get_shop"@,
        "shopify_list_orders"@,
        "shopify_get_order"@,
        "shopify_cancel_order"@,
        "shopify_fulfill_order"@,
        "shopify_list_products"@,
        "shopify_get_product"@,
        "shopify_create_product"@,
        "shopify_update_product"@,
        "shopify_delete_product"@,
        "shopify_list_customers"@,
        "shopify_get_customer"@,
        "shopify_search_customers"@,
        "shopify_create_customer"@,
        "shopify_update_customer"@,
        "shopify_list_collections"@,
        "shopify_get_inventory_levels"@,
        "shopify_list_webhooks"@,
        "shopify_create_webhook"@,
        "shopify_list_price_rules"@,
        "shopify_list_locations"@,
        "shopify_update_inventory"@,
        "shopify_list_product_variants"@,
        "shopify_update_product_variant"@,
        "shopify_refund_order"@,
        "shopify_list_draft_orders"@,
        "shopify_create_draft_order"@,
        "shopify_complete_draft_order"@,
        "shopify_list_transactions"@,
        "shopify_create_collection"@,
        "shopify_list_smart_collections"@
    ]
}

/// The names of the tools in the catalog, in its order (see [`catalog_names`]).
pub fn tool_names() -> (r: Vec<&'static str>)
    ensures
        r@.map_values(|s: &'static str| s@) == catalog_names(),
{
    let r = vec![
        "shopify_get_shop",
        "shopify_list_orders",
        "shopify_get_order",
        "shopify_cancel_order",
        "shopify_fulfill_order",
        "shopify_list_products",
        "shopify_get_product",
        "shopify_create_product",
        "shopify_update_product",
        "shopify_delete_product",
        "shopify_list_customers",
        "shopify_get_customer",
        "shopify_search_customers",
        "shopify_create_customer",
        "shopify_update_customer",
        "shopify_list_collections",
        "shopify_get_inventory_levels",
        "shopify_list_webhooks",
        "shopify_create_webhook",
        "shopify_list_price_rules",
        "shopify_list_locations",
        "shopify_update_inventory",
        "shopify_list_product_variants",
        "shopify_update_product_variant",
        "shopify_refund_order",
        "shopify_list_draft_orders",
        "shopify_create_draft_order",
        "shopify_complete_draft_order",
        "shopify_list_transactions",
        "shopify_create_collection",
        "shopify_list_smart_collections"
    ];
    assert(r@.map_values(|s: &'static str| s@) =~= catalog_names());
    r
}

/// A tool name that [`tools`] does not serve (one outside [`catalog_names`]) gets the
/// unknown-tool error, without a request.
pub proof fn lemma_unknown_tool(cfg: ShopifyConfig, name: Seq<char>, args: Json, rs: Seq<Json>)
    requires
        !catalog_names().contains(name),
    ensures
        handle_view(cfg, name, args, rs) == fail_view("Tool Shopify inconnu : "@ + name),
{
    assert(catalog_names()[0] == "shopify_get_shop"@);
    assert(catalog_names()[1] == "shopify_list_orders"@);
    assert(catalog_names()[2] == "shopify_get_order"@);
    assert(catalog_names()[3] == "shopify_cancel_order"@);
    assert(catalog_names()[4] == "shopify_fulfill_order"@);
    assert(catalog_names()[5] == "shopify_list_products"@);
    assert(catalog_names()[6] == "shopify_get_product"@);
    assert(catalog_names()[7] == "shopify_create_product"@);
    assert(catalog_names()[8] == "shopify_update_product"@);
    assert(catalog_names()[9] == "shopify_delete_product"@);
    assert(catalog_names()[10] == "shopify_list_customers"@);
    assert(catalog_names()[11] == "shopify_get_customer"@);
    assert(catalog_names()[12] == "shopify_search_customers"@);
    assert(catalog_names()[13] == "shopify_create_customer"@);
    assert(catalog_names()[14] == "shopify_update_customer"@);
    assert(catalog_names()[15] == "shopify_list_collections"@);
    assert(catalog_names()[16] == "shopify_get_inventory_levels"@);
    assert(catalog_names()[17] == "shopify_list_webhooks"@);
    assert(catalog_names()[18] == "shopify_create_webhook"@);
    assert(catalog_names()[19] == "shopify_list_price_rules"@);
    assert(catalog_names()[20] == "shopify_list_locations"@);
    assert(catalog_names()[21] == "shopify_update_inventory"@);
    assert(catalog_names()[22] == "shopify_list_product_variants"@);
    assert(catalog_names()[23] == "shopify_update_product_variant"@);
    assert(catalog_names()[24] == "shopify_refund_order"@);
    assert(catalog_names()[25] == "shopify_list_draft_orders"@);
    assert(catalog_names()[26] == "shopify_create_draft_order"@);
    assert(catalog_names()[27] == "shopify_complete_draft_order"@);
    assert(catalog_names()[28] == "shopify_list_transactions"@);
    assert(catalog_names()[29] == "shopify_create_collection"@);
    assert(catalog_names()[30] == "shopify_list_smart_collections"@);
}

proof fn lemma_shopify_delete_product_handled(cfg: ShopifyConfig, args: Json)
    ensures
        handle_view(cfg, "shopify_delete_product"@, args, seq![]) != fail_view("Tool Shopify inconnu : "@ + "shopify_delete_product"@),
{
    reveal_strlit("Paramètre '");
    reveal_strlit("Shopify API error: ");
    reveal_strlit("Tool Shopify inconnu : ");
    assert(("Tool Shopify inconnu : "@ + "shopify_delete_product"@)[0] == 'T');
}

proof fn lemma_shopify_get_shop_handled(cfg: ShopifyConfig, args: Json)
    ensures
        handle_view(cfg, "shopify_get_shop"@, args, seq![]) != fail_view("Tool Shopify inconnu : "@ + "shopify_get_shop"@),
{
    reveal_strlit("Paramètre '");
    reveal_strlit("Shopify API error: ");
    reveal_strlit("Tool Shopify inconnu : ");
    assert(("Tool Shopify inconnu : "@ + "shopify_get_shop"@)[0] == 'T');
}

proof fn lemma_shopify_list_orders_handled(cfg: ShopifyConfig, args: Json)
    ensures
        handle_view(cfg, "shopify_list_orders"@, args, seq![]) != fail_view("Tool Shopify inconnu : "@ + "shopify_list_orders"@),
{
    reveal_strlit("Paramètre '");
    reveal_strlit("Shopify API error: ");
    reveal_strlit("Tool Shopify inconnu : ");
    assert(("Tool Shopify inconnu : "@ + "shopify_list_orders"@)[0] == 'T');
}

proof fn lemma_shopify_get_order_handled(cfg: ShopifyConfig, args: Json)
    ensures
        handle_view(cfg, "shopify_get_order"@, args, seq![]) != fail_view("Tool Shopify inconnu : "@ + "shopify_get_order"@),
{
    reveal_strlit("Paramètre '");
    reveal_strlit("Shopify API error: ");
    reveal_strlit("Tool Shopify inconnu : ");
    assert(("Tool Shopify inconnu : "@ + "shopify_get_order"@)[0] == 'T');
}

proof fn lemma_shopify_cancel_order_handled(cfg: ShopifyConfig, args: Json)
    ensures
        handle_view(cfg, "shopify_cancel_order"@, args, seq![]) != fail_view("Tool Shopify inconnu : "@ + "shopify_cancel_order"@),
{
    reveal_strlit("Paramètre '");
    reveal_strlit("Shopify API error: ");
    reveal_strlit("Tool Shopify inconnu : ");
    assert(("Tool Shopify inconnu : "@ + "shopify_cancel_order"@)[0] == 'T');
}

proof fn lemma_shopify_fulfill_order_handled(cfg: ShopifyConfig, args: Json)
    ensures
        handle_view(cfg, "shopify_fulfill_order"@, args, seq![]) != fail_view("Tool Shopify inconnu : "@ + "shopify_fulfill_order"@),
{
    reveal_strlit("Paramètre '");
    reveal_strlit("Shopify API error: ");
    reveal_strlit("Tool Shopify inconnu : ");
    assert(("Tool Shopify inconnu : "@ + "shopify_fulfill_order"@)[0] == 'T');
}

proof fn lemma_shopify_get_product_handled(cfg: ShopifyConfig, args: Json)
    ensures
        handle_view(cfg, "shopify_get_product"@, args, seq![]) != fail_view("Tool Shopify inconnu : "@ + "shopify_get_product"@),
{
    reveal_strlit("Paramètre '");
    reveal_strlit("Shopify API error: ");
    reveal_strlit("Tool Shopify inconnu : ");
    assert(("Tool Shopify inconnu : "@ + "shopify_get_product"@)[0] == 'T');
}

proof fn lemma_shopify_create_product_handled(cfg: ShopifyConfig, args: Json)
    ensures
        handle_view(cfg, "shopify_create_product"@, args, seq![]) != fail_view("Tool Shopify inconnu : "@ + "shopify_create_product"@),
{
    reveal_strlit("Paramètre '");
    reveal_strlit("Shopify API error: ");
    reveal_strlit("Tool Shopify inconnu : ");
    assert(("Tool Shopify inconnu : "@ + "shopify_create_product"@)[0] == 'T');
}

proof fn lemma_shopify_update_product_handled(cfg: ShopifyConfig, args: Json)
    ensures
        handle_view(cfg, "shopify_update_product"@, args, seq![]) != fail_view("Tool Shopify inconnu : "@ + "shopify_update_product"@),
{
    reveal_strlit("Paramètre '");
    reveal_strlit("Shopify API error: ");
    reveal_strlit("Tool Shopify inconnu : ");
    assert(("Tool Shopify inconnu : "@ + "shopify_update_product"@)[0] == 'T');
}

proof fn lemma_shopify_list_customers_handled(cfg: ShopifyConfig, args: Json)
    ensures
        handle_view(cfg, "shopify_list_customers"@, args, seq![]) != fail_view("Tool Shopify inconnu : "@ + "shopify_list_customers"@),
{
    reveal_strlit("Paramètre '");
    reveal_strlit("Shopify API error: ");
    reveal_strlit("Tool Shopify inconnu : ");
    assert(("Tool Shopify inconnu : "@ + "shopify_list_customers"@)[0] == 'T');
}

proof fn lemma_shopify_get_customer_handled(cfg: ShopifyConfig, args: Json)
    ensures
        handle_view(cfg, "shopify_get_customer"@, args, seq![]) != fail_view("Tool Shopify inconnu : "@ + "shopify_get_customer"@),
{
    reveal_strlit("Paramètre '");
    reveal_strlit("Shopify API error: ");
    reveal_strlit("Tool Shopify inconnu : ");
    assert(("Tool Shopify inconnu : "@ + "shopify_get_customer"@)[0] == 'T');
}

proof fn lemma_shopify_search_customers_handled(cfg: ShopifyConfig, args: Json)
    ensures
        handle_view(cfg, "shopify_search_customers"@, args, seq![]) != fail_view("Tool Shopify inconnu : "@ + "shopify_search_customers"@),
{
    reveal_strlit("Paramètre '");
    reveal_strlit("Shopify API error: ");
    reveal_strlit("Tool Shopify inconnu : ");
    assert(("Tool Shopify inconnu : "@ + "shopify_search_customers"@)[0] == 'T');
}

proof fn lemma_shopify_create_customer_handled(cfg: ShopifyConfig, args: Json)
    ensures
        handle_view(cfg, "shopify_create_customer"@, args, seq![]) != fail_view("Tool Shopify inconnu : "@ + "shopify_create_customer"@),
{
    reveal_strlit("Paramètre '");
    reveal_strlit("Shopify API error: ");
    reveal_strlit("Tool Shopify inconnu : ");
    assert(("Tool Shopify inconnu : "@ + "shopify_create_customer"@)[0] == 'T');
}

proof fn lemma_shopify_update_customer_handled(cfg: ShopifyConfig, args: Json)
    ensures
        handle_view(cfg, "shopify_update_customer"@, args, seq![]) != fail_view("Tool Shopify inconnu : "@ + "shopify_update_customer"@),
{
    reveal_strlit("Paramètre '");
    reveal_strlit("Shopify API error: ");
    reveal_strlit("Tool Shopify inconnu : ");
    assert(("Tool Shopify inconnu : "@ + "shopify_update_customer"@)[0] == 'T');
}

proof fn lemma_shopify_list_collections_handled(cfg: ShopifyConfig, args: Json)
    ensures
        handle_view(cfg, "shopify_list_collections"@, args, seq![]) != fail_view("Tool Shopify inconnu : "@ + "shopify_list_collections"@),
{
    reveal_strlit("Paramètre '");
    reveal_strlit("Shopify API error: ");
    reveal_strlit("Tool Shopify inconnu : ");
    assert(("Tool Shopify inconnu : "@ + "shopify_list_collections"@)[0] == 'T');
}

proof fn lemma_shopify_get_inventory_levels_handled(cfg: ShopifyConfig, args: Json)
    ensures
        handle_view(cfg, "shopify_get_inventory_levels"@, args, seq![]) != fail_view("Tool Shopify inconnu : "@ + "shopify_get_inventory_levels"@),
{
    reveal_strlit("Paramètre '");
    reveal_strlit("Shopify API error: ");
    reveal_strlit("Tool Shopify inconnu : ");
    assert(("Tool Shopify inconnu : "@ + "shopify_get_inventory_levels"@)[0] == 'T');
}

proof fn lemma_shopify_list_webhooks_handled(cfg: ShopifyConfig, args: Json)
    ensures
        handle_view(cfg, "shopify_list_webhooks"@, args, seq![]) != fail_view("Tool Shopify inconnu : "@ + "shopify_list_webhooks"@),
{
    reveal_strlit("Paramètre '");
    reveal_strlit("Shopify API error: ");
    reveal_strlit("Tool Shopify inconnu : ");
    assert(("Tool Shopify inconnu : "@ + "shopify_list_webhooks"@)[0] == 'T');
}

proof fn lemma_shopify_create_webhook_handled(cfg: ShopifyConfig, args: Json)
    ensures
        handle_view(cfg, "shopify_create_webhook"@, args, seq![]) != fail_view("Tool Shopify inconnu : "@ + "shopify_create_webhook"@),
{
    reveal_strlit("Paramètre '");
    reveal_strlit("Shopify API error: ");
    reveal_strlit("Tool Shopify inconnu : ");
    assert(("Tool Shopify inconnu : "@ + "shopify_create_webhook"@)[0] == 'T');
}

proof fn lemma_shopify_list_price_rules_handled(cfg: ShopifyConfig, args: Json)
    ensures
        handle_view(cfg, "shopify_list_price_rules"@, args, seq![]) != fail_view("Tool Shopify inconnu : "@ + "shopify_list_price_rules"@),
{
    reveal_strlit("Paramètre '");
    reveal_strlit("Shopify API error: ");
    reveal_strlit("Tool Shopify inconnu : ");
    assert(("Tool Shopify inconnu : "@ + "shopify_list_price_rules"@)[0] == 'T');
}

proof fn lemma_shopify_list_locations_handled(cfg: ShopifyConfig, args: Json)
    ensures
        handle_view(cfg, "shopify_list_locations"@, args, seq![]) != fail_view("Tool Shopify inconnu : "@ + "shopify_list_locations"@),
{
    reveal_strlit("Paramètre '");
    reveal_strlit("Shopify API error: ");
    reveal_strlit("Tool Shopify inconnu : ");
    assert(("Tool Shopify inconnu : "@ + "shopify_list_locations"@)[0] == 'T');
}

proof fn lemma_shopify_update_inventory_handled(cfg: ShopifyConfig, args: Json)
    ensures
        handle_view(cfg, "shopify_update_inventory"@, args, seq![]) != fail_view("Tool Shopify inconnu : "@ + "shopify_update_inventory"@),
{
    reveal_strlit("Paramètre '");
    reveal_strlit("Shopify API error: ");
    reveal_strlit("Tool Shopify inconnu : ");
    assert(("Tool Shopify inconnu : "@ + "shopify_update_inventory"@)[0] == 'T');
}

proof fn lemma_shopify_list_product_variants_handled(cfg: ShopifyConfig, args: Json)
    ensures
        handle_view(cfg, "shopify_list_product_variants"@, args, seq![]) != fail_view("Tool Shopify inconnu : "@ + "shopify_list_product_variants"@),
{
    reveal_strlit("Paramètre '");
    reveal_strlit("Shopify API error: ");
    reveal_strlit("Tool Shopify inconnu : ");
    assert(("Tool Shopify inconnu : "@ + "shopify_list_product_variants"@)[0] == 'T');
}

proof fn lemma_shopify_update_product_variant_handled(cfg: ShopifyConfig, args: Json)
    ensures
        handle_view(cfg, "shopify_update_product_variant"@, args, seq![]) != fail_view("Tool Shopify inconnu : "@ + "shopify_update_product_variant"@),
{
    reveal_strlit("Paramètre '");
    reveal_strlit("Shopify API error: ");
    reveal_strlit("Tool Shopify inconnu : ");
    assert(("Tool Shopify inconnu : "@ + "shopify_update_product_variant"@)[0] == 'T');
}

proof fn lemma_shopify_refund_order_handled(cfg: ShopifyConfig, args: Json)
    ensures
        handle_view(cfg, "shopify_refund_order"@, args, seq![]) != fail_view("Tool Shopify inconnu : "@ + "shopify_refund_order"@),
{
    reveal_strlit("Paramètre '");
    reveal_strlit("Shopify API error: ");
    reveal_strlit("Tool Shopify inconnu : ");
    assert(("Tool Shopify inconnu : "@ + "shopify_refund_order"@)[0] == 'T');
}

proof fn lemma_shopify_list_draft_orders_handled(cfg: ShopifyConfig, args: Json)
    ensures
        handle_view(cfg, "shopify_list_draft_orders"@, args, seq![]) != fail_view("Tool Shopify inconnu : "@ + "shopify_list_draft_orders"@),
{
    reveal_strlit("Paramètre '");
    reveal_strlit("Shopify API error: ");
    reveal_strlit("Tool Shopify inconnu : ");
    assert(("Tool Shopify inconnu : "@ + "shopify_list_draft_orders"@)[0] == 'T');
}

proof fn lemma_shopify_complete_draft_order_handled(cfg: ShopifyConfig, args: Json)
    ensures
        handle_view(cfg, "shopify_complete_draft_order"@, args, seq![]) != fail_view("Tool Shopify inconnu : "@ + "shopify_complete_draft_order"@),
{
    reveal_strlit("Paramètre '");
    reveal_strlit("Shopify API error: ");
    reveal_strlit("Tool Shopify inconnu : ");
    assert(("Tool Shopify inconnu : "@ + "shopify_complete_draft_order"@)[0] == 'T');
}

proof fn lemma_shopify_list_transactions_handled(cfg: ShopifyConfig, args: Json)
    ensures
        handle_view(cfg, "shopify_list_transactions"@, args, seq![]) != fail_view("Tool Shopify inconnu : "@ + "shopify_list_transactions"@),
{
    reveal_strlit("Paramètre '");
    reveal_strlit("Shopify API error: ");
    reveal_strlit("Tool Shopify inconnu : ");
    assert(("Tool Shopify inconnu : "@ + "shopify_list_transactions"@)[0] == 'T');
}

proof fn lemma_shopify_create_collection_handled(cfg: ShopifyConfig, args: Json)
    ensures
        handle_view(cfg, "shopify_create_collection"@, args, seq![]) != fail_view("Tool Shopify inconnu : "@ + "shopify_create_collection"@),
{
    reveal_strlit("Paramètre '");
    reveal_strlit("Shopify API error: ");
    reveal_strlit("Tool Shopify inconnu : ");
    assert(("Tool Shopify inconnu : "@ + "shopify_create_collection"@)[0] == 'T');
}

proof fn lemma_shopify_list_smart_collections_handled(cfg: ShopifyConfig, args: Json)
    ensures
        handle_view(cfg, "shopify_list_smart_collections"@, args, seq![]) != fail_view("Tool Shopify inconnu : "@ + "shopify_list_smart_collections"@),
{
    reveal_strlit("Paramètre '");
    reveal_strlit("Shopify API error: ");
    reveal_strlit("Tool Shopify inconnu : ");
    assert(("Tool Shopify inconnu : "@ + "shopify_list_smart_collections"@)[0] == 'T');
}

/// Every tool that [`tools`] serves (those of [`catalog_names`]) and that this module runs is
/// handled: its first step is never the unknown-tool error.
pub proof fn lemma_catalog_handled(cfg: ShopifyConfig, name: Seq<char>, args: Json)
    requires
        catalog_names().contains(name),
        !done_elsewhere(name),
    ensures
        handle_view(cfg, name, args, seq![]) != fail_view("Tool Shopify inconnu : "@ + name),
{
    assert(catalog_names()[0] == "shopify_get_shop"@);
    assert(catalog_names()[1] == "shopify_list_orders"@);
    assert(catalog_names()[2] == "shopify_get_order"@);
    assert(catalog_names()[3] == "shopify_cancel_order"@);
    assert(catalog_names()[4] == "shopify_fulfill_order"@);
    assert(catalog_names()[5] == "shopify_list_products"@);
    assert(catalog_names()[6] == "shopify_get_product"@);
    assert(catalog_names()[7] == "shopify_create_product"@);
    assert(catalog_names()[8] == "shopify_update_product"@);
    assert(catalog_names()[9] == "shopify_delete_product"@);
    assert(catalog_names()[10] == "shopify_list_customers"@);
    assert(catalog_names()[11] == "shopify_get_customer"@);
    assert(catalog_names()[12] == "shopify_search_customers"@);
    assert(catalog_names()[13] == "shopify_create_customer"@);
    assert(catalog_names()[14] == "shopify_update_customer"@);
    assert(catalog_names()[15] == "shopify_list_collections"@);
    assert(catalog_names()[16] == "shopify_get_inventory_levels"@);
    assert(catalog_names()[17] == "shopify_list_webhooks"@);
    assert(catalog_names()[18] == "shopify_create_webhook"@);
    assert(catalog_names()[19] == "shopify_list_price_rules"@);
    assert(catalog_names()[20] == "shopify_list_locations"@);
    assert(catalog_names()[21] == "shopify_update_inventory"@);
    assert(catalog_names()[22] == "shopify_list_product_variants"@);
    assert(catalog_names()[23] == "shopify_update_product_variant"@);
    assert(catalog_names()[24] == "shopify_refund_order"@);
    assert(catalog_names()[25] == "shopify_list_draft_orders"@);
    assert(catalog_names()[26] == "shopify_create_draft_order"@);
    assert(catalog_names()[27] == "shopify_complete_draft_order"@);
    assert(catalog_names()[28] == "shopify_list_transactions"@);
    assert(catalog_names()[29] == "shopify_create_collection"@);
    assert(catalog_names()[30] == "shopify_list_smart_collections"@);
    if name == "shopify_delete_product"@ {
        lemma_shopify_delete_product_handled(cfg, args);
    }
    if name == "shopify_get_shop"@ {
        lemma_shopify_get_shop_handled(cfg, args);
    }
    if name == "shopify_list_orders"@ {
        lemma_shopify_list_orders_handled(cfg, args);
    }
    if name == "shopify_get_order"@ {
        lemma_shopify_get_order_handled(cfg, args);
    }
    if name == "shopify_cancel_order"@ {
        lemma_shopify_cancel_order_handled(cfg, args);
    }
    if name == "shopify_fulfill_order"@ {
        lemma_shopify_fulfill_order_handled(cfg, args);
    }
    if name == "shopify_get_product"@ {
        lemma_shopify_get_product_handled(cfg, args);
    }
    if name == "shopify_create_product"@ {
        lemma_shopify_create_product_handled(cfg, args);
    }
    if name == "shopify_update_product"@ {
        lemma_shopify_update_product_handled(cfg, args);
    }
    if name == "shopify_list_customers"@ {
        lemma_shopify_list_customers_handled(cfg, args);
    }
    if name == "shopify_get_customer"@ {
        lemma_shopify_get_customer_handled(cfg, args);
    }
    if name == "shopify_search_customers"@ {
        lemma_shopify_search_customers_handled(cfg, args);
    }
    if name == "shopify_create_customer"@ {
        lemma_shopify_create_customer_handled(cfg, args);
    }
    if name == "shopify_update_customer"@ {
        lemma_shopify_update_customer_handled(cfg, args);
    }
    if name == "shopify_list_collections"@ {
        lemma_shopify_list_collections_handled(cfg, args);
    }
    if name == "shopify_get_inventory_levels"@ {
        lemma_shopify_get_inventory_levels_handled(cfg, args);
    }
    if name == "shopify_list_webhooks"@ {
        lemma_shopify_list_webhooks_handled(cfg, args);
    }
    if name == "shopify_create_webhook"@ {
        lemma_shopify_create_webhook_handled(cfg, args);
    }
    if name == "shopify_list_price_rules"@ {
        lemma_shopify_list_price_rules_handled(cfg, args);
    }
    if name == "shopify_list_locations"@ {
        lemma_shopify_list_locations_handled(cfg, args);
    }
    if name == "shopify_update_inventory"@ {
        lemma_shopify_update_inventory_handled(cfg, args);
    }
    if name == "shopify_list_product_variants"@ {
        lemma_shopify_list_product_variants_handled(cfg, args);
    }
    if name == "shopify_update_product_variant"@ {
        lemma_shopify_update_product_variant_handled(cfg, args);
    }
    if name == "shopify_refund_order"@ {
        lemma_shopify_refund_order_handled(cfg, args);
    }
    if name == "shopify_list_draft_orders"@ {
        lemma_shopify_list_draft_orders_handled(cfg, args);
    }
    if name == "shopify_complete_draft_order"@ {
        lemma_shopify_complete_draft_order_handled(cfg, args);
    }
    if name == "shopify_list_transactions"@ {
        lemma_shopify_list_transactions_handled(cfg, args);
    }
    if name == "shopify_create_collection"@ {
        lemma_shopify_create_collection_handled(cfg, args);
    }
    if name == "shopify_list_smart_collections"@ {
        lemma_shopify_list_smart_collections_handled(cfg, args);
    }
}

/// The names of each catalog tool's input properties and of those it requires, in catalog
/// order (properties by name).
pub open spec fn catalog_schemas() -> Seq<(Seq<char>, Seq<Seq<char>>, Seq<Seq<char>>)> {
    seq![
        ("shopify_get_shop"@, seq![], seq![]),
        ("shopify_list_orders"@, seq!["limit"@, "status"@], seq![]),
        ("shopify_get_order"@, seq!["order_id"@], seq!["order_id"@]),
        ("shopify_cancel_order"@, seq!["order_id"@, "reason"@], seq!["order_id"@]),
        ("shopify_fulfill_order"@, seq!["notify_customer"@, "order_id"@, "tracking_company"@, "tracking_number"@], seq!["order_id"@]),
        ("shopify_list_products"@, seq!["limit"@, "status"@], seq![]),
        ("shopify_get_product"@, seq!["product_id"@], seq!["product_id"@]),
        ("shopify_create_product"@, seq!["body_html"@, "product_type"@, "status"@, "tags"@, "title"@, "vendor"@], seq!["title"@]),
        ("shopify_update_product"@, seq!["body_html"@, "product_id"@, "product_type"@, "status"@, "tags"@, "title"@, "vendor"@], seq!["product_id"@]),
        ("shopify_delete_product"@, seq!["product_id"@], seq!["product_id"@]),
        ("shopify_list_customers"@, seq!["limit"@], seq![]),
        ("shopify_get_customer"@, seq!["customer_id"@], seq!["customer_id"@]),
        ("shopify_search_customers"@, seq!["limit"@, "query"@], seq!["query"@]),
        ("shopify_create_customer"@, seq!["email"@, "first_name"@, "last_name"@, "note"@, "phone"@, "tags"@], seq!["email"@]),
        ("shopify_update_customer"@, seq!["customer_id"@, "email"@, "first_name"@, "last_name"@, "note"@, "phone"@, "tags"@], seq!["customer_id"@]),
        ("shopify_list_collections"@, seq!["limit"@], seq![]),
        ("shopify_get_inventory_levels"@, seq!["limit"@], seq![]),
        ("shopify_list_webhooks"@, seq![], seq![]),
        ("shopify_create_webhook"@, seq!["address"@, "format"@, "topic"@], seq!["topic"@, "address"@]),
        ("shopify_list_price_rules"@, seq!["limit"@], seq![]),
        ("shopify_list_locations"@, seq![], seq![]),
        ("shopify_update_inventory"@, seq!["available"@, "inventory_item_id"@, "location_id"@], seq!["location_id"@, "inventory_item_id"@, "available"@]),
        ("shopify_list_product_variants"@, seq!["product_id"@], seq!["product_id"@]),
        ("shopify_update_product_variant"@, seq!["compare_at_price"@, "price"@, "sku"@, "variant_id"@], seq!["variant_id"@]),
        ("shopify_refund_order"@, seq!["amount"@, "note"@, "order_id"@], seq!["order_id"@, "amount"@]),
        ("shopify_list_draft_orders"@, seq!["status"@], seq![]),
        ("shopify_create_draft_order"@, seq!["customer_id"@, "line_items"@, "note"@], seq!["line_items"@]),
        ("shopify_complete_draft_order"@, seq!["id"@], seq!["id"@]),
        ("shopify_list_transactions"@, seq!["order_id"@], seq!["order_id"@]),
        ("shopify_create_collection"@, seq!["body_html"@, "title"@], seq!["title"@]),
        ("shopify_list_smart_collections"@, seq!["limit"@], seq![])
    ]
}

/// The names of each catalog tool's input properties and required inputs (see
/// [`catalog_schemas`]).
pub fn tool_schemas() -> (r: Vec<SchemaNames>)
    ensures
        r@.map_values(|e: SchemaNames| schema_view(e)) == catalog_schemas(),
{
    let r: Vec<SchemaNames> = vec![
        ("shopify_get_shop", vec![], vec![]),
        ("shopify_list_orders", vec!["limit", "status"], vec![]),
        ("shopify_get_order", vec!["order_id"], vec!["order_id"]),
        ("shopify_cancel_order", vec!["order_id", "reason"], vec!["order_id"]),
        ("shopify_fulfill_order", vec!["notify_customer", "order_id", "tracking_company", "tracking_number"], vec!["order_id"]),
        ("shopify_list_products", vec!["limit", "status"], vec![]),
        ("shopify_get_product", vec!["product_id"], vec!["product_id"]),
        ("shopify_create_product", vec!["body_html", "product_type", "status", "tags", "title", "vendor"], vec!["title"]),
        ("shopify_update_product", vec!["body_html", "product_id", "product_type", "status", "tags", "title", "vendor"], vec!["product_id"]),
        ("shopify_delete_product", vec!["product_id"], vec!["product_id"]),
        ("shopify_list_customers", vec!["limit"], vec![]),
        ("shopify_get_customer", vec!["customer_id"], vec!["customer_id"]),
        ("shopify_search_customers", vec!["limit", "query"], vec!["query"]),
        ("shopify_create_customer", vec!["email", "first_name", "last_name", "note", "phone", "tags"], vec!["email"]),
        ("shopify_update_customer", vec!["customer_id", "email", "first_name", "last_name", "note", "phone", "tags"], vec!["customer_id"]),
        ("shopify_list_collections", vec!["limit"], vec![]),
        ("shopify_get_inventory_levels", vec!["limit"], vec![]),
        ("shopify_list_webhooks", vec![], vec![]),
        ("shopify_create_webhook", vec!["address", "format", "topic"], vec!["topic", "address"]),
        ("shopify_list_price_rules", vec!["limit"], vec![]),
        ("shopify_list_locations", vec![], vec![]),
        ("shopify_update_inventory", vec!["available", "inventory_item_id", "location_id"], vec!["location_id", "inventory_item_id", "available"]),
        ("shopify_list_product_variants", vec!["product_id"], vec!["product_id"]),
        ("shopify_update_product_variant", vec!["compare_at_price", "price", "sku", "variant_id"], vec!["variant_id"]),
        ("shopify_refund_order", vec!["amount", "note", "order_id"], vec!["order_id", "amount"]),
        ("shopify_list_draft_orders", vec!["status"], vec![]),
        ("shopify_create_draft_order", vec!["customer_id", "line_items", "note"], vec!["line_items"]),
        ("shopify_complete_draft_order", vec!["id"], vec!["id"]),
        ("shopify_list_transactions", vec!["order_id"], vec!["order_id"]),
        ("shopify_create_collection", vec!["body_html", "title"], vec!["title"]),
        ("shopify_list_smart_collections", vec!["limit"], vec![])
    ];
    assert(r@[0].1@.map_values(|s: &'static str| s@) =~= catalog_schemas()[0].1);
    assert(r@[0].2@.map_values(|s: &'static str| s@) =~= catalog_schemas()[0].2);
    assert(r@[1].1@.map_values(|s: &'static str| s@) =~= catalog_schemas()[1].1);
    assert(r@[1].2@.map_values(|s: &'static str| s@) =~= catalog_schemas()[1].2);
    assert(r@[2].1@.map_values(|s: &'static str| s@) =~= catalog_schemas()[2].1);
    assert(r@[2].2@.map_values(|s: &'static str| s@) =~= catalog_schemas()[2].2);
    assert(r@[3].1@.map_values(|s: &'static str| s@) =~= catalog_schemas()[3].1);
    assert(r@[3].2@.map_values(|s: &'static str| s@) =~= catalog_schemas()[3].2);
    assert(r@[4].1@.map_values(|s: &'static str| s@) =~= catalog_schemas()[4].1);
    assert(r@[4].2@.map_values(|s: &'static str| s@) =~= catalog_schemas()[4].2);
    assert(r@[5].1@.map_values(|s: &'static str| s@) =~= catalog_schemas()[5].1);
    assert(r@[5].2@.map_values(|s: &'static str| s@) =~= catalog_schemas()[5].2);
    assert(r@[6].1@.map_values(|s: &'static str| s@) =~= catalog_schemas()[6].1);
    assert(r@[6].2@.map_values(|s: &'static str| s@) =~= catalog_schemas()[6].2);
    assert(r@[7].1@.map_values(|s: &'static str| s@) =~= catalog_schemas()[7].1);
    assert(r@[7].2@.map_values(|s: &'static str| s@) =~= catalog_schemas()[7].2);
    assert(r@[8].1@.map_values(|s: &'static str| s@) =~= catalog_schemas()[8].1);
    assert(r@[8].2@.map_values(|s: &'static str| s@) =~= catalog_schemas()[8].2);
    assert(r@[9].1@.map_values(|s: &'static str| s@) =~= catalog_schemas()[9].1);
    assert(r@[9].2@.map_values(|s: &'static str| s@) =~= catalog_schemas()[9].2);
    assert(r@[10].1@.map_values(|s: &'static str| s@) =~= catalog_schemas()[10].1);
    assert(r@[10].2@.map_values(|s: &'static str| s@) =~= catalog_schemas()[10].2);
    assert(r@[11].1@.map_values(|s: &'static str| s@) =~= catalog_schemas()[11].1);
    assert(r@[11].2@.map_values(|s: &'static str| s@) =~= catalog_schemas()[11].2);
    assert(r@[12].1@.map_values(|s: &'static str| s@) =~= catalog_schemas()[12].1);
    assert(r@[12].2@.map_values(|s: &'static str| s@) =~= catalog_schemas()[12].2);
    assert(r@[13].1@.map_values(|s: &'static str| s@) =~= catalog_schemas()[13].1);
    assert(r@[13].2@.map_values(|s: &'static str| s@) =~= catalog_schemas()[13].2);
    assert(r@[14].1@.map_values(|s: &'static str| s@) =~= catalog_schemas()[14].1);
    assert(r@[14].2@.map_values(|s: &'static str| s@) =~= catalog_schemas()[14].2);
    assert(r@[15].1@.map_values(|s: &'static str| s@) =~= catalog_schemas()[15].1);
    assert(r@[15].2@.map_values(|s: &'static str| s@) =~= catalog_schemas()[15].2);
    assert(r@[16].1@.map_values(|s: &'static str| s@) =~= catalog_schemas()[16].1);
    assert(r@[16].2@.map_values(|s: &'static str| s@) =~= catalog_schemas()[16].2);
    assert(r@[17].1@.map_values(|s: &'static str| s@) =~= catalog_schemas()[17].1);
    assert(r@[17].2@.map_values(|s: &'static str| s@) =~= catalog_schemas()[17].2);
    assert(r@[18].1@.map_values(|s: &'static str| s@) =~= catalog_schemas()[18].1);
    assert(r@[18].2@.map_values(|s: &'static str| s@) =~= catalog_schemas()[18].2);
    assert(r@[19].1@.map_values(|s: &'static str| s@) =~= catalog_schemas()[19].1);
    assert(r@[19].2@.map_values(|s: &'static str| s@) =~= catalog_schemas()[19].2);
    assert(r@[20].1@.map_values(|s: &'static str| s@) =~= catalog_schemas()[20].1);
    assert(r@[20].2@.map_values(|s: &'static str| s@) =~= catalog_schemas()[20].2);
    assert(r@[21].1@.map_values(|s: &'static str| s@) =~= catalog_schemas()[21].1);
    assert(r@[21].2@.map_values(|s: &'static str| s@) =~= catalog_schemas()[21].2);
    assert(r@[22].1@.map_values(|s: &'static str| s@) =~= catalog_schemas()[22].1);
    assert(r@[22].2@.map_values(|s: &'static str| s@) =~= catalog_schemas()[22].2);
    assert(r@[23].1@.map_values(|s: &'static str| s@) =~= catalog_schemas()[23].1);
    assert(r@[23].2@.map_values(|s: &'static str| s@) =~= catalog_schemas()[23].2);
    assert(r@[24].1@.map_values(|s: &'static str| s@) =~= catalog_schemas()[24].1);
    assert(r@[24].2@.map_values(|s: &'static str| s@) =~= catalog_schemas()[24].2);
    assert(r@[25].1@.map_values(|s: &'static str| s@) =~= catalog_schemas()[25].1);
    assert(r@[25].2@.map_values(|s: &'static str| s@) =~= catalog_schemas()[25].2);
    assert(r@[26].1@.map_values(|s: &'static str| s@) =~= catalog_schemas()[26].1);
    assert(r@[26].2@.map_values(|s: &'static str| s@) =~= catalog_schemas()[26].2);
    assert(r@[27].1@.map_values(|s: &'static str| s@) =~= catalog_schemas()[27].1);
    assert(r@[27].2@.map_values(|s: &'static str| s@) =~= catalog_schemas()[27].2);
    assert(r@[28].1@.map_values(|s: &'static str| s@) =~= catalog_schemas()[28].1);
    assert(r@[28].2@.map_values(|s: &'static str| s@) =~= catalog_schemas()[28].2);
    assert(r@[29].1@.map_values(|s: &'static str| s@) =~= catalog_schemas()[29].1);
    assert(r@[29].2@.map_values(|s: &'static str| s@) =~= catalog_schemas()[29].2);
    assert(r@[30].1@.map_values(|s: &'static str| s@) =~= catalog_schemas()[30].1);
    assert(r@[30].2@.map_values(|s: &'static str| s@) =~= catalog_schemas()[30].2);
    assert(r@.map_values(|e: SchemaNames| schema_view(e)) =~= catalog_schemas());
    r
}

/// Every tool of the catalog requires only inputs that are among its properties.
pub proof fn lemma_required_are_properties(i: int)
    requires
        0 <= i < catalog_schemas().len(),
    ensures
        requires_properties(catalog_schemas()[i]),
{
    if i == 2 {
        assert(catalog_schemas()[2].1[0] == catalog_schemas()[2].2[0]);
    }
    if i == 3 {
        assert(catalog_schemas()[3].1[0] == catalog_schemas()[3].2[0]);
    }
    if i == 4 {
        assert(catalog_schemas()[4].1[1] == catalog_schemas()[4].2[0]);
    }
    if i == 6 {
        assert(catalog_schemas()[6].1[0] == catalog_schemas()[6].2[0]);
    }
    if i == 7 {
        assert(catalog_schemas()[7].1[4] == catalog_schemas()[7].2[0]);
    }
    if i == 8 {
        assert(catalog_schemas()[8].1[1] == catalog_schemas()[8].2[0]);
    }
    if i == 9 {
        assert(catalog_schemas()[9].1[0] == catalog_schemas()[9].2[0]);
    }
    if i == 11 {
        assert(catalog_schemas()[11].1[0] == catalog_schemas()[11].2[0]);
    }
    if i == 12 {
        assert(catalog_schemas()[12].1[1] == catalog_schemas()[12].2[0]);
    }
    if i == 13 {
        assert(catalog_schemas()[13].1[0] == catalog_schemas()[13].2[0]);
    }
    if i == 14 {
        assert(catalog_schemas()[14].1[0] == catalog_schemas()[14].2[0]);
    }
    if i == 18 {
        assert(catalog_schemas()[18].1[2] == catalog_schemas()[18].2[0]);
        assert(catalog_schemas()[18].1[0] == catalog_schemas()[18].2[1]);
    }
    if i == 21 {
        assert(catalog_schemas()[21].1[2] == catalog_schemas()[21].2[0]);
        assert(catalog_schemas()[21].1[1] == catalog_schemas()[21].2[1]);
        assert(catalog_schemas()[21].1[0] == catalog_schemas()[21].2[2]);
    }
    if i == 22 {
        assert(catalog_schemas()[22].1[0] == catalog_schemas()[22].2[0]);
    }
    if i == 23 {
        assert(catalog_schemas()[23].1[3] == catalog_schemas()[23].2[0]);
    }
    if i == 24 {
        assert(catalog_schemas()[24].1[2] == catalog_schemas()[24].2[0]);
        assert(catalog_schemas()[24].1[0] == catalog_schemas()[24].2[1]);
    }
    if i == 26 {
        assert(catalog_schemas()[26].1[1] == catalog_schemas()[26].2[0]);
    }
    if i == 27 {
        assert(catalog_schemas()[27].1[0] == catalog_schemas()[27].2[0]);
    }
    if i == 28 {
        assert(catalog_schemas()[28].1[0] == catalog_schemas()[28].2[0]);
    }
    if i == 29 {
        assert(catalog_schemas()[29].1[1] == catalog_schemas()[29].2[0]);
    }
}

proof fn lemma_lines_append(kind: Listed, a: Seq<Json>, b: Seq<Json>)
    ensures
        lines(kind, a + b) == lines(kind, a) + lines(kind, b),
    decreases b.len(),
{
    if b.len() == 0 {
        assert(a + b =~= a);
    } else {
        lemma_lines_append(kind, a, b.drop_last());
        assert((a + b).drop_last() =~= a + b.drop_last());
    }
}

proof fn lemma_lines_at(kind: Listed, items: Seq<Json>, i: int)
    requires
        0 <= i < items.len(),
    ensures
        lines(kind, items) == lines(kind, items.take(i)) + (item_text(kind, items[i]) + "\n"@) + lines(
            kind,
            items.skip(i + 1),
        ),
{
    let one = seq![items[i]];
    assert(items =~= items.take(i) + one + items.skip(i + 1));
    lemma_lines_append(kind, items.take(i) + one, items.skip(i + 1));
    lemma_lines_append(kind, items.take(i), one);
    assert(one.drop_last() =~= Seq::<Json>::empty());
    assert(one.last() == items[i]);
    assert(lines(kind, Seq::<Json>::empty()) == Seq::<char>::empty());
    assert(lines(kind, one) =~= item_text(kind, items[i]) + "\n"@);
}

/// A listed order up to its currency.
pub open spec fn order_upto_total(o: Json) -> Seq<char> {
    let id = u64_text_or(o, "id"@, "—"@);
    let number = match o.at("order_number"@).u64_of() {
        Some(n) => "#"@ + dec_nat(n as nat),
        None => "—"@,
    };
    "• ["@ + id + "] "@ + number + " | "@ + str_or(o, "email"@, "—"@) + "\n  Paiement : "@
        + str_or(o, "financial_status"@, "—"@) + " | Livraison : "@ + str_or(
        o,
        "fulfillment_status"@,
        "unfulfilled"@,
    ) + " | Total : "@ + str_or(o, "total_price"@, "—"@) + " "@ + str_or(o, "currency"@, seq![])
}

/// The amount part of a listed order.
pub open spec fn total_text(o: Json) -> Seq<char> {
    " | Total : "@ + str_or(o, "total_price"@, "—"@) + " "@ + str_or(o, "currency"@, seq![])
}

/// The second line of a listed order, after its currency.
pub open spec fn order_rest(o: Json) -> Seq<char> {
    "\n  "@ + dec_nat(array_len_or_zero(o, "line_items"@)) + " article(s) | Créé : "@ + str_or(
        o,
        "created_at"@,
        "—"@,
    )
}

proof fn lemma_order_text(o: Json)
    ensures
        order_text(o) == order_upto_total(o) + order_rest(o),
        occurs(total_text(o), order_upto_total(o)),
        has_non_ws(order_rest(o)),
{
    let id = u64_text_or(o, "id"@, "—"@);
    let number = match o.at("order_number"@).u64_of() {
        Some(n) => "#"@ + dec_nat(n as nat),
        None => "—"@,
    };
    let x = "• ["@ + id + "] "@ + number + " | "@ + str_or(o, "email"@, "—"@) + "\n  Paiement : "@
        + str_or(o, "financial_status"@, "—"@) + " | Livraison : "@ + str_or(
        o,
        "fulfillment_status"@,
        "unfulfilled"@,
    );
    lemma_occurs_tail4(x, " | Total : "@, str_or(o, "total_price"@, "—"@), " "@, str_or(o, "currency"@, seq![]));
    let y1 = "\n  "@;
    let y2 = dec_nat(array_len_or_zero(o, "line_items"@));
    let y3 = " article(s) | Créé : "@;
    let y4 = str_or(o, "created_at"@, "—"@);
    lemma_split_tail4(order_upto_total(o), y1, y2, y3, y4);
    lemma_occurs_between(y1 + y2, y3, y4);
    reveal_strlit(" article(s) | Créé : ");
    assert(y3[1] == 'a');
    assert(has_non_ws(y3));
    lemma_non_ws_occurs(y3, order_rest(o));
}

proof fn lemma_list_orders_outcome(cfg: ShopifyConfig, args: Json, r: Json)
    requires
        api_error(r) is None,
    ensures
        handle_view(cfg, "shopify_list_orders"@, args, seq![r]) == StepView::Done(
            Ok(
                listing(
                    Listed::Order,
                    r,
                    "orders"@,
                    " commande(s) [statut: "@ + str_or(args, "status"@, "any"@) + "] :\n\n"@,
                    "Aucune commande (statut: "@ + str_or(args, "status"@, "any"@) + ")."@,
                ),
            ),
        ),
{
    reveal_strlit("shopify_list_orders");
    reveal_strlit("shopify_get_shop");
    assert("shopify_get_shop"@.len() == 16);
    assert("shopify_list_orders"@.len() == 19);
    let name = "shopify_list_orders"@;
    let status = str_or(args, "status"@, "any"@);
    assert(is_order_tool(name));
    assert(handle_view(cfg, name, args, seq![r]) == order_view(cfg, name, args, seq![r]));
    assert(order_view(cfg, name, args, seq![r]) == list_view(
        cfg,
        seq![r],
        "/orders.json?limit="@ + dec_nat(count_arg(args, "limit"@, 50)) + "&status="@ + status,
        Listed::Order,
        "orders"@,
        " commande(s) [statut: "@ + status + "] :\n\n"@,
        "Aucune commande (statut: "@ + status + ")."@,
    ));
}

proof fn lemma_listing_shows(
    kind: Listed,
    r: Json,
    key: Seq<char>,
    header: Seq<char>,
    empty: Seq<char>,
    i: int,
    n: Seq<char>,
    l: Seq<char>,
    m: Seq<char>,
)
    requires
        0 <= i < items_at(r, key).len(),
        item_text(kind, items_at(r, key)[i]) == l + m,
        occurs(n, l),
        has_non_ws(m),
    ensures
        occurs(n, listing(kind, r, key, header, empty)),
{
    let items = items_at(r, key);
    let h = dec_nat(items.len()) + header;
    let before = lines(kind, items.take(i));
    let after = lines(kind, items.skip(i + 1));
    lemma_lines_at(kind, items, i);
    lemma_regroup_line(h, before, l, m, "\n"@, after);
    let x = h + before + l;
    let s = m + "\n"@ + after;
    assert(h + lines(kind, items) == x + s);
    lemma_occurs_between(Seq::<char>::empty(), m, "\n"@ + after);
    assert(Seq::<char>::empty() + m + ("\n"@ + after) =~= s);
    lemma_non_ws_occurs(m, s);
    lemma_trim_end_ws_concat(x, s);
    lemma_occurs_prepend(n, h + before, l);
    lemma_occurs_append(n, x, trim_end_ws_spec(s));
}

/// Every order that `shopify_list_orders` lists from a response that is no API error shows
/// its `total_price` member after `Total : `, followed by its currency.
pub proof fn lemma_orders_show_total_price(cfg: ShopifyConfig, args: Json, r: Json, i: int)
    requires
        api_error(r) is None,
        0 <= i < items_at(r, "orders"@).len(),
    ensures
        handle_view(cfg, "shopify_list_orders"@, args, seq![r]) matches StepView::Done(Ok(t)) && exists|
            p: Seq<char>,
            s: Seq<char>,
        |
            t == p + (" | Total : "@ + str_or(items_at(r, "orders"@)[i], "total_price"@, "—"@) + " "@
                + str_or(items_at(r, "orders"@)[i], "currency"@, seq![])) + s,
{
    let o = items_at(r, "orders"@)[i];
    lemma_list_orders_outcome(cfg, args, r);
    lemma_order_text(o);
    lemma_listing_shows(
        Listed::Order,
        r,
        "orders"@,
        " commande(s) [statut: "@ + str_or(args, "status"@, "any"@) + "] :\n\n"@,
        "Aucune commande (statut: "@ + str_or(args, "status"@, "any"@) + ")."@,
        i,
        total_text(o),
        order_upto_total(o),
        order_rest(o),
    );
}

/// A listed draft order up to its total.
pub open spec fn draft_upto_total(d: Json) -> Seq<char> {
    "• ["@ + u64_text_or(d, "id"@, "—"@) + "] "@ + str_or(d, "name"@, "—"@) + " | Statut : "@
        + str_or(d, "status"@, "—"@) + " | Total : "@ + str_or(d, "total_price"@, "—"@)
}

proof fn lemma_draft_order_text(d: Json)
    ensures
        draft_order_text(d) == draft_upto_total(d) + (" | Client : "@ + str_or(d.at("customer"@), "email"@, "—"@)),
        occurs(
            " | Statut : "@ + str_or(d, "status"@, "—"@) + " | Total : "@ + str_or(d, "total_price"@, "—"@),
            draft_upto_total(d),
        ),
        has_non_ws(" | Client : "@ + str_or(d.at("customer"@), "email"@, "—"@)),
{
    let lit = " | Client : "@;
    let email = str_or(d.at("customer"@), "email"@, "—"@);
    lemma_split_tail2(draft_upto_total(d), lit, email);
    lemma_occurs_tail4(
        "• ["@ + u64_text_or(d, "id"@, "—"@) + "] "@ + str_or(d, "name"@, "—"@),
        " | Statut : "@,
        str_or(d, "status"@, "—"@),
        " | Total : "@,
        str_or(d, "total_price"@, "—"@),
    );
    reveal_strlit(" | Client : ");
    assert(lit[3] == 'C');
    assert((lit + email)[3] == lit[3]);
}

/// Every draft order that `shopify_list_draft_orders` lists from a response that is no API
/// error shows its `status` member after `Statut : ` and then its `total_price` member after
/// `Total : `.
pub proof fn lemma_draft_orders_show_status_and_total(cfg: ShopifyConfig, args: Json, r: Json, i: int)
    requires
        api_error(r) is None,
        0 <= i < items_at(r, "draft_orders"@).len(),
    ensures
        handle_view(cfg, "shopify_list_draft_orders"@, args, seq![r]) matches StepView::Done(Ok(t)) && exists|
            p: Seq<char>,
            s: Seq<char>,
        |
            t == p + (" | Statut : "@ + str_or(items_at(r, "draft_orders"@)[i], "status"@, "—"@) + " | Total : "@
                + str_or(items_at(r, "draft_orders"@)[i], "total_price"@, "—"@)) + s,
{
    reveal_strlit("shopify_list_draft_orders");
    reveal_strlit("shopify_get_shop");
    assert("shopify_get_shop"@.len() == 16);
    reveal_strlit("shopify_list_orders");
    assert("shopify_list_orders"@.len() == 19);
    reveal_strlit("shopify_get_order");
    assert("shopify_get_order"@.len() == 17);
    reveal_strlit("shopify_get_product");
    assert("shopify_get_product"@.len() == 19);
    reveal_strlit("shopify_get_customer");
    assert("shopify_get_customer"@.len() == 20);
    reveal_strlit("shopify_list_product_variants");
    assert("shopify_list_product_variants"@.len() == 29);
    reveal_strlit("shopify_list_transactions");
    assert("shopify_list_draft_orders"@[13] != "shopify_list_transactions"@[13]);
    assert("shopify_list_draft_orders"@.len() == 25);
    let name = "shopify_list_draft_orders"@;
    let status = str_or(args, "status"@, "open"@);
    let header = " commande(s) brouillon [statut: "@ + status + "] :\n\n"@;
    let empty = "Aucune commande brouillon (statut: "@ + status + ")."@;
    assert(is_order_tool(name));
    assert(handle_view(cfg, name, args, seq![r]) == order_view(cfg, name, args, seq![r]));
    assert(order_view(cfg, name, args, seq![r]) == list_view(
        cfg,
        seq![r],
        "/draft_orders.json?limit=50&status="@ + status,
        Listed::DraftOrder,
        "draft_orders"@,
        header,
        empty,
    ));
    let d = items_at(r, "draft_orders"@)[i];
    lemma_draft_order_text(d);
    lemma_listing_shows(
        Listed::DraftOrder,
        r,
        "draft_orders"@,
        header,
        empty,
        i,
        " | Statut : "@ + str_or(d, "status"@, "—"@) + " | Total : "@ + str_or(d, "total_price"@, "—"@),
        draft_upto_total(d),
        " | Client : "@ + str_or(d.at("customer"@), "email"@, "—"@),
    );
}

/// A listed customer up to the count of its orders.
pub open spec fn customer_upto_orders(c: Json) -> Seq<char> {
    "• ["@ + u64_text_or(c, "id"@, "—"@) + "] "@ + str_or(c, "first_name"@, seq![]) + " "@ + str_or(
        c,
        "last_name"@,
        seq![],
    ) + " | "@ + str_or(c, "email"@, "—"@) + "\n  Commandes : "@
}

/// The name and email part of a listed customer.
pub open spec fn customer_name_text(c: Json) -> Seq<char> {
    "] "@ + str_or(c, "first_name"@, seq![]) + " "@ + str_or(c, "last_name"@, seq![]) + " | "@ + str_or(
        c,
        "email"@,
        "—"@,
    ) + "\n  Commandes : "@
}

/// The end of a listed customer, after `Commandes : `.
pub open spec fn customer_rest(c: Json) -> Seq<char> {
    let orders = match c.at("orders_count"@).u64_of() {
        Some(n) => dec_nat(n as nat),
        None => dec_nat(0),
    };
    orders + " | Total dépensé : "@ + str_or(c, "total_spent"@, "0.00"@)
}

proof fn lemma_customer_text(c: Json)
    ensures
        customer_text(c) == customer_upto_orders(c) + customer_rest(c),
        occurs(customer_name_text(c), customer_upto_orders(c)),
        has_non_ws(customer_rest(c)),
{
    let orders = match c.at("orders_count"@).u64_of() {
        Some(n) => dec_nat(n as nat),
        None => dec_nat(0),
    };
    let lit = " | Total dépensé : "@;
    let total = str_or(c, "total_spent"@, "0.00"@);
    lemma_split_tail3(customer_upto_orders(c), orders, lit, total);
    lemma_occurs_tail6(
        "• ["@ + u64_text_or(c, "id"@, "—"@),
        "] "@,
        str_or(c, "first_name"@, seq![]),
        " "@,
        str_or(c, "last_name"@, seq![]),
        " | "@ + str_or(c, "email"@, "—"@),
        "\n  Commandes : "@,
    );
    assert(customer_upto_orders(c) =~= "• ["@ + u64_text_or(c, "id"@, "—"@) + "] "@ + str_or(
        c,
        "first_name"@,
        seq![],
    ) + " "@ + str_or(c, "last_name"@, seq![]) + (" | "@ + str_or(c, "email"@, "—"@)) + "\n  Commandes : "@);
    assert(customer_name_text(c) =~= "] "@ + str_or(c, "first_name"@, seq![]) + " "@ + str_or(
        c,
        "last_name"@,
        seq![],
    ) + (" | "@ + str_or(c, "email"@, "—"@)) + "\n  Commandes : "@);
    lemma_occurs_between(orders, lit, total);
    reveal_strlit(" | Total dépensé : ");
    assert(lit[3] == 'T');
    assert(has_non_ws(lit));
    lemma_non_ws_occurs(lit, customer_rest(c));
}

/// Every customer that `shopify_list_customers` lists from a response that is no API error
/// shows its `first_name` and `last_name` members, in that order, then its `email` member.
pub proof fn lemma_customers_show_name_then_email(cfg: ShopifyConfig, args: Json, r: Json, i: int)
    requires
        api_error(r) is None,
        0 <= i < items_at(r, "customers"@).len(),
    ensures
        handle_view(cfg, "shopify_list_customers"@, args, seq![r]) matches StepView::Done(Ok(t)) && exists|
            p: Seq<char>,
            s: Seq<char>,
        |
            t == p + ("] "@ + str_or(items_at(r, "customers"@)[i], "first_name"@, seq![]) + " "@ + str_or(
                items_at(r, "customers"@)[i],
                "last_name"@,
                seq![],
            ) + " | "@ + str_or(items_at(r, "customers"@)[i], "email"@, "—"@) + "\n  Commandes : "@) + s,
{
    reveal_strlit("shopify_list_customers");
    reveal_strlit("shopify_get_shop");
    assert("shopify_get_shop"@.len() == 16);
    reveal_strlit("shopify_list_orders");
    assert("shopify_list_orders"@.len() == 19);
    reveal_strlit("shopify_get_order");
    assert("shopify_get_order"@.len() == 17);
    reveal_strlit("shopify_get_product");
    assert("shopify_get_product"@.len() == 19);
    reveal_strlit("shopify_get_customer");
    assert("shopify_get_customer"@.len() == 20);
    reveal_strlit("shopify_list_product_variants");
    assert("shopify_list_product_variants"@.len() == 29);
    reveal_strlit("shopify_list_transactions");
    assert("shopify_list_transactions"@.len() == 25);
    reveal_strlit("shopify_list_draft_orders");
    assert("shopify_list_draft_orders"@.len() == 25);
    assert("shopify_list_customers"@.len() == 22);
    let name = "shopify_list_customers"@;
    assert(!is_order_tool(name));
    assert(is_catalog_tool(name));
    assert(handle_view(cfg, name, args, seq![r]) == catalog_view(cfg, name, args, seq![r]));
    assert(catalog_view(cfg, name, args, seq![r]) == list_view(
        cfg,
        seq![r],
        "/customers.json?limit="@ + dec_nat(count_arg(args, "limit"@, 50)),
        Listed::Customer,
        "customers"@,
        " client(s) :\n\n"@,
        "Aucun client trouvé."@,
    ));
    let c = items_at(r, "customers"@)[i];
    lemma_customer_text(c);
    lemma_listing_shows(
        Listed::Customer,
        r,
        "customers"@,
        " client(s) :\n\n"@,
        "Aucun client trouvé."@,
        i,
        customer_name_text(c),
        customer_upto_orders(c),
        customer_rest(c),
    );
}

/// `shopify_update_inventory` sets, at the location named by `location_id`, the available
/// quantity of the item named by `inventory_item_id` to the `available` argument.
#[verifier::spinoff_prover]
#[verifier::rlimit(40)]
pub proof fn lemma_update_inventory_request(cfg: ShopifyConfig, args: Json, l: i64, i: i64, a: i64)
    requires
        args.at("location_id"@).i64_of() == Some(l),
        args.at("inventory_item_id"@).i64_of() == Some(i),
        args.at("available"@).i64_of() == Some(a),
    ensures
        handle_view(cfg, "shopify_update_inventory"@, args, seq![]) == send_view(
            Method::Post,
            "https://"@ + cfg.shop_domain@ + "/admin/api/2024-01/inventory_levels/set.json"@,
            Some(
                "{\"available\":"@ + dec_int(a as int) + ",\"inventory_item_id\":"@ + dec_int(i as int)
                    + ",\"location_id\":"@ + dec_int(l as int) + "}"@,
            ),
        ),
{
    reveal_strlit("shopify_update_inventory");
    reveal_strlit("shopify_get_shop");
    assert("shopify_get_shop"@.len() == 16);
    reveal_strlit("shopify_list_orders");
    assert("shopify_list_orders"@.len() == 19);
    reveal_strlit("shopify_get_order");
    assert("shopify_get_order"@.len() == 17);
    reveal_strlit("shopify_get_product");
    assert("shopify_get_product"@.len() == 19);
    reveal_strlit("shopify_get_customer");
    assert("shopify_get_customer"@.len() == 20);
    reveal_strlit("shopify_list_product_variants");
    assert("shopify_list_product_variants"@.len() == 29);
    reveal_strlit("shopify_list_transactions");
    assert("shopify_list_transactions"@.len() == 25);
    reveal_strlit("shopify_list_draft_orders");
    assert("shopify_list_draft_orders"@.len() == 25);
    reveal_strlit("shopify_list_customers");
    assert("shopify_list_customers"@.len() == 22);
    reveal_strlit("shopify_search_customers");
    assert("shopify_update_inventory"@[8] != "shopify_search_customers"@[8]);
    reveal_strlit("shopify_list_collections");
    assert("shopify_update_inventory"@[8] != "shopify_list_collections"@[8]);
    reveal_strlit("shopify_list_webhooks");
    assert("shopify_list_webhooks"@.len() == 21);
    reveal_strlit("shopify_list_price_rules");
    assert("shopify_update_inventory"@[8] != "shopify_list_price_rules"@[8]);
    reveal_strlit("shopify_list_locations");
    assert("shopify_list_locations"@.len() == 22);
    reveal_strlit("shopify_list_smart_collections");
    assert("shopify_list_smart_collections"@.len() == 30);
    reveal_strlit("shopify_cancel_order");
    assert("shopify_cancel_order"@.len() == 20);
    reveal_strlit("shopify_fulfill_order");
    assert("shopify_fulfill_order"@.len() == 21);
    reveal_strlit("shopify_create_product");
    assert("shopify_create_product"@.len() == 22);
    reveal_strlit("shopify_update_product");
    assert("shopify_update_product"@.len() == 22);
    reveal_strlit("shopify_create_customer");
    assert("shopify_create_customer"@.len() == 23);
    reveal_strlit("shopify_update_customer");
    assert("shopify_update_customer"@.len() == 23);
    reveal_strlit("shopify_create_webhook");
    assert("shopify_create_webhook"@.len() == 22);
    assert("shopify_update_inventory"@.len() == 24);
    let name = "shopify_update_inventory"@;
    assert(!is_order_tool(name));
    assert(!is_catalog_tool(name));
    assert(is_write_tool(name));
    reveal_strlit("/inventory_levels/set.json");
    reveal_strlit("inventory_levels/set.json");
    reveal_strlit("/admin/api/2024-01/");
    reveal_strlit("/admin/api/2024-01/inventory_levels/set.json");
    assert("/inventory_levels/set.json"@.drop_first() =~= "inventory_levels/set.json"@);
    assert(trim_start_spec("inventory_levels/set.json"@, '/') == "inventory_levels/set.json"@);
    assert(trim_start_spec("/inventory_levels/set.json"@, '/') == "inventory_levels/set.json"@);
    assert(api_url(cfg, "/inventory_levels/set.json"@) =~= "https://"@ + cfg.shop_domain@
        + "/admin/api/2024-01/inventory_levels/set.json"@);
}

} // verus!
